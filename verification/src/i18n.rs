//! The four languages of the interface and every text it shows.
use crate::text::{cat2, cat3, cat4, cat5, decimal, decimal_string};
use vstd::prelude::*;

verus! {

/// A language of the interface.
#[derive(Debug, Clone, Copy, PartialEq, Eq, Structural)]
pub enum Lang {
    Es,
    En,
    De,
    Ro,
}

/// The fixed texts of the interface in one language.
pub struct Strings {
    pub tab_search: &'static str,
    pub tab_queue: &'static str,
    pub tab_now: &'static str,
    pub tab_library: &'static str,
    pub search_placeholder: &'static str,
    pub search_results_title: &'static str,
    pub queue_title: &'static str,
    pub now_playing_empty: &'static str,
    pub now_playing_title: &'static str,
    pub loading_image: &'static str,
    pub loading: &'static str,
    pub not_authenticated: &'static str,
    pub no_results_hint: &'static str,
    pub col_title: &'static str,
    pub col_artist: &'static str,
    pub col_album: &'static str,
    pub col_duration: &'static str,
    pub player_stopped: &'static str,
    pub hint_play: &'static str,
    pub hint_pause: &'static str,
    pub hint_next_prev: &'static str,
    pub hint_seek: &'static str,
    pub hint_volume: &'static str,
    pub hint_view: &'static str,
    pub hint_quality: &'static str,
    pub hint_quit: &'static str,
    pub hint_library: &'static str,
    pub hint_fav_tracks: &'static str,
    pub hint_fav_albums: &'static str,
    pub hint_radio: &'static str,
    pub hint_new_releases: &'static str,
    pub hint_lang: &'static str,
    pub library_loading: &'static str,
    pub library_hint: &'static str,
    pub library_title: &'static str,
    pub col_name: &'static str,
    pub col_info: &'static str,
    pub col_type: &'static str,
    pub fav_albums_empty: &'static str,
    pub fav_albums_title: &'static str,
    pub col_tracks: &'static str,
    pub login_title_text: &'static str,
    pub login_open_url: &'static str,
    pub login_code_prefix: &'static str,
    pub login_waiting: &'static str,
    pub login_overlay_title: &'static str,
    pub status_no_results: &'static str,
    pub status_auth_done: &'static str,
    pub status_login_required: &'static str,
    pub status_login_required_short: &'static str,
    pub status_starting_login: &'static str,
    pub status_loading_lib: &'static str,
    pub status_loading_playlist: &'static str,
    pub status_loading_mix: &'static str,
    pub status_loading_fav_tracks: &'static str,
    pub status_loading_fav_albums: &'static str,
    pub status_loading_radio: &'static str,
    pub status_loading_new_releases: &'static str,
    pub status_session_loading: &'static str,
    pub status_session_active: &'static str,
    pub status_press_l: &'static str,
}

/// The fixed texts in Spanish.
pub open spec fn spanish_strings() -> Strings {
    Strings {
        tab_search: "Buscar",
        tab_queue: "Cola",
        tab_now: "Ahora",
        tab_library: "Biblioteca",
        search_placeholder: "Presiona / para buscar...",
        search_results_title: "Resultados",
        queue_title: "Cola de reproducción",
        now_playing_empty: "Sin reproducción — presiona Enter en una canción",
        now_playing_title: "◈ Ahora reproduciendo",
        loading_image: "⟳ Cargando\n  imagen...",
        loading: "  ⟳ Cargando...",
        not_authenticated: "  Presiona L para iniciar sesión en Tidal",
        no_results_hint: "  Sin resultados — busca con /",
        col_title: "  Título",
        col_artist: "Artista",
        col_album: "Álbum",
        col_duration: "Dur.",
        player_stopped: "Sin reproducción",
        hint_play: "reproducir",
        hint_pause: "pausa",
        hint_next_prev: "sig/ant",
        hint_seek: "seek",
        hint_volume: "volumen",
        hint_view: "vista",
        hint_quality: "calidad",
        hint_quit: "salir",
        hint_library: "biblioteca",
        hint_fav_tracks: "fav tracks",
        hint_fav_albums: "fav álbumes",
        hint_radio: "radio",
        hint_new_releases: "novedades",
        hint_lang: "idioma",
        library_loading: "  ⟳ Cargando biblioteca...",
        library_hint: "  Presiona 'i' para cargar playlists y mixes",
        library_title: "Biblioteca",
        col_name: "Nombre",
        col_info: "Info",
        col_type: "Tipo",
        fav_albums_empty: "  Sin álbumes favoritos",
        fav_albums_title: "Álbumes favoritos",
        col_tracks: "Tracks",
        login_title_text: "  Inicia sesión en Tidal",
        login_open_url: "  1. Abre este URL:",
        login_code_prefix: "  2. Código: ",
        login_waiting: "  Esperando autorización...",
        login_overlay_title: " ◈ Autenticación ",
        status_no_results: "Sin resultados",
        status_auth_done: "✓ Autenticado con Tidal",
        status_login_required: "Primero inicia sesión con 'L'",
        status_login_required_short: "Inicia sesión primero (L)",
        status_starting_login: "Iniciando login...",
        status_loading_lib: "⟳ Cargando biblioteca...",
        status_loading_playlist: "⟳ Cargando playlist...",
        status_loading_mix: "⟳ Cargando mix...",
        status_loading_fav_tracks: "⟳ Cargando canciones favoritas...",
        status_loading_fav_albums: "⟳ Cargando álbumes favoritos...",
        status_loading_radio: "⟳ Iniciando radio...",
        status_loading_new_releases: "⟳ Cargando novedades...",
        status_session_loading: "Cargando sesión...",
        status_session_active: "✓ Sesión activa",
        status_press_l: "Presiona 'L' para iniciar sesión en Tidal",
    }
}

/// The fixed texts in English.
pub open spec fn english_strings() -> Strings {
    Strings {
        tab_search: "Search",
        tab_queue: "Queue",
        tab_now: "Now",
        tab_library: "Library",
        search_placeholder: "Press / to search...",
        search_results_title: "Results",
        queue_title: "Playback Queue",
        now_playing_empty: "Nothing playing — press Enter on a track",
        now_playing_title: "◈ Now Playing",
        loading_image: "⟳ Loading\n  image...",
        loading: "  ⟳ Loading...",
        not_authenticated: "  Press L to log in to Tidal",
        no_results_hint: "  No results — search with /",
        col_title: "  Title",
        col_artist: "Artist",
        col_album: "Album",
        col_duration: "Dur.",
        player_stopped: "Nothing playing",
        hint_play: "play",
        hint_pause: "pause",
        hint_next_prev: "next/prev",
        hint_seek: "seek",
        hint_volume: "volume",
        hint_view: "view",
        hint_quality: "quality",
        hint_quit: "quit",
        hint_library: "library",
        hint_fav_tracks: "fav tracks",
        hint_fav_albums: "fav albums",
        hint_radio: "radio",
        hint_new_releases: "new releases",
        hint_lang: "language",
        library_loading: "  ⟳ Loading library...",
        library_hint: "  Press 'i' to load playlists and mixes",
        library_title: "Library",
        col_name: "Name",
        col_info: "Info",
        col_type: "Type",
        fav_albums_empty: "  No favorite albums",
        fav_albums_title: "Favorite Albums",
        col_tracks: "Tracks",
        login_title_text: "  Log in to Tidal",
        login_open_url: "  1. Open this URL:",
        login_code_prefix: "  2. Code: ",
        login_waiting: "  Waiting for authorization...",
        login_overlay_title: " ◈ Authentication ",
        status_no_results: "No results",
        status_auth_done: "✓ Authenticated with Tidal",
        status_login_required: "Log in first with 'L'",
        status_login_required_short: "Log in first (L)",
        status_starting_login: "Starting login...",
        status_loading_lib: "⟳ Loading library...",
        status_loading_playlist: "⟳ Loading playlist...",
        status_loading_mix: "⟳ Loading mix...",
        status_loading_fav_tracks: "⟳ Loading favorite tracks...",
        status_loading_fav_albums: "⟳ Loading favorite albums...",
        status_loading_radio: "⟳ Starting radio...",
        status_loading_new_releases: "⟳ Loading new releases...",
        status_session_loading: "Loading session...",
        status_session_active: "✓ Session active",
        status_press_l: "Press 'L' to log in to Tidal",
    }
}

/// The fixed texts in German.
pub open spec fn german_strings() -> Strings {
    Strings {
        tab_search: "Suchen",
        tab_queue: "Warteschl.",
        tab_now: "Jetzt",
        tab_library: "Bibliothek",
        search_placeholder: "/ zum Suchen drücken...",
        search_results_title: "Ergebnisse",
        queue_title: "Wiedergabeliste",
        now_playing_empty: "Keine Wiedergabe — Enter auf einem Titel drücken",
        now_playing_title: "◈ Jetzt läuft",
        loading_image: "⟳ Lädt\n  Bild...",
        loading: "  ⟳ Lädt...",
        not_authenticated: "  L drücken um sich bei Tidal anzumelden",
        no_results_hint: "  Keine Ergebnisse — suche mit /",
        col_title: "  Titel",
        col_artist: "Künstler",
        col_album: "Album",
        col_duration: "Dauer",
        player_stopped: "Keine Wiedergabe",
        hint_play: "abspielen",
        hint_pause: "pause",
        hint_next_prev: "vor/zurück",
        hint_seek: "spulen",
        hint_volume: "Lautstärke",
        hint_view: "Ansicht",
        hint_quality: "Qualität",
        hint_quit: "beenden",
        hint_library: "Bibliothek",
        hint_fav_tracks: "Fav-Titel",
        hint_fav_albums: "Fav-Alben",
        hint_radio: "Radio",
        hint_new_releases: "Neu",
        hint_lang: "Sprache",
        library_loading: "  ⟳ Bibliothek wird geladen...",
        library_hint: "  'i' drücken um Playlists und Mixes zu laden",
        library_title: "Bibliothek",
        col_name: "Name",
        col_info: "Info",
        col_type: "Typ",
        fav_albums_empty: "  Keine Lieblingsalben",
        fav_albums_title: "Lieblingsalben",
        col_tracks: "Titel",
        login_title_text: "  Bei Tidal anmelden",
        login_open_url: "  1. URL öffnen:",
        login_code_prefix: "  2. Code: ",
        login_waiting: "  Warte auf Autorisierung...",
        login_overlay_title: " ◈ Authentifizierung ",
        status_no_results: "Keine Ergebnisse",
        status_auth_done: "✓ Bei Tidal authentifiziert",
        status_login_required: "Zuerst mit 'L' anmelden",
        status_login_required_short: "Zuerst anmelden (L)",
        status_starting_login: "Anmeldung wird gestartet...",
        status_loading_lib: "⟳ Bibliothek wird geladen...",
        status_loading_playlist: "⟳ Playlist wird geladen...",
        status_loading_mix: "⟳ Mix wird geladen...",
        status_loading_fav_tracks: "⟳ Lieblingstitel werden geladen...",
        status_loading_fav_albums: "⟳ Lieblingsalben werden geladen...",
        status_loading_radio: "⟳ Radio wird gestartet...",
        status_loading_new_releases: "⟳ Neuerscheinungen werden geladen...",
        status_session_loading: "Sitzung wird geladen...",
        status_session_active: "✓ Sitzung aktiv",
        status_press_l: "'L' drücken um sich bei Tidal anzumelden",
    }
}

/// The fixed texts in Romanian.
pub open spec fn romanian_strings() -> Strings {
    Strings {
        tab_search: "Caută",
        tab_queue: "Coadă",
        tab_now: "Acum",
        tab_library: "Bibliotecă",
        search_placeholder: "Apasă / pentru a căuta...",
        search_results_title: "Rezultate",
        queue_title: "Coadă de redare",
        now_playing_empty: "Nimic nu rulează — apasă Enter pe o piesă",
        now_playing_title: "◈ Se redă acum",
        loading_image: "⟳ Se încarcă\n  imaginea...",
        loading: "  ⟳ Se încarcă...",
        not_authenticated: "  Apasă L pentru a te autentifica în Tidal",
        no_results_hint: "  Niciun rezultat — caută cu /",
        col_title: "  Titlu",
        col_artist: "Artist",
        col_album: "Album",
        col_duration: "Dur.",
        player_stopped: "Nimic nu rulează",
        hint_play: "redă",
        hint_pause: "pauză",
        hint_next_prev: "urm/ant",
        hint_seek: "avans",
        hint_volume: "volum",
        hint_view: "vedere",
        hint_quality: "calitate",
        hint_quit: "ieșire",
        hint_library: "bibliotecă",
        hint_fav_tracks: "piese fav",
        hint_fav_albums: "albume fav",
        hint_radio: "radio",
        hint_new_releases: "lansări",
        hint_lang: "limbă",
        library_loading: "  ⟳ Se încarcă biblioteca...",
        library_hint: "  Apasă 'i' pentru a încărca playlisturi și mixuri",
        library_title: "Bibliotecă",
        col_name: "Nume",
        col_info: "Info",
        col_type: "Tip",
        fav_albums_empty: "  Niciun album favorit",
        fav_albums_title: "Albume favorite",
        col_tracks: "Piese",
        login_title_text: "  Autentifică-te în Tidal",
        login_open_url: "  1. Deschide acest URL:",
        login_code_prefix: "  2. Cod: ",
        login_waiting: "  Se așteaptă autorizarea...",
        login_overlay_title: " ◈ Autentificare ",
        status_no_results: "Niciun rezultat",
        status_auth_done: "✓ Autentificat în Tidal",
        status_login_required: "Autentifică-te mai întâi cu 'L'",
        status_login_required_short: "Autentifică-te mai întâi (L)",
        status_starting_login: "Se inițiază autentificarea...",
        status_loading_lib: "⟳ Se încarcă biblioteca...",
        status_loading_playlist: "⟳ Se încarcă playlistul...",
        status_loading_mix: "⟳ Se încarcă mixul...",
        status_loading_fav_tracks: "⟳ Se încarcă piesele favorite...",
        status_loading_fav_albums: "⟳ Se încarcă albumele favorite...",
        status_loading_radio: "⟳ Se inițiază radio...",
        status_loading_new_releases: "⟳ Se încarcă lansările noi...",
        status_session_loading: "Se încarcă sesiunea...",
        status_session_active: "✓ Sesiune activă",
        status_press_l: "Apasă 'L' pentru a te autentifica în Tidal",
    }
}

/// The fixed texts of a language.
pub open spec fn strings_of(lang: Lang) -> Strings {
    match lang {
        Lang::Es => spanish_strings(),
        Lang::En => english_strings(),
        Lang::De => german_strings(),
        Lang::Ro => romanian_strings(),
    }
}

/// The language that follows `lang` when the user cycles through them.
pub open spec fn next_lang(lang: Lang) -> Lang {
    match lang {
        Lang::Es => Lang::En,
        Lang::En => Lang::De,
        Lang::De => Lang::Ro,
        Lang::Ro => Lang::Es,
    }
}

/// The short name of a language.
pub open spec fn lang_label(lang: Lang) -> Seq<char> {
    match lang {
        Lang::Es => "ES"@,
        Lang::En => "EN"@,
        Lang::De => "DE"@,
        Lang::Ro => "RO"@,
    }
}

/// The status line after the language changed to `lang`.
pub open spec fn lang_changed_text(lang: Lang) -> Seq<char> {
    match lang {
        Lang::Es => "Idioma: Español"@,
        Lang::En => "Language: English"@,
        Lang::De => "Sprache: Deutsch"@,
        Lang::Ro => "Limbă: Română"@,
    }
}

/// The status line after a search that found `n` tracks.
pub open spec fn results_count_text(lang: Lang, n: nat) -> Seq<char> {
    match lang {
        Lang::Es => decimal(n) + " resultados"@,
        Lang::En => decimal(n) + " results"@,
        Lang::De => decimal(n) + " Ergebnisse"@,
        Lang::Ro => decimal(n) + " rezultate"@,
    }
}

/// The status line after a failed search.
pub open spec fn search_error_text(lang: Lang, e: Seq<char>) -> Seq<char> {
    match lang {
        Lang::Es => "✗ Error búsqueda: "@ + e,
        Lang::En => "✗ Search error: "@ + e,
        Lang::De => "✗ Suchfehler: "@ + e,
        Lang::Ro => "✗ Eroare căutare: "@ + e,
    }
}

/// The status line after a failed request to the service.
pub open spec fn stream_error_text(lang: Lang, e: Seq<char>) -> Seq<char> {
    match lang {
        Lang::Es => "✗ Error stream: "@ + e,
        Lang::En => "✗ Stream error: "@ + e,
        Lang::De => "✗ Stream-Fehler: "@ + e,
        Lang::Ro => "✗ Eroare stream: "@ + e,
    }
}

/// The status line while the query `q` is searched.
pub open spec fn searching_text(lang: Lang, q: Seq<char>) -> Seq<char> {
    match lang {
        Lang::Es => "Buscando \""@ + q + "\"..."@,
        Lang::En => "Searching \""@ + q + "\"..."@,
        Lang::De => "Suche \""@ + q + "\"..."@,
        Lang::Ro => "Se caută \""@ + q + "\"..."@,
    }
}

/// The status line while the stream of a track is fetched.
pub open spec fn loading_stream_text(lang: Lang, title: Seq<char>) -> Seq<char> {
    match lang {
        Lang::Es => "⟳ Obteniendo stream: "@ + title + "..."@,
        Lang::En => "⟳ Getting stream: "@ + title + "..."@,
        Lang::De => "⟳ Stream wird geladen: "@ + title + "..."@,
        Lang::Ro => "⟳ Se obține stream: "@ + title + "..."@,
    }
}

/// The status line once the login page is open in the browser.
pub open spec fn browser_opened_text(lang: Lang, code: Seq<char>) -> Seq<char> {
    match lang {
        Lang::Es => "Browser abierto. Código: "@ + code,
        Lang::En => "Browser opened. Code: "@ + code,
        Lang::De => "Browser geöffnet. Code: "@ + code,
        Lang::Ro => "Browser deschis. Cod: "@ + code,
    }
}

/// The status line when the browser could not be opened on `url`.
pub open spec fn browser_failed_text(lang: Lang, e: Seq<char>, url: Seq<char>) -> Seq<char> {
    match lang {
        Lang::Es => "No se pudo abrir browser ("@ + e + "): "@ + url,
        Lang::En => "Could not open browser ("@ + e + "): "@ + url,
        Lang::De => "Browser konnte nicht geöffnet werden ("@ + e + "): "@ + url,
        Lang::Ro => "Nu s-a putut deschide browser-ul ("@ + e + "): "@ + url,
    }
}

/// The status line after a failed login.
pub open spec fn auth_error_text(lang: Lang, e: Seq<char>) -> Seq<char> {
    match lang {
        Lang::Es => "✗ Error auth: "@ + e,
        Lang::En => "✗ Auth error: "@ + e,
        Lang::De => "✗ Auth-Fehler: "@ + e,
        Lang::Ro => "✗ Eroare autentificare: "@ + e,
    }
}

/// The status line once the library is loaded.
pub open spec fn library_loaded_text(lang: Lang, playlists: nat, mixes: nat) -> Seq<char> {
    match lang {
        Lang::Es => "✓ "@ + decimal(playlists) + " playlists, "@ + decimal(mixes) + " mixes"@,
        Lang::En => "✓ "@ + decimal(playlists) + " playlists, "@ + decimal(mixes) + " mixes"@,
        Lang::De => "✓ "@ + decimal(playlists) + " Playlists, "@ + decimal(mixes) + " Mixes"@,
        Lang::Ro => "✓ "@ + decimal(playlists) + " playlisturi, "@ + decimal(mixes) + " mixuri"@,
    }
}

/// The status line once the tracks of a playlist, mix or album are loaded.
pub open spec fn tracks_loaded_text(lang: Lang, n: nat) -> Seq<char> {
    match lang {
        Lang::Es => "✓ "@ + decimal(n) + " tracks cargados"@,
        Lang::En => "✓ "@ + decimal(n) + " tracks loaded"@,
        Lang::De => "✓ "@ + decimal(n) + " Titel geladen"@,
        Lang::Ro => "✓ "@ + decimal(n) + " piese încărcate"@,
    }
}

/// The status line once the favorite tracks are in the queue.
pub open spec fn fav_tracks_loaded_text(lang: Lang, n: nat) -> Seq<char> {
    match lang {
        Lang::Es => "✓ "@ + decimal(n) + " canciones favoritas en cola"@,
        Lang::En => "✓ "@ + decimal(n) + " favorite tracks in queue"@,
        Lang::De => "✓ "@ + decimal(n) + " Lieblingstitel in der Warteschlange"@,
        Lang::Ro => "✓ "@ + decimal(n) + " piese favorite în coadă"@,
    }
}

/// The status line once the favorite albums are loaded.
pub open spec fn fav_albums_loaded_text(lang: Lang, n: nat) -> Seq<char> {
    match lang {
        Lang::Es => "✓ "@ + decimal(n) + " álbumes en colección"@,
        Lang::En => "✓ "@ + decimal(n) + " albums in collection"@,
        Lang::De => "✓ "@ + decimal(n) + " Alben in der Sammlung"@,
        Lang::Ro => "✓ "@ + decimal(n) + " albume în colecție"@,
    }
}

/// The status line after the audio quality changed.
pub open spec fn quality_changed_text(lang: Lang, label: Seq<char>) -> Seq<char> {
    match lang {
        Lang::Es => "Calidad: "@ + label,
        Lang::En => "Quality: "@ + label,
        Lang::De => "Qualität: "@ + label,
        Lang::Ro => "Calitate: "@ + label,
    }
}

/// The status line while the tracks of an album are fetched.
pub open spec fn loading_album_text(lang: Lang, title: Seq<char>) -> Seq<char> {
    match lang {
        Lang::Es => "⟳ Cargando "@ + title + "..."@,
        Lang::En => "⟳ Loading "@ + title + "..."@,
        Lang::De => "⟳ "@ + title + " wird geladen..."@,
        Lang::Ro => "⟳ Se încarcă "@ + title + "..."@,
    }
}

/// The title of the library panel.
pub open spec fn library_title_with_counts_text(lang: Lang, playlists: nat, mixes: nat) -> Seq<char> {
    match lang {
        Lang::Es => " Biblioteca ("@ + decimal(playlists) + " playlists, "@ + decimal(mixes) + " mixes) "@,
        Lang::En => " Library ("@ + decimal(playlists) + " playlists, "@ + decimal(mixes) + " mixes) "@,
        Lang::De => " Bibliothek ("@ + decimal(playlists) + " Playlists, "@ + decimal(mixes) + " Mixes) "@,
        Lang::Ro => " Bibliotecă ("@ + decimal(playlists) + " playlisturi, "@ + decimal(mixes) + " mixuri) "@,
    }
}

/// The title of the favorite albums panel.
pub open spec fn fav_albums_title_with_count_text(lang: Lang, n: nat) -> Seq<char> {
    match lang {
        Lang::Es => " ◆ Álbumes favoritos ("@ + decimal(n) + ") — Enter para cargar "@,
        Lang::En => " ◆ Favorite Albums ("@ + decimal(n) + ") — Enter to load "@,
        Lang::De => " ◆ Lieblingsalben ("@ + decimal(n) + ") — Enter zum Laden "@,
        Lang::Ro => " ◆ Albume favorite ("@ + decimal(n) + ") — Enter pentru a încărca "@,
    }
}

/// The number of tracks of an album, in the albums panel.
pub open spec fn tracks_count_text(lang: Lang, n: nat) -> Seq<char> {
    match lang {
        Lang::Es => decimal(n) + " tracks"@,
        Lang::En => decimal(n) + " tracks"@,
        Lang::De => decimal(n) + " Titel"@,
        Lang::Ro => decimal(n) + " piese"@,
    }
}

impl Lang {
    /// The fixed texts of this language.
    pub fn strings(self) -> (r: Strings)
        ensures
            r == strings_of(self),
    {
        match self {
            Lang::Es => Strings {
                tab_search: "Buscar",
                tab_queue: "Cola",
                tab_now: "Ahora",
                tab_library: "Biblioteca",
                search_placeholder: "Presiona / para buscar...",
                search_results_title: "Resultados",
                queue_title: "Cola de reproducción",
                now_playing_empty: "Sin reproducción — presiona Enter en una canción",
                now_playing_title: "◈ Ahora reproduciendo",
                loading_image: "⟳ Cargando\n  imagen...",
                loading: "  ⟳ Cargando...",
                not_authenticated: "  Presiona L para iniciar sesión en Tidal",
                no_results_hint: "  Sin resultados — busca con /",
                col_title: "  Título",
                col_artist: "Artista",
                col_album: "Álbum",
                col_duration: "Dur.",
                player_stopped: "Sin reproducción",
                hint_play: "reproducir",
                hint_pause: "pausa",
                hint_next_prev: "sig/ant",
                hint_seek: "seek",
                hint_volume: "volumen",
                hint_view: "vista",
                hint_quality: "calidad",
                hint_quit: "salir",
                hint_library: "biblioteca",
                hint_fav_tracks: "fav tracks",
                hint_fav_albums: "fav álbumes",
                hint_radio: "radio",
                hint_new_releases: "novedades",
                hint_lang: "idioma",
                library_loading: "  ⟳ Cargando biblioteca...",
                library_hint: "  Presiona 'i' para cargar playlists y mixes",
                library_title: "Biblioteca",
                col_name: "Nombre",
                col_info: "Info",
                col_type: "Tipo",
                fav_albums_empty: "  Sin álbumes favoritos",
                fav_albums_title: "Álbumes favoritos",
                col_tracks: "Tracks",
                login_title_text: "  Inicia sesión en Tidal",
                login_open_url: "  1. Abre este URL:",
                login_code_prefix: "  2. Código: ",
                login_waiting: "  Esperando autorización...",
                login_overlay_title: " ◈ Autenticación ",
                status_no_results: "Sin resultados",
                status_auth_done: "✓ Autenticado con Tidal",
                status_login_required: "Primero inicia sesión con 'L'",
                status_login_required_short: "Inicia sesión primero (L)",
                status_starting_login: "Iniciando login...",
                status_loading_lib: "⟳ Cargando biblioteca...",
                status_loading_playlist: "⟳ Cargando playlist...",
                status_loading_mix: "⟳ Cargando mix...",
                status_loading_fav_tracks: "⟳ Cargando canciones favoritas...",
                status_loading_fav_albums: "⟳ Cargando álbumes favoritos...",
                status_loading_radio: "⟳ Iniciando radio...",
                status_loading_new_releases: "⟳ Cargando novedades...",
                status_session_loading: "Cargando sesión...",
                status_session_active: "✓ Sesión activa",
                status_press_l: "Presiona 'L' para iniciar sesión en Tidal",
            },
            Lang::En => Strings {
                tab_search: "Search",
                tab_queue: "Queue",
                tab_now: "Now",
                tab_library: "Library",
                search_placeholder: "Press / to search...",
                search_results_title: "Results",
                queue_title: "Playback Queue",
                now_playing_empty: "Nothing playing — press Enter on a track",
                now_playing_title: "◈ Now Playing",
                loading_image: "⟳ Loading\n  image...",
                loading: "  ⟳ Loading...",
                not_authenticated: "  Press L to log in to Tidal",
                no_results_hint: "  No results — search with /",
                col_title: "  Title",
                col_artist: "Artist",
                col_album: "Album",
                col_duration: "Dur.",
                player_stopped: "Nothing playing",
                hint_play: "play",
                hint_pause: "pause",
                hint_next_prev: "next/prev",
                hint_seek: "seek",
                hint_volume: "volume",
                hint_view: "view",
                hint_quality: "quality",
                hint_quit: "quit",
                hint_library: "library",
                hint_fav_tracks: "fav tracks",
                hint_fav_albums: "fav albums",
                hint_radio: "radio",
                hint_new_releases: "new releases",
                hint_lang: "language",
                library_loading: "  ⟳ Loading library...",
                library_hint: "  Press 'i' to load playlists and mixes",
                library_title: "Library",
                col_name: "Name",
                col_info: "Info",
                col_type: "Type",
                fav_albums_empty: "  No favorite albums",
                fav_albums_title: "Favorite Albums",
                col_tracks: "Tracks",
                login_title_text: "  Log in to Tidal",
                login_open_url: "  1. Open this URL:",
                login_code_prefix: "  2. Code: ",
                login_waiting: "  Waiting for authorization...",
                login_overlay_title: " ◈ Authentication ",
                status_no_results: "No results",
                status_auth_done: "✓ Authenticated with Tidal",
                status_login_required: "Log in first with 'L'",
                status_login_required_short: "Log in first (L)",
                status_starting_login: "Starting login...",
                status_loading_lib: "⟳ Loading library...",
                status_loading_playlist: "⟳ Loading playlist...",
                status_loading_mix: "⟳ Loading mix...",
                status_loading_fav_tracks: "⟳ Loading favorite tracks...",
                status_loading_fav_albums: "⟳ Loading favorite albums...",
                status_loading_radio: "⟳ Starting radio...",
                status_loading_new_releases: "⟳ Loading new releases...",
                status_session_loading: "Loading session...",
                status_session_active: "✓ Session active",
                status_press_l: "Press 'L' to log in to Tidal",
            },
            Lang::De => Strings {
                tab_search: "Suchen",
                tab_queue: "Warteschl.",
                tab_now: "Jetzt",
                tab_library: "Bibliothek",
                search_placeholder: "/ zum Suchen drücken...",
                search_results_title: "Ergebnisse",
                queue_title: "Wiedergabeliste",
                now_playing_empty: "Keine Wiedergabe — Enter auf einem Titel drücken",
                now_playing_title: "◈ Jetzt läuft",
                loading_image: "⟳ Lädt\n  Bild...",
                loading: "  ⟳ Lädt...",
                not_authenticated: "  L drücken um sich bei Tidal anzumelden",
                no_results_hint: "  Keine Ergebnisse — suche mit /",
                col_title: "  Titel",
                col_artist: "Künstler",
                col_album: "Album",
                col_duration: "Dauer",
                player_stopped: "Keine Wiedergabe",
                hint_play: "abspielen",
                hint_pause: "pause",
                hint_next_prev: "vor/zurück",
                hint_seek: "spulen",
                hint_volume: "Lautstärke",
                hint_view: "Ansicht",
                hint_quality: "Qualität",
                hint_quit: "beenden",
                hint_library: "Bibliothek",
                hint_fav_tracks: "Fav-Titel",
                hint_fav_albums: "Fav-Alben",
                hint_radio: "Radio",
                hint_new_releases: "Neu",
                hint_lang: "Sprache",
                library_loading: "  ⟳ Bibliothek wird geladen...",
                library_hint: "  'i' drücken um Playlists und Mixes zu laden",
                library_title: "Bibliothek",
                col_name: "Name",
                col_info: "Info",
                col_type: "Typ",
                fav_albums_empty: "  Keine Lieblingsalben",
                fav_albums_title: "Lieblingsalben",
                col_tracks: "Titel",
                login_title_text: "  Bei Tidal anmelden",
                login_open_url: "  1. URL öffnen:",
                login_code_prefix: "  2. Code: ",
                login_waiting: "  Warte auf Autorisierung...",
                login_overlay_title: " ◈ Authentifizierung ",
                status_no_results: "Keine Ergebnisse",
                status_auth_done: "✓ Bei Tidal authentifiziert",
                status_login_required: "Zuerst mit 'L' anmelden",
                status_login_required_short: "Zuerst anmelden (L)",
                status_starting_login: "Anmeldung wird gestartet...",
                status_loading_lib: "⟳ Bibliothek wird geladen...",
                status_loading_playlist: "⟳ Playlist wird geladen...",
                status_loading_mix: "⟳ Mix wird geladen...",
                status_loading_fav_tracks: "⟳ Lieblingstitel werden geladen...",
                status_loading_fav_albums: "⟳ Lieblingsalben werden geladen...",
                status_loading_radio: "⟳ Radio wird gestartet...",
                status_loading_new_releases: "⟳ Neuerscheinungen werden geladen...",
                status_session_loading: "Sitzung wird geladen...",
                status_session_active: "✓ Sitzung aktiv",
                status_press_l: "'L' drücken um sich bei Tidal anzumelden",
            },
            Lang::Ro => Strings {
                tab_search: "Caută",
                tab_queue: "Coadă",
                tab_now: "Acum",
                tab_library: "Bibliotecă",
                search_placeholder: "Apasă / pentru a căuta...",
                search_results_title: "Rezultate",
                queue_title: "Coadă de redare",
                now_playing_empty: "Nimic nu rulează — apasă Enter pe o piesă",
                now_playing_title: "◈ Se redă acum",
                loading_image: "⟳ Se încarcă\n  imaginea...",
                loading: "  ⟳ Se încarcă...",
                not_authenticated: "  Apasă L pentru a te autentifica în Tidal",
                no_results_hint: "  Niciun rezultat — caută cu /",
                col_title: "  Titlu",
                col_artist: "Artist",
                col_album: "Album",
                col_duration: "Dur.",
                player_stopped: "Nimic nu rulează",
                hint_play: "redă",
                hint_pause: "pauză",
                hint_next_prev: "urm/ant",
                hint_seek: "avans",
                hint_volume: "volum",
                hint_view: "vedere",
                hint_quality: "calitate",
                hint_quit: "ieșire",
                hint_library: "bibliotecă",
                hint_fav_tracks: "piese fav",
                hint_fav_albums: "albume fav",
                hint_radio: "radio",
                hint_new_releases: "lansări",
                hint_lang: "limbă",
                library_loading: "  ⟳ Se încarcă biblioteca...",
                library_hint: "  Apasă 'i' pentru a încărca playlisturi și mixuri",
                library_title: "Bibliotecă",
                col_name: "Nume",
                col_info: "Info",
                col_type: "Tip",
                fav_albums_empty: "  Niciun album favorit",
                fav_albums_title: "Albume favorite",
                col_tracks: "Piese",
                login_title_text: "  Autentifică-te în Tidal",
                login_open_url: "  1. Deschide acest URL:",
                login_code_prefix: "  2. Cod: ",
                login_waiting: "  Se așteaptă autorizarea...",
                login_overlay_title: " ◈ Autentificare ",
                status_no_results: "Niciun rezultat",
                status_auth_done: "✓ Autentificat în Tidal",
                status_login_required: "Autentifică-te mai întâi cu 'L'",
                status_login_required_short: "Autentifică-te mai întâi (L)",
                status_starting_login: "Se inițiază autentificarea...",
                status_loading_lib: "⟳ Se încarcă biblioteca...",
                status_loading_playlist: "⟳ Se încarcă playlistul...",
                status_loading_mix: "⟳ Se încarcă mixul...",
                status_loading_fav_tracks: "⟳ Se încarcă piesele favorite...",
                status_loading_fav_albums: "⟳ Se încarcă albumele favorite...",
                status_loading_radio: "⟳ Se inițiază radio...",
                status_loading_new_releases: "⟳ Se încarcă lansările noi...",
                status_session_loading: "Se încarcă sesiunea...",
                status_session_active: "✓ Sesiune activă",
                status_press_l: "Apasă 'L' pentru a te autentifica în Tidal",
            },
        }
    }

    /// The language that follows this one when the user cycles through them.
    pub fn cycle(self) -> (r: Self)
        ensures
            r == next_lang(self),
    {
        match self {
            Lang::Es => Lang::En,
            Lang::En => Lang::De,
            Lang::De => Lang::Ro,
            Lang::Ro => Lang::Es,
        }
    }

    /// The short name of this language.
    pub fn label(self) -> (r: &'static str)
        ensures
            r@ == lang_label(self),
    {
        match self {
            Lang::Es => "ES",
            Lang::En => "EN",
            Lang::De => "DE",
            Lang::Ro => "RO",
        }
    }

    /// The status line after a search that found `n` tracks.
    pub fn results_count(self, n: usize) -> (r: String)
        ensures
            r@ == results_count_text(self, n as nat),
    {
        let n_text = decimal_string(n as u64);
        match self {
            Lang::Es => cat2(n_text.as_str(), " resultados"),
            Lang::En => cat2(n_text.as_str(), " results"),
            Lang::De => cat2(n_text.as_str(), " Ergebnisse"),
            Lang::Ro => cat2(n_text.as_str(), " rezultate"),
        }
    }

    /// The status line after a failed search.
    pub fn search_error(self, e: &str) -> (r: String)
        ensures
            r@ == search_error_text(self, e@),
    {
        match self {
            Lang::Es => cat2("✗ Error búsqueda: ", e),
            Lang::En => cat2("✗ Search error: ", e),
            Lang::De => cat2("✗ Suchfehler: ", e),
            Lang::Ro => cat2("✗ Eroare căutare: ", e),
        }
    }

    /// The status line after a failed request to the service.
    pub fn stream_error(self, e: &str) -> (r: String)
        ensures
            r@ == stream_error_text(self, e@),
    {
        match self {
            Lang::Es => cat2("✗ Error stream: ", e),
            Lang::En => cat2("✗ Stream error: ", e),
            Lang::De => cat2("✗ Stream-Fehler: ", e),
            Lang::Ro => cat2("✗ Eroare stream: ", e),
        }
    }

    /// The status line while the query `q` is searched.
    pub fn searching(self, q: &str) -> (r: String)
        ensures
            r@ == searching_text(self, q@),
    {
        match self {
            Lang::Es => cat3("Buscando \"", q, "\"..."),
            Lang::En => cat3("Searching \"", q, "\"..."),
            Lang::De => cat3("Suche \"", q, "\"..."),
            Lang::Ro => cat3("Se caută \"", q, "\"..."),
        }
    }

    /// The status line while the stream of a track is fetched.
    pub fn loading_stream(self, title: &str) -> (r: String)
        ensures
            r@ == loading_stream_text(self, title@),
    {
        match self {
            Lang::Es => cat3("⟳ Obteniendo stream: ", title, "..."),
            Lang::En => cat3("⟳ Getting stream: ", title, "..."),
            Lang::De => cat3("⟳ Stream wird geladen: ", title, "..."),
            Lang::Ro => cat3("⟳ Se obține stream: ", title, "..."),
        }
    }

    /// The status line once the login page is open in the browser.
    pub fn browser_opened(self, code: &str) -> (r: String)
        ensures
            r@ == browser_opened_text(self, code@),
    {
        match self {
            Lang::Es => cat2("Browser abierto. Código: ", code),
            Lang::En => cat2("Browser opened. Code: ", code),
            Lang::De => cat2("Browser geöffnet. Code: ", code),
            Lang::Ro => cat2("Browser deschis. Cod: ", code),
        }
    }

    /// The status line when the browser could not be opened on `url`.
    pub fn browser_failed(self, e: &str, url: &str) -> (r: String)
        ensures
            r@ == browser_failed_text(self, e@, url@),
    {
        match self {
            Lang::Es => cat4("No se pudo abrir browser (", e, "): ", url),
            Lang::En => cat4("Could not open browser (", e, "): ", url),
            Lang::De => cat4("Browser konnte nicht geöffnet werden (", e, "): ", url),
            Lang::Ro => cat4("Nu s-a putut deschide browser-ul (", e, "): ", url),
        }
    }

    /// The status line after a failed login.
    pub fn auth_error(self, e: &str) -> (r: String)
        ensures
            r@ == auth_error_text(self, e@),
    {
        match self {
            Lang::Es => cat2("✗ Error auth: ", e),
            Lang::En => cat2("✗ Auth error: ", e),
            Lang::De => cat2("✗ Auth-Fehler: ", e),
            Lang::Ro => cat2("✗ Eroare autentificare: ", e),
        }
    }

    /// The status line once the library is loaded.
    pub fn library_loaded(self, playlists: usize, mixes: usize) -> (r: String)
        ensures
            r@ == library_loaded_text(self, playlists as nat, mixes as nat),
    {
        let playlists_text = decimal_string(playlists as u64);
        let mixes_text = decimal_string(mixes as u64);
        match self {
            Lang::Es => cat5("✓ ", playlists_text.as_str(), " playlists, ", mixes_text.as_str(), " mixes"),
            Lang::En => cat5("✓ ", playlists_text.as_str(), " playlists, ", mixes_text.as_str(), " mixes"),
            Lang::De => cat5("✓ ", playlists_text.as_str(), " Playlists, ", mixes_text.as_str(), " Mixes"),
            Lang::Ro => cat5("✓ ", playlists_text.as_str(), " playlisturi, ", mixes_text.as_str(), " mixuri"),
        }
    }

    /// The status line once the tracks of a playlist, mix or album are loaded.
    pub fn tracks_loaded(self, n: usize) -> (r: String)
        ensures
            r@ == tracks_loaded_text(self, n as nat),
    {
        let n_text = decimal_string(n as u64);
        match self {
            Lang::Es => cat3("✓ ", n_text.as_str(), " tracks cargados"),
            Lang::En => cat3("✓ ", n_text.as_str(), " tracks loaded"),
            Lang::De => cat3("✓ ", n_text.as_str(), " Titel geladen"),
            Lang::Ro => cat3("✓ ", n_text.as_str(), " piese încărcate"),
        }
    }

    /// The status line once the favorite tracks are in the queue.
    pub fn fav_tracks_loaded(self, n: usize) -> (r: String)
        ensures
            r@ == fav_tracks_loaded_text(self, n as nat),
    {
        let n_text = decimal_string(n as u64);
        match self {
            Lang::Es => cat3("✓ ", n_text.as_str(), " canciones favoritas en cola"),
            Lang::En => cat3("✓ ", n_text.as_str(), " favorite tracks in queue"),
            Lang::De => cat3("✓ ", n_text.as_str(), " Lieblingstitel in der Warteschlange"),
            Lang::Ro => cat3("✓ ", n_text.as_str(), " piese favorite în coadă"),
        }
    }

    /// The status line once the favorite albums are loaded.
    pub fn fav_albums_loaded(self, n: usize) -> (r: String)
        ensures
            r@ == fav_albums_loaded_text(self, n as nat),
    {
        let n_text = decimal_string(n as u64);
        match self {
            Lang::Es => cat3("✓ ", n_text.as_str(), " álbumes en colección"),
            Lang::En => cat3("✓ ", n_text.as_str(), " albums in collection"),
            Lang::De => cat3("✓ ", n_text.as_str(), " Alben in der Sammlung"),
            Lang::Ro => cat3("✓ ", n_text.as_str(), " albume în colecție"),
        }
    }

    /// The status line after the audio quality changed.
    pub fn quality_changed(self, label: &str) -> (r: String)
        ensures
            r@ == quality_changed_text(self, label@),
    {
        match self {
            Lang::Es => cat2("Calidad: ", label),
            Lang::En => cat2("Quality: ", label),
            Lang::De => cat2("Qualität: ", label),
            Lang::Ro => cat2("Calitate: ", label),
        }
    }

    /// The status line while the tracks of an album are fetched.
    pub fn loading_album(self, title: &str) -> (r: String)
        ensures
            r@ == loading_album_text(self, title@),
    {
        match self {
            Lang::Es => cat3("⟳ Cargando ", title, "..."),
            Lang::En => cat3("⟳ Loading ", title, "..."),
            Lang::De => cat3("⟳ ", title, " wird geladen..."),
            Lang::Ro => cat3("⟳ Se încarcă ", title, "..."),
        }
    }

    /// The title of the library panel.
    pub fn library_title_with_counts(self, playlists: usize, mixes: usize) -> (r: String)
        ensures
            r@ == library_title_with_counts_text(self, playlists as nat, mixes as nat),
    {
        let playlists_text = decimal_string(playlists as u64);
        let mixes_text = decimal_string(mixes as u64);
        match self {
            Lang::Es => cat5(" Biblioteca (", playlists_text.as_str(), " playlists, ", mixes_text.as_str(), " mixes) "),
            Lang::En => cat5(" Library (", playlists_text.as_str(), " playlists, ", mixes_text.as_str(), " mixes) "),
            Lang::De => cat5(" Bibliothek (", playlists_text.as_str(), " Playlists, ", mixes_text.as_str(), " Mixes) "),
            Lang::Ro => cat5(" Bibliotecă (", playlists_text.as_str(), " playlisturi, ", mixes_text.as_str(), " mixuri) "),
        }
    }

    /// The title of the favorite albums panel.
    pub fn fav_albums_title_with_count(self, n: usize) -> (r: String)
        ensures
            r@ == fav_albums_title_with_count_text(self, n as nat),
    {
        let n_text = decimal_string(n as u64);
        match self {
            Lang::Es => cat3(" ◆ Álbumes favoritos (", n_text.as_str(), ") — Enter para cargar "),
            Lang::En => cat3(" ◆ Favorite Albums (", n_text.as_str(), ") — Enter to load "),
            Lang::De => cat3(" ◆ Lieblingsalben (", n_text.as_str(), ") — Enter zum Laden "),
            Lang::Ro => cat3(" ◆ Albume favorite (", n_text.as_str(), ") — Enter pentru a încărca "),
        }
    }

    /// The number of tracks of an album, in the albums panel.
    pub fn tracks_count(self, n: u32) -> (r: String)
        ensures
            r@ == tracks_count_text(self, n as nat),
    {
        let n_text = decimal_string(n as u64);
        match self {
            Lang::Es => cat2(n_text.as_str(), " tracks"),
            Lang::En => cat2(n_text.as_str(), " tracks"),
            Lang::De => cat2(n_text.as_str(), " Titel"),
            Lang::Ro => cat2(n_text.as_str(), " piese"),
        }
    }

    /// The status line after the language changed to this one.
    pub fn lang_changed(self) -> (r: String)
        ensures
            r@ == lang_changed_text(self),
    {
        match self {
            Lang::Es => String::from_str("Idioma: Español"),
            Lang::En => String::from_str("Language: English"),
            Lang::De => String::from_str("Sprache: Deutsch"),
            Lang::Ro => String::from_str("Limbă: Română"),
        }
    }
}

} // verus!
