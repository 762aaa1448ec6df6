use tuidal::i18n::Lang;

#[test]
fn strings_are_those_of_the_language() {
    assert_eq!(Lang::Es.strings().tab_search, "Buscar");
    assert_eq!(Lang::En.strings().tab_search, "Search");
    assert_eq!(Lang::De.strings().tab_queue, "Warteschl.");
    assert_eq!(Lang::Ro.strings().tab_library, "Bibliotecă");
    assert_eq!(Lang::En.strings().status_no_results, "No results");
    assert_eq!(Lang::Es.strings().status_press_l, "Presiona 'L' para iniciar sesión en Tidal");
    assert_eq!(Lang::De.strings().loading_image, "⟳ Lädt\n  Bild...");
    assert_eq!(Lang::Ro.strings().login_code_prefix, "  2. Cod: ");
}

#[test]
fn cycle_goes_through_the_four_languages() {
    assert_eq!(Lang::Es.cycle(), Lang::En);
    assert_eq!(Lang::En.cycle(), Lang::De);
    assert_eq!(Lang::De.cycle(), Lang::Ro);
    assert_eq!(Lang::Ro.cycle(), Lang::Es);
    assert_eq!(Lang::Ro.cycle().cycle().cycle().cycle(), Lang::Ro);
}

#[test]
fn labels() {
    assert_eq!(Lang::Es.label(), "ES");
    assert_eq!(Lang::En.label(), "EN");
    assert_eq!(Lang::De.label(), "DE");
    assert_eq!(Lang::Ro.label(), "RO");
}

#[test]
fn counts_are_written_in_decimal() {
    assert_eq!(Lang::Es.results_count(20), "20 resultados");
    assert_eq!(Lang::En.results_count(0), "0 results");
    assert_eq!(Lang::De.results_count(1234567), "1234567 Ergebnisse");
    assert_eq!(Lang::Ro.results_count(7), "7 rezultate");
    assert_eq!(Lang::En.tracks_count(12), "12 tracks");
    assert_eq!(Lang::De.tracks_count(u32::MAX), "4294967295 Titel");
}

#[test]
fn messages_with_text() {
    assert_eq!(Lang::Es.search_error("boom"), "✗ Error búsqueda: boom");
    assert_eq!(Lang::En.stream_error("x"), "✗ Stream error: x");
    assert_eq!(Lang::En.searching("daft punk"), "Searching \"daft punk\"...");
    assert_eq!(Lang::De.searching("a"), "Suche \"a\"...");
    assert_eq!(Lang::Ro.loading_stream("Song"), "⟳ Se obține stream: Song...");
    assert_eq!(Lang::Es.browser_opened("ABCD"), "Browser abierto. Código: ABCD");
    assert_eq!(
        Lang::En.browser_failed("no display", "https://link.tidal.com/X"),
        "Could not open browser (no display): https://link.tidal.com/X"
    );
    assert_eq!(Lang::De.auth_error("e"), "✗ Auth-Fehler: e");
    assert_eq!(Lang::En.quality_changed("AAC 320kbps"), "Quality: AAC 320kbps");
    assert_eq!(Lang::De.loading_album("Discovery"), "⟳ Discovery wird geladen...");
    assert_eq!(Lang::Es.loading_album("Discovery"), "⟳ Cargando Discovery...");
}

#[test]
fn messages_with_counts() {
    assert_eq!(Lang::Es.library_loaded(3, 4), "✓ 3 playlists, 4 mixes");
    assert_eq!(Lang::Ro.library_loaded(1, 0), "✓ 1 playlisturi, 0 mixuri");
    assert_eq!(Lang::En.tracks_loaded(25), "✓ 25 tracks loaded");
    assert_eq!(Lang::De.fav_tracks_loaded(2), "✓ 2 Lieblingstitel in der Warteschlange");
    assert_eq!(Lang::Es.fav_albums_loaded(9), "✓ 9 álbumes en colección");
    assert_eq!(
        Lang::En.library_title_with_counts(5, 6),
        " Library (5 playlists, 6 mixes) "
    );
    assert_eq!(
        Lang::Es.fav_albums_title_with_count(10),
        " ◆ Álbumes favoritos (10) — Enter para cargar "
    );
}

#[test]
fn language_change_messages() {
    assert_eq!(Lang::Es.lang_changed(), "Idioma: Español");
    assert_eq!(Lang::En.lang_changed(), "Language: English");
    assert_eq!(Lang::De.lang_changed(), "Sprache: Deutsch");
    assert_eq!(Lang::Ro.lang_changed(), "Limbă: Română");
}
