//! Properties of the program that span several operations or hold of
//! every state.
use crate::app::{
    enqueued, event_handled, has_id, shuffle_seed, CollectionView, next_repeat, next_tab_of, shuffle_pick, step_down, step_up,
    stream_started, App, AppEvent, Effect, RepeatMode, Tab,
};
use crate::i18n::{next_lang, Lang};
use crate::player::{
    can_tick, stopped, ticked, SEEK_STEP, toggled, volume_lowered, volume_raised, seeked_forward, Player, PlayerState,
    NANOS_PER_SEC,
};
use crate::text::{is_trim_of, is_white_space};
use crate::tidal::{track_views, StreamInfo, Track, TrackView};
use vstd::arithmetic::div_mod::{lemma_mod_self_0, lemma_small_mod};
use vstd::prelude::*;

verus! {

/// Cycling through the languages four times comes back to the language one
/// started from, and the four steps visit four different languages.
pub proof fn lang_cycle_has_period_four(l: Lang)
    ensures
        next_lang(next_lang(next_lang(next_lang(l)))) == l,
        next_lang(l) != l,
        next_lang(next_lang(l)) != l,
        next_lang(next_lang(next_lang(l))) != l,
{
}

/// Moving to the next screen four times comes back to the screen one
/// started from, and the four steps visit four different screens.
pub proof fn tab_cycle_has_period_four(t: Tab)
    ensures
        next_tab_of(next_tab_of(next_tab_of(next_tab_of(t)))) == t,
        next_tab_of(t) != t,
        next_tab_of(next_tab_of(t)) != t,
        next_tab_of(next_tab_of(next_tab_of(t))) != t,
{
}

/// Cycling through the repeat modes three times comes back to the mode one
/// started from, and the three steps visit three different modes.
pub proof fn repeat_cycle_has_period_three(r: RepeatMode)
    ensures
        next_repeat(next_repeat(next_repeat(r))) == r,
        next_repeat(r) != r,
        next_repeat(next_repeat(r)) != r,
{
}

/// Pausing and then resuming (or resuming and then pausing) gives back the
/// playback state one started from, and changes neither the track, the
/// volume nor the elapsed time.
pub proof fn toggle_pause_twice_restores_state(p: Player, t1: u128, t2: u128)
    ensures
        toggled(toggled(p, t1), t2).state == p.state,
        toggled(toggled(p, t1), t2).current == p.current,
        toggled(toggled(p, t1), t2).volume == p.volume,
        toggled(toggled(p, t1), t2).elapsed == p.elapsed,
{
}

/// Raising the volume and lowering it again gives back the volume one
/// started from, where there was room for the five steps.
pub proof fn volume_up_then_down_restores(p: Player)
    requires
        p.volume + 5 <= 100,
    ensures
        volume_lowered(volume_raised(p)) == p,
{
}

/// The volume stays between 0 and 100 whatever is done to it.
pub proof fn volume_stays_in_range(p: Player)
    requires
        p.volume <= 100,
    ensures
        volume_raised(p).volume <= 100,
        volume_lowered(p).volume <= 100,
{
}

/// Seeking forward never goes past the end of the current track, unless
/// the elapsed time was already past it, in which case it stays.
pub proof fn seek_forward_stays_within_track(p: Player)
    requires
        p.current.is_some(),
    ensures
        seeked_forward(p).elapsed <= p.current.unwrap().duration * NANOS_PER_SEC || seeked_forward(
            p,
        ).elapsed == p.elapsed || p.elapsed > p.current.unwrap().duration * NANOS_PER_SEC,
        p.elapsed <= p.current.unwrap().duration * NANOS_PER_SEC ==> p.elapsed <= seeked_forward(
            p,
        ).elapsed <= p.current.unwrap().duration * NANOS_PER_SEC,
{
}

/// The clock never runs backwards: bringing it up to date never lowers the
/// elapsed time, and stops it only when the process ended.
pub proof fn tick_never_lowers_elapsed(p: Player, now: u128, exited: bool)
    requires
        can_tick(p, now),
    ensures
        ticked(p, now, exited).elapsed >= p.elapsed,
        ticked(p, now, exited).state == PlayerState::Stopped && p.state
            != PlayerState::Stopped ==> exited,
{
}

/// Stopping twice is stopping once.
pub proof fn stop_is_idempotent(p: Player)
    ensures
        stopped(stopped(p)) == stopped(p),
{
}

/// Moving the selection down and then up (or up and then down) comes back
/// to the entry one started from, and both moves stay in the list.
pub proof fn selection_moves_are_inverse(i: int, len: int)
    requires
        0 <= i < len,
    ensures
        step_up(step_down(i, len), len) == i,
        step_down(step_up(i, len), len) == i,
        0 <= step_down(i, len) < len,
        0 <= step_up(i, len) < len,
{
    if i + 1 < len {
        lemma_small_mod((i + 1) as nat, len as nat);
    } else {
        lemma_mod_self_0(len);
    }
    if i == 0 {
        lemma_mod_self_0(len);
    } else {
        lemma_small_mod(i as nat, len as nat);
    }
}

/// A shuffle picks a position in the queue, and never the current one
/// where the queue holds more than one track.
pub proof fn shuffle_picks_another_position(seed: usize, len: int, current: Option<usize>)
    requires
        0 < len <= usize::MAX,
    ensures
        0 <= shuffle_pick(seed, len, current) < len,
        len > 1 && current.is_some() ==> shuffle_pick(seed, len, current) != current.unwrap(),
{
    if len > 1 {
        let m = (seed % (len as usize)) as int;
        assert(0 <= m < len);
        if current == Some(m as usize) {
            assert((m + 1) % len != m) by {
                if m + 1 < len {
                    lemma_small_mod((m + 1) as nat, len as nat);
                } else {
                    lemma_mod_self_0(len);
                }
            }
        }
    }
}

/// The next track is always taken from the queue.
pub proof fn next_target_is_in_queue(a: App, seed: usize)
    requires
        a.can_play_next(),
    ensures
        a.next_target(seed) matches Some(i) ==> i < a.queue@.len(),
{
    broadcast use vstd::std_specs::vec::axiom_spec_len;

    assert(a.queue@.len() == a.queue.len());
    if a.queue@.len() > 0 && a.repeat != RepeatMode::One && a.shuffle {
        shuffle_picks_another_position(seed, a.queue@.len() as int, a.queue_index);
    }
}

/// The previous track is always taken from the queue.
pub proof fn prev_target_is_in_queue(a: App)
    requires
        a.can_play_prev(),
    ensures
        a.prev_target() matches Some(i) ==> i < a.queue@.len(),
{
}

/// Asking a new stream makes every answer to an earlier request stale: its
/// generation differs from the new one, so it is ignored.
pub proof fn new_stream_makes_earlier_answers_stale(
    pre: App,
    post: App,
    track: TrackView,
    qi: usize,
    effects: Seq<Effect>,
    generation: u64,
)
    requires
        stream_started(pre, post, track, qi, effects),
        pre.stream_generation < u64::MAX,
        generation <= pre.stream_generation,
    ensures
        generation != post.stream_generation,
        post.stream_generation > pre.stream_generation,
{
}

/// A track goes into the queue at most once: putting in a track whose
/// identifier is already there leaves the queue as it is, and after the
/// track is put in, a track with its identifier is there.
pub proof fn enqueue_is_idempotent(q0: Vec<Track>, q1: Vec<Track>, q2: Vec<Track>, t: TrackView)
    requires
        enqueued(q0, q1, t),
        enqueued(q1, q2, t),
    ensures
        has_id(q1@, t.id),
        q2 == q1,
{
    if !has_id(q0@, t.id) {
        let n = q0@.len() as int;
        assert(track_views(q1@).len() == n + 1);
        assert(q1@.len() == n + 1);
        assert(track_views(q1@)[n] == t);
        assert(q1@[n]@ == t);
        assert(q1@[n].id == t.id);
    }
}

/// White space removed from both ends leaves nothing more to remove.
pub proof fn trim_is_idempotent(r: Seq<char>, s: Seq<char>)
    requires
        is_trim_of(r, s),
    ensures
        is_trim_of(r, r),
{
    let (a, b) = choose|a: int, b: int|
        {
            &&& 0 <= a <= b <= s.len()
            &&& r == #[trigger] s.subrange(a, b)
            &&& forall|i: int| 0 <= i < a ==> is_white_space(#[trigger] s[i])
            &&& forall|i: int| b <= i < s.len() ==> is_white_space(#[trigger] s[i])
            &&& a < b ==> !is_white_space(s[a]) && !is_white_space(s[b - 1])
        };
    assert(r.subrange(0, r.len() as int) =~= r);
    if r.len() > 0 {
        assert(r[0] == s[a]);
        assert(r[r.len() - 1] == s[b - 1]);
    }
}

/// An answer to a stream request made before the latest one is ignored:
/// it leaves the state as it is and asks for nothing.
pub proof fn stale_stream_answer_is_ignored(
    pre: App,
    post: App,
    track: TrackView,
    qi: usize,
    effects: Seq<Effect>,
    later: App,
    answered: Track,
    info: StreamInfo,
    answered_index: usize,
    generation: u64,
    now: u128,
    later_effects: Seq<Effect>,
)
    requires
        stream_started(pre, post, track, qi, effects),
        pre.stream_generation < u64::MAX,
        generation <= pre.stream_generation,
        event_handled(
            post,
            later,
            AppEvent::StreamReady { track: answered, info, queue_index: answered_index, generation },
            now,
            later_effects,
        ),
    ensures
        later == post,
        later_effects.len() == 0,
{
}

/// With one track repeating, moving to the next track asks the stream of
/// the current track again (of the first track where there is no current
/// one), whatever the clock reads.
pub proof fn next_with_repeat_one_replays_current(
    pre: App,
    post: App,
    clock_nanos: u32,
    effects: Seq<Effect>,
)
    requires
        App::next_played(pre, post, clock_nanos, effects),
        pre.queue@.len() > 0,
        pre.repeat == RepeatMode::One,
    ensures
        effects.len() == 3,
        effects[2] matches Effect::FetchStream { track, queue_index, .. } && queue_index == match pre.queue_index {
            Some(i) => i,
            None => 0,
        } && track@ == pre.queue@[queue_index as int]@,
{
}

/// Without one track repeating and without shuffle, moving to the next
/// track asks the stream of the track after the current one; at the end of
/// the queue, or with no current track, the first track where the whole
/// queue repeats, and nothing at all where it does not repeat.
pub proof fn next_in_order_follows_the_queue(
    pre: App,
    post: App,
    clock_nanos: u32,
    effects: Seq<Effect>,
)
    requires
        App::next_played(pre, post, clock_nanos, effects),
        pre.queue@.len() > 0,
        pre.repeat != RepeatMode::One,
        !pre.shuffle,
    ensures
        forall|i: usize|
            pre.queue_index == Some(i) && i + 1 < pre.queue@.len() ==> effects.len() == 3
                && (effects[2] matches Effect::FetchStream { track, queue_index, .. }
                && queue_index == i + 1 && track@ == pre.queue@[i + 1]@),
        (forall|i: usize| pre.queue_index == Some(i) ==> i + 1 >= pre.queue@.len())
            && pre.repeat == RepeatMode::All ==> effects.len() == 3 && (
        effects[2] matches Effect::FetchStream { track, queue_index, .. } && queue_index == 0
            && track@ == pre.queue@[0]@),
        (forall|i: usize| pre.queue_index == Some(i) ==> i + 1 >= pre.queue@.len())
            && pre.repeat == RepeatMode::Off ==> post == pre && effects.len() == 0,
{    broadcast use vstd::std_specs::vec::axiom_spec_len;

    assert(pre.queue@.len() == pre.queue.len());
}

/// With shuffle on (and not one track repeating), moving to the next track
/// never asks the current track again where the queue holds more than one,
/// and always asks a track of the queue.
pub proof fn next_with_shuffle_plays_another_track(
    pre: App,
    post: App,
    clock_nanos: u32,
    effects: Seq<Effect>,
)
    requires
        App::next_played(pre, post, clock_nanos, effects),
        pre.can_play_next(),
        pre.queue@.len() > 0,
        pre.repeat != RepeatMode::One,
        pre.shuffle,
    ensures
        effects.len() == 3,
        effects[2] matches Effect::FetchStream { queue_index, .. } && queue_index
            < pre.queue@.len() && (pre.queue@.len() > 1 && pre.queue_index.is_some()
            ==> queue_index != pre.queue_index.unwrap()),
{
    broadcast use vstd::std_specs::vec::axiom_spec_len;

    assert(pre.queue@.len() == pre.queue.len());
    shuffle_picks_another_position(
        shuffle_seed(clock_nanos, pre.player.elapsed),
        pre.queue@.len() as int,
        pre.queue_index,
    );
}

/// Moving to the previous track asks the stream of the track before the
/// current one; from the first track, or with no current track, the last
/// track of the queue; with an empty queue nothing happens.
pub proof fn prev_is_the_track_before(pre: App, post: App, effects: Seq<Effect>)
    requires
        App::prev_played(pre, post, effects),
    ensures
        pre.queue@.len() == 0 ==> post == pre && effects.len() == 0,
        forall|i: usize|
            pre.queue_index == Some(i) && 0 < i < pre.queue@.len() ==> effects.len() == 3 && (
            effects[2] matches Effect::FetchStream { track, queue_index, .. } && queue_index == i
                - 1 && track@ == pre.queue@[i - 1]@),
        pre.queue@.len() > 0 && (pre.queue_index == Some(0usize) || pre.queue_index.is_none())
            ==> effects.len() == 3 && (effects[2] matches Effect::FetchStream {
            track,
            queue_index,
            ..
        } && queue_index == pre.queue@.len() - 1 && track@ == pre.queue@[pre.queue@.len()
            - 1]@),
{    broadcast use vstd::std_specs::vec::axiom_spec_len;

    assert(pre.queue@.len() == pre.queue.len());
}

/// The automatic advance happens only after playback stopped by itself:
/// with the player paused or playing, an empty queue, no current track or a
/// track that was not started, nothing changes and nothing is asked. When
/// it happens it happens once: the mark of a started track is cleared.
pub proof fn auto_advance_only_after_a_stop(pre: App, post: App, effects: Seq<Effect>)
    requires
        App::auto_advanced(pre, post, effects),
    ensures
        pre.player.state != PlayerState::Stopped ==> post == pre && effects.len() == 0,
        pre.queue_index.is_none() || pre.queue@.len() == 0 || !pre.auto_advance ==> post == pre
            && effects.len() == 0,
        pre.player.state == PlayerState::Stopped && pre.queue_index.is_some()
            && pre.queue@.len() > 0 && pre.auto_advance ==> !post.auto_advance,
        pre.player.state == PlayerState::Stopped && pre.queue_index.is_some()
            && pre.queue@.len() > 0 && pre.auto_advance && pre.repeat != RepeatMode::Off
            ==> effects.len() == 3 && effects[2] is FetchStream,
{
}

/// Seeking forward moves the elapsed time ten seconds on, to at most the
/// end of the current track, whether the track plays, is paused or stopped;
/// nothing else changes.
pub proof fn seek_forward_moves_ten_seconds(p: Player, s: PlayerState)
    requires
        p.current.is_some(),
    ensures
        p.elapsed + SEEK_STEP <= p.current.unwrap().duration * NANOS_PER_SEC ==> seeked_forward(
            p,
        ).elapsed == p.elapsed + SEEK_STEP,
        p.elapsed + SEEK_STEP > p.current.unwrap().duration * NANOS_PER_SEC ==> seeked_forward(
            p,
        ).elapsed == p.current.unwrap().duration * NANOS_PER_SEC,
        seeked_forward(Player { state: s, ..p }).elapsed == seeked_forward(p).elapsed,
        seeked_forward(p).state == p.state,
        seeked_forward(p).current == p.current,
        seeked_forward(p).volume == p.volume,
        seeked_forward(p).last_tick == p.last_tick,
{
}

/// Entering the library opens the selected entry: the playlist at the
/// selected position, or, past the playlists, the mix at the selected
/// position counted after them, or the selected favorite album in the
/// albums view; nothing where the selection is past the end.
pub proof fn library_enter_opens_the_selected_entry(pre: App, post: App, effects: Seq<Effect>)
    requires
        App::library_entered(pre, post, effects),
    ensures
        pre.collection_view == CollectionView::Tracks && pre.library_selected
            < pre.playlists@.len() ==> effects.len() == 1 && (
        effects[0] matches Effect::LoadPlaylistTracks { uuid } && uuid
            == pre.playlists@[pre.library_selected as int].uuid),
        pre.collection_view == CollectionView::Tracks && pre.playlists@.len()
            <= pre.library_selected < pre.playlists@.len() + pre.mixes@.len() ==> effects.len() == 1
            && (effects[0] matches Effect::LoadMixTracks { mix_id } && mix_id
            == pre.mixes@[pre.library_selected - pre.playlists@.len()].id),
        pre.collection_view == CollectionView::Tracks && pre.library_selected
            >= pre.playlists@.len() + pre.mixes@.len() ==> post == pre && effects.len() == 0,
        pre.collection_view == CollectionView::Albums && pre.fav_album_selected
            < pre.fav_albums@.len() ==> effects.len() == 1 && (
        effects[0] matches Effect::LoadAlbumTracks { album_id } && album_id
            == pre.fav_albums@[pre.fav_album_selected as int].id),
        pre.collection_view == CollectionView::Albums && pre.fav_album_selected
            >= pre.fav_albums@.len() ==> post == pre && effects.len() == 0,
{
}

} // verus!
