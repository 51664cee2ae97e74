use playback_sync::model::PlaybackStateModel;
use playback_sync::scrub::{scrub_command, scrub_elapsed};
use playback_sync::track::{PlaylistUpdate, TrackSummary};
use playback_sync::window::PlaylistWindow;

fn track(title: &str, duration_ms: u64, elapsed_ms: u64) -> TrackSummary {
    TrackSummary {
        title: title.to_string(),
        artist: "Artist".to_string(),
        album: "Album".to_string(),
        album_artist: "Artist".to_string(),
        duration_ms,
        elapsed_ms,
        album_art: None,
    }
}

fn tracks(n: usize) -> Vec<TrackSummary> {
    (0..n).map(|i| track(&format!("t{}", i), 180000, 0)).collect()
}

fn titles(v: &[TrackSummary]) -> Vec<String> {
    v.iter().map(|t| t.title.clone()).collect()
}

#[test]
fn effective_index_uses_override_when_not_negative() {
    let mut m = PlaybackStateModel::new();
    m.apply_playlist_update(PlaylistUpdate { index: 2, tracks: tracks(30) }, 5, None);
    assert_eq!(m.snapshot().effective_index, 5);
    m.apply_playlist_update(PlaylistUpdate { index: 7, tracks: tracks(30) }, -1, None);
    assert_eq!(m.snapshot().effective_index, 7);
    m.apply_playlist_update(PlaylistUpdate { index: 4, tracks: tracks(30) }, 0, None);
    assert_eq!(m.snapshot().effective_index, 0);
    m.apply_playlist_update(PlaylistUpdate { index: 9, tracks: tracks(30) }, -3, None);
    assert_eq!(m.snapshot().effective_index, 9);
}

#[test]
fn first_update_loads_and_becomes_ready() {
    let mut m = PlaybackStateModel::new();
    assert!(!m.snapshot().ready);
    let reloaded =
        m.apply_playlist_update(PlaylistUpdate { index: 0, tracks: tracks(5) }, -1, Some(track("now", 200000, 10)));
    assert!(reloaded);
    let st = m.snapshot();
    assert!(st.ready);
    assert_eq!(st.current_track.unwrap().title, "now");
}

#[test]
fn playing_track_past_threshold_is_not_replaced() {
    let mut m = PlaybackStateModel::new();
    m.apply_playlist_update(PlaylistUpdate { index: 0, tracks: tracks(30) }, -1, Some(track("a", 200000, 0)));
    m.apply_current_track_update(track("a", 200000, 1001));
    m.scroll_reached_end();
    let reloaded =
        m.apply_playlist_update(PlaylistUpdate { index: 3, tracks: tracks(40) }, -1, Some(track("b", 200000, 0)));
    assert!(!reloaded);
    let st = m.snapshot();
    assert_eq!(st.current_track.unwrap().title, "a");
    assert_eq!(st.effective_index, 3);
    assert_eq!(m.window().loaded_count, 10);
    assert_eq!(m.window().start_index, 4);
    assert_eq!(m.tracks().len(), 40);
}

#[test]
fn track_at_threshold_is_replaced() {
    let mut m = PlaybackStateModel::new();
    m.apply_playlist_update(PlaylistUpdate { index: 0, tracks: tracks(30) }, -1, Some(track("a", 200000, 0)));
    m.apply_current_track_update(track("a", 200000, 1000));
    m.scroll_reached_end();
    assert_eq!(m.window().loaded_count, 13);
    let reloaded =
        m.apply_playlist_update(PlaylistUpdate { index: 1, tracks: tracks(30) }, -1, Some(track("b", 200000, 0)));
    assert!(reloaded);
    assert_eq!(m.snapshot().current_track.unwrap().title, "b");
    assert_eq!(m.window().loaded_count, 10);
}

#[test]
fn not_ready_model_is_replaced_even_past_threshold() {
    let mut m = PlaybackStateModel::new();
    m.apply_current_track_update(track("a", 200000, 50000));
    let reloaded =
        m.apply_playlist_update(PlaylistUpdate { index: 0, tracks: tracks(3) }, -1, Some(track("b", 200000, 50000)));
    assert!(reloaded);
    assert_eq!(m.snapshot().current_track.unwrap().title, "b");
}

#[test]
fn current_track_update_always_replaces() {
    let mut m = PlaybackStateModel::new();
    m.apply_playlist_update(PlaylistUpdate { index: 0, tracks: tracks(3) }, -1, Some(track("a", 200000, 5000)));
    m.apply_current_track_update(track("z", 100000, 7000));
    let st = m.snapshot();
    let t = st.current_track.unwrap();
    assert_eq!(t.title, "z");
    assert_eq!(t.elapsed_ms, 7000);
    assert_eq!(st.effective_index, 0);
}

#[test]
fn either_order_of_updates_gives_consistent_state() {
    let mut a = PlaybackStateModel::new();
    a.apply_playlist_update(PlaylistUpdate { index: 2, tracks: tracks(20) }, -1, Some(track("p", 200000, 0)));
    a.apply_current_track_update(track("c", 200000, 3000));
    let mut b = PlaybackStateModel::new();
    b.apply_current_track_update(track("c", 200000, 3000));
    b.apply_playlist_update(PlaylistUpdate { index: 2, tracks: tracks(20) }, -1, Some(track("p", 200000, 0)));
    assert_eq!(a.snapshot().effective_index, b.snapshot().effective_index);
    assert_eq!(a.window().visible_range(), b.window().visible_range());
    assert_eq!(a.snapshot().current_track.unwrap().title, "c");
    assert_eq!(b.snapshot().current_track.unwrap().title, "p");
}

#[test]
fn window_grows_by_three_and_stops_at_end() {
    let mut m = PlaybackStateModel::new();
    m.apply_playlist_update(PlaylistUpdate { index: 0, tracks: tracks(16) }, -1, None);
    assert_eq!(m.window().visible_range(), (1, 11));
    assert_eq!(titles(&m.up_next())[0], "t1");
    assert_eq!(m.scroll_reached_end(), Some((11, 14)));
    assert_eq!(m.scroll_reached_end(), Some((14, 16)));
    assert_eq!(m.window().loaded_count, 15);
    assert_eq!(m.scroll_reached_end(), None);
    assert_eq!(m.window().loaded_count, 15);
    let up = titles(&m.up_next());
    assert_eq!(up.len(), 15);
    assert_eq!(up[14], "t15");
}

#[test]
fn scroll_at_end_is_a_no_op() {
    let mut w = PlaylistWindow::new(2, 8);
    assert_eq!(w.visible_range(), (3, 8));
    assert_eq!(w.scroll_reached_end(), None);
    assert_eq!(w.start_index, 3);
    assert_eq!(w.loaded_count, 5);
    assert_eq!(w.track_count, 8);
}

#[test]
fn index_past_list_gives_empty_window() {
    let mut w = PlaylistWindow::new(50, 8);
    assert_eq!(w.visible_range(), (8, 8));
    assert_eq!(w.scroll_reached_end(), None);
    let e = PlaylistWindow::new(0, 0);
    assert_eq!(e.visible_range(), (0, 0));
}

#[test]
fn fresh_window_shows_ten() {
    let w = PlaylistWindow::new(4, 100);
    assert_eq!(w.visible_range(), (5, 15));
}

#[test]
fn scrub_half_of_track() {
    let mut m = PlaybackStateModel::new();
    m.apply_current_track_update(track("a", 200000, 0));
    let c = m.scrub(50).unwrap();
    assert_eq!(c.elapsed_ms, 100000);
    assert_eq!(c.offset, 0);
    assert_eq!(m.scrub(0).unwrap().elapsed_ms, 0);
    assert_eq!(m.scrub(100).unwrap().elapsed_ms, 200000);
}

#[test]
fn scrub_without_track_is_skipped() {
    let m = PlaybackStateModel::new();
    assert!(m.scrub(50).is_none());
}

#[test]
fn scrub_rounds_down_and_does_not_overflow() {
    assert_eq!(scrub_elapsed(999, 33), 329);
    assert_eq!(scrub_elapsed(u64::MAX, 100), u64::MAX);
    assert_eq!(scrub_elapsed(u64::MAX, 50), u64::MAX / 2);
    assert_eq!(scrub_command(1000, 7).elapsed_ms, 70);
}
