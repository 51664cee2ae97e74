use playback_sync::app_state::AppState;
use playback_sync::navigation::NavigationHistory;

fn s(x: &str) -> String {
    x.to_string()
}

#[test]
fn push_push_pop_returns_top_and_leaves_previous() {
    let mut h = NavigationHistory::new();
    h.push(s("A"), s("1"));
    h.push(s("B"), s("2"));
    assert_eq!(h.pop(), (s("B"), s("2")));
    assert_eq!(h.current(), (s("A"), s("1")));
    assert_eq!(h.len(), 2);
}

#[test]
fn reset_returns_to_root_frame() {
    let mut h = NavigationHistory::new();
    h.push(s("A"), s("1"));
    h.push(s("B"), s("2"));
    h.pop();
    h.push(s("C"), s("3"));
    h.reset();
    assert_eq!(h.len(), 1);
    assert_eq!(h.current(), (s(""), s("")));
}

#[test]
fn pop_on_root_keeps_root() {
    let mut h = NavigationHistory::new_from(s("Songs"), s("songs-page"));
    assert_eq!(h.pop(), (s("Songs"), s("songs-page")));
    assert_eq!(h.len(), 1);
    assert_eq!(h.current(), (s("Songs"), s("songs-page")));
    assert_eq!(h.pop(), (s("Songs"), s("songs-page")));
}

#[test]
fn reset_keeps_custom_root() {
    let mut h = NavigationHistory::new_from(s("Albums"), s("albums-page"));
    h.push(s("Album"), s("album-details-page"));
    h.reset();
    assert_eq!(h.current(), (s("Albums"), s("albums-page")));
}

#[test]
fn clone_copies_every_frame() {
    let mut h = NavigationHistory::new();
    h.push(s("A"), s("1"));
    let mut c = h.clone();
    assert_eq!(c.len(), 2);
    assert_eq!(c.pop(), (s("A"), s("1")));
    assert_eq!(h.len(), 2);
}

#[test]
fn app_state_navigation() {
    let mut st = AppState::new();
    assert_eq!(st.navigation_stack_len(), 1);
    assert_eq!(st.current_page(), (s(""), s("")));
    st.new_navigation_from("Albums", "albums-page");
    st.push_navigation("Playlist", "playlist-details-page");
    assert_eq!(st.navigation_stack_len(), 2);
    assert_eq!(st.current_page(), (s("Playlist"), s("playlist-details-page")));
    let copy = st.get_navigation_history();
    assert_eq!(copy.len(), 2);
    assert_eq!(st.pop_navigation(), (s("Playlist"), s("playlist-details-page")));
    st.push_navigation("Artist", "artist-details-page");
    st.reset_navigation();
    assert_eq!(st.current_page(), (s("Albums"), s("albums-page")));
}

#[test]
fn app_state_current_path() {
    let mut st = AppState::new();
    assert_eq!(st.current_path(), None);
    st.set_current_path("/music/jazz");
    assert_eq!(st.current_path(), Some(s("/music/jazz")));
}
