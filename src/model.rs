//! The local projection of the player: the current track, the playlist, the
//! index treated as current, and the revealed window of what plays next.
//! One consumer applies the updates of both streams, in any interleaving.

use vstd::prelude::*;

use crate::scrub::{scrub_command, scrub_target, PlayCommand};
use crate::track::{PlaylistUpdate, TrackSummary};
use crate::window::{initial_loaded, step_end, window_start, PlaylistWindow};

verus! {

/// Past this much elapsed time a playing track is no longer replaced by a
/// playlist reload.
pub const SUPPRESSION_THRESHOLD_MS: u64 = 1000;

/// What a reader of the model sees: the current track, the index treated as
/// current, and whether a first load has happened.
pub struct PlaybackState {
    pub current_track: Option<TrackSummary>,
    pub effective_index: u64,
    pub ready: bool,
}

impl Clone for PlaybackState {
    fn clone(&self) -> (r: Self)
        ensures
            r == *self,
    {
        let current_track = match &self.current_track {
            Some(t) => Some(t.clone()),
            None => None,
        };
        PlaybackState { current_track, effective_index: self.effective_index, ready: self.ready }
    }
}

/// The whole model in mathematical terms.
pub struct ModelView {
    pub state: PlaybackState,
    pub tracks: Seq<TrackSummary>,
    pub window: PlaylistWindow,
}

/// The index treated as current: a resume override that is not negative wins
/// over the player's index; any negative override means there is none.
pub open spec fn effective_index_of(server_index: u64, resume_override: i64) -> u64 {
    if resume_override >= 0 {
        resume_override as u64
    } else {
        server_index
    }
}

/// A fresh window over `track_count` entries after `effective_index`.
pub open spec fn fresh_window(effective_index: u64, track_count: int) -> PlaylistWindow {
    PlaylistWindow {
        start_index: window_start(effective_index as int, track_count) as usize,
        loaded_count: initial_loaded(window_start(effective_index as int, track_count), track_count) as usize,
        track_count: track_count as usize,
    }
}

/// A playlist update leaves the shown track alone when a track is shown, the
/// model is ready and that track has played past the threshold.
pub open spec fn suppresses(s: PlaybackState) -> bool {
    &&& s.ready
    &&& s.current_track matches Some(t)
    &&& t.elapsed_ms > SUPPRESSION_THRESHOLD_MS
}

/// The window covers only the list and starts right after the current index.
pub open spec fn view_wf(m: ModelView) -> bool {
    &&& m.window.wf()
    &&& m.window.track_count == m.tracks.len()
    &&& m.window.start_index == window_start(m.state.effective_index as int, m.tracks.len() as int)
}

/// The model after a playlist update. The playlist, the effective index and
/// the window are always replaced; the current track is replaced by
/// `companion`, and the model made ready, unless the update is suppressed.
pub open spec fn playlist_step(
    m: ModelView,
    server_index: u64,
    tracks: Seq<TrackSummary>,
    resume_override: i64,
    companion: Option<TrackSummary>,
) -> ModelView {
    let idx = effective_index_of(server_index, resume_override);
    ModelView {
        state: PlaybackState {
            current_track: if suppresses(m.state) {
                m.state.current_track
            } else {
                companion
            },
            effective_index: idx,
            ready: true,
        },
        tracks,
        window: fresh_window(idx, tracks.len() as int),
    }
}

/// The model after a current-track update: only the current track changes.
pub open spec fn current_track_step(m: ModelView, track: TrackSummary) -> ModelView {
    ModelView { state: PlaybackState { current_track: Some(track), ..m.state }, ..m }
}

/// The state that the single consumer of the update streams maintains.
pub struct PlaybackStateModel {
    state: PlaybackState,
    tracks: Vec<TrackSummary>,
    window: PlaylistWindow,
}

impl View for PlaybackStateModel {
    type V = ModelView;

    closed spec fn view(&self) -> ModelView {
        ModelView { state: self.state, tracks: self.tracks@, window: self.window }
    }
}

impl PlaybackStateModel {
    pub open spec fn wf(&self) -> bool {
        view_wf(self@)
    }

    /// A model before any update: no track, an empty playlist, not ready.
    pub fn new() -> (r: Self)
        ensures
            r.wf(),
            r@.state.current_track is None,
            r@.state.effective_index == 0,
            !r@.state.ready,
            r@.tracks.len() == 0,
    {
        PlaybackStateModel {
            state: PlaybackState { current_track: None, effective_index: 0, ready: false },
            tracks: Vec::new(),
            window: PlaylistWindow::new(0, 0),
        }
    }

    /// Applies a playlist update. `resume_override` is the host's resume index
    /// (negative for none) and `companion` the current track the host fetched
    /// with it. Returns true when the shown track and the views of what plays
    /// now and next are to be rebuilt, false when the update was suppressed.
    pub fn apply_playlist_update(
        &mut self,
        update: PlaylistUpdate,
        resume_override: i64,
        companion: Option<TrackSummary>,
    ) -> (reloaded: bool)
        requires
            old(self).wf(),
        ensures
            final(self).wf(),
            final(self)@ == playlist_step(
                old(self)@,
                update.index,
                update.tracks@,
                resume_override,
                companion,
            ),
            final(self)@.state.effective_index == effective_index_of(update.index, resume_override),
            final(self)@.tracks == update.tracks@,
            reloaded == !suppresses(old(self)@.state),
            !reloaded ==> final(self)@.state.current_track == old(self)@.state.current_track,
            reloaded ==> final(self)@.state.current_track == companion,
    {
        let idx: u64 = if resume_override >= 0 {
            resume_override as u64
        } else {
            update.index
        };
        let suppressed = match &self.state.current_track {
            Some(t) => self.state.ready && t.elapsed_ms > SUPPRESSION_THRESHOLD_MS,
            None => false,
        };
        let count = update.tracks.len();
        self.tracks = update.tracks;
        self.state.effective_index = idx;
        self.window = PlaylistWindow::new(idx, count);
        if !suppressed {
            self.state.current_track = companion;
            self.state.ready = true;
        }
        !suppressed
    }

    /// Applies a current-track update: the track replaces the current one
    /// whole, whatever the state; nothing else changes.
    pub fn apply_current_track_update(&mut self, track: TrackSummary)
        requires
            old(self).wf(),
        ensures
            final(self).wf(),
            final(self)@ == current_track_step(old(self)@, track),
    {
        self.state.current_track = Some(track);
    }

    /// Reveals up to three more entries of the playlist, as
    /// `PlaylistWindow::scroll_reached_end` does; nothing else changes.
    pub fn scroll_reached_end(&mut self) -> (r: Option<(usize, usize)>)
        requires
            old(self).wf(),
        ensures
            final(self).wf(),
            final(self)@.state == old(self)@.state,
            final(self)@.tracks == old(self)@.tracks,
            final(self)@.window.start_index == old(self)@.window.start_index,
            final(self)@.window.loaded_count >= old(self)@.window.loaded_count,
            old(self)@.window.exhausted() ==> r is None && final(self)@ == old(self)@,
            !old(self)@.window.exhausted() ==> r == Some(
                (
                    old(self)@.window.end() as usize,
                    step_end(old(self)@.window.end(), old(self)@.tracks.len() as int)
                        as usize,
                ),
            ),
            !old(self)@.window.exhausted() ==> final(self)@.window.end() == step_end(
                old(self)@.window.end(),
                old(self)@.tracks.len() as int,
            ),
    {
        self.window.scroll_reached_end()
    }

    /// The seek command for `position` percent of the current track, or `None`
    /// where no track is known.
    pub fn scrub(&self, position: u64) -> (r: Option<PlayCommand>)
        requires
            position <= 100,
        ensures
            self@.state.current_track is None ==> r is None,
            self@.state.current_track matches Some(t) ==> r matches Some(c) && c.offset == 0
                && c.elapsed_ms == scrub_target(t.duration_ms, position),
    {
        match &self.state.current_track {
            Some(t) => Some(scrub_command(t.duration_ms, position)),
            None => None,
        }
    }

    /// A copy of what a reader sees.
    pub fn snapshot(&self) -> (r: PlaybackState)
        ensures
            r == self@.state,
    {
        self.state.clone()
    }

    /// The window of what plays next.
    pub fn window(&self) -> (r: &PlaylistWindow)
        ensures
            *r == self@.window,
    {
        &self.window
    }

    /// The playlist as last received.
    pub fn tracks(&self) -> (r: &Vec<TrackSummary>)
        ensures
            r@ == self@.tracks,
    {
        &self.tracks
    }

    /// Copies of the revealed entries of what plays next, in playlist order.
    pub fn up_next(&self) -> (r: Vec<TrackSummary>)
        requires
            self.wf(),
        ensures
            r@ == self@.tracks.subrange(self@.window.start_index as int, self@.window.end()),
    {
        let (from, to) = self.window.visible_range();
        let mut out: Vec<TrackSummary> = Vec::new();
        let mut i: usize = from;
        while i < to
            invariant
                from <= i <= to,
                to <= self.tracks@.len(),
                out@ == self.tracks@.subrange(from as int, i as int),
            decreases to - i,
        {
            out.push(self.tracks[i].clone());
            i += 1;
            assert(out@ =~= self.tracks@.subrange(from as int, i as int));
        }
        out
    }
}

} // verus!
