//! Lazy reveal of an already received playlist: a window of the tracks that
//! follow the current one, widened a few entries at a time.

use vstd::prelude::*;

verus! {

/// How many entries after the current track a fresh window shows.
pub const INITIAL_WINDOW: usize = 10;

/// How many more entries one "reached the end" signal reveals at most.
pub const WINDOW_STEP: usize = 3;

/// The first index after the current one, or the end of the list where the
/// current index lies at or past it.
pub open spec fn window_start(effective_index: int, track_count: int) -> int {
    if effective_index + 1 < track_count {
        effective_index + 1
    } else {
        track_count
    }
}

/// The entries a fresh window shows: ten, or fewer where the list ends sooner.
pub open spec fn initial_loaded(start: int, track_count: int) -> int {
    if start + INITIAL_WINDOW as int <= track_count {
        INITIAL_WINDOW as int
    } else {
        track_count - start
    }
}

/// Where one more step of reveal ends, from a window ending at `end`.
pub open spec fn step_end(end: int, track_count: int) -> int {
    if end + WINDOW_STEP as int <= track_count {
        end + WINDOW_STEP as int
    } else {
        track_count
    }
}

/// The revealed part of a playlist: `loaded_count` entries from `start_index`,
/// over a list of `track_count` entries.
pub struct PlaylistWindow {
    pub start_index: usize,
    pub loaded_count: usize,
    pub track_count: usize,
}

impl PlaylistWindow {
    /// The window never reaches past the list.
    pub open spec fn wf(&self) -> bool {
        self.start_index + self.loaded_count <= self.track_count
    }

    /// The index one past the last revealed entry.
    pub open spec fn end(&self) -> int {
        self.start_index + self.loaded_count
    }

    /// True when every entry after the start is revealed.
    pub open spec fn exhausted(&self) -> bool {
        self.end() >= self.track_count
    }

    /// The fresh window over `track_count` entries whose current one is at
    /// `effective_index`.
    pub fn new(effective_index: u64, track_count: usize) -> (r: Self)
        ensures
            r.wf(),
            r.track_count == track_count,
            r.start_index == window_start(effective_index as int, track_count as int),
            r.loaded_count == initial_loaded(r.start_index as int, track_count as int),
    {
        let start: usize = if effective_index < track_count as u64 {
            effective_index as usize + 1
        } else {
            track_count
        };
        let loaded: usize = if track_count - start >= INITIAL_WINDOW {
            INITIAL_WINDOW
        } else {
            track_count - start
        };
        PlaylistWindow { start_index: start, loaded_count: loaded, track_count }
    }

    /// The range of indices that is revealed, as (first, one past last).
    pub fn visible_range(&self) -> (r: (usize, usize))
        requires
            self.wf(),
        ensures
            r.0 == self.start_index,
            r.1 == self.end(),
    {
        (self.start_index, self.start_index + self.loaded_count)
    }

    /// Handles the signal that the reader scrolled to the end of what is shown.
    /// Reveals up to three more entries and returns their range as (first, one
    /// past last); where all is revealed already, changes nothing and returns
    /// `None`.
    pub fn scroll_reached_end(&mut self) -> (r: Option<(usize, usize)>)
        requires
            old(self).wf(),
        ensures
            final(self).wf(),
            final(self).start_index == old(self).start_index,
            final(self).track_count == old(self).track_count,
            final(self).loaded_count >= old(self).loaded_count,
            old(self).exhausted() ==> r is None && *final(self) == *old(self),
            !old(self).exhausted() ==> r == Some(
                (old(self).end() as usize, step_end(old(self).end(), old(self).track_count as int) as usize),
            ),
            !old(self).exhausted() ==> final(self).end() == step_end(
                old(self).end(),
                old(self).track_count as int,
            ),
    {
        let next_start = self.start_index + self.loaded_count;
        if next_start >= self.track_count {
            return None;
        }
        let next_end: usize = if self.track_count - next_start >= WINDOW_STEP {
            next_start + WINDOW_STEP
        } else {
            self.track_count
        };
        self.loaded_count = self.loaded_count + (next_end - next_start);
        Some((next_start, next_end))
    }
}

} // verus!
