//! Properties of the model that relate several updates.

use vstd::prelude::*;

use crate::model::{
    current_track_step, effective_index_of, playlist_step, suppresses, view_wf, ModelView,
    SUPPRESSION_THRESHOLD_MS,
};
use crate::track::TrackSummary;
use crate::window::{initial_loaded, window_start, INITIAL_WINDOW};

verus! {

/// The index treated as current after a playlist update depends on that update
/// and the override alone: whatever state two models were in, the same update
/// leaves them with the same effective index, the override when it is not
/// negative and the player's index otherwise.
pub proof fn lemma_effective_index_fresh(
    m1: ModelView,
    m2: ModelView,
    server_index: u64,
    tracks: Seq<TrackSummary>,
    resume_override: i64,
    companion: Option<TrackSummary>,
)
    ensures
        playlist_step(m1, server_index, tracks, resume_override, companion).state.effective_index
            == playlist_step(m2, server_index, tracks, resume_override, companion).state.effective_index,
        resume_override >= 0 ==> playlist_step(
            m1,
            server_index,
            tracks,
            resume_override,
            companion,
        ).state.effective_index == resume_override,
        resume_override < 0 ==> playlist_step(
            m1,
            server_index,
            tracks,
            resume_override,
            companion,
        ).state.effective_index == server_index,
{
}

/// One playlist update as the consumer meets it: the player's index, the
/// tracks, the host's resume override and the companion current track.
pub type PlaylistInput = (u64, Seq<TrackSummary>, i64, Option<TrackSummary>);

/// The model after the playlist updates of `inputs`, in order.
pub open spec fn playlist_steps(m: ModelView, inputs: Seq<PlaylistInput>) -> ModelView
    decreases inputs.len(),
{
    if inputs.len() == 0 {
        m
    } else {
        let (i, t, o, c) = inputs.last();
        playlist_step(playlist_steps(m, inputs.drop_last()), i, t, o, c)
    }
}

/// After any non-empty sequence of playlist updates, the effective index is
/// the one the last update gives: its override when that is not negative, its
/// player's index otherwise. Nothing of earlier updates carries over.
pub proof fn lemma_effective_index_after_sequence(m: ModelView, inputs: Seq<PlaylistInput>)
    requires
        inputs.len() > 0,
    ensures
        playlist_steps(m, inputs).state.effective_index == effective_index_of(
            inputs.last().0,
            inputs.last().2,
        ),
        inputs.last().2 >= 0 ==> playlist_steps(m, inputs).state.effective_index == inputs.last().2,
        inputs.last().2 < 0 ==> playlist_steps(m, inputs).state.effective_index == inputs.last().0,
{
}

/// A ready model showing a track that has played past the threshold keeps that
/// track through a playlist update; a model that is not ready, or whose track
/// has not played past it, takes the companion track, becomes ready and gets a
/// fresh window.
pub proof fn lemma_suppression(
    m: ModelView,
    server_index: u64,
    tracks: Seq<TrackSummary>,
    resume_override: i64,
    companion: Option<TrackSummary>,
)
    requires
        tracks.len() <= usize::MAX,
    ensures
        ({
            let n = playlist_step(m, server_index, tracks, resume_override, companion);
            &&& (m.state.ready && m.state.current_track is Some
                && m.state.current_track->0.elapsed_ms > SUPPRESSION_THRESHOLD_MS)
                ==> n.state.current_track == m.state.current_track
            &&& (!m.state.ready || m.state.current_track is None || m.state.current_track->0.elapsed_ms
                <= SUPPRESSION_THRESHOLD_MS) ==> n.state.current_track == companion && n.state.ready
                && n.window.loaded_count == initial_loaded(
                n.window.start_index as int,
                tracks.len() as int,
            )
        }),
{
}

/// Every playlist update leaves a well-formed model whose window is fresh: it
/// starts right after the new current index and shows ten entries, where the
/// new list has that many after the start.
pub proof fn lemma_window_reset(
    m: ModelView,
    server_index: u64,
    tracks: Seq<TrackSummary>,
    resume_override: i64,
    companion: Option<TrackSummary>,
)
    requires
        tracks.len() <= usize::MAX,
    ensures
        ({
            let n = playlist_step(m, server_index, tracks, resume_override, companion);
            &&& view_wf(n)
            &&& n.window.start_index == window_start(n.state.effective_index as int, tracks.len() as int)
            &&& n.window.start_index + INITIAL_WINDOW <= tracks.len() ==> n.window.loaded_count
                == INITIAL_WINDOW
        }),
{
}

/// A current-track update and a playlist update give a well-formed model in
/// either order. Both orders agree on the playlist, the effective index, the
/// window and readiness, and the current track is always one of the two tracks
/// handed in, never a mix of the old and the new state.
pub proof fn lemma_interleaving(
    m: ModelView,
    track: TrackSummary,
    server_index: u64,
    tracks: Seq<TrackSummary>,
    resume_override: i64,
    companion: Option<TrackSummary>,
)
    requires
        view_wf(m),
        tracks.len() <= usize::MAX,
    ensures
        ({
            let a = current_track_step(
                playlist_step(m, server_index, tracks, resume_override, companion),
                track,
            );
            let b = playlist_step(
                current_track_step(m, track),
                server_index,
                tracks,
                resume_override,
                companion,
            );
            &&& view_wf(a)
            &&& view_wf(b)
            &&& a.tracks == b.tracks
            &&& a.state.effective_index == b.state.effective_index
            &&& a.state.effective_index == effective_index_of(server_index, resume_override)
            &&& a.window == b.window
            &&& a.state.ready && b.state.ready
            &&& a.state.current_track == Some(track)
            &&& b.state.current_track == Some(track) || b.state.current_track == companion
            &&& suppresses(current_track_step(m, track).state) ==> b.state.current_track == Some(track)
        }),
{
}

} // verus!
