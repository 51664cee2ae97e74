//! The values that the remote player pushes: one track, and a whole playlist.

use vstd::prelude::*;

verus! {

/// What is known of one track. A received summary is never edited: a newer one
/// replaces it whole.
pub struct TrackSummary {
    pub title: String,
    pub artist: String,
    pub album: String,
    pub album_artist: String,
    pub duration_ms: u64,
    pub elapsed_ms: u64,
    /// The file name of the album art in the local cover cache, if any.
    pub album_art: Option<String>,
}

impl Clone for TrackSummary {
    fn clone(&self) -> (r: Self)
        ensures
            r == *self,
    {
        let album_art = match &self.album_art {
            Some(a) => Some(a.clone()),
            None => None,
        };
        TrackSummary {
            title: self.title.clone(),
            artist: self.artist.clone(),
            album: self.album.clone(),
            album_artist: self.album_artist.clone(),
            duration_ms: self.duration_ms,
            elapsed_ms: self.elapsed_ms,
            album_art,
        }
    }
}

/// A complete playlist as the player sent it: the tracks in its order and the
/// index of the one it counts as current.
pub struct PlaylistUpdate {
    pub index: u64,
    pub tracks: Vec<TrackSummary>,
}

} // verus!
