//! Track metadata as the API returns it.
use crate::deezer::{Id, Track};
use vstd::prelude::*;

verus! {

/// Track metadata returned as part of game objects in the API.
#[derive(Debug)]
pub struct Meta {
    /// The track's catalog ID
    pub id: Id,
    /// Track title
    pub title: String,
    /// Link to the track
    pub link: String,
    /// Artist name
    pub artist_name: String,
    /// Album title
    pub album_title: String,
    /// URL of an image of the album cover art
    pub album_cover: String,
}

impl Meta {
    /// The metadata of a track of the catalog.
    pub fn from_track(track: Track) -> (meta: Self)
        ensures
            meta.id == track.id,
            meta.title == track.title,
            meta.link == track.link,
            meta.artist_name == track.artist.name,
            meta.album_title == track.album.title,
            meta.album_cover == track.album.cover,
    {
        Self {
            id: track.id,
            title: track.title,
            link: track.link,
            artist_name: track.artist.name,
            album_title: track.album.title,
            album_cover: track.album.cover,
        }
    }
}

} // verus!
