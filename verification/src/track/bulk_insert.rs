//! Keeps track of what has been written while many tracks are inserted, so that
//! nothing is written twice and the catalog is asked as little as possible.
use crate::deezer::{Album, Id, Track};
use std::collections::HashSet;
use vstd::prelude::*;

verus! {

broadcast use vstd::std_specs::hash::group_hash_axioms;

/// A helper for inserting multiple tracks into the store.
pub struct BulkInserter {
    /// The IDs of all genres that have already been inserted during this operation.
    inserted_genre_ids: HashSet<u32>,
    /// The IDs of all albums that have already been inserted during this operation.
    inserted_album_ids: HashSet<u32>,
    /// The IDs of all artists that have already been inserted during this operation.
    inserted_artist_ids: HashSet<u32>,
    /// The IDs of all tracks that have already been inserted during this operation.
    inserted_track_ids: HashSet<u32>,
}

/// What to write for one genre of an album.
#[derive(Debug, PartialEq, Eq, Clone, Copy, Structural)]
pub struct GenreWrite {
    /// The genre.
    pub genre: Id,
    /// Whether to write the genre itself before the album is linked to it: so for a
    /// genre that has not been written during this operation.
    pub new: bool,
}

/// What to write for one track.
#[derive(Debug, PartialEq, Eq, Clone, Copy, Structural)]
pub struct TrackPlan {
    /// Whether to write the track at all: not so for one written before.
    pub track: bool,
    /// Whether the track's album may be missing in the store: so unless the album was
    /// written during this operation.
    pub check_album: bool,
    /// Whether to write the track's artist.
    pub artist: bool,
}

impl BulkInserter {
    /// The genres written during this operation.
    pub closed spec fn genres(&self) -> Set<u32> {
        self.inserted_genre_ids@
    }

    /// The albums written during this operation.
    pub closed spec fn albums(&self) -> Set<u32> {
        self.inserted_album_ids@
    }

    /// The artists written during this operation.
    pub closed spec fn artists(&self) -> Set<u32> {
        self.inserted_artist_ids@
    }

    /// The tracks written during this operation.
    pub closed spec fn tracks(&self) -> Set<u32> {
        self.inserted_track_ids@
    }

    /// Create a new bulk inserter: nothing has been written yet.
    pub fn new() -> (inserter: Self)
        ensures
            inserter.genres() == Set::<u32>::empty(),
            inserter.albums() == Set::<u32>::empty(),
            inserter.artists() == Set::<u32>::empty(),
            inserter.tracks() == Set::<u32>::empty(),
    {
        Self {
            inserted_genre_ids: HashSet::new(),
            inserted_album_ids: HashSet::new(),
            inserted_artist_ids: HashSet::new(),
            inserted_track_ids: HashSet::new(),
        }
    }

    /// Check if an album was written during this operation. Where it was not, the
    /// store has to be asked.
    pub fn album_exists(&self, album_id: Id) -> (exists: bool)
        ensures
            exists == self.albums().contains(album_id.0),
    {
        self.inserted_album_ids.contains(&album_id.0)
    }

    /// Note a genre as written, and tell whether it has to be: true for a genre that
    /// was not written before.
    pub fn insert_genre(&mut self, genre: Id) -> (new: bool)
        ensures
            new == !old(self).genres().contains(genre.0),
            final(self).genres() == old(self).genres().insert(genre.0),
            final(self).albums() == old(self).albums(),
            final(self).artists() == old(self).artists(),
            final(self).tracks() == old(self).tracks(),
    {
        self.inserted_genre_ids.insert(genre.0)
    }

    /// Note an artist as written, and tell whether it has to be: true for an artist
    /// that was not written before.
    pub fn insert_artist(&mut self, artist: Id) -> (new: bool)
        ensures
            new == !old(self).artists().contains(artist.0),
            final(self).artists() == old(self).artists().insert(artist.0),
            final(self).albums() == old(self).albums(),
            final(self).genres() == old(self).genres(),
            final(self).tracks() == old(self).tracks(),
    {
        self.inserted_artist_ids.insert(artist.0)
    }

    /// Note an album that the store did not have as written, with its genres. For each
    /// genre of the album, in the album's order, the album is to be linked to it, and
    /// the genre itself is to be written first where it was not written before.
    pub fn insert_album(&mut self, album: &Album) -> (writes: Vec<GenreWrite>)
        ensures
            writes@.len() == album.genres.data@.len(),
            forall|i: int|
                0 <= i < writes@.len() ==> (#[trigger] writes@[i]).genre
                    == album.genres.data@[i].id,
            forall|i: int|
                0 <= i < writes@.len() ==> (#[trigger] writes@[i]).new == (!old(
                    self,
                ).genres().contains(album.genres.data@[i].id.0) && forall|j: int|
                    0 <= j < i ==> album.genres.data@[j].id != album.genres.data@[i].id),
            forall|id: u32|
                final(self).genres().contains(id) <==> old(self).genres().contains(id) || exists|
                    i: int,
                |
                    0 <= i < album.genres.data@.len() && (#[trigger] album.genres.data@[i]).id.0
                        == id,
            final(self).albums() == old(self).albums().insert(album.id.0),
            final(self).artists() == old(self).artists(),
            final(self).tracks() == old(self).tracks(),
    {
        let mut writes: Vec<GenreWrite> = Vec::new();
        let mut i: usize = 0;
        while i < album.genres.data.len()
            invariant
                i <= album.genres.data.len(),
                writes@.len() == i,
                forall|k: int|
                    0 <= k < i ==> (#[trigger] writes@[k]).genre == album.genres.data@[k].id,
                forall|k: int|
                    0 <= k < i ==> (#[trigger] writes@[k]).new == (!old(self).genres().contains(
                        album.genres.data@[k].id.0,
                    ) && forall|j: int|
                        0 <= j < k ==> album.genres.data@[j].id != album.genres.data@[k].id),
                forall|id: u32|
                    self.genres().contains(id) <==> old(self).genres().contains(id) || exists|
                        k: int,
                    |
                        0 <= k < i && (#[trigger] album.genres.data@[k]).id.0 == id,
                self.albums() == old(self).albums(),
                self.artists() == old(self).artists(),
                self.tracks() == old(self).tracks(),
            decreases album.genres.data.len() - i,
        {
            let genre: Id = album.genres.data[i].id;
            let new = self.insert_genre(genre);
            writes.push(GenreWrite { genre, new });
            i = i + 1;
        }
        self.inserted_album_ids.insert(album.id.0);
        writes
    }

    /// Plan the writes for a track, and note the track and its artist as written. A
    /// track that was written before takes nothing. Else the track is written, after
    /// its artist where that one is new. Its album has to be there first: unless it
    /// was written during this operation, the store has to be asked for it, and where
    /// the store does not have it, it is fetched and goes through
    /// [`BulkInserter::insert_album`].
    pub fn insert_track(&mut self, track: &Track) -> (plan: TrackPlan)
        ensures
            plan.track == !old(self).tracks().contains(track.id.0),
            plan.check_album == (plan.track && !old(self).albums().contains(track.album.id.0)),
            plan.artist == (plan.track && !old(self).artists().contains(track.artist.id.0)),
            final(self).tracks() == old(self).tracks().insert(track.id.0),
            final(self).artists() == if plan.track {
                old(self).artists().insert(track.artist.id.0)
            } else {
                old(self).artists()
            },
            final(self).albums() == old(self).albums(),
            final(self).genres() == old(self).genres(),
    {
        if self.inserted_track_ids.contains(&track.id.0) {
            assert(self.tracks().insert(track.id.0) =~= self.tracks());
            return TrackPlan { track: false, check_album: false, artist: false };
        }
        let check_album = !self.album_exists(track.album.id);
        let artist = self.insert_artist(track.artist.id);
        self.inserted_track_ids.insert(track.id.0);
        TrackPlan { track: true, check_album, artist }
    }
}

} // verus!
