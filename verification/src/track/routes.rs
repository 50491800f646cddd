//! The rules of the track API: which of the tracks found by a search are shown.
use crate::deezer::Track;
use crate::track::Meta;
use vstd::prelude::*;

verus! {

/// How many tracks a search shows at most.
pub const MAX_RESULTS: usize = 5;

/// JSON response to a track search query.
#[derive(Debug)]
pub struct SearchResults {
    /// The tracks that were found.
    pub tracks: Vec<Meta>,
}

/// The metadata of a track of the catalog.
pub open spec fn meta_of(track: Track) -> Meta {
    Meta {
        id: track.id,
        title: track.title,
        link: track.link,
        artist_name: track.artist.name,
        album_title: track.album.title,
        album_cover: track.album.cover,
    }
}

/// The position of the first of the tracks with the greatest rank.
pub open spec fn first_top(tracks: Seq<Track>) -> int
    decreases tracks.len(),
{
    if tracks.len() <= 1 {
        0
    } else {
        let earlier = first_top(tracks.drop_last());
        if tracks.last().rank > tracks[earlier].rank {
            tracks.len() - 1
        } else {
            earlier
        }
    }
}

/// The metadata of the `count` tracks of greatest rank, greatest first, and of all
/// tracks where there are fewer; tracks of the same rank stay in the order they came
/// in.
pub open spec fn top_metas(tracks: Seq<Track>, count: nat) -> Seq<Meta>
    decreases count,
{
    if count == 0 || tracks.len() == 0 {
        Seq::empty()
    } else {
        let top = first_top(tracks);
        seq![meta_of(tracks[top])] + top_metas(tracks.remove(top), (count - 1) as nat)
    }
}

/// The first top track is a track of the list, none has a greater rank, and every
/// track before it has a smaller one.
pub proof fn lemma_first_top(tracks: Seq<Track>)
    requires
        tracks.len() > 0,
    ensures
        0 <= first_top(tracks) < tracks.len(),
        forall|i: int| 0 <= i < tracks.len() ==> (#[trigger] tracks[i]).rank <= tracks[first_top(
            tracks,
        )].rank,
        forall|i: int| 0 <= i < first_top(tracks) ==> (#[trigger] tracks[i]).rank < tracks[first_top(
            tracks,
        )].rank,
    decreases tracks.len(),
{
    if tracks.len() > 1 {
        lemma_first_top(tracks.drop_last());
        let earlier = first_top(tracks.drop_last());
        assert forall|i: int| 0 <= i < tracks.len() implies (#[trigger] tracks[i]).rank
            <= tracks[first_top(tracks)].rank by {
            if i < tracks.len() - 1 {
                assert(tracks.drop_last()[i] == tracks[i]);
            }
        }
        assert forall|i: int| 0 <= i < first_top(tracks) implies (#[trigger] tracks[i]).rank
            < tracks[first_top(tracks)].rank by {
            assert(tracks.drop_last()[i] == tracks[i]);
        }
    }
}

/// The position of the first of the tracks with the greatest rank.
fn position_of_top(tracks: &Vec<Track>) -> (top: usize)
    requires
        tracks@.len() > 0,
    ensures
        top == first_top(tracks@),
        top < tracks@.len(),
{
    let mut top: usize = 0;
    let mut i: usize = 1;
    proof {
        assert(tracks@.subrange(0, 1).len() == 1);
    }
    while i < tracks.len()
        invariant
            1 <= i <= tracks.len(),
            top < i,
            top == first_top(tracks@.subrange(0, i as int)),
        decreases tracks.len() - i,
    {
        proof {
            assert(tracks@.subrange(0, i + 1).drop_last() =~= tracks@.subrange(0, i as int));
        }
        if tracks[i].rank > tracks[top].rank {
            top = i;
        }
        i = i + 1;
    }
    assert(tracks@.subrange(0, tracks@.len() as int) =~= tracks@);
    top
}

/// The results of a search that are shown: the five tracks of greatest rank, greatest
/// first. Where any track was found, the first result is one that none outranks.
pub fn top_results(tracks: Vec<Track>) -> (results: SearchResults)
    ensures
        results.tracks@ == top_metas(tracks@, MAX_RESULTS as nat),
        results.tracks@.len() <= MAX_RESULTS,
        tracks@.len() > 0 ==> results.tracks@.len() > 0 && exists|i: int|
            0 <= i < tracks@.len() && results.tracks@[0] == meta_of(#[trigger] tracks@[i])
                && forall|j: int|
                0 <= j < tracks@.len() ==> (#[trigger] tracks@[j]).rank <= tracks@[i].rank,
{
    proof {
        if tracks@.len() > 0 {
            lemma_first_top(tracks@);
            assert(top_metas(tracks@, MAX_RESULTS as nat)[0] == meta_of(
                tracks@[first_top(tracks@)],
            ));
        }
    }
    let mut left = tracks;
    let mut shown: Vec<Meta> = Vec::new();
    let mut taken: usize = 0;
    while taken < MAX_RESULTS && left.len() > 0
        invariant
            taken <= MAX_RESULTS,
            shown@.len() == taken,
            shown@ + top_metas(left@, (MAX_RESULTS - taken) as nat) == top_metas(
                tracks@,
                MAX_RESULTS as nat,
            ),
        decreases MAX_RESULTS - taken,
    {
        let top = position_of_top(&left);
        let ghost before = left@;
        let ghost so_far = shown@;
        let track = left.remove(top);
        shown.push(Meta::from_track(track));
        taken = taken + 1;
        proof {
            assert(shown@ == so_far.push(meta_of(before[top as int])));
            assert(top_metas(before, (MAX_RESULTS - taken + 1) as nat) == seq![
                meta_of(before[top as int]),
            ] + top_metas(before.remove(top as int), (MAX_RESULTS - taken) as nat));
            assert(shown@ + top_metas(left@, (MAX_RESULTS - taken) as nat) =~= so_far + top_metas(
                before,
                (MAX_RESULTS - taken + 1) as nat,
            ));
        }
    }
    proof {
        assert(top_metas(left@, (MAX_RESULTS - taken) as nat) =~= Seq::<Meta>::empty());
        assert(shown@ + Seq::<Meta>::empty() =~= shown@);
    }
    SearchResults { tracks: shown }
}

} // verus!
