use beatdrop::deezer::{Album, Artist, DataWrap, Genre, Id, PartialAlbum, Track};
use beatdrop::track::bulk_insert::{BulkInserter, GenreWrite, TrackPlan};
use beatdrop::track::pick::{
    best_candidate, pick_candidate, step, Action, Candidate, Event, Mode, Played, State,
};
use beatdrop::track::routes::top_results;
use beatdrop::track::Meta;

fn run(mode: Mode, events: &[Event]) -> (State, Vec<Action>) {
    let mut state = State::Start;
    let mut actions = Vec::new();
    for event in events {
        let (next, action) = step(mode, state, *event);
        state = next;
        actions.push(action);
    }
    (state, actions)
}

#[test]
fn a_confirmed_candidate_is_picked() {
    let (state, actions) =
        run(Mode::Any, &[Event::Begin, Event::Candidate(Some(Id(1))), Event::Exists(true)]);
    assert_eq!(state, State::Done);
    assert_eq!(actions, vec![Action::Query, Action::CheckCatalog(Id(1)), Action::Finish(Id(1))]);
}

#[test]
fn an_empty_store_is_refreshed_once() {
    let (state, actions) = run(
        Mode::Any,
        &[Event::Begin, Event::Candidate(None), Event::Refreshed, Event::Candidate(None)],
    );
    assert_eq!(state, State::Done);
    assert_eq!(
        actions,
        vec![Action::Query, Action::RefreshAll, Action::Query, Action::NotFound]
    );
}

#[test]
fn a_genre_is_refreshed_alone() {
    let (_, actions) = run(
        Mode::Genre(Id(132)),
        &[
            Event::Begin,
            Event::Candidate(None),
            Event::Refreshed,
            Event::Candidate(Some(Id(9))),
            Event::Exists(true),
        ],
    );
    assert_eq!(
        actions,
        vec![
            Action::Query,
            Action::RefreshGenre(Id(132)),
            Action::Query,
            Action::CheckCatalog(Id(9)),
            Action::Finish(Id(9)),
        ]
    );
}

#[test]
fn ghost_tracks_are_pruned_and_the_store_is_asked_again() {
    let (state, actions) = run(
        Mode::Any,
        &[
            Event::Begin,
            Event::Candidate(Some(Id(1))),
            Event::Exists(false),
            Event::Deleted,
            Event::Candidate(Some(Id(2))),
            Event::Exists(false),
            Event::Deleted,
            Event::Candidate(None),
            Event::Refreshed,
            Event::Candidate(Some(Id(3))),
            Event::Exists(true),
        ],
    );
    assert_eq!(state, State::Done);
    assert_eq!(
        actions,
        vec![
            Action::Query,
            Action::CheckCatalog(Id(1)),
            Action::DeleteTrack(Id(1)),
            Action::Query,
            Action::CheckCatalog(Id(2)),
            Action::DeleteTrack(Id(2)),
            Action::Query,
            Action::RefreshAll,
            Action::Query,
            Action::CheckCatalog(Id(3)),
            Action::Finish(Id(3)),
        ]
    );
}

#[test]
fn the_pin_of_the_day_is_the_pick_of_the_day() {
    let (state, actions) = run(Mode::Daily, &[Event::Begin, Event::Pin(Some(Id(5)))]);
    assert_eq!(state, State::Done);
    assert_eq!(actions, vec![Action::ReadPin, Action::Finish(Id(5))]);
}

#[test]
fn the_pick_of_the_day_is_pinned_before_it_is_returned() {
    let events = [
        Event::Begin,
        Event::Pin(None),
        Event::Refreshed,
        Event::Candidate(Some(Id(6))),
        Event::Exists(true),
        // another caller has pinned its pick in the meantime
        Event::PinStored(Id(8)),
    ];
    let (state, actions) = run(Mode::Daily, &events);
    assert_eq!(state, State::Done);
    assert_eq!(
        actions,
        vec![
            Action::ReadPin,
            Action::RefreshAll,
            Action::Query,
            Action::CheckCatalog(Id(6)),
            Action::StorePin(Id(6)),
            Action::Finish(Id(8)),
        ]
    );
    // the same day, later: the pin decides
    let (_, actions) = run(Mode::Daily, &[Event::Begin, Event::Pin(Some(Id(8)))]);
    assert_eq!(actions.last(), Some(&Action::Finish(Id(8))));
}

#[test]
fn the_pick_of_the_day_fails_where_the_store_stays_empty() {
    let (state, actions) =
        run(Mode::Daily, &[Event::Begin, Event::Pin(None), Event::Refreshed, Event::Candidate(None)]);
    assert_eq!(state, State::Done);
    assert_eq!(actions.last(), Some(&Action::NotFound));
}

#[test]
fn events_that_answer_nothing_are_ignored() {
    assert_eq!(step(Mode::Any, State::Start, Event::Deleted), (State::Start, Action::Ignore));
    assert_eq!(step(Mode::Any, State::Done, Event::Begin), (State::Done, Action::Ignore));
    assert_eq!(
        step(Mode::Daily, State::Refreshing, Event::Exists(true)),
        (State::Refreshing, Action::Ignore)
    );
}

fn candidate(track: u32, started_at: Option<i64>, rank: i32, draw: u32) -> Candidate {
    Candidate { played: Played { track: Id(track), started_at, rank }, draw }
}

#[test]
fn tracks_never_played_go_first() {
    let candidates = vec![
        candidate(1, Some(5), 100_000, u32::MAX),
        candidate(2, None, 1, 1),
        candidate(3, Some(1), 100_000, u32::MAX),
    ];
    assert_eq!(best_candidate(&candidates), Some(1));
}

#[test]
fn tracks_played_longest_ago_go_next() {
    let candidates = vec![
        candidate(1, Some(5), 100_000, u32::MAX),
        candidate(2, Some(3), 1, 1),
        candidate(3, Some(4), 100_000, u32::MAX),
    ];
    assert_eq!(best_candidate(&candidates), Some(1));
}

#[test]
fn the_greatest_weight_breaks_ties() {
    let candidates = vec![
        candidate(1, None, 10, 5),
        candidate(2, None, 20, 3),
        candidate(3, None, 30, 2),
        candidate(4, None, 60, 1),
    ];
    // weights 50, 60, 60, 60: the first of the greatest
    assert_eq!(best_candidate(&candidates), Some(1));
    assert!(candidates[1].goes_before(&candidates[0]));
    assert!(!candidates[2].goes_before(&candidates[1]));
    let extreme =
        vec![candidate(1, Some(0), i32::MIN, u32::MAX), candidate(2, Some(0), i32::MAX, u32::MAX)];
    assert_eq!(best_candidate(&extreme), Some(1));
    assert_eq!(best_candidate(&vec![]), None);
}

#[test]
fn a_pick_is_a_row_never_played_where_there_is_one() {
    let rows = vec![
        Played { track: Id(1), started_at: Some(10), rank: 900_000 },
        Played { track: Id(2), started_at: None, rank: 10 },
        Played { track: Id(3), started_at: Some(2), rank: 900_000 },
        Played { track: Id(4), started_at: None, rank: 20 },
    ];
    for _ in 0..50 {
        let pick = pick_candidate(&rows).unwrap();
        assert!(pick == Id(2) || pick == Id(4));
    }
    assert_eq!(pick_candidate(&vec![]), None);
    assert_eq!(pick_candidate(&rows[..1].to_vec()), Some(Id(1)));
    assert_eq!(pick_candidate(&vec![rows[0], rows[2]]), Some(Id(3)));
}

fn track(id: u32, rank: i32, album: u32, artist: u32) -> Track {
    Track {
        id: Id(id),
        title: format!("track {id}"),
        rank,
        link: format!("link {id}"),
        preview: format!("preview {id}"),
        artist: Artist {
            id: Id(artist),
            name: format!("artist {artist}"),
            link: String::new(),
            picture: String::new(),
        },
        album: PartialAlbum { id: Id(album), title: format!("album {album}"), cover: String::new() },
    }
}

#[test]
fn a_search_shows_the_five_tracks_of_greatest_rank() {
    let tracks = vec![
        track(1, 10, 1, 1),
        track(2, 50, 1, 1),
        track(3, 30, 1, 1),
        track(4, 50, 1, 1),
        track(5, 20, 1, 1),
        track(6, 40, 1, 1),
        track(7, 5, 1, 1),
    ];
    let ids: Vec<u32> = top_results(tracks).tracks.iter().map(|meta| meta.id.0).collect();
    assert_eq!(ids, vec![2, 4, 6, 3, 5]);
    let few = top_results(vec![track(1, 1, 1, 1), track(2, 2, 1, 1)]);
    let ids: Vec<u32> = few.tracks.iter().map(|meta| meta.id.0).collect();
    assert_eq!(ids, vec![2, 1]);
    assert!(top_results(vec![]).tracks.is_empty());
}

#[test]
fn metadata_comes_from_the_track() {
    let meta = Meta::from_track(track(3, 9, 4, 5));
    assert_eq!(meta.id, Id(3));
    assert_eq!(meta.title, "track 3");
    assert_eq!(meta.link, "link 3");
    assert_eq!(meta.artist_name, "artist 5");
    assert_eq!(meta.album_title, "album 4");
    assert_eq!(meta.album_cover, "");
}

fn genre(id: u32) -> Genre {
    Genre { id: Id(id), name: String::new(), picture: String::new() }
}

fn album(id: u32, genres: &[u32]) -> Album {
    Album {
        id: Id(id),
        title: String::new(),
        cover: String::new(),
        link: String::new(),
        genres: DataWrap { data: genres.iter().map(|id| genre(*id)).collect() },
    }
}

#[test]
fn nothing_is_written_twice() {
    let mut inserter = BulkInserter::new();
    assert_eq!(
        inserter.insert_track(&track(1, 1, 10, 100)),
        TrackPlan { track: true, check_album: true, artist: true }
    );
    assert!(!inserter.album_exists(Id(10)));
    assert_eq!(
        inserter.insert_album(&album(10, &[5, 6, 5])),
        vec![
            GenreWrite { genre: Id(5), new: true },
            GenreWrite { genre: Id(6), new: true },
            GenreWrite { genre: Id(5), new: false },
        ]
    );
    assert!(inserter.album_exists(Id(10)));
    assert_eq!(
        inserter.insert_track(&track(2, 1, 10, 100)),
        TrackPlan { track: true, check_album: false, artist: false }
    );
    assert_eq!(
        inserter.insert_track(&track(1, 1, 11, 101)),
        TrackPlan { track: false, check_album: false, artist: false }
    );
    assert_eq!(
        inserter.insert_album(&album(11, &[6, 7])),
        vec![GenreWrite { genre: Id(6), new: false }, GenreWrite { genre: Id(7), new: true }]
    );
    assert!(!inserter.insert_genre(Id(7)));
    assert!(inserter.insert_genre(Id(8)));
    assert!(inserter.insert_artist(Id(101)));
    assert!(!inserter.insert_artist(Id(100)));
}
