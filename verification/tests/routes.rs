use beatdrop::api_error::{ApiError, Status};
use beatdrop::deezer::{Genre, Id, OptionId};
use beatdrop::game::logic::Update;
use beatdrop::game::response::ConstantsSerde;
use beatdrop::game::routes::{
    clip_range, counted_as, game_of, plan_new_game, submit_guess, GuessInput, NewGame,
};
use beatdrop::game::Game;
use beatdrop::track::pick::Mode;
use beatdrop::track::Meta;

const TARGET: Id = Id(42);

fn meta(id: u32, title: &str) -> Meta {
    Meta {
        id: Id(id),
        title: title.to_string(),
        link: String::new(),
        artist_name: String::new(),
        album_title: String::new(),
        album_cover: String::new(),
    }
}

fn game(timed: bool) -> Game {
    Game::create(1, 10, 0, None, false, timed, TARGET)
}

fn client(error: ApiError) -> (Status, &'static str) {
    match error {
        ApiError::Client(parts) => parts,
        ApiError::Internal(_) => panic!("a client error was expected"),
    }
}

#[test]
fn a_daily_game_with_a_genre_or_a_timer_is_rejected() {
    let reason = "daily games cannot be timed or have a genre";
    for body in [
        NewGame { genre_id: Some(Id(1)), daily: true, timed: false },
        NewGame { genre_id: None, daily: true, timed: true },
        NewGame { genre_id: Some(Id(1)), daily: true, timed: true },
    ] {
        for daily_started in [false, true] {
            let error = plan_new_game(&body, false, daily_started).unwrap_err();
            assert_eq!(client(error), (Status::BadRequest, reason));
        }
    }
}

#[test]
fn games_are_planned_by_their_mode() {
    let daily = NewGame { genre_id: None, daily: true, timed: false };
    assert_eq!(plan_new_game(&daily, false, false).unwrap(), Mode::Daily);
    let genre = NewGame { genre_id: Some(Id(132)), daily: false, timed: true };
    assert_eq!(plan_new_game(&genre, false, true).unwrap(), Mode::Genre(Id(132)));
    let any = NewGame { genre_id: None, daily: false, timed: false };
    assert_eq!(plan_new_game(&any, false, true).unwrap(), Mode::Any);
}

#[test]
fn one_game_at_a_time_and_one_daily_game_a_day() {
    let daily = NewGame { genre_id: None, daily: true, timed: false };
    assert_eq!(
        client(plan_new_game(&daily, true, false).unwrap_err()),
        (Status::Conflict, "user already has an ongoing game")
    );
    assert_eq!(
        client(plan_new_game(&daily, false, true).unwrap_err()),
        (Status::Conflict, "user has already started the daily game today")
    );
    // the ongoing game is reported first
    let bad = NewGame { genre_id: Some(Id(1)), daily: true, timed: true };
    assert_eq!(client(plan_new_game(&bad, true, true).unwrap_err()).0, Status::Conflict);
}

#[test]
fn games_belong_to_their_user() {
    assert_eq!(game_of(10, Some(game(false))).unwrap().game.id, 1);
    assert_eq!(
        client(game_of(11, Some(game(false))).unwrap_err()),
        (Status::Forbidden, "this game belongs to another user")
    );
    assert_eq!(client(game_of(10, None).unwrap_err()), (Status::NotFound, "no such game"));
}

#[test]
fn a_guess_with_a_similar_title_counts_as_the_answer() {
    assert_eq!(counted_as(&meta(7, "Song Title (Remix)"), TARGET, "Song Title"), TARGET);
    assert_eq!(counted_as(&meta(7, "SONG TITLE"), TARGET, "Song Title"), TARGET);
    assert_eq!(counted_as(&meta(7, "Song A"), TARGET, "Song B"), Id(7));
}

#[test]
fn another_edition_of_the_song_wins() {
    let mut game = game(false);
    let update =
        submit_guess(&mut game, GuessInput::Track(meta(7, "Song Title - Live")), "Song Title", 5)
            .unwrap();
    assert_eq!(update, Update { skipped: 0, outcome: Some(true) });
    assert_eq!(game.guesses[0].track_id, OptionId(Some(TARGET)));
    assert_eq!(game.guesses[0].guessed_at, 5);
    assert_eq!(game.game.won, Some(true));
}

#[test]
fn wrong_guesses_and_skips_go_into_the_game() {
    let mut game = game(false);
    let update = submit_guess(&mut game, GuessInput::Track(meta(7, "Other")), "Song", 5).unwrap();
    assert_eq!(update, Update { skipped: 0, outcome: None });
    submit_guess(&mut game, GuessInput::Skip, "Song", 6).unwrap();
    assert_eq!(game.guesses[0].track_id, OptionId(Some(Id(7))));
    assert_eq!(game.guesses[1].track_id, OptionId(None));
    assert_eq!(game.guesses[1].number, 1);
    for i in 0..4 {
        submit_guess(&mut game, GuessInput::Skip, "Song", 7 + i).unwrap();
    }
    let update = submit_guess(&mut game, GuessInput::Skip, "Song", 20).unwrap();
    assert_eq!(update, Update { skipped: 0, outcome: Some(false) });
}

#[test]
fn a_guess_is_refused_in_a_game_that_is_over_or_for_a_missing_track() {
    let mut over = game(false);
    submit_guess(&mut over, GuessInput::Track(meta(42, "Song")), "Song", 5).unwrap();
    let error = submit_guess(&mut over, GuessInput::Missing, "Song", 6).unwrap_err();
    assert_eq!(client(error), (Status::Conflict, "game is already over"));
    assert_eq!(over.guesses.len(), 1);
    let mut open = game(false);
    let error = submit_guess(&mut open, GuessInput::Missing, "Song", 6).unwrap_err();
    assert_eq!(client(error), (Status::NotFound, "given track ID does not exist"));
    assert!(open.guesses.is_empty());
}

#[test]
fn the_clip_ends_where_the_unlocked_music_ends() {
    let mut game = game(false);
    assert_eq!(clip_range(&game, None).unwrap(), (0, 1_000));
    assert_eq!(clip_range(&game, Some(999)).unwrap(), (999, 1_000));
    assert_eq!(
        client(clip_range(&game, Some(1_000)).unwrap_err()),
        (Status::Forbidden, "cannot seek past end of unlocked music")
    );
    submit_guess(&mut game, GuessInput::Skip, "Song", 5).unwrap();
    assert_eq!(clip_range(&game, Some(1_000)).unwrap(), (1_000, 2_000));
    submit_guess(&mut game, GuessInput::Track(meta(42, "Song")), "Song", 6).unwrap();
    assert_eq!(clip_range(&game, Some(29_999)).unwrap(), (29_999, 30_000));
    assert!(clip_range(&game, Some(u32::MAX)).is_err());
}

fn genre(id: u32) -> Genre {
    Genre { id: Id(id), name: "genre".to_string(), picture: String::new() }
}

#[test]
fn the_track_is_hidden_while_the_game_goes_on() {
    let mut game = Game::create(3, 10, 100, Some(Id(132)), false, true, TARGET);
    submit_guess(&mut game, GuessInput::Track(meta(7, "Other")), "Song", 200).unwrap();
    submit_guess(&mut game, GuessInput::Skip, "Song", 300).unwrap();
    let wanted = game.lookups();
    assert_eq!(wanted.genre, Some(Id(132)));
    assert_eq!(wanted.track, None);
    assert_eq!(wanted.guesses, vec![Some(Id(7)), None]);
    let response =
        game.into_response(Some(genre(132)), None, vec![Some(meta(7, "Other")), None]).unwrap();
    assert_eq!(response.id, 3);
    assert_eq!(response.started_at, 100);
    assert!(response.is_timed && !response.is_daily);
    assert_eq!(response.won, None);
    assert!(response.track.is_none());
    assert_eq!(response.genre.unwrap().id, Id(132));
    assert_eq!(response.guesses.len(), 2);
    assert_eq!(response.guesses[0].track.as_ref().unwrap().id, Id(7));
    assert_eq!(response.guesses[0].guessed_at, 200);
    assert!(response.guesses[1].track.is_none());
    assert_eq!(response.guesses[1].guessed_at, 300);
    let timing = response.timed_guess.unwrap();
    assert_eq!((timing.number, timing.started_at, timing.length_millis), (2, 300, 9_000));
    assert_eq!(response.constants.music_clip_lengths[6], 30_000);
}

#[test]
fn the_track_is_shown_once_the_game_is_over() {
    let mut game = game(true);
    submit_guess(&mut game, GuessInput::Track(meta(42, "Song")), "Song", 200).unwrap();
    assert_eq!(game.lookups().track, Some(TARGET));
    let response =
        game.into_response(None, Some(meta(42, "Song")), vec![Some(meta(42, "Song"))]).unwrap();
    assert_eq!(response.won, Some(true));
    assert_eq!(response.track.unwrap().title, "Song");
    assert!(response.timed_guess.is_none());
}

#[test]
fn the_cached_track_is_shown_without_a_lookup() {
    let mut game = game(false);
    game.cache_track(meta(42, "Cached"));
    game.cache_track(meta(42, "Later"));
    assert_eq!(game.track().unwrap().title, "Cached");
    submit_guess(&mut game, GuessInput::Track(meta(42, "Song")), "Song", 200).unwrap();
    assert_eq!(game.lookups().track, None);
    let response = game.into_response(None, None, vec![Some(meta(42, "Song"))]).unwrap();
    assert_eq!(response.track.unwrap().title, "Cached");
}

#[test]
fn lookups_that_do_not_answer_are_an_internal_error() {
    let played = || {
        let mut game = Game::create(3, 10, 100, Some(Id(132)), false, false, TARGET);
        submit_guess(&mut game, GuessInput::Track(meta(42, "Song")), "Song", 200).unwrap();
        game
    };
    let fine = || (Some(genre(132)), Some(meta(42, "Song")), vec![Some(meta(42, "Song"))]);
    let (genre_found, track, guesses) = fine();
    assert!(played().into_response(genre_found, track, guesses).is_ok());
    let attempts = vec![
        (None, fine().1, fine().2),
        (Some(genre(1)), fine().1, fine().2),
        (fine().0, None, fine().2),
        (fine().0, Some(meta(1, "Song")), fine().2),
        (fine().0, fine().1, vec![]),
        (fine().0, fine().1, vec![None]),
        (fine().0, fine().1, vec![Some(meta(1, "Song"))]),
        (fine().0, fine().1, vec![Some(meta(42, "Song")), None]),
    ];
    for (genre_found, track, guesses) in attempts {
        let error = played().into_response(genre_found, track, guesses).unwrap_err();
        assert!(matches!(error, ApiError::Internal(_)));
    }
}

#[test]
fn the_constants_are_sent_in_milliseconds() {
    let sent = ConstantsSerde::current();
    assert_eq!(sent.max_guesses, 7);
    assert_eq!(sent.music_clip_millis, vec![1_000, 2_000, 4_000, 7_000, 11_000, 16_000, 30_000]);
    assert_eq!(sent.timed_guess_millis, vec![6_000, 7_000, 9_000, 12_000, 16_000, 21_000, 35_000]);
}
