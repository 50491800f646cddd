use beatdrop::api_error::{ApiError, Status};
use beatdrop::deezer::{Id, OptionId};
use beatdrop::game::database::{Guess, Row, MAX_GUESSES};
use beatdrop::game::logic::{
    constants, cutoff_before, music_clip_length, timed_game_cutoff, timed_guess_length, Update,
    FULL_CLIP_LENGTH, MAX_TIMED_GAME_LENGTH,
};
use beatdrop::game::Game;

const TARGET: Id = Id(42);
const OTHER: Id = Id(7);

fn untimed() -> Game {
    Game::create(1, 10, 1_000, None, false, false, TARGET)
}

fn timed() -> Game {
    Game::create(2, 10, 1_000, None, false, true, TARGET)
}

fn numbers(game: &Game) -> Vec<usize> {
    game.guesses.iter().map(|guess| guess.number).collect()
}

fn times(game: &Game) -> Vec<i64> {
    game.guesses.iter().map(|guess| guess.guessed_at).collect()
}

#[test]
fn a_new_game_is_empty_and_pending() {
    let game = Game::create(5, 6, 77, Some(Id(132)), false, true, TARGET);
    assert_eq!(game.game.id, 5);
    assert_eq!(game.game.account_id, 6);
    assert_eq!(game.game.started_at, 77);
    assert_eq!(game.game.genre_id, OptionId(Some(Id(132))));
    assert!(!game.game.is_daily);
    assert!(game.game.is_timed);
    assert_eq!(game.game.track_id, TARGET);
    assert_eq!(game.game.won, None);
    assert!(game.guesses.is_empty());
    assert!(!game.is_over());
    assert!(game.track().is_none());
}

#[test]
fn guesses_are_numbered_without_gaps() {
    let mut game = untimed();
    for i in 0..6 {
        assert!(matches!(game.new_guess(Some(OTHER), 2_000 + i), Ok(n) if n as i64 == i));
        game.auto_update(2_000 + i);
    }
    assert_eq!(numbers(&game), vec![0, 1, 2, 3, 4, 5]);
    assert!(matches!(game.new_guess(None, 3_000), Ok(6)));
    assert_eq!(numbers(&game), vec![0, 1, 2, 3, 4, 5, 6]);
}

#[test]
fn a_correct_guess_wins() {
    let mut game = untimed();
    game.new_guess(Some(OTHER), 2_000).unwrap();
    assert_eq!(game.auto_update(2_000), Update { skipped: 0, outcome: None });
    game.new_guess(Some(TARGET), 3_000).unwrap();
    assert_eq!(game.auto_update(3_000), Update { skipped: 0, outcome: Some(true) });
    assert_eq!(game.game.won, Some(true));
    assert!(game.is_over());
    assert!(game.is_guessed());
}

#[test]
fn seven_wrong_guesses_lose() {
    let mut game = untimed();
    for i in 0..7 {
        assert!(!game.is_over());
        game.new_guess(if i % 2 == 0 { Some(OTHER) } else { None }, 2_000 + i).unwrap();
        game.auto_update(2_000 + i);
    }
    assert_eq!(game.guesses.len(), MAX_GUESSES);
    assert_eq!(game.game.won, Some(false));
    assert!(game.is_out_of_guesses());
}

#[test]
fn a_correct_last_guess_wins() {
    let mut game = untimed();
    for i in 0..6 {
        game.new_guess(None, 2_000 + i).unwrap();
    }
    game.new_guess(Some(TARGET), 3_000).unwrap();
    game.auto_update(3_000);
    assert_eq!(game.game.won, Some(true));
}

#[test]
fn a_game_that_is_over_takes_no_guess() {
    let mut game = untimed();
    game.new_guess(Some(TARGET), 2_000).unwrap();
    game.auto_update(2_000);
    match game.new_guess(Some(OTHER), 3_000) {
        Err(ApiError::Client((Status::Conflict, "game is already over"))) => {}
        _ => panic!("a guess in a game that is over must be a conflict"),
    }
    assert_eq!(game.guesses.len(), 1);
    assert_eq!(game.game.won, Some(true));
}

#[test]
fn a_game_out_of_guesses_takes_no_guess() {
    let mut game = untimed();
    for i in 0..7 {
        game.new_guess(None, 2_000 + i).unwrap();
    }
    assert!(game.new_guess(None, 3_000).is_err());
    assert_eq!(game.guesses.len(), 7);
}

#[test]
fn the_outcome_is_set_once() {
    let mut game = untimed();
    game.set_won(true);
    game.set_won(false);
    assert_eq!(game.game.won, Some(true));
    assert_eq!(game.auto_update(9_999_999), Update { skipped: 0, outcome: None });
    assert_eq!(game.game.won, Some(true));
}

#[test]
fn unlocked_time_grows_with_guesses() {
    let mut game = untimed();
    let mut unlocked = vec![game.time_unlocked()];
    for i in 0..6 {
        game.new_guess(Some(OTHER), 2_000 + i).unwrap();
        game.auto_update(2_000 + i);
        unlocked.push(game.time_unlocked());
    }
    assert_eq!(unlocked, vec![1_000, 2_000, 4_000, 7_000, 11_000, 16_000, 30_000]);
    game.new_guess(Some(OTHER), 3_000).unwrap();
    game.auto_update(3_000);
    assert_eq!(game.time_unlocked(), 30_000);
    assert_eq!(game.chunks_unlocked(), 6);
}

#[test]
fn everything_is_unlocked_once_the_game_is_over() {
    let mut game = untimed();
    assert_eq!(game.time_unlocked(), 1_000);
    game.new_guess(Some(TARGET), 2_000).unwrap();
    game.auto_update(2_000);
    assert_eq!(game.time_unlocked(), FULL_CLIP_LENGTH);
    let mut timed = timed();
    timed.auto_update(1_000 + MAX_TIMED_GAME_LENGTH + 1);
    assert_eq!(timed.time_unlocked(), FULL_CLIP_LENGTH);
}

#[test]
fn timed_out_guesses_become_skips() {
    let mut game = timed();
    // exactly at the end of the first guess: not timed out yet
    assert_eq!(game.auto_update(7_000), Update { skipped: 0, outcome: None });
    assert_eq!(game.auto_update(7_001), Update { skipped: 1, outcome: None });
    assert_eq!(times(&game), vec![7_000]);
    assert_eq!(game.guesses[0], Guess { number: 0, track_id: OptionId(None), guessed_at: 7_000 });
    // the second guess lasts seven seconds, the third nine
    assert_eq!(game.auto_update(7_000 + 7_000 + 9_000 + 1), Update { skipped: 2, outcome: None });
    assert_eq!(times(&game), vec![7_000, 14_000, 23_000]);
    assert_eq!(numbers(&game), vec![0, 1, 2]);
    assert_eq!(game.time_unlocked(), 7_000);
}

#[test]
fn a_timed_game_is_lost_when_all_guesses_time_out() {
    let mut game = timed();
    assert_eq!(game.auto_update(1_000 + MAX_TIMED_GAME_LENGTH), Update { skipped: 6, outcome: None });
    assert_eq!(
        game.auto_update(1_000 + MAX_TIMED_GAME_LENGTH + 1),
        Update { skipped: 1, outcome: Some(false) }
    );
    assert_eq!(times(&game), vec![7_000, 14_000, 23_000, 35_000, 51_000, 72_000, 107_000]);
    assert_eq!(game.game.won, Some(false));
}

#[test]
fn a_guess_restarts_the_clock() {
    let mut game = timed();
    game.auto_update(3_000);
    game.new_guess(Some(OTHER), 3_000).unwrap();
    game.auto_update(3_000);
    // the second guess runs from 3 s to 10 s
    assert_eq!(game.auto_update(10_000), Update { skipped: 0, outcome: None });
    assert_eq!(game.auto_update(10_001), Update { skipped: 1, outcome: None });
    assert_eq!(times(&game), vec![3_000, 10_000]);
}

#[test]
fn updating_twice_is_updating_once() {
    for now in [0, 7_000, 7_001, 50_000, 200_000] {
        let mut game = timed();
        game.auto_update(now);
        let (won, guesses) = (game.game.won, game.guesses.clone());
        assert_eq!(game.auto_update(now), Update { skipped: 0, outcome: None });
        assert_eq!(game.game.won, won);
        assert_eq!(game.guesses, guesses);
    }
    let mut game = untimed();
    game.new_guess(Some(OTHER), 2_000).unwrap();
    game.auto_update(2_000);
    let guesses = game.guesses.clone();
    game.auto_update(999_999_999);
    assert_eq!(game.guesses, guesses);
    assert_eq!(game.game.won, None);
}

#[test]
fn an_untimed_game_never_times_out() {
    let mut game = untimed();
    assert_eq!(game.auto_update(i64::MAX), Update { skipped: 0, outcome: None });
    assert!(game.guesses.is_empty());
}

#[test]
fn extreme_times_do_not_overflow() {
    let mut game = Game::create(1, 1, i64::MIN, None, false, true, TARGET);
    assert_eq!(game.auto_update(i64::MAX), Update { skipped: 7, outcome: Some(false) });
    let mut game = Game::create(1, 1, i64::MAX, None, false, true, TARGET);
    assert_eq!(game.auto_update(i64::MIN), Update { skipped: 0, outcome: None });
}

#[test]
fn the_current_guess_of_a_timed_game() {
    let mut game = timed();
    let current = game.current_guess();
    assert_eq!((current.number, current.started_at, current.length_millis), (0, 1_000, 6_000));
    game.new_guess(None, 4_000).unwrap();
    let current = game.current_guess();
    assert_eq!((current.number, current.started_at, current.length_millis), (1, 4_000, 7_000));
}

#[test]
fn the_tables() {
    let lengths: Vec<i64> = (0..7).map(music_clip_length).collect();
    assert_eq!(lengths, vec![1_000, 2_000, 4_000, 7_000, 11_000, 16_000, 30_000]);
    let allotted: Vec<i64> = (0..7).map(timed_guess_length).collect();
    assert_eq!(allotted, vec![6_000, 7_000, 9_000, 12_000, 16_000, 21_000, 35_000]);
    assert_eq!(allotted.iter().sum::<i64>(), MAX_TIMED_GAME_LENGTH);
    assert_eq!(constants().music_clip_lengths.to_vec(), lengths);
    assert_eq!(constants().timed_guess_lengths.to_vec(), allotted);
}

#[test]
fn the_cutoff_lies_one_game_length_back() {
    assert_eq!(cutoff_before(1_000_000), 894_000);
    assert_eq!(cutoff_before(i64::MIN + 5), i64::MIN);
    let before = chrono::Utc::now().timestamp_millis() - MAX_TIMED_GAME_LENGTH;
    let cutoff = timed_game_cutoff();
    let after = chrono::Utc::now().timestamp_millis() - MAX_TIMED_GAME_LENGTH;
    assert!(before <= cutoff && cutoff <= after);
}

#[test]
fn updating_at_the_clocks_time() {
    let started = chrono::Utc::now().timestamp_millis() - 6_500;
    let mut game = Game::create(1, 1, started, None, false, true, TARGET);
    let (now, update) = game.auto_update_now();
    assert!(now >= started + 6_500);
    assert_eq!(update, Update { skipped: 1, outcome: None });
    assert_eq!(times(&game), vec![started + 6_000]);
}

#[test]
fn stored_games_are_checked() {
    let row = Row {
        id: 1,
        account_id: 2,
        started_at: 0,
        is_daily: false,
        is_timed: false,
        genre_id: OptionId(None),
        won: None,
        track_id: TARGET,
    };
    let guess = |number| Guess { number, track_id: OptionId(None), guessed_at: 5 };
    assert!(Game::with_guesses(row, vec![]).is_some());
    let game = Game::with_guesses(row, vec![guess(0), guess(1)]).unwrap();
    assert_eq!(game.guesses.len(), 2);
    assert_eq!(game.game, row);
    assert!(Game::with_guesses(row, vec![guess(1)]).is_none());
    assert!(Game::with_guesses(row, vec![guess(0), guess(2)]).is_none());
    assert!(Game::with_guesses(row, (0..7).map(guess).collect()).is_some());
    assert!(Game::with_guesses(row, (0..8).map(guess).collect()).is_none());
}

#[test]
fn a_timed_game_runs_out_of_time_after_all_guess_lengths() {
    let game = timed();
    assert!(!game.is_out_of_time(1_000 + MAX_TIMED_GAME_LENGTH));
    assert!(game.is_out_of_time(1_000 + MAX_TIMED_GAME_LENGTH + 1));
    assert!(!untimed().is_out_of_time(i64::MAX));
    assert!(!Game::create(1, 1, i64::MAX, None, false, true, TARGET).is_out_of_time(i64::MAX));
    // a game that is out of time is over once it is brought up to date
    let mut game = timed();
    game.auto_update(1_000 + MAX_TIMED_GAME_LENGTH + 1);
    assert!(game.is_over());
}
