//! The rules of the game's API: who may see a game, which games may be started, what
//! a guess counts as, and how much of the clip may be heard.
use crate::api_error::{ApiError, Status};
use crate::deezer::Id;
use crate::game::database::Game;
use crate::game::logic::Update;
use crate::track::pick::Mode;
use crate::track::similar::{canonical_title, similar};
use crate::track::Meta;
use vstd::prelude::*;

verus! {

/// Response body containing IDs of recent games.
#[derive(Debug, PartialEq, Eq, Clone, Copy, Structural)]
pub struct RecentGames {
    /// The ID of today's daily game, if it has been started.
    pub daily: Option<i32>,
    /// The ID of the user's ongoing game, if any.
    pub ongoing: Option<i32>,
}

/// The request body for creating a new game.
#[derive(Debug, PartialEq, Eq, Clone, Copy, Structural)]
pub struct NewGame {
    /// The genre ID to restrict the game to, or nothing to allow any genre.
    pub genre_id: Option<Id>,
    /// Whether the game is a daily game. If it is, `genre_id` and `timed` must be
    /// nothing and `false` respectively.
    pub daily: bool,
    /// Whether the game is to be in timed mode.
    pub timed: bool,
}

/// What a player sent as a guess, once the track was looked up.
#[derive(Debug)]
pub enum GuessInput {
    /// The player skips.
    Skip,
    /// The player named a track that does not exist.
    Missing,
    /// The player named this track.
    Track(Meta),
}

/// Whether an error is the client error with this status and reason.
pub open spec fn is_client_error(error: ApiError, status: Status, reason: Seq<char>) -> bool {
    error matches ApiError::Client((found, text)) && found == status && text@ == reason
}

impl NewGame {
    /// Whether the modes asked for go together: a daily game is neither timed nor of a
    /// genre.
    pub open spec fn modes_agree(self) -> bool {
        self.daily ==> self.genre_id is None && !self.timed
    }

    /// The kind of track that the game asks for.
    pub open spec fn mode(self) -> Mode {
        if self.daily {
            Mode::Daily
        } else {
            match self.genre_id {
                Some(genre) => Mode::Genre(genre),
                None => Mode::Any,
            }
        }
    }
}

/// Get a game belonging to the authenticated user: the game if it is theirs. A game of
/// another user is forbidden, and no game is not found.
pub fn game_of(user_id: i32, game: Option<Game>) -> (out: Result<Game, ApiError>)
    ensures
        match game {
            Some(found) => if found.game.account_id == user_id {
                out == Ok::<Game, ApiError>(found)
            } else {
                out is Err && is_client_error(
                    out->Err_0,
                    Status::Forbidden,
                    "this game belongs to another user"@,
                )
            },
            None => out is Err && is_client_error(out->Err_0, Status::NotFound, "no such game"@),
        },
{
    match game {
        Some(found) => if found.game.account_id == user_id {
            Ok(found)
        } else {
            Err(ApiError::forbidden("this game belongs to another user"))
        },
        None => Err(ApiError::not_found("no such game")),
    }
}

/// Decide whether a new game may begin, and what kind of track to pick for it.
///
/// `ongoing` tells whether the user has an ongoing game, and `daily_started` whether
/// they have started today's daily game. A user with an ongoing game gets a conflict.
/// A daily game that is timed or has a genre is a bad request: it is rejected before
/// any game is created. A second daily game on one day is a conflict.
pub fn plan_new_game(body: &NewGame, ongoing: bool, daily_started: bool) -> (out: Result<
    Mode,
    ApiError,
>)
    ensures
        !body.modes_agree() ==> out is Err,
        out is Ok <==> !ongoing && body.modes_agree() && !(body.daily && daily_started),
        out matches Ok(mode) ==> mode == body.mode(),
        out matches Err(error) ==> if ongoing {
            is_client_error(error, Status::Conflict, "user already has an ongoing game"@)
        } else if !body.modes_agree() {
            is_client_error(
                error,
                Status::BadRequest,
                "daily games cannot be timed or have a genre"@,
            )
        } else {
            is_client_error(
                error,
                Status::Conflict,
                "user has already started the daily game today"@,
            )
        },
{
    if ongoing {
        return Err(ApiError::conflict("user already has an ongoing game"));
    }
    if body.daily {
        if body.genre_id.is_some() || body.timed {
            return Err(ApiError::bad_request("daily games cannot be timed or have a genre"));
        }
        if daily_started {
            return Err(ApiError::conflict("user has already started the daily game today"));
        }
        Ok(Mode::Daily)
    } else {
        match body.genre_id {
            Some(genre) => Ok(Mode::Genre(genre)),
            None => Ok(Mode::Any),
        }
    }
}

/// The track that a guess counts as: the answer itself where the titles of the guess
/// and of the answer are similar, else the track that was named.
pub fn counted_as(guess: &Meta, answer: Id, answer_title: &str) -> (track: Id)
    ensures
        track == if canonical_title(guess.title@) == canonical_title(answer_title@) {
            answer
        } else {
            guess.id
        },
{
    if similar(guess.title.as_str(), answer_title) {
        answer
    } else {
        guess.id
    }
}

/// The track that goes into the game for what the player sent.
pub open spec fn guessed_track(input: GuessInput, answer: Id, answer_title: Seq<char>) -> Option<
    Id,
> {
    match input {
        GuessInput::Track(meta) => Some(
            if canonical_title(meta.title@) == canonical_title(answer_title) {
                answer
            } else {
                meta.id
            },
        ),
        _ => None,
    }
}

/// Submit a guess for a game at `now`. A game that takes no more guesses gives a
/// conflict, and a track that does not exist is not found; either way the game stays
/// as it was. Else the guess goes into the game, as the answer itself if its title is
/// similar to the answer's, and the game is brought up to date.
pub fn submit_guess(game: &mut Game, input: GuessInput, answer_title: &str, now: i64) -> (out:
    Result<Update, ApiError>)
    requires
        old(game)@.wf(),
    ensures
        final(game)@.wf(),
        final(game).track_cache == old(game).track_cache,
        out is Ok <==> old(game)@.accepts_guess() && !(input is Missing),
        out is Ok ==> final(game)@ == old(game)@.with_guess(
            guessed_track(input, old(game).game.track_id, answer_title@),
            now,
        ).reconciled(now as int),
        out matches Ok(update) ==> update.outcome == final(game).game.won && update.skipped
            == final(game)@.guesses.len() - old(game)@.guesses.len() - 1,
        out matches Err(error) ==> *final(game) == *old(game) && if !old(game)@.accepts_guess() {
            is_client_error(error, Status::Conflict, "game is already over"@)
        } else {
            is_client_error(error, Status::NotFound, "given track ID does not exist"@)
        },
{
    if game.is_over() || game.is_out_of_guesses() {
        return Err(ApiError::conflict("game is already over"));
    }
    let track_id = match input {
        GuessInput::Skip => None,
        GuessInput::Missing => {
            return Err(ApiError::not_found("given track ID does not exist"));
        },
        GuessInput::Track(meta) => Some(counted_as(&meta, game.game.track_id, answer_title)),
    };
    let _ = game.new_guess(track_id, now);
    Ok(game.auto_update(now))
}

/// The part of the track that a player may hear from `seek` milliseconds on: it ends
/// where the unlocked music ends. Seeking to that end or beyond is forbidden.
pub fn clip_range(game: &Game, seek: Option<u32>) -> (out: Result<(u32, u32), ApiError>)
    ensures
        match out {
            Ok((start, end)) => start == seek.unwrap_or(0) && end == game@.time_unlocked()
                && start < end,
            Err(error) => seek.unwrap_or(0) >= game@.time_unlocked() && is_client_error(
                error,
                Status::Forbidden,
                "cannot seek past end of unlocked music"@,
            ),
        },
{
    let end: u32 = game.time_unlocked() as u32;
    let start: u32 = match seek {
        Some(start) => start,
        None => 0,
    };
    if start >= end {
        return Err(ApiError::forbidden("cannot seek past end of unlocked music"));
    }
    Ok((start, end))
}

} // verus!
