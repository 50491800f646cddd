//! The data of a game session, and the operations that change it.
use crate::api_error::{ApiError, Status};
use crate::deezer::{Id, OptionId};
use crate::track::Meta;
use vstd::prelude::*;

verus! {

/// The total allowed guesses in a game.
pub const MAX_GUESSES: usize = 7;

/// What the store holds of a game, apart from its guesses. Times are in milliseconds
/// since the epoch.
#[derive(Debug, PartialEq, Eq, Clone, Copy, Structural)]
pub struct Row {
    /// The game ID.
    pub id: i32,
    /// The ID of the user who started the game.
    pub account_id: i32,
    /// The time the game was started.
    pub started_at: i64,
    /// If this is a daily mode game.
    pub is_daily: bool,
    /// If this is a timed mode game. Mutually exclusive with `is_daily`.
    pub is_timed: bool,
    /// If this is a genre-specific game, the genre ID. Mutually exclusive with
    /// `is_daily`.
    pub genre_id: OptionId,
    /// If the game has ended, whether the user won.
    pub won: Option<bool>,
    /// The ID of the track being guessed.
    pub track_id: Id,
}

/// A single guess in a game.
#[derive(Debug, PartialEq, Eq, Clone, Copy, Structural)]
pub struct Guess {
    /// The position of the guess in its game, counted from zero.
    pub number: usize,
    /// The ID of the track that was guessed, or nothing if the guess was skipped.
    pub track_id: OptionId,
    /// The time the guess was made.
    pub guessed_at: i64,
}

/// A game, including all guesses made.
#[derive(Debug)]
pub struct Game {
    /// The game row.
    pub game: Row,
    /// The guesses made in this game.
    pub guesses: Vec<Guess>,
    /// Track metadata for the track being guessed. This is just a cache and is `None`
    /// if it hasn't been looked up yet.
    pub track_cache: Option<Meta>,
}

/// A game as a value: its row and the sequence of its guesses.
pub struct GameView {
    /// The game row.
    pub game: Row,
    /// The guesses made in this game, first guess first.
    pub guesses: Seq<Guess>,
}

/// Whether the guesses are numbered `0, 1, 2, ...` with no gaps.
pub open spec fn numbered(guesses: Seq<Guess>) -> bool {
    forall|i: int| 0 <= i < guesses.len() ==> (#[trigger] guesses[i]).number == i
}

impl GameView {
    /// A game has at most [`MAX_GUESSES`] guesses, numbered from zero with no gaps.
    pub open spec fn wf(self) -> bool {
        &&& self.guesses.len() <= MAX_GUESSES
        &&& numbered(self.guesses)
    }

    /// Whether the game is over: its outcome is set.
    pub open spec fn is_over(self) -> bool {
        self.game.won is Some
    }

    /// Whether the player has run out of guesses.
    pub open spec fn is_out_of_guesses(self) -> bool {
        self.guesses.len() >= MAX_GUESSES
    }

    /// Whether the track has been guessed.
    pub open spec fn is_guessed(self) -> bool {
        exists|i: int|
            0 <= i < self.guesses.len() && (#[trigger] self.guesses[i]).track_id == OptionId(
                Some(self.game.track_id),
            )
    }

    /// Whether the game takes one more guess: it is not over and guesses are left.
    pub open spec fn accepts_guess(self) -> bool {
        !self.is_over() && !self.is_out_of_guesses()
    }

    /// The game with one more guess.
    pub open spec fn with_guess(self, track_id: Option<Id>, guessed_at: i64) -> GameView {
        GameView {
            guesses: self.guesses.push(
                Guess {
                    number: self.guesses.len() as usize,
                    track_id: OptionId(track_id),
                    guessed_at,
                },
            ),
            ..self
        }
    }
}

impl View for Game {
    type V = GameView;

    open spec fn view(&self) -> GameView {
        GameView { game: self.game, guesses: self.guesses@ }
    }
}

/// The reason given when a guess is made in a game that is over.
pub open spec fn game_over_reason() -> Seq<char> {
    "game is already over"@
}

impl Game {
    /// A new game with no guesses and no outcome.
    ///
    /// Does no validation of the game mode, already ongoing games, etc.
    pub fn create(
        id: i32,
        user_id: i32,
        started_at: i64,
        genre_id: Option<Id>,
        daily: bool,
        timed: bool,
        track_id: Id,
    ) -> (game: Self)
        ensures
            game@.wf(),
            game@.guesses.len() == 0,
            game.track_cache is None,
            game.game == (Row {
                id,
                account_id: user_id,
                started_at,
                is_daily: daily,
                is_timed: timed,
                genre_id: OptionId(genre_id),
                won: None,
                track_id,
            }),
    {
        Self {
            game: Row {
                id,
                account_id: user_id,
                started_at,
                is_daily: daily,
                is_timed: timed,
                genre_id: OptionId(genre_id),
                won: None,
                track_id,
            },
            guesses: Vec::new(),
            track_cache: None,
        }
    }

    /// Put a stored game together from its row and its guesses, in the order of their
    /// numbers. Nothing comes back where there are more than [`MAX_GUESSES`] guesses
    /// or their numbers are not `0, 1, 2, ...`.
    pub fn with_guesses(game: Row, guesses: Vec<Guess>) -> (out: Option<Self>)
        ensures
            out is Some <==> (GameView { game, guesses: guesses@ }).wf(),
            out matches Some(loaded) ==> loaded.game == game && loaded.guesses == guesses
                && loaded.track_cache is None,
    {
        if guesses.len() > MAX_GUESSES {
            return None;
        }
        let mut i: usize = 0;
        while i < guesses.len()
            invariant
                i <= guesses.len(),
                numbered(guesses@.subrange(0, i as int)),
            decreases guesses.len() - i,
        {
            if guesses[i].number != i {
                return None;
            }
            assert forall|k: int| 0 <= k < i + 1 implies (#[trigger] guesses@.subrange(
                0,
                i + 1,
            )[k]).number == k by {
                if k < i {
                    assert(guesses@.subrange(0, i as int)[k] == guesses@[k]);
                }
            }
            i = i + 1;
        }
        assert(guesses@.subrange(0, guesses@.len() as int) =~= guesses@);
        Some(Self { game, guesses, track_cache: None })
    }

    /// Whether the game is over.
    ///
    /// Note that this only checks if the outcome has been set. For timed games, this
    /// may not yet be the case even when the time has actually run out. To make sure,
    /// see [`Game::auto_update`].
    pub fn is_over(&self) -> (over: bool)
        ensures
            over == self@.is_over(),
    {
        self.game.won.is_some()
    }

    /// Whether the player has run out of guesses.
    pub fn is_out_of_guesses(&self) -> (out: bool)
        ensures
            out == self@.is_out_of_guesses(),
    {
        self.guesses.len() >= MAX_GUESSES
    }

    /// Whether the track has been guessed.
    pub fn is_guessed(&self) -> (guessed: bool)
        ensures
            guessed == self@.is_guessed(),
    {
        let target = OptionId(Some(self.game.track_id));
        let mut i: usize = 0;
        while i < self.guesses.len()
            invariant
                i <= self.guesses.len(),
                target == OptionId(Some(self.game.track_id)),
                forall|k: int| 0 <= k < i ==> (#[trigger] self.guesses@[k]).track_id != target,
            decreases self.guesses.len() - i,
        {
            if self.guesses[i].track_id == target {
                return true;
            }
            i = i + 1;
        }
        false
    }

    /// Submit a new guess for this game, or a skip where `track_id` is nothing. The guess
    /// gets the next number. A game that is over, or has used up its guesses, takes no
    /// guess and is left as it was.
    ///
    /// The guess is not validated in any way.
    pub fn new_guess(&mut self, track_id: Option<Id>, guessed_at: i64) -> (number: Result<
        usize,
        ApiError,
    >)
        requires
            old(self)@.wf(),
        ensures
            final(self)@.wf(),
            final(self).track_cache == old(self).track_cache,
            old(self)@.accepts_guess() ==> number == Ok::<usize, ApiError>(
                old(self)@.guesses.len() as usize,
            ) && final(self)@ == old(self)@.with_guess(track_id, guessed_at),
            !old(self)@.accepts_guess() ==> *final(self) == *old(self) && (number matches Err(
                ApiError::Client((status, reason)),
            ) && status == Status::Conflict && reason@ == game_over_reason()),
    {
        if self.is_over() || self.is_out_of_guesses() {
            return Err(ApiError::conflict("game is already over"));
        }
        let number: usize = self.guesses.len();
        self.guesses.push(Guess { number, track_id: OptionId(track_id), guessed_at });
        Ok(number)
    }

    /// Set the game as won or lost. The outcome of a game is set once: where it is set
    /// already, it stays.
    pub fn set_won(&mut self, won: bool)
        ensures
            final(self).game.won == if old(self).game.won is Some {
                old(self).game.won
            } else {
                Some(won)
            },
            final(self)@ == (GameView {
                game: Row { won: final(self).game.won, ..old(self).game },
                guesses: old(self)@.guesses,
            }),
            final(self).track_cache == old(self).track_cache,
    {
        if self.game.won.is_none() {
            self.game.won = Some(won);
        }
    }

    /// The cached track metadata, if it has been looked up.
    pub fn track(&self) -> (meta: Option<&Meta>)
        ensures
            meta == match self.track_cache {
                Some(cached) => Some(&cached),
                None => None::<&Meta>,
            },
    {
        self.track_cache.as_ref()
    }

    /// Cache the metadata of the track being guessed, unless some is cached already.
    pub fn cache_track(&mut self, meta: Meta)
        ensures
            final(self).track_cache == if old(self).track_cache is Some {
                old(self).track_cache
            } else {
                Some(meta)
            },
            final(self).game == old(self).game,
            final(self).guesses == old(self).guesses,
    {
        if self.track_cache.is_none() {
            self.track_cache = Some(meta);
        }
    }
}

} // verus!
