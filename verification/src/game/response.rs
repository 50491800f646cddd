//! The game response type: what a player gets to see of a game.
use crate::api_error::ApiError;
use crate::deezer::{Genre, Id};
use crate::game::database::{Game, MAX_GUESSES};
use crate::game::logic::{clip_length, constants, guess_length, Constants, CurrentGuess};
use crate::track::Meta;
use vstd::prelude::*;

verus! {

/// Response data for an individual guess.
#[derive(Debug)]
pub struct GuessResponse {
    /// The track that was guessed, or nothing if the guess was skipped.
    pub track: Option<Meta>,
    /// The time the guess was made.
    pub guessed_at: i64,
}

/// Response data for a game.
#[derive(Debug)]
pub struct Response {
    /// The game ID.
    pub id: i32,
    /// The time the game was started.
    pub started_at: i64,
    /// If this is a daily mode game.
    pub is_daily: bool,
    /// If this is a timed mode game. Mutually exclusive with `is_daily`.
    pub is_timed: bool,
    /// If this is a genre-specific game, the genre. Mutually exclusive with `is_daily`.
    pub genre: Option<Genre>,
    /// The guesses (or skips) made so far in this game.
    pub guesses: Vec<GuessResponse>,
    /// Timing information on the current guess, if this is an ongoing timed game.
    pub timed_guess: Option<CurrentGuess>,
    /// If the game has ended, whether the user won.
    pub won: Option<bool>,
    /// If the game has ended, the track that was being guessed.
    pub track: Option<Meta>,
    /// The game constants.
    pub constants: Constants,
}

/// The game constants as they are sent: the tables in milliseconds.
#[derive(Debug)]
pub struct ConstantsSerde {
    /// The maximum number of guesses allowed in a game.
    pub max_guesses: usize,
    /// The lengths of the music clips, in milliseconds.
    pub music_clip_millis: Vec<u64>,
    /// The maximum amount of time allotted to each guess, in milliseconds.
    pub timed_guess_millis: Vec<u64>,
}

/// Copy a table of lengths, none of them negative.
fn millis_of(lengths: &[i64; 7]) -> (millis: Vec<u64>)
    requires
        forall|i: int| 0 <= i < 7 ==> lengths@[i] >= 0,
    ensures
        millis@.len() == 7,
        forall|i: int| 0 <= i < 7 ==> millis@[i] == lengths@[i],
{
    let mut millis: Vec<u64> = Vec::new();
    let mut i: usize = 0;
    while i < 7
        invariant
            i <= 7,
            millis@.len() == i,
            forall|k: int| 0 <= k < 7 ==> lengths@[k] >= 0,
            forall|k: int| 0 <= k < i ==> millis@[k] == lengths@[k],
        decreases 7 - i,
    {
        millis.push(lengths[i] as u64);
        i = i + 1;
    }
    millis
}

impl ConstantsSerde {
    /// The constants as they are sent. No length may be negative.
    pub fn from_constants(vals: &Constants) -> (out: Self)
        requires
            forall|i: int| 0 <= i < MAX_GUESSES ==> vals.music_clip_lengths@[i] >= 0,
            forall|i: int| 0 <= i < MAX_GUESSES ==> vals.timed_guess_lengths@[i] >= 0,
        ensures
            out.max_guesses == MAX_GUESSES,
            out.music_clip_millis@.len() == MAX_GUESSES,
            out.timed_guess_millis@.len() == MAX_GUESSES,
            forall|i: int|
                0 <= i < MAX_GUESSES ==> out.music_clip_millis@[i] == vals.music_clip_lengths@[i],
            forall|i: int|
                0 <= i < MAX_GUESSES ==> out.timed_guess_millis@[i] == vals.timed_guess_lengths@[i],
    {
        Self {
            max_guesses: MAX_GUESSES,
            music_clip_millis: millis_of(&vals.music_clip_lengths),
            timed_guess_millis: millis_of(&vals.timed_guess_lengths),
        }
    }

    /// The game's own constants as they are sent.
    pub fn current() -> (out: Self)
        ensures
            out.max_guesses == MAX_GUESSES,
            out.music_clip_millis@.len() == MAX_GUESSES,
            out.timed_guess_millis@.len() == MAX_GUESSES,
            forall|i: int| 0 <= i < MAX_GUESSES ==> out.music_clip_millis@[i] == clip_length(i),
            forall|i: int| 0 <= i < MAX_GUESSES ==> out.timed_guess_millis@[i] == guess_length(i),
    {
        let vals = constants();
        assert forall|i: int| 0 <= i < MAX_GUESSES implies vals.music_clip_lengths@[i] >= 0
            && vals.timed_guess_lengths@[i] >= 0 by {
            assert(vals.music_clip_lengths@[i] == clip_length(i));
            assert(vals.timed_guess_lengths@[i] == guess_length(i));
        }
        Self::from_constants(&vals)
    }
}

/// What has to be looked up before a game can be shown.
#[derive(Debug)]
pub struct Lookups {
    /// The game's genre, if it has one.
    pub genre: Option<Id>,
    /// The track being guessed, if the game is over and the track is not cached.
    pub track: Option<Id>,
    /// For each guess, the track guessed, or nothing for a skip.
    pub guesses: Vec<Option<Id>>,
}

/// Whether `found` is what was looked up for `wanted`: something with that ID where
/// an ID was asked for, and nothing where none was.
pub open spec fn meta_answers(wanted: Option<Id>, found: Option<Meta>) -> bool {
    match (wanted, found) {
        (Some(id), Some(meta)) => meta.id == id,
        (None, None) => true,
        _ => false,
    }
}

/// Whether `found` is the genre that was looked up for `wanted`.
pub open spec fn genre_answers(wanted: Option<Id>, found: Option<Genre>) -> bool {
    match (wanted, found) {
        (Some(id), Some(genre)) => genre.id == id,
        (None, None) => true,
        _ => false,
    }
}

impl Game {
    /// The track that has to be looked up to show the game: the one being guessed, once
    /// the game is over, unless it is cached.
    pub open spec fn track_wanted(&self) -> Option<Id> {
        if self.game.won is Some && self.track_cache is None {
            Some(self.game.track_id)
        } else {
            None
        }
    }

    /// Whether the things found are those that [`Game::lookups`] asks for.
    pub open spec fn answered(
        &self,
        genre: Option<Genre>,
        track: Option<Meta>,
        guess_tracks: Seq<Option<Meta>>,
    ) -> bool {
        &&& genre_answers(self.game.genre_id.0, genre)
        &&& meta_answers(self.track_wanted(), track)
        &&& guess_tracks.len() == self.guesses@.len()
        &&& forall|i: int|
            0 <= i < guess_tracks.len() ==> meta_answers(
                (#[trigger] self.guesses@[i]).track_id.0,
                guess_tracks[i],
            )
    }

    /// The timing information that is shown: that of the current guess, in an ongoing
    /// timed game.
    pub open spec fn timed_guess_shown(&self) -> Option<CurrentGuess> {
        if self.game.is_timed && self.game.won is None && self.guesses@.len() < MAX_GUESSES {
            Some(
                CurrentGuess {
                    number: self.guesses@.len() as usize,
                    started_at: self@.last_time() as i64,
                    length_millis: guess_length(self.guesses@.len() as int) as u64,
                },
            )
        } else {
            None
        }
    }

    /// The track that is shown as the one being guessed: none while the game is going
    /// on.
    pub open spec fn track_shown(&self, track: Option<Meta>) -> Option<Meta> {
        if self.game.won is None {
            None
        } else if self.track_cache is Some {
            self.track_cache
        } else {
            track
        }
    }

    /// What has to be looked up before the game can be shown.
    pub fn lookups(&self) -> (wanted: Lookups)
        ensures
            wanted.genre == self.game.genre_id.0,
            wanted.track == self.track_wanted(),
            wanted.guesses@.len() == self.guesses@.len(),
            forall|i: int|
                0 <= i < self.guesses@.len() ==> wanted.guesses@[i] == (
                #[trigger] self.guesses@[i]).track_id.0,
    {
        let track = if self.game.won.is_some() && self.track_cache.is_none() {
            Some(self.game.track_id)
        } else {
            None
        };
        let mut guesses: Vec<Option<Id>> = Vec::new();
        let mut i: usize = 0;
        while i < self.guesses.len()
            invariant
                i <= self.guesses.len(),
                guesses@.len() == i,
                forall|k: int|
                    0 <= k < i ==> guesses@[k] == (#[trigger] self.guesses@[k]).track_id.0,
            decreases self.guesses.len() - i,
        {
            guesses.push(self.guesses[i].track_id.0);
            i = i + 1;
        }
        Lookups { genre: self.game.genre_id.0, track, guesses }
    }

    /// Convert a game into a response, leaving out information that the user should not
    /// be able to see: the track being guessed is shown only once the game is over.
    ///
    /// `genre`, `track` and `guess_tracks` are what was found for [`Game::lookups`].
    /// Where they are not what was asked for, the outcome is an internal error.
    pub fn into_response(
        self,
        genre: Option<Genre>,
        track: Option<Meta>,
        guess_tracks: Vec<Option<Meta>>,
    ) -> (out: Result<Response, ApiError>)
        ensures
            self.answered(genre, track, guess_tracks@) <==> out is Ok,
            out is Err ==> out->Err_0 is Internal,
            out matches Ok(response) ==> {
                &&& response.id == self.game.id
                &&& response.started_at == self.game.started_at
                &&& response.is_daily == self.game.is_daily
                &&& response.is_timed == self.game.is_timed
                &&& response.won == self.game.won
                &&& response.genre == genre
                &&& response.track == self.track_shown(track)
                &&& response.timed_guess == self.timed_guess_shown()
                &&& response.guesses@.len() == self.guesses@.len()
                &&& forall|i: int|
                    0 <= i < self.guesses@.len() ==> (#[trigger] response.guesses@[i])
                        == (GuessResponse {
                        track: guess_tracks@[i],
                        guessed_at: self.guesses@[i].guessed_at,
                    })
                &&& forall|i: int|
                    0 <= i < MAX_GUESSES ==> #[trigger] response.constants.music_clip_lengths@[i]
                        == clip_length(i)
                &&& forall|i: int|
                    0 <= i < MAX_GUESSES ==> #[trigger] response.constants.timed_guess_lengths@[i]
                        == guess_length(i)
            },
    {
        let genre_found = match (&self.game.genre_id.0, &genre) {
            (Some(id), Some(found)) => found.id == *id,
            (None, None) => true,
            _ => false,
        };
        if !genre_found {
            return Err(ApiError::internal("the genre of a game was not found".to_owned()));
        }
        let track_needed = self.game.won.is_some() && self.track_cache.is_none();
        let track_found = match &track {
            Some(found) => track_needed && found.id == self.game.track_id,
            None => !track_needed,
        };
        if !track_found {
            return Err(ApiError::internal("the track of a game was not found".to_owned()));
        }
        if guess_tracks.len() != self.guesses.len() {
            return Err(ApiError::internal("the tracks of a game's guesses were not found".to_owned()));
        }
        let timed_guess = if self.game.is_timed && self.game.won.is_none()
            && !self.is_out_of_guesses() {
            Some(self.current_guess())
        } else {
            None
        };
        let ghost found = guess_tracks@;
        let mut guesses: Vec<GuessResponse> = Vec::new();
        let mut i: usize = 0;
        for guessed in it: guess_tracks
            invariant
                it.seq() == found,
                found.len() == self.guesses@.len(),
                found.len() <= usize::MAX,
                i == it.index(),
                guesses@.len() == i,
                forall|k: int|
                    0 <= k < i ==> meta_answers(
                        (#[trigger] self.guesses@[k]).track_id.0,
                        found[k],
                    ),
                forall|k: int|
                    0 <= k < i ==> (#[trigger] guesses@[k]) == (GuessResponse {
                        track: found[k],
                        guessed_at: self.guesses@[k].guessed_at,
                    }),
        {
            let guess = &self.guesses[i];
            let answers = match (&guess.track_id.0, &guessed) {
                (Some(id), Some(meta)) => meta.id == *id,
                (None, None) => true,
                _ => false,
            };
            if !answers {
                return Err(
                    ApiError::internal("the track of a game's guess was not found".to_owned()),
                );
            }
            guesses.push(GuessResponse { track: guessed, guessed_at: guess.guessed_at });
            i = i + 1;
        }
        let shown = match self.game.won {
            None => None,
            Some(_) => match self.track_cache {
                Some(cached) => Some(cached),
                None => track,
            },
        };
        Ok(
            Response {
                id: self.game.id,
                started_at: self.game.started_at,
                is_daily: self.game.is_daily,
                is_timed: self.game.is_timed,
                genre,
                guesses,
                timed_guess,
                won: self.game.won,
                track: shown,
                constants: constants(),
            },
        )
    }
}

} // verus!
