//! Game logic, including time calculations for timed games and win checking.
use crate::deezer::{Id, OptionId};
use crate::game::database::{numbered, Game, GameView, Guess, Row, MAX_GUESSES};
use vstd::prelude::*;

verus! {

/// How long each clip is (from the start of the track), in milliseconds.
pub const MUSIC_CLIP_LENGTHS: [i64; 7] = [1_000, 2_000, 4_000, 7_000, 11_000, 16_000, 30_000];

/// The duration each guess is given in a timed game, in milliseconds: the clip's length
/// and five seconds.
pub const TIMED_GUESS_LENGTHS: [i64; 7] = [6_000, 7_000, 9_000, 12_000, 16_000, 21_000, 35_000];

/// The sum of every guess length, the maximum time a timed game can last.
pub const MAX_TIMED_GAME_LENGTH: i64 = 106_000;

/// The length of the whole clip: what is unlocked once a game is over.
pub const FULL_CLIP_LENGTH: i64 = 30_000;

/// The game constants.
#[derive(Debug, Clone, Copy)]
pub struct Constants {
    /// How long each clip is (from the start of the track).
    pub music_clip_lengths: [i64; 7],
    /// The maximum amount of time allotted to each guess.
    pub timed_guess_lengths: [i64; 7],
}

/// How long the clip is once `chunk` more chunks than the first are unlocked.
pub open spec fn clip_length(chunk: int) -> int {
    if chunk <= 0 {
        1_000
    } else if chunk == 1 {
        2_000
    } else if chunk == 2 {
        4_000
    } else if chunk == 3 {
        7_000
    } else if chunk == 4 {
        11_000
    } else if chunk == 5 {
        16_000
    } else {
        30_000
    }
}

/// How long the guess with number `slot` may last in a timed game.
pub open spec fn guess_length(slot: int) -> int {
    clip_length(slot) + 5_000
}

/// The time allotted to the guesses with numbers from `from` up to but without `to`.
pub open spec fn allotted(from: int, to: int) -> int
    decreases to - from,
{
    if to <= from {
        0
    } else {
        allotted(from, to - 1) + guess_length(to - 1)
    }
}

/// The specific game constants.
pub fn constants() -> (constants: Constants)
    ensures
        forall|i: int|
            0 <= i < MAX_GUESSES ==> #[trigger] constants.music_clip_lengths@[i] == clip_length(i),
        forall|i: int|
            0 <= i < MAX_GUESSES ==> #[trigger] constants.timed_guess_lengths@[i] == guess_length(
                i,
            ),
{
    Constants { music_clip_lengths: MUSIC_CLIP_LENGTHS, timed_guess_lengths: TIMED_GUESS_LENGTHS }
}

/// How long the clip is once `chunk` more chunks than the first are unlocked.
pub fn music_clip_length(chunk: usize) -> (length: i64)
    requires
        chunk < MAX_GUESSES,
    ensures
        length == clip_length(chunk as int),
{
    MUSIC_CLIP_LENGTHS[chunk]
}

/// How long the guess with number `slot` may last in a timed game.
pub fn timed_guess_length(slot: usize) -> (length: i64)
    requires
        slot < MAX_GUESSES,
    ensures
        length == guess_length(slot as int),
{
    TIMED_GUESS_LENGTHS[slot]
}

/// The moment such that a timed game started before it has run out of time at `now`;
/// the earliest moment there is where the clock cannot go back that far.
pub open spec fn cutoff_before_spec(now: i64) -> i64 {
    if now - MAX_TIMED_GAME_LENGTH >= i64::MIN {
        (now - MAX_TIMED_GAME_LENGTH) as i64
    } else {
        i64::MIN
    }
}

/// The moment such that a timed game started before it has run out of time at `now`;
/// the earliest moment there is where the clock cannot go back that far.
#[verifier::when_used_as_spec(cutoff_before_spec)]
pub fn cutoff_before(now: i64) -> (cutoff: i64)
    ensures
        cutoff == cutoff_before_spec(now),
{
    if now >= i64::MIN + MAX_TIMED_GAME_LENGTH {
        now - MAX_TIMED_GAME_LENGTH
    } else {
        i64::MIN
    }
}

/// Reads the clock with `chrono::Utc::now` and gives the moment in milliseconds, as
/// `DateTime::timestamp_millis` does. Nothing is known of the moment that comes back.
/// The clock does not answer while the system time is set before the epoch.
#[verifier::external_body]
fn now_millis() -> (now: i64) {
    chrono::Utc::now().timestamp_millis()
}

/// Calculate the moment such that if a user started a timed game before that moment,
/// they would now have run out of time.
pub fn timed_game_cutoff() -> (cutoff: i64)
    ensures
        exists|now: i64| cutoff == #[trigger] cutoff_before_spec(now),
        cutoff <= i64::MAX - MAX_TIMED_GAME_LENGTH,
{
    cutoff_before(now_millis())
}

/// The current guess state in a timed game.
#[derive(Debug, PartialEq, Eq, Clone, Copy, Structural)]
pub struct CurrentGuess {
    /// Zero-indexed number of the current guess.
    pub number: usize,
    /// The time the current guess started at.
    pub started_at: i64,
    /// The maximum number of milliseconds the guess may last.
    pub length_millis: u64,
}

/// What [`Game::auto_update`] changed, for the store to follow.
#[derive(Debug, PartialEq, Eq, Clone, Copy, Structural)]
pub struct Update {
    /// How many guesses were added: they are the last ones of the game.
    pub skipped: usize,
    /// The outcome, where this update has set it.
    pub outcome: Option<bool>,
}

impl GameView {
    /// The time the current guess started at: the time of the last guess, or of the
    /// game's start.
    pub open spec fn last_time(self) -> int {
        if self.guesses.len() == 0 {
            self.game.started_at as int
        } else {
            self.guesses.last().guessed_at as int
        }
    }

    /// Whether at `now` the time for the guess with number `slot` has run out, no guess
    /// having been made after those the game holds.
    pub open spec fn timed_out(self, now: int, slot: int) -> bool {
        now - self.last_time() > allotted(self.guesses.len() as int, slot + 1)
    }

    /// The number of the first guess, from `from` on, whose time has not run out at
    /// `now`; [`MAX_GUESSES`] where all have.
    pub open spec fn open_slot(self, now: int, from: int) -> int
        decreases MAX_GUESSES - from,
    {
        if from >= MAX_GUESSES || !self.timed_out(now, from) {
            from
        } else {
            self.open_slot(now, from + 1)
        }
    }

    /// The skip that stands for the timed-out guess with number `slot`: it is made at
    /// the moment the guess's time ran out.
    pub open spec fn skip_at(self, slot: int) -> Guess {
        Guess {
            number: slot as usize,
            track_id: OptionId(None),
            guessed_at: (self.last_time() + allotted(self.guesses.len() as int, slot + 1)) as i64,
        }
    }

    /// The guesses of the game at `now`: in a timed game with guesses left, those made
    /// and a skip for each guess that has timed out since.
    pub open spec fn materialized(self, now: int) -> Seq<Guess> {
        if self.game.is_timed && !self.is_out_of_guesses() {
            let made = self.guesses.len() as int;
            self.guesses + Seq::new(
                (self.open_slot(now, made) - made) as nat,
                |k: int| self.skip_at(made + k),
            )
        } else {
            self.guesses
        }
    }

    /// The outcome that the guesses settle: won if the track was guessed, else lost if
    /// no guess is left, else open.
    pub open spec fn settled(self) -> Option<bool> {
        if self.is_guessed() {
            Some(true)
        } else if self.is_out_of_guesses() {
            Some(false)
        } else {
            None
        }
    }

    /// The game brought up to date at `now`. A game that is over stays as it is. Else
    /// timed-out guesses become skips, and the outcome is set if the guesses settle it.
    pub open spec fn reconciled(self, now: int) -> GameView {
        if self.is_over() {
            self
        } else {
            let current = GameView { guesses: self.materialized(now), ..self };
            GameView { game: Row { won: current.settled(), ..self.game }, guesses: current.guesses }
        }
    }

    /// How many chunks of music, after the first, are unlocked: all where the game is
    /// over, else one for each guess.
    pub open spec fn chunks_unlocked(self) -> int {
        if self.is_over() || self.guesses.len() >= MAX_GUESSES - 1 {
            MAX_GUESSES - 1
        } else {
            self.guesses.len() as int
        }
    }

    /// How much of the music is available for the player to listen to.
    pub open spec fn time_unlocked(self) -> int {
        clip_length(self.chunks_unlocked())
    }
}

/// Time allotted to a run of guesses is the sum of the times allotted to its parts.
pub proof fn lemma_allotted_split(from: int, mid: int, to: int)
    requires
        from <= mid <= to,
    ensures
        allotted(from, to) == allotted(from, mid) + allotted(mid, to),
    decreases to - mid,
{
    if mid < to {
        lemma_allotted_split(from, mid, to - 1);
    }
}

/// Every guess is allotted some time, so more guesses are allotted more.
pub proof fn lemma_allotted_grows(from: int, to: int)
    requires
        from <= to,
    ensures
        allotted(from, to) >= 0,
        from < to ==> allotted(from, to) > 0,
        allotted(from, to + 1) > allotted(from, to),
    decreases to - from,
{
    if from < to {
        lemma_allotted_grows(from, to - 1);
    }
}

/// The guess lengths add up to the maximum time a timed game can last.
pub proof fn lemma_max_timed_game_length()
    ensures
        allotted(0, MAX_GUESSES as int) == MAX_TIMED_GAME_LENGTH,
{
    reveal_with_fuel(allotted, 8);
}

/// The first open slot lies between where the search starts and the last guess; every
/// slot before it has timed out and it has not, unless all guesses are used up.
pub proof fn lemma_open_slot(game: GameView, now: int, from: int)
    requires
        0 <= from <= MAX_GUESSES,
    ensures
        from <= game.open_slot(now, from) <= MAX_GUESSES,
        forall|slot: int| from <= slot < game.open_slot(now, from) ==> game.timed_out(now, slot),
        game.open_slot(now, from) < MAX_GUESSES ==> !game.timed_out(
            now,
            game.open_slot(now, from),
        ),
    decreases MAX_GUESSES - from,
{
    if from < MAX_GUESSES && game.timed_out(now, from) {
        lemma_open_slot(game, now, from + 1);
    }
}

impl Game {
    /// The time the current guess started at.
    pub fn last_guess_time(&self) -> (time: i64)
        ensures
            time == self@.last_time(),
    {
        if self.guesses.len() == 0 {
            self.game.started_at
        } else {
            self.guesses[self.guesses.len() - 1].guessed_at
        }
    }

    /// Whether the time of a timed game has run out at `now`: it started more than
    /// the maximum time a timed game can last ago, that is, before the cutoff.
    pub fn is_out_of_time(&self, now: i64) -> (out: bool)
        ensures
            out == (self.game.is_timed && self.game.started_at + MAX_TIMED_GAME_LENGTH < now),
            out ==> self.game.started_at < cutoff_before_spec(now),
    {
        self.game.is_timed && (self.game.started_at as i128) + (MAX_TIMED_GAME_LENGTH as i128) < (
        now as i128)
    }

    /// How many "chunks" of music have been unlocked.
    ///
    /// This is the number of guesses, timed-out ones included once
    /// [`Game::auto_update`] has made them skips. It starts from zero, even though some
    /// music is available from the start of the game: the value is one less than the
    /// number of chunks of music available. The final guess doesn't unlock a new chunk,
    /// and a game that is over has all chunks unlocked.
    pub fn chunks_unlocked(&self) -> (chunks: usize)
        ensures
            chunks == self@.chunks_unlocked(),
            chunks < MAX_GUESSES,
    {
        if self.is_over() || self.guesses.len() >= MAX_GUESSES - 1 {
            MAX_GUESSES - 1
        } else {
            self.guesses.len()
        }
    }

    /// How much of the music should be available for the player to listen to, in
    /// milliseconds from the start of the track.
    pub fn time_unlocked(&self) -> (length: i64)
        ensures
            length == self@.time_unlocked(),
            self@.is_over() ==> length == FULL_CLIP_LENGTH,
            1_000 <= length <= FULL_CLIP_LENGTH,
    {
        music_clip_length(self.chunks_unlocked())
    }

    /// Get the current timed guess state (result is meaningless in a non-timed game).
    pub fn current_guess(&self) -> (current: CurrentGuess)
        requires
            !self@.is_out_of_guesses(),
        ensures
            current.number == self@.guesses.len(),
            current.started_at == self@.last_time(),
            current.length_millis == guess_length(self@.guesses.len() as int),
    {
        let number: usize = self.guesses.len();
        let length: i64 = timed_guess_length(number);
        CurrentGuess { number, started_at: self.last_guess_time(), length_millis: length as u64 }
    }

    /// Update any game state that depends on the current time.
    ///
    /// In a timed game, each guess whose time has run out by `now` becomes a skip, made
    /// at the moment its time ran out. Then the game is won if the track was guessed,
    /// and lost if no guess is left. A game that is over is left as it is.
    pub fn auto_update(&mut self, now: i64) -> (update: Update)
        requires
            old(self)@.wf(),
        ensures
            final(self)@ == old(self)@.reconciled(now as int),
            final(self)@.wf(),
            final(self).track_cache == old(self).track_cache,
            update.skipped == final(self)@.guesses.len() - old(self)@.guesses.len(),
            update.outcome == if old(self)@.is_over() {
                None
            } else {
                final(self).game.won
            },
            !final(self)@.is_over() ==> !final(self)@.is_out_of_guesses(),
    {
        if self.is_over() {
            return Update { skipped: 0, outcome: None };
        }
        let ghost before = self@;
        let made: usize = self.guesses.len();
        if self.game.is_timed && !self.is_out_of_guesses() {
            let mut last: i64 = self.last_guess_time();
            let mut waiting: bool = false;
            proof {
                assert(allotted(made as int, made as int) == 0);
                assert(self@.guesses =~= before.guesses + Seq::new(
                    0nat,
                    |k: int| before.skip_at(made + k),
                ));
            }
            while !waiting && self.guesses.len() < MAX_GUESSES
                invariant
                    before.wf(),
                    !before.is_over(),
                    made == before.guesses.len(),
                    made <= self.guesses.len() <= MAX_GUESSES,
                    self.game == before.game,
                    self.track_cache == old(self).track_cache,
                    last == before.last_time() + allotted(made as int, self.guesses.len() as int),
                    before.open_slot(now as int, made as int) == before.open_slot(
                        now as int,
                        self.guesses.len() as int,
                    ),
                    waiting ==> !before.timed_out(now as int, self.guesses.len() as int),
                    self.guesses@ == before.guesses + Seq::new(
                        (self.guesses.len() - made) as nat,
                        |k: int| before.skip_at(made + k),
                    ),
                decreases MAX_GUESSES - self.guesses.len() + if waiting { 0int } else { 1int },
            {
                let number: usize = self.guesses.len();
                let length: i64 = timed_guess_length(number);
                proof {
                    assert(allotted(made as int, number + 1) == allotted(
                        made as int,
                        number as int,
                    ) + guess_length(number as int));
                }
                if (now as i128) - (last as i128) > (length as i128) {
                    last = last + length;
                    self.guesses.push(Guess { number, track_id: OptionId(None), guessed_at: last });
                    proof {
                        assert(self.guesses@ =~= before.guesses + Seq::new(
                            (number + 1 - made) as nat,
                            |k: int| before.skip_at(made + k),
                        ));
                    }
                } else {
                    waiting = true;
                }
            }
        }
        proof {
            if before.game.is_timed && !before.is_out_of_guesses() {
                assert(before.open_slot(now as int, made as int) == self.guesses.len());
            }
            assert(self.guesses@ =~= before.materialized(now as int));
            assert forall|i: int| 0 <= i < self.guesses@.len() implies (
            #[trigger] self.guesses@[i]).number == i by {
                if i >= made {
                    assert(self.guesses@[i] == before.skip_at(made + (i - made)));
                }
            }
        }
        let skipped: usize = self.guesses.len() - made;
        let outcome: Option<bool> = if self.is_guessed() {
            Some(true)
        } else if self.is_out_of_guesses() {
            Some(false)
        } else {
            None
        };
        self.game.won = outcome;
        Update { skipped, outcome }
    }

    /// Update any game state that depends on the current time, at the moment that the
    /// clock shows: see [`Game::auto_update`]. The moment comes back with the update.
    pub fn auto_update_now(&mut self) -> (update: (i64, Update))
        requires
            old(self)@.wf(),
        ensures
            final(self)@ == old(self)@.reconciled(update.0 as int),
            final(self)@.wf(),
            final(self).track_cache == old(self).track_cache,
            update.1.skipped == final(self)@.guesses.len() - old(self)@.guesses.len(),
            update.1.outcome == if old(self)@.is_over() {
                None
            } else {
                final(self).game.won
            },
    {
        let now = now_millis();
        (now, self.auto_update(now))
    }
}

/// One thing that happens to a game.
pub enum Step {
    /// A guess is submitted, or a skip where the track is nothing, at the given time.
    Guess(Option<Id>, i64),
    /// The game is brought up to date at the given time.
    Update(i64),
}

impl GameView {
    /// The game after one step. A guess that the game does not accept changes nothing.
    pub open spec fn after_step(self, step: Step) -> GameView {
        match step {
            Step::Guess(track_id, guessed_at) => if self.accepts_guess() {
                self.with_guess(track_id, guessed_at)
            } else {
                self
            },
            Step::Update(now) => self.reconciled(now as int),
        }
    }

    /// The game after a run of steps.
    pub open spec fn after_steps(self, steps: Seq<Step>) -> GameView
        decreases steps.len(),
    {
        if steps.len() == 0 {
            self
        } else {
            self.after_steps(steps.drop_last()).after_step(steps.last())
        }
    }
}

/// The skips that stand for timed-out guesses lie between the last guess and `now`,
/// so their times are moments of the clock.
proof fn lemma_skip_times(game: GameView, now: i64, slot: int)
    requires
        game.guesses.len() <= slot < MAX_GUESSES,
        game.timed_out(now as int, slot),
    ensures
        game.skip_at(slot).guessed_at == game.last_time() + allotted(
            game.guesses.len() as int,
            slot + 1,
        ),
        game.skip_at(slot).number == slot,
        game.skip_at(slot).track_id == OptionId(None),
{
    lemma_allotted_grows(game.guesses.len() as int, slot + 1);
}

/// What bringing a game up to date does to its guesses: those made stay, and each one
/// added is a skip with the next number.
pub proof fn lemma_materialized(game: GameView, now: i64)
    requires
        game.wf(),
    ensures
        game.guesses.len() <= game.materialized(now as int).len() <= MAX_GUESSES,
        game.materialized(now as int).subrange(0, game.guesses.len() as int) == game.guesses,
        numbered(game.materialized(now as int)),
        forall|i: int|
            game.guesses.len() <= i < game.materialized(now as int).len() ==> (
            #[trigger] game.materialized(now as int)[i]).track_id == OptionId(None),
        (GameView { guesses: game.materialized(now as int), ..game }).is_guessed()
            == game.is_guessed(),
{
    let made = game.guesses.len() as int;
    let after = game.materialized(now as int);
    if game.game.is_timed && !game.is_out_of_guesses() {
        lemma_open_slot(game, now as int, made);
        assert forall|i: int| made <= i < after.len() implies (#[trigger] after[i]).track_id
            == OptionId(None) && after[i].number == i by {
            assert(after[i] == game.skip_at(made + (i - made)));
            lemma_skip_times(game, now, i);
        }
    }
    assert(after.subrange(0, made) =~= game.guesses);
    let current = GameView { guesses: after, ..game };
    if game.is_guessed() {
        let i = choose|i: int|
            0 <= i < game.guesses.len() && (#[trigger] game.guesses[i]).track_id == OptionId(
                Some(game.game.track_id),
            );
        assert(after[i] == game.guesses[i]);
    }
    if current.is_guessed() {
        let i = choose|i: int|
            0 <= i < after.len() && (#[trigger] after[i]).track_id == OptionId(
                Some(game.game.track_id),
            );
        assert(i < made);
        assert(after[i] == game.guesses[i]);
    }
    assert forall|i: int| 0 <= i < after.len() implies (#[trigger] after[i]).number == i by {
        if i < made {
            assert(after[i] == game.guesses[i]);
        }
    }
}

/// Guesses are numbered in the order they are made: after any run of guesses, skips
/// and updates, a game that started well-formed holds at most [`MAX_GUESSES`] guesses
/// and their numbers are exactly `0, 1, ..., n - 1`. The guesses it held before are
/// still its first ones, and once its outcome is set nothing changes any more.
pub proof fn lemma_play(game: GameView, steps: Seq<Step>)
    requires
        game.wf(),
    ensures
        game.after_steps(steps).wf(),
        forall|i: int|
            0 <= i < game.after_steps(steps).guesses.len() ==> (#[trigger] game.after_steps(
                steps,
            ).guesses[i]).number == i,
        game.guesses.len() <= game.after_steps(steps).guesses.len(),
        game.after_steps(steps).guesses.subrange(0, game.guesses.len() as int) == game.guesses,
        game.is_over() ==> game.after_steps(steps) == game,
    decreases steps.len(),
{
    if steps.len() > 0 {
        let before = game.after_steps(steps.drop_last());
        lemma_play(game, steps.drop_last());
        match steps.last() {
            Step::Guess(track_id, guessed_at) => {},
            Step::Update(now) => {
                lemma_materialized(before, now);
            },
        }
        let after = game.after_steps(steps);
        assert(after.guesses.subrange(0, game.guesses.len() as int) =~= before.guesses.subrange(
            0,
            game.guesses.len() as int,
        ));
    } else {
        assert(game.guesses.subrange(0, game.guesses.len() as int) =~= game.guesses);
    }
}

/// A longer clip is never shorter: the clip lengths grow with the chunks unlocked.
pub proof fn lemma_clip_lengths_grow(fewer: int, more: int)
    requires
        fewer <= more,
    ensures
        clip_length(fewer) <= clip_length(more),
        1_000 <= clip_length(fewer) <= FULL_CLIP_LENGTH,
{
}

/// What is unlocked does not shrink as guesses are made: of two games, the one with as
/// many guesses or more has as much music unlocked or more, unless only the other one
/// is over. A game that is over has the full clip unlocked, whatever its mode.
pub proof fn lemma_unlocked_grows_with_guesses(fewer: GameView, more: GameView)
    requires
        fewer.guesses.len() <= more.guesses.len(),
        fewer.is_over() ==> more.is_over(),
    ensures
        fewer.time_unlocked() <= more.time_unlocked(),
        more.is_over() ==> more.time_unlocked() == FULL_CLIP_LENGTH,
{
}

/// A guess whose time has run out stays timed out, so the first open slot only moves
/// forward as time passes.
pub proof fn lemma_open_slot_grows_with_time(game: GameView, earlier: int, later: int, from: int)
    requires
        earlier <= later,
        0 <= from <= MAX_GUESSES,
    ensures
        game.open_slot(earlier, from) <= game.open_slot(later, from),
    decreases MAX_GUESSES - from,
{
    if from < MAX_GUESSES && game.timed_out(earlier, from) {
        lemma_open_slot_grows_with_time(game, earlier, later, from + 1);
    } else {
        lemma_open_slot(game, later, from);
    }
}

/// What is unlocked does not shrink as time passes: a game brought up to date at a
/// later moment has as much music unlocked as at an earlier one, or more.
pub proof fn lemma_unlocked_grows_with_time(game: GameView, earlier: i64, later: i64)
    requires
        game.wf(),
        earlier <= later,
    ensures
        game.reconciled(earlier as int).time_unlocked() <= game.reconciled(
            later as int,
        ).time_unlocked(),
{
    lemma_materialized(game, earlier);
    lemma_materialized(game, later);
    if !game.is_over() {
        let sooner = GameView { guesses: game.materialized(earlier as int), ..game };
        let latest = GameView { guesses: game.materialized(later as int), ..game };
        if game.game.is_timed && !game.is_out_of_guesses() {
            lemma_open_slot_grows_with_time(
                game,
                earlier as int,
                later as int,
                game.guesses.len() as int,
            );
            lemma_open_slot(game, earlier as int, game.guesses.len() as int);
            lemma_open_slot(game, later as int, game.guesses.len() as int);
            assert(sooner.guesses.len() == game.open_slot(
                earlier as int,
                game.guesses.len() as int,
            ));
            assert(latest.guesses.len() == game.open_slot(
                later as int,
                game.guesses.len() as int,
            ));
        }
        assert(sooner.guesses.len() <= latest.guesses.len());
        assert(sooner.is_guessed() == latest.is_guessed());
        assert(game.reconciled(earlier as int).game.won == sooner.settled());
        assert(game.reconciled(later as int).game.won == latest.settled());
        assert(game.reconciled(earlier as int).guesses == sooner.guesses);
        assert(game.reconciled(later as int).guesses == latest.guesses);
    }
}

/// No step takes music away: after a guess, a skip or an update, a game has as much
/// music unlocked as before, or more.
pub proof fn lemma_unlocked_never_shrinks(game: GameView, step: Step)
    requires
        game.wf(),
    ensures
        game.time_unlocked() <= game.after_step(step).time_unlocked(),
{
    match step {
        Step::Guess(track_id, guessed_at) => {},
        Step::Update(now) => {
            lemma_materialized(game, now);
        },
    }
}

/// Bringing a game up to date twice at the same moment is the same as doing it once.
pub proof fn lemma_update_idempotent(game: GameView, now: i64)
    requires
        game.wf(),
    ensures
        game.reconciled(now as int).reconciled(now as int) == game.reconciled(now as int),
{
    let once = game.reconciled(now as int);
    let made = game.guesses.len() as int;
    lemma_materialized(game, now);
    if !game.is_over() && !once.is_over() {
        let count = once.guesses.len() as int;
        if game.game.is_timed {
            lemma_open_slot(game, now as int, made);
            if count > made {
                assert(once.guesses[count - 1] == game.skip_at(made + (count - 1 - made)));
                lemma_skip_times(game, now, count - 1);
            } else {
                assert(once.guesses =~= game.guesses);
            }
            lemma_allotted_split(made, count, count + 1);
            assert(allotted(count, count + 1) == guess_length(count)) by {
                reveal_with_fuel(allotted, 2);
            }
            assert(!once.timed_out(now as int, count));
            assert(once.open_slot(now as int, count) == count);
        }
        assert(once.materialized(now as int) =~= once.guesses);
        assert(once.reconciled(now as int).guesses == once.guesses);
        assert((GameView { guesses: once.materialized(now as int), ..once }) == once);
    }
}

/// Once a game has been brought up to date, doing so again changes nothing where no
/// time can run out: whenever the game is over or is not timed.
pub proof fn lemma_update_settles(game: GameView, first: i64, second: i64)
    requires
        game.wf(),
        !game.game.is_timed || game.reconciled(first as int).is_over(),
    ensures
        game.reconciled(first as int).reconciled(second as int) == game.reconciled(first as int),
{
    let once = game.reconciled(first as int);
    if !once.is_over() {
        assert(once.materialized(second as int) =~= once.guesses);
        assert((GameView { guesses: once.materialized(second as int), ..once }) == once);
    }
}

impl GameView {
    /// The time at which the guess with number `slot` could first be made: the time of
    /// the guess before it, or of the game's start.
    pub open spec fn slot_start(self, slot: int) -> int {
        if slot <= 0 {
            self.game.started_at as int
        } else {
            self.guesses[slot - 1].guessed_at as int
        }
    }

    /// Whether every guess was made within the time allotted to it.
    pub open spec fn paced(self) -> bool {
        forall|i: int|
            0 <= i < self.guesses.len() ==> (#[trigger] self.guesses[i]).guessed_at
                - self.slot_start(i) <= guess_length(i)
    }
}

/// In a game whose guesses were made in time, no guess was made later than the time
/// allotted to it and to those before it allows.
pub proof fn lemma_paced_times(game: GameView, slot: int)
    requires
        game.paced(),
        0 <= slot <= game.guesses.len(),
    ensures
        game.slot_start(slot) <= game.game.started_at + allotted(0, slot),
    decreases slot,
{
    if slot > 0 {
        lemma_paced_times(game, slot - 1);
        assert(game.guesses[slot - 1].guessed_at - game.slot_start(slot - 1) <= guess_length(
            slot - 1,
        ));
    }
}

/// Bringing a game up to date keeps its guesses in time: each skip is made just when
/// the time of its guess runs out.
pub proof fn lemma_paced_kept(game: GameView, now: i64)
    requires
        game.wf(),
        game.paced(),
    ensures
        game.reconciled(now as int).paced(),
{
    let after = game.reconciled(now as int);
    let made = game.guesses.len() as int;
    lemma_materialized(game, now);
    if !game.is_over() && game.game.is_timed && !game.is_out_of_guesses() {
        lemma_open_slot(game, now as int, made);
        assert forall|i: int| 0 <= i < after.guesses.len() implies (
        #[trigger] after.guesses[i]).guessed_at - after.slot_start(i) <= guess_length(i) by {
            if i < made {
                assert(after.guesses[i] == game.guesses[i]);
                if i > 0 {
                    assert(after.guesses[i - 1] == game.guesses[i - 1]);
                }
                assert(game.guesses[i].guessed_at - game.slot_start(i) <= guess_length(i));
            } else {
                assert(after.guesses[i] == game.skip_at(made + (i - made)));
                lemma_skip_times(game, now, i);
                if i > made {
                    assert(after.guesses[i - 1] == game.skip_at(made + (i - 1 - made)));
                    lemma_skip_times(game, now, i - 1);
                } else if i > 0 {
                    assert(after.guesses[i - 1] == game.guesses[i - 1]);
                }
                assert(allotted(made, i + 1) == allotted(made, i) + guess_length(i));
                assert(allotted(made, made) == 0);
            }
        }
    } else {
        assert(after.guesses =~= game.guesses);
        assert forall|i: int| 0 <= i < after.guesses.len() implies (
        #[trigger] after.guesses[i]).guessed_at - after.slot_start(i) <= guess_length(i) by {
            assert(game.guesses[i].guessed_at - game.slot_start(i) <= guess_length(i));
        }
    }
}

/// A guess made at the moment a game was brought up to date is made in time.
pub proof fn lemma_paced_guess(game: GameView, track_id: Option<Id>, now: i64)
    requires
        game.wf(),
        game.paced(),
        game.game.is_timed,
        game.reconciled(now as int).accepts_guess(),
    ensures
        game.reconciled(now as int).with_guess(track_id, now).paced(),
{
    let current = game.reconciled(now as int);
    let after = current.with_guess(track_id, now);
    let made = game.guesses.len() as int;
    let count = current.guesses.len() as int;
    lemma_paced_kept(game, now);
    lemma_materialized(game, now);
    lemma_open_slot(game, now as int, made);
    if count > made {
        assert(current.guesses[count - 1] == game.skip_at(made + (count - 1 - made)));
        lemma_skip_times(game, now, count - 1);
    } else {
        assert(current.guesses =~= game.guesses);
    }
    lemma_allotted_split(made, count, count + 1);
    assert(allotted(count, count + 1) == guess_length(count)) by {
        reveal_with_fuel(allotted, 2);
    }
    assert forall|i: int| 0 <= i < after.guesses.len() implies (
    #[trigger] after.guesses[i]).guessed_at - after.slot_start(i) <= guess_length(i) by {
        if i < count {
            assert(after.guesses[i] == current.guesses[i]);
            if i > 0 {
                assert(after.guesses[i - 1] == current.guesses[i - 1]);
            }
            assert(current.guesses[i].guessed_at - current.slot_start(i) <= guess_length(i));
        } else {
            assert(after.slot_start(i) == current.last_time());
        }
    }
}

/// The cutoff decides when a timed game has ended: a timed game whose guesses were
/// made in time and which started before the cutoff of `now` is over once it is
/// brought up to date at `now`.
pub proof fn lemma_cutoff_ends_game(game: GameView, now: i64)
    requires
        game.wf(),
        game.paced(),
        game.game.is_timed,
        game.game.started_at < cutoff_before_spec(now),
    ensures
        game.reconciled(now as int).is_over(),
{
    let made = game.guesses.len() as int;
    lemma_materialized(game, now);
    if !game.is_over() && !game.is_out_of_guesses() {
        lemma_open_slot(game, now as int, made);
        lemma_paced_times(game, made);
        lemma_max_timed_game_length();
        let open = game.open_slot(now as int, made);
        if open < MAX_GUESSES {
            lemma_allotted_split(0, made, MAX_GUESSES as int);
            lemma_allotted_split(made, open + 1, MAX_GUESSES as int);
            lemma_allotted_grows(open + 1, MAX_GUESSES as int);
            assert(game.timed_out(now as int, open));
        }
        assert(game.materialized(now as int).len() == MAX_GUESSES);
    }
}

} // verus!
