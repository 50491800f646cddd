//! Procedures to pick a track for a new game.
//!
//! Picking talks to the store and to the catalog in turn. What to do next is decided
//! here, by [`step`]; the caller does it and reports what came of it.
use crate::deezer::Id;
use vstd::prelude::*;

verus! {

/// What kind of track is asked for.
#[derive(Debug, PartialEq, Eq, Clone, Copy, Structural)]
pub enum Mode {
    /// Any track.
    Any,
    /// A track of the genre.
    Genre(Id),
    /// The track of the day.
    Daily,
}

/// Where a pick stands.
#[derive(Debug, PartialEq, Eq, Clone, Copy, Structural)]
pub enum State {
    /// Nothing has been done yet.
    Start,
    /// The pin of the day is being read.
    ReadingPin,
    /// The store is being asked for its best candidate.
    Querying {
        /// Whether the store has been refreshed from the catalog during this pick.
        refreshed: bool,
    },
    /// The catalog is being asked whether it still has the candidate.
    Checking {
        /// The candidate.
        track: Id,
        /// Whether the store has been refreshed from the catalog during this pick.
        refreshed: bool,
    },
    /// A track that the catalog no longer has is being deleted from the store.
    Pruning {
        /// Whether the store has been refreshed from the catalog during this pick.
        refreshed: bool,
    },
    /// The store is being refreshed from the catalog.
    Refreshing,
    /// The pin of the day is being stored, unless the day has one by now.
    StoringPin,
    /// The pick has ended.
    Done,
}

/// What came of the last action.
#[derive(Debug, PartialEq, Eq, Clone, Copy, Structural)]
pub enum Event {
    /// The pick begins.
    Begin,
    /// The pin of the day was read: the track that is pinned, if any.
    Pin(Option<Id>),
    /// The store gave its best candidate, if it has any.
    Candidate(Option<Id>),
    /// The catalog told whether it has the candidate.
    Exists(bool),
    /// The track was deleted from the store.
    Deleted,
    /// The store was refreshed from the catalog.
    Refreshed,
    /// The pin was stored unless the day had one: the track that is pinned now.
    PinStored(Id),
}

/// What to do next.
#[derive(Debug, PartialEq, Eq, Clone, Copy, Structural)]
pub enum Action {
    /// Read the pin of the day and report [`Event::Pin`].
    ReadPin,
    /// Ask the store for its best candidate and report [`Event::Candidate`].
    Query,
    /// Ask the catalog whether it has the track and report [`Event::Exists`].
    CheckCatalog(Id),
    /// Delete the track from the store and report [`Event::Deleted`].
    DeleteTrack(Id),
    /// Refresh the store with the top tracks of every genre and report
    /// [`Event::Refreshed`].
    RefreshAll,
    /// Refresh the store with the top tracks of the genre and report
    /// [`Event::Refreshed`].
    RefreshGenre(Id),
    /// Pin the track to the day unless the day has a pin, and report
    /// [`Event::PinStored`] with the track that is pinned then.
    StorePin(Id),
    /// The pick is this track.
    Finish(Id),
    /// There is no track to pick: not found.
    NotFound,
    /// The event does not answer the last action: nothing is done.
    Ignore,
}

/// The refresh that a mode calls for.
pub open spec fn refresh_for(mode: Mode) -> Action {
    match mode {
        Mode::Genre(genre) => Action::RefreshGenre(genre),
        _ => Action::RefreshAll,
    }
}

/// The next state and the action to take when `event` comes in `state`.
///
/// A pick of the day first reads the pin and ends with the pinned track if there is
/// one; else it refreshes the store before it looks for a candidate. Any other pick
/// looks for a candidate first, and refreshes the store once if there is none. A
/// candidate is picked only if the catalog still has it: else it is deleted from the
/// store and the store is asked again. When the store has no candidate after a refresh,
/// nothing is found. The pick of the day is pinned before it is returned, and what is
/// returned is the track that is pinned to the day then.
pub open spec fn next(mode: Mode, state: State, event: Event) -> (State, Action) {
    match (state, event) {
        (State::Start, Event::Begin) => match mode {
            Mode::Daily => (State::ReadingPin, Action::ReadPin),
            _ => (State::Querying { refreshed: false }, Action::Query),
        },
        (State::ReadingPin, Event::Pin(Some(track))) => (State::Done, Action::Finish(track)),
        (State::ReadingPin, Event::Pin(None)) => (State::Refreshing, Action::RefreshAll),
        (State::Querying { refreshed }, Event::Candidate(Some(track))) => (
            State::Checking { track, refreshed },
            Action::CheckCatalog(track),
        ),
        (State::Querying { refreshed }, Event::Candidate(None)) => if refreshed {
            (State::Done, Action::NotFound)
        } else {
            (State::Refreshing, refresh_for(mode))
        },
        (State::Checking { track, refreshed }, Event::Exists(exists)) => if !exists {
            (State::Pruning { refreshed }, Action::DeleteTrack(track))
        } else if mode is Daily {
            (State::StoringPin, Action::StorePin(track))
        } else {
            (State::Done, Action::Finish(track))
        },
        (State::Pruning { refreshed }, Event::Deleted) => (
            State::Querying { refreshed },
            Action::Query,
        ),
        (State::Refreshing, Event::Refreshed) => (State::Querying { refreshed: true }, Action::Query),
        (State::StoringPin, Event::PinStored(track)) => (State::Done, Action::Finish(track)),
        _ => (state, Action::Ignore),
    }
}

/// Decide what to do next in a pick: see [`next`].
pub fn step(mode: Mode, state: State, event: Event) -> (out: (State, Action))
    ensures
        out == next(mode, state, event),
{
    match (state, event) {
        (State::Start, Event::Begin) => match mode {
            Mode::Daily => (State::ReadingPin, Action::ReadPin),
            _ => (State::Querying { refreshed: false }, Action::Query),
        },
        (State::ReadingPin, Event::Pin(Some(track))) => (State::Done, Action::Finish(track)),
        (State::ReadingPin, Event::Pin(None)) => (State::Refreshing, Action::RefreshAll),
        (State::Querying { refreshed }, Event::Candidate(Some(track))) => (
            State::Checking { track, refreshed },
            Action::CheckCatalog(track),
        ),
        (State::Querying { refreshed }, Event::Candidate(None)) => if refreshed {
            (State::Done, Action::NotFound)
        } else {
            (
                State::Refreshing,
                match mode {
                    Mode::Genre(genre) => Action::RefreshGenre(genre),
                    _ => Action::RefreshAll,
                },
            )
        },
        (State::Checking { track, refreshed }, Event::Exists(exists)) => if !exists {
            (State::Pruning { refreshed }, Action::DeleteTrack(track))
        } else {
            match mode {
                Mode::Daily => (State::StoringPin, Action::StorePin(track)),
                _ => (State::Done, Action::Finish(track)),
            }
        },
        (State::Pruning { refreshed }, Event::Deleted) => (
            State::Querying { refreshed },
            Action::Query,
        ),
        (State::Refreshing, Event::Refreshed) => (State::Querying { refreshed: true }, Action::Query),
        (State::StoringPin, Event::PinStored(track)) => (State::Done, Action::Finish(track)),
        (state, _) => (state, Action::Ignore),
    }
}

/// The state after a run of events, from `state` on.
pub open spec fn state_after(mode: Mode, state: State, events: Seq<Event>) -> State
    decreases events.len(),
{
    if events.len() == 0 {
        state
    } else {
        next(mode, state_after(mode, state, events.drop_last()), events.last()).0
    }
}

/// How many refreshes a run of events, from `state` on, calls for.
pub open spec fn refreshes(mode: Mode, state: State, events: Seq<Event>) -> nat
    decreases events.len(),
{
    if events.len() == 0 {
        0
    } else {
        let before = state_after(mode, state, events.drop_last());
        let action = next(mode, before, events.last()).1;
        refreshes(mode, state, events.drop_last()) + if action is RefreshAll
            || action is RefreshGenre {
            1nat
        } else {
            0nat
        }
    }
}

/// Whether a state is one in which the store was refreshed, or is being refreshed,
/// during this pick.
pub open spec fn has_refreshed(state: State) -> bool {
    match state {
        State::Querying { refreshed } => refreshed,
        State::Checking { refreshed, .. } => refreshed,
        State::Pruning { refreshed } => refreshed,
        State::Refreshing => true,
        State::StoringPin => true,
        State::Start => false,
        State::ReadingPin => false,
        State::Done => true,
    }
}

/// Whatever the store and the catalog answer, a pick refreshes the store at most
/// once.
pub proof fn lemma_refreshes_once(mode: Mode, events: Seq<Event>)
    ensures
        refreshes(mode, State::Start, events) <= 1,
        refreshes(mode, State::Start, events) == 1 ==> has_refreshed(
            state_after(mode, State::Start, events),
        ),
        state_after(mode, State::Start, events) is StoringPin ==> mode is Daily,
    decreases events.len(),
{
    if events.len() > 0 {
        lemma_refreshes_once(mode, events.drop_last());
    }
}

/// A track is picked only when the catalog has just confirmed it, or when it is the
/// pin of the day.
pub proof fn lemma_finish_is_confirmed(mode: Mode, state: State, event: Event, track: Id)
    requires
        next(mode, state, event).1 == Action::Finish(track),
    ensures
        (state matches State::Checking { track: checked, .. } && checked == track && event
            == Event::Exists(true) && !(mode is Daily)) || (state is ReadingPin && event
            == Event::Pin(Some(track))) || (state is StoringPin && event == Event::PinStored(
            track,
        )),
{
}

/// The pins of the store: for each day that has one, the track pinned to it.
pub type Pins = Map<int, Id>;

/// The pins after `track` was pinned to `day` unless the day had a pin.
pub open spec fn pinned(pins: Pins, day: int, track: Id) -> Pins {
    if pins.contains_key(day) {
        pins
    } else {
        pins.insert(day, track)
    }
}

/// The pin of `day`, if it has one.
pub open spec fn pin_of(pins: Pins, day: int) -> Option<Id> {
    if pins.contains_key(day) {
        Some(pins[day])
    } else {
        None
    }
}

/// What a pick of the day returns on `day`, and the pins it leaves, where `candidate`
/// is the track that the store and the catalog agree on if the day has no pin yet.
pub open spec fn daily_pick(pins: Pins, day: int, candidate: Id) -> (Id, Pins) {
    match next(Mode::Daily, State::ReadingPin, Event::Pin(pin_of(pins, day))).1 {
        Action::Finish(track) => (track, pins),
        _ => {
            let after = pinned(pins, day, candidate);
            match next(Mode::Daily, State::StoringPin, Event::PinStored(after[day])).1 {
                Action::Finish(track) => (track, after),
                _ => (candidate, after),
            }
        },
    }
}

/// Two picks of the day on the same day return the same track, whatever candidates
/// they find: the first one pins its track to the day, and the second returns the pin.
pub proof fn lemma_daily_pick_is_stable(pins: Pins, day: int, first: Id, second: Id)
    ensures
        daily_pick(daily_pick(pins, day, first).1, day, second).0 == daily_pick(
            pins,
            day,
            first,
        ).0,
        pin_of(daily_pick(pins, day, first).1, day) == Some(daily_pick(pins, day, first).0),
        daily_pick(daily_pick(pins, day, first).1, day, second).1 == daily_pick(
            pins,
            day,
            first,
        ).1,
{
}

/// A track of the store as a candidate for a pick, with one of the times the user
/// started a game with it.
#[derive(Debug, PartialEq, Eq, Clone, Copy, Structural)]
pub struct Played {
    /// The track.
    pub track: Id,
    /// When the user started a game with the track, if ever.
    pub started_at: Option<i64>,
    /// The track's popularity rank.
    pub rank: i32,
}

/// A candidate with the number drawn for it.
#[derive(Debug, PartialEq, Eq, Clone, Copy, Structural)]
pub struct Candidate {
    /// The candidate.
    pub played: Played,
    /// A fresh random number.
    pub draw: u32,
}

impl Candidate {
    /// The weight of a candidate: the number drawn for it times its rank, so that
    /// higher-ranked tracks are favored without being sure to win.
    pub open spec fn weight(self) -> int {
        self.draw * self.played.rank
    }

    /// Whether this candidate goes before `other`: a track never played goes before a
    /// track played, a track played earlier before one played later, and among those
    /// that are level in this, the one with the greater weight goes first.
    pub open spec fn before(self, other: Candidate) -> bool {
        match (self.played.started_at, other.played.started_at) {
            (None, Some(_)) => true,
            (Some(_), None) => false,
            (None, None) => self.weight() > other.weight(),
            (Some(mine), Some(theirs)) => mine < theirs || (mine == theirs && self.weight()
                > other.weight()),
        }
    }

    /// Whether this candidate goes before `other`.
    pub fn goes_before(&self, other: &Candidate) -> (before: bool)
        ensures
            before == self.before(*other),
    {
        assert(self.draw * self.played.rank >= -0x8000_0000 * 0xffff_ffff && self.draw
            * self.played.rank <= 0x7fff_ffff * 0xffff_ffff) by (nonlinear_arith)
            requires
                0 <= self.draw <= 0xffff_ffff,
                -0x8000_0000 <= self.played.rank <= 0x7fff_ffff,
        ;
        assert(other.draw * other.played.rank >= -0x8000_0000 * 0xffff_ffff && other.draw
            * other.played.rank <= 0x7fff_ffff * 0xffff_ffff) by (nonlinear_arith)
            requires
                0 <= other.draw <= 0xffff_ffff,
                -0x8000_0000 <= other.played.rank <= 0x7fff_ffff,
        ;
        let mine: i64 = (self.draw as i64) * (self.played.rank as i64);
        let theirs: i64 = (other.draw as i64) * (other.played.rank as i64);
        match (self.played.started_at, other.played.started_at) {
            (None, Some(_)) => true,
            (Some(_), None) => false,
            (None, None) => mine > theirs,
            (Some(first), Some(second)) => first < second || (first == second && mine > theirs),
        }
    }
}

/// Whether the candidate at `index` is the one to pick: no candidate goes before it,
/// and it goes before every candidate that stands earlier in the list.
pub open spec fn is_best(candidates: Seq<Candidate>, index: int) -> bool {
    &&& 0 <= index < candidates.len()
    &&& forall|j: int| 0 <= j < candidates.len() ==> !(#[trigger] candidates[j]).before(
        candidates[index],
    )
    &&& forall|j: int| 0 <= j < index ==> candidates[index].before(#[trigger] candidates[j])
}

/// Pick the best of the candidates: the first one that no other goes before. None is
/// picked only where there is no candidate.
pub fn best_candidate(candidates: &Vec<Candidate>) -> (best: Option<usize>)
    ensures
        best is None <==> candidates@.len() == 0,
        best matches Some(index) ==> is_best(candidates@, index as int),
{
    if candidates.len() == 0 {
        return None;
    }
    let mut best: usize = 0;
    let mut i: usize = 1;
    while i < candidates.len()
        invariant
            1 <= i <= candidates.len(),
            best < i,
            forall|j: int| 0 <= j < i ==> !(#[trigger] candidates@[j]).before(candidates@[best as int]),
            forall|j: int|
                0 <= j < best ==> candidates@[best as int].before(#[trigger] candidates@[j]),
        decreases candidates.len() - i,
    {
        if candidates[i].goes_before(&candidates[best]) {
            best = i;
        }
        i = i + 1;
    }
    Some(best)
}

/// Draws a number with `rand::random`. Nothing is known of the number drawn.
#[verifier::external_body]
fn random_draw() -> (draw: u32) {
    rand::random()
}

/// Pick a track among the rows that the store has for a user: tracks never played
/// first, then those played longest ago, and among those that are level, the one
/// whose rank times a fresh random number is greatest. Nothing is picked only where
/// there are no rows. Whatever numbers are drawn, the pick is a row of the store, and
/// no row was played earlier, or never where the pick was played.
pub fn pick_candidate(rows: &Vec<Played>) -> (pick: Option<Id>)
    ensures
        pick is None <==> rows@.len() == 0,
        pick matches Some(track) ==> exists|i: int|
            0 <= i < rows@.len() && (#[trigger] rows@[i]).track == track && forall|j: int|
                0 <= j < rows@.len() ==> match ((#[trigger] rows@[j]).started_at, rows@[i].started_at) {
                    (None, Some(_)) => false,
                    (Some(theirs), Some(mine)) => mine <= theirs,
                    _ => true,
                },
{
    let mut candidates: Vec<Candidate> = Vec::new();
    let mut i: usize = 0;
    while i < rows.len()
        invariant
            i <= rows.len(),
            candidates@.len() == i,
            forall|k: int| 0 <= k < i ==> (#[trigger] candidates@[k]).played == rows@[k],
        decreases rows.len() - i,
    {
        candidates.push(Candidate { played: rows[i], draw: random_draw() });
        i = i + 1;
    }
    match best_candidate(&candidates) {
        None => None,
        Some(index) => {
            proof {
                assert forall|j: int| 0 <= j < rows@.len() implies match (
                    (#[trigger] rows@[j]).started_at,
                    rows@[index as int].started_at,
                ) {
                    (None, Some(_)) => false,
                    (Some(theirs), Some(mine)) => mine <= theirs,
                    _ => true,
                } by {
                    assert(!candidates@[j].before(candidates@[index as int]));
                }
            }
            Some(candidates[index].played.track)
        },
    }
}

} // verus!
