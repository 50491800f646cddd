//! The parts of the catalog service's data model that the game uses, and the rules
//! for talking to it: which responses are retried, and which genres are shown.
use crate::ratelimit::Backoff;
use vstd::prelude::*;

verus! {

/// A catalog ID.
#[derive(Debug, Hash, PartialEq, Eq, Clone, Copy, Structural)]
pub struct Id(pub u32);

/// A catalog ID that may be absent, as the store holds it.
#[derive(Debug, PartialEq, Eq, Clone, Copy, Structural)]
pub struct OptionId(pub Option<Id>);

/// The unsigned number with the same 32 bits as `id`.
pub open spec fn unsigned_bits(id: i32) -> u32 {
    if id >= 0 {
        id as u32
    } else {
        (id + 0x1_0000_0000) as u32
    }
}

/// The signed number with the same 32 bits as `id`.
pub open spec fn signed_bits(id: u32) -> i32 {
    if id <= 0x7fff_ffff {
        id as i32
    } else {
        (id - 0x1_0000_0000) as i32
    }
}

impl Id {
    /// The number behind the ID.
    pub fn get(&self) -> (id: u32)
        ensures
            id == self.0,
    {
        self.0
    }

    /// The ID that the store holds as `id`. The store has signed numbers only, so an ID
    /// is kept there as the signed number with the same bits.
    pub fn from_stored(id: i32) -> (out: Self)
        ensures
            out == Id(unsigned_bits(id)),
    {
        if id >= 0 {
            Id(id as u32)
        } else {
            Id((id as i64 + 0x1_0000_0000) as u32)
        }
    }

    /// The number that the store holds for this ID.
    pub fn to_stored(self) -> (id: i32)
        ensures
            id == signed_bits(self.0),
    {
        if self.0 <= 0x7fff_ffff {
            self.0 as i32
        } else {
            (self.0 as i64 - 0x1_0000_0000) as i32
        }
    }
}

impl OptionId {
    /// The ID, if there is one.
    pub fn get(&self) -> (id: Option<Id>)
        ensures
            id == self.0,
    {
        self.0
    }

    /// The optional ID that the store holds as `id`.
    pub fn from_stored(id: Option<i32>) -> (out: Self)
        ensures
            out.0 == match id {
                Some(id) => Some(Id(unsigned_bits(id))),
                None => None,
            },
    {
        match id {
            Some(id) => OptionId(Some(Id::from_stored(id))),
            None => OptionId(None),
        }
    }
}

/// An error code of the catalog service.
#[derive(Debug, PartialEq, Eq, Clone, Copy, Structural)]
pub enum ErrorCode {
    /// We have exceeded the request quota.
    Ratelimited,
    /// The service is busy and we should try again later.
    ServiceBusy,
    /// The requested resource was not found.
    NotFound,
    /// Other error codes exist, but we treat them all as unresolvable issues.
    Unknown(u32),
}

/// The error code that the service's number `code` stands for.
pub open spec fn error_code_of(code: u32) -> ErrorCode {
    if code == 4 {
        ErrorCode::Ratelimited
    } else if code == 700 {
        ErrorCode::ServiceBusy
    } else if code == 800 {
        ErrorCode::NotFound
    } else {
        ErrorCode::Unknown(code)
    }
}

impl From<u32> for ErrorCode {
    fn from(code: u32) -> (out: Self) {
        match code {
            4 => Self::Ratelimited,
            700 => Self::ServiceBusy,
            800 => Self::NotFound,
            code => Self::Unknown(code),
        }
    }
}

impl vstd::std_specs::convert::FromSpecImpl<u32> for ErrorCode {
    open spec fn obeys_from_spec() -> bool {
        true
    }

    open spec fn from_spec(code: u32) -> Self {
        error_code_of(code)
    }
}

impl ErrorCode {
    /// Whether a request that met this error is worth sending again.
    pub open spec fn transient(self) -> bool {
        self is Ratelimited || self is ServiceBusy
    }
}

/// An error returned by the catalog service.
#[derive(Debug)]
pub struct Error {
    /// The error "type".
    pub kind: String,
    /// The error message.
    pub message: String,
    /// The error code.
    pub code: ErrorCode,
}

/// An artist object returned by the catalog service.
#[derive(Debug)]
pub struct Artist {
    /// Catalog ID
    pub id: Id,
    /// Artist name
    pub name: String,
    /// Link to the artist page
    pub link: String,
    /// URL of an image of the artist
    pub picture: String,
}

/// A genre object returned by the catalog service.
#[derive(Debug)]
pub struct Genre {
    /// Catalog ID
    pub id: Id,
    /// Genre name
    pub name: String,
    /// URL of an image representing the genre
    pub picture: String,
}

/// A partial album object returned as part of a track object.
#[derive(Debug)]
pub struct PartialAlbum {
    /// Catalog ID
    pub id: Id,
    /// Album title
    pub title: String,
    /// URL of a cover art image for the album
    pub cover: String,
}

/// A track object returned by the catalog service.
#[derive(Debug)]
pub struct Track {
    /// Catalog ID
    pub id: Id,
    /// Track title
    pub title: String,
    /// A track ranking (seems to be in the range 10,000 to 100,000)
    pub rank: i32,
    /// Link to the track
    pub link: String,
    /// URL of a 30 second preview
    pub preview: String,
    /// Artist object
    pub artist: Artist,
    /// Album object (missing some fields)
    pub album: PartialAlbum,
}

/// A helper for responses which are wrapped in an object with a single `data` field.
#[derive(Debug)]
pub struct DataWrap<T> {
    /// The actual data.
    pub data: T,
}

impl<T> DataWrap<T> {
    /// The data inside.
    pub fn get(&self) -> (data: &T)
        ensures
            *data == self.data,
    {
        &self.data
    }

    /// Take the data out.
    pub fn into_inner(self) -> (data: T)
        ensures
            data == self.data,
    {
        self.data
    }
}

/// A full album object returned by the catalog service.
#[derive(Debug)]
pub struct Album {
    /// Catalog ID
    pub id: Id,
    /// Album title
    pub title: String,
    /// URL of a cover art image for the album
    pub cover: String,
    /// Link to the album
    pub link: String,
    /// A list of genres associated with the album
    pub genres: DataWrap<Vec<Genre>>,
}

/// A response from the catalog service which may be an error.
#[derive(Debug)]
pub enum Response<T> {
    /// A successful response.
    Data(T),
    /// An error response.
    Error {
        /// The error object.
        error: Error,
    },
}

/// What to do with a response of the catalog service.
pub enum Outcome<T> {
    /// The request is answered: with the data, or with `None` where the service does not
    /// have what was asked for.
    Done(Option<T>),
    /// The request met a passing error: wait this many milliseconds and send it again.
    Retry(u64),
    /// The request failed for good, with this error.
    Failed(Error),
}

/// The first delay between two attempts, in milliseconds.
pub const INITIAL_RETRY_DELAY: u64 = 1_000;

/// The longest delay between two attempts, in milliseconds.
pub const MAX_RETRY_DELAY: u64 = 300_000;

/// The factor by which the delay grows from one attempt to the next.
pub const RETRY_FACTOR: u32 = 2;

/// How many requests may be under way at once.
pub const MAX_REQUESTS: usize = 50;

/// After how many milliseconds one more request is allowed.
pub const REQUEST_INTERVAL: u64 = 100;

/// The backoff schedule of one request: one second at first, doubled after each
/// attempt, five minutes at most.
pub fn request_backoff() -> (backoff: Backoff)
    ensures
        backoff.delay == INITIAL_RETRY_DELAY,
        backoff.max_delay == MAX_RETRY_DELAY,
        backoff.factor == RETRY_FACTOR,
{
    Backoff::new(INITIAL_RETRY_DELAY, MAX_RETRY_DELAY, RETRY_FACTOR)
}

/// Decide what to do with the response to an attempt that drew `delay` from the
/// backoff schedule. Data is delivered. A rate-limit or service-busy error is retried
/// after `delay`. Not-found ends the request with nothing, and any other error ends it
/// with that error; neither is retried.
pub fn on_response<T>(response: Response<T>, delay: u64) -> (outcome: Outcome<T>)
    ensures
        outcome == match response {
            Response::Data(data) => Outcome::Done(Some(data)),
            Response::Error { error } => match error.code {
                ErrorCode::Ratelimited | ErrorCode::ServiceBusy => Outcome::Retry(delay),
                ErrorCode::NotFound => Outcome::Done(None),
                ErrorCode::Unknown(_) => Outcome::Failed(error),
            },
        },
        outcome is Retry <==> response is Error && response->error.code.transient(),
{
    match response {
        Response::Data(data) => Outcome::Done(Some(data)),
        Response::Error { error } => match error.code {
            ErrorCode::Ratelimited | ErrorCode::ServiceBusy => Outcome::Retry(delay),
            ErrorCode::NotFound => Outcome::Done(None),
            ErrorCode::Unknown(_) => Outcome::Failed(error),
        },
    }
}

/// The ID of the genre that stands for all genres.
pub const GENRE_ALL: u32 = 0;

/// The ID of the audiobooks genre.
pub const GENRE_AUDIOBOOKS: u32 = 457;

/// Whether a genre is one we don't want to show.
pub open spec fn hidden_genre(id: Id) -> bool {
    id.0 == GENRE_ALL || id.0 == GENRE_AUDIOBOOKS
}

/// Whether a genre is one we don't want to show.
pub fn is_hidden_genre(id: Id) -> (hidden: bool)
    ensures
        hidden == hidden_genre(id),
{
    id.0 == GENRE_ALL || id.0 == GENRE_AUDIOBOOKS
}

/// The genres of a list that are shown, in the order of the list.
pub fn visible_genres(genres: Vec<Genre>) -> (shown: Vec<Genre>)
    ensures
        shown@ == genres@.filter(|genre: Genre| !hidden_genre(genre.id)),
{
    let ghost keep = |genre: Genre| !hidden_genre(genre.id);
    let ghost all = genres@;
    let mut shown: Vec<Genre> = Vec::new();
    proof {
        reveal(Seq::filter);
        assert(all.subrange(0, 0) =~= Seq::<Genre>::empty());
    }
    for genre in it: genres
        invariant
            it.seq() == all,
            keep == |genre: Genre| !hidden_genre(genre.id),
            shown@ == all.subrange(0, it.index() as int).filter(keep),
    {
        proof {
            reveal(Seq::filter);
            assert(all.subrange(0, it.index() + 1).drop_last() =~= all.subrange(
                0,
                it.index() as int,
            ));
        }
        if !is_hidden_genre(genre.id) {
            shown.push(genre);
        }
    }
    assert(all.subrange(0, all.len() as int) =~= all);
    shown
}

} // verus!
