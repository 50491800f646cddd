//! What the store's rows hold of the catalog's IDs, and the guard that tells whether
//! a transaction was ended.
use crate::deezer::{unsigned_bits, Id};
use vstd::prelude::*;

verus! {

impl From<i32> for Id {
    fn from(id: i32) -> (out: Self) {
        Id::from_stored(id)
    }
}

impl vstd::std_specs::convert::FromSpecImpl<i32> for Id {
    open spec fn obeys_from_spec() -> bool {
        true
    }

    open spec fn from_spec(id: i32) -> Self {
        Id(unsigned_bits(id))
    }
}

/// An optional catalog ID as a row of the store holds it.
#[derive(Debug, PartialEq, Eq, Clone, Copy, Structural)]
pub struct DeezerOptionId(pub Option<Id>);

impl DeezerOptionId {
    /// The ID, if there is one.
    pub fn get(&self) -> (id: Option<Id>)
        ensures
            id == self.0,
    {
        self.0
    }

    /// The optional ID that the store holds as `id`.
    pub fn from_stored(id: Option<i32>) -> (out: Self)
        ensures
            out.0 == match id {
                Some(id) => Some(Id(unsigned_bits(id))),
                None => None,
            },
    {
        match id {
            Some(id) => DeezerOptionId(Some(Id::from_stored(id))),
            None => DeezerOptionId(None),
        }
    }
}

/// Tells whether a transaction was committed or rolled back before it was let go.
pub struct TxEnded {
    ended: bool,
    context: String,
}

impl TxEnded {
    /// Whether the transaction was ended.
    pub closed spec fn is_ended(&self) -> bool {
        self.ended
    }

    /// What the transaction was for.
    pub closed spec fn context(&self) -> String {
        self.context
    }

    /// The guard of a transaction that was just begun for `ctx`.
    pub fn new(ctx: String) -> (guard: Self)
        ensures
            !guard.is_ended(),
            guard.context() == ctx,
    {
        Self { ended: false, context: ctx }
    }

    /// Note that the transaction was committed or rolled back.
    pub fn end(&mut self)
        ensures
            final(self).is_ended(),
            final(self).context() == old(self).context(),
    {
        self.ended = true;
    }

    /// What the transaction was for, if it is let go without having been ended: the
    /// case that deserves a warning.
    pub fn dropped_unended(&self) -> (context: Option<&String>)
        ensures
            context == if self.is_ended() {
                None::<&String>
            } else {
                Some(&self.context())
            },
    {
        if self.ended {
            None
        } else {
            Some(&self.context)
        }
    }
}

} // verus!
