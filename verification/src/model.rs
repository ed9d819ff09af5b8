//! The repository: how records are created, found, changed and deleted.

use crate::db::GetId;
use vstd::prelude::*;

pub mod db;
pub mod laws;
pub mod user;

verus! {

/// Why an operation on a record did not succeed.
#[derive(Clone, Copy, Debug, PartialEq, Eq, Structural)]
pub enum Error {
    /// A name or an e-mail address is longer than a hundred characters.
    Validation,
    /// No enabled record is named, or a token is no token.
    NotFound,
    /// The store could not be reached, or it refused or garbled the statement.
    Storage,
}

/// Names exactly one record, by its key or by its identifier.
#[derive(Clone, Copy, Debug, PartialEq, Eq, Structural)]
pub enum Identifier {
    Id(u32),
    PubId(u128),
}

impl Identifier {
    /// This name as the store takes it.
    pub open spec fn selector(self) -> GetId {
        match self {
            Identifier::Id(id) => GetId::Id(id),
            Identifier::PubId(pub_id) => GetId::PubId(pub_id),
        }
    }

    /// This name as the store takes it.
    pub fn to_selector(self) -> (id: GetId)
        ensures
            id == self.selector(),
    {
        match self {
            Identifier::Id(id) => GetId::Id(id),
            Identifier::PubId(pub_id) => GetId::PubId(pub_id),
        }
    }

    /// The key and the identifier that this names: one of the two, never both.
    pub fn get(self) -> (pair: (Option<u32>, Option<u128>))
        ensures
            pair == self.selector().pair(),
            pair.0 is Some <==> pair.1 is None,
            self matches Identifier::Id(id) ==> pair.0 == Some(id),
            self matches Identifier::PubId(pub_id) ==> pair.1 == Some(pub_id),
    {
        self.to_selector().get()
    }
}

} // verus!
