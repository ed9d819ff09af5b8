//! The user record: a name and an e-mail address, and, once the store holds
//! the record, what the store assigned to it.

use vstd::prelude::*;
use vstd::string::StrSliceExecFns;

verus! {

/// The most characters that a name or an e-mail address may have.
pub const MAX_LEN: usize = 100;

/// A point in time, in seconds and nanoseconds since the Unix epoch (UTC).
#[derive(Clone, Copy, Debug, PartialEq, Eq, Structural)]
pub struct Timestamp {
    pub seconds: i64,
    pub nanos: u32,
}

/// What the store assigns to a record when it creates it. None of it ever
/// changes afterwards.
#[derive(Clone, Copy, Debug, PartialEq, Eq, Structural)]
pub struct Saved {
    /// The sequential key, used inside the store only.
    pub id: u32,
    /// The identifier by which the record is known outside.
    pub pub_id: u128,
    /// When the record was created.
    pub registered: Timestamp,
}

/// A user as a mathematical value.
pub struct UserView {
    /// `None` while the record is transient, `Some` once it is persisted.
    pub saved: Option<Saved>,
    pub name: Seq<char>,
    pub email: Seq<char>,
}

/// Whether a name and an e-mail address are short enough for a record.
pub open spec fn fits(name: Seq<char>, email: Seq<char>) -> bool {
    name.len() <= MAX_LEN && email.len() <= MAX_LEN
}

/// One user record. It is transient until the store has assigned its key,
/// its identifier and its time of registration, and persisted from then on.
#[derive(Debug)]
pub struct User {
    saved: Option<Saved>,
    name: String,
    email: String,
}

impl View for User {
    type V = UserView;

    closed spec fn view(&self) -> UserView {
        UserView { saved: self.saved, name: self.name@, email: self.email@ }
    }
}

impl Clone for User {
    fn clone(&self) -> (user: Self)
        ensures
            user@ == self@,
    {
        proof {
            use_type_invariant(self);
        }
        Self { saved: self.saved, name: self.name.clone(), email: self.email.clone() }
    }
}

impl User {
    #[verifier::type_invariant]
    spec fn within_limits(self) -> bool {
        fits(self.name@, self.email@)
    }

    /// Whether the store holds this record.
    pub open spec fn spec_is_saved(&self) -> bool {
        self@.saved is Some
    }

    /// A transient record of `name` and `email`, or `None` where one of them
    /// is longer than a hundred characters.
    pub fn new(name: String, email: String) -> (user: Option<Self>)
        ensures
            user is Some <==> fits(name@, email@),
            user matches Some(u) ==> u@ == (UserView { saved: None, name: name@, email: email@ }),
    {
        if name.as_str().unicode_len() <= MAX_LEN && email.as_str().unicode_len() <= MAX_LEN {
            Some(Self { saved: None, name, email })
        } else {
            None
        }
    }

    /// This record as the store holds it: with the key and identifier `id` and
    /// the time `registered`, and the name and address that it had.
    pub fn saved(self, id: (u32, u128), registered: Timestamp) -> (user: Self)
        ensures
            user@ == (UserView {
                saved: Some(Saved { id: id.0, pub_id: id.1, registered }),
                name: self@.name,
                email: self@.email,
            }),
            fits(user@.name, user@.email),
    {
        proof {
            use_type_invariant(&self);
        }
        Self { saved: Some(Saved { id: id.0, pub_id: id.1, registered }), name: self.name, email: self.email }
    }

    /// Whether the store holds this record.
    #[verifier::when_used_as_spec(spec_is_saved)]
    pub fn is_saved(&self) -> (yes: bool)
        ensures
            yes == self.spec_is_saved(),
    {
        self.saved.is_some()
    }

    /// What the store assigned to this record, or `None` while it is
    /// transient.
    pub fn assigned(&self) -> (saved: Option<Saved>)
        ensures
            saved == self@.saved,
    {
        self.saved
    }

    /// The sequential key of a persisted record.
    pub fn id(&self) -> (id: u32)
        requires
            self.is_saved(),
        ensures
            id == self@.saved->0.id,
    {
        self.saved.unwrap().id
    }

    /// The outside identifier of a persisted record.
    pub fn pub_id(&self) -> (pub_id: u128)
        requires
            self.is_saved(),
        ensures
            pub_id == self@.saved->0.pub_id,
    {
        self.saved.unwrap().pub_id
    }

    /// When a persisted record was created.
    pub fn registered(&self) -> (registered: Timestamp)
        requires
            self.is_saved(),
        ensures
            registered == self@.saved->0.registered,
    {
        self.saved.unwrap().registered
    }

    /// The name, never longer than a hundred characters.
    pub fn name(&self) -> (name: &str)
        ensures
            name@ == self@.name,
            name@.len() <= MAX_LEN,
    {
        proof {
            use_type_invariant(self);
        }
        self.name.as_str()
    }

    /// The e-mail address, never longer than a hundred characters.
    pub fn email(&self) -> (email: &str)
        ensures
            email@ == self@.email,
            email@.len() <= MAX_LEN,
    {
        proof {
            use_type_invariant(self);
        }
        self.email.as_str()
    }
}

} // verus!
