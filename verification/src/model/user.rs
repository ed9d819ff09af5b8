//! The repository of users: which statement each operation sends to the
//! store, what each answer means, and the operations as a whole on a table in
//! memory.

use crate::db::{Defaults, GetId, Query, QueryView, RecordView, Reply, ReplyView, RowView, TableView};
use crate::model::db::Db;
use crate::model::laws::{lemma_delete_in, lemma_insert_in};
use crate::model::{Error, Identifier};
use crate::user::{fits, Saved, User, UserView};
use vstd::prelude::*;

verus! {

/// A row of the store as the persisted user that it records.
pub open spec fn user_of(row: RowView) -> UserView {
    UserView {
        saved: Some(Saved { id: row.id as u32, pub_id: row.pub_id, registered: row.registered }),
        name: row.name,
        email: row.email,
    }
}

/// What an operation gave, with the user as a mathematical value.
pub open spec fn outcome(result: Result<User, Error>) -> Result<UserView, Error> {
    match result {
        Ok(user) => Ok(user@),
        Err(e) => Err(e),
    }
}

/// The statement that creates a record of `user`.
pub open spec fn insert_statement(user: UserView) -> QueryView {
    QueryView::Insert { name: user.name, email: user.email }
}

/// The statement that looks for the enabled record that `id` names.
pub open spec fn find_statement(id: Identifier) -> QueryView {
    QueryView::Select(id.selector())
}

/// The statement that writes the name and the address of the persisted
/// `user` to the enabled record of its key.
pub open spec fn update_statement(user: UserView) -> QueryView {
    QueryView::Update { id: user.saved->0.id, name: user.name, email: user.email }
}

/// The statement that deletes the record that `id` names: it removes the
/// record where `hard_delete`, and disables it otherwise.
pub open spec fn delete_statement(id: Identifier, hard_delete: bool) -> QueryView {
    if hard_delete {
        QueryView::Remove(id.selector())
    } else {
        QueryView::Disable(id.selector())
    }
}

/// What the answer `reply` to an insert of `user` means: the user with what
/// the store assigned, or that the store failed.
pub open spec fn inserted_as(user: UserView, reply: ReplyView) -> Result<UserView, Error> {
    match reply {
        ReplyView::Inserted { id, pub_id, registered } => Ok(
            UserView {
                saved: Some(Saved { id: id as u32, pub_id, registered }),
                name: user.name,
                email: user.email,
            },
        ),
        _ => Err(Error::Storage),
    }
}

/// What the answer `reply` to a select means: the user of the row, that there
/// is none, or that the store failed or handed out a row that breaks the
/// limits of a record.
pub open spec fn found_as(reply: ReplyView) -> Result<UserView, Error> {
    match reply {
        ReplyView::Selected(Some(row)) => if fits(row.name, row.email) {
            Ok(user_of(row))
        } else {
            Err(Error::Storage)
        },
        ReplyView::Selected(None) => Err(Error::NotFound),
        _ => Err(Error::Storage),
    }
}

/// What the answer `reply` to an update, a disable or a remove means: done
/// where a row was affected, not found where none was, or that the store
/// failed.
pub open spec fn changed_as(reply: ReplyView) -> Result<(), Error> {
    match reply {
        ReplyView::Affected(n) => if n == 0 {
            Err(Error::NotFound)
        } else {
            Ok(())
        },
        _ => Err(Error::Storage),
    }
}

/// An insert of `user` into `table`: the table afterwards, and the user as
/// persisted or the failure.
pub open spec fn insert_in(table: TableView, user: UserView, defaults: Defaults) -> (
    TableView,
    Result<UserView, Error>,
) {
    let (after, reply) = table.step(insert_statement(user), defaults);
    (after, inserted_as(user, reply))
}

/// A search of `table` for the record that `id` names.
pub open spec fn find_in(table: TableView, id: Identifier) -> Result<UserView, Error> {
    found_as(table.selected(id.selector()))
}

/// An update of `table` by the persisted `user`: the table afterwards, and
/// whether a record was reached.
pub open spec fn update_in(table: TableView, user: UserView) -> (TableView, Result<(), Error>) {
    let (after, reply) = table.updated(user.saved->0.id, user.name, user.email);
    (after, changed_as(reply))
}

/// A delete from `table` of the record that `id` names: the table
/// afterwards, and whether a record was reached.
pub open spec fn delete_in(table: TableView, id: Identifier, hard_delete: bool) -> (
    TableView,
    Result<(), Error>,
) {
    let (after, reply) = if hard_delete {
        table.removed(id.selector())
    } else {
        table.disabled(id.selector())
    };
    (after, changed_as(reply))
}

/// The repository of users over a table in memory.
#[derive(Debug)]
pub struct Model {
    db: Db,
}

impl View for Model {
    type V = TableView;

    closed spec fn view(&self) -> TableView {
        self.db@
    }
}

impl Model {
    /// The repository over `db`.
    pub fn new(db: Db) -> (model: Self)
        ensures
            model@ == db@,
            model@.wf(),
    {
        proof {
            use_type_invariant(&db);
        }
        Self { db }
    }

    /// The table of this repository.
    pub fn db(&self) -> (db: &Db)
        ensures
            db@ == self@,
            self@.wf(),
    {
        proof {
            use_type_invariant(&self.db);
        }
        &self.db
    }

    /// The table of this repository, given up.
    pub fn into_db(self) -> (db: Db)
        ensures
            db@ == self@,
            db@.wf(),
    {
        proof {
            use_type_invariant(&self.db);
        }
        self.db
    }

    /// The statement that creates a record of `user`.
    pub fn insert_query(user: &User) -> (query: Query)
        ensures
            query@ == insert_statement(user@),
            fits(user@.name, user@.email),
    {
        Query::Insert { name: user.name().to_owned(), email: user.email().to_owned() }
    }

    /// `user` as the store has created it, from the store's answer to the
    /// insert.
    pub fn inserted(user: User, reply: Reply) -> (result: Result<User, Error>)
        ensures
            outcome(result) == inserted_as(user@, reply@),
    {
        match reply {
            Reply::Inserted { id, pub_id, registered } => Ok(
                user.saved((#[verifier::truncate] (id as u32), pub_id), registered),
            ),
            _ => Err(Error::Storage),
        }
    }

    /// The statement that looks for the enabled record that `id` names: one
    /// by the key or one by the identifier.
    pub fn find_query(id: Identifier) -> (query: Query)
        ensures
            query@ == find_statement(id),
    {
        Query::Select(id.to_selector())
    }

    /// The user that was found, from the store's answer to the select.
    pub fn found(reply: Reply) -> (result: Result<User, Error>)
        ensures
            outcome(result) == found_as(reply@),
    {
        match reply {
            Reply::Selected(Some(row)) => match User::new(row.name, row.email) {
                Some(user) => Ok(
                    user.saved((#[verifier::truncate] (row.id as u32), row.pub_id), row.registered),
                ),
                None => Err(Error::Storage),
            },
            Reply::Selected(None) => Err(Error::NotFound),
            _ => Err(Error::Storage),
        }
    }

    /// The statement that writes the name and the address of `user` to the
    /// enabled record of its key.
    pub fn update_query(user: &User) -> (query: Query)
        requires
            user.is_saved(),
        ensures
            query@ == update_statement(user@),
            fits(user@.name, user@.email),
    {
        Query::Update { id: user.id(), name: user.name().to_owned(), email: user.email().to_owned() }
    }

    /// Whether the update reached a record, from the store's answer.
    pub fn updated(reply: Reply) -> (result: Result<(), Error>)
        ensures
            result == changed_as(reply@),
    {
        match reply {
            Reply::Affected(n) => if n == 0 {
                Err(Error::NotFound)
            } else {
                Ok(())
            },
            _ => Err(Error::Storage),
        }
    }

    /// The statement that deletes the record that `id` names: it removes the
    /// record where `hard_delete`, and disables it otherwise.
    pub fn delete_query(id: Identifier, hard_delete: bool) -> (query: Query)
        ensures
            query@ == delete_statement(id, hard_delete),
    {
        if hard_delete {
            Query::Remove(id.to_selector())
        } else {
            Query::Disable(id.to_selector())
        }
    }

    /// Whether the delete reached a record, from the store's answer.
    pub fn deleted(reply: Reply) -> (result: Result<(), Error>)
        ensures
            result == changed_as(reply@),
    {
        Self::updated(reply)
    }

    /// Creates a record of `user` in the table, with the next key of the
    /// sequence and what `defaults` gives, and returns the user as persisted.
    /// It fails, and leaves the table as it was, where the sequence is
    /// exhausted or the identifier of `defaults` is in use.
    pub fn insert(&mut self, user: User, defaults: Defaults) -> (result: Result<User, Error>)
        ensures
            (final(self)@, outcome(result)) == insert_in(old(self)@, user@, defaults),
            result is Ok <==> old(self)@.issued < i32::MAX && !old(self)@.holds(
                GetId::PubId(defaults.pub_id),
            ),
            result matches Ok(u) ==> {
                &&& u@.saved == Some(
                    Saved {
                        id: (old(self)@.issued + 1) as u32,
                        pub_id: defaults.pub_id,
                        registered: defaults.registered,
                    },
                )
                &&& u@.name == user@.name
                &&& u@.email == user@.email
                &&& final(self)@.rows.len() == old(self)@.rows.len() + 1
                &&& find_in(final(self)@, Identifier::PubId(defaults.pub_id)) == Ok::<
                    UserView,
                    Error,
                >(u@)
                &&& find_in(final(self)@, Identifier::Id(u@.saved->0.id)) == Ok::<UserView, Error>(
                    u@,
                )
            },
            result matches Err(e) ==> e == Error::Storage && final(self)@ == old(self)@,
            final(self)@.wf(),
    {
        let query = Self::insert_query(&user);
        let reply = self.db.execute(&query, defaults);
        proof {
            lemma_insert_in(old(self)@, user@, defaults);
        }
        Self::inserted(user, reply)
    }

    /// The enabled record that `id` names, as a persisted user; not found
    /// where the table holds no such record or holds it disabled.
    pub fn find(&self, id: Identifier) -> (result: Result<User, Error>)
        ensures
            outcome(result) == find_in(self@, id),
            result is Ok <==> self@.shows(id.selector()),
            result matches Ok(u) ==> u@ == user_of(self@.rows[self@.position(id.selector())].row()),
            result matches Err(e) ==> e == Error::NotFound,
            self@.wf(),
    {
        Self::found(self.db.select(id.to_selector()))
    }

    /// Writes the name and the address of `user` to the enabled record of its
    /// key, and nothing else. Not found, and nothing written, where the table
    /// holds no record of that key or holds it disabled.
    pub fn update(&mut self, user: &User) -> (result: Result<(), Error>)
        requires
            user.is_saved(),
        ensures
            (final(self)@, result) == update_in(old(self)@, user@),
            result is Ok <==> old(self)@.shows(GetId::Id(user@.saved->0.id)),
            result is Ok ==> final(self)@ == old(self)@.with_row(
                old(self)@.position(GetId::Id(user@.saved->0.id)),
                RecordView {
                    name: user@.name,
                    email: user@.email,
                    ..old(self)@.rows[old(self)@.position(GetId::Id(user@.saved->0.id))]
                },
            ),
            result matches Err(e) ==> e == Error::NotFound && final(self)@ == old(self)@,
            final(self)@.wf(),
    {
        let query = Self::update_query(user);
        let reply = self.db.execute(&query, Defaults::unread());
        Self::updated(reply)
    }

    /// Deletes the record that `id` names, enabled or not: removes it where
    /// `hard_delete`, and disables it otherwise. Not found, and nothing
    /// changed, where the table holds no such record. Afterwards the record is
    /// not found; after a soft delete it is still stored.
    pub fn delete(&mut self, id: Identifier, hard_delete: bool) -> (result: Result<(), Error>)
        ensures
            (final(self)@, result) == delete_in(old(self)@, id, hard_delete),
            result is Ok <==> old(self)@.holds(id.selector()),
            result matches Err(e) ==> e == Error::NotFound && final(self)@ == old(self)@,
            find_in(final(self)@, id) == Err::<UserView, Error>(Error::NotFound),
            final(self)@.holds(id.selector()) <==> old(self)@.holds(id.selector()) && !hard_delete,
            final(self)@.rows.len() == if result is Ok && hard_delete {
                old(self)@.rows.len() - 1
            } else {
                old(self)@.rows.len() as int
            },
            final(self)@.wf(),
    {
        let query = Self::delete_query(id, hard_delete);
        let reply = self.db.execute(&query, Defaults::unread());
        proof {
            lemma_delete_in(old(self)@, id, hard_delete);
        }
        Self::deleted(reply)
    }
}

} // verus!
