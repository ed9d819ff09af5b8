//! What holds of the repository on every table that the store keeps.

use crate::code::{decoded, token};
use crate::db::{lemma_position_unique, lemma_step_wf, Defaults, GetId, QueryView, ReplyView, TableView};
use crate::model::user::{
    delete_in, delete_statement, find_in, find_statement, insert_in, insert_statement, inserted_as,
    update_in, update_statement,
};
use crate::model::{Error, Identifier};
use crate::user::{fits, UserView};
use vstd::prelude::*;

verus! {

/// A key of the store's sequence is the same number as a key of a user.
pub proof fn lemma_key_of(id: i32)
    requires
        0 <= id,
    ensures
        id as u32 == id,
{
    assert(0 <= id ==> id as u32 == id) by (bit_vector);
}

/// An operation is what its statement does to the table and what the answer
/// means, whatever the column defaults are where no record is created.
pub proof fn law_operations_are_statements(
    table: TableView,
    id: Identifier,
    user: UserView,
    hard_delete: bool,
    defaults: Defaults,
)
    ensures
        find_in(table, id) == crate::model::user::found_as(
            table.step(find_statement(id), defaults).1,
        ),
        table.step(find_statement(id), defaults).0 == table,
        update_in(table, user) == (
            table.step(update_statement(user), defaults).0,
            crate::model::user::changed_as(table.step(update_statement(user), defaults).1),
        ),
        delete_in(table, id, hard_delete) == (
            table.step(delete_statement(id, hard_delete), defaults).0,
            crate::model::user::changed_as(table.step(delete_statement(id, hard_delete), defaults).1),
        ),
{
}

/// Every operation leaves the table as the store keeps it.
pub proof fn law_table_kept(
    table: TableView,
    id: Identifier,
    user: UserView,
    hard_delete: bool,
    defaults: Defaults,
)
    requires
        table.wf(),
    ensures
        insert_in(table, user, defaults).0.wf(),
        update_in(table, user).0.wf(),
        delete_in(table, id, hard_delete).0.wf(),
{
    lemma_step_wf(table, insert_statement(user), defaults);
    lemma_step_wf(table, update_statement(user), defaults);
    lemma_step_wf(table, delete_statement(id, hard_delete), defaults);
}

/// What an insert does: it succeeds unless the sequence is exhausted or the
/// identifier is in use, adds one record, and the user that it returns is
/// found by its identifier and by its key; where it fails it writes nothing.
pub proof fn lemma_insert_in(table: TableView, user: UserView, defaults: Defaults)
    requires
        table.wf(),
        fits(user.name, user.email),
    ensures
        ({
            let (after, result) = insert_in(table, user, defaults);
            &&& result is Ok <==> table.issued < i32::MAX && !table.holds(GetId::PubId(defaults.pub_id))
            &&& result matches Ok(u) ==> {
                &&& u.saved is Some
                &&& u.saved->0.id == table.issued + 1
                &&& u.saved->0.pub_id == defaults.pub_id
                &&& u.saved->0.registered == defaults.registered
                &&& u.name == user.name
                &&& u.email == user.email
                &&& after.rows.len() == table.rows.len() + 1
                &&& find_in(after, Identifier::PubId(u.saved->0.pub_id)) == Ok::<UserView, Error>(u)
                &&& find_in(after, Identifier::Id(u.saved->0.id)) == Ok::<UserView, Error>(u)
            }
            &&& result matches Err(e) ==> e == Error::Storage && after == table
        }),
{
    let (after, result) = insert_in(table, user, defaults);
    if result is Ok {
        let u = result->Ok_0;
        lemma_step_wf(table, insert_statement(user), defaults);
        let n = table.rows.len() as int;
        lemma_key_of(after.rows[n].id);
        lemma_position_unique(after, GetId::PubId(u.saved->0.pub_id), n);
        lemma_position_unique(after, GetId::Id(u.saved->0.id), n);
    }
}

/// What a delete does: it reaches the record that is named, enabled or not,
/// and afterwards the record is not found; a soft delete keeps every record
/// in the table, a hard delete that reached a record leaves one less.
pub proof fn lemma_delete_in(table: TableView, id: Identifier, hard_delete: bool)
    requires
        table.wf(),
    ensures
        ({
            let (after, result) = delete_in(table, id, hard_delete);
            &&& result is Ok <==> table.holds(id.selector())
            &&& result matches Err(e) ==> e == Error::NotFound && after == table
            &&& find_in(after, id) == Err::<UserView, Error>(Error::NotFound)
            &&& after.holds(id.selector()) <==> table.holds(id.selector()) && !hard_delete
            &&& after.rows.len() == if result is Ok && hard_delete {
                table.rows.len() - 1
            } else {
                table.rows.len() as int
            }
            &&& after.wf()
        }),
{
    let sel = id.selector();
    let (after, result) = delete_in(table, id, hard_delete);
    lemma_step_wf(table, delete_statement(id, hard_delete), arbitrary());
    if table.holds(sel) {
        let p = table.position(sel);
        if hard_delete {
            if after.holds(sel) {
                let q = after.position(sel);
                let k = if q < p {
                    q
                } else {
                    q + 1
                };
                assert(after.rows[q] == table.rows[k]);
                lemma_position_unique(table, sel, k);
            }
        } else {
            lemma_position_unique(after, sel, p);
        }
    }
}

/// The identifier of an inserted user is what its token decodes to, whatever
/// the store answered.
pub proof fn law_inserted_round_trip(user: UserView, reply: ReplyView)
    ensures
        inserted_as(user, reply) matches Ok(u) ==> {
            &&& u.saved is Some
            &&& u.name == user.name
            &&& u.email == user.email
            &&& decoded(token(u.saved->0.pub_id)) == Some(u.saved->0.pub_id)
        },
{
    if inserted_as(user, reply) is Ok {
        crate::code::law_decode_encode(inserted_as(user, reply)->Ok_0.saved->0.pub_id);
    }
}

/// After an insert that succeeded, the user is found by its identifier and by
/// its key, as it was inserted, and the table has one record more.
pub proof fn law_insert_then_find(table: TableView, user: UserView, defaults: Defaults)
    requires
        table.wf(),
        fits(user.name, user.email),
    ensures
        ({
            let (after, result) = insert_in(table, user, defaults);
            result matches Ok(u) ==> {
                &&& u.name == user.name
                &&& u.email == user.email
                &&& after.rows.len() == table.rows.len() + 1
                &&& find_in(after, Identifier::PubId(u.saved->0.pub_id)) == Ok::<UserView, Error>(u)
                &&& find_in(after, Identifier::Id(u.saved->0.id)) == Ok::<UserView, Error>(u)
            }
        }),
{
    lemma_insert_in(table, user, defaults);
}

/// The store writes nothing that its schema refuses: an insert of a name or
/// an address of more than a hundred characters fails and leaves the table as
/// it was.
pub proof fn law_insert_refused(table: TableView, name: Seq<char>, email: Seq<char>, defaults: Defaults)
    requires
        !fits(name, email),
    ensures
        table.step(QueryView::Insert { name, email }, defaults) == (table, ReplyView::Failed),
{
}

/// After a soft delete the record is not found, by whichever name it was
/// deleted, and it is still stored: the table has as many records as before.
pub proof fn law_soft_delete(table: TableView, id: Identifier)
    requires
        table.wf(),
    ensures
        ({
            let (after, result) = delete_in(table, id, false);
            &&& find_in(after, id) == Err::<UserView, Error>(Error::NotFound)
            &&& after.rows.len() == table.rows.len()
            &&& after.holds(id.selector()) == table.holds(id.selector())
            &&& result is Ok <==> table.holds(id.selector())
        }),
{
    lemma_delete_in(table, id, false);
}

/// A soft delete of a record reaches it again, and changes nothing then.
pub proof fn law_soft_delete_twice(table: TableView, id: Identifier)
    requires
        table.wf(),
    ensures
        ({
            let (after, result) = delete_in(table, id, false);
            delete_in(after, id, false) == (after, result)
        }),
{
    let sel = id.selector();
    let (after, result) = delete_in(table, id, false);
    lemma_delete_in(table, id, false);
    if table.holds(sel) {
        lemma_position_unique(after, sel, table.position(sel));
        assert(delete_in(after, id, false).0.rows =~= after.rows);
    }
}

/// After a hard delete the record is not found and is not stored: where the
/// table held it, enabled or not, the table has one record less, and where it
/// did not, the delete reports so and the table is as before.
pub proof fn law_hard_delete(table: TableView, id: Identifier)
    requires
        table.wf(),
    ensures
        ({
            let (after, result) = delete_in(table, id, true);
            &&& find_in(after, id) == Err::<UserView, Error>(Error::NotFound)
            &&& !after.holds(id.selector())
            &&& table.holds(id.selector()) ==> result is Ok && after.rows.len() == table.rows.len()
                - 1
            &&& !table.holds(id.selector()) ==> result == Err::<(), Error>(Error::NotFound) && after
                == table
        }),
{
    lemma_delete_in(table, id, true);
}

/// An update of a record that is stored but disabled is reported as not found
/// and writes nothing: the stored name and address stay as they were.
pub proof fn law_update_disabled(table: TableView, user: UserView)
    requires
        table.wf(),
        user.saved is Some,
        table.holds(GetId::Id(user.saved->0.id)),
        !table.rows[table.position(GetId::Id(user.saved->0.id))].enabled,
    ensures
        update_in(table, user) == (table, Err::<(), Error>(Error::NotFound)),
{
}

/// After a soft delete that reached a record, an update of that record is
/// reported as not found and leaves the table as the delete left it, with the
/// name and the address that the record had before the delete.
pub proof fn law_update_after_soft_delete(table: TableView, id: Identifier, user: UserView)
    requires
        table.wf(),
        table.holds(id.selector()),
        user.saved is Some,
        user.saved->0.id == table.rows[table.position(id.selector())].id,
    ensures
        ({
            let p = table.position(id.selector());
            let after = delete_in(table, id, false).0;
            &&& update_in(after, user) == (after, Err::<(), Error>(Error::NotFound))
            &&& after.rows[p].name == table.rows[p].name
            &&& after.rows[p].email == table.rows[p].email
        }),
{
    let p = table.position(id.selector());
    let after = delete_in(table, id, false).0;
    lemma_delete_in(table, id, false);
    lemma_position_unique(after, GetId::Id(user.saved->0.id), p);
}

/// A hard delete reaches a record that was deleted softly before: the record
/// is found after neither, and is stored after the first only.
pub proof fn law_soft_then_hard_delete(table: TableView, id: Identifier)
    requires
        table.wf(),
        table.holds(id.selector()),
    ensures
        ({
            let soft = delete_in(table, id, false).0;
            let (hard, result) = delete_in(soft, id, true);
            &&& find_in(soft, id) == Err::<UserView, Error>(Error::NotFound)
            &&& soft.holds(id.selector())
            &&& soft.rows.len() == table.rows.len()
            &&& result == Ok::<(), Error>(())
            &&& find_in(hard, id) == Err::<UserView, Error>(Error::NotFound)
            &&& !hard.holds(id.selector())
            &&& hard.rows.len() == table.rows.len() - 1
        }),
{
    lemma_delete_in(table, id, false);
    lemma_delete_in(delete_in(table, id, false).0, id, true);
}

} // verus!
