//! What is asked of the store and what it answers: the statements, the rows
//! that come back, and what each statement means on a table of records.

use crate::user::{fits, Timestamp};
use vstd::prelude::*;

verus! {

/// The schema of the one table: the store gives each record its key, its
/// identifier and its time, enables it, and refuses a name or an address of
/// more than a hundred characters.
pub const CREATE_TABLE: &'static str =
    "CREATE TABLE IF NOT EXISTS users (id SERIAL PRIMARY KEY, pub_id UUID NOT NULL DEFAULT uuid_generate_v4(), registered TIMESTAMP NOT NULL DEFAULT now(), enabled BOOLEAN NOT NULL DEFAULT TRUE, name TEXT NOT NULL CHECK(LENGTH(name) <= 100), email TEXT NOT NULL CHECK(LENGTH(email) <= 100))";

/// What the column default of `pub_id` needs.
pub const CREATE_EXTENSION: &'static str = "CREATE EXTENSION IF NOT EXISTS \"uuid-ossp\"";

/// Creates a record and hands back what the store assigned to it.
pub const INSERT: &'static str =
    "INSERT INTO users (name, email) VALUES ($1, $2) RETURNING id, pub_id, registered";

/// Selects the enabled record of a key.
pub const SELECT_BY_ID: &'static str =
    "SELECT id, pub_id, registered, name, email FROM users WHERE enabled AND id = $1";

/// Selects the enabled record of an identifier.
pub const SELECT_BY_PUB_ID: &'static str =
    "SELECT id, pub_id, registered, name, email FROM users WHERE enabled AND pub_id = $1";

/// Writes name and address to the enabled record of a key.
pub const UPDATE: &'static str = "UPDATE users SET name = $1, email = $2 WHERE enabled AND id = $3";

/// Disables the record of a key.
pub const DISABLE_BY_ID: &'static str = "UPDATE users SET enabled = FALSE WHERE id = $1";

/// Disables the record of an identifier.
pub const DISABLE_BY_PUB_ID: &'static str = "UPDATE users SET enabled = FALSE WHERE pub_id = $1";

/// Removes the record of a key.
pub const REMOVE_BY_ID: &'static str = "DELETE FROM users WHERE id = $1";

/// Removes the record of an identifier.
pub const REMOVE_BY_PUB_ID: &'static str = "DELETE FROM users WHERE pub_id = $1";

/// Names one record to the store, by its key or by its identifier.
#[derive(Clone, Copy, Debug, PartialEq, Eq, Structural)]
pub enum GetId {
    Id(u32),
    PubId(u128),
}

impl GetId {
    /// The key and the identifier that this names: one of the two, never both.
    pub open spec fn pair(self) -> (Option<u32>, Option<u128>) {
        match self {
            GetId::Id(id) => (Some(id), None),
            GetId::PubId(pub_id) => (None, Some(pub_id)),
        }
    }

    /// The key and the identifier that this names: one of the two, never both.
    pub fn get(self) -> (pair: (Option<u32>, Option<u128>))
        ensures
            pair == self.pair(),
            pair.0 is Some <==> pair.1 is None,
            self matches GetId::Id(id) ==> pair.0 == Some(id),
            self matches GetId::PubId(pub_id) ==> pair.1 == Some(pub_id),
    {
        match self {
            GetId::Id(id) => (Some(id), None),
            GetId::PubId(pub_id) => (None, Some(pub_id)),
        }
    }
}

/// What the store's column defaults give to the next record: an identifier
/// and the time.
#[derive(Clone, Copy, Debug, PartialEq, Eq, Structural)]
pub struct Defaults {
    pub pub_id: u128,
    pub registered: Timestamp,
}

impl Defaults {
    /// Defaults for a statement that creates no record, and so reads none.
    pub fn unread() -> (defaults: Self)
        ensures
            defaults == (Defaults { pub_id: 0, registered: Timestamp { seconds: 0, nanos: 0 } }),
    {
        Defaults { pub_id: 0, registered: Timestamp { seconds: 0, nanos: 0 } }
    }
}

/// A row as a select hands it out.
#[derive(Debug, PartialEq, Eq)]
pub struct Row {
    pub id: i32,
    pub pub_id: u128,
    pub registered: Timestamp,
    pub name: String,
    pub email: String,
}

/// A row as a mathematical value.
pub struct RowView {
    pub id: i32,
    pub pub_id: u128,
    pub registered: Timestamp,
    pub name: Seq<char>,
    pub email: Seq<char>,
}

impl View for Row {
    type V = RowView;

    open spec fn view(&self) -> RowView {
        RowView {
            id: self.id,
            pub_id: self.pub_id,
            registered: self.registered,
            name: self.name@,
            email: self.email@,
        }
    }
}

/// One statement for the store.
#[derive(Debug, PartialEq, Eq)]
pub enum Query {
    /// Create a record of this name and address.
    Insert { name: String, email: String },
    /// Hand out the enabled record that is named.
    Select(GetId),
    /// Give the enabled record of this key this name and address.
    Update { id: u32, name: String, email: String },
    /// Disable the record that is named, enabled or not.
    Disable(GetId),
    /// Remove the record that is named, enabled or not.
    Remove(GetId),
}

/// A statement as a mathematical value.
pub enum QueryView {
    Insert { name: Seq<char>, email: Seq<char> },
    Select(GetId),
    Update { id: u32, name: Seq<char>, email: Seq<char> },
    Disable(GetId),
    Remove(GetId),
}

impl View for Query {
    type V = QueryView;

    open spec fn view(&self) -> QueryView {
        match self {
            Query::Insert { name, email } => QueryView::Insert { name: name@, email: email@ },
            Query::Select(id) => QueryView::Select(*id),
            Query::Update { id, name, email } => QueryView::Update {
                id: *id,
                name: name@,
                email: email@,
            },
            Query::Disable(id) => QueryView::Disable(*id),
            Query::Remove(id) => QueryView::Remove(*id),
        }
    }
}

/// The text of a statement; its parameters are the statement's fields in the
/// order in which they are declared.
pub open spec fn sql_of(query: QueryView) -> Seq<char> {
    match query {
        QueryView::Insert { .. } => INSERT@,
        QueryView::Select(GetId::Id(_)) => SELECT_BY_ID@,
        QueryView::Select(GetId::PubId(_)) => SELECT_BY_PUB_ID@,
        QueryView::Update { .. } => UPDATE@,
        QueryView::Disable(GetId::Id(_)) => DISABLE_BY_ID@,
        QueryView::Disable(GetId::PubId(_)) => DISABLE_BY_PUB_ID@,
        QueryView::Remove(GetId::Id(_)) => REMOVE_BY_ID@,
        QueryView::Remove(GetId::PubId(_)) => REMOVE_BY_PUB_ID@,
    }
}

impl Query {
    /// The text of this statement: one text for each kind of statement and
    /// each way of naming a record.
    pub fn sql(&self) -> (text: &'static str)
        ensures
            text@ == sql_of(self@),
    {
        match self {
            Query::Insert { .. } => INSERT,
            Query::Select(GetId::Id(_)) => SELECT_BY_ID,
            Query::Select(GetId::PubId(_)) => SELECT_BY_PUB_ID,
            Query::Update { .. } => UPDATE,
            Query::Disable(GetId::Id(_)) => DISABLE_BY_ID,
            Query::Disable(GetId::PubId(_)) => DISABLE_BY_PUB_ID,
            Query::Remove(GetId::Id(_)) => REMOVE_BY_ID,
            Query::Remove(GetId::PubId(_)) => REMOVE_BY_PUB_ID,
        }
    }
}

/// What the store answers to one statement.
#[derive(Debug, PartialEq, Eq)]
pub enum Reply {
    /// What the store assigned to the record that it created.
    Inserted { id: i32, pub_id: u128, registered: Timestamp },
    /// The row that was selected, if there was one.
    Selected(Option<Row>),
    /// How many rows a statement changed or removed.
    Affected(u64),
    /// The store could not be reached, or it refused the statement.
    Failed,
}

/// An answer as a mathematical value.
pub enum ReplyView {
    Inserted { id: i32, pub_id: u128, registered: Timestamp },
    Selected(Option<RowView>),
    Affected(u64),
    Failed,
}

impl View for Reply {
    type V = ReplyView;

    open spec fn view(&self) -> ReplyView {
        match self {
            Reply::Inserted { id, pub_id, registered } => ReplyView::Inserted {
                id: *id,
                pub_id: *pub_id,
                registered: *registered,
            },
            Reply::Selected(Some(row)) => ReplyView::Selected(Some(row@)),
            Reply::Selected(None) => ReplyView::Selected(None),
            Reply::Affected(n) => ReplyView::Affected(*n),
            Reply::Failed => ReplyView::Failed,
        }
    }
}

/// A record as the table holds it, as a mathematical value.
pub struct RecordView {
    pub id: i32,
    pub pub_id: u128,
    pub registered: Timestamp,
    pub enabled: bool,
    pub name: Seq<char>,
    pub email: Seq<char>,
}

impl RecordView {
    /// This record as a select hands it out.
    pub open spec fn row(self) -> RowView {
        RowView {
            id: self.id,
            pub_id: self.pub_id,
            registered: self.registered,
            name: self.name,
            email: self.email,
        }
    }
}

/// Whether `id` names `record`.
pub open spec fn selects(id: GetId, record: RecordView) -> bool {
    match id {
        GetId::Id(key) => record.id == key,
        GetId::PubId(pub_id) => record.pub_id == pub_id,
    }
}

/// The table as a mathematical value: its records in the order in which they
/// were created, and the last key that the sequence gave out.
pub struct TableView {
    pub rows: Seq<RecordView>,
    pub issued: int,
}

impl TableView {
    /// What the store guarantees of its table: keys come from the sequence and
    /// none is used twice, no identifier is used twice, and no name or address
    /// is longer than the schema allows.
    pub open spec fn wf(self) -> bool {
        &&& 0 <= self.issued <= i32::MAX
        &&& forall|i: int|
            0 <= i < self.rows.len() ==> {
                &&& 1 <= (#[trigger] self.rows[i]).id <= self.issued
                &&& fits(self.rows[i].name, self.rows[i].email)
            }
        &&& forall|i: int, j: int|
            0 <= i < j < self.rows.len() ==> {
                &&& (#[trigger] self.rows[i]).id != (#[trigger] self.rows[j]).id
                &&& self.rows[i].pub_id != self.rows[j].pub_id
            }
    }

    /// Whether the table holds a record that `id` names, enabled or not.
    pub open spec fn holds(self, id: GetId) -> bool {
        exists|i: int| 0 <= i < self.rows.len() && selects(id, #[trigger] self.rows[i])
    }

    /// Where the record that `id` names stands; meaningful where `holds(id)`.
    pub open spec fn position(self, id: GetId) -> int {
        choose|i: int| 0 <= i < self.rows.len() && selects(id, #[trigger] self.rows[i])
    }

    /// Whether the table holds an enabled record that `id` names.
    pub open spec fn shows(self, id: GetId) -> bool {
        self.holds(id) && self.rows[self.position(id)].enabled
    }

    /// The table with the record at `i` replaced by `record`.
    pub open spec fn with_row(self, i: int, record: RecordView) -> TableView {
        TableView { rows: self.rows.update(i, record), issued: self.issued }
    }

    /// An insert of a record of `name` and `email`: the record gets the next
    /// key of the sequence and what `defaults` gives, and is enabled. The
    /// store refuses it where the name or the address is longer than the
    /// schema allows, where the sequence is exhausted, and where the
    /// identifier is in use.
    pub open spec fn inserted(self, name: Seq<char>, email: Seq<char>, defaults: Defaults) -> (
        TableView,
        ReplyView,
    ) {
        if fits(name, email) && self.issued < i32::MAX && !self.holds(GetId::PubId(defaults.pub_id)) {
            let record = RecordView {
                id: (self.issued + 1) as i32,
                pub_id: defaults.pub_id,
                registered: defaults.registered,
                enabled: true,
                name,
                email,
            };
            (
                TableView { rows: self.rows.push(record), issued: self.issued + 1 },
                ReplyView::Inserted {
                    id: record.id,
                    pub_id: record.pub_id,
                    registered: record.registered,
                },
            )
        } else {
            (self, ReplyView::Failed)
        }
    }

    /// A select of the record that `id` names: the row, where the record is
    /// there and enabled.
    pub open spec fn selected(self, id: GetId) -> ReplyView {
        if self.shows(id) {
            ReplyView::Selected(Some(self.rows[self.position(id)].row()))
        } else {
            ReplyView::Selected(None)
        }
    }

    /// An update of the record of the key `id`: where the record is there and
    /// enabled it gets `name` and `email` and keeps the rest, unless the schema
    /// refuses them.
    pub open spec fn updated(self, id: u32, name: Seq<char>, email: Seq<char>) -> (
        TableView,
        ReplyView,
    ) {
        if !self.shows(GetId::Id(id)) {
            (self, ReplyView::Affected(0))
        } else if fits(name, email) {
            let i = self.position(GetId::Id(id));
            (self.with_row(i, RecordView { name, email, ..self.rows[i] }), ReplyView::Affected(1))
        } else {
            (self, ReplyView::Failed)
        }
    }

    /// A disable of the record that `id` names: where the record is there,
    /// enabled or not, it is disabled and keeps the rest.
    pub open spec fn disabled(self, id: GetId) -> (TableView, ReplyView) {
        if self.holds(id) {
            let i = self.position(id);
            (
                self.with_row(i, RecordView { enabled: false, ..self.rows[i] }),
                ReplyView::Affected(1),
            )
        } else {
            (self, ReplyView::Affected(0))
        }
    }

    /// A remove of the record that `id` names: where the record is there,
    /// enabled or not, it is taken out of the table.
    pub open spec fn removed(self, id: GetId) -> (TableView, ReplyView) {
        if self.holds(id) {
            (
                TableView { rows: self.rows.remove(self.position(id)), issued: self.issued },
                ReplyView::Affected(1),
            )
        } else {
            (self, ReplyView::Affected(0))
        }
    }

    /// The table after `query` and the answer to it, where `defaults` is what
    /// the column defaults would give to a new record.
    pub open spec fn step(self, query: QueryView, defaults: Defaults) -> (TableView, ReplyView) {
        match query {
            QueryView::Insert { name, email } => self.inserted(name, email, defaults),
            QueryView::Select(id) => (self, self.selected(id)),
            QueryView::Update { id, name, email } => self.updated(id, name, email),
            QueryView::Disable(id) => self.disabled(id),
            QueryView::Remove(id) => self.removed(id),
        }
    }
}

/// In a table as the store keeps it, a record is named by one place only.
pub proof fn lemma_position_unique(table: TableView, id: GetId, i: int)
    requires
        table.wf(),
        0 <= i < table.rows.len(),
        selects(id, table.rows[i]),
    ensures
        table.holds(id),
        table.position(id) == i,
{
    let j = table.position(id);
    if i < j {
        assert(table.rows[i].id != table.rows[j].id);
    } else if j < i {
        assert(table.rows[j].id != table.rows[i].id);
    }
}

/// Every statement leaves the table as the store keeps it.
pub proof fn lemma_step_wf(table: TableView, query: QueryView, defaults: Defaults)
    requires
        table.wf(),
    ensures
        table.step(query, defaults).0.wf(),
{
    let after = table.step(query, defaults).0;
    match query {
        QueryView::Insert { name, email } => {
            if after != table {
                let n = table.rows.len() as int;
                assert forall|i: int, j: int| 0 <= i < j < after.rows.len() implies {
                    &&& (#[trigger] after.rows[i]).id != (#[trigger] after.rows[j]).id
                    &&& after.rows[i].pub_id != after.rows[j].pub_id
                } by {
                    if j == n {
                        assert(after.rows[i] == table.rows[i]);
                        assert(selects(GetId::PubId(after.rows[i].pub_id), table.rows[i]));
                    } else {
                        assert(after.rows[i] == table.rows[i]);
                        assert(after.rows[j] == table.rows[j]);
                    }
                }
                assert forall|i: int| 0 <= i < after.rows.len() implies {
                    &&& 1 <= (#[trigger] after.rows[i]).id <= after.issued
                    &&& fits(after.rows[i].name, after.rows[i].email)
                } by {
                    if i < n {
                        assert(after.rows[i] == table.rows[i]);
                    }
                }
            }
        },
        QueryView::Select(_) => {},
        QueryView::Update { id, .. } => {
            lemma_with_row_wf(table, after, table.position(GetId::Id(id)));
        },
        QueryView::Disable(id) => {
            lemma_with_row_wf(table, after, table.position(id));
        },
        QueryView::Remove(id) => {
            if table.holds(id) {
                let p = table.position(id);
                assert forall|i: int| 0 <= i < after.rows.len() implies {
                    &&& 1 <= (#[trigger] after.rows[i]).id <= after.issued
                    &&& fits(after.rows[i].name, after.rows[i].email)
                } by {
                    let k = if i < p { i } else { i + 1 };
                    assert(after.rows[i] == table.rows[k]);
                }
                assert forall|i: int, j: int| 0 <= i < j < after.rows.len() implies {
                    &&& (#[trigger] after.rows[i]).id != (#[trigger] after.rows[j]).id
                    &&& after.rows[i].pub_id != after.rows[j].pub_id
                } by {
                    let k = if i < p { i } else { i + 1 };
                    let l = if j < p { j } else { j + 1 };
                    assert(after.rows[i] == table.rows[k]);
                    assert(after.rows[j] == table.rows[l]);
                }
            }
        },
    }
}

/// A table stays as the store keeps it where one record changes but in its
/// key and identifier, and stays within the schema's limits.
proof fn lemma_with_row_wf(table: TableView, after: TableView, p: int)
    requires
        table.wf(),
        after == table || {
            &&& 0 <= p < table.rows.len()
            &&& after.issued == table.issued
            &&& after.rows == table.rows.update(p, after.rows[p])
            &&& after.rows.len() == table.rows.len()
            &&& after.rows[p].id == table.rows[p].id
            &&& after.rows[p].pub_id == table.rows[p].pub_id
            &&& fits(after.rows[p].name, after.rows[p].email)
        },
    ensures
        after.wf(),
{
    if after != table {
        assert forall|i: int| 0 <= i < after.rows.len() implies {
            &&& 1 <= (#[trigger] after.rows[i]).id <= after.issued
            &&& fits(after.rows[i].name, after.rows[i].email)
        } by {
            if i != p {
                assert(after.rows[i] == table.rows[i]);
            } else {
                assert(1 <= table.rows[p].id <= table.issued);
            }
        }
        assert forall|i: int, j: int| 0 <= i < j < after.rows.len() implies {
            &&& (#[trigger] after.rows[i]).id != (#[trigger] after.rows[j]).id
            &&& after.rows[i].pub_id != after.rows[j].pub_id
        } by {
            assert(after.rows[i].id == table.rows[i].id);
            assert(after.rows[j].id == table.rows[j].id);
            assert(after.rows[i].pub_id == table.rows[i].pub_id);
            assert(after.rows[j].pub_id == table.rows[j].pub_id);
        }
    }
}

} // verus!
