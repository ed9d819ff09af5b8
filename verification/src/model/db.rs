//! A table of records in memory that answers statements as the store does.

use crate::db::{
    lemma_position_unique, lemma_step_wf, selects, Defaults, GetId, Query, QueryView, RecordView,
    Reply, Row, TableView,
};
use crate::user::{Timestamp, MAX_LEN};
use vstd::prelude::*;
use vstd::string::StrSliceExecFns;

verus! {

/// One record of the table.
#[derive(Debug, PartialEq, Eq)]
pub struct Record {
    pub id: i32,
    pub pub_id: u128,
    pub registered: Timestamp,
    pub enabled: bool,
    pub name: String,
    pub email: String,
}

impl View for Record {
    type V = RecordView;

    open spec fn view(&self) -> RecordView {
        RecordView {
            id: self.id,
            pub_id: self.pub_id,
            registered: self.registered,
            enabled: self.enabled,
            name: self.name@,
            email: self.email@,
        }
    }
}

/// The records of `rows` as mathematical values.
pub open spec fn views(rows: Seq<Record>) -> Seq<RecordView> {
    rows.map_values(|r: Record| r@)
}

/// The table of users, with the sequence that gives out its keys.
#[derive(Debug)]
pub struct Db {
    rows: Vec<Record>,
    issued: i32,
}

impl View for Db {
    type V = TableView;

    closed spec fn view(&self) -> TableView {
        TableView { rows: views(self.rows@), issued: self.issued as int }
    }
}

impl Db {
    /// The table is always as the store keeps it.
    #[verifier::type_invariant]
    pub open spec fn kept(self) -> bool {
        self@.wf()
    }

    /// An empty table whose sequence has given out no key yet.
    pub fn new() -> (db: Self)
        ensures
            db@ == (TableView { rows: Seq::empty(), issued: 0 }),
            db@.wf(),
    {
        let db = Db { rows: Vec::new(), issued: 0 };
        assert(db@.rows =~= Seq::empty());
        db
    }

    /// How many records the table holds, enabled or not.
    pub fn len(&self) -> (n: usize)
        ensures
            n == self@.rows.len(),
            self@.wf(),
    {
        proof {
            use_type_invariant(self);
        }
        self.rows.len()
    }

    /// Where the record that `id` names stands, if the table holds one.
    fn index_of(&self, id: GetId) -> (at: Option<usize>)
        ensures
            self@.wf(),
            at is Some <==> self@.holds(id),
            at matches Some(i) ==> i == self@.position(id) && i < self.rows@.len(),
    {
        proof {
            use_type_invariant(self);
        }
        let mut i: usize = 0;
        while i < self.rows.len()
            invariant
                i <= self.rows@.len(),
                self@.rows.len() == self.rows@.len(),
                forall|j: int| 0 <= j < i ==> !selects(id, #[trigger] self@.rows[j]),
                self@.wf(),
            decreases self.rows@.len() - i,
        {
            let record = &self.rows[i];
            assert(self@.rows[i as int] == record@);
            let hit = match id {
                GetId::Id(key) => record.id >= 0 && record.id as u32 == key,
                GetId::PubId(pub_id) => record.pub_id == pub_id,
            };
            if hit {
                proof {
                    lemma_position_unique(self@, id, i as int);
                }
                return Some(i);
            }
            i += 1;
        }
        None
    }

    /// The record that `id` names, enabled or not, if the table holds one.
    pub fn stored(&self, id: GetId) -> (record: Option<Record>)
        ensures
            record is Some <==> self@.holds(id),
            record matches Some(r) ==> r@ == self@.rows[self@.position(id)],
            self@.wf(),
    {
        match self.index_of(id) {
            None => None,
            Some(i) => {
                let r = &self.rows[i];
                assert(self@.rows[i as int] == r@);
                Some(
                    Record {
                        id: r.id,
                        pub_id: r.pub_id,
                        registered: r.registered,
                        enabled: r.enabled,
                        name: r.name.clone(),
                        email: r.email.clone(),
                    },
                )
            },
        }
    }

    /// Takes the records out of the table, which is left empty.
    fn take_rows(&mut self) -> (rows: Vec<Record>)
        ensures
            old(self)@.wf(),
            views(rows@) == old(self)@.rows,
            final(self).issued == old(self).issued,
            final(self).rows@.len() == 0,
    {
        proof {
            use_type_invariant(&*self);
        }
        let mut rows: Vec<Record> = Vec::new();
        assert(views(rows@) =~= Seq::empty());
        core::mem::swap(&mut self.rows, &mut rows);
        rows
    }

    /// Creates a record of `name` and `email` with the next key of the
    /// sequence and what `defaults` gives.
    fn insert(&mut self, name: &String, email: &String, defaults: Defaults) -> (reply: Reply)
        ensures
            (final(self)@, reply@) == old(self)@.inserted(name@, email@, defaults),
    {
        let ghost before = self@;
        let ghost query = QueryView::Insert { name: name@, email: email@ };
        if name.as_str().unicode_len() > MAX_LEN || email.as_str().unicode_len() > MAX_LEN {
            return Reply::Failed;
        }
        if self.index_of(GetId::PubId(defaults.pub_id)).is_some() || self.issued == i32::MAX {
            return Reply::Failed;
        }
        let id = self.issued + 1;
        let record = Record {
            id,
            pub_id: defaults.pub_id,
            registered: defaults.registered,
            enabled: true,
            name: name.clone(),
            email: email.clone(),
        };
        let mut rows = self.take_rows();
        rows.push(record);
        proof {
            lemma_step_wf(before, query, defaults);
            assert(views(rows@) =~= before.rows.push(record@));
        }
        self.issued = id;
        self.rows = rows;
        Reply::Inserted { id, pub_id: defaults.pub_id, registered: defaults.registered }
    }

    /// Answers a select of the enabled record that `id` names; the table
    /// stays as it is.
    pub fn select(&self, id: GetId) -> (reply: Reply)
        ensures
            reply@ == self@.selected(id),
            self@.wf(),
    {
        match self.index_of(id) {
            None => Reply::Selected(None),
            Some(i) => {
                let r = &self.rows[i];
                assert(self@.rows[i as int] == r@);
                if r.enabled {
                    Reply::Selected(
                        Some(
                            Row {
                                id: r.id,
                                pub_id: r.pub_id,
                                registered: r.registered,
                                name: r.name.clone(),
                                email: r.email.clone(),
                            },
                        ),
                    )
                } else {
                    Reply::Selected(None)
                }
            },
        }
    }

    /// Gives the enabled record of the key `id` the name `name` and the
    /// address `email`.
    fn update(&mut self, id: u32, name: &String, email: &String) -> (reply: Reply)
        ensures
            (final(self)@, reply@) == old(self)@.updated(id, name@, email@),
    {
        let ghost before = self@;
        let ghost query = QueryView::Update { id, name: name@, email: email@ };
        match self.index_of(GetId::Id(id)) {
            None => Reply::Affected(0),
            Some(i) => {
                assert(self@.rows[i as int] == self.rows@[i as int]@);
                if !self.rows[i].enabled {
                    Reply::Affected(0)
                } else if name.as_str().unicode_len() > MAX_LEN || email.as_str().unicode_len()
                    > MAX_LEN {
                    Reply::Failed
                } else {
                    let mut rows = self.take_rows();
                    let old = rows.remove(i);
                    let record = Record {
                        id: old.id,
                        pub_id: old.pub_id,
                        registered: old.registered,
                        enabled: old.enabled,
                        name: name.clone(),
                        email: email.clone(),
                    };
                    rows.insert(i, record);
                    proof {
                        lemma_step_wf(before, query, arbitrary());
                        assert(views(rows@) =~= before.rows.update(i as int, record@));
                    }
                    self.rows = rows;
                    Reply::Affected(1)
                }
            },
        }
    }

    /// Disables the record that `id` names, enabled or not.
    fn disable(&mut self, id: GetId) -> (reply: Reply)
        ensures
            (final(self)@, reply@) == old(self)@.disabled(id),
    {
        let ghost before = self@;
        match self.index_of(id) {
            None => Reply::Affected(0),
            Some(i) => {
                let mut rows = self.take_rows();
                let old = rows.remove(i);
                let record = Record {
                    id: old.id,
                    pub_id: old.pub_id,
                    registered: old.registered,
                    enabled: false,
                    name: old.name,
                    email: old.email,
                };
                rows.insert(i, record);
                proof {
                    lemma_step_wf(before, QueryView::Disable(id), arbitrary());
                    assert(views(rows@) =~= before.rows.update(i as int, record@));
                }
                self.rows = rows;
                Reply::Affected(1)
            },
        }
    }

    /// Removes the record that `id` names, enabled or not.
    fn remove(&mut self, id: GetId) -> (reply: Reply)
        ensures
            (final(self)@, reply@) == old(self)@.removed(id),
    {
        let ghost before = self@;
        match self.index_of(id) {
            None => Reply::Affected(0),
            Some(i) => {
                let mut rows = self.take_rows();
                let _ = rows.remove(i);
                proof {
                    lemma_step_wf(before, QueryView::Remove(id), arbitrary());
                    assert(views(rows@) =~= before.rows.remove(i as int));
                }
                self.rows = rows;
                Reply::Affected(1)
            },
        }
    }

    /// Answers `query` as the store does and changes the table as the
    /// statement says. `defaults` is what a new record gets for its
    /// identifier and its time; only an insert reads it.
    pub fn execute(&mut self, query: &Query, defaults: Defaults) -> (reply: Reply)
        ensures
            (final(self)@, reply@) == old(self)@.step(query@, defaults),
            old(self)@.wf(),
            final(self)@.wf(),
    {
        proof {
            use_type_invariant(&*self);
            lemma_step_wf(self@, query@, defaults);
        }
        match query {
            Query::Insert { name, email } => self.insert(name, email, defaults),
            Query::Select(id) => self.select(*id),
            Query::Update { id, name, email } => self.update(*id, name, email),
            Query::Disable(id) => self.disable(*id),
            Query::Remove(id) => self.remove(*id),
        }
    }
}

} // verus!

