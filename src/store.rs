use vstd::prelude::*;
use crate::project::{inserted_row, modified_row, summary_of, ModifyProject, NewProject, PartialProject, Project, ProjectRow};

verus! {

/// The largest identity the store can hand out.
pub const MAX_ID: i32 = 2147483647;

/// The mathematical value of a table: its rows, in store order, and the
/// identity that the next insert receives.
pub struct TableView {
    pub rows: Seq<ProjectRow>,
    pub next_id: int,
}

/// Whether `i` is a position of `rows` that holds the identity `id`.
pub open spec fn holds_id(rows: Seq<ProjectRow>, id: i32, i: int) -> bool {
    0 <= i < rows.len() && rows[i].id == id
}

/// Whether `i` is the first position of `rows` whose name is `name`.
pub open spec fn first_named(rows: Seq<ProjectRow>, name: Seq<char>, i: int) -> bool {
    &&& 0 <= i < rows.len()
    &&& rows[i].name == name
    &&& forall|j: int| 0 <= j < i ==> rows[j].name != name
}

/// The row with identity `id`, if any.
pub open spec fn lookup_id(rows: Seq<ProjectRow>, id: i32) -> Option<ProjectRow> {
    if exists|i: int| holds_id(rows, id, i) {
        Some(rows[choose|i: int| holds_id(rows, id, i)])
    } else {
        None
    }
}

/// The first row, in store order, whose name is `name`, if any.
pub open spec fn lookup_name(rows: Seq<ProjectRow>, name: Seq<char>) -> Option<ProjectRow> {
    if exists|i: int| first_named(rows, name, i) {
        Some(rows[choose|i: int| first_named(rows, name, i)])
    } else {
        None
    }
}

/// Well-formed tables: identities are unique, positive and below `next_id`.
pub open spec fn table_wf(t: TableView) -> bool {
    &&& 1 <= t.next_id <= MAX_ID
    &&& forall|i: int| 0 <= i < t.rows.len() ==> 1 <= #[trigger] t.rows[i].id < t.next_id
    &&& forall|i: int, j: int|
        0 <= i < t.rows.len() && 0 <= j < t.rows.len() && i != j ==> #[trigger] t.rows[i].id
            != #[trigger] t.rows[j].id
}

/// Whether an insert into `t` can still be given a fresh identity.
pub open spec fn has_free_id(t: TableView) -> bool {
    t.next_id < MAX_ID
}

/// The table after an insert of `n`: a new last row under `next_id`.
pub open spec fn insert_spec(t: TableView, n: &NewProject) -> TableView {
    if has_free_id(t) {
        TableView { rows: t.rows.push(inserted_row(t.next_id as i32, n)), next_id: t.next_id + 1 }
    } else {
        t
    }
}

/// The table after an update of row `id` with `m`; unchanged where no row has `id`.
pub open spec fn update_spec(t: TableView, id: i32, m: &ModifyProject) -> TableView {
    if exists|i: int| holds_id(t.rows, id, i) {
        let i = choose|i: int| holds_id(t.rows, id, i);
        TableView { rows: t.rows.update(i, modified_row(t.rows[i], m)), next_id: t.next_id }
    } else {
        t
    }
}

/// The table after a delete of row `id`; unchanged where no row has `id`.
pub open spec fn delete_spec(t: TableView, id: i32) -> TableView {
    if exists|i: int| holds_id(t.rows, id, i) {
        let i = choose|i: int| holds_id(t.rows, id, i);
        TableView { rows: t.rows.remove(i), next_id: t.next_id }
    } else {
        t
    }
}

/// A failure of the relational store.
pub enum StoreError {
    /// No connection could be leased from the pool.
    Connection(String),
    /// A statement failed; the store's message.
    Query(String),
}

/// An in-memory relational table of projects: rows in insertion order and an
/// identity sequence. It executes the statements that the handlers issue.
pub struct ProjectTable {
    rows: Vec<Project>,
    next_id: i32,
}

impl View for ProjectTable {
    type V = TableView;

    closed spec fn view(&self) -> TableView {
        TableView { rows: self.rows@.map_values(|p: Project| p@), next_id: self.next_id as int }
    }
}

/// In a well-formed table at most one position holds a given identity.
pub proof fn lemma_id_position_unique(t: TableView, id: i32, i: int, j: int)
    requires
        table_wf(t),
        holds_id(t.rows, id, i),
        holds_id(t.rows, id, j),
    ensures
        i == j,
{
}

/// Where some row is named `name`, a first such row exists.
pub proof fn lemma_first_named_exists(rows: Seq<ProjectRow>, name: Seq<char>, j: int)
    requires
        0 <= j < rows.len(),
        rows[j].name == name,
    ensures
        exists|k: int| first_named(rows, name, k),
    decreases j,
{
    if exists|m: int| 0 <= m < j && rows[m].name == name {
        let m = choose|m: int| 0 <= m < j && rows[m].name == name;
        lemma_first_named_exists(rows, name, m);
    } else {
        assert(first_named(rows, name, j));
    }
}

impl ProjectTable {
    /// The well-formedness of the table.
    pub closed spec fn wf(&self) -> bool {
        table_wf(self@)
    }

    /// An empty table whose first insert receives identity 1.
    pub fn new() -> (r: ProjectTable)
        ensures
            r.wf(),
            r@.rows.len() == 0,
            r@.next_id == 1,
    {
        let r = ProjectTable { rows: Vec::new(), next_id: 1 };
        proof {
            assert(r@.rows =~= Seq::<ProjectRow>::empty());
        }
        r
    }

    /// The number of stored rows.
    pub fn len(&self) -> (r: usize)
        ensures
            r == self@.rows.len(),
    {
        self.rows.len()
    }

    /// `SELECT id, name FROM projects`: one projection per row, in store order.
    pub fn select_summaries(&self) -> (r: Vec<PartialProject>)
        ensures
            r@.map_values(|p: PartialProject| p@) == self@.rows.map_values(|p: ProjectRow| summary_of(p)),
    {
        let mut out: Vec<PartialProject> = Vec::new();
        let mut i: usize = 0;
        while i < self.rows.len()
            invariant
                i <= self.rows.len(),
                out@.len() == i,
                forall|k: int| 0 <= k < i ==> #[trigger] out@[k]@ == summary_of(self.rows@[k]@),
            decreases self.rows.len() - i,
        {
            out.push(self.rows[i].summary());
            i = i + 1;
        }
        assert(out@.map_values(|p: PartialProject| p@) =~= self@.rows.map_values(|p: ProjectRow| summary_of(p)));
        out
    }

    /// `SELECT * FROM projects WHERE id = $1 LIMIT 1`.
    pub fn find_by_id(&self, id: i32) -> (r: Option<Project>)
        requires
            self.wf(),
        ensures
            match r {
                Some(p) => lookup_id(self@.rows, id) == Some(p@),
                None => lookup_id(self@.rows, id) is None,
            },
    {
        let mut i: usize = 0;
        while i < self.rows.len()
            invariant
                i <= self.rows.len(),
                self.wf(),
                forall|k: int| 0 <= k < i ==> self.rows@[k].id != id,
            decreases self.rows.len() - i,
        {
            if self.rows[i].id == id {
                proof {
                    assert(holds_id(self@.rows, id, i as int));
                    let c = choose|c: int| holds_id(self@.rows, id, c);
                    lemma_id_position_unique(self@, id, i as int, c);
                }
                return Some(self.rows[i].copied());
            }
            i = i + 1;
        }
        None
    }

    /// `SELECT * FROM projects WHERE name = $1 LIMIT 1`: the first row in store order.
    pub fn find_by_name(&self, name: &String) -> (r: Option<Project>)
        ensures
            match r {
                Some(p) => lookup_name(self@.rows, name@) == Some(p@),
                None => lookup_name(self@.rows, name@) is None,
            },
    {
        let mut i: usize = 0;
        while i < self.rows.len()
            invariant
                i <= self.rows.len(),
                forall|k: int| 0 <= k < i ==> self.rows@[k].name@ != name@,
            decreases self.rows.len() - i,
        {
            if self.rows[i].name == *name {
                proof {
                    assert(first_named(self@.rows, name@, i as int));
                    let c = choose|c: int| first_named(self@.rows, name@, c);
                    if c < i {
                    } else if c > i {
                        assert(self@.rows[i as int].name == name@);
                    }
                }
                return Some(self.rows[i].copied());
            }
            i = i + 1;
        }
        proof {
            assert forall|c: int| !first_named(self@.rows, name@, c) by {
                if 0 <= c < self@.rows.len() {
                    assert(self.rows@[c].name@ != name@);
                }
            }
        }
        None
    }

    /// `INSERT INTO projects ...`: the new row takes the next identity and goes
    /// last. Once the identity sequence is spent the statement fails and
    /// nothing changes. On success one row is affected.
    pub fn insert(&mut self, n: NewProject) -> (r: Result<usize, StoreError>)
        requires
            old(self).wf(),
        ensures
            final(self).wf(),
            final(self)@ == insert_spec(old(self)@, &n),
            r is Ok <==> has_free_id(old(self)@),
            r matches Ok(c) ==> c == 1,
            r matches Err(e) ==> e is Query,
    {
        if self.next_id == MAX_ID {
            return Err(StoreError::Query(String::from_str("identity sequence exhausted")));
        }
        let id = self.next_id;
        let row = Project {
            id,
            name: n.name,
            description: n.description,
            created_at: n.created_at,
            updated_at: n.updated_at,
        };
        self.rows.push(row);
        self.next_id = id + 1;
        proof {
            assert(self@.rows =~= old(self)@.rows.push(inserted_row(id, &n)));
        }
        Ok(1)
    }

    /// `UPDATE projects SET ... WHERE id = $1`: the number of affected rows,
    /// 1 where a row has `id` and 0 where none has.
    pub fn update(&mut self, id: i32, m: ModifyProject) -> (r: usize)
        requires
            old(self).wf(),
        ensures
            final(self).wf(),
            final(self)@ == update_spec(old(self)@, id, &m),
            r == (if lookup_id(old(self)@.rows, id) is Some { 1usize } else { 0usize }),
    {
        let mut i: usize = 0;
        while i < self.rows.len()
            invariant
                self.wf(),
                *self == *old(self),
                i <= self.rows.len(),
                forall|k: int| 0 <= k < i ==> self.rows@[k].id != id,
            decreases self.rows.len() - i,
        {
            if self.rows[i].id == id {
                let ghost before = self@;
                let ghost old_row = self.rows@[i as int]@;
                let row = Project {
                    id,
                    name: m.name,
                    description: m.description,
                    created_at: self.rows[i].created_at,
                    updated_at: m.updated_at,
                };
                self.rows.set(i, row);
                proof {
                    assert(holds_id(before.rows, id, i as int));
                    let c = choose|c: int| holds_id(before.rows, id, c);
                    lemma_id_position_unique(before, id, i as int, c);
                    assert(self@.rows =~= before.rows.update(i as int, modified_row(old_row, &m)));
                    assert forall|a: int, b: int|
                        0 <= a < self@.rows.len() && 0 <= b < self@.rows.len() && a != b
                        implies #[trigger] self@.rows[a].id != #[trigger] self@.rows[b].id by {
                        assert(before.rows[a].id != before.rows[b].id);
                    }
                }
                return 1;
            }
            i = i + 1;
        }
        0
    }

    /// `DELETE FROM projects WHERE id = $1`: the number of affected rows,
    /// 1 where a row had `id` and 0 where none had.
    pub fn delete(&mut self, id: i32) -> (r: usize)
        requires
            old(self).wf(),
        ensures
            final(self).wf(),
            final(self)@ == delete_spec(old(self)@, id),
            r == (if lookup_id(old(self)@.rows, id) is Some { 1usize } else { 0usize }),
    {
        let mut i: usize = 0;
        while i < self.rows.len()
            invariant
                self.wf(),
                *self == *old(self),
                i <= self.rows.len(),
                forall|k: int| 0 <= k < i ==> self.rows@[k].id != id,
            decreases self.rows.len() - i,
        {
            if self.rows[i].id == id {
                let ghost before = self@;
                let _removed = self.rows.remove(i);
                proof {
                    assert(holds_id(before.rows, id, i as int));
                    let c = choose|c: int| holds_id(before.rows, id, c);
                    lemma_id_position_unique(before, id, i as int, c);
                    assert(self@.rows =~= before.rows.remove(i as int));
                    assert forall|a: int| 0 <= a < self@.rows.len() implies
                        1 <= #[trigger] self@.rows[a].id < self@.next_id by {
                        if a >= i { assert(self@.rows[a] == before.rows[a + 1]); }
                    }
                    assert forall|a: int, b: int|
                        0 <= a < self@.rows.len() && 0 <= b < self@.rows.len() && a != b
                        implies #[trigger] self@.rows[a].id != #[trigger] self@.rows[b].id by {
                        let a2 = if a >= i { a + 1 } else { a };
                        let b2 = if b >= i { b + 1 } else { b };
                        assert(self@.rows[a] == before.rows[a2]);
                        assert(self@.rows[b] == before.rows[b2]);
                    }
                }
                return 1;
            }
            i = i + 1;
        }
        0
    }
}

} // verus!
