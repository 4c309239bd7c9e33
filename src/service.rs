use vstd::prelude::*;
use crate::handlers::{
    create_project, delete_project, get_project_by_id, get_project_by_name,
    list_projects, lookup_response, BodyView, Response, STATUS_CREATED, STATUS_INTERNAL_ERROR,
    STATUS_NOT_FOUND, STATUS_OK, update_project,
};
use crate::project::{
    modify_project, new_project, summary_of, ModifyProject, ModifyProjectRequest, NewProject,
    NewProjectRequest, ProjectRow, Timestamp,
};
use crate::store::{
    delete_spec, has_free_id, holds_id, insert_spec, lemma_id_position_unique, lookup_id,
    lookup_name, table_wf, lemma_first_named_exists, update_spec, first_named, ProjectTable, TableView,
};

verus! {

/// The insert values of a create request at time `now`.
pub open spec fn new_values(req: &NewProjectRequest, now: Timestamp) -> NewProject {
    NewProject { name: req.name, description: req.description, created_at: now, updated_at: now }
}

/// The update values of an update request at time `now`.
pub open spec fn modify_values(req: &ModifyProjectRequest, now: Timestamp) -> ModifyProject {
    ModifyProject { name: req.name, description: req.description, updated_at: now }
}

/// The status of create on table `t`: 201, or 500 once identities are spent.
pub open spec fn create_status(t: TableView) -> u16 {
    if has_free_id(t) {
        STATUS_CREATED
    } else {
        STATUS_INTERNAL_ERROR
    }
}

/// The status of update or delete of `id` on table `t`: 200 where the row
/// exists, else 404.
pub open spec fn write_status(t: TableView, id: i32) -> u16 {
    if lookup_id(t.rows, id) is Some {
        STATUS_OK
    } else {
        STATUS_NOT_FOUND
    }
}

/// List: 200 with the `{id, name}` projection of every stored row, one per row.
pub fn serve_list(t: &ProjectTable) -> (r: Response)
    ensures
        r.status == STATUS_OK,
        r.body@ == BodyView::Summaries(t@.rows.map_values(|p: ProjectRow| summary_of(p))),
{
    list_projects(Ok(t.select_summaries()))
}

/// Get by id: the row with `id` and 200, or 404.
pub fn serve_get_by_id(t: &ProjectTable, id: i32) -> (r: Response)
    requires
        t.wf(),
    ensures
        (r.status, r.body@) == lookup_response(lookup_id(t@.rows, id)),
{
    get_project_by_id(Ok(t.find_by_id(id)))
}

/// Get by name: the first row named `name` and 200, or 404.
pub fn serve_get_by_name(t: &ProjectTable, name: &String) -> (r: Response)
    ensures
        (r.status, r.body@) == lookup_response(lookup_name(t@.rows, name@)),
{
    get_project_by_name(Ok(t.find_by_name(name)))
}

/// Create at time `now`: a new row with both timestamps `now`, and 201.
pub fn serve_create(t: &mut ProjectTable, req: &NewProjectRequest, now: Timestamp) -> (r: Response)
    requires
        old(t).wf(),
    ensures
        final(t).wf(),
        final(t)@ == insert_spec(old(t)@, &new_values(req, now)),
        r.status == create_status(old(t)@),
        has_free_id(old(t)@) ==> r.body@ == BodyView::Empty,
{
    let n = new_project(req, now);
    let outcome = t.insert(n);
    proof {
        assert(insert_spec(old(t)@, &n) == insert_spec(old(t)@, &new_values(req, now)));
    }
    create_project(outcome)
}

/// Update at time `now`: where row `id` exists, its name and description are
/// replaced, `updated_at` becomes `now`, and 200; else nothing changes, and 404.
pub fn serve_update(t: &mut ProjectTable, id: i32, req: &ModifyProjectRequest, now: Timestamp) -> (r: Response)
    requires
        old(t).wf(),
    ensures
        final(t).wf(),
        final(t)@ == update_spec(old(t)@, id, &modify_values(req, now)),
        r.status == write_status(old(t)@, id),
        r.body@ == BodyView::Empty,
{
    let m = modify_project(req, now);
    let count = t.update(id, m);
    proof {
        assert(update_spec(old(t)@, id, &m) == update_spec(old(t)@, id, &modify_values(req, now)));
    }
    update_project(Ok(count))
}

/// Delete: where row `id` exists, it is removed, and 200; else 404.
pub fn serve_delete(t: &mut ProjectTable, id: i32) -> (r: Response)
    requires
        old(t).wf(),
    ensures
        final(t).wf(),
        final(t)@ == delete_spec(old(t)@, id),
        r.status == write_status(old(t)@, id),
        r.body@ == BodyView::Empty,
{
    let count = t.delete(id);
    delete_project(Ok(count))
}

/// A create of a name that no row holds yet succeeds with 201, and a
/// following get-by-name finds the new row with that name and description
/// and equal creation and update times.
pub proof fn law_create_then_get_by_name(t: TableView, req: NewProjectRequest, now: Timestamp)
    requires
        table_wf(t),
        has_free_id(t),
        lookup_name(t.rows, req.name@) is None,
    ensures
        create_status(t) == STATUS_CREATED,
        lookup_response(lookup_name(insert_spec(t, &new_values(&req, now)).rows, req.name@)) == (
            STATUS_OK,
            BodyView::Project(
                ProjectRow {
                    id: t.next_id as i32,
                    name: req.name@,
                    description: req.description@,
                    created_at: now,
                    updated_at: now,
                },
            ),
        ),
{
    let t2 = insert_spec(t, &new_values(&req, now));
    let n = t.rows.len() as int;
    assert forall|j: int| 0 <= j < n implies t2.rows[j].name != req.name@ by {
        assert(t2.rows[j] == t.rows[j]);
        if t.rows[j].name == req.name@ {
            lemma_first_named_exists(t.rows, req.name@, j);
        }
    }
    assert(first_named(t2.rows, req.name@, n));
    let c = choose|c: int| first_named(t2.rows, req.name@, c);
    assert(c == n);
}

/// Where no row has identity `id`, get-by-id answers 404; where no row is
/// named `name`, get-by-name answers 404.
pub proof fn law_missing_rows_not_found(t: TableView, id: i32, name: Seq<char>)
    ensures
        (forall|i: int| 0 <= i < t.rows.len() ==> t.rows[i].id != id) ==> lookup_response(
            lookup_id(t.rows, id),
        ) == (STATUS_NOT_FOUND, BodyView::Empty),
        (forall|i: int| 0 <= i < t.rows.len() ==> t.rows[i].name != name) ==> lookup_response(
            lookup_name(t.rows, name),
        ) == (STATUS_NOT_FOUND, BodyView::Empty),
{
}

/// An update of an identity that no row has answers 404 and leaves the
/// table exactly as it was.
pub proof fn law_update_missing_changes_nothing(
    t: TableView,
    id: i32,
    req: ModifyProjectRequest,
    now: Timestamp,
)
    requires
        forall|i: int| 0 <= i < t.rows.len() ==> t.rows[i].id != id,
    ensures
        write_status(t, id) == STATUS_NOT_FOUND,
        update_spec(t, id, &modify_values(&req, now)) == t,
{
}

/// Deleting an existing row answers 200; deleting it again at once answers
/// 404 and changes nothing more.
pub proof fn law_delete_twice(t: TableView, id: i32)
    requires
        table_wf(t),
        exists|i: int| holds_id(t.rows, id, i),
    ensures
        write_status(t, id) == STATUS_OK,
        write_status(delete_spec(t, id), id) == STATUS_NOT_FOUND,
        delete_spec(delete_spec(t, id), id) == delete_spec(t, id),
{
    let i = choose|i: int| holds_id(t.rows, id, i);
    let t2 = delete_spec(t, id);
    assert(t2.rows == t.rows.remove(i));
    assert forall|a: int| 0 <= a < t2.rows.len() implies t2.rows[a].id != id by {
        let a2 = if a >= i { a + 1 } else { a };
        assert(t2.rows[a] == t.rows[a2]);
        assert(a2 != i);
    }
}

/// An update of an existing row at a time after its last update answers
/// 200, replaces name and description, moves `updated_at` strictly forward
/// to that time, and keeps `id` and `created_at`.
pub proof fn law_update_advances(
    t: TableView,
    id: i32,
    req: ModifyProjectRequest,
    now: Timestamp,
)
    requires
        table_wf(t),
        lookup_id(t.rows, id) is Some,
        now > lookup_id(t.rows, id)->Some_0.updated_at,
    ensures
        write_status(t, id) == STATUS_OK,
        ({
            let before = lookup_id(t.rows, id)->Some_0;
            let after = lookup_id(update_spec(t, id, &modify_values(&req, now)).rows, id);
            &&& after is Some
            &&& after->Some_0.id == id
            &&& after->Some_0.name == req.name@
            &&& after->Some_0.description == req.description@
            &&& after->Some_0.created_at == before.created_at
            &&& after->Some_0.updated_at == now
            &&& after->Some_0.updated_at > before.updated_at
        }),
{
    let i = choose|i: int| holds_id(t.rows, id, i);
    let t2 = update_spec(t, id, &modify_values(&req, now));
    assert(holds_id(t2.rows, id, i));
    let c = choose|c: int| holds_id(t2.rows, id, c);
    assert(c == i) by {
        if c != i {
            assert(t2.rows[c] == t.rows[c]);
            lemma_id_position_unique(t, id, i, c);
        }
    }
}

/// Whether every row was last updated no earlier than it was created.
pub open spec fn stamps_ordered(rows: Seq<ProjectRow>) -> bool {
    forall|i: int| 0 <= i < rows.len() ==> #[trigger] rows[i].created_at <= rows[i].updated_at
}

/// `updated_at >= created_at` is kept by every statement: by create, by
/// delete, and by an update made no earlier than the row's creation (as a
/// clock that does not run backwards gives).
pub proof fn law_stamps_stay_ordered(
    t: TableView,
    new_req: NewProjectRequest,
    modify_req: ModifyProjectRequest,
    id: i32,
    now: Timestamp,
)
    requires
        table_wf(t),
        stamps_ordered(t.rows),
    ensures
        stamps_ordered(insert_spec(t, &new_values(&new_req, now)).rows),
        stamps_ordered(delete_spec(t, id).rows),
        (lookup_id(t.rows, id) matches Some(p) ==> now >= p.created_at) ==> stamps_ordered(
            update_spec(t, id, &modify_values(&modify_req, now)).rows,
        ),
{
    let t1 = insert_spec(t, &new_values(&new_req, now));
    assert forall|i: int| 0 <= i < t1.rows.len() implies #[trigger] t1.rows[i].created_at
        <= t1.rows[i].updated_at by {
        if i < t.rows.len() {
            assert(t1.rows[i] == t.rows[i]);
        }
    }
    if exists|i: int| holds_id(t.rows, id, i) {
        let i = choose|i: int| holds_id(t.rows, id, i);
        let t2 = delete_spec(t, id);
        assert forall|a: int| 0 <= a < t2.rows.len() implies #[trigger] t2.rows[a].created_at
            <= t2.rows[a].updated_at by {
            let a2 = if a >= i { a + 1 } else { a };
            assert(t2.rows[a] == t.rows[a2]);
        }
    }
}

} // verus!
