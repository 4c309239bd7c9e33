use vstd::prelude::*;

verus! {

/// A point in time, as microseconds since the Unix epoch (UTC).
pub type Timestamp = i64;

/// The mathematical value of a stored project row.
pub struct ProjectRow {
    pub id: i32,
    pub name: Seq<char>,
    pub description: Seq<char>,
    pub created_at: Timestamp,
    pub updated_at: Timestamp,
}

/// The `{id, name}` projection of a row.
pub struct SummaryRow {
    pub id: i32,
    pub name: Seq<char>,
}

/// A full project row, as the store holds it.
pub struct Project {
    pub id: i32,
    pub name: String,
    pub description: String,
    pub created_at: Timestamp,
    pub updated_at: Timestamp,
}

/// The `{id, name}` projection that the list operation returns.
pub struct PartialProject {
    pub id: i32,
    pub name: String,
}

/// The payload of a create request.
pub struct NewProjectRequest {
    pub name: String,
    pub description: String,
}

/// The payload of an update request.
pub struct ModifyProjectRequest {
    pub name: String,
    pub description: String,
}

/// The values written by an insert statement; the id is left to the store.
pub struct NewProject {
    pub name: String,
    pub description: String,
    pub created_at: Timestamp,
    pub updated_at: Timestamp,
}

/// The values written by an update statement.
pub struct ModifyProject {
    pub name: String,
    pub description: String,
    pub updated_at: Timestamp,
}

impl View for Project {
    type V = ProjectRow;

    open spec fn view(&self) -> ProjectRow {
        ProjectRow {
            id: self.id,
            name: self.name@,
            description: self.description@,
            created_at: self.created_at,
            updated_at: self.updated_at,
        }
    }
}

impl View for PartialProject {
    type V = SummaryRow;

    open spec fn view(&self) -> SummaryRow {
        SummaryRow { id: self.id, name: self.name@ }
    }
}

/// The projection of a row onto `{id, name}`.
pub open spec fn summary_of(r: ProjectRow) -> SummaryRow {
    SummaryRow { id: r.id, name: r.name }
}

/// The row that an insert of `n` creates under the identity `id`.
pub open spec fn inserted_row(id: i32, n: &NewProject) -> ProjectRow {
    ProjectRow {
        id,
        name: n.name@,
        description: n.description@,
        created_at: n.created_at,
        updated_at: n.updated_at,
    }
}

/// A row after an update statement with `m`: name and description replaced,
/// `updated_at` refreshed, identity and creation time kept.
pub open spec fn modified_row(r: ProjectRow, m: &ModifyProject) -> ProjectRow {
    ProjectRow {
        id: r.id,
        name: m.name@,
        description: m.description@,
        created_at: r.created_at,
        updated_at: m.updated_at,
    }
}

impl Project {
    /// A copy of this row.
    pub fn copied(&self) -> (r: Project)
        ensures
            r@ == self@,
    {
        Project {
            id: self.id,
            name: self.name.clone(),
            description: self.description.clone(),
            created_at: self.created_at,
            updated_at: self.updated_at,
        }
    }

    /// The `{id, name}` projection of this row.
    pub fn summary(&self) -> (r: PartialProject)
        ensures
            r@ == summary_of(self@),
    {
        PartialProject { id: self.id, name: self.name.clone() }
    }
}

/// The insert values for a create request at time `now`: both timestamps are `now`.
pub fn new_project(req: &NewProjectRequest, now: Timestamp) -> (r: NewProject)
    ensures
        r.name@ == req.name@,
        r.description@ == req.description@,
        r.created_at == now,
        r.updated_at == now,
{
    NewProject {
        name: req.name.clone(),
        description: req.description.clone(),
        created_at: now,
        updated_at: now,
    }
}

/// The update values for an update request at time `now`.
pub fn modify_project(req: &ModifyProjectRequest, now: Timestamp) -> (r: ModifyProject)
    ensures
        r.name@ == req.name@,
        r.description@ == req.description@,
        r.updated_at == now,
{
    ModifyProject { name: req.name.clone(), description: req.description.clone(), updated_at: now }
}

/// Relies on chrono's `Utc::now` and `DateTime::timestamp_micros`: the current
/// time in microseconds. Nothing is known of the value.
#[verifier::external_body]
fn current_timestamp() -> (r: Timestamp) {
    chrono::Utc::now().timestamp_micros()
}

/// The insert values for a create request, stamped with the current time.
pub fn stamp_new_project(req: &NewProjectRequest) -> (r: NewProject)
    ensures
        r.name@ == req.name@,
        r.description@ == req.description@,
        r.created_at == r.updated_at,
{
    let now = current_timestamp();
    new_project(req, now)
}

/// The update values for an update request, stamped with the current time.
pub fn stamp_modify_project(req: &ModifyProjectRequest) -> (r: ModifyProject)
    ensures
        r.name@ == req.name@,
        r.description@ == req.description@,
{
    let now = current_timestamp();
    modify_project(req, now)
}

} // verus!
