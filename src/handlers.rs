use vstd::prelude::*;
use crate::project::{PartialProject, Project, ProjectRow, SummaryRow};
use crate::store::StoreError;

verus! {

pub const STATUS_OK: u16 = 200;
pub const STATUS_CREATED: u16 = 201;
pub const STATUS_NOT_FOUND: u16 = 404;
pub const STATUS_INTERNAL_ERROR: u16 = 500;
pub const STATUS_UNAVAILABLE: u16 = 503;

/// What a response carries.
pub enum ResponseBody {
    Empty,
    /// The `{id, name}` projections of the list operation.
    Summaries(Vec<PartialProject>),
    /// One full row.
    Project(Project),
    /// The store's error text.
    Message(String),
}

/// The mathematical value of a response body.
pub enum BodyView {
    Empty,
    Summaries(Seq<SummaryRow>),
    Project(ProjectRow),
    Message(Seq<char>),
}

/// An HTTP status and the body sent with it.
pub struct Response {
    pub status: u16,
    pub body: ResponseBody,
}

impl View for ResponseBody {
    type V = BodyView;

    open spec fn view(&self) -> BodyView {
        match self {
            ResponseBody::Empty => BodyView::Empty,
            ResponseBody::Summaries(v) => BodyView::Summaries(v@.map_values(|p: PartialProject| p@)),
            ResponseBody::Project(p) => BodyView::Project(p@),
            ResponseBody::Message(m) => BodyView::Message(m@),
        }
    }
}

/// The response to a store failure: a lost connection is "unavailable", a
/// failed statement is an internal error that carries the store's text.
pub open spec fn error_response(e: StoreError) -> (u16, BodyView) {
    match e {
        StoreError::Connection(_) => (STATUS_UNAVAILABLE, BodyView::Empty),
        StoreError::Query(m) => (STATUS_INTERNAL_ERROR, BodyView::Message(m@)),
    }
}

/// The response to a single-row lookup: the row, or "not found".
pub open spec fn lookup_response(found: Option<ProjectRow>) -> (u16, BodyView) {
    match found {
        Some(p) => (STATUS_OK, BodyView::Project(p)),
        None => (STATUS_NOT_FOUND, BodyView::Empty),
    }
}

/// The response to an update or a delete that affected `count` rows.
pub open spec fn affected_response(count: usize) -> (u16, BodyView) {
    if count == 0 {
        (STATUS_NOT_FOUND, BodyView::Empty)
    } else {
        (STATUS_OK, BodyView::Empty)
    }
}

fn store_failure(e: StoreError) -> (r: Response)
    ensures
        (r.status, r.body@) == error_response(e),
{
    match e {
        StoreError::Connection(_) => Response { status: STATUS_UNAVAILABLE, body: ResponseBody::Empty },
        StoreError::Query(m) => Response { status: STATUS_INTERNAL_ERROR, body: ResponseBody::Message(m) },
    }
}

fn lookup_outcome(outcome: Result<Option<Project>, StoreError>) -> (r: Response)
    ensures
        match outcome {
            Ok(found) => (r.status, r.body@) == lookup_response(
                match found { Some(p) => Some(p@), None => None },
            ),
            Err(e) => (r.status, r.body@) == error_response(e),
        },
{
    match outcome {
        Ok(Some(p)) => Response { status: STATUS_OK, body: ResponseBody::Project(p) },
        Ok(None) => Response { status: STATUS_NOT_FOUND, body: ResponseBody::Empty },
        Err(e) => store_failure(e),
    }
}

fn affected_outcome(outcome: Result<usize, StoreError>) -> (r: Response)
    ensures
        match outcome {
            Ok(c) => (r.status, r.body@) == affected_response(c),
            Err(e) => (r.status, r.body@) == error_response(e),
        },
{
    match outcome {
        Ok(0) => Response { status: STATUS_NOT_FOUND, body: ResponseBody::Empty },
        Ok(_) => Response { status: STATUS_OK, body: ResponseBody::Empty },
        Err(e) => store_failure(e),
    }
}

/// The response of the list operation to the outcome of its select: 200 with
/// every projection, in the order the store gave them (possibly none).
pub fn list_projects(outcome: Result<Vec<PartialProject>, StoreError>) -> (r: Response)
    ensures
        match outcome {
            Ok(v) => r.status == STATUS_OK && r.body@ == BodyView::Summaries(
                v@.map_values(|p: PartialProject| p@),
            ),
            Err(e) => (r.status, r.body@) == error_response(e),
        },
{
    match outcome {
        Ok(v) => Response { status: STATUS_OK, body: ResponseBody::Summaries(v) },
        Err(e) => store_failure(e),
    }
}

/// The response of get-by-id to the outcome of its single-row select: 200
/// with the row, or 404 where there is none.
pub fn get_project_by_id(outcome: Result<Option<Project>, StoreError>) -> (r: Response)
    ensures
        match outcome {
            Ok(found) => (r.status, r.body@) == lookup_response(
                match found { Some(p) => Some(p@), None => None },
            ),
            Err(e) => (r.status, r.body@) == error_response(e),
        },
{
    lookup_outcome(outcome)
}

/// The response of get-by-name to the outcome of its single-row select: 200
/// with the row, or 404 where there is none.
pub fn get_project_by_name(outcome: Result<Option<Project>, StoreError>) -> (r: Response)
    ensures
        match outcome {
            Ok(found) => (r.status, r.body@) == lookup_response(
                match found { Some(p) => Some(p@), None => None },
            ),
            Err(e) => (r.status, r.body@) == error_response(e),
        },
{
    lookup_outcome(outcome)
}

/// The response of create to the outcome of its insert: 201 with no body.
pub fn create_project(outcome: Result<usize, StoreError>) -> (r: Response)
    ensures
        match outcome {
            Ok(_) => r.status == STATUS_CREATED && r.body@ == BodyView::Empty,
            Err(e) => (r.status, r.body@) == error_response(e),
        },
{
    match outcome {
        Ok(_) => Response { status: STATUS_CREATED, body: ResponseBody::Empty },
        Err(e) => store_failure(e),
    }
}

/// The response of update to the number of rows its statement affected:
/// 404 where none, else 200; no body either way.
pub fn update_project(outcome: Result<usize, StoreError>) -> (r: Response)
    ensures
        match outcome {
            Ok(c) => (r.status, r.body@) == affected_response(c),
            Err(e) => (r.status, r.body@) == error_response(e),
        },
{
    affected_outcome(outcome)
}

/// The response of delete to the number of rows its statement affected:
/// 404 where none, else 200; no body either way.
pub fn delete_project(outcome: Result<usize, StoreError>) -> (r: Response)
    ensures
        match outcome {
            Ok(c) => (r.status, r.body@) == affected_response(c),
            Err(e) => (r.status, r.body@) == error_response(e),
        },
{
    affected_outcome(outcome)
}

} // verus!
