use projects::handlers::{
    create_project, delete_project, get_project_by_id, get_project_by_name, list_projects,
    update_project, Response, ResponseBody,
};
use projects::project::{
    modify_project, new_project, stamp_modify_project, stamp_new_project, ModifyProjectRequest,
    NewProjectRequest, PartialProject, Project,
};
use projects::service::{
    serve_create, serve_delete, serve_get_by_id, serve_get_by_name, serve_list, serve_update,
};
use projects::store::{ProjectTable, StoreError};

fn new_req(name: &str, description: &str) -> NewProjectRequest {
    NewProjectRequest { name: name.to_string(), description: description.to_string() }
}

fn modify_req(name: &str, description: &str) -> ModifyProjectRequest {
    ModifyProjectRequest { name: name.to_string(), description: description.to_string() }
}

fn project_of(r: Response) -> Project {
    match r.body {
        ResponseBody::Project(p) => p,
        _ => panic!("expected a project body"),
    }
}

fn is_empty(r: &Response) -> bool {
    matches!(r.body, ResponseBody::Empty)
}

const T: i64 = 1_700_000_000_000_000;

#[test]
fn create_then_get_by_name_scenario() {
    let mut t = ProjectTable::new();
    let r = serve_create(&mut t, &new_req("Alpha", "First"), T);
    assert_eq!(r.status, 201);
    assert!(is_empty(&r));
    let r = serve_get_by_name(&t, &"Alpha".to_string());
    assert_eq!(r.status, 200);
    let p = project_of(r);
    assert_eq!(p.id, 1);
    assert_eq!(p.name, "Alpha");
    assert_eq!(p.description, "First");
    assert_eq!(p.created_at, T);
    assert_eq!(p.updated_at, T);
}

#[test]
fn update_then_get_by_id_scenario() {
    let mut t = ProjectTable::new();
    serve_create(&mut t, &new_req("Alpha", "First"), T);
    let r = serve_update(&mut t, 1, &modify_req("Alpha2", "Updated"), T + 5);
    assert_eq!(r.status, 200);
    assert!(is_empty(&r));
    let p = project_of(serve_get_by_id(&t, 1));
    assert_eq!(p.name, "Alpha2");
    assert_eq!(p.description, "Updated");
    assert!(p.updated_at > T);
    assert_eq!(p.created_at, T);
}

#[test]
fn delete_missing_is_not_found() {
    let mut t = ProjectTable::new();
    serve_create(&mut t, &new_req("Alpha", "First"), T);
    let r = serve_delete(&mut t, 999);
    assert_eq!(r.status, 404);
    assert_eq!(t.len(), 1);
}

#[test]
fn create_keeps_payload_and_equal_stamps() {
    let mut t = ProjectTable::new();
    serve_create(&mut t, &new_req("", ""), T);
    serve_create(&mut t, &new_req("Beta", "Second"), T + 1);
    let p = project_of(serve_get_by_name(&t, &"Beta".to_string()));
    assert_eq!(p.id, 2);
    assert_eq!(p.description, "Second");
    assert_eq!(p.created_at, p.updated_at);
    let p = project_of(serve_get_by_name(&t, &"".to_string()));
    assert_eq!(p.id, 1);
}

#[test]
fn get_by_name_returns_first_of_equal_names() {
    let mut t = ProjectTable::new();
    serve_create(&mut t, &new_req("Same", "one"), T);
    serve_create(&mut t, &new_req("Same", "two"), T + 1);
    let p = project_of(serve_get_by_name(&t, &"Same".to_string()));
    assert_eq!(p.id, 1);
    assert_eq!(p.description, "one");
}

#[test]
fn missing_rows_are_not_found() {
    let mut t = ProjectTable::new();
    let r = serve_get_by_id(&t, 1);
    assert_eq!(r.status, 404);
    assert!(is_empty(&r));
    serve_create(&mut t, &new_req("Alpha", "First"), T);
    assert_eq!(serve_get_by_id(&t, 2).status, 404);
    assert_eq!(serve_get_by_id(&t, -1).status, 404);
    let r = serve_get_by_name(&t, &"Gamma".to_string());
    assert_eq!(r.status, 404);
    assert!(is_empty(&r));
}

#[test]
fn update_missing_changes_nothing() {
    let mut t = ProjectTable::new();
    serve_create(&mut t, &new_req("Alpha", "First"), T);
    let r = serve_update(&mut t, 42, &modify_req("X", "Y"), T + 9);
    assert_eq!(r.status, 404);
    assert_eq!(t.len(), 1);
    let p = project_of(serve_get_by_id(&t, 1));
    assert_eq!(p.name, "Alpha");
    assert_eq!(p.description, "First");
    assert_eq!(p.updated_at, T);
    assert_eq!(serve_get_by_name(&t, &"X".to_string()).status, 404);
}

#[test]
fn delete_twice_is_ok_then_not_found() {
    let mut t = ProjectTable::new();
    serve_create(&mut t, &new_req("Alpha", "First"), T);
    serve_create(&mut t, &new_req("Beta", "Second"), T);
    assert_eq!(serve_delete(&mut t, 1).status, 200);
    assert_eq!(t.len(), 1);
    assert_eq!(serve_delete(&mut t, 1).status, 404);
    assert_eq!(t.len(), 1);
    assert_eq!(serve_get_by_id(&t, 1).status, 404);
    assert_eq!(serve_get_by_id(&t, 2).status, 200);
}

#[test]
fn identities_are_not_reused_after_delete() {
    let mut t = ProjectTable::new();
    serve_create(&mut t, &new_req("Alpha", "First"), T);
    serve_delete(&mut t, 1);
    serve_create(&mut t, &new_req("Beta", "Second"), T);
    let p = project_of(serve_get_by_name(&t, &"Beta".to_string()));
    assert_eq!(p.id, 2);
}

#[test]
fn list_has_one_projection_per_row() {
    let mut t = ProjectTable::new();
    let r = serve_list(&t);
    assert_eq!(r.status, 200);
    match r.body {
        ResponseBody::Summaries(v) => assert!(v.is_empty()),
        _ => panic!("expected projections"),
    }
    serve_create(&mut t, &new_req("Alpha", "First"), T);
    serve_create(&mut t, &new_req("Beta", "Second"), T);
    serve_create(&mut t, &new_req("Gamma", "Third"), T);
    serve_delete(&mut t, 2);
    let r = serve_list(&t);
    assert_eq!(r.status, 200);
    match r.body {
        ResponseBody::Summaries(v) => {
            assert_eq!(v.len(), 2);
            assert_eq!(v[0].id, 1);
            assert_eq!(v[0].name, "Alpha");
            assert_eq!(v[1].id, 3);
            assert_eq!(v[1].name, "Gamma");
        }
        _ => panic!("expected projections"),
    }
}

#[test]
fn update_advances_updated_at_only() {
    let mut t = ProjectTable::new();
    serve_create(&mut t, &new_req("Alpha", "First"), T);
    serve_update(&mut t, 1, &modify_req("A", "B"), T + 10);
    let r = serve_update(&mut t, 1, &modify_req("C", "D"), T + 20);
    assert_eq!(r.status, 200);
    let p = project_of(serve_get_by_id(&t, 1));
    assert_eq!(p.id, 1);
    assert_eq!(p.name, "C");
    assert_eq!(p.description, "D");
    assert_eq!(p.created_at, T);
    assert_eq!(p.updated_at, T + 20);
}

#[test]
fn store_errors_are_classified() {
    let r = list_projects(Err(StoreError::Query("relation missing".to_string())));
    assert_eq!(r.status, 500);
    match r.body {
        ResponseBody::Message(m) => assert_eq!(m, "relation missing"),
        _ => panic!("expected the store's message"),
    }
    let r = get_project_by_id(Err(StoreError::Connection("pool timed out".to_string())));
    assert_eq!(r.status, 503);
    assert!(is_empty(&r));
    assert_eq!(get_project_by_name(Err(StoreError::Query("x".to_string()))).status, 500);
    assert_eq!(create_project(Err(StoreError::Connection("x".to_string()))).status, 503);
    assert_eq!(update_project(Err(StoreError::Query("x".to_string()))).status, 500);
    assert_eq!(delete_project(Err(StoreError::Query("x".to_string()))).status, 500);
}

#[test]
fn handlers_classify_store_results() {
    let r = list_projects(Ok(vec![PartialProject { id: 4, name: "Delta".to_string() }]));
    assert_eq!(r.status, 200);
    match r.body {
        ResponseBody::Summaries(v) => assert_eq!(v[0].id, 4),
        _ => panic!("expected projections"),
    }
    assert_eq!(get_project_by_id(Ok(None)).status, 404);
    let p = Project {
        id: 3,
        name: "C".to_string(),
        description: "d".to_string(),
        created_at: 1,
        updated_at: 2,
    };
    let r = get_project_by_name(Ok(Some(p)));
    assert_eq!(r.status, 200);
    assert_eq!(project_of(r).id, 3);
    let r = create_project(Ok(1));
    assert_eq!(r.status, 201);
    assert!(is_empty(&r));
    assert_eq!(update_project(Ok(0)).status, 404);
    assert_eq!(update_project(Ok(1)).status, 200);
    assert_eq!(delete_project(Ok(0)).status, 404);
    assert_eq!(delete_project(Ok(1)).status, 200);
}

#[test]
fn statement_values_carry_the_request() {
    let n = new_project(&new_req("Alpha", "First"), T);
    assert_eq!(n.name, "Alpha");
    assert_eq!(n.created_at, T);
    assert_eq!(n.updated_at, T);
    let m = modify_project(&modify_req("Alpha2", "Updated"), T + 1);
    assert_eq!(m.description, "Updated");
    assert_eq!(m.updated_at, T + 1);
}

#[test]
fn stamped_values_use_the_clock() {
    let n = stamp_new_project(&new_req("Alpha", "First"));
    assert_eq!(n.created_at, n.updated_at);
    assert!(n.created_at > T);
    let m = stamp_modify_project(&modify_req("Alpha2", "Updated"));
    assert!(m.updated_at >= n.updated_at);
    assert_eq!(m.name, "Alpha2");
}
