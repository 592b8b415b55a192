use task_manager_sql::store::TaskStore;
use task_manager_sql::tasks::{
    create_task, delete_task, get_tasks, store_failure_response, update_task,
};
use task_manager_sql::{CreateTaskReq, UpdateTaskReq};

fn create_req(
    title: &str,
    description: Option<&str>,
    status: Option<&str>,
    priority: Option<i64>,
) -> CreateTaskReq {
    CreateTaskReq {
        title: title.to_owned(),
        description: description.map(|s| s.to_owned()),
        status: status.map(|s| s.to_owned()),
        priority,
    }
}

fn empty_update() -> UpdateTaskReq {
    UpdateTaskReq { title: None, description: None, status: None, priority: None }
}

#[test]
fn create_stores_recognized_status_verbatim() {
    for status in ["pending", "in_progress", "completed"] {
        let mut store = TaskStore::new();
        let r = create_task(
            &mut store,
            create_req("t", None, Some(status), None),
            "2024-01-01 00:00:00".to_owned(),
        );
        assert_eq!(r.status, 200);
        assert!(r.success);
        let rows = store.list_all();
        assert_eq!(rows.len(), 1);
        assert_eq!(rows[0].status.as_deref(), Some(status));
    }
}

#[test]
fn create_coerces_absent_or_unrecognized_status_to_pending() {
    for status in [None, Some("bogus"), Some("PENDING"), Some("done"), Some("")] {
        let mut store = TaskStore::new();
        create_task(
            &mut store,
            create_req("t", None, status, None),
            "2024-01-01 00:00:00".to_owned(),
        );
        let rows = store.list_all();
        assert_eq!(rows[0].status.as_deref(), Some("pending"));
    }
}

#[test]
fn create_defaults_priority_to_one_and_keeps_given_priority() {
    let mut store = TaskStore::new();
    create_task(&mut store, create_req("a", None, None, None), "now".to_owned());
    create_task(&mut store, create_req("b", None, None, Some(42)), "now".to_owned());
    create_task(&mut store, create_req("c", None, None, Some(-3)), "now".to_owned());
    let rows = store.list_all();
    assert_eq!(rows[0].priority, 1);
    assert_eq!(rows[1].priority, 42);
    assert_eq!(rows[2].priority, -3);
}

#[test]
fn create_defaults_description_to_empty_string() {
    let mut store = TaskStore::new();
    create_task(&mut store, create_req("a", None, None, None), "now".to_owned());
    create_task(&mut store, create_req("b", Some("details"), None, None), "now".to_owned());
    let rows = store.list_all();
    assert_eq!(rows[0].description.as_deref(), Some(""));
    assert_eq!(rows[1].description.as_deref(), Some("details"));
}

#[test]
fn listing_after_n_creates_returns_n_round_tripping_rows() {
    let mut store = TaskStore::new();
    let n: i64 = 5;
    for k in 0..n {
        let title = format!("task {k}");
        create_task(
            &mut store,
            create_req(&title, Some("d"), Some("completed"), Some(k)),
            format!("2024-01-0{} 12:00:00", k + 1),
        );
    }
    let r = get_tasks(&store);
    assert_eq!(r.status, 200);
    assert!(r.success);
    let rows = r.data.expect("list carries data");
    assert_eq!(rows.len(), n as usize);
    for (k, row) in rows.iter().enumerate() {
        assert_eq!(row.id, k as i64 + 1);
        assert_eq!(row.title, format!("task {k}"));
        assert_eq!(row.description.as_deref(), Some("d"));
        assert_eq!(row.status.as_deref(), Some("completed"));
        assert_eq!(row.priority, k as i64);
        assert_eq!(row.created_at, format!("2024-01-0{} 12:00:00", k + 1));
    }
}

#[test]
fn empty_update_is_client_error_and_leaves_store_unchanged() {
    let mut store = TaskStore::new();
    create_task(&mut store, create_req("t", None, None, None), "now".to_owned());
    let before = store.list_all();
    let r = update_task(&mut store, 1, empty_update());
    assert_eq!(r.status, 400);
    assert!(!r.success);
    assert_eq!(r.message.as_deref(), Some("No fields to update"));
    assert!(r.error.is_none());
    assert!(r.data.is_none());
    let after = store.list_all();
    assert_eq!(after.len(), before.len());
    assert_eq!(after[0].title, before[0].title);
    assert_eq!(after[0].status, before[0].status);
}

#[test]
fn update_of_nonexistent_id_succeeds_and_changes_nothing() {
    let mut store = TaskStore::new();
    create_task(&mut store, create_req("t", None, None, None), "now".to_owned());
    let mut req = empty_update();
    req.title = Some("other".to_owned());
    let r = update_task(&mut store, 99, req);
    assert_eq!(r.status, 200);
    assert!(r.success);
    let rows = store.list_all();
    assert_eq!(rows.len(), 1);
    assert_eq!(rows[0].title, "t");
}

#[test]
fn update_overwrites_present_fields_and_keeps_absent_ones() {
    let mut store = TaskStore::new();
    create_task(
        &mut store,
        create_req("t", Some("d"), Some("in_progress"), Some(3)),
        "now".to_owned(),
    );
    let mut req = empty_update();
    req.title = Some("t2".to_owned());
    req.priority = Some(9);
    let r = update_task(&mut store, 1, req);
    assert_eq!(r.status, 200);
    assert!(r.success);
    let rows = store.list_all();
    assert_eq!(rows[0].title, "t2");
    assert_eq!(rows[0].description.as_deref(), Some("d"));
    assert_eq!(rows[0].status.as_deref(), Some("in_progress"));
    assert_eq!(rows[0].priority, 9);
    assert_eq!(rows[0].created_at, "now");
    assert_eq!(rows[0].id, 1);
}

#[test]
fn update_coerces_unrecognized_status_like_create() {
    let mut store = TaskStore::new();
    create_task(&mut store, create_req("t", None, Some("completed"), None), "now".to_owned());
    let mut req = empty_update();
    req.status = Some("nonsense".to_owned());
    update_task(&mut store, 1, req);
    let rows = store.list_all();
    assert_eq!(rows[0].status.as_deref(), Some("pending"));
}

#[test]
fn delete_of_nonexistent_id_succeeds_and_changes_nothing() {
    let mut store = TaskStore::new();
    create_task(&mut store, create_req("t", None, None, None), "now".to_owned());
    let r = delete_task(&mut store, 42);
    assert_eq!(r.status, 200);
    assert!(r.success);
    let rows = store.list_all();
    assert_eq!(rows.len(), 1);
    assert_eq!(rows[0].title, "t");
}

#[test]
fn deleted_id_never_reappears_in_later_listings() {
    let mut store = TaskStore::new();
    create_task(&mut store, create_req("a", None, None, None), "now".to_owned());
    create_task(&mut store, create_req("b", None, None, None), "now".to_owned());
    delete_task(&mut store, 1);
    assert!(store.list_all().iter().all(|t| t.id != 1));
    create_task(&mut store, create_req("c", None, None, None), "now".to_owned());
    let mut req = empty_update();
    req.title = Some("b2".to_owned());
    update_task(&mut store, 2, req);
    delete_task(&mut store, 3);
    let rows = store.list_all();
    assert!(rows.iter().all(|t| t.id != 1));
    assert_eq!(rows.len(), 1);
    assert_eq!(rows[0].id, 2);
    assert_eq!(rows[0].title, "b2");
}

#[test]
fn end_to_end_scenario() {
    let mut store = TaskStore::new();
    let r = create_task(
        &mut store,
        create_req("Buy milk", None, None, None),
        "2024-06-01 09:30:00".to_owned(),
    );
    assert_eq!(r.status, 200);
    assert!(r.success);

    let r = get_tasks(&store);
    let rows = r.data.expect("list carries data");
    assert_eq!(rows.len(), 1);
    assert_eq!(rows[0].title, "Buy milk");
    assert_eq!(rows[0].description.as_deref(), Some(""));
    assert_eq!(rows[0].status.as_deref(), Some("pending"));
    assert_eq!(rows[0].priority, 1);
    assert!(!rows[0].created_at.is_empty());

    let mut req = empty_update();
    req.status = Some("completed".to_owned());
    let r = update_task(&mut store, 1, req);
    assert_eq!(r.status, 200);
    assert!(r.success);

    let r = get_tasks(&store);
    let rows = r.data.expect("list carries data");
    assert_eq!(rows.len(), 1);
    assert_eq!(rows[0].status.as_deref(), Some("completed"));
    assert_eq!(rows[0].title, "Buy milk");
    assert_eq!(rows[0].description.as_deref(), Some(""));
    assert_eq!(rows[0].priority, 1);
    assert_eq!(rows[0].created_at, "2024-06-01 09:30:00");

    let r = delete_task(&mut store, 1);
    assert_eq!(r.status, 200);
    assert!(r.success);

    let r = get_tasks(&store);
    assert!(r.data.expect("list carries data").is_empty());
}

#[test]
fn store_failure_envelope_is_consistent() {
    let r = store_failure_response("connection reset".to_owned());
    assert_eq!(r.status, 500);
    assert!(!r.success);
    assert_eq!(r.error.as_deref(), Some("connection reset"));
    assert!(r.data.is_none());
    assert!(r.message.is_none());
}
