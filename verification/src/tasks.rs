//! The four request handlers: list, create, partial update, delete.
//!
//! Each handler performs its store operation and shapes the uniform response
//! envelope `{success, data | error | message}` together with the HTTP status
//! code. Store failures cannot arise in the verified model; a SQL backend
//! that hits one hands its message to [`store_failure_response`]. One policy
//! is used for every failure — HTTP 500, `success` false, the store's text
//! under `error` — where the behaviour was historically inconsistent between
//! endpoints.

use vstd::prelude::*;

use crate::store::{inserted_row, remaining_rows, rows_view, updated_rows, TaskStore};
use crate::{opt_str_view, CreateTaskReq, TaskView, Tasks, UpdateError, UpdateTaskReq};

verus! {

/// The uniform response envelope with its HTTP status code. At most one of
/// `data`, `error` and `message` is present.
pub struct ApiResponse {
    pub status: u16,
    pub success: bool,
    pub data: Option<Vec<Tasks>>,
    pub error: Option<String>,
    pub message: Option<String>,
}

/// The mathematical value of an envelope's optional row list.
pub open spec fn opt_rows_view(o: Option<Vec<Tasks>>) -> Option<Seq<TaskView>> {
    match o {
        Some(rows) => Some(rows_view(rows@)),
        None => None,
    }
}

/// The bare success envelope: HTTP 200 and `{"success": true}`, nothing
/// echoed back.
pub fn success_response() -> (r: ApiResponse)
    ensures
        r.status == 200,
        r.success,
        r.data is None,
        r.error is None,
        r.message is None,
{
    ApiResponse { status: 200, success: true, data: None, error: None, message: None }
}

/// The success envelope of a listing: HTTP 200 with `data` holding the given
/// rows, in their order, every field as stored.
pub fn list_response(rows: Vec<Tasks>) -> (r: ApiResponse)
    ensures
        r.status == 200,
        r.success,
        opt_rows_view(r.data) == Some(rows_view(rows@)),
        r.error is None,
        r.message is None,
{
    ApiResponse { status: 200, success: true, data: Some(rows), error: None, message: None }
}

/// The envelope of the one client error: HTTP 400, `success` false, and the
/// fixed no-fields message.
pub fn no_fields_response() -> (r: ApiResponse)
    ensures
        r.status == 400,
        !r.success,
        r.data is None,
        r.error is None,
        opt_str_view(r.message) == Some("No fields to update"@),
{
    ApiResponse {
        status: 400,
        success: false,
        data: None,
        error: None,
        message: Some("No fields to update".to_owned()),
    }
}

/// Lists every task: HTTP 200 with `data` holding all rows in store order.
/// The store is not changed.
pub fn get_tasks(store: &TaskStore) -> (r: ApiResponse)
    ensures
        r.status == 200,
        r.success,
        opt_rows_view(r.data) == Some(store@),
        r.error is None,
        r.message is None,
{
    list_response(store.list_all())
}

/// Creates one task from the request: the store appends exactly one row with
/// the normalized fields and a fresh id, and the handler answers HTTP 200
/// with the bare success envelope — the created row is not echoed back.
pub fn create_task(store: &mut TaskStore, req: CreateTaskReq, now: String) -> (r: ApiResponse)
    requires
        old(store).wf(),
        old(store).next_id < i64::MAX,
    ensures
        final(store).wf(),
        final(store)@ == old(store)@.push(inserted_row(req@, old(store).next_id as int, now@)),
        final(store).next_id == old(store).next_id + 1,
        r.status == 200,
        r.success,
        r.data is None,
        r.error is None,
        r.message is None,
{
    store.insert(req, now);
    success_response()
}

/// Partially updates the task with the given id. An empty field set is the
/// one client error: HTTP 400, `success` false, the message below, and an
/// untouched store. Otherwise every matching row (at most one) takes the
/// given fields and the handler answers HTTP 200; a nonexistent id changes
/// nothing and still succeeds.
pub fn update_task(store: &mut TaskStore, id: i64, req: UpdateTaskReq) -> (r: ApiResponse)
    requires
        old(store).wf(),
    ensures
        final(store).wf(),
        final(store).next_id == old(store).next_id,
        req@.is_empty() ==> *final(store) == *old(store) && r.status == 400 && !r.success
            && r.data is None && r.error is None && opt_str_view(r.message) == Some(
            "No fields to update"@,
        ),
        !req@.is_empty() ==> final(store)@ == updated_rows(old(store)@, id as int, req@)
            && r.status == 200 && r.success && r.data is None && r.error is None
            && r.message is None,
{
    match store.update_partial(id, &req) {
        Ok(()) => success_response(),
        Err(UpdateError::NoFieldsProvided) => no_fields_response(),
    }
}

/// Deletes the task with the given id: HTTP 200 with the bare success
/// envelope, whether or not a row matched — a nonexistent id removes nothing
/// and still succeeds.
pub fn delete_task(store: &mut TaskStore, id: i64) -> (r: ApiResponse)
    requires
        old(store).wf(),
    ensures
        final(store).wf(),
        final(store).next_id == old(store).next_id,
        final(store)@ == remaining_rows(old(store)@, id as int),
        r.status == 200,
        r.success,
        r.data is None,
        r.error is None,
        r.message is None,
{
    store.delete_by_id(id);
    success_response()
}

/// The envelope for any store failure, reported by a backend as message
/// text: HTTP 500, `success` false, the text exposed verbatim under `error`.
pub fn store_failure_response(error: String) -> (r: ApiResponse)
    ensures
        r.status == 500,
        !r.success,
        r.data is None,
        opt_str_view(r.error) == Some(error@),
        r.message is None,
{
    ApiResponse { status: 500, success: false, data: None, error: Some(error), message: None }
}

} // verus!
