//! A small task-management library: a single `tasks` table holding to-do
//! records, with create, list, partial-update and delete operations.
//!
//! The heart of the crate is a verified model of the table ([`store`]) and of
//! the four request handlers ([`tasks`]): what a create stores (status coerced
//! into a closed enumeration, defaults filled in), what a partial update
//! touches, and what a delete removes. The [`plan`] module builds the
//! parameterized update statement that a SQL backend executes.

use vstd::prelude::*;

pub mod laws;
pub mod plan;
pub mod store;
pub mod tasks;

verus! {

/// The one client error of the repository: a partial update whose field set
/// is empty. Store failures are not a library concern; a backend reports them
/// as text and [`tasks::store_failure_response`] shapes the envelope.
#[derive(Debug)]
pub enum UpdateError {
    NoFieldsProvided,
}

/// A persisted task row, as the store returns it.
///
/// `id` is assigned by the store and unique; `created_at` is the insertion
/// timestamp rendered as text, set once and never updated.
pub struct Tasks {
    pub id: i64,
    pub title: String,
    pub description: Option<String>,
    pub status: Option<String>,
    pub priority: i64,
    pub created_at: String,
}

/// The body of a create request. Only `title` is required; the other fields
/// fall back to documented defaults when absent.
pub struct CreateTaskReq {
    pub title: String,
    pub description: Option<String>,
    pub status: Option<String>,
    pub priority: Option<i64>,
}

/// The body of a partial-update request: any subset of the mutable fields.
pub struct UpdateTaskReq {
    pub title: Option<String>,
    pub description: Option<String>,
    pub status: Option<String>,
    pub priority: Option<i64>,
}

/// The mathematical value of a stored row.
pub ghost struct TaskView {
    pub id: int,
    pub title: Seq<char>,
    pub description: Option<Seq<char>>,
    pub status: Option<Seq<char>>,
    pub priority: int,
    pub created_at: Seq<char>,
}

/// The mathematical value of a create request.
pub ghost struct CreateView {
    pub title: Seq<char>,
    pub description: Option<Seq<char>>,
    pub status: Option<Seq<char>>,
    pub priority: Option<int>,
}

/// The mathematical value of a partial-update request.
pub ghost struct UpdateView {
    pub title: Option<Seq<char>>,
    pub description: Option<Seq<char>>,
    pub status: Option<Seq<char>>,
    pub priority: Option<int>,
}

pub open spec fn opt_str_view(o: Option<String>) -> Option<Seq<char>> {
    match o {
        Some(s) => Some(s@),
        None => None,
    }
}

pub open spec fn opt_int_view(o: Option<i64>) -> Option<int> {
    match o {
        Some(p) => Some(p as int),
        None => None,
    }
}

impl View for Tasks {
    type V = TaskView;

    open spec fn view(&self) -> TaskView {
        TaskView {
            id: self.id as int,
            title: self.title@,
            description: opt_str_view(self.description),
            status: opt_str_view(self.status),
            priority: self.priority as int,
            created_at: self.created_at@,
        }
    }
}

impl View for CreateTaskReq {
    type V = CreateView;

    open spec fn view(&self) -> CreateView {
        CreateView {
            title: self.title@,
            description: opt_str_view(self.description),
            status: opt_str_view(self.status),
            priority: opt_int_view(self.priority),
        }
    }
}

impl View for UpdateTaskReq {
    type V = UpdateView;

    open spec fn view(&self) -> UpdateView {
        UpdateView {
            title: opt_str_view(self.title),
            description: opt_str_view(self.description),
            status: opt_str_view(self.status),
            priority: opt_int_view(self.priority),
        }
    }
}

impl UpdateView {
    /// An update request with no fields at all: the one client error.
    pub open spec fn is_empty(self) -> bool {
        self.title is None && self.description is None && self.status is None
            && self.priority is None
    }
}

/// The closed status enumeration: the only values ever persisted.
pub open spec fn valid_status(s: Seq<char>) -> bool {
    s == "pending"@ || s == "in_progress"@ || s == "completed"@
}

/// Status normalization: a recognized value passes through verbatim, anything
/// else — an absent field included — is coerced to `pending`. The coercion of
/// unrecognized values is a deliberate permissiveness policy, not validation.
pub open spec fn norm_status(s: Option<Seq<char>>) -> Seq<char> {
    match s {
        Some(v) => if v == "in_progress"@ {
            v
        } else if v == "completed"@ {
            v
        } else {
            "pending"@
        },
        None => "pending"@,
    }
}

/// An absent description is stored as the empty string.
pub open spec fn norm_description(d: Option<Seq<char>>) -> Seq<char> {
    match d {
        Some(v) => v,
        None => Seq::empty(),
    }
}

/// An absent priority defaults to 1; a present one is stored unchanged, with
/// no range check.
pub open spec fn norm_priority(p: Option<int>) -> int {
    match p {
        Some(v) => v,
        None => 1,
    }
}

/// Copies an optional string, keeping its mathematical value.
pub fn clone_opt_string(o: &Option<String>) -> (r: Option<String>)
    ensures
        opt_str_view(r) == opt_str_view(*o),
{
    match o {
        Some(s) => Some(s.clone()),
        None => None,
    }
}

impl Clone for Tasks {
    /// A copy of a row denotes the same [`TaskView`].
    fn clone(&self) -> (r: Self)
        ensures
            r@ == self@,
    {
        Tasks {
            id: self.id,
            title: self.title.clone(),
            description: clone_opt_string(&self.description),
            status: clone_opt_string(&self.status),
            priority: self.priority,
            created_at: self.created_at.clone(),
        }
    }
}

/// Executable status normalization, the exact coercion of [`norm_status`].
pub fn normalize_status(status: &Option<String>) -> (r: String)
    ensures
        r@ == norm_status(opt_str_view(*status)),
{
    match status {
        Some(value) => {
            if *value == "in_progress".to_owned() {
                "in_progress".to_owned()
            } else if *value == "completed".to_owned() {
                "completed".to_owned()
            } else {
                "pending".to_owned()
            }
        },
        None => "pending".to_owned(),
    }
}

/// Executable description normalization, the exact default of
/// [`norm_description`].
pub fn normalize_description(description: Option<String>) -> (r: String)
    ensures
        r@ == norm_description(opt_str_view(description)),
{
    match description {
        Some(d) => d,
        None => String::new(),
    }
}

/// Executable priority normalization, the exact default of
/// [`norm_priority`].
pub fn normalize_priority(priority: Option<i64>) -> (r: i64)
    ensures
        r as int == norm_priority(opt_int_view(priority)),
{
    match priority {
        Some(p) => p,
        None => 1,
    }
}

} // verus!
