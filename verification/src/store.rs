//! A verified model of the `tasks` table.
//!
//! [`TaskStore`] holds the rows and the next primary key, and its four
//! operations state exactly what each repository call does to the table:
//! what an insert appends (normalized status, defaulted description and
//! priority, a fresh id), which rows a partial update touches, and which rows
//! a delete removes. No existence check precedes update or delete: both
//! report success even when no row matches, exactly as a single SQL statement
//! with a `WHERE id = ?` predicate would.

use vstd::prelude::*;

use crate::{
    clone_opt_string, norm_description, norm_priority, norm_status, normalize_status,
    valid_status, CreateTaskReq, CreateView, TaskView, Tasks, UpdateError, UpdateTaskReq,
    UpdateView,
};

verus! {

/// Whether a stored status field is present and inside the closed
/// enumeration: the shape every persisted row keeps.
pub open spec fn status_ok(s: Option<Seq<char>>) -> bool {
    match s {
        Some(v) => valid_status(v),
        None => false,
    }
}

/// The mathematical contents of a row vector.
pub open spec fn rows_view(rows: Seq<Tasks>) -> Seq<TaskView> {
    rows.map_values(|t: Tasks| t@)
}

/// The row that a create request persists, given the store-assigned id and
/// insertion timestamp: status coerced, description defaulted to the empty
/// string, priority defaulted to 1.
pub open spec fn inserted_row(req: CreateView, id: int, now: Seq<char>) -> TaskView {
    TaskView {
        id: id,
        title: req.title,
        description: Some(norm_description(req.description)),
        status: Some(norm_status(req.status)),
        priority: norm_priority(req.priority),
        created_at: now,
    }
}

/// One row after a partial update: fields present in the request overwrite,
/// absent fields keep their prior values; a written status goes through the
/// same coercion as on create, so the persisted enumeration invariant holds;
/// `id` and `created_at` are immutable.
pub open spec fn apply_update(t: TaskView, u: UpdateView) -> TaskView {
    TaskView {
        id: t.id,
        title: match u.title {
            Some(v) => v,
            None => t.title,
        },
        description: match u.description {
            Some(v) => Some(v),
            None => t.description,
        },
        status: match u.status {
            Some(v) => Some(norm_status(Some(v))),
            None => t.status,
        },
        priority: match u.priority {
            Some(p) => p,
            None => t.priority,
        },
        created_at: t.created_at,
    }
}

/// The table after a partial update: every row whose id matches is updated,
/// every other row is untouched.
pub open spec fn updated_rows(rows: Seq<TaskView>, id: int, u: UpdateView) -> Seq<TaskView> {
    rows.map_values(|t: TaskView| if t.id == id { apply_update(t, u) } else { t })
}

/// The table after a delete: exactly the rows whose id differs survive.
pub open spec fn remaining_rows(rows: Seq<TaskView>, id: int) -> Seq<TaskView> {
    rows.filter(|t: TaskView| t.id != id)
}

/// Appending a row and then deleting by id keeps the row exactly when its id
/// differs: one unfolding of [`remaining_rows`].
pub proof fn lemma_remaining_push(rows: Seq<TaskView>, t: TaskView, id: int)
    ensures
        remaining_rows(rows.push(t), id) == if t.id != id {
            remaining_rows(rows, id).push(t)
        } else {
            remaining_rows(rows, id)
        },
{
    reveal(Seq::filter);
    assert(rows.push(t).drop_last() =~= rows);
}

/// What survives a delete: only rows of the original table, none with the
/// deleted id, and no two with the same id when the original had none.
pub proof fn lemma_remaining_props(rows: Seq<TaskView>, id: int)
    requires
        forall|i: int, j: int| 0 <= i < j < rows.len() ==> rows[i].id != rows[j].id,
    ensures
        forall|i: int|
            0 <= i < remaining_rows(rows, id).len() ==> rows.contains(
                #[trigger] remaining_rows(rows, id)[i],
            ),
        forall|i: int|
            0 <= i < remaining_rows(rows, id).len() ==> (#[trigger] remaining_rows(rows, id)[i]).id
                != id,
        forall|i: int, j: int|
            0 <= i < j < remaining_rows(rows, id).len() ==> remaining_rows(rows, id)[i].id
                != remaining_rows(rows, id)[j].id,
    decreases rows.len(),
{
    if rows.len() == 0 {
        reveal(Seq::filter);
    } else {
        let prefix = rows.drop_last();
        let last = rows.last();
        let out = remaining_rows(rows, id);
        let out_prefix = remaining_rows(prefix, id);
        lemma_remaining_props(prefix, id);
        assert(prefix.push(last) =~= rows);
        lemma_remaining_push(prefix, last, id);
        assert forall|i: int| 0 <= i < out.len() implies rows.contains(#[trigger] out[i]) by {
            if i < out_prefix.len() {
                let k = choose|k: int| 0 <= k < prefix.len() && prefix[k] == out_prefix[i];
                assert(rows[k] == out[i]);
            } else {
                assert(rows[rows.len() - 1] == out[i]);
            }
        }
        assert forall|i: int, j: int| 0 <= i < j < out.len() implies out[i].id != out[j].id by {
            if j < out_prefix.len() {
            } else {
                let k = choose|k: int| 0 <= k < prefix.len() && prefix[k] == out_prefix[i];
                assert(rows[k].id != last.id);
            }
        }
    }
}

/// Every status produced by normalization lies in the closed enumeration.
pub proof fn lemma_norm_status_valid(s: Option<Seq<char>>)
    ensures
        valid_status(norm_status(s)),
{
}

/// One row after a partial update, executably: the exact image of
/// [`apply_update`].
pub fn apply_update_row(t: &Tasks, u: &UpdateTaskReq) -> (r: Tasks)
    ensures
        r@ == apply_update(t@, u@),
{
    Tasks {
        id: t.id,
        title: match &u.title {
            Some(v) => v.clone(),
            None => t.title.clone(),
        },
        description: match &u.description {
            Some(v) => Some(v.clone()),
            None => clone_opt_string(&t.description),
        },
        status: match &u.status {
            Some(_) => Some(normalize_status(&u.status)),
            None => clone_opt_string(&t.status),
        },
        priority: match u.priority {
            Some(p) => p,
            None => t.priority,
        },
        created_at: t.created_at.clone(),
    }
}

/// The in-memory `tasks` table: the rows in store order, and the next id to
/// assign.
pub struct TaskStore {
    pub rows: Vec<Tasks>,
    pub next_id: i64,
}

impl View for TaskStore {
    type V = Seq<TaskView>;

    open spec fn view(&self) -> Seq<TaskView> {
        rows_view(self.rows@)
    }
}

impl TaskStore {
    /// Well-formedness of the table: ids are positive, unique, and below the
    /// next id to assign, and every persisted status is one of the three
    /// enumerated values. Every operation preserves this.
    pub open spec fn wf(&self) -> bool {
        &&& 1 <= self.next_id
        &&& forall|i: int|
            0 <= i < self@.len() ==> 1 <= (#[trigger] self@[i]).id < self.next_id
        &&& forall|i: int, j: int|
            0 <= i < j < self@.len() ==> self@[i].id != self@[j].id
        &&& forall|i: int| 0 <= i < self@.len() ==> status_ok((#[trigger] self@[i]).status)
    }

    /// An empty table, about to assign id 1.
    pub fn new() -> (r: TaskStore)
        ensures
            r.wf(),
            r@ == Seq::<TaskView>::empty(),
            r.next_id == 1,
    {
        let r = TaskStore { rows: Vec::new(), next_id: 1 };
        proof {
            assert(r@ =~= Seq::<TaskView>::empty());
        }
        r
    }

    /// Every row of the table, in store order. Listing never changes the
    /// table.
    pub fn list_all(&self) -> (r: Vec<Tasks>)
        ensures
            rows_view(r@) == self@,
    {
        let mut out: Vec<Tasks> = Vec::new();
        let mut i: usize = 0;
        while i < self.rows.len()
            invariant
                i <= self.rows.len(),
                out@.len() == i,
                forall|j: int| 0 <= j < i ==> (#[trigger] out@[j])@ == self@[j],
            decreases self.rows.len() - i,
        {
            out.push(self.rows[i].clone());
            i += 1;
        }
        proof {
            assert(rows_view(out@) =~= self@);
        }
        out
    }

    /// Persists one new row built from the create request: the store assigns
    /// the next id and the given insertion timestamp, and the row's fields
    /// are the request's after normalization. Exactly one row is appended;
    /// no existing row changes.
    pub fn insert(&mut self, req: CreateTaskReq, now: String)
        requires
            old(self).wf(),
            old(self).next_id < i64::MAX,
        ensures
            final(self).wf(),
            final(self)@ == old(self)@.push(
                inserted_row(req@, old(self).next_id as int, now@),
            ),
            final(self).next_id == old(self).next_id + 1,
    {
        let id = self.next_id;
        let description = match req.description {
            Some(d) => d,
            None => String::new(),
        };
        let status = normalize_status(&req.status);
        let priority = match req.priority {
            Some(p) => p,
            None => 1,
        };
        let row = Tasks {
            id,
            title: req.title,
            description: Some(description),
            status: Some(status),
            priority,
            created_at: now,
        };
        proof {
            lemma_norm_status_valid(req@.status);
        }
        self.rows.push(row);
        self.next_id = id + 1;
        proof {
            assert(self@ =~= old(self)@.push(
                inserted_row(req@, old(self).next_id as int, now@),
            ));
        }
    }

    /// Applies a partial update to every row whose id matches (at most one,
    /// by well-formedness). An empty field set is the one client error and
    /// leaves the table untouched; a nonexistent id is not an error — zero
    /// rows change and the call still reports success.
    pub fn update_partial(&mut self, id: i64, req: &UpdateTaskReq) -> (r: Result<
        (),
        UpdateError,
    >)
        requires
            old(self).wf(),
        ensures
            final(self).wf(),
            final(self).next_id == old(self).next_id,
            req@.is_empty() ==> r == Err::<(), UpdateError>(UpdateError::NoFieldsProvided)
                && *final(self) == *old(self),
            !req@.is_empty() ==> r == Ok::<(), UpdateError>(())
                && final(self)@ == updated_rows(old(self)@, id as int, req@),
    {
        if req.title.is_none() && req.description.is_none() && req.status.is_none()
            && req.priority.is_none() {
            return Err(UpdateError::NoFieldsProvided);
        }
        let mut out: Vec<Tasks> = Vec::new();
        let mut i: usize = 0;
        while i < self.rows.len()
            invariant
                self == old(self),
                i <= self.rows.len(),
                out@.len() == i,
                forall|j: int|
                    0 <= j < i ==> (#[trigger] out@[j])@ == (if old(self)@[j].id == id {
                        apply_update(old(self)@[j], req@)
                    } else {
                        old(self)@[j]
                    }),
            decreases self.rows.len() - i,
        {
            let t = &self.rows[i];
            if t.id == id {
                out.push(apply_update_row(t, req));
            } else {
                out.push(t.clone());
            }
            i += 1;
        }
        self.rows = out;
        proof {
            assert(self@ =~= updated_rows(old(self)@, id as int, req@));
            assert forall|k: int| 0 <= k < self@.len() implies status_ok(
                (#[trigger] self@[k]).status,
            ) by {
                if old(self)@[k].id == id {
                    if req@.status is Some {
                        lemma_norm_status_valid(Some(req@.status->0));
                    }
                }
            }
        }
        Ok(())
    }

    /// Deletes every row whose id matches (at most one, by well-formedness).
    /// A nonexistent id is not an error: zero rows are removed and the call
    /// still reports success. The next id never moves backwards, so a deleted
    /// id is never handed out again.
    pub fn delete_by_id(&mut self, id: i64)
        requires
            old(self).wf(),
        ensures
            final(self).wf(),
            final(self).next_id == old(self).next_id,
            final(self)@ == remaining_rows(old(self)@, id as int),
    {
        let mut out: Vec<Tasks> = Vec::new();
        let mut i: usize = 0;
        while i < self.rows.len()
            invariant
                self == old(self),
                i <= self.rows.len(),
                rows_view(out@) == remaining_rows(old(self)@.subrange(0, i as int), id as int),
            decreases self.rows.len() - i,
        {
            let ghost prefix = old(self)@.subrange(0, i as int);
            let ghost t_view = old(self)@[i as int];
            let t = &self.rows[i];
            proof {
                assert(old(self)@.subrange(0, i + 1 as int) =~= prefix.push(t_view));
                lemma_remaining_push(prefix, t_view, id as int);
            }
            if t.id != id {
                out.push(t.clone());
                proof {
                    assert(rows_view(out@) =~= remaining_rows(prefix, id as int).push(t_view));
                }
            }
            i += 1;
        }
        self.rows = out;
        proof {
            assert(old(self)@.subrange(0, old(self)@.len() as int) =~= old(self)@);
            lemma_remaining_props(old(self)@, id as int);
            assert forall|k: int| 0 <= k < self@.len() implies 1 <= (#[trigger] self@[k]).id
                < self.next_id && status_ok(self@[k].status) by {
                let m = choose|m: int|
                    0 <= m < old(self)@.len() && old(self)@[m] == remaining_rows(
                        old(self)@,
                        id as int,
                    )[k];
            }
        }
    }
}

} // verus!
