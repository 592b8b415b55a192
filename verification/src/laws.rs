//! The library-wide guarantees, each proved once and for all inputs: how
//! creation normalizes its payload, that listing loses and duplicates
//! nothing, and that updates and deletes of nonexistent ids are harmless —
//! including that a deleted id never reappears under any later operation.

use vstd::prelude::*;

use crate::store::{
    apply_update, inserted_row, remaining_rows, updated_rows,
};
use crate::{norm_status, valid_status, CreateView, TaskView, UpdateView};

verus! {

/// No row of the table carries the given id.
pub open spec fn id_absent(rows: Seq<TaskView>, id: int) -> bool {
    forall|i: int| 0 <= i < rows.len() ==> (#[trigger] rows[i]).id != id
}

/// A created row stores a recognized status — one of `pending`,
/// `in_progress`, `completed` — verbatim.
pub proof fn lemma_create_status_verbatim(req: CreateView, id: int, now: Seq<char>, s: Seq<char>)
    requires
        req.status == Some(s),
        valid_status(s),
    ensures
        inserted_row(req, id, now).status == Some(s),
{
}

/// A created row stores `pending` when the payload's status is absent or
/// any string outside the closed enumeration.
pub proof fn lemma_create_status_coerced(req: CreateView, id: int, now: Seq<char>)
    requires
        match req.status {
            Some(v) => !valid_status(v),
            None => true,
        },
    ensures
        inserted_row(req, id, now).status == Some("pending"@),
{
}

/// A created row stores priority 1 when the payload omits it, and the given
/// value unchanged otherwise.
pub proof fn lemma_create_priority(req: CreateView, id: int, now: Seq<char>)
    ensures
        inserted_row(req, id, now).priority == match req.priority {
            Some(p) => p,
            None => 1,
        },
{
}

/// A create appends exactly one row — nothing is lost, nothing duplicated —
/// and every field of the new row round-trips the payload after
/// normalization; every prior row is untouched. Listing after N creates
/// therefore returns exactly N rows.
pub proof fn lemma_create_round_trip(
    rows: Seq<TaskView>,
    req: CreateView,
    id: int,
    now: Seq<char>,
)
    ensures
        rows.push(inserted_row(req, id, now)).len() == rows.len() + 1,
        forall|i: int|
            0 <= i < rows.len() ==> #[trigger] rows.push(inserted_row(req, id, now))[i]
                == rows[i],
        rows.push(inserted_row(req, id, now)).last() == (TaskView {
            id: id,
            title: req.title,
            description: Some(
                match req.description {
                    Some(d) => d,
                    None => Seq::empty(),
                },
            ),
            status: Some(norm_status(req.status)),
            priority: match req.priority {
                Some(p) => p,
                None => 1,
            },
            created_at: now,
        }),
{
}

/// A partial update aimed at an id no row carries changes nothing; together
/// with the update operation's own contract, such a call still reports
/// success.
pub proof fn lemma_update_nonexistent(rows: Seq<TaskView>, id: int, u: UpdateView)
    requires
        id_absent(rows, id),
    ensures
        updated_rows(rows, id, u) == rows,
{
    assert(updated_rows(rows, id, u) =~= rows);
}

/// A delete aimed at an id no row carries changes nothing; together with the
/// delete operation's own contract, such a call still reports success.
pub proof fn lemma_delete_nonexistent(rows: Seq<TaskView>, id: int)
    requires
        id_absent(rows, id),
    ensures
        remaining_rows(rows, id) == rows,
    decreases rows.len(),
{
    reveal(Seq::filter);
    if rows.len() > 0 {
        lemma_delete_nonexistent(rows.drop_last(), id);
        assert(remaining_rows(rows, id) =~= rows);
    } else {
        assert(remaining_rows(rows, id) =~= rows);
    }
}

/// Every survivor of a delete was a row of the original table.
pub proof fn lemma_remaining_membership(rows: Seq<TaskView>, id: int)
    ensures
        forall|i: int|
            0 <= i < remaining_rows(rows, id).len() ==> rows.contains(
                #[trigger] remaining_rows(rows, id)[i],
            ),
    decreases rows.len(),
{
    reveal(Seq::filter);
    if rows.len() > 0 {
        let prefix = rows.drop_last();
        lemma_remaining_membership(prefix, id);
        assert forall|i: int| 0 <= i < remaining_rows(rows, id).len() implies rows.contains(
            #[trigger] remaining_rows(rows, id)[i],
        ) by {
            if i < remaining_rows(prefix, id).len() {
                let k = choose|k: int|
                    0 <= k < prefix.len() && prefix[k] == remaining_rows(prefix, id)[i];
                assert(rows[k] == remaining_rows(rows, id)[i]);
            } else {
                assert(rows[rows.len() - 1] == remaining_rows(rows, id)[i]);
            }
        }
    }
}

/// Deleting an id removes it: no row of the resulting table carries it.
pub proof fn lemma_delete_removes_id(rows: Seq<TaskView>, id: int)
    ensures
        id_absent(remaining_rows(rows, id), id),
{
    assert forall|i: int| 0 <= i < remaining_rows(rows, id).len() implies (
    #[trigger] remaining_rows(rows, id)[i]).id != id by {
        rows.lemma_filter_pred(|t: TaskView| t.id != id, i);
    }
}

/// An absent id stays absent across a partial update: updates never change
/// a row's id.
pub proof fn lemma_absent_after_update(rows: Seq<TaskView>, id: int, target: int, u: UpdateView)
    requires
        id_absent(rows, id),
    ensures
        id_absent(updated_rows(rows, target, u), id),
{
    assert forall|i: int| 0 <= i < updated_rows(rows, target, u).len() implies (
    #[trigger] updated_rows(rows, target, u)[i]).id != id by {
        assert(updated_rows(rows, target, u)[i] == if rows[i].id == target {
            apply_update(rows[i], u)
        } else {
            rows[i]
        });
    }
}

/// An absent id stays absent across any further delete: deletes only remove
/// rows.
pub proof fn lemma_absent_after_delete(rows: Seq<TaskView>, id: int, target: int)
    requires
        id_absent(rows, id),
    ensures
        id_absent(remaining_rows(rows, target), id),
{
    lemma_remaining_membership(rows, target);
    assert forall|i: int| 0 <= i < remaining_rows(rows, target).len() implies (
    #[trigger] remaining_rows(rows, target)[i]).id != id by {
        let k = choose|k: int|
            0 <= k < rows.len() && rows[k] == remaining_rows(rows, target)[i];
    }
}

/// An absent id stays absent across a create that assigns a different id;
/// by well-formedness the store only ever assigns ids at or above its next
/// id, so an id below it — any id it once assigned and later deleted — never
/// reappears in a list result.
pub proof fn lemma_absent_after_insert(
    rows: Seq<TaskView>,
    id: int,
    req: CreateView,
    new_id: int,
    now: Seq<char>,
)
    requires
        id_absent(rows, id),
        new_id != id,
    ensures
        id_absent(rows.push(inserted_row(req, new_id, now)), id),
{
    assert forall|i: int| 0 <= i < rows.push(inserted_row(req, new_id, now)).len() implies (
    #[trigger] rows.push(inserted_row(req, new_id, now))[i]).id != id by {
        if i < rows.len() {
            assert(rows.push(inserted_row(req, new_id, now))[i] == rows[i]);
        }
    }
}

} // verus!
