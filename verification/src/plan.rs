//! Building the parameterized partial-update statement.
//!
//! A partial update touches only the fields present in the request, in the
//! fixed order title, description, status, priority. The builder turns a
//! request into one SQL statement whose column list carries exactly those
//! fields, plus the id predicate as the final bound parameter — everything
//! is bound, nothing is concatenated from untrusted input. An empty field
//! set never reaches the store: it is the one client error.

use vstd::prelude::*;
use vstd::string::StringExecFns;

use crate::{norm_status, normalize_status, UpdateError, UpdateTaskReq, UpdateView};

verus! {

/// One bound parameter of a statement: text or integer.
pub enum BindValue {
    Text(String),
    Int(i64),
}

/// The mathematical value of a bound parameter.
pub ghost enum BindView {
    Text(Seq<char>),
    Int(int),
}

impl View for BindValue {
    type V = BindView;

    open spec fn view(&self) -> BindView {
        match self {
            BindValue::Text(s) => BindView::Text(s@),
            BindValue::Int(p) => BindView::Int(*p as int),
        }
    }
}

/// The mathematical contents of a bind vector.
pub open spec fn binds_view(binds: Seq<BindValue>) -> Seq<BindView> {
    binds.map_values(|b: BindValue| b@)
}

/// The `column = ?` clauses a request asks for, in the fixed field order.
pub open spec fn clause_list(u: UpdateView) -> Seq<Seq<char>> {
    let s0 = Seq::<Seq<char>>::empty();
    let s1 = if u.title is Some {
        s0.push(" title = ?"@)
    } else {
        s0
    };
    let s2 = if u.description is Some {
        s1.push(" description = ?"@)
    } else {
        s1
    };
    let s3 = if u.status is Some {
        s2.push(" status = ?"@)
    } else {
        s2
    };
    if u.priority is Some {
        s3.push(" priority = ?"@)
    } else {
        s3
    }
}

/// Comma-joined concatenation of clause fragments.
pub open spec fn joined(parts: Seq<Seq<char>>) -> Seq<char>
    decreases parts.len(),
{
    if parts.len() == 0 {
        Seq::empty()
    } else if parts.len() == 1 {
        parts[0]
    } else {
        joined(parts.drop_last()) + ","@ + parts.last()
    }
}

/// The full statement text for a request: prefix, the comma-joined clause
/// list, and the trailing id predicate.
pub open spec fn update_sql(u: UpdateView) -> Seq<char> {
    "UPDATE tasks SET"@ + joined(clause_list(u)) + " WHERE id = ?"@
}

/// The bound parameters for a request, in clause order, the id last. A bound
/// status goes through the same coercion as on create.
pub open spec fn update_binds(u: UpdateView, id: int) -> Seq<BindView> {
    let s0 = Seq::<BindView>::empty();
    let s1 = if u.title is Some {
        s0.push(BindView::Text(u.title->0))
    } else {
        s0
    };
    let s2 = if u.description is Some {
        s1.push(BindView::Text(u.description->0))
    } else {
        s1
    };
    let s3 = if u.status is Some {
        s2.push(BindView::Text(norm_status(Some(u.status->0))))
    } else {
        s2
    };
    let s4 = if u.priority is Some {
        s3.push(BindView::Int(u.priority->0))
    } else {
        s3
    };
    s4.push(BindView::Int(id))
}

/// A ready-to-execute parameterized statement: the SQL text and its bound
/// parameters in order.
pub struct UpdateQuery {
    pub sql: String,
    pub binds: Vec<BindValue>,
}

/// Joins clause fragments with commas: the exact image of [`joined`].
fn join_clauses(parts: &Vec<&str>) -> (r: String)
    ensures
        r@ == joined(parts@.map_values(|s: &str| s@)),
{
    let ghost spec_parts = parts@.map_values(|s: &str| s@);
    let mut r = String::new();
    let mut i: usize = 0;
    while i < parts.len()
        invariant
            i <= parts.len(),
            spec_parts == parts@.map_values(|s: &str| s@),
            r@ == joined(spec_parts.subrange(0, i as int)),
        decreases parts.len() - i,
    {
        proof {
            let pre = spec_parts.subrange(0, i as int);
            assert(spec_parts.subrange(0, i + 1 as int).drop_last() =~= pre);
            if i == 0 {
                assert(joined(spec_parts.subrange(0, 1)) == spec_parts[0]);
                assert(r@ + spec_parts[0] =~= spec_parts[0]);
            }
        }
        if i > 0 {
            r.append(",");
        }
        r.append(parts[i]);
        i += 1;
    }
    proof {
        assert(spec_parts.subrange(0, parts@.len() as int) =~= spec_parts);
    }
    r
}

/// Builds the partial-update statement for the given id and request: the
/// clauses of exactly the present fields in fixed order, every value bound
/// as a parameter, the id bound last. An empty field set is refused without
/// building anything.
pub fn build_update_query(id: i64, req: &UpdateTaskReq) -> (r: Result<UpdateQuery, UpdateError>)
    ensures
        req@.is_empty() <==> r == Err::<UpdateQuery, UpdateError>(UpdateError::NoFieldsProvided),
        !req@.is_empty() ==> (r matches Ok(q) && q.sql@ == update_sql(req@) && binds_view(
            q.binds@,
        ) == update_binds(req@, id as int)),
{
    let mut updates: Vec<&str> = Vec::new();
    let mut binds: Vec<BindValue> = Vec::new();
    if let Some(title) = &req.title {
        updates.push(" title = ?");
        binds.push(BindValue::Text(title.clone()));
    }
    if let Some(description) = &req.description {
        updates.push(" description = ?");
        binds.push(BindValue::Text(description.clone()));
    }
    if req.status.is_some() {
        updates.push(" status = ?");
        binds.push(BindValue::Text(normalize_status(&req.status)));
    }
    if let Some(priority) = req.priority {
        updates.push(" priority = ?");
        binds.push(BindValue::Int(priority));
    }
    if updates.len() == 0 {
        return Err(UpdateError::NoFieldsProvided);
    }
    let mut sql = "UPDATE tasks SET".to_owned();
    let clauses = join_clauses(&updates);
    sql.append(clauses.as_str());
    sql.append(" WHERE id = ?");
    binds.push(BindValue::Int(id));
    proof {
        assert(updates@.map_values(|s: &str| s@) =~= clause_list(req@));
        assert(binds_view(binds@) =~= update_binds(req@, id as int));
        assert(sql@ =~= update_sql(req@));
    }
    Ok(UpdateQuery { sql, binds })
}

} // verus!
