//! In-process reconstruction of the relational listing: the backend
//! scans one left-outer-join of work types against their attribute
//! definitions, and this module folds the flat rows back into one
//! record per work type, in first-appearance order.
//!
//! A work type with no attribute definitions arrives as a single row
//! whose attribute columns are all absent, so it appears exactly once
//! in the result, with an empty attribute collection.  An attribute
//! row whose columns are incomplete, or whose data-type token is not
//! a valid wire form, contributes no attribute.

use vstd::prelude::*;
use crate::companies::models::{clone_opt, opt_view};
use crate::text::str_eq;
use crate::worktypes::models::{DataType, WorkAttributeType, WorkAttributeTypeV, WorkType, WorkTypeV};

verus! {

/// One row of the left-outer-join scan, as plain values.  The
/// attribute columns are absent when the work type owns no attribute
/// definitions.
pub struct WorkTypeRow {
    pub work_type_id: String,
    pub title: String,
    pub description: Option<String>,
    pub work_type_created_at: i64,
    pub work_type_updated_at: i64,
    pub attribute_id: Option<String>,
    pub attribute_name: Option<String>,
    pub data_type: Option<String>,
    pub is_required: Option<bool>,
    pub is_hidden: Option<bool>,
    pub attribute_created_at: Option<i64>,
    pub attribute_updated_at: Option<i64>,
}

/// The mathematical value of a [`WorkTypeRow`].
pub ghost struct WorkTypeRowV {
    pub work_type_id: Seq<char>,
    pub title: Seq<char>,
    pub description: Option<Seq<char>>,
    pub work_type_created_at: int,
    pub work_type_updated_at: int,
    pub attribute_id: Option<Seq<char>>,
    pub attribute_name: Option<Seq<char>>,
    pub data_type: Option<Seq<char>>,
    pub is_required: Option<bool>,
    pub is_hidden: Option<bool>,
    pub attribute_created_at: Option<int>,
    pub attribute_updated_at: Option<int>,
}

/// The value of an optional instant column.
pub open spec fn opt_int(o: Option<i64>) -> Option<int> {
    match o {
        Some(t) => Some(t as int),
        None => None,
    }
}

impl View for WorkTypeRow {
    type V = WorkTypeRowV;

    open spec fn view(&self) -> WorkTypeRowV {
        WorkTypeRowV {
            work_type_id: self.work_type_id@,
            title: self.title@,
            description: opt_view(self.description),
            work_type_created_at: self.work_type_created_at as int,
            work_type_updated_at: self.work_type_updated_at as int,
            attribute_id: opt_view(self.attribute_id),
            attribute_name: opt_view(self.attribute_name),
            data_type: opt_view(self.data_type),
            is_required: self.is_required,
            is_hidden: self.is_hidden,
            attribute_created_at: opt_int(self.attribute_created_at),
            attribute_updated_at: opt_int(self.attribute_updated_at),
        }
    }
}

/// The attribute definition a row carries: present exactly when every
/// attribute column is present and the data-type token is a valid
/// wire form.
pub open spec fn row_attr(r: WorkTypeRowV) -> Option<WorkAttributeTypeV> {
    if r.attribute_id is Some && r.attribute_name is Some && r.data_type is Some
        && DataType::spec_valid_token(r.data_type->Some_0) && r.is_required is Some
        && r.is_hidden is Some && r.attribute_created_at is Some
        && r.attribute_updated_at is Some {
        Some(
            WorkAttributeTypeV {
                id: r.attribute_id->Some_0,
                name: r.attribute_name->Some_0,
                data_type: DataType::spec_of_token(r.data_type->Some_0),
                is_required: r.is_required->Some_0,
                is_hidden: r.is_hidden->Some_0,
                created_at: r.attribute_created_at->Some_0,
                updated_at: r.attribute_updated_at->Some_0,
            },
        )
    } else {
        None
    }
}

/// The work-type record a row opens: its header columns and no
/// attributes yet.
pub open spec fn row_header(r: WorkTypeRowV) -> WorkTypeV {
    WorkTypeV {
        id: r.work_type_id,
        title: r.title,
        description: r.description,
        attributes: Seq::empty(),
        created_at: r.work_type_created_at,
        updated_at: r.work_type_updated_at,
    }
}

/// Whether the accumulated result already holds the work type.
pub open spec fn holds_id(ws: Seq<WorkTypeV>, id: Seq<char>) -> bool {
    exists|i: int| 0 <= i < ws.len() && ws[i].id == id
}

/// The grouped result of the flat scan: each row either appends its
/// attribute (if it carries one) to the record its work-type
/// identifier already opened, or opens that record.
pub open spec fn group_rows(rows: Seq<WorkTypeRowV>) -> Seq<WorkTypeV>
    decreases rows.len(),
{
    if rows.len() == 0 {
        Seq::empty()
    } else {
        let prev = group_rows(rows.drop_last());
        let r = rows.last();
        if holds_id(prev, r.work_type_id) {
            let i = choose|i: int| 0 <= i < prev.len() && prev[i].id == r.work_type_id;
            match row_attr(r) {
                Some(a) => prev.update(
                    i,
                    WorkTypeV { attributes: prev[i].attributes.push(a), ..prev[i] },
                ),
                None => prev,
            }
        } else {
            match row_attr(r) {
                Some(a) => prev.push(
                    WorkTypeV { attributes: Seq::empty().push(a), ..row_header(r) },
                ),
                None => prev.push(row_header(r)),
            }
        }
    }
}

/// Every work type appears exactly once in the grouped result,
/// however many rows the scan produced for it — in particular a work
/// type with no attribute definitions, whose single row carries no
/// attribute columns, still appears exactly once.
pub proof fn lemma_group_rows_ids_unique(rows: Seq<WorkTypeRowV>)
    ensures
        forall|p: int, q: int|
            0 <= p < q < group_rows(rows).len() ==> group_rows(rows)[p].id != group_rows(
                rows,
            )[q].id,
    decreases rows.len(),
{
    if rows.len() > 0 {
        let prev = group_rows(rows.drop_last());
        let r = rows.last();
        lemma_group_rows_ids_unique(rows.drop_last());
        if holds_id(prev, r.work_type_id) {
            let i = choose|i: int| 0 <= i < prev.len() && prev[i].id == r.work_type_id;
            assert forall|p: int, q: int|
                0 <= p < q < group_rows(rows).len() implies group_rows(rows)[p].id != group_rows(
                rows,
            )[q].id by {
                assert(group_rows(rows)[p].id == prev[p].id);
                assert(group_rows(rows)[q].id == prev[q].id);
            }
        }
    }
}

/// Parses the attribute columns of one row, exactly as [`row_attr`]
/// describes them.
fn parse_row_attr(row: &WorkTypeRow) -> (r: Option<WorkAttributeType>)
    ensures
        (r is Some) == (row_attr(row@) is Some),
        r matches Some(a) ==> row_attr(row@) == Some(a@),
{
    match (&row.attribute_id, &row.attribute_name, &row.data_type) {
        (Some(id), Some(name), Some(token)) => {
            match (
                DataType::from_str(token.as_str()),
                &row.is_required,
                &row.is_hidden,
                &row.attribute_created_at,
                &row.attribute_updated_at,
            ) {
                (Ok(data_type), Some(required), Some(hidden), Some(created), Some(updated)) => {
                    proof {
                        reveal_strlit("string");
                        reveal_strlit("numeric");
                        assert("string"@.len() == 6);
                        assert("numeric"@.len() == 7);
                    }
                    Some(
                        WorkAttributeType {
                            id: id.clone(),
                            name: name.clone(),
                            data_type,
                            is_required: *required,
                            is_hidden: *hidden,
                            created_at: *created,
                            updated_at: *updated,
                        },
                    )
                }
                _ => None,
            }
        }
        _ => None,
    }
}

/// Copies an attribute definition value for value.
impl WorkAttributeType {
    pub fn clone_record(&self) -> (a: WorkAttributeType)
        ensures
            a@ == self@,
    {
        WorkAttributeType {
            id: self.id.clone(),
            name: self.name.clone(),
            data_type: self.data_type,
            is_required: self.is_required,
            is_hidden: self.is_hidden,
            created_at: self.created_at,
            updated_at: self.updated_at,
        }
    }
}

/// Copies an attribute collection value for value.
fn clone_attrs(attrs: &Vec<WorkAttributeType>) -> (r: Vec<WorkAttributeType>)
    ensures
        r@.map_values(|a: WorkAttributeType| a@) == attrs@.map_values(
            |a: WorkAttributeType| a@,
        ),
{
    let mut out: Vec<WorkAttributeType> = Vec::new();
    let mut i: usize = 0;
    while i < attrs.len()
        invariant
            0 <= i <= attrs@.len(),
            out@.len() == i,
            forall|j: int| 0 <= j < i ==> out@[j]@ == attrs@[j]@,
        decreases attrs@.len() - i,
    {
        out.push(attrs[i].clone_record());
        i = i + 1;
    }
    proof {
        assert(out@.map_values(|a: WorkAttributeType| a@) =~= attrs@.map_values(
            |a: WorkAttributeType| a@,
        ));
    }
    out
}

/// The position of the record already opened for `id`, if any.
fn find_work_type(out: &Vec<WorkType>, id: &str) -> (r: Option<usize>)
    ensures
        r is None ==> !holds_id(out@.map_values(|w: WorkType| w@), id@),
        r matches Some(i) ==> 0 <= i < out@.len() && out@[i as int]@.id == id@,
{
    let mut i: usize = 0;
    while i < out.len()
        invariant
            0 <= i <= out@.len(),
            forall|j: int| 0 <= j < i ==> out@[j]@.id != id@,
        decreases out@.len() - i,
    {
        if str_eq(out[i].work_type_id(), id) {
            return Some(i);
        }
        i = i + 1;
    }
    None
}

impl WorkType {
    /// The identifier, for the grouping scan.
    fn work_type_id(&self) -> (r: &str)
        ensures
            r@ == self@.id,
    {
        self.id.as_str()
    }
}

/// Folds the flat left-outer-join rows into one record per work
/// type, in first-appearance order, exactly as [`group_rows`]
/// describes.
pub fn assemble_work_types(rows: Vec<WorkTypeRow>) -> (r: Vec<WorkType>)
    ensures
        r@.map_values(|w: WorkType| w@) == group_rows(rows@.map_values(|x: WorkTypeRow| x@)),
{
    let ghost rvs = rows@.map_values(|x: WorkTypeRow| x@);
    let mut out: Vec<WorkType> = Vec::new();
    let mut i: usize = 0;
    while i < rows.len()
        invariant
            rvs == rows@.map_values(|x: WorkTypeRow| x@),
            0 <= i <= rvs.len(),
            rvs.len() == rows@.len(),
            out@.map_values(|w: WorkType| w@) == group_rows(rvs.take(i as int)),
            forall|p: int, q: int|
                0 <= p < q < out@.len() ==> out@[p]@.id != out@[q]@.id,
        decreases rvs.len() - i,
    {
        let ghost pre = out@.map_values(|w: WorkType| w@);
        let row = &rows[i];
        let attr = parse_row_attr(row);
        let found = find_work_type(&out, row.work_type_id.as_str());
        proof {
            assert(rvs.take(i + 1).drop_last() =~= rvs.take(i as int));
            assert(rvs.take(i + 1).last() == rvs[i as int]);
            assert(rvs[i as int] == rows@[i as int]@);
        }
        match found {
            Some(at) => {
                proof {
                    assert(holds_id(pre, rvs[i as int].work_type_id));
                    let w = choose|k: int|
                        0 <= k < pre.len() && pre[k].id == rvs[i as int].work_type_id;
                    assert(pre[at as int].id == rvs[i as int].work_type_id);
                    if w != at {
                        assert(pre[w].id == pre[at as int].id);
                        assert(false);
                    }
                }
                match attr {
                    Some(a) => {
                        let current = &out[at];
                        let mut attributes = clone_attrs(&current.attributes);
                        attributes.push(a);
                        let updated = WorkType {
                            id: current.id.clone(),
                            title: current.title.clone(),
                            description: clone_opt(&current.description),
                            attributes,
                            created_at: current.created_at,
                            updated_at: current.updated_at,
                        };
                        proof {
                            assert(updated@.attributes =~= pre[at as int].attributes.push(a@));
                            assert(updated@ == WorkTypeV {
                                attributes: pre[at as int].attributes.push(a@),
                                ..pre[at as int]
                            });
                        }
                        out.set(at, updated);
                        proof {
                            assert(out@.map_values(|w: WorkType| w@) =~= group_rows(
                                rvs.take(i + 1),
                            ));
                            assert forall|k: int| 0 <= k < out@.len() implies out@[k]@.id
                                == pre[k].id by {
                                if k != at {
                                    assert(out@[k]@ == pre[k]);
                                }
                            }
                        }
                    }
                    None => {
                        proof {
                            assert(out@.map_values(|w: WorkType| w@) =~= group_rows(
                                rvs.take(i + 1),
                            ));
                        }
                    }
                }
            }
            None => {
                let mut attributes: Vec<WorkAttributeType> = Vec::new();
                let ghost had_attr = attr is Some;
                match attr {
                    Some(a) => {
                        attributes.push(a);
                    }
                    None => {}
                }
                let opened = WorkType {
                    id: row.work_type_id.clone(),
                    title: row.title.clone(),
                    description: clone_opt(&row.description),
                    attributes,
                    created_at: row.work_type_created_at,
                    updated_at: row.work_type_updated_at,
                };
                proof {
                    if had_attr {
                        assert(opened@.attributes =~= Seq::empty().push(
                            row_attr(rvs[i as int])->Some_0,
                        ));
                    } else {
                        assert(opened@.attributes =~= Seq::<WorkAttributeTypeV>::empty());
                    }
                }
                out.push(opened);
                proof {
                    assert(out@.map_values(|w: WorkType| w@) =~= group_rows(rvs.take(i + 1)));
                    assert forall|p: int, q: int|
                        0 <= p < q < out@.len() implies out@[p]@.id != out@[q]@.id by {
                        if q == out@.len() - 1 {
                            assert(pre[p].id != rvs[i as int].work_type_id);
                            assert(out@[p]@ == pre[p]);
                        }
                    }
                }
            }
        }
        i = i + 1;
    }
    proof {
        assert(rvs.take(rvs.len() as int) =~= rvs);
    }
    out
}

} // verus!
