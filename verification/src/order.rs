//! Statuses in the order of their numbers, newest first.

use crate::model::deployment::Status;
use itertools::Itertools;
use std::cmp::Ordering;
use vstd::prelude::*;

verus! {

/// The test that picks the statuses numbered `id`.
pub open spec fn with_id(id: i64) -> spec_fn(Status) -> bool {
    |status: Status| status.id == id
}

/// Compares two statuses so that the one with the greater number comes
/// first.
pub fn newer_first(a: &Status, b: &Status) -> (order: Ordering)
    ensures
        order == (if a.id > b.id {
            Ordering::Less
        } else if a.id == b.id {
            Ordering::Equal
        } else {
            Ordering::Greater
        }),
{
    if a.id > b.id {
        Ordering::Less
    } else if a.id == b.id {
        Ordering::Equal
    } else {
        Ordering::Greater
    }
}

/// `Itertools::sorted_by` under `newer_first`, gathered by
/// `Itertools::collect_vec`. The sort is the stable sort of slices: the
/// numbers never rise along what comes out, and for each number the statuses
/// that carry it are the same, in the same order, as in what went in. This is
/// taken from the documentation of the sort and not proved here.
#[verifier::external_body]
pub(crate) fn sorted_newest_first(statuses: Vec<Status>) -> (sorted: Vec<Status>)
    ensures
        sorted@.len() == statuses@.len(),
        forall|i: int, j: int| 0 <= i < j < sorted@.len() ==> sorted@[i].id >= sorted@[j].id,
        forall|id: i64| #[trigger]
            sorted@.filter(with_id(id)) == statuses@.filter(with_id(id)),
{
    statuses.into_iter().sorted_by(|a, b| newer_first(a, b)).collect_vec()
}

} // verus!
