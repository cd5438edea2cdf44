//! Write-once cells of color lists, kept in `spin::Once`.
//!
//! Nothing in this file is proved: each contract restates what the `spin`
//! crate documents of the call that the function makes.

use vstd::prelude::*;

verus! {

#[verifier::external_type_specification]
#[verifier::external_body]
#[verifier::reject_recursive_types(T)]
#[verifier::reject_recursive_types(R)]
pub struct ExOnce<T, R>(spin::once::Once<T, R>);

#[verifier::external_type_specification]
#[verifier::external_body]
pub struct ExSpin(spin::relax::Spin);

/// What a cell holds: nothing until it has been initialized, and from then
/// on the list it was initialized with.
pub uninterp spec fn cell_value(cell: spin::Once<Vec<usize>>) -> Option<Seq<usize>>;

/// `spin::Once::new`: a cell that holds nothing yet.
#[verifier::external_body]
pub(crate) fn cell_new() -> (cell: spin::Once<Vec<usize>>)
    ensures
        cell_value(cell) == None::<Seq<usize>>,
{
    spin::Once::new()
}

/// `spin::Once::get`: the list that the cell holds, or nothing while it is
/// not initialized.
#[verifier::external_body]
pub(crate) fn cell_get(cell: &spin::Once<Vec<usize>>) -> (r: Option<&Vec<usize>>)
    ensures
        r is Some == cell_value(*cell) is Some,
        r is Some ==> r->Some_0@ == cell_value(*cell)->Some_0,
{
    cell.get()
}

/// `spin::Once::call_once` with a routine that hands over `value`: a cell
/// that holds nothing takes `value`; an initialized cell keeps what it
/// holds, and `value` is dropped. The call does not unwind: the routine
/// cannot panic, so the cell is never poisoned.
#[verifier::external_body]
pub(crate) fn cell_call_once(cell: &mut spin::Once<Vec<usize>>, value: Vec<usize>)
    ensures
        cell_value(*final(cell)) == (match cell_value(*old(cell)) {
            Some(held) => Some(held),
            None => Some(value@),
        }),
    no_unwind
{
    cell.call_once(|| value);
}

} // verus!
