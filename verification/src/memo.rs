//! The write-once cell behind each remembered constant: `spin::Once<usize>`,
//! seen through three trusted functions and one name.

use spin::once::Once;
use spin::relax::Spin;
use vstd::prelude::*;

verus! {

/// `spin::relax::Spin`, the strategy by which a `spin::Once` waits. Nothing is
/// said of it.
#[verifier::external_type_specification]
#[verifier::external_body]
pub struct ExSpin(Spin);

/// `spin::once::Once`, a cell that takes a value once and keeps it. Its inside
/// is hidden: the contracts speak of it through `settled` alone.
#[verifier::external_type_specification]
#[verifier::external_body]
#[verifier::reject_recursive_types(T)]
#[verifier::reject_recursive_types(R)]
pub struct ExOnce<T, R>(Once<T, R>);

/// The one value that a cell hands out. A `spin::Once` is written at most
/// once, by the initializer that wins, and never again: whatever `get` and
/// `call_once` return from one cell, at any time and on any thread, is this
/// value. Of a cell that is never written it is left open.
pub uninterp spec fn settled(cell: Once<usize, Spin>) -> usize;

/// `spin::Once::new`: a cell that holds nothing yet. Nothing is promised of
/// the value that will settle in it.
#[verifier::external_body]
pub(crate) fn vacant() -> (cell: Once<usize, Spin>) {
    Once::new()
}

/// `spin::Once::get`: the value in the cell where an initialization has
/// completed, `None` where none has. Claimed: a value that comes back is the
/// cell's settled one. Whether one comes back is a matter of what other
/// callers did before, so nothing is promised of that.
#[verifier::external_body]
pub(crate) fn lookup(cell: &Once<usize, Spin>) -> (found: Option<usize>)
    ensures
        found matches Some(value) ==> value == settled(*cell),
{
    match cell.get() {
        Some(value) => Some(*value),
        None => None,
    }
}

/// `spin::Once::call_once` with an initializer that returns `offer`. The call
/// stores `offer` if the cell was empty and otherwise leaves the cell as it
/// was, waiting where another initializer is running; either way it returns
/// what the cell then holds. Claimed: the result is the cell's settled value.
/// Which offer settled is not said. `call_once` panics only on a cell whose
/// initializer panicked before; the initializer given here cannot, and the
/// cells of this library are written through this function alone.
#[verifier::external_body]
pub(crate) fn publish(cell: &Once<usize, Spin>, offer: usize) -> (kept: usize)
    ensures
        kept == settled(*cell),
{
    *cell.call_once(|| offer)
}

} // verus!
