//! Observers: what is recorded of one run of the target.

use vstd::prelude::*;

verus! {

/// The observers of an executor, taken together. The engine hands them from
/// the executor to the feedbacks and reads nothing in them itself.
pub trait ObserversTuple: Sized {

}

/// No observers.
impl ObserversTuple for () {

}

} // verus!
