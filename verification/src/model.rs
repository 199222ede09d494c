//! Helpers shared by the mathematical models of the crate's data types.

use vstd::prelude::*;

verus! {

/// The models of the items of a sequence, in the same order.
pub open spec fn models<T: View>(items: Seq<T>) -> Seq<T::V> {
    Seq::new(items.len(), |i: int| items[i]@)
}

/// The model of an outcome: the model of what it holds, on either side.
pub open spec fn outcome_model<T: View, E: View>(outcome: Result<T, E>) -> Result<T::V, E::V> {
    match outcome {
        Ok(value) => Ok(value@),
        Err(error) => Err(error@),
    }
}

} // verus!
