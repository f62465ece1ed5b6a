use vstd::prelude::*;

use crate::array::NamedArray;
use crate::errors::RustLearnError;

verus! {

/// The check that every metric makes before it computes: `y_true` and
/// `y_pred` must be of one length. Returns the validation error to report,
/// or nothing when the two can be compared.
pub fn checks<T: Copy>(y_true: &NamedArray<T>, y_pred: &NamedArray<T>) -> (r: Option<RustLearnError>)
    ensures
        r is None <==> y_true.data@.len() == y_pred.data@.len(),
        r matches Some(e) ==> e is ValidationError,
{
    if y_true.len() != y_pred.len() {
        return Some(RustLearnError::validation("series are not the same length"));
    }
    None
}

} // verus!
