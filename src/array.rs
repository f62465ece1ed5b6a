use vstd::prelude::*;

use crate::errors::RustLearnError;

verus! {

/// A named, fixed-length sequence of values.
///
/// The name is a label only: it attributes coefficients to predictors and
/// carries no meaning otherwise.
#[derive(Debug, Clone, PartialEq)]
pub struct NamedArray<T> {
    pub name: String,
    pub data: Vec<T>,
}

impl<T: Copy> NamedArray<T> {
    /// Builds an array; this never fails.
    pub fn new(name: &str, data: Vec<T>) -> (r: Result<NamedArray<T>, RustLearnError>)
        ensures
            r matches Ok(a) && a.name@ == name@ && a.data@ == data@,
    {
        Ok(NamedArray { name: name.to_owned(), data })
    }

    pub fn is_empty(&self) -> (r: bool)
        ensures
            r == (self.data@.len() == 0),
    {
        self.data.len() == 0
    }

    pub fn len(&self) -> (r: usize)
        ensures
            r == self.data@.len(),
    {
        self.data.len()
    }
}

/// Every array of `xs` holds exactly `n` values.
pub open spec fn all_of_len<T>(xs: Seq<NamedArray<T>>, n: nat) -> bool {
    forall|k: int| 0 <= k < xs.len() ==> #[trigger] xs[k].data@.len() == n
}

/// Predictors and a target that a model or a split accepts: a non-empty
/// target, at least one predictor, and every predictor as long as the target.
pub open spec fn valid_inputs<T>(x: Seq<NamedArray<T>>, y: NamedArray<T>) -> bool {
    &&& y.data@.len() > 0
    &&& x.len() > 0
    &&& all_of_len(x, y.data@.len())
}

/// A predictor whose length differs from the target's makes the inputs
/// invalid, so every constructor of a model or a split, and every length
/// check, turns them down with a validation error before any computation.
pub proof fn lemma_mismatch_is_invalid<T>(x: Seq<NamedArray<T>>, y: NamedArray<T>, k: int)
    requires
        0 <= k < x.len(),
        x[k].data@.len() != y.data@.len(),
    ensures
        !all_of_len(x, y.data@.len()),
        !valid_inputs(x, y),
{
}

/// No two arrays of `xs` share a name.
pub open spec fn distinct_names<T>(xs: Seq<NamedArray<T>>) -> bool {
    forall|i: int, j: int| 0 <= i < j < xs.len() ==> #[trigger] xs[i].name@ != #[trigger] xs[j].name@
}

/// Whether no two arrays of `xs` share a name.
pub fn names_distinct<T: Copy>(xs: &Vec<NamedArray<T>>) -> (r: bool)
    ensures
        r == distinct_names(xs@),
{
    let mut j: usize = 0;
    while j < xs.len()
        invariant
            j <= xs@.len(),
            forall|a: int, b: int| 0 <= a < b < j ==> #[trigger] xs@[a].name@ != #[trigger] xs@[b].name@,
        decreases xs@.len() - j,
    {
        let mut i: usize = 0;
        while i < j
            invariant
                i <= j < xs@.len(),
                forall|a: int, b: int| 0 <= a < b < j ==> #[trigger] xs@[a].name@ != #[trigger] xs@[b].name@,
                forall|a: int| 0 <= a < i ==> #[trigger] xs@[a].name@ != xs@[j as int].name@,
            decreases j - i,
        {
            if xs[i].name == xs[j].name {
                return false;
            }
            i += 1;
        }
        j += 1;
    }
    true
}

/// Whether every array of `x` has the length of `y`.
pub fn lengths_agree<T: Copy>(x: &Vec<NamedArray<T>>, y: &NamedArray<T>) -> (r: bool)
    ensures
        r == all_of_len(x@, y.data@.len()),
{
    let n = y.len();
    let mut k: usize = 0;
    while k < x.len()
        invariant
            k <= x@.len(),
            n == y.data@.len(),
            forall|j: int| 0 <= j < k ==> #[trigger] x@[j].data@.len() == n,
        decreases x@.len() - k,
    {
        if x[k].len() != n {
            assert(x@[k as int].data@.len() != n);
            return false;
        }
        k += 1;
    }
    true
}

/// Checks what [`valid_inputs`] states, in the order: an empty target, no
/// predictor, then a predictor whose length differs from the target's.
pub fn check_inputs<T: Copy>(x: &Vec<NamedArray<T>>, y: &NamedArray<T>) -> (r: Result<
    (),
    RustLearnError,
>)
    ensures
        r is Ok <==> valid_inputs(x@, *y),
        r matches Err(e) ==> e is ValidationError,
{
    if y.is_empty() {
        return Err(RustLearnError::validation("target is an empty vector"));
    }
    if x.len() == 0 {
        return Err(RustLearnError::validation("no x-values provided"));
    }
    if !lengths_agree(x, y) {
        return Err(RustLearnError::validation("mismatch x and y lengths"));
    }
    Ok(())
}

} // verus!
