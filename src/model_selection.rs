use vstd::prelude::*;

use crate::array::{all_of_len, check_inputs, lengths_agree, valid_inputs, NamedArray};
use crate::errors::RustLearnError;

verus! {

/// `train` and `test` are `a` cut at `s`: both keep `a`'s name, `train`
/// holds the values before position `s` and `test` those from `s` on.
pub open spec fn cut_at<T>(a: NamedArray<T>, train: NamedArray<T>, test: NamedArray<T>, s: int) -> bool {
    &&& train.name@ == a.name@
    &&& test.name@ == a.name@
    &&& train.data@ == a.data@.subrange(0, s)
    &&& test.data@ == a.data@.subrange(s, a.data@.len() as int)
}

/// The four parts of a split, each an array of its own.
#[derive(Debug, Clone, PartialEq)]
pub struct TrainTestSplitReturn<T> {
    pub x_train: Vec<NamedArray<T>>,
    pub y_train: NamedArray<T>,
    pub x_test: Vec<NamedArray<T>>,
    pub y_test: NamedArray<T>,
}

/// A positional split of predictors and a target into a training part and a
/// test part. The split index, the number of training rows, is the same for
/// every array, so row `i` of each array keeps referring to one observation.
#[derive(Debug, Clone, PartialEq)]
pub struct SimpleTrainTestSplit<T> {
    pub x: Vec<NamedArray<T>>,
    pub y: NamedArray<T>,
    pub split_index: usize,
}

/// What a split needs: valid predictors and target, and a split index below
/// the target's length, which is what `floor(len * p)` gives for every
/// proportion `p` strictly between 0 and 1. The test part is never empty.
pub open spec fn valid_split<T>(x: Seq<NamedArray<T>>, y: NamedArray<T>, split_index: int) -> bool {
    valid_inputs(x, y) && split_index < y.data@.len()
}

impl<T: Copy> SimpleTrainTestSplit<T> {
    /// Accepts a non-empty target, at least one predictor, predictors of the
    /// target's length, and fewer training rows than the target holds;
    /// anything else is a validation error.
    pub fn new(x: Vec<NamedArray<T>>, y: NamedArray<T>, split_index: usize) -> (r: Result<
        Self,
        RustLearnError,
    >)
        ensures
            valid_split(x@, y, split_index as int) ==> (r matches Ok(s) && s.x == x && s.y == y
                && s.split_index == split_index),
            !valid_split(x@, y, split_index as int) ==> (r matches Err(e) && e is ValidationError),
    {
        check_inputs(&x, &y)?;
        if split_index >= y.len() {
            return Err(RustLearnError::validation("split index must lie below the target length"));
        }
        Ok(SimpleTrainTestSplit { x, y, split_index })
    }

    /// Fails with a validation error when some predictor's length differs
    /// from the target's.
    pub fn assert_equal_length(x: &Vec<NamedArray<T>>, y: &NamedArray<T>) -> (r: Result<
        (),
        RustLearnError,
    >)
        ensures
            r is Ok <==> all_of_len(x@, y.data@.len()),
            r matches Err(e) ==> e is ValidationError,
    {
        if lengths_agree(x, y) {
            Ok(())
        } else {
            Err(RustLearnError::validation("mismatch x and y lengths"))
        }
    }

    /// Cuts every predictor and the target at the split index into fresh
    /// arrays; predictors keep their order.
    pub fn split(&self) -> (r: Result<TrainTestSplitReturn<T>, RustLearnError>)
        ensures
            valid_split(self.x@, self.y, self.split_index as int) ==> (r matches Ok(parts) && {
                &&& parts.x_train@.len() == self.x@.len()
                &&& parts.x_test@.len() == self.x@.len()
                &&& cut_at(self.y, parts.y_train, parts.y_test, self.split_index as int)
                &&& forall|k: int|
                    0 <= k < self.x@.len() ==> cut_at(
                        #[trigger] self.x@[k],
                        parts.x_train@[k],
                        parts.x_test@[k],
                        self.split_index as int,
                    )
            }),
            !valid_split(self.x@, self.y, self.split_index as int) ==> (r matches Err(e)
                && e is ValidationError),
    {
        check_inputs(&self.x, &self.y)?;
        let s = self.split_index;
        if s >= self.y.len() {
            return Err(RustLearnError::validation("split index must lie below the target length"));
        }
        let mut x_train: Vec<NamedArray<T>> = Vec::new();
        let mut x_test: Vec<NamedArray<T>> = Vec::new();
        let mut k: usize = 0;
        while k < self.x.len()
            invariant
                k <= self.x@.len(),
                valid_split(self.x@, self.y, s as int),
                x_train@.len() == k,
                x_test@.len() == k,
                forall|j: int|
                    0 <= j < k ==> cut_at(#[trigger] self.x@[j], x_train@[j], x_test@[j], s as int),
            decreases self.x@.len() - k,
        {
            assert(self.x@[k as int].data@.len() == self.y.data@.len());
            let (train, test) = cut(&self.x[k], s);
            x_train.push(train);
            x_test.push(test);
            k += 1;
        }
        let (y_train, y_test) = cut(&self.y, s);
        Ok(TrainTestSplitReturn { x_train, y_train, x_test, y_test })
    }
}

/// Copies `a` into the part before position `s` and the part from `s` on.
fn cut<T: Copy>(a: &NamedArray<T>, s: usize) -> (r: (NamedArray<T>, NamedArray<T>))
    requires
        s <= a.data@.len(),
    ensures
        cut_at(*a, r.0, r.1, s as int),
{
    let mut train: Vec<T> = Vec::new();
    let mut test: Vec<T> = Vec::new();
    let mut i: usize = 0;
    while i < a.data.len()
        invariant
            i <= a.data@.len(),
            s <= a.data@.len(),
            i <= s ==> train@ == a.data@.subrange(0, i as int) && test@.len() == 0,
            i > s ==> train@ == a.data@.subrange(0, s as int) && test@ == a.data@.subrange(
                s as int,
                i as int,
            ),
        decreases a.data@.len() - i,
    {
        if i < s {
            train.push(a.data[i]);
            assert(train@ =~= a.data@.subrange(0, i + 1));
        } else {
            test.push(a.data[i]);
            assert(test@ =~= a.data@.subrange(s as int, i + 1));
        }
        i += 1;
    }
    assert(train@ =~= a.data@.subrange(0, s as int));
    assert(test@ =~= a.data@.subrange(s as int, a.data@.len() as int));
    (NamedArray { name: a.name.clone(), data: train }, NamedArray { name: a.name.clone(), data: test })
}

/// Cutting an array at `s` loses no row and adds none: the two parts hold
/// as many values as the array, and row `i` of the array is row `i` of the
/// training part when `i` is below `s`, and row `i - s` of the test part
/// otherwise.
pub proof fn lemma_cut_keeps_rows<T>(a: NamedArray<T>, train: NamedArray<T>, test: NamedArray<T>, s: int)
    requires
        0 <= s <= a.data@.len(),
        cut_at(a, train, test, s),
    ensures
        train.data@.len() + test.data@.len() == a.data@.len(),
        forall|i: int|
            0 <= i < a.data@.len() ==> #[trigger] a.data@[i] == if i < s {
                train.data@[i]
            } else {
                test.data@[i - s]
            },
{
}

} // verus!
