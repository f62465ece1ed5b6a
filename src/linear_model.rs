use vstd::prelude::*;

use crate::array::{
    all_of_len, check_inputs, distinct_names, lengths_agree, names_distinct, valid_inputs, NamedArray,
};
use crate::errors::RustLearnError;

verus! {

/// The two ways of fitting: the closed form over sums of squares for one
/// predictor, and the normal equations for two or more.
#[derive(Debug, Clone, Copy, PartialEq, Eq, Structural)]
pub enum FitPath {
    Simple,
    Multiple,
}

/// The path that a fit on `n_predictors` predictors takes.
pub open spec fn path_for(n_predictors: nat) -> FitPath {
    if n_predictors == 1 {
        FitPath::Simple
    } else {
        FitPath::Multiple
    }
}

/// Row `i` of the design matrix: the intercept term, then the `i`-th value
/// of each predictor in the order given.
pub open spec fn design_row<T>(x: Seq<NamedArray<T>>, one: T, i: int) -> Seq<T> {
    seq![one] + Seq::new(x.len(), |k: int| x[k].data@[i])
}

/// Inputs that a fit accepts: valid predictors and target, and no two
/// predictors of one name, so that each coefficient has a key of its own.
pub open spec fn valid_regression<T>(x: Seq<NamedArray<T>>, y: NamedArray<T>) -> bool {
    valid_inputs(x, y) && distinct_names(x)
}

/// Checks what [`valid_regression`] states: first what [`check_inputs`]
/// checks, then that the predictors' names are distinct.
pub fn check_regression_inputs<T: Copy>(x: &Vec<NamedArray<T>>, y: &NamedArray<T>) -> (r: Result<
    (),
    RustLearnError,
>)
    ensures
        r is Ok <==> valid_regression(x@, *y),
        r matches Err(e) ==> e is ValidationError,
{
    check_inputs(x, y)?;
    if !names_distinct(x) {
        return Err(RustLearnError::validation("duplicate predictor names"));
    }
    Ok(())
}

/// An ordinary-least-squares regression of `y` on the predictors `x`.
#[derive(Debug, Clone, PartialEq)]
pub struct LinearRegression<T> {
    pub x: Vec<NamedArray<T>>,
    pub y: NamedArray<T>,
}

impl<T: Copy> LinearRegression<T> {
    /// Accepts a non-empty target, at least one predictor, and predictors of
    /// the target's length; anything else is a validation error. Names are
    /// checked when the model is fitted (see [`check_regression_inputs`]).
    pub fn new(x: Vec<NamedArray<T>>, y: NamedArray<T>) -> (r: Result<Self, RustLearnError>)
        ensures
            valid_inputs(x@, y) ==> (r matches Ok(m) && m.x == x && m.y == y),
            !valid_inputs(x@, y) ==> (r matches Err(e) && e is ValidationError),
    {
        match check_inputs(&x, &y) {
            Ok(()) => Ok(LinearRegression { x, y }),
            Err(e) => Err(e),
        }
    }

    /// Fails with a validation error when some predictor's length differs
    /// from the target's.
    pub fn assert_equal_length(x: &Vec<NamedArray<T>>, y: &NamedArray<T>) -> (r: Result<
        (),
        RustLearnError,
    >)
        ensures
            r is Ok <==> all_of_len(x@, y.data@.len()),
            r matches Err(e) ==> e is ValidationError,
    {
        if lengths_agree(x, y) {
            Ok(())
        } else {
            Err(RustLearnError::validation("mismatch x and y lengths"))
        }
    }

    /// The path that fitting this model takes, chosen by the number of
    /// predictors.
    pub fn fit_path(&self) -> (r: FitPath)
        ensures
            r == path_for(self.x@.len()),
    {
        if self.x.len() == 1 {
            FitPath::Simple
        } else {
            FitPath::Multiple
        }
    }

    /// The design matrix of the normal equations, one row per observation:
    /// `one` for the intercept, then each predictor's value in order.
    pub fn design_matrix(&self, one: T) -> (r: Result<Vec<Vec<T>>, RustLearnError>)
        ensures
            valid_inputs(self.x@, self.y) ==> (r matches Ok(rows) && rows@.len()
                == self.y.data@.len() && forall|i: int|
                0 <= i < rows@.len() ==> #[trigger] rows@[i]@ == design_row(self.x@, one, i)),
            !valid_inputs(self.x@, self.y) ==> (r matches Err(e) && e is ValidationError),
    {
        check_inputs(&self.x, &self.y)?;
        let n = self.y.len();
        let mut rows: Vec<Vec<T>> = Vec::new();
        let mut i: usize = 0;
        while i < n
            invariant
                i <= n,
                n == self.y.data@.len(),
                valid_inputs(self.x@, self.y),
                rows@.len() == i,
                forall|j: int| 0 <= j < i ==> #[trigger] rows@[j]@ == design_row(self.x@, one, j),
            decreases n - i,
        {
            let mut row: Vec<T> = Vec::new();
            row.push(one);
            let mut k: usize = 0;
            while k < self.x.len()
                invariant
                    k <= self.x@.len(),
                    i < n,
                    n == self.y.data@.len(),
                    all_of_len(self.x@, n as nat),
                    row@ =~= design_row(self.x@, one, i as int).subrange(0, k + 1),
                decreases self.x@.len() - k,
            {
                assert(self.x@[k as int].data@.len() == n);
                row.push(self.x[k].data[i]);
                k += 1;
                assert(row@ =~= design_row(self.x@, one, i as int).subrange(0, k + 1));
            }
            assert(row@ =~= design_row(self.x@, one, i as int));
            rows.push(row);
            i += 1;
        }
        Ok(rows)
    }

    /// The fitted model from a solved coefficient vector: its first value is
    /// the intercept, and value `k + 1` is the weight of predictor `k`, keyed
    /// by that predictor's name, so the keys are distinct. Predictors that
    /// share a name are a validation error; a vector of any other length
    /// than one more than the number of predictors is a compute error.
    pub fn assemble(&self, solution: &Vec<T>) -> (r: Result<LinearRegressionReturn<T>, RustLearnError>)
        ensures
            !distinct_names(self.x@) ==> (r matches Err(e) && e is ValidationError),
            distinct_names(self.x@) && solution@.len() != self.x@.len() + 1 ==> (r matches Err(e)
                && e is ComputeError),
            r matches Ok(res) ==> res.keys_distinct(),
            distinct_names(self.x@) && solution@.len() == self.x@.len() + 1 ==> (r matches Ok(res)
                && res.intercept == solution@[0]
                && res.beta_values@.len() == self.x@.len()
                && forall|k: int| 0 <= k < self.x@.len() ==>
                    (#[trigger] res.beta_values@[k]).0@ == self.x@[k].name@
                    && res.beta_values@[k].1 == solution@[k + 1]),
    {
        if !names_distinct(&self.x) {
            return Err(RustLearnError::validation("duplicate predictor names"));
        }
        if solution.len() == 0 || solution.len() - 1 != self.x.len() {
            return Err(RustLearnError::compute("solution does not match the predictors"));
        }
        let mut beta_values: Vec<(String, T)> = Vec::new();
        let mut k: usize = 0;
        while k < self.x.len()
            invariant
                k <= self.x@.len(),
                solution@.len() == self.x@.len() + 1,
                beta_values@.len() == k,
                forall|j: int| 0 <= j < k ==>
                    (#[trigger] beta_values@[j]).0@ == self.x@[j].name@
                    && beta_values@[j].1 == solution@[j + 1],
            decreases self.x@.len() - k,
        {
            beta_values.push((self.x[k].name.clone(), solution[k + 1]));
            k += 1;
        }
        Ok(LinearRegressionReturn { intercept: solution[0], beta_values })
    }
}

/// A regression type that needs two or more predictors; one predictor is
/// the business of [`LinearRegression`].
#[derive(Debug, Clone, PartialEq)]
pub struct MultipleLinearRegression<T> {
    pub x: Vec<NamedArray<T>>,
    pub y: NamedArray<T>,
}

impl<T: Copy> MultipleLinearRegression<T> {
    /// Accepts what [`LinearRegression::new`] accepts, but for a single
    /// predictor, which is a validation error.
    pub fn new(x: Vec<NamedArray<T>>, y: NamedArray<T>) -> (r: Result<Self, RustLearnError>)
        ensures
            (x@.len() != 1 && valid_inputs(x@, y)) ==> (r matches Ok(m) && m.x == x && m.y == y),
            !(x@.len() != 1 && valid_inputs(x@, y)) ==> (r matches Err(e) && e is ValidationError),
    {
        if x.len() == 1 {
            return Err(RustLearnError::validation("only 1 dimension - use SimpleLinearRegression"));
        }
        match check_inputs(&x, &y) {
            Ok(()) => Ok(MultipleLinearRegression { x, y }),
            Err(e) => Err(e),
        }
    }

    /// Fails with a validation error when some predictor's length differs
    /// from the target's.
    pub fn assert_equal_length(x: &Vec<NamedArray<T>>, y: &NamedArray<T>) -> (r: Result<
        (),
        RustLearnError,
    >)
        ensures
            r is Ok <==> all_of_len(x@, y.data@.len()),
            r matches Err(e) ==> e is ValidationError,
    {
        if lengths_agree(x, y) {
            Ok(())
        } else {
            Err(RustLearnError::validation("mismatch x and y lengths"))
        }
    }

    /// The same predictors and target as a general regression, which fits
    /// them along the multiple path.
    pub fn into_regression(self) -> (r: LinearRegression<T>)
        ensures
            r.x == self.x,
            r.y == self.y,
            self.x@.len() != 1 ==> path_for(r.x@.len()) == FitPath::Multiple,
    {
        LinearRegression { x: self.x, y: self.y }
    }
}

/// A fitted model: the intercept and one weight per predictor, keyed by the
/// predictor's name, in the order the predictors were given.
#[derive(Debug, Clone, PartialEq)]
pub struct LinearRegressionReturn<T> {
    pub intercept: T,
    pub beta_values: Vec<(String, T)>,
}

impl<T> LinearRegressionReturn<T> {
    /// No two coefficients share a key, as in every model that
    /// [`LinearRegression::assemble`] returns.
    pub open spec fn keys_distinct(&self) -> bool {
        forall|i: int, j: int|
            0 <= i < j < self.beta_values@.len() ==> (#[trigger] self.beta_values@[i]).0@
                != (#[trigger] self.beta_values@[j]).0@
    }
}

/// `j` is the first position in `xs` of an array named `name`.
pub open spec fn first_named<T>(xs: Seq<NamedArray<T>>, name: Seq<char>, j: int) -> bool {
    &&& 0 <= j < xs.len()
    &&& xs[j].name@ == name
    &&& forall|i: int| 0 <= i < j ==> #[trigger] xs[i].name@ != name
}

/// Some array in `xs` is named `name`.
pub open spec fn has_named<T>(xs: Seq<NamedArray<T>>, name: Seq<char>) -> bool {
    exists|j: int| 0 <= j < xs.len() && #[trigger] xs[j].name@ == name
}

/// A model with one coefficient given one array reads that array whatever
/// its name; in every other case the arrays are matched by name.
pub open spec fn reads_by_position<T>(beta: Seq<(String, T)>, xs: Seq<NamedArray<T>>) -> bool {
    beta.len() == 1 && xs.len() == 1
}

/// The array of `xs` that coefficient `k` reads: the only one when the
/// model reads by position, else the first array of the coefficient's name.
pub open spec fn column_of<T>(beta: Seq<(String, T)>, xs: Seq<NamedArray<T>>, k: int) -> int {
    if reads_by_position(beta, xs) {
        0
    } else {
        choose|j: int| first_named(xs, beta[k].0@, j)
    }
}

/// Predictors that a fitted model can predict from: at least one array, a
/// model with at least one coefficient, unless the model reads by position
/// an array for each coefficient's name, and the arrays that the
/// coefficients read all of one length. Arrays that no coefficient reads
/// are not looked at.
pub open spec fn predictable<T>(beta: Seq<(String, T)>, xs: Seq<NamedArray<T>>) -> bool {
    &&& xs.len() > 0
    &&& beta.len() > 0
    &&& (!reads_by_position(beta, xs) ==> forall|k: int|
        0 <= k < beta.len() ==> has_named(xs, (#[trigger] beta[k]).0@))
    &&& forall|k: int|
        0 <= k < beta.len() ==> xs[#[trigger] column_of(beta, xs, k)].data@.len()
            == xs[column_of(beta, xs, 0)].data@.len()
}

/// An array's first position under a name is unique.
proof fn lemma_first_named_unique<T>(xs: Seq<NamedArray<T>>, name: Seq<char>, a: int, b: int)
    requires
        first_named(xs, name, a),
        first_named(xs, name, b),
    ensures
        a == b,
{
    if a < b {
        assert(xs[a].name@ != name);
    } else if b < a {
        assert(xs[b].name@ != name);
    }
}

impl<T: Copy> LinearRegressionReturn<T> {
    /// The path the model was fitted along, read from the number of its
    /// coefficients.
    pub fn fit_path(&self) -> (r: FitPath)
        ensures
            r == path_for(self.beta_values@.len()),
    {
        if self.beta_values.len() == 1 {
            FitPath::Simple
        } else {
            FitPath::Multiple
        }
    }

    /// The weight of the first coefficient keyed `name`, if there is one.
    pub fn coefficient(&self, name: &String) -> (r: Option<T>)
        ensures
            r is None <==> forall|k: int|
                0 <= k < self.beta_values@.len() ==> (#[trigger] self.beta_values@[k]).0@ != name@,
            r matches Some(v) ==> exists|k: int|
                0 <= k < self.beta_values@.len() && (#[trigger] self.beta_values@[k]).0@ == name@
                && self.beta_values@[k].1 == v && forall|i: int|
                0 <= i < k ==> (#[trigger] self.beta_values@[i]).0@ != name@,
    {
        let mut k: usize = 0;
        while k < self.beta_values.len()
            invariant
                k <= self.beta_values@.len(),
                forall|i: int| 0 <= i < k ==> (#[trigger] self.beta_values@[i]).0@ != name@,
            decreases self.beta_values@.len() - k,
        {
            if self.beta_values[k].0 == *name {
                return Some(self.beta_values[k].1);
            }
            k += 1;
        }
        None
    }

    /// Which of `new_x` each coefficient reads when predicting, in the order
    /// of the coefficients. A single coefficient given a single array reads
    /// it whatever its name; otherwise every coefficient is matched to an
    /// array strictly by name, the first of a name, and arrays that no
    /// coefficient names are ignored. A missing name, no array at all, read
    /// arrays of different lengths, or a model without coefficients is a
    /// validation error.
    pub fn predictor_columns(&self, new_x: &Vec<NamedArray<T>>) -> (r: Result<Vec<usize>, RustLearnError>)
        ensures
            r is Ok <==> predictable(self.beta_values@, new_x@),
            r matches Err(e) ==> e is ValidationError,
            r matches Ok(cols) ==> {
                &&& cols@.len() == self.beta_values@.len()
                &&& forall|k: int|
                    0 <= k < cols@.len() ==> #[trigger] cols@[k] as int == column_of(
                        self.beta_values@,
                        new_x@,
                        k,
                    )
                &&& reads_by_position(self.beta_values@, new_x@) ==> cols@[0] == 0
                &&& !reads_by_position(self.beta_values@, new_x@) ==> forall|k: int|
                    0 <= k < cols@.len() ==> first_named(
                        new_x@,
                        self.beta_values@[k].0@,
                        #[trigger] cols@[k] as int,
                    )
            },
    {
        if new_x.len() == 0 {
            return Err(RustLearnError::validation("no x-values provided"));
        }
        if self.beta_values.len() == 0 {
            return Err(RustLearnError::validation("the model has no coefficients"));
        }
        let mut cols: Vec<usize> = Vec::new();
        if self.beta_values.len() == 1 && new_x.len() == 1 {
            cols.push(0);
            assert(column_of(self.beta_values@, new_x@, 0) == 0);
            return Ok(cols);
        }
        let mut k: usize = 0;
        while k < self.beta_values.len()
            invariant
                k <= self.beta_values@.len(),
                !reads_by_position(self.beta_values@, new_x@),
                cols@.len() == k,
                forall|i: int|
                    0 <= i < k ==> first_named(new_x@, self.beta_values@[i].0@, #[trigger] cols@[i] as int),
                forall|i: int|
                    0 <= i < k ==> #[trigger] cols@[i] as int == column_of(self.beta_values@, new_x@, i),
                forall|i: int| 0 <= i < k ==> #[trigger] cols@[i] < new_x@.len(),
            decreases self.beta_values@.len() - k,
        {
            match position_of(new_x, &self.beta_values[k].0) {
                Some(j) => {
                    proof {
                        let c = column_of(self.beta_values@, new_x@, k as int);
                        assert(first_named(new_x@, self.beta_values@[k as int].0@, c));
                        lemma_first_named_unique(new_x@, self.beta_values@[k as int].0@, c, j as int);
                    }
                    cols.push(j);
                },
                None => {
                    assert(!has_named(new_x@, self.beta_values@[k as int].0@));
                    return Err(RustLearnError::validation("missing predictor"));
                },
            }
            k += 1;
        }
        assert forall|i: int| 0 <= i < self.beta_values@.len() implies has_named(
            new_x@,
            (#[trigger] self.beta_values@[i]).0@,
        ) by {
            assert(first_named(new_x@, self.beta_values@[i].0@, cols@[i] as int));
        }
        let n = new_x[cols[0]].len();
        let mut k: usize = 0;
        while k < cols.len()
            invariant
                k <= cols@.len(),
                cols@.len() == self.beta_values@.len(),
                cols@.len() > 0,
                forall|i: int| 0 <= i < cols@.len() ==> #[trigger] cols@[i] < new_x@.len(),
                forall|i: int|
                    0 <= i < cols@.len() ==> #[trigger] cols@[i] as int == column_of(self.beta_values@, new_x@, i),
                n == new_x@[cols@[0] as int].data@.len(),
                forall|i: int|
                    0 <= i < k ==> new_x@[#[trigger] column_of(self.beta_values@, new_x@, i)].data@.len() == n,
            decreases cols@.len() - k,
        {
            if new_x[cols[k]].len() != n {
                assert(cols@[k as int] as int == column_of(self.beta_values@, new_x@, k as int));
                assert(cols@[0] as int == column_of(self.beta_values@, new_x@, 0));
                return Err(RustLearnError::validation("mismatch lengths of x-values"));
            }
            assert(cols@[k as int] as int == column_of(self.beta_values@, new_x@, k as int));
            k += 1;
        }
        assert(cols@[0] as int == column_of(self.beta_values@, new_x@, 0));
        Ok(cols)
    }
}

/// The position of the first array of `xs` named `name`.
fn position_of<T: Copy>(xs: &Vec<NamedArray<T>>, name: &String) -> (r: Option<usize>)
    ensures
        r is None <==> !has_named(xs@, name@),
        r matches Some(j) ==> first_named(xs@, name@, j as int),
{
    let mut j: usize = 0;
    while j < xs.len()
        invariant
            j <= xs@.len(),
            forall|i: int| 0 <= i < j ==> #[trigger] xs@[i].name@ != name@,
        decreases xs@.len() - j,
    {
        if xs[j].name == *name {
            return Some(j);
        }
        j += 1;
    }
    None
}

} // verus!
