use vstd::prelude::*;

verus! {

/// An error message.
#[derive(Debug, Clone)]
pub struct ErrString(String);

impl ErrString {
    /// The text of the message.
    pub closed spec fn view(&self) -> Seq<char> {
        self.0@
    }

    pub fn new(msg: &str) -> (r: ErrString)
        ensures
            r@ == msg@,
    {
        ErrString(msg.to_owned())
    }

    pub fn as_str(&self) -> (r: &str)
        ensures
            r@ == self@,
    {
        self.0.as_str()
    }
}

/// The errors of the library.
///
/// `ValidationError` is returned before any work is done, when the inputs
/// break a precondition (mismatched lengths, an empty input, a proportion
/// outside the open unit interval, the wrong number of predictors).
/// `ComputeError` is returned when valid inputs lead to a computation that
/// cannot proceed, such as a singular normal-equation matrix.
#[derive(Debug, Clone)]
pub enum RustLearnError {
    ValidationError(ErrString),
    NotYetImplementedError(ErrString),
    ComputeError(ErrString),
}

impl RustLearnError {
    pub fn validation(msg: &str) -> (r: RustLearnError)
        ensures
            r matches RustLearnError::ValidationError(m) && m@ == msg@,
    {
        RustLearnError::ValidationError(ErrString::new(msg))
    }

    pub fn compute(msg: &str) -> (r: RustLearnError)
        ensures
            r matches RustLearnError::ComputeError(m) && m@ == msg@,
    {
        RustLearnError::ComputeError(ErrString::new(msg))
    }

    pub fn is_validation(&self) -> (r: bool)
        ensures
            r == (self is ValidationError),
    {
        matches!(self, RustLearnError::ValidationError(_))
    }

    /// The message alone, without the prefix that names the kind.
    pub fn message(&self) -> (r: &str)
        ensures
            r@ == (match self {
                RustLearnError::ValidationError(m) => m@,
                RustLearnError::NotYetImplementedError(m) => m@,
                RustLearnError::ComputeError(m) => m@,
            }),
    {
        match self {
            RustLearnError::ValidationError(m) => m.as_str(),
            RustLearnError::NotYetImplementedError(m) => m.as_str(),
            RustLearnError::ComputeError(m) => m.as_str(),
        }
    }
}

} // verus!
