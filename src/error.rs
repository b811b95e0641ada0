use vstd::prelude::*;

verus! {

/// Why the evaluation of a module did not finish with success.
///
/// Each kind is terminal for the evaluation in progress.
#[derive(Debug, Clone, PartialEq)]
pub enum EvalError {
    /// The code text is not a well-formed module body.
    CompileError,
    /// An import could not be resolved, or the engine refused to link.
    InstantiationError,
    /// The body threw before a completion promise was obtained.
    RuntimeError(String),
    /// The completion promise settled as rejected.
    RejectionError(String),
}

impl EvalError {
    /// A copy of this error, equal to it.
    pub fn copied(&self) -> (r: EvalError)
        ensures
            r == *self,
    {
        match self {
            EvalError::CompileError => EvalError::CompileError,
            EvalError::InstantiationError => EvalError::InstantiationError,
            EvalError::RuntimeError(m) => EvalError::RuntimeError(m.clone()),
            EvalError::RejectionError(m) => EvalError::RejectionError(m.clone()),
        }
    }
}

/// What the host receives once an evaluation is over.
pub type Outcome = Result<(), EvalError>;

/// A copy of an outcome, equal to it.
pub fn copy_outcome(o: &Outcome) -> (r: Outcome)
    ensures
        r == *o,
{
    match o {
        Ok(u) => Ok(*u),
        Err(e) => Err(e.copied()),
    }
}

} // verus!
