//! The two families of errors: internal errors, which well-typed input never
//! raises, and type errors, which are reported to the user.
use crate::syntax::{Name, Value};
use std::rc::Rc;
use vstd::prelude::*;

verus! {

/// A fault of the implementation: well-typed input never raises one.
pub enum InternalError {
    /// A free variable that the context does not bind.
    UndefinedName { var_span: codespan::ByteSpan, name: Name },
    /// A bound variable that no enclosing scope was opened for.
    UnsubstitutedDebruijnIndex { span: codespan::ByteSpan, name: Name, index: u64 },
    /// A non-function in the function position of an application.
    ArgumentAppliedToNonFunction { span: codespan::ByteSpan },
    /// Evaluation took more steps than it was allowed.
    StepLimitReached { span: codespan::ByteSpan },
}

/// An error in the program being checked.
pub enum TypeError {
    Internal(InternalError),
    UndefinedName { var_span: codespan::ByteSpan, name: Name },
    Mismatch { span: codespan::ByteSpan, found: Rc<Value>, expected: Rc<Value> },
    UnexpectedFunction { span: codespan::ByteSpan, expected: Rc<Value> },
    ExpectedUniverse { span: codespan::ByteSpan, found: Rc<Value> },
    ArgAppliedToNonFunction {
        fn_span: codespan::ByteSpan,
        arg_span: codespan::ByteSpan,
        found: Rc<Value>,
    },
    FunctionParamNeedsAnnotation {
        param_span: codespan::ByteSpan,
        var_span: Option<codespan::ByteSpan>,
        name: Name,
    },
    UnableToElaborateHole { span: codespan::ByteSpan, expected: Option<Rc<Value>> },
    AmbiguousIntLiteral { span: codespan::ByteSpan },
    AmbiguousFloatLiteral { span: codespan::ByteSpan },
}

impl InternalError {
    pub fn into_type_error(self) -> (r: TypeError)
        ensures
            r == TypeError::Internal(self),
    {
        TypeError::Internal(self)
    }
}

} // verus!
