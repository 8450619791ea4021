use crate::ast::Meta;
use crate::value::{ValV, Value};
use vstd::prelude::*;

verus! {

/// The kind of a runtime value, as reported in type errors.
#[derive(Clone, Copy, Debug, PartialEq, Eq, Structural)]
pub enum TypeTag {
    Number,
    Str,
    Symbol,
    List,
    Nil,
    Closure,
    NativeProcedure,
}

/// Everything an evaluation can fail with. Every failure is recoverable by
/// the driver; verified code never panics.
#[derive(Debug)]
pub enum Error {
    /// The symbol is absent from every frame up to and including the root.
    UnboundSymbol { name: String },
    /// An argument had the wrong kind; `position` is the call site.
    TypeMismatch { expected: TypeTag, got: TypeTag, position: Meta },
    /// A procedure was handed the wrong number of arguments.
    ArityMismatch { expected: usize, got: usize },
    /// The value in call position is neither a closure nor a native procedure.
    NotCallable { value: Value },
    /// A division or remainder whose divisor is exactly zero.
    DivideByZero,
    /// `UnquoteSplice` produced, or stood where it would need, a non-list.
    SpliceNonList,
    /// `Unquote` or `UnquoteSplice` outside any enclosing `Quote`.
    UnquoteOutsideQuote,
    /// The step budget was exhausted (runaway or too-deep recursion).
    StackOverflow,
    /// An arithmetic intermediate left the machine range of `i64`. This kind
    /// extends the language's stated error taxonomy: numbers are carried as
    /// 64-bit exact rationals, and arithmetic whose intermediates leave
    /// `[-i64::MAX, i64::MAX]` has no representable result. Reporting a
    /// recoverable error here is the resolution of that machine limit — the
    /// alternative would be an abort, and no user-triggered condition may
    /// abort.
    Overflow,
}

/// The mathematical model of an error.
pub enum ErrorV {
    UnboundSymbol { name: Seq<char> },
    TypeMismatch { expected: TypeTag, got: TypeTag, position: Meta },
    ArityMismatch { expected: int, got: int },
    NotCallable { value: ValV },
    DivideByZero,
    SpliceNonList,
    UnquoteOutsideQuote,
    StackOverflow,
    Overflow,
}

impl Error {
    pub open spec fn to_view(&self) -> ErrorV {
        match self {
            Error::UnboundSymbol { name } => ErrorV::UnboundSymbol { name: name@ },
            Error::TypeMismatch { expected, got, position } => ErrorV::TypeMismatch {
                expected: *expected,
                got: *got,
                position: *position,
            },
            Error::ArityMismatch { expected, got } => ErrorV::ArityMismatch {
                expected: *expected as int,
                got: *got as int,
            },
            Error::NotCallable { value } => ErrorV::NotCallable { value: value.to_view() },
            Error::DivideByZero => ErrorV::DivideByZero,
            Error::SpliceNonList => ErrorV::SpliceNonList,
            Error::UnquoteOutsideQuote => ErrorV::UnquoteOutsideQuote,
            Error::StackOverflow => ErrorV::StackOverflow,
            Error::Overflow => ErrorV::Overflow,
        }
    }
}

impl View for Error {
    type V = ErrorV;

    open spec fn view(&self) -> ErrorV {
        self.to_view()
    }
}

} // verus!
