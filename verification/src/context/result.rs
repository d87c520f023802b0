//! Annotating the errors of results and the absence of options.

use crate::chain::ErrorItem;
use crate::context::{ErrContext, ErrorContext};
use crate::strings::SharedString;
use std::convert::Infallible;
use vstd::prelude::*;

verus! {

/// What a result or an option holds, as far as annotating it goes: its value,
/// or else the cause that the new error gets, if any.
pub enum Outcome<T> {
    Value(T),
    Failure(Option<ErrorItem>),
}

/// Whether `res` is `outcome` annotated: the value handed on as it is, or
/// else a fresh layer around the cause, where there is one, and without a
/// cause, where there is none.
pub open spec fn annotates<T>(outcome: Outcome<T>, res: Result<T, ErrorContext>) -> bool {
    match outcome {
        Outcome::Value(value) => res == Ok::<T, ErrorContext>(value),
        Outcome::Failure(Some(cause)) => res matches Err(node) && node.is_layer_over(cause),
        Outcome::Failure(None) => res matches Err(node) && node.cause is None
            && node.extensions is None,
    }
}

/// A helper trait for annotating result errors and empty options.
pub trait ResContext<T, E>: Sized {
    /// What this result or option holds.
    spec fn outcome(self) -> Outcome<T>;

    /// Map the error into a new cloneable [`ErrorContext`] error, annotated
    /// with a specified context message. A value is handed on as it is.
    fn context<M: Into<SharedString>>(self, msg: M) -> (res: Result<T, ErrorContext>)
        ensures
            annotates(self.outcome(), res),
            res matches Err(node) ==> call_ensures(M::into, (msg,), node.context),
    ;

    /// Map the error into a new cloneable [`ErrorContext`] error, annotated
    /// with a dynamically computed context message. `f` is called only where
    /// there is no value.
    fn with_context<M: Into<SharedString>, F: FnOnce() -> M>(self, f: F) -> (res: Result<
        T,
        ErrorContext,
    >)
        requires
            self.outcome() is Failure ==> f.requires(()),
        ensures
            annotates(self.outcome(), res),
            res matches Err(node) ==> exists|msg: M|
                f.ensures((), msg) && call_ensures(M::into, (msg,), node.context),
    ;
}

impl<T, E: ErrContext> ResContext<T, E> for Result<T, E> {
    open spec fn outcome(self) -> Outcome<T> {
        match self {
            Ok(value) => Outcome::Value(value),
            Err(e) => Outcome::Failure(Some(e.as_cause())),
        }
    }

    fn context<M: Into<SharedString>>(self, msg: M) -> (res: Result<T, ErrorContext>) {
        match self {
            Ok(value) => Ok(value),
            Err(e) => Err(e.context(msg)),
        }
    }

    fn with_context<M: Into<SharedString>, F: FnOnce() -> M>(self, f: F) -> (res: Result<
        T,
        ErrorContext,
    >) {
        match self {
            Ok(value) => Ok(value),
            Err(e) => Err(e.context(f())),
        }
    }
}

impl<T> ResContext<T, Infallible> for Option<T> {
    open spec fn outcome(self) -> Outcome<T> {
        match self {
            Some(value) => Outcome::Value(value),
            None => Outcome::Failure(None),
        }
    }

    fn context<M: Into<SharedString>>(self, msg: M) -> (res: Result<T, ErrorContext>) {
        match self {
            Some(value) => Ok(value),
            None => Err(ErrorContext::new(msg)),
        }
    }

    fn with_context<M: Into<SharedString>, F: FnOnce() -> M>(self, f: F) -> (res: Result<
        T,
        ErrorContext,
    >) {
        match self {
            Some(value) => Ok(value),
            None => Err(ErrorContext::new(f())),
        }
    }
}

} // verus!
