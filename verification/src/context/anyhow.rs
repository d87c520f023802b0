//! Taking `anyhow` errors into layers of context.

use crate::chain::ErrorItem;
use crate::context::ErrorContext;
use crate::serializable::SerializableError;
use crate::strings::SharedString;
use std::sync::Arc;
use vstd::prelude::*;
use vstd::std_specs::convert::FromSpecImpl;

verus! {

impl ErrorContext {
    /// The flattened stack `flat` as a layered error: a layer with the top
    /// message of the stack and without extensions, on top of the rest of the
    /// stack.
    pub fn from_flat(flat: SerializableError) -> (node: ErrorContext)
        ensures
            node.context == flat.context,
            node.extensions is None,
            match flat.cause {
                Some(rest) => node.cause matches Some(cause) && *cause == ErrorItem::Serializable(
                    *rest,
                ),
                None => node.cause is None,
            },
    {
        let cause = match &flat.cause {
            Some(rest) => Some(Arc::new(ErrorItem::Serializable(SerializableError::clone(rest)))),
            None => None,
        };
        ErrorContext { context: flat.context, cause, extensions: None }
    }
}

impl From<::anyhow::Error> for ErrorContext {
    /// Converts the `anyhow` error into a layer with the error's display
    /// text, on top of the flattened stack of its causes: see
    /// [`SerializableError::from_anyhow`] and [`ErrorContext::from_flat`].
    ///
    /// The `anyhow` error stack is flattened into a stack of strings: what
    /// its errors hold besides their display texts is lost.
    fn from(value: ::anyhow::Error) -> (node: ErrorContext)
        ensures
            node.is_flat_copy(),
    {
        ErrorContext::from_flat(SerializableError::from_anyhow(&value))
    }
}

impl FromSpecImpl<::anyhow::Error> for ErrorContext {
    /// The conversion reads the display texts of the errors, which are no
    /// function of the value: what it returns is stated on `from` itself.
    open spec fn obeys_from_spec() -> bool {
        false
    }

    open spec fn from_spec(value: ::anyhow::Error) -> ErrorContext {
        arbitrary()
    }
}

/// Whether `node` is a fresh layer around a converted `anyhow` error: it has
/// no extensions of its own, and its cause is a layer that is a flattened
/// stack of strings in layered form.
pub open spec fn annotates_flat_copy(node: ErrorContext) -> bool {
    &&& node.extensions is None
    &&& node.cause matches Some(cause) && *cause matches ErrorItem::Context(inner)
        && inner.is_flat_copy()
}

/// A helper trait for converting an `anyhow` error stack into an
/// [`ErrorContext`] stack.
pub trait AnyhowErrContext: Sized {
    /// Convert this `anyhow` error into a new [`ErrorContext`] error,
    /// annotated with the specified context message.
    ///
    /// The new layer has the message that `msg` converts into, the converted
    /// error as its cause, and no extensions of its own. The whole error
    /// stack is flattened into strings on the way: what its errors hold
    /// besides their display texts is lost.
    fn context<M: Into<SharedString>>(self, msg: M) -> (node: ErrorContext)
        ensures
            call_ensures(M::into, (msg,), node.context),
            annotates_flat_copy(node),
    ;
}

impl AnyhowErrContext for ::anyhow::Error {
    fn context<M: Into<SharedString>>(self, msg: M) -> (node: ErrorContext) {
        ErrorContext {
            context: msg.into(),
            cause: Some(Arc::new(ErrorItem::Context(ErrorContext::from(self)))),
            extensions: None,
        }
    }
}

/// A helper trait for converting `anyhow` results into [`ErrorContext`]
/// results.
pub trait AnyhowResContext<T, E>: Sized {
    /// The value of the result, where it has one.
    spec fn success(self) -> Option<T>;

    /// Map the `anyhow` error into a new [`ErrorContext`] error, annotated
    /// with the specified context message: see [`AnyhowErrContext::context`].
    /// A value is handed on as it is.
    fn context<M: Into<SharedString>>(self, msg: M) -> (res: Result<T, ErrorContext>)
        ensures
            self.success() matches Some(value) ==> res == Ok::<T, ErrorContext>(value),
            self.success() is None ==> res is Err,
            res matches Err(node) ==> {
                &&& call_ensures(M::into, (msg,), node.context)
                &&& annotates_flat_copy(node)
            },
    ;

    /// Map the `anyhow` error into a new [`ErrorContext`] error, annotated
    /// with a dynamically computed context message. `f` is called only where
    /// there is an error.
    fn with_context<M: Into<SharedString>, F: FnOnce() -> M>(self, f: F) -> (res: Result<
        T,
        ErrorContext,
    >)
        requires
            self.success() is None ==> f.requires(()),
        ensures
            self.success() matches Some(value) ==> res == Ok::<T, ErrorContext>(value),
            self.success() is None ==> res is Err,
            res matches Err(node) ==> {
                &&& exists|msg: M|
                    f.ensures((), msg) && call_ensures(M::into, (msg,), node.context)
                &&& annotates_flat_copy(node)
            },
    ;
}

impl<T, E: AnyhowErrContext> AnyhowResContext<T, E> for Result<T, E> {
    open spec fn success(self) -> Option<T> {
        match self {
            Ok(value) => Some(value),
            Err(_) => None,
        }
    }

    fn context<M: Into<SharedString>>(self, msg: M) -> (res: Result<T, ErrorContext>) {
        match self {
            Ok(value) => Ok(value),
            Err(e) => Err(e.context(msg)),
        }
    }

    fn with_context<M: Into<SharedString>, F: FnOnce() -> M>(self, f: F) -> (res: Result<
        T,
        ErrorContext,
    >) {
        match self {
            Ok(value) => Ok(value),
            Err(e) => Err(e.context(f())),
        }
    }
}

} // verus!
