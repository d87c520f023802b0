//! Wrapping an error in a layer of context.

use crate::chain::{ErrorItem, ForeignError};
use crate::context::ErrorContext;
use crate::serializable::SerializableError;
use crate::strings::SharedString;
use std::sync::Arc;
use vstd::prelude::*;

verus! {

/// A helper trait for annotating any error with an [`ErrorContext`].
pub trait ErrContext: Sized {
    /// The error as it stands in a chain of causes.
    spec fn as_cause(self) -> ErrorItem;

    /// Wrap this error into a new [`ErrorContext`] error, annotated with the
    /// specified context.
    ///
    /// The new layer has the message that `msg` converts into, this error as
    /// its cause, and no extensions of its own.
    fn context<M: Into<SharedString>>(self, msg: M) -> (node: ErrorContext)
        ensures
            call_ensures(M::into, (msg,), node.context),
            node.is_layer_over(self.as_cause()),
    ;
}

impl ErrContext for ErrorContext {
    open spec fn as_cause(self) -> ErrorItem {
        ErrorItem::Context(self)
    }

    fn context<M: Into<SharedString>>(self, msg: M) -> (node: ErrorContext) {
        ErrorContext {
            context: msg.into(),
            cause: Some(Arc::new(ErrorItem::Context(self))),
            extensions: None,
        }
    }
}

impl ErrContext for SerializableError {
    open spec fn as_cause(self) -> ErrorItem {
        ErrorItem::Serializable(self)
    }

    fn context<M: Into<SharedString>>(self, msg: M) -> (node: ErrorContext) {
        ErrorContext {
            context: msg.into(),
            cause: Some(Arc::new(ErrorItem::Serializable(self))),
            extensions: None,
        }
    }
}

impl ErrContext for ForeignError {
    open spec fn as_cause(self) -> ErrorItem {
        ErrorItem::Foreign(self)
    }

    fn context<M: Into<SharedString>>(self, msg: M) -> (node: ErrorContext) {
        ErrorContext {
            context: msg.into(),
            cause: Some(Arc::new(ErrorItem::Foreign(self))),
            extensions: None,
        }
    }
}

impl ErrContext for ErrorItem {
    open spec fn as_cause(self) -> ErrorItem {
        self
    }

    fn context<M: Into<SharedString>>(self, msg: M) -> (node: ErrorContext) {
        ErrorContext { context: msg.into(), cause: Some(Arc::new(self)), extensions: None }
    }
}

impl ErrContext for Arc<ErrorItem> {
    open spec fn as_cause(self) -> ErrorItem {
        ErrorItem::Shared(self)
    }

    fn context<M: Into<SharedString>>(self, msg: M) -> (node: ErrorContext) {
        ErrorContext {
            context: msg.into(),
            cause: Some(Arc::new(ErrorItem::Shared(self))),
            extensions: None,
        }
    }
}

} // verus!
