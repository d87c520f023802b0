//! Extending the errors of results.

use crate::context::ErrorContext;
use crate::extensions::{Extension, ExtensionValue};
use std::any::TypeId;
use std::sync::Arc;
use vstd::prelude::*;

verus! {

/// A helper trait for extending error variants of `Result<T, ErrorContext>`.
pub trait ResExtensions<T>: Sized {
    /// The error of the result, where it has one.
    spec fn failure(self) -> Option<ErrorContext>;

    /// The value of the result, where it has one.
    spec fn success(self) -> Option<T>;

    /// Adds the given extension to the error: see
    /// [`ErrorContext::with_extension`]. A value is handed on as it is.
    fn extend<E: Extension>(self, ext: Arc<E>) -> (res: Result<T, ErrorContext>)
        ensures
            self.success() matches Some(value) ==> res == Ok::<T, ErrorContext>(value),
            self.failure() matches Some(err) ==> res matches Err(extended) && exists|
                value: ExtensionValue,
            | extended.is_with_value(&err, value),
    ;

    /// Adds a dynamically computed extension to the error.
    ///
    /// The function is only called if the result is an error variant.
    fn with_extension<E: Extension, F: FnOnce() -> Arc<E>>(self, ext: F) -> (res: Result<
        T,
        ErrorContext,
    >)
        requires
            self.failure() is Some ==> ext.requires(()),
        ensures
            self.success() matches Some(value) ==> res == Ok::<T, ErrorContext>(value),
            self.failure() matches Some(err) ==> res matches Err(extended) && exists|
                value: ExtensionValue,
            | extended.is_with_value(&err, value),
    ;

    /// Removes any extension of a given type from the top layer of the error:
    /// see [`ErrorContext::without_extension`]. A value is handed on as it is.
    fn without_extension<E: Extension>(self) -> (res: Result<T, ErrorContext>)
        ensures
            self.success() matches Some(value) ==> res == Ok::<T, ErrorContext>(value),
            self.failure() matches Some(err) ==> res matches Err(reduced) && exists|key: TypeId|
                reduced.is_without_value(&err, key),
    ;
}

impl<T> ResExtensions<T> for Result<T, ErrorContext> {
    open spec fn failure(self) -> Option<ErrorContext> {
        match self {
            Ok(_) => None,
            Err(err) => Some(err),
        }
    }

    open spec fn success(self) -> Option<T> {
        match self {
            Ok(value) => Some(value),
            Err(_) => None,
        }
    }

    fn extend<E: Extension>(self, ext: Arc<E>) -> (res: Result<T, ErrorContext>) {
        match self {
            Ok(value) => Ok(value),
            Err(err) => Err(err.with_extension(ext)),
        }
    }

    fn with_extension<E: Extension, F: FnOnce() -> Arc<E>>(self, ext: F) -> (res: Result<
        T,
        ErrorContext,
    >) {
        match self {
            Ok(value) => Ok(value),
            Err(err) => Err(err.with_extension(ext())),
        }
    }

    fn without_extension<E: Extension>(self) -> (res: Result<T, ErrorContext>) {
        match self {
            Ok(value) => Ok(value),
            Err(err) => Err(err.without_extension::<E>()),
        }
    }
}

} // verus!
