//! Strings that are cheap to clone.

use crate::util::{arc_ptr_eq, arc_share};
use std::sync::Arc;
use vstd::prelude::*;
use vstd::std_specs::cmp::PartialEqSpecImpl;
use vstd::std_specs::convert::FromSpecImpl;
use vstd::string::StringExecFns;

verus! {

/// A string handle that is cheap to clone: either text that lives for the
/// whole process, or text behind a reference count.
///
/// Two handles are equal (`==`) when they are the same handle, not when they
/// hold the same text: see [`SharedString::ptr_eq`].
#[derive(Debug)]
pub enum SharedString {
    Arc(Arc<str>),
    Static(&'static str),
}

impl View for SharedString {
    type V = Seq<char>;

    /// The text that the handle holds.
    open spec fn view(&self) -> Seq<char> {
        match self {
            SharedString::Arc(s) => s@,
            SharedString::Static(s) => s@,
        }
    }
}

/// `==` on string slices (`PartialEq::eq` for `str`): whether the two hold
/// the same text.
///
/// Nothing is proved of this function: the contract is what std documents of
/// it.
pub assume_specification[ <str as PartialEq>::eq ](a: &str, b: &str) -> (same: bool)
    ensures
        same == (a@ == b@),
;

/// `std::ptr::eq` on two string slices: whether they start at the same
/// address and have the same length.
///
/// Nothing is proved of this function. Addresses are not part of a slice's
/// value, so the contract claims only what follows from a `true` answer: the
/// same bytes are the same slice.
#[verifier::external_body]
fn str_ptr_eq(a: &str, b: &str) -> (same: bool)
    ensures
        same ==> a == b,
{
    std::ptr::eq(a, b)
}

/// `Arc::<str>::from` on a `String`: moves the text behind a reference count.
///
/// Nothing is proved of this function. The contract claims that the text is
/// unchanged.
#[verifier::external_body]
fn arc_str_from_string(value: String) -> (shared: Arc<str>)
    ensures
        shared@ == value@,
{
    Arc::from(value)
}

impl SharedString {
    /// The text of this handle.
    #[must_use]
    pub fn as_str(&self) -> (text: &str)
        ensures
            text@ == self@,
    {
        match self {
            SharedString::Arc(s) => s,
            SharedString::Static(s) => s,
        }
    }

    /// The text of this handle as a string of its own.
    pub fn to_string(&self) -> (text: String)
        ensures
            text@ == self@,
    {
        String::from_str(self.as_str())
    }

    /// Moves `value` behind a reference count.
    pub fn from_string(value: String) -> (shared: SharedString)
        ensures
            shared is Arc,
            shared@ == value@,
    {
        SharedString::Arc(arc_str_from_string(value))
    }

    /// Whether `self` and `other` are the same handle: both reference-counted
    /// and pointing to one allocation, or both static and pointing to the same
    /// text in memory.
    ///
    /// Handles of different forms are never the same, and handles that are the
    /// same have the same value, and so the same text. Equal text alone does
    /// not make two handles the same.
    pub fn ptr_eq(&self, other: &SharedString) -> (same: bool)
        ensures
            (self is Arc) != (other is Arc) ==> !same,
            same ==> *self == *other,
    {
        match (self, other) {
            (SharedString::Arc(this), SharedString::Arc(that)) => arc_ptr_eq(this, that),
            (SharedString::Static(this), SharedString::Static(that)) => str_ptr_eq(this, that),
            _ => false,
        }
    }
}

impl Clone for SharedString {
    /// Another handle to the same text; no text is copied.
    fn clone(&self) -> (copy: SharedString)
        ensures
            copy == *self,
    {
        match self {
            SharedString::Arc(s) => SharedString::Arc(arc_share(s)),
            SharedString::Static(s) => SharedString::Static(*s),
        }
    }
}

impl PartialEq for SharedString {
    /// Identity, as [`SharedString::ptr_eq`] decides it: handles of different
    /// forms are never equal, whatever their text, and handles that are equal
    /// have the same value.
    fn eq(&self, other: &SharedString) -> (same: bool)
        ensures
            (self is Arc) != (other is Arc) ==> !same,
            same ==> *self == *other,
    {
        self.ptr_eq(other)
    }
}

impl Eq for SharedString {}

impl PartialEqSpecImpl for SharedString {
    /// `==` compares handles by identity, which is no function of their
    /// values: what holds of it is stated on `eq` itself.
    open spec fn obeys_eq_spec() -> bool {
        false
    }

    open spec fn eq_spec(&self, other: &SharedString) -> bool {
        self@ == other@
    }
}

impl From<&'static str> for SharedString {
    fn from(value: &'static str) -> (shared: SharedString) {
        SharedString::Static(value)
    }
}

impl FromSpecImpl<&'static str> for SharedString {
    open spec fn obeys_from_spec() -> bool {
        true
    }

    open spec fn from_spec(value: &'static str) -> SharedString {
        SharedString::Static(value)
    }
}

impl From<Arc<str>> for SharedString {
    fn from(value: Arc<str>) -> (shared: SharedString) {
        SharedString::Arc(value)
    }
}

impl FromSpecImpl<Arc<str>> for SharedString {
    open spec fn obeys_from_spec() -> bool {
        true
    }

    open spec fn from_spec(value: Arc<str>) -> SharedString {
        SharedString::Arc(value)
    }
}

impl From<String> for SharedString {
    fn from(value: String) -> (shared: SharedString)
        ensures
            shared is Arc,
            shared@ == value@,
    {
        SharedString::from_string(value)
    }
}

impl FromSpecImpl<String> for SharedString {
    /// The conversion allocates, and which allocation comes back is no
    /// function of the text: what it returns is stated on `from` itself.
    open spec fn obeys_from_spec() -> bool {
        false
    }

    open spec fn from_spec(value: String) -> SharedString {
        arbitrary()
    }
}

} // verus!
