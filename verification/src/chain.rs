//! The errors that a chain is made of.

use crate::context::ErrorContext;
use crate::extensions::ExtensionValue;
use crate::serializable::SerializableError;
use std::any::TypeId;
use std::sync::Arc;
use vstd::prelude::*;

verus! {

/// An error of another kind: its display text and the error that caused it.
pub struct ForeignError {
    pub message: String,
    pub source: Option<Arc<ErrorItem>>,
}

/// An error that can stand in a chain of causes.
pub enum ErrorItem {
    /// A layer of context.
    Context(ErrorContext),
    /// A flattened stack.
    Serializable(SerializableError),
    /// An error of another kind.
    Foreign(ForeignError),
    /// An error behind one more shared pointer.
    Shared(Arc<ErrorItem>),
}

/// A borrowed error of a chain.
#[derive(Clone, Copy)]
pub enum ErrorRef<'a> {
    /// A layer of context.
    Context(&'a ErrorContext),
    /// A flattened stack.
    Serializable(&'a SerializableError),
    /// An error of another kind.
    Foreign(&'a ForeignError),
    /// An error of a kind yet to be looked at, maybe behind shared pointers.
    /// An [`ErrorIterator`](crate::ErrorIterator) never hands this one out.
    Item(&'a ErrorItem),
}

impl ForeignError {
    /// The chain of errors that starts with this one.
    pub open spec fn chain(&self) -> Seq<ErrorRef<'_>>
        decreases self,
    {
        match self.source {
            Some(source) => seq![ErrorRef::Foreign(self)] + source.chain(),
            None => seq![ErrorRef::Foreign(self)],
        }
    }
}

impl ErrorItem {
    /// The chain of errors that starts with this one, each freed of the
    /// shared pointers around it.
    pub open spec fn chain(&self) -> Seq<ErrorRef<'_>>
        decreases self,
    {
        match self {
            ErrorItem::Context(layer) => layer.chain(),
            ErrorItem::Serializable(stack) => stack.chain(),
            ErrorItem::Foreign(foreign) => foreign.chain(),
            ErrorItem::Shared(inner) => inner.chain(),
        }
    }

    /// The number of shared pointers around the error.
    pub open spec fn indirections(&self) -> nat
        decreases self,
    {
        match self {
            ErrorItem::Shared(inner) => 1 + inner.indirections(),
            _ => 0,
        }
    }
}

impl SerializableError {
    /// The chain of errors that starts with this stack: the stack itself,
    /// then each of the stacks below it.
    pub open spec fn chain(&self) -> Seq<ErrorRef<'_>>
        decreases self,
    {
        match self.cause {
            Some(cause) => seq![ErrorRef::Serializable(self)] + cause.chain(),
            None => seq![ErrorRef::Serializable(self)],
        }
    }
}

impl<'a> ErrorRef<'a> {
    /// The chain of errors that starts with this one.
    pub open spec fn chain(self) -> Seq<ErrorRef<'a>> {
        match self {
            ErrorRef::Context(layer) => layer.chain(),
            ErrorRef::Serializable(stack) => stack.chain(),
            ErrorRef::Foreign(foreign) => foreign.chain(),
            ErrorRef::Item(item) => item.chain(),
        }
    }

    /// The number of shared pointers around the error.
    pub open spec fn indirections(self) -> nat {
        match self {
            ErrorRef::Item(item) => 1 + item.indirections(),
            _ => 0,
        }
    }

    /// The display text of the error.
    pub open spec fn message(self) -> Seq<char>
        recommends
            !(self is Item),
    {
        match self {
            ErrorRef::Context(layer) => layer.context@,
            ErrorRef::Serializable(stack) => stack.context@,
            ErrorRef::Foreign(foreign) => foreign.message@,
            ErrorRef::Item(item) => Seq::empty(),
        }
    }
}

/// The display texts of the errors of `chain`, in order.
pub open spec fn texts(chain: Seq<ErrorRef<'_>>) -> Seq<Seq<char>> {
    Seq::new(chain.len(), |i: int| chain[i].message())
}

/// The extension of type `key` that a search of `chain` finds.
///
/// The search takes the layers of context in order and passes over every
/// other error. A layer that holds a value for `key` ends the search with
/// that value. A layer that holds none but masks `key` ends the search with
/// nothing, whatever the layers below hold. A chain that runs out ends it
/// with nothing.
pub open spec fn find_in(chain: Seq<ErrorRef<'_>>, key: TypeId) -> Option<ExtensionValue>
    decreases chain.len(),
{
    if chain.len() == 0 {
        None
    } else {
        match chain[0] {
            ErrorRef::Context(layer) => if layer.own_values().contains_key(key) {
                Some(layer.own_values()[key])
            } else if layer.own_masks().contains(key) {
                None
            } else {
                find_in(chain.skip(1), key)
            },
            _ => find_in(chain.skip(1), key),
        }
    }
}

} // verus!
