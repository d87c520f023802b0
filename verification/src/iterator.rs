//! Walking a chain of causes.

use crate::chain::{find_in, texts, ErrorItem, ErrorRef, ForeignError};
use crate::context::ErrorContext;
use crate::extensions::{extension_type, type_id_of, Extension, ExtensionValue};
use crate::laws::law_flatten_keeps_texts;
use crate::serializable::SerializableError;
use crate::strings::SharedString;
use std::any::TypeId;
use std::sync::Arc;
use vstd::prelude::*;
use vstd::std_specs::convert::FromSpecImpl;

verus! {

/// Whether `handle` is the message that flattening takes from `item`: the
/// message handle itself where the error is one of this library's, else the
/// error's display text as a string of its own.
pub open spec fn carries(item: ErrorRef<'_>, handle: SharedString) -> bool {
    match item {
        ErrorRef::Context(layer) => handle == layer.context,
        ErrorRef::Serializable(stack) => handle == stack.context,
        ErrorRef::Foreign(foreign) => handle is Arc && handle@ == foreign.message@,
        ErrorRef::Item(_) => false,
    }
}

/// Whether `flat` is `chain` flattened.
///
/// A chain that starts with a flattened stack flattens to that very stack.
/// Any other chain flattens to the message of its first error on top of the
/// rest of the chain flattened, and to a stack without a cause where there is
/// no rest.
pub open spec fn flattens(chain: Seq<ErrorRef<'_>>, flat: SerializableError) -> bool
    decreases chain.len(), 0nat,
{
    chain.len() > 0 && match chain[0] {
        ErrorRef::Serializable(stack) => flat == *stack,
        first => carries(first, flat.context) && flattens_to(chain.skip(1), flat.cause),
    }
}

/// Whether `cause` is `chain` flattened, where an empty chain flattens to no
/// cause at all.
pub open spec fn flattens_to(chain: Seq<ErrorRef<'_>>, cause: Option<Arc<SerializableError>>) -> bool
    decreases chain.len(), 1nat,
{
    if chain.len() == 0 {
        cause is None
    } else {
        cause matches Some(flat) && flattens(chain, *flat)
    }
}

/// Extracts the message of an error: the handle itself where the error is one
/// of this library's, else the display text as a string of its own.
fn extract_message(err: ErrorRef<'_>) -> (handle: SharedString)
    requires
        !(err is Item),
    ensures
        carries(err, handle),
{
    match err {
        ErrorRef::Serializable(stack) => stack.context.clone(),
        ErrorRef::Context(layer) => layer.context.clone(),
        ErrorRef::Foreign(foreign) => SharedString::from_string(foreign.message.clone()),
        ErrorRef::Item(_) => unreached(),
    }
}

/// Iterates over an error and its chain of causes.
///
/// Before it hands an error out, the iterator takes away the shared pointers
/// around it, so that the error shows what kind it is and what caused it.
pub struct ErrorIterator<'a> {
    next_item: Option<ErrorRef<'a>>,
}

impl<'a> ErrorIterator<'a> {
    /// The errors that the iterator has yet to hand out, in order.
    pub closed spec fn remaining(self) -> Seq<ErrorRef<'a>> {
        match self.next_item {
            Some(item) => item.chain(),
            None => Seq::empty(),
        }
    }

    /// An iterator over `seed` and its chain of causes.
    pub fn new(seed: ErrorRef<'a>) -> (iter: ErrorIterator<'a>)
        ensures
            iter.remaining() == seed.chain(),
    {
        ErrorIterator { next_item: Some(seed) }
    }

    /// Whether the iterator has handed out all of its errors. One that has
    /// handed out none yet never has.
    pub fn is_empty(&self) -> (empty: bool)
        ensures
            empty == (self.remaining().len() == 0),
    {
        match &self.next_item {
            Some(item) => {
                proof {
                    lemma_ref_chain_nonempty(*item);
                }
                false
            },
            None => true,
        }
    }

    /// Hands out the next error of the chain, or `None` at its end.
    pub fn next(&mut self) -> (item: Option<ErrorRef<'a>>)
        ensures
            old(self).remaining().len() == 0 ==> item is None && final(self).remaining().len()
                == 0,
            old(self).remaining().len() > 0 ==> {
                &&& item == Some(old(self).remaining()[0])
                &&& !(item->0 is Item)
                &&& final(self).remaining() == old(self).remaining().skip(1)
            },
    {
        let first = match self.next_item {
            Some(first) => first,
            None => {
                return None;
            },
        };
        let mut err = first;
        loop
            invariant_except_break
                err.chain() == first.chain(),
            ensures
                err.chain() == first.chain(),
                !(err is Item),
            decreases err.indirections(),
        {
            match err {
                ErrorRef::Item(item) => {
                    err = match item {
                        ErrorItem::Context(layer) => ErrorRef::Context(layer),
                        ErrorItem::Serializable(stack) => ErrorRef::Serializable(stack),
                        ErrorItem::Foreign(foreign) => ErrorRef::Foreign(foreign),
                        ErrorItem::Shared(inner) => ErrorRef::Item(&**inner),
                    };
                },
                _ => {
                    break;
                },
            }
        }
        let next = match err {
            ErrorRef::Context(layer) => match &layer.cause {
                Some(cause) => Some(ErrorRef::Item(&**cause)),
                None => None,
            },
            ErrorRef::Serializable(stack) => match &stack.cause {
                Some(cause) => Some(ErrorRef::Serializable(&**cause)),
                None => None,
            },
            ErrorRef::Foreign(foreign) => match &foreign.source {
                Some(source) => Some(ErrorRef::Item(&**source)),
                None => None,
            },
            ErrorRef::Item(_) => None,
        };
        self.next_item = next;
        Some(err)
    }

    /// Copies and flattens the rest of the chain into a [`SerializableError`]:
    /// see [`flattens`].
    ///
    /// The iterator must have an error left. One that has handed out none yet
    /// always has.
    #[must_use]
    pub fn serializable_copy(self) -> (flat: SerializableError)
        requires
            self.remaining().len() > 0,
        ensures
            flattens(self.remaining(), flat),
            flat.messages() == texts(self.remaining()),
    {
        let ghost chain = self.remaining();
        proof {
            assert forall|flat: SerializableError| flattens(chain, flat) implies flat.messages()
                == texts(chain) by {
                law_flatten_keeps_texts(self.next_item->0, &flat);
            }
        }
        let mut iter = self;
        let first = match iter.next() {
            Some(first) => first,
            None => unreached(),
        };
        if let ErrorRef::Serializable(stack) = first {
            return stack.clone();
        }
        let mut handles: Vec<SharedString> = Vec::new();
        handles.push(extract_message(first));
        let mut tail: Option<Arc<SerializableError>> = None;
        loop
            invariant_except_break
                tail is None,
                iter.remaining() == chain.skip(handles@.len() as int),
            invariant
                1 <= handles@.len() <= chain.len(),
                forall|j: int|
                    0 <= j < handles@.len() ==> !(#[trigger] chain[j] is Serializable) && carries(
                        chain[j],
                        handles@[j],
                    ),
            ensures
                flattens_to(chain.skip(handles@.len() as int), tail),
            decreases iter.remaining().len(),
        {
            match iter.next() {
                None => {
                    break;
                },
                Some(ErrorRef::Serializable(stack)) => {
                    tail = Some(Arc::new(stack.clone()));
                    break;
                },
                Some(item) => {
                    handles.push(extract_message(item));
                },
            }
        }
        let mut cause = tail;
        while handles.len() > 1
            invariant
                1 <= handles@.len() <= chain.len(),
                flattens_to(chain.skip(handles@.len() as int), cause),
                forall|j: int|
                    0 <= j < handles@.len() ==> !(#[trigger] chain[j] is Serializable) && carries(
                        chain[j],
                        handles@[j],
                    ),
            decreases handles@.len(),
        {
            let ghost done = handles@.len() as int;
            let handle = match handles.pop() {
                Some(handle) => handle,
                None => unreached(),
            };
            assert(chain.skip(done - 1).skip(1) =~= chain.skip(done));
            cause = Some(Arc::new(SerializableError { context: handle, cause }));
        }
        let top = match handles.pop() {
            Some(top) => top,
            None => unreached(),
        };
        SerializableError { context: top, cause }
    }

    /// Retrieves the most recent extension of type `E` from the rest of the
    /// chain.
    ///
    /// The search is [`ErrorIterator::find_extension_by_id`] for the
    /// identifier of `E`. What it finds is a value that a layer of the chain
    /// holds under the identifier of that value's own type.
    #[must_use]
    pub fn find_extension<E: Extension>(self) -> (found: Option<Arc<E>>)
        ensures
            found is Some ==> exists|value: ExtensionValue|
                find_in(self.remaining(), extension_type(value)) == Some(value),
    {
        match self.find_extension_by_id(type_id_of::<E>()) {
            Some(value) => value.downcast::<E>(),
            None => None,
        }
    }

    /// Searches the rest of the chain for an extension of the type `key`:
    /// see [`find_in`].
    pub fn find_extension_by_id(self, key: TypeId) -> (found: Option<ExtensionValue>)
        ensures
            found == find_in(self.remaining(), key),
            found matches Some(value) ==> extension_type(value) == key,
    {
        let mut iter = self;
        loop
            invariant
                find_in(iter.remaining(), key) == find_in(self.remaining(), key),
            decreases iter.remaining().len(),
        {
            match iter.next() {
                None => {
                    return None;
                },
                Some(ErrorRef::Context(layer)) => {
                    if let Some(store) = &layer.extensions {
                        if let Some(value) = store.get(key) {
                            return Some(value.share());
                        }
                        if store.is_masked(key) {
                            return None;
                        }
                    }
                },
                Some(_) => {},
            }
        }
    }
}

/// An error has at least itself in its chain.
pub proof fn lemma_chain_nonempty(item: &ErrorItem)
    ensures
        item.chain().len() > 0,
    decreases item,
{
    match item {
        ErrorItem::Context(layer) => {
            assert(layer.chain().len() > 0);
        },
        ErrorItem::Serializable(stack) => {
            assert(stack.chain().len() > 0);
        },
        ErrorItem::Foreign(foreign) => {
            assert(foreign.chain().len() > 0);
        },
        ErrorItem::Shared(inner) => {
            lemma_chain_nonempty(&**inner);
        },
    }
}

/// A borrowed error has at least itself in its chain.
pub proof fn lemma_ref_chain_nonempty(item: ErrorRef<'_>)
    ensures
        item.chain().len() > 0,
{
    if let ErrorRef::Item(inner) = item {
        lemma_chain_nonempty(inner);
    }
}

impl<'a> From<ErrorRef<'a>> for ErrorIterator<'a> {
    /// An iterator over `seed` and its chain of causes.
    fn from(seed: ErrorRef<'a>) -> (iter: ErrorIterator<'a>)
        ensures
            iter.remaining() == seed.chain(),
    {
        ErrorIterator { next_item: Some(seed) }
    }
}

impl<'a> FromSpecImpl<ErrorRef<'a>> for ErrorIterator<'a> {
    open spec fn obeys_from_spec() -> bool {
        true
    }

    closed spec fn from_spec(seed: ErrorRef<'a>) -> ErrorIterator<'a> {
        ErrorIterator { next_item: Some(seed) }
    }
}

/// Errors whose chain of causes can be walked.
pub trait IntoErrorIterator {
    /// The chain of errors that starts with this one.
    spec fn errors(&self) -> Seq<ErrorRef<'_>>;

    /// Creates an iterator over this error and its chain of causes.
    #[must_use]
    fn error_chain(&self) -> (iter: ErrorIterator<'_>)
        ensures
            iter.remaining() == self.errors(),
            iter.remaining().len() > 0,
    ;

    /// Copies and flattens the error stack into a [`SerializableError`]: see
    /// [`flattens`].
    #[must_use]
    fn serializable_copy(&self) -> (flat: SerializableError)
        ensures
            flattens(self.errors(), flat),
            flat.messages() == texts(self.errors()),
    {
        self.error_chain().serializable_copy()
    }

    /// Searches the error stack for an extension of the type `key`: see
    /// [`find_in`].
    #[must_use]
    fn find_extension_by_id(&self, key: TypeId) -> (found: Option<ExtensionValue>)
        ensures
            found == find_in(self.errors(), key),
            found matches Some(value) ==> extension_type(value) == key,
    {
        self.error_chain().find_extension_by_id(key)
    }

    /// Retrieves the most recent extension of type `E` from the error stack:
    /// see [`ErrorIterator::find_extension`].
    #[must_use]
    fn find_extension<E: Extension>(&self) -> (found: Option<Arc<E>>)
        ensures
            found is Some ==> exists|value: ExtensionValue|
                find_in(self.errors(), extension_type(value)) == Some(value),
    {
        self.error_chain().find_extension::<E>()
    }
}

impl IntoErrorIterator for ErrorContext {
    open spec fn errors(&self) -> Seq<ErrorRef<'_>> {
        self.chain()
    }

    fn error_chain(&self) -> (iter: ErrorIterator<'_>) {
        ErrorIterator::new(ErrorRef::Context(self))
    }
}

impl IntoErrorIterator for SerializableError {
    open spec fn errors(&self) -> Seq<ErrorRef<'_>> {
        self.chain()
    }

    fn error_chain(&self) -> (iter: ErrorIterator<'_>) {
        ErrorIterator::new(ErrorRef::Serializable(self))
    }
}

impl IntoErrorIterator for ForeignError {
    open spec fn errors(&self) -> Seq<ErrorRef<'_>> {
        self.chain()
    }

    fn error_chain(&self) -> (iter: ErrorIterator<'_>) {
        ErrorIterator::new(ErrorRef::Foreign(self))
    }
}

impl IntoErrorIterator for ErrorItem {
    open spec fn errors(&self) -> Seq<ErrorRef<'_>> {
        self.chain()
    }

    fn error_chain(&self) -> (iter: ErrorIterator<'_>) {
        proof {
            lemma_chain_nonempty(self);
        }
        ErrorIterator::new(ErrorRef::Item(self))
    }
}

} // verus!
