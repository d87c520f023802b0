//! The layered error itself.

use crate::chain::{ErrorItem, ErrorRef};
use crate::extensions::{extension_type, type_id_of, Extension, ExtensionStore, ExtensionValue};
use crate::strings::SharedString;
use crate::util::{arc_share, option_ptr_eq};
use std::any::TypeId;
use std::sync::Arc;
use vstd::prelude::*;
use vstd::std_specs::cmp::PartialEqSpecImpl;

verus! {

/// One layer of context around a cause: a message, the error that it
/// explains, and the extensions attached to this layer.
///
/// Cloning is cheap: the cause and the extensions are shared, not copied. A
/// layer's extensions are its own: wrapping an error in a new layer starts
/// with none, and changing them on one clone leaves every other clone as it
/// was.
pub struct ErrorContext {
    pub context: SharedString,
    pub cause: Option<Arc<ErrorItem>>,
    pub extensions: Option<Arc<ExtensionStore>>,
}

impl ErrorContext {
    /// The value that this layer itself holds for each type.
    pub open spec fn own_values(&self) -> Map<TypeId, ExtensionValue> {
        match self.extensions {
            Some(store) => store.values(),
            None => Map::empty(),
        }
    }

    /// The types that this layer itself masks.
    pub open spec fn own_masks(&self) -> Set<TypeId> {
        match self.extensions {
            Some(store) => store.masks(),
            None => Set::empty(),
        }
    }

    /// Whether this error is `before` with `value` attached to its top layer:
    /// the same message and cause, the same masks, and the values of
    /// `before` with `value` in place of any other of its type.
    pub open spec fn is_with_value(&self, before: &ErrorContext, value: ExtensionValue) -> bool {
        &&& self.context == before.context
        &&& self.cause == before.cause
        &&& self.own_values() == before.own_values().insert(extension_type(value), value)
        &&& self.own_masks() == before.own_masks()
    }

    /// Whether this error is `before` without a value of the type `key` on
    /// its top layer: the same message and cause, the same masks, and the
    /// other values of `before`.
    pub open spec fn is_without_value(&self, before: &ErrorContext, key: TypeId) -> bool {
        &&& self.context == before.context
        &&& self.cause == before.cause
        &&& self.own_values() == before.own_values().remove(key)
        &&& self.own_masks() == before.own_masks()
    }

    /// Whether this error is `before` with the type `key` masked on its top
    /// layer: the same message and cause, the same values, and one more mask.
    pub open spec fn is_with_mask(&self, before: &ErrorContext, key: TypeId) -> bool {
        &&& self.context == before.context
        &&& self.cause == before.cause
        &&& self.own_values() == before.own_values()
        &&& self.own_masks() == before.own_masks().insert(key)
    }

    /// Whether this error is a flattened stack of strings in layered form: a
    /// layer without extensions whose message is a string of its own, on top
    /// of nothing or of a flattened stack of such strings.
    pub open spec fn is_flat_copy(&self) -> bool {
        &&& self.context is Arc
        &&& self.extensions is None
        &&& self.cause matches Some(cause) ==> *cause matches ErrorItem::Serializable(stack)
            && stack.is_owned()
    }

    /// Whether this error is a fresh layer around `cause`: `cause` is what it
    /// wraps, and it has no extensions of its own.
    pub open spec fn is_layer_over(&self, cause: ErrorItem) -> bool {
        &&& self.cause matches Some(wrapped) && *wrapped == cause
        &&& self.extensions is None
    }

    /// The chain of errors that starts with this layer: the layer itself,
    /// then the chain of its cause.
    pub open spec fn chain(&self) -> Seq<ErrorRef<'_>>
        decreases self,
    {
        match self.cause {
            Some(cause) => seq![ErrorRef::Context(self)] + cause.chain(),
            None => seq![ErrorRef::Context(self)],
        }
    }
}

impl ErrorContext {
    /// A new error without a cause and without extensions.
    pub fn new<M: Into<SharedString>>(msg: M) -> (node: ErrorContext)
        ensures
            call_ensures(M::into, (msg,), node.context),
            node.cause is None,
            node.extensions is None,
    {
        ErrorContext { context: msg.into(), cause: None, extensions: None }
    }

    /// The message of this layer.
    pub fn message(&self) -> (text: &str)
        ensures
            text@ == self.context@,
    {
        self.context.as_str()
    }

    /// The display text of the error: the message of its top layer.
    pub fn to_string(&self) -> (text: String)
        ensures
            text@ == self.context@,
    {
        self.context.to_string()
    }

    /// Attaches `value` to this layer, in place of the value of the same type
    /// that the layer held, if any.
    ///
    /// The layer gets a store of its own: a clone made before the call, and
    /// the layers of the cause, keep the extensions that they had.
    pub fn insert_extension(&mut self, value: ExtensionValue)
        ensures
            final(self).is_with_value(old(self), value),
    {
        let store = match &self.extensions {
            Some(store) => store.with_value(value),
            None => ExtensionStore::new().with_value(value),
        };
        self.extensions = Some(Arc::new(store));
    }

    /// Removes the value of the type `key` from this layer, and returns it.
    ///
    /// Only this layer's own value is removed: what the layers of the cause
    /// hold stays, and so do this layer's masks.
    pub fn remove_extension_by_id(&mut self, key: TypeId) -> (removed: Option<ExtensionValue>)
        ensures
            final(self).is_without_value(old(self), key),
            removed == if old(self).own_values().contains_key(key) {
                Some(old(self).own_values()[key])
            } else {
                None
            },
            removed matches Some(value) ==> extension_type(value) == key,
    {
        let (removed, store) = match &self.extensions {
            Some(store) => match store.get(key) {
                Some(value) => (Some(value.share()), Some(store.without_value(key))),
                None => (None, None),
            },
            None => (None, None),
        };
        if let Some(store) = store {
            self.extensions = Some(Arc::new(store));
        } else {
            assert(self.own_values().remove(key) =~= self.own_values());
        }
        removed
    }

    /// Masks the type `key` on this layer: a search that reaches this layer
    /// and finds no value of that type on it ends there, with nothing.
    pub fn mask_extension_by_id(&mut self, key: TypeId)
        ensures
            final(self).is_with_mask(old(self), key),
    {
        let store = match &self.extensions {
            Some(store) => store.with_mask(key),
            None => ExtensionStore::new().with_mask(key),
        };
        self.extensions = Some(Arc::new(store));
    }

    /// Attaches `ext` to this layer, in place of the extension of the same
    /// type that the layer held, if any: see [`ErrorContext::insert_extension`].
    pub fn add_extension<E: Extension>(&mut self, ext: Arc<E>)
        ensures
            exists|value: ExtensionValue| final(self).is_with_value(old(self), value),
    {
        self.insert_extension(ExtensionValue::new(ext));
    }

    /// This error with `ext` attached to its top layer: see
    /// [`ErrorContext::add_extension`].
    #[must_use]
    pub fn with_extension<E: Extension>(self, ext: Arc<E>) -> (extended: ErrorContext)
        ensures
            exists|value: ExtensionValue| extended.is_with_value(&self, value),
    {
        let mut extended = self;
        extended.add_extension(ext);
        extended
    }

    /// Removes the extension of type `E` from this layer, and returns it: see
    /// [`ErrorContext::remove_extension_by_id`].
    pub fn remove_extension<E: Extension>(&mut self) -> (removed: Option<Arc<E>>)
        ensures
            exists|key: TypeId|
                {
                    &&& final(self).is_without_value(old(self), key)
                    &&& removed is Some ==> old(self).own_values().contains_key(key)
                },
    {
        let key = type_id_of::<E>();
        match self.remove_extension_by_id(key) {
            Some(value) => value.downcast::<E>(),
            None => None,
        }
    }

    /// This error without an extension of type `E` on its top layer: see
    /// [`ErrorContext::remove_extension`].
    #[must_use]
    pub fn without_extension<E: Extension>(self) -> (reduced: ErrorContext)
        ensures
            exists|key: TypeId| reduced.is_without_value(&self, key),
    {
        let mut reduced = self;
        let _ = reduced.remove_extension::<E>();
        reduced
    }

    /// Masks extensions of type `E` on this layer: see
    /// [`ErrorContext::mask_extension_by_id`].
    pub fn mask_extension<E: Extension>(&mut self)
        ensures
            exists|key: TypeId| final(self).is_with_mask(old(self), key),
    {
        self.mask_extension_by_id(type_id_of::<E>());
    }

    /// Whether `self` and `other` are the same error: the same message handle,
    /// the same cause and the same store of extensions, each by identity.
    ///
    /// A clone is the same error as the one it was made from until one of the
    /// two gets other extensions. Errors that are the same have the same value;
    /// errors built apart are not the same, whatever they hold.
    ///
    /// Where the two differ in a way that their values show (a message handle
    /// of another form, a cause or a store on one side only), they are not the
    /// same. Everywhere else the addresses decide, which are no part of the
    /// values: the contract then says only what follows from the answer.
    pub fn ptr_eq(&self, other: &ErrorContext) -> (same: bool)
        ensures
            same ==> *self == *other,
            (self.context is Arc) != (other.context is Arc) ==> !same,
            (self.cause is None) != (other.cause is None) ==> !same,
            (self.extensions is None) != (other.extensions is None) ==> !same,
    {
        self.context.ptr_eq(&other.context) && option_ptr_eq(&self.cause, &other.cause)
            && option_ptr_eq(&self.extensions, &other.extensions)
    }
}

impl PartialEq for ErrorContext {
    /// Identity, as [`ErrorContext::ptr_eq`] decides it: errors that differ in
    /// a way that their values show are never equal, and errors that are equal
    /// have the same value.
    fn eq(&self, other: &ErrorContext) -> (same: bool)
        ensures
            same ==> *self == *other,
            (self.context is Arc) != (other.context is Arc) ==> !same,
            (self.cause is None) != (other.cause is None) ==> !same,
            (self.extensions is None) != (other.extensions is None) ==> !same,
    {
        self.ptr_eq(other)
    }
}

impl Eq for ErrorContext {}

impl PartialEqSpecImpl for ErrorContext {
    /// `==` compares errors by identity, which is no function of their
    /// values: what holds of it is stated on `eq` itself.
    open spec fn obeys_eq_spec() -> bool {
        false
    }

    open spec fn eq_spec(&self, other: &ErrorContext) -> bool {
        *self == *other
    }
}

impl Clone for ErrorContext {
    /// Another handle to the same error: the message, the cause and the
    /// extensions are shared, not copied.
    fn clone(&self) -> (copy: ErrorContext)
        ensures
            copy == *self,
    {
        let cause = match &self.cause {
            Some(cause) => Some(arc_share(cause)),
            None => None,
        };
        let extensions = match &self.extensions {
            Some(store) => Some(arc_share(store)),
            None => None,
        };
        ErrorContext { context: self.context.clone(), cause, extensions }
    }
}

} // verus!
