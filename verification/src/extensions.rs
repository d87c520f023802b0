//! Typed extensions and the store that one layer of an error keeps them in.

use std::any::{Any, TypeId};
use std::sync::Arc;
use vstd::prelude::*;
use vstd::std_specs::convert::FromSpecImpl;

verus! {

/// This trait should be implemented by any type that is intended to be used
/// as an error extension.
pub trait Extension: 'static + Send + Sync {

}

/// `std::any::TypeId`: the identity of a type at run time. The store is keyed
/// by it.
#[verifier::external_type_specification]
#[verifier::external_body]
pub struct ExTypeId(TypeId);

/// `==` on `TypeId` (`PartialEq::eq`): two identifiers are equal exactly when
/// they are the same identifier.
///
/// Nothing is proved of this function: the contract is what std documents of
/// it.
pub assume_specification[ <TypeId as PartialEq>::eq ](a: &TypeId, b: &TypeId) -> (same: bool)
    ensures
        same == (*a == *b),
;

/// An extension whose type has been erased: a shared value of some type that
/// implements [`Extension`].
///
/// The value is held as `Arc<dyn Any + Send + Sync>`. The verifier takes no
/// trait object with more than one trait, so the whole struct is opaque to
/// it: nothing is known of a value but what the functions below state. A
/// value is made by [`ExtensionValue::new`], handed on by
/// [`ExtensionValue::share`], and turned back into a typed value by
/// [`ExtensionValue::downcast`].
#[verifier::external_body]
pub struct ExtensionValue {
    inner: Arc<dyn Any + Send + Sync>,
}

/// The identifier of the type of the value that `value` holds.
pub uninterp spec fn extension_type(value: ExtensionValue) -> TypeId;

impl ExtensionValue {
    /// Erases the type of `value`: the unsizing coercion from `Arc<E>` to
    /// `Arc<dyn Any + Send + Sync>`.
    ///
    /// Nothing is proved of this function, and its contract claims nothing.
    #[verifier::external_body]
    pub(crate) fn new<E: Extension>(value: Arc<E>) -> (erased: ExtensionValue) {
        ExtensionValue { inner: value }
    }

    /// `Any::type_id` on the value held: the identifier of its type.
    ///
    /// Nothing is proved of this function. The identifier depends on the value
    /// alone; the contract gives it its name.
    #[verifier::external_body]
    pub(crate) fn type_id(&self) -> (id: TypeId)
        ensures
            id == extension_type(*self),
    {
        Any::type_id(&*self.inner)
    }

    /// `Arc::clone`: another handle to the same value.
    ///
    /// Nothing is proved of this function. The contract claims that the new
    /// handle holds the value of the old one.
    #[verifier::external_body]
    pub(crate) fn share(&self) -> (shared: ExtensionValue)
        ensures
            shared == *self,
    {
        ExtensionValue { inner: Arc::clone(&self.inner) }
    }

    /// `Arc::downcast`: the value as an `Arc<E>`, if its type is `E`.
    ///
    /// Nothing is proved of this function, and its contract claims nothing.
    #[verifier::external_body]
    pub(crate) fn downcast<E: Extension>(self) -> (typed: Option<Arc<E>>) {
        self.inner.downcast::<E>().ok()
    }
}

impl<E: Extension> From<Arc<E>> for ExtensionValue {
    /// Erases the type of `value`, so that it can be handed on as an
    /// extension of any type and attached with
    /// [`ErrorContext::insert_extension`](crate::ErrorContext::insert_extension).
    ///
    /// Nothing can be said of the result in terms of `value`: what ties the
    /// two is the type `E`, which no value shows.
    fn from(value: Arc<E>) -> (erased: ExtensionValue) {
        ExtensionValue::new(value)
    }
}

impl<E: Extension> FromSpecImpl<Arc<E>> for ExtensionValue {
    /// The erased value is opaque: the conversion has no specification.
    open spec fn obeys_from_spec() -> bool {
        false
    }

    open spec fn from_spec(value: Arc<E>) -> ExtensionValue {
        arbitrary()
    }
}

/// `TypeId::of`: the identifier of the type `E`.
///
/// Nothing is proved of this function, and its contract claims nothing.
#[verifier::external_body]
pub(crate) fn type_id_of<E: Extension>() -> (id: TypeId) {
    TypeId::of::<E>()
}

/// One value of the store, under the identifier of its type.
struct StoredValue {
    key: TypeId,
    value: ExtensionValue,
}

/// Whether `values` maps exactly the keys of `entries`, each to the value of
/// its entry.
spec fn holds_values(entries: Seq<StoredValue>, values: Map<TypeId, ExtensionValue>) -> bool {
    &&& forall|i: int|
        0 <= i < entries.len() ==> {
            &&& values.contains_key(#[trigger] entries[i].key)
            &&& values[entries[i].key] == entries[i].value
            &&& extension_type(entries[i].value) == entries[i].key
        }
    &&& forall|key: TypeId| #[trigger]
        values.contains_key(key) ==> exists|i: int| 0 <= i < entries.len() && entries[i].key == key
}

/// Whether `masks` holds exactly the keys in `masked`.
spec fn holds_masks(masked: Seq<TypeId>, masks: Set<TypeId>) -> bool {
    &&& forall|i: int| 0 <= i < masked.len() ==> masks.contains(#[trigger] masked[i])
    &&& forall|key: TypeId| #[trigger]
        masks.contains(key) ==> exists|i: int| 0 <= i < masked.len() && masked[i] == key
}

/// Adding an entry adds its key to what the entries hold.
proof fn lemma_push_value(
    entries: Seq<StoredValue>,
    values: Map<TypeId, ExtensionValue>,
    entry: StoredValue,
)
    requires
        holds_values(entries, values.remove(entry.key)),
        extension_type(entry.value) == entry.key,
    ensures
        holds_values(entries.push(entry), values.insert(entry.key, entry.value)),
{
    let longer = entries.push(entry);
    let more = values.insert(entry.key, entry.value);
    assert forall|i: int| 0 <= i < longer.len() implies {
        &&& more.contains_key(#[trigger] longer[i].key)
        &&& more[longer[i].key] == longer[i].value
        &&& extension_type(longer[i].value) == longer[i].key
    } by {}
    assert forall|key: TypeId| #[trigger] more.contains_key(key) implies exists|i: int|
        0 <= i < longer.len() && longer[i].key == key by {
        if key == entry.key {
            assert(longer[entries.len() as int].key == key);
        } else {
            assert(values.remove(entry.key).contains_key(key));
            let i = choose|i: int| 0 <= i < entries.len() && entries[i].key == key;
            assert(longer[i].key == key);
        }
    }
}

/// Adding a key to the masked keys adds it to the set that they make.
proof fn lemma_push_mask(masked: Seq<TypeId>, masks: Set<TypeId>, key: TypeId)
    requires
        holds_masks(masked, masks),
    ensures
        holds_masks(masked.push(key), masks.insert(key)),
{
    let longer = masked.push(key);
    let more = masks.insert(key);
    assert forall|i: int| 0 <= i < longer.len() implies more.contains(#[trigger] longer[i]) by {}
    assert forall|other: TypeId| #[trigger] more.contains(other) implies exists|i: int|
        0 <= i < longer.len() && longer[i] == other by {
        if other == key {
            assert(longer[masked.len() as int] == other);
        } else {
            let i = choose|i: int| 0 <= i < masked.len() && masked[i] == other;
            assert(longer[i] == other);
        }
    }
}

/// The extensions of one layer: at most one value for each type, and a set of
/// masked types.
///
/// Values and masks live in separate key spaces: a type can have a value, a
/// mask, both or neither. A mask is the identifier of the masked type and
/// nothing else: no marker value stands for it, so there is nothing to
/// allocate or to share between stores. A store is never changed once it is
/// built: each operation that "changes" one builds another and leaves the
/// first as it was, for whoever still holds it.
///
/// The store is a pair of vectors that are searched in order. A layer holds a
/// handful of extensions at most, and of a hash map keyed by `TypeId` the
/// verifier knows nothing: not even that a key is found after it was put in.
pub struct ExtensionStore {
    entries: Vec<StoredValue>,
    masked: Vec<TypeId>,
    value_model: Ghost<Map<TypeId, ExtensionValue>>,
    mask_model: Ghost<Set<TypeId>>,
}

impl ExtensionStore {
    #[verifier::type_invariant]
    spec fn consistent(self) -> bool {
        &&& holds_values(self.entries@, self.value_model@)
        &&& holds_masks(self.masked@, self.mask_model@)
    }

    /// The value that the store holds for each type.
    pub closed spec fn values(self) -> Map<TypeId, ExtensionValue> {
        self.value_model@
    }

    /// The types that the store masks.
    pub closed spec fn masks(self) -> Set<TypeId> {
        self.mask_model@
    }

    /// A store without values and without masks.
    pub fn new() -> (store: ExtensionStore)
        ensures
            store.values() == Map::<TypeId, ExtensionValue>::empty(),
            store.masks() == Set::<TypeId>::empty(),
    {
        ExtensionStore {
            entries: Vec::new(),
            masked: Vec::new(),
            value_model: Ghost(Map::empty()),
            mask_model: Ghost(Set::empty()),
        }
    }

    /// The value stored for the type `key`, if there is one. A value is only
    /// ever stored under the identifier of its own type.
    pub fn get(&self, key: TypeId) -> (found: Option<&ExtensionValue>)
        ensures
            found == if self.values().contains_key(key) {
                Some(&self.values()[key])
            } else {
                None
            },
            found matches Some(value) ==> extension_type(*value) == key,
    {
        proof {
            use_type_invariant(self);
        }
        let mut i: usize = 0;
        while i < self.entries.len()
            invariant
                i <= self.entries@.len(),
                forall|j: int| 0 <= j < i ==> self.entries@[j].key != key,
                holds_values(self.entries@, self.value_model@),
            decreases self.entries@.len() - i,
        {
            if self.entries[i].key == key {
                return Some(&self.entries[i].value);
            }
            i += 1;
        }
        None
    }

    /// Whether the type `key` is masked.
    pub fn is_masked(&self, key: TypeId) -> (masked: bool)
        ensures
            masked == self.masks().contains(key),
    {
        proof {
            use_type_invariant(self);
        }
        let mut i: usize = 0;
        while i < self.masked.len()
            invariant
                i <= self.masked@.len(),
                forall|j: int| 0 <= j < i ==> self.masked@[j] != key,
                holds_masks(self.masked@, self.mask_model@),
            decreases self.masked@.len() - i,
        {
            if self.masked[i] == key {
                return true;
            }
            i += 1;
        }
        false
    }

    /// A copy of the masked types.
    fn copy_masks(&self) -> (masked: Vec<TypeId>)
        ensures
            masked@ == self.masked@,
    {
        let mut masked: Vec<TypeId> = Vec::new();
        let mut i: usize = 0;
        while i < self.masked.len()
            invariant
                i <= self.masked@.len(),
                masked@ == self.masked@.take(i as int),
            decreases self.masked@.len() - i,
        {
            masked.push(self.masked[i]);
            i += 1;
        }
        masked
    }

    /// The values of the store but the one for `key`, each shared with this
    /// store.
    fn share_others(&self, key: TypeId) -> (others: Vec<StoredValue>)
        ensures
            holds_values(others@, self.values().remove(key)),
    {
        proof {
            use_type_invariant(self);
        }
        let ghost rest = self.value_model@.remove(key);
        let mut others: Vec<StoredValue> = Vec::new();
        let mut i: usize = 0;
        while i < self.entries.len()
            invariant
                i <= self.entries@.len(),
                rest == self.value_model@.remove(key),
                holds_values(self.entries@, self.value_model@),
                forall|j: int|
                    0 <= j < others@.len() ==> {
                        &&& rest.contains_key(#[trigger] others@[j].key)
                        &&& rest[others@[j].key] == others@[j].value
                        &&& extension_type(others@[j].value) == others@[j].key
                    },
                forall|j: int|
                    0 <= j < i && (#[trigger] self.entries@[j]).key != key ==> exists|m: int|
                        0 <= m < others@.len() && others@[m].key == self.entries@[j].key,
            decreases self.entries@.len() - i,
        {
            if !(self.entries[i].key == key) {
                let ghost before = others@;
                others.push(
                    StoredValue { key: self.entries[i].key, value: self.entries[i].value.share() },
                );
                assert(others@[before.len() as int].key == self.entries@[i as int].key);
                assert forall|j: int|
                    0 <= j < i + 1 && (#[trigger] self.entries@[j]).key != key implies exists|
                    m: int,
                | 0 <= m < others@.len() && others@[m].key == self.entries@[j].key by {
                    if j < i {
                        let m = choose|m: int|
                            0 <= m < before.len() && before[m].key == self.entries@[j].key;
                        assert(others@[m].key == self.entries@[j].key);
                    }
                }
            }
            i += 1;
        }
        assert forall|other: TypeId| #[trigger] rest.contains_key(other) implies exists|m: int|
            0 <= m < others@.len() && others@[m].key == other by {
            assert(self.value_model@.contains_key(other));
        }
        others
    }

    /// This store with `value` as the value for its type, in place of the
    /// value that the store had for that type, if any.
    pub fn with_value(&self, value: ExtensionValue) -> (store: ExtensionStore)
        ensures
            store.values() == self.values().insert(extension_type(value), value),
            store.masks() == self.masks(),
    {
        proof {
            use_type_invariant(self);
        }
        let key = value.type_id();
        let mut entries = self.share_others(key);
        let masked = self.copy_masks();
        let entry = StoredValue { key, value };
        proof {
            lemma_push_value(entries@, self.value_model@, entry);
        }
        entries.push(entry);
        ExtensionStore {
            entries,
            masked,
            value_model: Ghost(self.value_model@.insert(key, entry.value)),
            mask_model: Ghost(self.mask_model@),
        }
    }

    /// This store without a value for the type `key`.
    pub fn without_value(&self, key: TypeId) -> (store: ExtensionStore)
        ensures
            store.values() == self.values().remove(key),
            store.masks() == self.masks(),
    {
        proof {
            use_type_invariant(self);
        }
        let entries = self.share_others(key);
        let masked = self.copy_masks();
        ExtensionStore {
            entries,
            masked,
            value_model: Ghost(self.value_model@.remove(key)),
            mask_model: Ghost(self.mask_model@),
        }
    }

    /// This store with the type `key` masked.
    pub fn with_mask(&self, key: TypeId) -> (store: ExtensionStore)
        ensures
            store.values() == self.values(),
            store.masks() == self.masks().insert(key),
    {
        proof {
            use_type_invariant(self);
        }
        let entries = self.share_all();
        let mut masked = self.copy_masks();
        if !self.is_masked(key) {
            proof {
                lemma_push_mask(masked@, self.mask_model@, key);
            }
            masked.push(key);
        }
        ExtensionStore {
            entries,
            masked,
            value_model: Ghost(self.value_model@),
            mask_model: Ghost(self.mask_model@.insert(key)),
        }
    }

    /// All values of the store, each shared with this store.
    fn share_all(&self) -> (all: Vec<StoredValue>)
        ensures
            all@ == self.entries@,
    {
        let mut all: Vec<StoredValue> = Vec::new();
        let mut i: usize = 0;
        while i < self.entries.len()
            invariant
                i <= self.entries@.len(),
                all@ == self.entries@.take(i as int),
            decreases self.entries@.len() - i,
        {
            all.push(
                StoredValue { key: self.entries[i].key, value: self.entries[i].value.share() },
            );
            i += 1;
        }
        all
    }
}

} // verus!
