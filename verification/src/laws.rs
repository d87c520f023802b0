//! What holds of layers, searches and flattening, whatever the errors are.

use crate::chain::{find_in, texts, ErrorItem, ErrorRef, ForeignError};
use crate::context::ErrorContext;
use crate::extensions::{extension_type, ExtensionValue};
use crate::iterator::{flattens, lemma_chain_nonempty};
use crate::serializable::{lemma_messages, SerializableError};
use crate::strings::SharedString;
use std::any::TypeId;
use vstd::prelude::*;
use vstd::std_specs::cmp::PartialEqSpec;

verus! {

/// The chain of a layer is the layer, then the chain of its cause.
pub proof fn lemma_layer_chain(layer: &ErrorContext)
    ensures
        layer.chain().len() > 0,
        layer.chain()[0] == ErrorRef::Context(layer),
        layer.cause matches Some(cause) ==> layer.chain().skip(1) == cause.chain(),
        layer.cause is None ==> layer.chain().skip(1) == Seq::<ErrorRef<'_>>::empty(),
{
}

/// What a search from a layer finds: the layer's own value, or nothing where
/// the layer masks the type, or what the search from its cause finds.
pub proof fn lemma_find_from_layer(layer: &ErrorContext, key: TypeId)
    ensures
        find_in(layer.chain(), key) == if layer.own_values().contains_key(key) {
            Some(layer.own_values()[key])
        } else if layer.own_masks().contains(key) {
            None
        } else {
            match layer.cause {
                Some(cause) => find_in(cause.chain(), key),
                None => None,
            }
        },
{
    lemma_layer_chain(layer);
    reveal_with_fuel(find_in, 2);
}

/// Layer isolation: extensions added to a new layer around an error leave the
/// error below as it was. The search from the new layer's cause finds what
/// the search from the wrapped error finds, for every type; the new layer
/// itself finds the added value for its type, and for every other type what
/// the wrapped error finds.
pub proof fn law_layer_isolation(
    below: &ErrorContext,
    layer: &ErrorContext,
    extended: &ErrorContext,
    value: ExtensionValue,
    key: TypeId,
)
    requires
        layer.is_layer_over(ErrorItem::Context(*below)),
        extended.is_with_value(layer, value),
    ensures
        extended.chain().skip(1) == below.chain(),
        find_in(extended.chain().skip(1), key) == find_in(below.chain(), key),
        find_in(extended.chain(), key) == if key == extension_type(value) {
            Some(value)
        } else {
            find_in(below.chain(), key)
        },
{
    lemma_layer_chain(extended);
    lemma_find_from_layer(extended, key);
}

/// Layer isolation, the other way round: a layer around an error finds what
/// the error held when it was wrapped, whatever is attached to another copy
/// of that error afterwards.
pub proof fn law_layer_isolation_below(
    below: &ErrorContext,
    layer: &ErrorContext,
    extended_below: &ErrorContext,
    value: ExtensionValue,
    key: TypeId,
)
    requires
        layer.is_layer_over(ErrorItem::Context(*below)),
        extended_below.is_with_value(below, value),
    ensures
        layer.chain().skip(1) == below.chain(),
        find_in(layer.chain(), key) == find_in(below.chain(), key),
{
    lemma_layer_chain(layer);
    lemma_find_from_layer(layer, key);
}

/// Overwrite semantics: a second value of one type replaces the first. The
/// layer then holds what it would hold had the first never been attached,
/// and a search finds the second.
pub proof fn law_overwrite(
    before: &ErrorContext,
    once: &ErrorContext,
    twice: &ErrorContext,
    first: ExtensionValue,
    second: ExtensionValue,
)
    requires
        once.is_with_value(before, first),
        twice.is_with_value(once, second),
        extension_type(first) == extension_type(second),
    ensures
        twice.is_with_value(before, second),
        find_in(twice.chain(), extension_type(second)) == Some(second),
{
    let key = extension_type(second);
    assert(before.own_values().insert(key, first).insert(key, second)
        =~= before.own_values().insert(key, second));
    lemma_find_from_layer(twice, key);
}

/// Removal is layer-local: once a layer's own value of a type is removed,
/// the layer has the cause that it had, and a search from it finds what the
/// search from its cause finds, unless the layer masks the type.
pub proof fn law_removal_is_local(before: &ErrorContext, after: &ErrorContext, key: TypeId)
    requires
        after.is_without_value(before, key),
    ensures
        after.cause == before.cause,
        after.chain().skip(1) == before.chain().skip(1),
        !after.own_values().contains_key(key),
        !before.own_masks().contains(key) ==> find_in(after.chain(), key) == find_in(
            before.chain().skip(1),
            key,
        ),
{
    lemma_layer_chain(before);
    lemma_layer_chain(after);
    lemma_find_from_layer(after, key);
}

/// Masking shadows ancestors: where a layer of a chain masks a type, and
/// neither it nor a layer above it holds a value of that type, the search
/// finds nothing, whatever the layers below hold.
pub proof fn law_mask_shadows(chain: Seq<ErrorRef<'_>>, masking: int, key: TypeId)
    requires
        0 <= masking < chain.len(),
        chain[masking] matches ErrorRef::Context(layer) && layer.own_masks().contains(key),
        forall|i: int|
            0 <= i <= masking ==> (#[trigger] chain[i] matches ErrorRef::Context(layer)
                ==> !layer.own_values().contains_key(key)),
    ensures
        find_in(chain, key) is None,
    decreases masking,
{
    if masking > 0 {
        let rest = chain.skip(1);
        assert forall|i: int| 0 <= i <= masking - 1 implies (#[trigger] rest[i] matches ErrorRef::Context(
            layer,
        ) ==> !layer.own_values().contains_key(key)) by {}
        law_mask_shadows(rest, masking - 1, key);
        assert(chain[0] matches ErrorRef::Context(layer) ==> !layer.own_values().contains_key(
            key,
        ));
    }
}

/// Masking shadows ancestors, for the layer that masks: once a layer that
/// holds no value of a type masks it, the search from that layer finds
/// nothing.
pub proof fn law_mask_hides(before: &ErrorContext, after: &ErrorContext, key: TypeId)
    requires
        after.is_with_mask(before, key),
        !before.own_values().contains_key(key),
    ensures
        find_in(after.chain(), key) is None,
{
    lemma_find_from_layer(after, key);
}

/// The chain of a flattened stack has one error for each of its messages,
/// with the same texts in the same order.
pub proof fn lemma_stack_chain(stack: &SerializableError)
    ensures
        stack.chain().len() == stack.messages().len(),
        texts(stack.chain()) == stack.messages(),
        stack.chain()[0] == ErrorRef::Serializable(stack),
    decreases stack,
{
    if let Some(cause) = &stack.cause {
        lemma_stack_chain(&**cause);
    }
}

/// A layer, flattened, holds the display texts of its chain.
pub proof fn lemma_flat_layer(layer: &ErrorContext, flat: &SerializableError)
    requires
        flattens(layer.chain(), *flat),
    ensures
        flat.messages() == texts(layer.chain()),
    decreases layer,
{
    lemma_layer_chain(layer);
    lemma_messages(flat);
    if let Some(cause) = &layer.cause {
        lemma_chain_nonempty(&**cause);
        if let Some(rest) = &flat.cause {
            lemma_flat_item(&**cause, &**rest);
        }
    }
}

/// A foreign error, flattened, holds the display texts of its chain.
pub proof fn lemma_flat_foreign(foreign: &ForeignError, flat: &SerializableError)
    requires
        flattens(foreign.chain(), *flat),
    ensures
        flat.messages() == texts(foreign.chain()),
    decreases foreign,
{
    lemma_messages(flat);
    if let Some(source) = &foreign.source {
        assert(foreign.chain().skip(1) =~= source.chain());
        lemma_chain_nonempty(&**source);
        if let Some(rest) = &flat.cause {
            lemma_flat_item(&**source, &**rest);
            assert(texts(foreign.chain()) =~= seq![foreign.message@] + texts(source.chain()));
        }
    }
}

/// An error, flattened, holds the display texts of its chain.
pub proof fn lemma_flat_item(item: &ErrorItem, flat: &SerializableError)
    requires
        flattens(item.chain(), *flat),
    ensures
        flat.messages() == texts(item.chain()),
    decreases item,
{
    match item {
        ErrorItem::Context(layer) => {
            lemma_flat_layer(layer, flat);
        },
        ErrorItem::Serializable(stack) => {
            lemma_stack_chain(stack);
        },
        ErrorItem::Foreign(foreign) => {
            lemma_flat_foreign(foreign, flat);
        },
        ErrorItem::Shared(inner) => {
            lemma_flat_item(&**inner, flat);
        },
    }
}

/// Flattening keeps every message: a chain, flattened, is a stack with one
/// message for each error of the chain, the display texts in their order.
pub proof fn law_flatten_keeps_texts(seed: ErrorRef<'_>, flat: &SerializableError)
    requires
        flattens(seed.chain(), *flat),
    ensures
        flat.messages() == texts(seed.chain()),
        flat.messages().len() == seed.chain().len(),
{
    match seed {
        ErrorRef::Context(layer) => {
            lemma_flat_layer(layer, flat);
        },
        ErrorRef::Serializable(stack) => {
            lemma_stack_chain(stack);
        },
        ErrorRef::Foreign(foreign) => {
            lemma_flat_foreign(foreign, flat);
        },
        ErrorRef::Item(item) => {
            lemma_flat_item(item, flat);
        },
    }
}

/// Flatten idempotence: a stack that is flat already flattens to itself. The
/// result has the messages of the stack, as many as the chain has errors, in
/// the same order, and it is equal to the stack.
pub proof fn law_flatten_idempotent(stack: &SerializableError, flat: &SerializableError)
    requires
        flattens(stack.chain(), *flat),
    ensures
        *flat == *stack,
        flat.eq_spec(stack),
        flat.messages() == stack.messages(),
        flat.messages().len() == stack.chain().len(),
{
    lemma_stack_chain(stack);
}

/// Content equality: stacks built from handles with the same text are equal,
/// whether or not the handles are the same.
pub proof fn law_content_equality(a: SharedString, b: SharedString)
    requires
        a@ == b@,
    ensures
        (SerializableError { context: a, cause: None }).eq_spec(
            &(SerializableError { context: b, cause: None }),
        ),
{
}

} // verus!
