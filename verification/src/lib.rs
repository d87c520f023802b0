//! Cloneable, introspectable error-context chains.
//!
//! An [`ErrorContext`] wraps a cause with a message, is cheap to clone, and
//! can carry typed extensions on each of its layers. A chain of causes can be
//! walked with an [`ErrorIterator`], searched for extensions, and flattened
//! into a [`SerializableError`], which holds nothing but strings.

mod chain;
mod context;
mod extensions;
mod format;
mod iterator;
mod laws;
mod serializable;
mod strings;
mod util;

pub use chain::{find_in, texts, ErrorItem, ErrorRef, ForeignError};
pub use context::{
    annotates, annotates_flat_copy, AnyhowErrContext, AnyhowResContext, ErrContext, ErrorContext,
    Outcome, ResContext, ResExtensions,
};
pub use extensions::{extension_type, Extension, ExtensionStore, ExtensionValue};
pub use format::{cause_line, cause_lines, debug_string_of, debug_text, decimal, digit, push_decimal};
pub use iterator::{
    carries, flattens, flattens_to, lemma_chain_nonempty, lemma_ref_chain_nonempty, ErrorIterator,
    IntoErrorIterator,
};
pub use laws::{
    law_content_equality, law_flatten_idempotent, law_flatten_keeps_texts, law_layer_isolation,
    law_layer_isolation_below, law_mask_hides, law_mask_shadows, law_overwrite, law_removal_is_local,
    lemma_find_from_layer, lemma_flat_foreign, lemma_flat_item, lemma_flat_layer, lemma_layer_chain,
    lemma_stack_chain,
};
pub use serializable::{
    lemma_messages, lemma_messages_equal, message_texts, messages_below, SerializableError,
};
pub use strings::SharedString;
pub use util::option_ptr_eq;
