//! The layered error and the helpers that build it.

mod anyhow;
mod error;
mod node;
mod result;
mod result_extensions;

pub use anyhow::{annotates_flat_copy, AnyhowErrContext, AnyhowResContext};
pub use error::ErrContext;
pub use node::ErrorContext;
pub use result::{annotates, Outcome, ResContext};
pub use result_extensions::ResExtensions;
