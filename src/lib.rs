//! Declaring and checking compiler lang items and stability attributes.
//!
//! - `lang_item`: the registry, from a lang-item name to the shape, constraints and
//!   annotations of its entry; `declaration` and `validate`: a declaration as plain values,
//!   and its check against an entry; `symbol`: `::`-qualified names matched against paths.
//! - `attributes`, `context`, `stability`: the `name [= value], ...` grammar of the
//!   `stable`, `unstable` and `deprecated` attributes, its diagnostics, and the compiler
//!   attributes each one becomes; `messages`: the text of every diagnostic.
//! - `option`, `result`, `mem`, `marker`, `ops`: the items of the crate's own core library
//!   that lang items are declared on.

pub mod attributes;
pub mod context;
pub mod declaration;
pub mod lang_item;
pub mod marker;
pub mod mem;
pub mod messages;
pub mod ops;
pub mod option;
pub mod result;
pub mod stability;
pub mod symbol;
pub mod validate;
