//! A declarative code-synthesis engine for opaque typedefs: wrapper types
//! that hold exactly one inner value and behave like it for comparison,
//! arithmetic, conversion, dereferencing and textual rendering.
//!
//! The engine takes a structured descriptor of the wrapper type (its
//! identifier, inner field, generic parameters, sizedness, validation and
//! comparison hooks) together with a list of requested capability names,
//! resolves the names against a closed catalog, and emits the corresponding
//! interface implementations as Rust source text.

pub mod atleast2items;
pub mod attrs;
pub mod catalog;
pub mod derives;
pub mod even32;
pub mod int32;
pub mod load;
pub mod my_str;
pub mod generics;
pub mod props;
pub mod text;
