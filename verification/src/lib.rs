//! Compile-time generation of variant predicates for sum types.
//!
//! Given a structural description of a sum type — its identifier, its
//! generic parameter text, and its ordered variants, each classified by the
//! shape of the data it carries — the generator produces one boolean
//! predicate method per variant, named `is_<snake_case_variant_name>`. The
//! predicate's body is a two-arm match: the target variant with wildcard
//! field contents yields `true`, a catch-all yields `false`.
//!
//! Parsing the host language and splicing tokens back into the program are
//! the host toolchain's business; this crate works on plain values only.

pub mod ast;
pub mod generate;
pub mod naming;
pub mod semantics;
