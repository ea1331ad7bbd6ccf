//! Derives, for a record with named fields, the companion type that builds it
//! field by field.
//!
//! `derive` takes the source text of a struct definition and returns the source
//! text of its companion: a type with the same fields, each optional; one
//! setter per field; a `build` method that hands out the record or names the
//! first field without a value; and a constructor on the record.
//!
//! - `shape`: the definitions that are read.
//! - `syntax`: reading a definition from text, with `syn`.
//! - `companion`: the companion and the text that is emitted for it.
//! - `instance`: what an emitted companion does when it runs.
//! - `laws`: what holds of every companion.

pub mod companion;
pub mod instance;
pub mod laws;
pub mod shape;
pub mod syntax;

use vstd::prelude::*;

use crate::companion::{Companion, CompanionView};
use crate::shape::Definition;
use crate::syntax::{parse, parsed, DeriveError};

verus! {

/// Emits the companion of a definition that was read already: the source text of
/// the companion type, its methods and the constructor, for a struct with at
/// least one named field, and `Unsupported` for every other definition.
pub fn expand(def: Definition) -> (r: Result<String, DeriveError>)
    ensures
        match r {
            Ok(out) => def@.supported() && out@ == CompanionView::of(def@).source(),
            Err(e) => !def@.supported() && e is Unsupported,
        },
{
    if def.is_supported() {
        Ok(Companion::of(def).source())
    } else {
        Err(DeriveError::Unsupported)
    }
}

/// Derives the companion of the type definition in `input` and returns its
/// source text. A text that is no type definition gives `Syntax`; a definition
/// other than a struct with at least one named field gives `Unsupported`.
pub fn derive(input: &str) -> (r: Result<String, DeriveError>)
    ensures
        match parsed(input@) {
            None => r matches Err(e) && e is Syntax,
            Some(def) => if def.supported() {
                r matches Ok(out) && out@ == CompanionView::of(def).source()
            } else {
                r matches Err(e) && e is Unsupported
            },
        },
{
    match parse(input) {
        Ok(def) => expand(def),
        Err(e) => Err(e),
    }
}

} // verus!
