//! Reading a type definition from source text. The Rust grammar is `syn`'s; what
//! it finds is carried over into a `Definition`.

use quote::ToTokens;
use vstd::prelude::*;

use crate::shape::{Definition, DefinitionView, Field, Shape};

verus! {

/// `syn::Error`, the error of a failed parse. Nothing is known of what it holds.
#[verifier::external_type_specification]
#[verifier::external_body]
pub struct ExSyntaxError(syn::Error);

/// The definition that `syn` reads from a source text: `None` where the text is
/// not one struct, enum or union definition. It stands for the result of
/// `syn::parse_str::<syn::DeriveInput>` on that text, reduced to the type's
/// name, the kind of its data and, for named fields, each field's name and the
/// tokens of its type as `proc_macro2` prints them. This crate builds `syn` and
/// `quote` without their `proc-macro` feature, so tokens never come from a
/// compiler and the text alone decides the result.
pub uninterp spec fn parsed(source: Seq<char>) -> Option<DefinitionView>;

/// Calls `syn::parse_str::<syn::DeriveInput>` and copies the result into a
/// `Definition`. The contract claims that the call succeeds exactly where
/// `parsed` is `Some`, and that the copy is then the definition that `parsed`
/// names; it claims nothing of what the definition holds.
#[verifier::external_body]
fn parse_definition(source: &str) -> (r: Result<Definition, syn::Error>)
    ensures
        r is Ok <==> parsed(source@) is Some,
        r matches Ok(def) ==> parsed(source@) == Some(def@),
{
    let ast = syn::parse_str::<syn::DeriveInput>(source)?;
    let shape = match ast.data {
        syn::Data::Struct(data) => match data.fields {
            syn::Fields::Named(named) => Shape::Named(named.named.iter().map(|f| Field {
                name: f.ident.to_token_stream().to_string(),
                ty: f.ty.to_token_stream().to_string(),
            }).collect()),
            syn::Fields::Unnamed(_) => Shape::Tuple,
            syn::Fields::Unit => Shape::Unit,
        },
        syn::Data::Enum(_) => Shape::Enumeration,
        syn::Data::Union(_) => Shape::Union,
    };
    Ok(Definition { name: ast.ident.to_string(), shape })
}

/// Calls `to_string` on a `syn::Error`, which gives the text of its first
/// message. The contract claims nothing of that text.
#[verifier::external_body]
fn error_text(error: &syn::Error) -> (text: String) {
    error.to_string()
}

/// Why no companion was derived.
#[derive(Debug)]
pub enum DeriveError {
    /// The text is not a type definition; the parser's message is kept.
    Syntax(String),
    /// The definition is not a struct with at least one named field.
    Unsupported,
}

/// Reads one type definition from source text.
pub fn parse(source: &str) -> (r: Result<Definition, DeriveError>)
    ensures
        match parsed(source@) {
            Some(def) => r matches Ok(found) && found@ == def,
            None => r matches Err(e) && e is Syntax,
        },
{
    match parse_definition(source) {
        Ok(def) => Ok(def),
        Err(error) => Err(DeriveError::Syntax(error_text(&error))),
    }
}

} // verus!
