//! Generates, for a structure with named fields, a plain public mirror
//! structure and a conversion from that mirror into the original.
//!
//! The declaration and its attributes come in as plain values (see
//! [`decl`]); the generated declarations come out as Rust source text.

pub mod decl;
pub mod directive;
pub mod error;
pub mod ident;
pub mod laws;
pub mod params;
pub mod render;
pub mod synth;

use vstd::prelude::*;
use crate::decl::DeclInput;
use crate::directive::StructValuesAttr;
use crate::error::{ErrorView, MacroError};
use crate::render::{render, render_text};
use crate::synth::{expansion, synthesize};

verus! {

/// The text generated for `d`, or the error that stops it.
pub open spec fn expansion_text(d: DeclInput) -> Result<Seq<char>, ErrorView> {
    match expansion(d) {
        Ok(g) => Ok(render_text(g)),
        Err(e) => Err(e),
    }
}

/// `r` is what the generator answers for `d`.
pub open spec fn produces(d: DeclInput, r: Result<String, MacroError>) -> bool {
    match expansion_text(d) {
        Ok(t) => r is Ok && r->Ok_0@ == t,
        Err(e) => r is Err && r->Err_0@ == e,
    }
}

/// Reads the directives of `input`, then writes the mirror structure and
/// the conversion into the original as source text.
pub fn struct_values_macro(input: DeclInput) -> (r: Result<String, MacroError>)
    ensures
        produces(input, r),
{
    let cfg = match StructValuesAttr::new(&input.attrs) {
        Ok(c) => c,
        Err(e) => {
            return Err(e);
        },
    };
    match synthesize(&cfg, input) {
        Ok(g) => Ok(render(&g)),
        Err(e) => Err(e),
    }
}

} // verus!
