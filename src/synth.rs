//! Builds the mirror structure and the conversion from a declaration.

use vstd::prelude::*;
use crate::decl::{fields_view, DeclInput, Field, FieldView, Generics, GenericsView, Shape};
use crate::directive::{aux_name, interpret, ConfigView, ConstructorType, StructValuesAttr};
use crate::error::{ErrorView, MacroError};
use crate::ident::is_ident;

verus! {

/// The two generated declarations, before they are written out.
#[derive(Debug)]
pub struct Generated {
    /// The mirror structure's name.
    pub aux_ident: String,
    /// The original structure's name.
    pub original_ident: String,
    /// The generic parameters, shared by both declarations.
    pub generics: Generics,
    /// The mirror structure's fields, all of them public.
    pub fields: Vec<Field>,
    /// The conversion body: each field of the original and the mirror field
    /// that is moved into it.
    pub assignments: Vec<(String, String)>,
    pub constructor_type: ConstructorType,
}

pub ghost struct GeneratedView {
    pub aux_ident: Seq<char>,
    pub original_ident: Seq<char>,
    pub generics: GenericsView,
    pub fields: Seq<FieldView>,
    pub assignments: Seq<(Seq<char>, Seq<char>)>,
    pub constructor_type: ConstructorType,
}

impl View for Generated {
    type V = GeneratedView;

    open spec fn view(&self) -> GeneratedView {
        GeneratedView {
            aux_ident: self.aux_ident@,
            original_ident: self.original_ident@,
            generics: self.generics@,
            fields: fields_view(self.fields@),
            assignments: self.assignments.deep_view(),
            constructor_type: self.constructor_type,
        }
    }
}

/// Each field moved, under its own name, from the mirror into the original.
pub open spec fn same_name_moves(fields: Seq<FieldView>) -> Seq<(Seq<char>, Seq<char>)> {
    fields.map_values(|f: FieldView| (f.name, f.name))
}

/// What the configuration `cfg` makes of the declaration `d`.
pub open spec fn synthesis(cfg: ConfigView, d: DeclInput) -> Result<GeneratedView, ErrorView> {
    let name = aux_name(cfg, d.ident@);
    if !is_ident(name) {
        Err(ErrorView::InvalidIdent(name))
    } else {
        match d.shape {
            Shape::Named(fs) => Ok(
                GeneratedView {
                    aux_ident: name,
                    original_ident: d.ident@,
                    generics: d.generics@,
                    fields: fields_view(fs@),
                    assignments: same_name_moves(fields_view(fs@)),
                    constructor_type: cfg.constructor_type,
                },
            ),
            _ => Err(ErrorView::UnsupportedShape),
        }
    }
}

/// What the generator makes of the declaration `d`, its directives included.
pub open spec fn expansion(d: DeclInput) -> Result<GeneratedView, ErrorView> {
    match interpret(d.attrs@) {
        Ok(cfg) => synthesis(cfg, d),
        Err(e) => Err(e),
    }
}

/// Builds the declarations for `d` under the configuration `cfg`.
pub fn synthesize(cfg: &StructValuesAttr, d: DeclInput) -> (r: Result<Generated, MacroError>)
    ensures
        match synthesis(cfg@, d) {
            Ok(g) => r is Ok && r->Ok_0@ == g,
            Err(e) => r is Err && r->Err_0@ == e,
        },
{
    let aux_ident = match cfg.name_as_ident(&d.ident) {
        Ok(n) => n,
        Err(e) => {
            return Err(e);
        },
    };
    let ghost shape = d.shape;
    let DeclInput { attrs: _, ident, generics, shape } = d;
    let fields = match shape {
        Shape::Named(fs) => fs,
        _ => {
            return Err(MacroError::UnsupportedShape);
        },
    };
    let mut assignments: Vec<(String, String)> = Vec::new();
    let mut i: usize = 0;
    while i < fields.len()
        invariant
            0 <= i <= fields.len(),
            assignments.deep_view() == same_name_moves(fields_view(fields@.take(i as int))),
        decreases fields.len() - i,
    {
        let f = &fields[i];
        let ghost prev = assignments.deep_view();
        assignments.push((f.name.clone(), f.name.clone()));
        proof {
            assert(assignments.deep_view() =~= prev.push((f.name@, f.name@)));
            assert(fields_view(fields@.take(i + 1)) =~= fields_view(fields@.take(i as int)).push(
                f@,
            ));
            assert(same_name_moves(fields_view(fields@.take(i + 1))) =~= same_name_moves(
                fields_view(fields@.take(i as int)),
            ).push((f.name@, f.name@)));
        }
        i = i + 1;
    }
    proof {
        assert(fields@.take(fields@.len() as int) == fields@);
    }
    Ok(
        Generated {
            aux_ident,
            original_ident: ident,
            generics,
            fields,
            assignments,
            constructor_type: cfg.constructor_type,
        },
    )
}

} // verus!
