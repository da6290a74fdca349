//! The annotated declaration, held as plain values.
//!
//! Names, types, generic parameters and where-clauses are kept as the
//! source text of their tokens: they are copied, never read.

use vstd::prelude::*;

verus! {

/// What stands to the right of `=` in a `key = value` directive argument.
#[derive(Debug)]
pub enum MetaValue {
    /// A string literal, with its value (escapes resolved).
    Str(String),
    /// A literal of another kind (integer, bool, byte string, ...).
    OtherLit,
    /// The argument is not of the `key = literal` form (`key` or `key(...)`).
    NotNameValue,
}

/// One comma-separated argument of a directive.
#[derive(Debug)]
pub struct MetaItem {
    /// The argument's key, when its path is a single identifier.
    pub key: Option<String>,
    pub value: MetaValue,
}

/// An attribute attached to the declaration.
#[derive(Debug)]
pub struct Attribute {
    /// The attribute's name, when its path is a single identifier.
    pub path: Option<String>,
    /// Its arguments, when they parse as comma-separated meta items.
    pub args: Option<Vec<MetaItem>>,
}

/// A named field: its identifier and the text of its type.
#[derive(Debug)]
pub struct Field {
    pub name: String,
    pub ty: String,
}

/// The generic parameters of the declaration, each as the text of its tokens
/// (bounds and defaults included). Const parameters are not carried.
#[derive(Debug)]
pub struct Generics {
    pub lifetimes: Vec<String>,
    pub type_params: Vec<String>,
    pub where_clause: Option<String>,
}

/// The shape of the declared item.
#[derive(Debug)]
pub enum Shape {
    /// A structure with named fields, in declaration order.
    Named(Vec<Field>),
    /// A structure with positional fields.
    Unnamed,
    /// A structure without fields.
    Unit,
    /// An enumeration or a union.
    NotStruct,
}

/// A declaration handed to the generator.
#[derive(Debug)]
pub struct DeclInput {
    pub attrs: Vec<Attribute>,
    pub ident: String,
    pub generics: Generics,
    pub shape: Shape,
}

pub ghost struct FieldView {
    pub name: Seq<char>,
    pub ty: Seq<char>,
}

pub ghost struct GenericsView {
    pub lifetimes: Seq<Seq<char>>,
    pub type_params: Seq<Seq<char>>,
    pub where_clause: Option<Seq<char>>,
}

impl View for Field {
    type V = FieldView;

    open spec fn view(&self) -> FieldView {
        FieldView { name: self.name@, ty: self.ty@ }
    }
}

impl View for Generics {
    type V = GenericsView;

    open spec fn view(&self) -> GenericsView {
        GenericsView {
            lifetimes: self.lifetimes.deep_view(),
            type_params: self.type_params.deep_view(),
            where_clause: self.where_clause.deep_view(),
        }
    }
}

pub open spec fn fields_view(fields: Seq<Field>) -> Seq<FieldView> {
    fields.map_values(|f: Field| f@)
}

impl Clone for Field {
    fn clone(&self) -> (r: Field)
        ensures
            r@ == self@,
    {
        Field { name: self.name.clone(), ty: self.ty.clone() }
    }
}

} // verus!
