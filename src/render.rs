//! Writes the generated declarations out as Rust source text.

use vstd::prelude::*;
use vstd::string::*;
use crate::decl::{fields_view, Field, FieldView, Generics, GenericsView};
use crate::directive::ConstructorType;
use crate::params::{param_name_of, param_names, without_default_of, without_defaults};
use crate::synth::{Generated, GeneratedView};

verus! {

/// Each lifetime parameter followed by a comma.
pub open spec fn lifetimes_text(ls: Seq<Seq<char>>) -> Seq<char>
    decreases ls.len(),
{
    if ls.len() == 0 {
        Seq::empty()
    } else {
        lifetimes_text(ls.drop_last()) + ls.last() + ", "@
    }
}

/// The type parameters, separated by commas.
pub open spec fn params_text(ps: Seq<Seq<char>>) -> Seq<char>
    decreases ps.len(),
{
    if ps.len() == 0 {
        Seq::empty()
    } else if ps.len() == 1 {
        ps[0]
    } else {
        params_text(ps.drop_last()) + ", "@ + ps.last()
    }
}

/// A generic list: the lifetimes, then the type parameters.
pub open spec fn angle_text(ls: Seq<Seq<char>>, ps: Seq<Seq<char>>) -> Seq<char> {
    "<"@ + lifetimes_text(ls) + params_text(ps) + ">"@
}

/// The parameters as the original declares them, bounds and defaults
/// included: the mirror structure declares the same.
pub open spec fn generics_text(g: GenericsView) -> Seq<char> {
    angle_text(g.lifetimes, g.type_params)
}

/// The parameters of an `impl`: bounds kept, defaults left out.
pub open spec fn impl_generics_text(g: GenericsView) -> Seq<char> {
    angle_text(g.lifetimes, g.type_params.map_values(|p: Seq<char>| without_default_of(p)))
}

/// The arguments that name a type: the parameters' names alone.
pub open spec fn type_args_text(g: GenericsView) -> Seq<char> {
    angle_text(
        g.lifetimes.map_values(|p: Seq<char>| param_name_of(p)),
        g.type_params.map_values(|p: Seq<char>| param_name_of(p)),
    )
}

pub open spec fn where_text(w: Option<Seq<char>>) -> Seq<char> {
    match w {
        Some(t) => " "@ + t,
        None => Seq::empty(),
    }
}

pub open spec fn field_line(f: FieldView) -> Seq<char> {
    "    pub "@ + f.name + ": "@ + f.ty + ",\n"@
}

pub open spec fn field_lines(fs: Seq<FieldView>) -> Seq<char>
    decreases fs.len(),
{
    if fs.len() == 0 {
        Seq::empty()
    } else {
        field_lines(fs.drop_last()) + field_line(fs.last())
    }
}

pub open spec fn move_line(m: (Seq<char>, Seq<char>)) -> Seq<char> {
    "            "@ + m.0 + ": values."@ + m.1 + ",\n"@
}

pub open spec fn move_lines(ms: Seq<(Seq<char>, Seq<char>)>) -> Seq<char>
    decreases ms.len(),
{
    if ms.len() == 0 {
        Seq::empty()
    } else {
        move_lines(ms.drop_last()) + move_line(ms.last())
    }
}

/// The mirror structure's declaration.
pub open spec fn struct_text(g: GeneratedView) -> Seq<char> {
    "pub struct "@ + g.aux_ident + generics_text(g.generics) + where_text(g.generics.where_clause)
        + " {\n"@ + field_lines(g.fields) + "}\n"@
}

/// The impl block up to the conversion's parameter type.
pub open spec fn impl_head(g: GeneratedView) -> Seq<char> {
    let params = impl_generics_text(g.generics);
    let args = type_args_text(g.generics);
    match g.constructor_type {
        ConstructorType::From => "impl"@ + params + " From<"@ + g.aux_ident + args + "> for "@
            + g.original_ident + args + where_text(g.generics.where_clause) + " {\n"@
            + "    fn from(values: "@,
        ConstructorType::New => "impl"@ + params + " "@ + g.original_ident + args + where_text(
            g.generics.where_clause,
        ) + " {\n"@ + "    fn new(values: "@,
    }
}

/// The conversion from the mirror structure into the original.
pub open spec fn impl_text(g: GeneratedView) -> Seq<char> {
    impl_head(g) + g.aux_ident + type_args_text(g.generics) + ") -> Self {\n"@
        + "        Self {\n"@ + move_lines(g.assignments) + "        }\n"@ + "    }\n"@
        + "}\n"@
}

/// The whole generated text: the mirror structure, then the conversion.
pub open spec fn render_text(g: GeneratedView) -> Seq<char> {
    struct_text(g) + "\n"@ + impl_text(g)
}

fn push_lifetimes(out: &mut String, ls: &Vec<String>)
    ensures
        final(out)@ == old(out)@ + lifetimes_text(ls.deep_view()),
{
    let ghost start = out@;
    let mut i: usize = 0;
    while i < ls.len()
        invariant
            0 <= i <= ls.len(),
            out@ == start + lifetimes_text(ls.deep_view().take(i as int)),
        decreases ls.len() - i,
    {
        let ghost before = out@;
        out.append(ls[i].as_str());
        out.append(", ");
        proof {
            let dv = ls.deep_view();
            assert(dv.take(i + 1).drop_last() =~= dv.take(i as int));
            assert(out@ =~= start + lifetimes_text(dv.take(i + 1)));
        }
        i = i + 1;
    }
    proof {
        assert(ls.deep_view().take(ls.len() as int) =~= ls.deep_view());
    }
}

fn push_params(out: &mut String, ps: &Vec<String>)
    ensures
        final(out)@ == old(out)@ + params_text(ps.deep_view()),
{
    let ghost start = out@;
    let mut i: usize = 0;
    while i < ps.len()
        invariant
            0 <= i <= ps.len(),
            out@ == start + params_text(ps.deep_view().take(i as int)),
        decreases ps.len() - i,
    {
        if i > 0 {
            out.append(", ");
        }
        out.append(ps[i].as_str());
        proof {
            let dv = ps.deep_view();
            assert(dv.take(i + 1).drop_last() =~= dv.take(i as int));
            assert(out@ =~= start + params_text(dv.take(i + 1)));
        }
        i = i + 1;
    }
    proof {
        assert(ps.deep_view().take(ps.len() as int) =~= ps.deep_view());
    }
}

fn push_angle(out: &mut String, ls: &Vec<String>, ps: &Vec<String>)
    ensures
        final(out)@ == old(out)@ + angle_text(ls.deep_view(), ps.deep_view()),
{
    let ghost start = out@;
    out.append("<");
    push_lifetimes(out, ls);
    push_params(out, ps);
    out.append(">");
    assert(out@ =~= start + angle_text(ls.deep_view(), ps.deep_view()));
}

/// The generic lists of the conversion, worked out once.
struct ImplLists {
    impl_params: Vec<String>,
    arg_lifetimes: Vec<String>,
    arg_params: Vec<String>,
}

impl ImplLists {
    spec fn matches(&self, g: GenericsView) -> bool {
        &&& angle_text(g.lifetimes, self.impl_params.deep_view()) == impl_generics_text(g)
        &&& angle_text(self.arg_lifetimes.deep_view(), self.arg_params.deep_view())
            == type_args_text(g)
    }

    fn new(g: &Generics) -> (r: ImplLists)
        ensures
            r.matches(g@),
    {
        ImplLists {
            impl_params: without_defaults(&g.type_params),
            arg_lifetimes: param_names(&g.lifetimes),
            arg_params: param_names(&g.type_params),
        }
    }
}

fn push_where(out: &mut String, w: &Option<String>)
    ensures
        final(out)@ == old(out)@ + where_text(w.deep_view()),
{
    let ghost start = out@;
    match w {
        Some(t) => {
            out.append(" ");
            out.append(t.as_str());
            assert(out@ =~= start + where_text(w.deep_view()));
        },
        None => {
            assert(out@ =~= start + where_text(w.deep_view()));
        },
    }
}

fn push_fields(out: &mut String, fs: &Vec<Field>)
    ensures
        final(out)@ == old(out)@ + field_lines(fields_view(fs@)),
{
    let ghost start = out@;
    let mut i: usize = 0;
    while i < fs.len()
        invariant
            0 <= i <= fs.len(),
            out@ == start + field_lines(fields_view(fs@.take(i as int))),
        decreases fs.len() - i,
    {
        let f = &fs[i];
        out.append("    pub ");
        out.append(f.name.as_str());
        out.append(": ");
        out.append(f.ty.as_str());
        out.append(",\n");
        proof {
            assert(fields_view(fs@.take(i + 1)).drop_last() =~= fields_view(fs@.take(i as int)));
            assert(fields_view(fs@.take(i + 1)).last() == f@);
            assert(out@ =~= start + field_lines(fields_view(fs@.take(i + 1))));
        }
        i = i + 1;
    }
    proof {
        assert(fs@.take(fs.len() as int) =~= fs@);
    }
}

fn push_moves(out: &mut String, ms: &Vec<(String, String)>)
    ensures
        final(out)@ == old(out)@ + move_lines(ms.deep_view()),
{
    let ghost start = out@;
    let mut i: usize = 0;
    while i < ms.len()
        invariant
            0 <= i <= ms.len(),
            out@ == start + move_lines(ms.deep_view().take(i as int)),
        decreases ms.len() - i,
    {
        let m = &ms[i];
        out.append("            ");
        out.append(m.0.as_str());
        out.append(": values.");
        out.append(m.1.as_str());
        out.append(",\n");
        proof {
            let dv = ms.deep_view();
            assert(dv.take(i + 1).drop_last() =~= dv.take(i as int));
            assert(dv.take(i + 1).last() == (m.0@, m.1@));
            assert(out@ =~= start + move_lines(dv.take(i + 1)));
        }
        i = i + 1;
    }
    proof {
        assert(ms.deep_view().take(ms.len() as int) =~= ms.deep_view());
    }
}

fn push_struct(out: &mut String, g: &Generated)
    ensures
        final(out)@ == old(out)@ + struct_text(g@),
{
    let ghost start = out@;
    out.append("pub struct ");
    out.append(g.aux_ident.as_str());
    push_angle(out, &g.generics.lifetimes, &g.generics.type_params);
    push_where(out, &g.generics.where_clause);
    out.append(" {\n");
    push_fields(out, &g.fields);
    out.append("}\n");
    assert(out@ =~= start + struct_text(g@));
}

/// `impl<params> From<aux<args>> for original<args> where.. {` and the
/// start of `fn from`.
fn push_from_head(out: &mut String, g: &Generated, lists: &ImplLists)
    requires
        lists.matches(g@.generics),
    ensures
        final(out)@ == old(out)@ + "impl"@ + impl_generics_text(g@.generics) + " From<"@
            + g@.aux_ident + type_args_text(g@.generics) + "> for "@ + g@.original_ident
            + type_args_text(g@.generics) + where_text(g@.generics.where_clause) + " {\n"@
            + "    fn from(values: "@,
{
    let ghost start = out@;
    out.append("impl");
    push_angle(out, &g.generics.lifetimes, &lists.impl_params);
    out.append(" From<");
    out.append(g.aux_ident.as_str());
    push_angle(out, &lists.arg_lifetimes, &lists.arg_params);
    out.append("> for ");
    out.append(g.original_ident.as_str());
    push_angle(out, &lists.arg_lifetimes, &lists.arg_params);
    push_where(out, &g.generics.where_clause);
    out.append(" {\n");
    out.append("    fn from(values: ");
    assert(out@ =~= start + "impl"@ + impl_generics_text(g@.generics) + " From<"@
        + g@.aux_ident + type_args_text(g@.generics) + "> for "@ + g@.original_ident
        + type_args_text(g@.generics) + where_text(g@.generics.where_clause) + " {\n"@
        + "    fn from(values: "@);
}

/// `impl<params> original<args> where.. {` and the start of `fn new`.
fn push_new_head(out: &mut String, g: &Generated, lists: &ImplLists)
    requires
        lists.matches(g@.generics),
    ensures
        final(out)@ == old(out)@ + "impl"@ + impl_generics_text(g@.generics) + " "@
            + g@.original_ident + type_args_text(g@.generics) + where_text(
            g@.generics.where_clause,
        ) + " {\n"@ + "    fn new(values: "@,
{
    let ghost start = out@;
    out.append("impl");
    push_angle(out, &g.generics.lifetimes, &lists.impl_params);
    out.append(" ");
    out.append(g.original_ident.as_str());
    push_angle(out, &lists.arg_lifetimes, &lists.arg_params);
    push_where(out, &g.generics.where_clause);
    out.append(" {\n");
    out.append("    fn new(values: ");
    assert(out@ =~= start + "impl"@ + impl_generics_text(g@.generics) + " "@
        + g@.original_ident + type_args_text(g@.generics) + where_text(
        g@.generics.where_clause,
    ) + " {\n"@ + "    fn new(values: "@);
}

fn push_impl_head(out: &mut String, g: &Generated, lists: &ImplLists)
    requires
        lists.matches(g@.generics),
    ensures
        final(out)@ == old(out)@ + impl_head(g@),
{
    match g.constructor_type {
        ConstructorType::From => push_from_head(out, g, lists),
        ConstructorType::New => push_new_head(out, g, lists),
    }
}

fn push_impl(out: &mut String, g: &Generated)
    ensures
        final(out)@ == old(out)@ + impl_text(g@),
{
    let ghost start = out@;
    let lists = ImplLists::new(&g.generics);
    push_impl_head(out, g, &lists);
    out.append(g.aux_ident.as_str());
    push_angle(out, &lists.arg_lifetimes, &lists.arg_params);
    out.append(") -> Self {\n");
    out.append("        Self {\n");
    push_moves(out, &g.assignments);
    out.append("        }\n");
    out.append("    }\n");
    out.append("}\n");
    assert(out@ =~= start + impl_text(g@));
}

/// The source text of the generated declarations.
pub fn render(g: &Generated) -> (r: String)
    ensures
        r@ == render_text(g@),
{
    let mut out = String::new();
    push_struct(&mut out, g);
    out.append("\n");
    push_impl(&mut out, g);
    assert(out@ =~= render_text(g@));
    out
}

} // verus!
