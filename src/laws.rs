//! What holds of every generated output.

use vstd::prelude::*;
use crate::decl::{fields_view, Attribute, DeclInput, FieldView};
use crate::directive::{
    apply_attrs,
    aux_name,
    default_config,
    interpret,
    is_directive,
    ConfigView,
    ConstructorType,
};
use crate::error::MacroError;
use crate::ident::is_ident;
use crate::params::{param_name_of, without_default_of};
use crate::render::{
    angle_text,
    field_line,
    field_lines,
    generics_text,
    impl_generics_text,
    impl_head,
    impl_text,
    move_line,
    move_lines,
    struct_text,
    type_args_text,
    where_text,
};
use crate::synth::{expansion, same_name_moves, synthesis};
use crate::produces;

verus! {

/// Attributes that are not directives leave the configuration as it is.
proof fn lemma_no_directive(cfg: ConfigView, attrs: Seq<Attribute>)
    requires
        forall|i: int| 0 <= i < attrs.len() ==> !is_directive(#[trigger] attrs[i]),
    ensures
        apply_attrs(cfg, attrs) == Ok::<ConfigView, crate::error::ErrorView>(cfg),
    decreases attrs.len(),
{
    if attrs.len() > 0 {
        let rest = attrs.drop_last();
        assert forall|i: int| 0 <= i < rest.len() implies !is_directive(#[trigger] rest[i]) by {
            assert(rest[i] == attrs[i]);
        }
        lemma_no_directive(cfg, rest);
        assert(!is_directive(attrs[attrs.len() - 1]));
    }
}

/// The field lines of two lists one after the other are those of each.
proof fn lemma_field_lines_concat(a: Seq<FieldView>, b: Seq<FieldView>)
    ensures
        field_lines(a + b) == field_lines(a) + field_lines(b),
    decreases b.len(),
{
    if b.len() == 0 {
        assert(a + b =~= a);
        assert(field_lines(a) + field_lines(b) =~= field_lines(a));
    } else {
        lemma_field_lines_concat(a, b.drop_last());
        assert((a + b).drop_last() =~= a + b.drop_last());
        assert((a + b).last() == b.last());
        assert(field_lines(a + b) =~= field_lines(a) + field_lines(b));
    }
}

/// The move lines of two lists one after the other are those of each.
proof fn lemma_move_lines_concat(a: Seq<(Seq<char>, Seq<char>)>, b: Seq<(Seq<char>, Seq<char>)>)
    ensures
        move_lines(a + b) == move_lines(a) + move_lines(b),
    decreases b.len(),
{
    if b.len() == 0 {
        assert(a + b =~= a);
        assert(move_lines(a) + move_lines(b) =~= move_lines(a));
    } else {
        lemma_move_lines_concat(a, b.drop_last());
        assert((a + b).drop_last() =~= a + b.drop_last());
        assert((a + b).last() == b.last());
        assert(move_lines(a + b) =~= move_lines(a) + move_lines(b));
    }
}

/// Without a `named_ctor` directive, a structure with named fields gets a
/// mirror named `_` followed by its own name, with exactly its fields (same
/// names, same types, same order), each declared `pub`, and an
/// `impl From<mirror>` that moves every field under its own name; when that
/// name is not an identifier, the declaration is refused.
pub proof fn law_default_mirror(d: DeclInput)
    requires
        forall|i: int| 0 <= i < d.attrs@.len() ==> !is_directive(#[trigger] d.attrs@[i]),
        d.shape is Named,
    ensures
        !is_ident("_"@ + d.ident@) ==> expansion(d) == Err::<crate::synth::GeneratedView, _>(
            crate::error::ErrorView::InvalidIdent("_"@ + d.ident@),
        ),
        is_ident("_"@ + d.ident@) ==> expansion(d) is Ok,
        is_ident("_"@ + d.ident@) ==> ({
            let g = expansion(d)->Ok_0;
            let fs = fields_view(d.shape->Named_0@);
            &&& g.aux_ident == "_"@ + d.ident@
            &&& g.fields == fs
            &&& g.constructor_type == ConstructorType::From
            &&& g.assignments.len() == fs.len()
            &&& forall|i: int|
                0 <= i < fs.len() ==> #[trigger] g.assignments[i] == (fs[i].name, fs[i].name)
            &&& forall|i: int|
                0 <= i < fs.len() ==> #[trigger] field_line(g.fields[i]) == "    pub "@ + fs[i].name
                    + ": "@ + fs[i].ty + ",\n"@
            &&& struct_text(g) == "pub struct "@ + g.aux_ident + generics_text(g.generics)
                + where_text(g.generics.where_clause) + " {\n"@ + field_lines(fs) + "}\n"@
        }),
{
    lemma_no_directive(default_config(), d.attrs@);
}

/// With `constructor = "new"` in effect, the conversion is an associated
/// function `new` of the original structure that takes the mirror, and it
/// moves the fields exactly as the `From` form does; when the mirror's name
/// is not an identifier, the declaration is refused.
pub proof fn law_new_constructor(d: DeclInput)
    requires
        interpret(d.attrs@) is Ok,
        interpret(d.attrs@)->Ok_0.constructor_type == ConstructorType::New,
        d.shape is Named,
    ensures
        ({
            let name = aux_name(interpret(d.attrs@)->Ok_0, d.ident@);
            !is_ident(name) ==> expansion(d) == Err::<crate::synth::GeneratedView, _>(
                crate::error::ErrorView::InvalidIdent(name),
            )
        }),
        is_ident(aux_name(interpret(d.attrs@)->Ok_0, d.ident@)) ==> expansion(d) is Ok,
        is_ident(aux_name(interpret(d.attrs@)->Ok_0, d.ident@)) ==> ({
            let cfg = interpret(d.attrs@)->Ok_0;
            let g = expansion(d)->Ok_0;
            let as_from = ConfigView { constructor_type: ConstructorType::From, ..cfg };
            &&& g.constructor_type == ConstructorType::New
            &&& impl_head(g) == "impl"@ + impl_generics_text(g.generics) + " "@
                + g.original_ident + type_args_text(g.generics) + where_text(
                g.generics.where_clause,
            ) + " {\n"@ + "    fn new(values: "@
            &&& g.assignments == same_name_moves(fields_view(d.shape->Named_0@))
            &&& synthesis(as_from, d) is Ok
            &&& g.assignments == synthesis(as_from, d)->Ok_0.assignments
        }),
{
}

/// The mirror is named as the configuration says when it names it, and `_`
/// followed by the original's name otherwise; a name that is not an
/// identifier is refused.
pub proof fn law_mirror_name(d: DeclInput)
    requires
        interpret(d.attrs@) is Ok,
        d.shape is Named,
    ensures
        ({
            let cfg = interpret(d.attrs@)->Ok_0;
            let name = aux_name(cfg, d.ident@);
            &&& cfg.name is Some ==> name == cfg.name->Some_0
            &&& cfg.name is None ==> name == "_"@ + d.ident@
            &&& is_ident(name) ==> expansion(d) is Ok && expansion(d)->Ok_0.aux_ident == name
            &&& !is_ident(name) ==> expansion(d) == Err::<crate::synth::GeneratedView, _>(
                crate::error::ErrorView::InvalidIdent(name),
            )
        }),
{
}

/// Two answers for one declaration are the same text, character for
/// character, or the same error.
pub proof fn law_deterministic(
    d: DeclInput,
    r1: Result<String, MacroError>,
    r2: Result<String, MacroError>,
)
    requires
        produces(d, r1),
        produces(d, r2),
    ensures
        r1 is Ok <==> r2 is Ok,
        r1 is Ok ==> r1->Ok_0@ == r2->Ok_0@,
        r1 is Err ==> r1->Err_0@ == r2->Err_0@,
{
}

/// Fields keep their declared order: the field at position `i` stands at
/// position `i` in the mirror and in the moves, and its line in each text
/// comes after the lines of the fields before it and before those after it.
pub proof fn law_order_kept(d: DeclInput, i: int)
    requires
        expansion(d) is Ok,
        0 <= i < expansion(d)->Ok_0.fields.len(),
    ensures
        d.shape is Named,
        ({
            let g = expansion(d)->Ok_0;
            let f = d.shape->Named_0@[i]@;
            &&& g.fields[i] == f
            &&& g.assignments[i] == (f.name, f.name)
            &&& field_lines(g.fields) == field_lines(g.fields.take(i)) + field_line(f)
                + field_lines(g.fields.skip(i + 1))
            &&& move_lines(g.assignments) == move_lines(g.assignments.take(i)) + move_line(
                (f.name, f.name),
            ) + move_lines(g.assignments.skip(i + 1))
        }),
{
    let g = expansion(d)->Ok_0;
    let fs = g.fields;
    let ms = g.assignments;
    assert(fs =~= fs.take(i) + seq![fs[i]] + fs.skip(i + 1));
    lemma_field_lines_concat(fs.take(i) + seq![fs[i]], fs.skip(i + 1));
    lemma_field_lines_concat(fs.take(i), seq![fs[i]]);
    let one = seq![fs[i]];
    assert(one.drop_last() =~= Seq::<FieldView>::empty());
    assert(field_lines(one.drop_last()) == Seq::<char>::empty());
    assert(field_lines(one) == field_lines(one.drop_last()) + field_line(fs[i]));
    assert(field_lines(one) =~= field_line(fs[i]));
    assert(ms =~= ms.take(i) + seq![ms[i]] + ms.skip(i + 1));
    lemma_move_lines_concat(ms.take(i) + seq![ms[i]], ms.skip(i + 1));
    lemma_move_lines_concat(ms.take(i), seq![ms[i]]);
    let one_move = seq![ms[i]];
    assert(one_move.drop_last() =~= Seq::<(Seq<char>, Seq<char>)>::empty());
    assert(move_lines(one_move.drop_last()) == Seq::<char>::empty());
    assert(move_lines(one_move) == move_lines(one_move.drop_last()) + move_line(ms[i]));
    assert(move_lines(one_move) =~= move_line(ms[i]));
}

/// The mirror and the conversion both carry the original's lifetimes, type
/// parameters and where-clause, in order: the mirror declares them as the
/// original does, the `impl` declares them without defaults, and where a type
/// is named (`From<mirror<..>>`, `for original<..>`, `values: mirror<..>`) only
/// the parameters' names stand.
pub proof fn law_generics_carried(d: DeclInput)
    requires
        expansion(d) is Ok,
    ensures
        ({
            let g = expansion(d)->Ok_0;
            let ls = d.generics@.lifetimes;
            let ps = d.generics@.type_params;
            let decl = angle_text(ls, ps);
            let params = angle_text(ls, ps.map_values(|p: Seq<char>| without_default_of(p)));
            let args = angle_text(
                ls.map_values(|p: Seq<char>| param_name_of(p)),
                ps.map_values(|p: Seq<char>| param_name_of(p)),
            );
            let wh = where_text(d.generics@.where_clause);
            &&& g.generics == d.generics@
            &&& struct_text(g) == "pub struct "@ + g.aux_ident + decl + wh + " {\n"@ + field_lines(
                g.fields,
            ) + "}\n"@
            &&& g.constructor_type == ConstructorType::From ==> impl_head(g) == "impl"@ + params
                + " From<"@ + g.aux_ident + args + "> for "@ + g.original_ident + args + wh
                + " {\n"@ + "    fn from(values: "@
            &&& g.constructor_type == ConstructorType::New ==> impl_head(g) == "impl"@ + params
                + " "@ + g.original_ident + args + wh + " {\n"@ + "    fn new(values: "@
            &&& impl_text(g) == impl_head(g) + g.aux_ident + args + ") -> Self {\n"@
                + "        Self {\n"@ + move_lines(g.assignments) + "        }\n"@ + "    }\n"@
                + "}\n"@
        }),
{
}

} // verus!
