//! The debug-formatting generator: emits a `std::fmt::Debug` implementation
//! for the input struct, honouring per-field format directives and adding a
//! `Debug` bound to every generic type parameter that is not used solely
//! under `PhantomData`.

use vstd::prelude::*;

use crate::model::{Attr, AttrV, AttrValue, AttrValueV, DeriveError, Field, FieldV, GenericParam,
    GenericParamV, Generics, GenericsV, StructShape, StructShapeV, TypeArg, TypeArgV, TypeDecl,
    TypeDeclV};
use crate::text::{eq_lit, escape_str_lit, escaped, join, join_texts};

verus! {

/// The value of the first `#[debug = "..."]` attribute among the given
/// attributes, when there is one.
pub open spec fn spec_fmt_attr(attrs: Seq<AttrV>) -> Option<Seq<char>>
    decreases attrs.len(),
{
    if attrs.len() == 0 {
        None
    } else {
        match attrs[0] {
            AttrV { name: Some(n), value: AttrValueV::StrLit(v) } => if n == "debug"@ {
                Some(v)
            } else {
                spec_fmt_attr(attrs.drop_first())
            },
            _ => spec_fmt_attr(attrs.drop_first()),
        }
    }
}

/// The custom format directive attached to a field, when there is one: the
/// value of its first `#[debug = "..."]` attribute.
pub fn fmt_attr(attrs: &Vec<Attr>) -> (r: Option<String>)
    ensures
        match r {
            Some(v) => spec_fmt_attr(attrs.deep_view()) == Some(v@),
            None => spec_fmt_attr(attrs.deep_view()) is None,
        },
{
    let n = attrs.len();
    let mut i: usize = 0;
    proof {
        assert(attrs.deep_view().skip(0) =~= attrs.deep_view());
    }
    while i < n
        invariant
            n == attrs@.len(),
            i <= n,
            spec_fmt_attr(attrs.deep_view()) == spec_fmt_attr(attrs.deep_view().skip(i as int)),
        decreases n - i,
    {
        proof {
            let dv = attrs.deep_view();
            assert(dv.skip(i as int).len() == dv.len() - i as int);
            assert(dv.skip(i as int)[0] == dv[i as int]);
            assert(dv.skip(i as int).drop_first() =~= dv.skip(i as int + 1));
        }
        let attr = &attrs[i];
        match (&attr.name, &attr.value) {
            (Some(name), AttrValue::StrLit(v)) => {
                if eq_lit(name, "debug") {
                    return Some(v.clone());
                }
            },
            _ => {},
        }
        i = i + 1;
    }
    proof {
        assert(attrs.deep_view().skip(n as int).len() == 0);
    }
    None
}

/// The generic arguments the field's type passes to `PhantomData`, when its
/// leading path segment is `PhantomData`; empty otherwise.
pub open spec fn spec_phantom_args(f: FieldV) -> Seq<TypeArgV> {
    match f.ty.head {
        Some(h) => if h.ident == "PhantomData"@ {
            match h.args {
                Some(args) => args,
                None => Seq::empty(),
            }
        } else {
            Seq::empty()
        },
        None => Seq::empty(),
    }
}

/// Whether the argument is a type written as exactly the given identifier.
pub open spec fn spec_arg_names_ident(a: TypeArgV, id: Seq<char>) -> bool {
    match a {
        TypeArgV::Ty { single_ident: Some(s), .. } => s == id,
        _ => false,
    }
}

/// Whether some field passes the identifier to `PhantomData` as a generic
/// argument.
pub open spec fn spec_is_phantom_ident(fields: Seq<FieldV>, id: Seq<char>) -> bool {
    exists|i: int, j: int|
        0 <= i < fields.len() && 0 <= j < spec_phantom_args(fields[i]).len()
            && spec_arg_names_ident(#[trigger] spec_phantom_args(fields[i])[j], id)
}

/// Decides whether some field passes the identifier to `PhantomData`.
fn is_phantom_ident(fields: &Vec<Field>, id: &String) -> (b: bool)
    ensures
        b == spec_is_phantom_ident(fields.deep_view(), id@),
{
    let n = fields.len();
    let mut i: usize = 0;
    while i < n
        invariant
            n == fields@.len(),
            fields.deep_view().len() == n,
            i <= n,
            forall|i2: int, j: int|
                0 <= i2 < i && 0 <= j < spec_phantom_args(fields.deep_view()[i2]).len()
                    ==> !spec_arg_names_ident(
                    #[trigger] spec_phantom_args(fields.deep_view()[i2])[j],
                    id@,
                ),
        decreases n - i,
    {
        let f = &fields[i];
        match &f.ty.head {
            Some(h) => {
                if eq_lit(&h.ident, "PhantomData") {
                    match &h.args {
                        Some(args) => {
                            let m = args.len();
                            let mut j: usize = 0;
                            while j < m
                                invariant
                                    m == args@.len(),
                                    j <= m,
                                    spec_phantom_args(fields.deep_view()[i as int])
                                        == args.deep_view(),
                                    args.deep_view().len() == m,
                                    i < n,
                                    n == fields@.len(),
                                    fields.deep_view().len() == n,
                                    forall|j2: int|
                                        0 <= j2 < j ==> !spec_arg_names_ident(
                                            #[trigger] args.deep_view()[j2],
                                            id@,
                                        ),
                                decreases m - j,
                            {
                                match &args[j] {
                                    TypeArg::Ty { single_ident: Some(s), .. } => {
                                        if s.eq(id) {
                                            proof {
                                                assert(spec_arg_names_ident(
                                                    spec_phantom_args(
                                                        fields.deep_view()[i as int],
                                                    )[j as int],
                                                    id@,
                                                ));
                                            }
                                            return true;
                                        }
                                    },
                                    _ => {},
                                }
                                j = j + 1;
                            }
                        },
                        None => {},
                    }
                }
            },
            None => {},
        }
        i = i + 1;
    }
    false
}

/// One parameter with the generated implementation's `Debug` bound added:
/// every type parameter gets it, unless its identifier only feeds
/// `PhantomData`.
pub open spec fn spec_add_bound_param(p: GenericParamV, fields: Seq<FieldV>) -> GenericParamV {
    match p {
        GenericParamV::TypeParam { ident, bounds } => GenericParamV::TypeParam {
            ident,
            bounds: if spec_is_phantom_ident(fields, ident) {
                bounds
            } else {
                bounds.push("std::fmt::Debug"@)
            },
        },
        _ => p,
    }
}

/// The parameters with the generated implementation's `Debug` bounds added.
pub open spec fn spec_add_bounds(params: Seq<GenericParamV>, fields: Seq<FieldV>) -> Seq<
    GenericParamV,
> {
    params.map(|i: int, p: GenericParamV| spec_add_bound_param(p, fields))
}

/// Copies a vector of strings.
fn clone_strings(v: &Vec<String>) -> (r: Vec<String>)
    ensures
        r.deep_view() == v.deep_view(),
{
    let n = v.len();
    let mut out: Vec<String> = Vec::new();
    let mut i: usize = 0;
    proof {
        assert(out.deep_view() =~~= v.deep_view().take(0));
    }
    while i < n
        invariant
            n == v@.len(),
            i <= n,
            out.deep_view() == v.deep_view().take(i as int),
        decreases n - i,
    {
        let ghost prev = out.deep_view();
        let ghost prev_v = out@;
        out.push(v[i].clone());
        proof {
            assert(prev.len() == i as int);
            assert(prev_v.len() == i as int);
            assert forall|k: int| 0 <= k < i + 1 implies out.deep_view()[k] == v.deep_view().take(
                i as int + 1,
            )[k] by {
                if k < i as int {
                    assert(out@[k] == prev_v[k]);
                    assert(prev[k] == v.deep_view()[k]);
                } else {
                    assert(out@[k] == v@[i as int]);
                }
            }
            assert(out.deep_view() =~= v.deep_view().take(i as int + 1));
        }
        i = i + 1;
    }
    proof {
        assert(v.deep_view().take(n as int) =~= v.deep_view());
    }
    out
}

/// Adds the `Debug` bound the generated implementation needs to every
/// generic type parameter that is not used solely under `PhantomData`.
pub fn add_trait_bounds(generics: &Generics, fields: &Vec<Field>) -> (r: Generics)
    ensures
        r.deep_view().params == spec_add_bounds(generics.deep_view().params, fields.deep_view()),
        r.deep_view().where_clause == generics.deep_view().where_clause,
{
    let n = generics.params.len();
    let mut out: Vec<GenericParam> = Vec::new();
    let mut i: usize = 0;
    proof {
        assert(out.deep_view() =~= spec_add_bounds(
            generics.deep_view().params.take(0),
            fields.deep_view(),
        ));
    }
    while i < n
        invariant
            n == generics.params@.len(),
            i <= n,
            generics.deep_view().params.len() == n,
            out.deep_view() == spec_add_bounds(
                generics.deep_view().params.take(i as int),
                fields.deep_view(),
            ),
        decreases n - i,
    {
        let ghost gps = generics.deep_view().params;
        let p = &generics.params[i];
        let newp = match p {
            GenericParam::Lifetime { decl, name } => GenericParam::Lifetime {
                decl: decl.clone(),
                name: name.clone(),
            },
            GenericParam::ConstParam { decl, ident } => GenericParam::ConstParam {
                decl: decl.clone(),
                ident: ident.clone(),
            },
            GenericParam::TypeParam { ident, bounds } => {
                let mut bs = clone_strings(bounds);
                if !is_phantom_ident(fields, ident) {
                    bs.push(String::from_str("std::fmt::Debug"));
                    proof {
                        assert(bs.deep_view() =~= bounds.deep_view().push("std::fmt::Debug"@));
                    }
                }
                GenericParam::TypeParam { ident: ident.clone(), bounds: bs }
            },
        };
        proof {
            assert(gps[i as int] == p.deep_view());
            assert(newp.deep_view() == spec_add_bound_param(gps[i as int], fields.deep_view()));
        }
        let ghost prev = out.deep_view();
        let ghost prev_v = out@;
        out.push(newp);
        proof {
            let m = spec_add_bounds(gps.take(i as int + 1), fields.deep_view());
            assert(prev.len() == i as int);
            assert(prev_v.len() == i as int);
            assert(gps.take(i as int + 1)[i as int] == gps[i as int]);
            assert(m[i as int] == spec_add_bound_param(gps[i as int], fields.deep_view()));
            assert forall|k: int| 0 <= k < i + 1 implies out.deep_view()[k] == m[k] by {
                if k < i as int {
                    assert(out@[k] == prev_v[k]);
                    assert(prev[k] == spec_add_bounds(gps.take(i as int), fields.deep_view())[k]);
                    assert(gps.take(i as int)[k] == gps.take(i as int + 1)[k]);
                }
            }
            assert(out.deep_view() =~= m);
        }
        i = i + 1;
    }
    proof {
        assert(generics.deep_view().params.take(n as int) =~= generics.deep_view().params);
    }
    let where_clause = match &generics.where_clause {
        Some(w) => Some(w.clone()),
        None => None,
    };
    Generics { params: out, where_clause }
}

/// A generic type parameter gains the emitted implementation's `Debug`
/// bound exactly when no field passes its identifier to `PhantomData`; a
/// parameter of any other kind is carried through unchanged.
pub proof fn lemma_debug_bound_iff_not_phantom(
    params: Seq<GenericParamV>,
    fields: Seq<FieldV>,
    k: int,
)
    requires
        0 <= k < params.len(),
    ensures
        spec_add_bounds(params, fields).len() == params.len(),
        params[k] matches GenericParamV::TypeParam { ident, bounds } ==> spec_add_bounds(
            params,
            fields,
        )[k] == (GenericParamV::TypeParam {
            ident,
            bounds: if spec_is_phantom_ident(fields, ident) {
                bounds
            } else {
                bounds.push("std::fmt::Debug"@)
            },
        }),
        !(params[k] is TypeParam) ==> spec_add_bounds(params, fields)[k] == params[k],
{
    assert(spec_add_bounds(params, fields)[k] == spec_add_bound_param(params[k], fields));
}

/// One parameter as it stands in the implementation's parameter list: a
/// lifetime or const parameter keeps its declaration, a type parameter shows
/// its identifier and bounds.
pub open spec fn spec_impl_param(p: GenericParamV) -> Seq<char> {
    match p {
        GenericParamV::Lifetime { decl, .. } => decl,
        GenericParamV::TypeParam { ident, bounds } => ident + spec_bounds_suffix(bounds),
        GenericParamV::ConstParam { decl, .. } => decl,
    }
}

/// The `: A + B` tail of a type parameter's declaration; empty when it has
/// no bounds.
pub open spec fn spec_bounds_suffix(bs: Seq<Seq<char>>) -> Seq<char> {
    if bs.len() == 0 {
        Seq::empty()
    } else {
        ": "@ + join_texts(bs, " + "@)
    }
}

/// One parameter as it stands where the type is named: its bare name.
pub open spec fn spec_ty_param(p: GenericParamV) -> Seq<char> {
    match p {
        GenericParamV::Lifetime { name, .. } => name,
        GenericParamV::TypeParam { ident, .. } => ident,
        GenericParamV::ConstParam { ident, .. } => ident,
    }
}

/// A comma-separated parameter list in angle brackets; empty text when
/// there is no parameter.
pub open spec fn spec_param_list(parts: Seq<Seq<char>>) -> Seq<char> {
    if parts.len() == 0 {
        Seq::empty()
    } else {
        "<"@ + join_texts(parts, ", "@) + ">"@
    }
}

/// The implementation's parameter list, with every parameter's bounds.
pub open spec fn spec_impl_generics(params: Seq<GenericParamV>) -> Seq<char> {
    spec_param_list(params.map(|i: int, p: GenericParamV| spec_impl_param(p)))
}

/// The parameter list after the implemented type's name, bare names only.
pub open spec fn spec_ty_generics(params: Seq<GenericParamV>) -> Seq<char> {
    spec_param_list(params.map(|i: int, p: GenericParamV| spec_ty_param(p)))
}

/// Emits the `: A + B` tail of a type parameter's declaration.
fn bounds_suffix(bs: &Vec<String>) -> (r: String)
    ensures
        r@ == spec_bounds_suffix(bs.deep_view()),
{
    if bs.len() == 0 {
        String::new()
    } else {
        let mut out = String::from_str(": ");
        let joined = join(bs, " + ");
        out.append(joined.as_str());
        out
    }
}

/// Emits one parameter of the implementation's parameter list.
fn impl_param(p: &GenericParam) -> (r: String)
    ensures
        r@ == spec_impl_param(p.deep_view()),
{
    match p {
        GenericParam::Lifetime { decl, .. } => decl.clone(),
        GenericParam::TypeParam { ident, bounds } => {
            let mut out = ident.clone();
            let suffix = bounds_suffix(bounds);
            out.append(suffix.as_str());
            out
        },
        GenericParam::ConstParam { decl, .. } => decl.clone(),
    }
}

/// Emits one parameter's bare name.
fn ty_param(p: &GenericParam) -> (r: String)
    ensures
        r@ == spec_ty_param(p.deep_view()),
{
    match p {
        GenericParam::Lifetime { name, .. } => name.clone(),
        GenericParam::TypeParam { ident, .. } => ident.clone(),
        GenericParam::ConstParam { ident, .. } => ident.clone(),
    }
}

/// Emits a comma-separated parameter list in angle brackets.
fn param_list(parts: &Vec<String>) -> (r: String)
    ensures
        r@ == spec_param_list(parts.deep_view()),
{
    if parts.len() == 0 {
        proof {
            assert(parts.deep_view().len() == 0);
        }
        String::new()
    } else {
        let mut out = String::from_str("<");
        let joined = join(parts, ", ");
        out.append(joined.as_str());
        out.append(">");
        out
    }
}

/// Emits the implementation's parameter list, with every parameter's bounds.
fn impl_generics(params: &Vec<GenericParam>) -> (r: String)
    ensures
        r@ == spec_impl_generics(params.deep_view()),
{
    let n = params.len();
    let mut parts: Vec<String> = Vec::new();
    let mut i: usize = 0;
    let ghost f = |k: int, p: GenericParamV| spec_impl_param(p);
    proof {
        assert(parts.deep_view() =~= params.deep_view().take(0).map(f));
    }
    while i < n
        invariant
            n == params@.len(),
            i <= n,
            params.deep_view().len() == n,
            parts.deep_view() == params.deep_view().take(i as int).map(f),
            f == (|k: int, p: GenericParamV| spec_impl_param(p)),
        decreases n - i,
    {
        let ghost prev = parts.deep_view();
        let ghost prev_v = parts@;
        let part = impl_param(&params[i]);
        parts.push(part);
        proof {
            let m = params.deep_view().take(i as int + 1).map(f);
            assert(prev.len() == i as int);
            assert(prev_v.len() == i as int);
            assert(params.deep_view().take(i as int + 1)[i as int]
                == params.deep_view()[i as int]);
            assert forall|k: int| 0 <= k < i + 1 implies parts.deep_view()[k] == m[k] by {
                if k < i as int {
                    assert(parts@[k] == prev_v[k]);
                    assert(prev[k] == params.deep_view().take(i as int).map(f)[k]);
                    assert(params.deep_view().take(i as int)[k] == params.deep_view().take(
                        i as int + 1,
                    )[k]);
                }
            }
            assert(parts.deep_view() =~= m);
        }
        i = i + 1;
    }
    proof {
        assert(params.deep_view().take(n as int) =~= params.deep_view());
    }
    param_list(&parts)
}

/// Emits the parameter list after the implemented type's name.
fn ty_generics(params: &Vec<GenericParam>) -> (r: String)
    ensures
        r@ == spec_ty_generics(params.deep_view()),
{
    let n = params.len();
    let mut parts: Vec<String> = Vec::new();
    let mut i: usize = 0;
    let ghost f = |k: int, p: GenericParamV| spec_ty_param(p);
    proof {
        assert(parts.deep_view() =~= params.deep_view().take(0).map(f));
    }
    while i < n
        invariant
            n == params@.len(),
            i <= n,
            params.deep_view().len() == n,
            parts.deep_view() == params.deep_view().take(i as int).map(f),
            f == (|k: int, p: GenericParamV| spec_ty_param(p)),
        decreases n - i,
    {
        let ghost prev = parts.deep_view();
        let ghost prev_v = parts@;
        let part = ty_param(&params[i]);
        parts.push(part);
        proof {
            let m = params.deep_view().take(i as int + 1).map(f);
            assert(prev.len() == i as int);
            assert(prev_v.len() == i as int);
            assert(params.deep_view().take(i as int + 1)[i as int]
                == params.deep_view()[i as int]);
            assert forall|k: int| 0 <= k < i + 1 implies parts.deep_view()[k] == m[k] by {
                if k < i as int {
                    assert(parts@[k] == prev_v[k]);
                    assert(prev[k] == params.deep_view().take(i as int).map(f)[k]);
                    assert(params.deep_view().take(i as int)[k] == params.deep_view().take(
                        i as int + 1,
                    )[k]);
                }
            }
            assert(parts.deep_view() =~= m);
        }
        i = i + 1;
    }
    proof {
        assert(params.deep_view().take(n as int) =~= params.deep_view());
    }
    param_list(&parts)
}

/// One field's statement inside the emitted `fmt` body: the field is shown
/// under its own name, through its custom format directive when it has one.
pub open spec fn spec_field_stmt(f: FieldV) -> Seq<char> {
    match spec_fmt_attr(f.attrs) {
        Some(fmt) => "        s.field(\""@ + f.name + "\", &format_args!(\""@ + escaped(fmt)
            + "\", &self."@ + f.name + "));\n"@,
        None => "        s.field(\""@ + f.name + "\", &self."@ + f.name + ");\n"@,
    }
}

/// The field statements, in field order.
pub open spec fn spec_field_stmts(fields: Seq<FieldV>) -> Seq<char>
    decreases fields.len(),
{
    if fields.len() == 0 {
        Seq::empty()
    } else {
        spec_field_stmts(fields.drop_last()) + spec_field_stmt(fields.last())
    }
}

/// Emits one field's statement inside the `fmt` body.
fn field_stmt(f: &Field) -> (r: String)
    ensures
        r@ == spec_field_stmt(f.deep_view()),
{
    let mut out = String::from_str("        s.field(\"");
    out.append(f.name.as_str());
    match fmt_attr(&f.attrs) {
        Some(fmt) => {
            out.append("\", &format_args!(\"");
            let esc = escape_str_lit(fmt.as_str());
            out.append(esc.as_str());
            out.append("\", &self.");
            out.append(f.name.as_str());
            out.append("));\n");
        },
        None => {
            out.append("\", &self.");
            out.append(f.name.as_str());
            out.append(");\n");
        },
    }
    proof {
        assert(out@ =~= spec_field_stmt(f.deep_view()));
    }
    out
}

/// Emits the field statements, in field order.
fn field_stmts(fields: &Vec<Field>) -> (r: String)
    ensures
        r@ == spec_field_stmts(fields.deep_view()),
{
    let n = fields.len();
    let mut out = String::new();
    let mut i: usize = 0;
    proof {
        assert(fields.deep_view().take(0) =~= Seq::<FieldV>::empty());
    }
    while i < n
        invariant
            n == fields@.len(),
            i <= n,
            fields.deep_view().len() == n,
            out@ == spec_field_stmts(fields.deep_view().take(i as int)),
        decreases n - i,
    {
        proof {
            let t = fields.deep_view().take(i as int + 1);
            assert(t.len() == i as int + 1);
            assert(t.drop_last() =~= fields.deep_view().take(i as int));
            assert(t.last() == fields.deep_view()[i as int]);
        }
        let line = field_stmt(&fields[i]);
        out.append(line.as_str());
        i = i + 1;
    }
    proof {
        assert(fields.deep_view().take(n as int) =~= fields.deep_view());
    }
    out
}

/// The tail the `where` clause adds after the type's name; empty when the
/// declaration has none.
pub open spec fn spec_where_suffix(w: Option<Seq<char>>) -> Seq<char> {
    match w {
        Some(t) => " "@ + t,
        None => Seq::empty(),
    }
}

/// The whole implementation the debug generator emits.
pub open spec fn spec_debug_text(ident: Seq<char>, generics: GenericsV, fields: Seq<FieldV>) -> Seq<
    char,
> {
    let params2 = spec_add_bounds(generics.params, fields);
    "impl"@ + spec_impl_generics(params2) + " std::fmt::Debug for "@ + ident + spec_ty_generics(
        params2,
    ) + spec_where_suffix(generics.where_clause)
        + " {\n    fn fmt(&self, f: &mut std::fmt::Formatter<'_>) -> std::fmt::Result {\n        let mut s = f.debug_struct(\""@
        + ident + "\");\n"@ + spec_field_stmts(fields) + "        s.finish()\n    }\n}\n"@
}

/// What the debug generator answers for a declaration: the implementation's
/// text, or why the declaration was rejected.
pub open spec fn spec_derive(d: TypeDeclV) -> Result<Seq<char>, DeriveError> {
    match d.shape {
        StructShapeV::NotStruct => Err(DeriveError::NotStruct),
        StructShapeV::Unnamed => Err(DeriveError::NoNamedFields),
        StructShapeV::Named(fields) => Ok(spec_debug_text(d.ident, d.generics, fields)),
    }
}

/// The debug generator: answers the emitted implementation's source text
/// for the declaration, or why the declaration was rejected.
pub fn derive(input: &TypeDecl) -> (r: Result<String, DeriveError>)
    ensures
        r is Ok <==> spec_derive(input.deep_view()) is Ok,
        r matches Ok(s) ==> spec_derive(input.deep_view()) == Ok::<Seq<char>, DeriveError>(s@),
        r matches Err(e) ==> spec_derive(input.deep_view()) == Err::<Seq<char>, DeriveError>(e),
{
    let fields = match &input.shape {
        StructShape::NotStruct => {
            return Err(DeriveError::NotStruct);
        },
        StructShape::Unnamed => {
            return Err(DeriveError::NoNamedFields);
        },
        StructShape::Named(fields) => fields,
    };
    let bounded = add_trait_bounds(&input.generics, fields);
    let mut out = String::from_str("impl");
    let ig = impl_generics(&bounded.params);
    out.append(ig.as_str());
    out.append(" std::fmt::Debug for ");
    out.append(input.ident.as_str());
    let tg = ty_generics(&bounded.params);
    out.append(tg.as_str());
    match &input.generics.where_clause {
        Some(w) => {
            out.append(" ");
            out.append(w.as_str());
        },
        None => {},
    }
    out.append(
        " {\n    fn fmt(&self, f: &mut std::fmt::Formatter<'_>) -> std::fmt::Result {\n        let mut s = f.debug_struct(\"",
    );
    out.append(input.ident.as_str());
    out.append("\");\n");
    let stmts = field_stmts(fields);
    out.append(stmts.as_str());
    out.append("        s.finish()\n    }\n}\n");
    proof {
        assert(out@ =~= spec_debug_text(
            input.deep_view().ident,
            input.deep_view().generics,
            fields.deep_view(),
        ));
    }
    Ok(out)
}

} // verus!
