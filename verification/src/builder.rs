//! The builder generator: classifies each field of the input struct as
//! repeated, optional or required, and emits a companion builder type with
//! one setter per field and a finalization method.

use vstd::prelude::*;

use crate::model::{Attr, AttrV, AttrValue, AttrValueV, DeriveError, Field, FieldV, MetaItem,
    MetaItemV, StructShape, StructShapeV, TypeArg, TypeArgV, TypeDecl, TypeDeclV, TypeExpr,
    TypeExprV};
use crate::text::eq_lit;

verus! {

/// Whether the type's leading path segment is `Option` with angle-bracketed
/// arguments.
pub open spec fn spec_is_option(t: TypeExprV) -> bool {
    match t.head {
        Some(h) => h.ident == "Option"@ && h.args is Some,
        None => false,
    }
}

/// Whether the type is written `Option<...>`.
pub fn is_option(t: &TypeExpr) -> (r: bool)
    ensures
        r == spec_is_option(t.deep_view()),
{
    match &t.head {
        Some(h) => eq_lit(&h.ident, "Option") && h.args.is_some(),
        None => false,
    }
}

/// The text of the first generic argument of the type's leading segment,
/// when that segment is named as given and the argument is a type; the
/// type's own text otherwise.
pub open spec fn spec_inner_of(t: TypeExprV, name: Seq<char>) -> Seq<char> {
    match t.head {
        Some(h) => if h.ident == name {
            match h.args {
                Some(args) => if args.len() > 0 {
                    match args[0] {
                        TypeArgV::Ty { text, .. } => text,
                        TypeArgV::NonTy => t.text,
                    }
                } else {
                    t.text
                },
                None => t.text,
            }
        } else {
            t.text
        },
        None => t.text,
    }
}

/// The outcome of scanning one `builder` attribute list for `each = "..."`,
/// read left to right: the last `each` value wins, and any item that is not
/// `each` with a string-literal value is a rejection.
pub open spec fn spec_each_items(items: Seq<MetaItemV>, acc: Option<Seq<char>>) -> Result<
    Option<Seq<char>>,
    DeriveError,
>
    decreases items.len(),
{
    if items.len() == 0 {
        Ok(acc)
    } else {
        match items[0] {
            MetaItemV::KeyStr { key, value } => if key == "each"@ {
                spec_each_items(items.drop_first(), Some(value))
            } else {
                Err(DeriveError::UnexpectedBuilderItem)
            },
            MetaItemV::KeyOther { key } => if key == "each"@ {
                Err(DeriveError::EachValueNotString)
            } else {
                Err(DeriveError::UnexpectedBuilderItem)
            },
            MetaItemV::NoKey => Err(DeriveError::UnexpectedBuilderItem),
        }
    }
}

/// What the first `builder` attribute among the given attributes asks for:
/// `Ok(Some(name))` when it carries `each = "name"`, `Ok(None)` when no
/// attribute is named `builder`, and a rejection when the first `builder`
/// attribute is malformed.
pub open spec fn spec_each_attr(attrs: Seq<AttrV>) -> Result<Option<Seq<char>>, DeriveError>
    decreases attrs.len(),
{
    if attrs.len() == 0 {
        Ok(None)
    } else {
        match attrs[0].name {
            Some(n) => if n == "builder"@ {
                match attrs[0].value {
                    AttrValueV::List(items) => spec_each_items(items, None),
                    _ => Err(DeriveError::MalformedBuilderAttr),
                }
            } else {
                spec_each_attr(attrs.drop_first())
            },
            None => spec_each_attr(attrs.drop_first()),
        }
    }
}

/// Scans one `builder` attribute list for `each = "..."`.
fn each_items(items: &Vec<MetaItem>) -> (r: Result<Option<String>, DeriveError>)
    ensures
        r is Ok <==> spec_each_items(items.deep_view(), None) is Ok,
        r matches Ok(o) ==> spec_each_items(items.deep_view(), None) == Ok::<
            Option<Seq<char>>,
            DeriveError,
        >(o.deep_view()),
        r matches Err(e) ==> spec_each_items(items.deep_view(), None) == Err::<
            Option<Seq<char>>,
            DeriveError,
        >(e),
{
    let n = items.len();
    let mut acc: Option<String> = None;
    let mut i: usize = 0;
    proof {
        assert(items.deep_view().skip(0) =~= items.deep_view());
    }
    while i < n
        invariant
            n == items@.len(),
            i <= n,
            items.deep_view().len() == n,
            spec_each_items(items.deep_view(), None) == spec_each_items(
                items.deep_view().skip(i as int),
                acc.deep_view(),
            ),
        decreases n - i,
    {
        proof {
            let dv = items.deep_view();
            assert(dv.skip(i as int).len() == dv.len() - i as int);
            assert(dv.skip(i as int)[0] == dv[i as int]);
            assert(dv.skip(i as int).drop_first() =~= dv.skip(i as int + 1));
        }
        match &items[i] {
            MetaItem::KeyStr { key, value } => {
                if eq_lit(key, "each") {
                    acc = Some(value.clone());
                } else {
                    return Err(DeriveError::UnexpectedBuilderItem);
                }
            },
            MetaItem::KeyOther { key } => {
                if eq_lit(key, "each") {
                    return Err(DeriveError::EachValueNotString);
                } else {
                    return Err(DeriveError::UnexpectedBuilderItem);
                }
            },
            MetaItem::NoKey => {
                return Err(DeriveError::UnexpectedBuilderItem);
            },
        }
        i = i + 1;
    }
    proof {
        assert(items.deep_view().skip(n as int).len() == 0);
    }
    Ok(acc)
}

/// What the field's first `builder` attribute asks for: the name of the
/// accumulating setter given by `each = "..."`, when there is one.
pub fn each_attr(attrs: &Vec<Attr>) -> (r: Result<Option<String>, DeriveError>)
    ensures
        r is Ok <==> spec_each_attr(attrs.deep_view()) is Ok,
        r matches Ok(o) ==> spec_each_attr(attrs.deep_view()) == Ok::<
            Option<Seq<char>>,
            DeriveError,
        >(o.deep_view()),
        r matches Err(e) ==> spec_each_attr(attrs.deep_view()) == Err::<
            Option<Seq<char>>,
            DeriveError,
        >(e),
{
    let n = attrs.len();
    let mut i: usize = 0;
    proof {
        assert(attrs.deep_view().skip(0) =~= attrs.deep_view());
    }
    while i < n
        invariant
            n == attrs@.len(),
            i <= n,
            attrs.deep_view().len() == n,
            spec_each_attr(attrs.deep_view()) == spec_each_attr(
                attrs.deep_view().skip(i as int),
            ),
        decreases n - i,
    {
        proof {
            let dv = attrs.deep_view();
            assert(dv.skip(i as int).len() == dv.len() - i as int);
            assert(dv.skip(i as int)[0] == dv[i as int]);
            assert(dv.skip(i as int).drop_first() =~= dv.skip(i as int + 1));
        }
        let attr = &attrs[i];
        match &attr.name {
            Some(name) => {
                if eq_lit(name, "builder") {
                    match &attr.value {
                        AttrValue::List(items) => {
                            return each_items(items);
                        },
                        _ => {
                            return Err(DeriveError::MalformedBuilderAttr);
                        },
                    }
                }
            },
            None => {},
        }
        i = i + 1;
    }
    proof {
        assert(attrs.deep_view().skip(n as int).len() == 0);
    }
    Ok(None)
}

/// The text of the type inside `name<...>`, or the type's own text where it
/// is not of that shape.
pub fn inner_of(t: &TypeExpr, name: &str) -> (r: String)
    ensures
        r@ == spec_inner_of(t.deep_view(), name@),
{
    match &t.head {
        Some(h) => {
            if eq_lit(&h.ident, name) {
                match &h.args {
                    Some(args) => {
                        if args.len() > 0 {
                            match &args[0] {
                                TypeArg::Ty { text, .. } => text.clone(),
                                TypeArg::NonTy => t.text.clone(),
                            }
                        } else {
                            t.text.clone()
                        }
                    },
                    None => t.text.clone(),
                }
            } else {
                t.text.clone()
            }
        },
        None => t.text.clone(),
    }
}

/// How the builder treats one field.
pub enum FieldPlan {
    /// A field driven by `each = "setter"`: the builder stores a vector and
    /// one call of the setter appends one element.
    Repeated { name: String, setter: String, elem: String },
    /// A field already declared `Option<...>`: its setter takes the inner
    /// type and the finalizer passes the stored value through.
    Optional { name: String, inner: String, ty: String },
    /// Any other field: required, and reported when left unset.
    Required { name: String, ty: String },
}

/// Ghost mirror of `FieldPlan`.
pub enum FieldPlanV {
    Repeated { name: Seq<char>, setter: Seq<char>, elem: Seq<char> },
    Optional { name: Seq<char>, inner: Seq<char>, ty: Seq<char> },
    Required { name: Seq<char>, ty: Seq<char> },
}

impl DeepView for FieldPlan {
    type V = FieldPlanV;

    open spec fn deep_view(&self) -> FieldPlanV {
        match self {
            FieldPlan::Repeated { name, setter, elem } => FieldPlanV::Repeated {
                name: name.deep_view(),
                setter: setter.deep_view(),
                elem: elem.deep_view(),
            },
            FieldPlan::Optional { name, inner, ty } => FieldPlanV::Optional {
                name: name.deep_view(),
                inner: inner.deep_view(),
                ty: ty.deep_view(),
            },
            FieldPlan::Required { name, ty } => FieldPlanV::Required {
                name: name.deep_view(),
                ty: ty.deep_view(),
            },
        }
    }
}

/// How the builder treats the given field: repeated when its `builder`
/// attribute says `each = "..."`, optional when its type is `Option<...>`,
/// required otherwise.
pub open spec fn spec_field_plan(f: FieldV) -> Result<FieldPlanV, DeriveError> {
    match spec_each_attr(f.attrs) {
        Err(e) => Err(e),
        Ok(Some(setter)) => Ok(
            FieldPlanV::Repeated { name: f.name, setter, elem: spec_inner_of(f.ty, "Vec"@) },
        ),
        Ok(None) => if spec_is_option(f.ty) {
            Ok(
                FieldPlanV::Optional {
                    name: f.name,
                    inner: spec_inner_of(f.ty, "Option"@),
                    ty: f.ty.text,
                },
            )
        } else {
            Ok(FieldPlanV::Required { name: f.name, ty: f.ty.text })
        },
    }
}

/// Decides how the builder treats one field.
pub fn field_plan(f: &Field) -> (r: Result<FieldPlan, DeriveError>)
    ensures
        r is Ok <==> spec_field_plan(f.deep_view()) is Ok,
        r matches Ok(p) ==> spec_field_plan(f.deep_view()) == Ok::<FieldPlanV, DeriveError>(
            p.deep_view(),
        ),
        r matches Err(e) ==> spec_field_plan(f.deep_view()) == Err::<FieldPlanV, DeriveError>(e),
{
    match each_attr(&f.attrs) {
        Err(e) => Err(e),
        Ok(Some(setter)) => Ok(
            FieldPlan::Repeated { name: f.name.clone(), setter, elem: inner_of(&f.ty, "Vec") },
        ),
        Ok(None) => {
            if is_option(&f.ty) {
                Ok(
                    FieldPlan::Optional {
                        name: f.name.clone(),
                        inner: inner_of(&f.ty, "Option"),
                        ty: f.ty.text.clone(),
                    },
                )
            } else {
                Ok(FieldPlan::Required { name: f.name.clone(), ty: f.ty.text.clone() })
            }
        },
    }
}

/// The plans for all fields, read first to last; the first rejection wins.
pub open spec fn spec_plans(fields: Seq<FieldV>) -> Result<Seq<FieldPlanV>, DeriveError>
    decreases fields.len(),
{
    if fields.len() == 0 {
        Ok(Seq::empty())
    } else {
        match spec_plans(fields.drop_last()) {
            Err(e) => Err(e),
            Ok(ps) => match spec_field_plan(fields.last()) {
                Err(e) => Err(e),
                Ok(p) => Ok(ps.push(p)),
            },
        }
    }
}

/// A rejected field rejects the whole sequence, with the earliest rejection
/// winning.
proof fn lemma_plans_prefix_err(fields: Seq<FieldV>, i: int)
    requires
        0 <= i < fields.len(),
        spec_plans(fields.take(i)) is Ok,
        spec_field_plan(fields[i]) is Err,
    ensures
        spec_plans(fields) == Err::<Seq<FieldPlanV>, DeriveError>(
            spec_field_plan(fields[i])->Err_0,
        ),
    decreases fields.len(),
{
    if fields.len() == i + 1 {
        assert(fields.drop_last() =~= fields.take(i));
        assert(fields.last() == fields[i]);
    } else {
        assert(fields.drop_last().take(i) =~= fields.take(i));
        assert(fields.drop_last()[i] == fields[i]);
        lemma_plans_prefix_err(fields.drop_last(), i);
    }
}

/// Decides how the builder treats every field, first to last.
pub fn plans(fields: &Vec<Field>) -> (r: Result<Vec<FieldPlan>, DeriveError>)
    ensures
        r is Ok <==> spec_plans(fields.deep_view()) is Ok,
        r matches Ok(ps) ==> spec_plans(fields.deep_view()) == Ok::<Seq<FieldPlanV>, DeriveError>(
            ps.deep_view(),
        ),
        r matches Err(e) ==> spec_plans(fields.deep_view()) == Err::<Seq<FieldPlanV>, DeriveError>(
            e,
        ),
{
    let n = fields.len();
    let mut out: Vec<FieldPlan> = Vec::new();
    let mut i: usize = 0;
    proof {
        assert(fields.deep_view().take(0) =~= Seq::<FieldV>::empty());
        assert(out.deep_view() =~= Seq::<FieldPlanV>::empty());
    }
    while i < n
        invariant
            n == fields@.len(),
            i <= n,
            fields.deep_view().len() == n,
            spec_plans(fields.deep_view().take(i as int)) == Ok::<Seq<FieldPlanV>, DeriveError>(
                out.deep_view(),
            ),
        decreases n - i,
    {
        proof {
            let dv = fields.deep_view();
            let t = dv.take(i as int + 1);
            assert(t.len() == i as int + 1);
            assert(t.drop_last() =~= dv.take(i as int));
            assert(t.last() == dv[i as int]);
        }
        match field_plan(&fields[i]) {
            Err(e) => {
                proof {
                    lemma_plans_prefix_err(fields.deep_view(), i as int);
                }
                return Err(e);
            },
            Ok(p) => {
                let ghost prev = out.deep_view();
                let ghost pv = p.deep_view();
                out.push(p);
                proof {
                    assert(out.deep_view() =~= prev.push(pv));
                }
            },
        }
        i = i + 1;
    }
    proof {
        assert(fields.deep_view().take(n as int) =~= fields.deep_view());
    }
    Ok(out)
}

/// A field whose `builder` attribute says `each = "..."` is planned as a
/// repeated field: it gets the named appender, never a replacing setter,
/// and its element type is read out of `Vec<...>`.
pub proof fn lemma_each_directive_gives_appender(f: FieldV, setter_name: Seq<char>)
    requires
        spec_each_attr(f.attrs) == Ok::<Option<Seq<char>>, DeriveError>(Some(setter_name)),
    ensures
        spec_field_plan(f) == Ok::<FieldPlanV, DeriveError>(
            FieldPlanV::Repeated {
                name: f.name,
                setter: setter_name,
                elem: spec_inner_of(f.ty, "Vec"@),
            },
        ),
{
}

/// A field without a `builder` attribute is planned from its type alone:
/// optional when it is written `Option<...>`, required otherwise.
pub proof fn lemma_plain_field_planned_by_type(f: FieldV)
    requires
        spec_each_attr(f.attrs) == Ok::<Option<Seq<char>>, DeriveError>(None),
    ensures
        spec_plan_by_type(f),
{
}

/// What `lemma_plain_field_planned_by_type` states, spelled out.
pub open spec fn spec_plan_by_type(f: FieldV) -> bool {
    if spec_is_option(f.ty) {
        spec_field_plan(f) == Ok::<FieldPlanV, DeriveError>(
            FieldPlanV::Optional {
                name: f.name,
                inner: spec_inner_of(f.ty, "Option"@),
                ty: f.ty.text,
            },
        )
    } else {
        spec_field_plan(f) == Ok::<FieldPlanV, DeriveError>(
            FieldPlanV::Required { name: f.name, ty: f.ty.text },
        )
    }
}

/// The builder type's identifier: the input's identifier with `Builder`
/// appended.
pub open spec fn spec_builder_ident(name: Seq<char>) -> Seq<char> {
    name + "Builder"@
}

/// One field's declaration inside the builder struct.
pub open spec fn spec_decl_line(p: FieldPlanV) -> Seq<char> {
    match p {
        FieldPlanV::Repeated { name, elem, .. } => "    "@ + name + ": Vec<"@ + elem + ">,\n"@,
        FieldPlanV::Optional { name, ty, .. } => "    "@ + name + ": "@ + ty + ",\n"@,
        FieldPlanV::Required { name, ty } => "    "@ + name + ": Option<"@ + ty + ">,\n"@,
    }
}

/// The builder struct's field declarations, in field order.
pub open spec fn spec_decl_lines(ps: Seq<FieldPlanV>) -> Seq<char>
    decreases ps.len(),
{
    if ps.len() == 0 {
        Seq::empty()
    } else {
        spec_decl_lines(ps.drop_last()) + spec_decl_line(ps.last())
    }
}

/// One field's initializer inside `builder()`: an empty vector for a
/// repeated field, `None` for every other.
pub open spec fn spec_init_line(p: FieldPlanV) -> Seq<char> {
    match p {
        FieldPlanV::Repeated { name, .. } => "            "@ + name + ": Vec::new(),\n"@,
        FieldPlanV::Optional { name, .. } => "            "@ + name + ": None,\n"@,
        FieldPlanV::Required { name, .. } => "            "@ + name + ": None,\n"@,
    }
}

/// The initializers inside `builder()`, in field order.
pub open spec fn spec_init_lines(ps: Seq<FieldPlanV>) -> Seq<char>
    decreases ps.len(),
{
    if ps.len() == 0 {
        Seq::empty()
    } else {
        spec_init_lines(ps.drop_last()) + spec_init_line(ps.last())
    }
}

/// One field's setter: an appender for a repeated field, a replacing setter
/// otherwise, taking the option's inner type where the field is optional.
pub open spec fn spec_setter(p: FieldPlanV) -> Seq<char> {
    match p {
        FieldPlanV::Repeated { name, setter, elem } => "    pub fn "@ + setter + "(&mut self, "@
            + setter + ": "@ + elem + ") -> &mut Self {\n        self."@ + name + ".push("@
            + setter + ");\n        self\n    }\n"@,
        FieldPlanV::Optional { name, inner, .. } => "    pub fn "@ + name + "(&mut self, "@ + name
            + ": "@ + inner + ") -> &mut Self {\n        self."@ + name + " = Some("@ + name
            + ");\n        self\n    }\n"@,
        FieldPlanV::Required { name, ty } => "    pub fn "@ + name + "(&mut self, "@ + name + ": "@
            + ty + ") -> &mut Self {\n        self."@ + name + " = Some("@ + name
            + ");\n        self\n    }\n"@,
    }
}

/// The setters, in field order.
pub open spec fn spec_setters(ps: Seq<FieldPlanV>) -> Seq<char>
    decreases ps.len(),
{
    if ps.len() == 0 {
        Seq::empty()
    } else {
        spec_setters(ps.drop_last()) + spec_setter(ps.last())
    }
}

/// One field's initializer inside `build()`: a repeated field's vector is
/// cloned, an optional field's stored value passes through, a required
/// field's absence is reported.
pub open spec fn spec_build_line(p: FieldPlanV) -> Seq<char> {
    match p {
        FieldPlanV::Repeated { name, .. } => "            "@ + name + ": self."@ + name
            + ".clone(),\n"@,
        FieldPlanV::Optional { name, .. } => "            "@ + name + ": self."@ + name
            + ".take(),\n"@,
        FieldPlanV::Required { name, .. } => "            "@ + name + ": self."@ + name
            + ".take().ok_or_else(|| std::string::String::from(\"Field "@ + name
            + " is not set\"))?,\n"@,
    }
}

/// The initializers inside `build()`, in field order.
pub open spec fn spec_build_lines(ps: Seq<FieldPlanV>) -> Seq<char>
    decreases ps.len(),
{
    if ps.len() == 0 {
        Seq::empty()
    } else {
        spec_build_lines(ps.drop_last()) + spec_build_line(ps.last())
    }
}

/// The builder struct's declaration.
pub open spec fn spec_struct_section(name: Seq<char>, ps: Seq<FieldPlanV>) -> Seq<char> {
    "pub struct "@ + spec_builder_ident(name) + " {\n"@ + spec_decl_lines(ps) + "}\n"@
}

/// The `builder()` constructor on the input type.
pub open spec fn spec_ctor_section(name: Seq<char>, ps: Seq<FieldPlanV>) -> Seq<char> {
    "impl "@ + name + " {\n    pub fn builder() -> "@ + spec_builder_ident(name) + " {\n        "@
        + spec_builder_ident(name) + " {\n"@ + spec_init_lines(ps) + "        }\n    }\n}\n"@
}

/// The builder's own impl: the setters and the finalizer.
pub open spec fn spec_impl_section(name: Seq<char>, ps: Seq<FieldPlanV>) -> Seq<char> {
    "impl "@ + spec_builder_ident(name) + " {\n"@ + spec_setters(ps)
        + "    pub fn build(&mut self) -> Result<"@ + name
        + ", Box<dyn std::error::Error>> {\n        Ok("@ + name + " {\n"@ + spec_build_lines(ps)
        + "        })\n    }\n}\n"@
}

/// The whole replacement unit the builder generator emits.
pub open spec fn spec_expansion(name: Seq<char>, ps: Seq<FieldPlanV>) -> Seq<char> {
    spec_struct_section(name, ps) + spec_ctor_section(name, ps) + spec_impl_section(name, ps)
}

/// What the builder generator answers for a declaration: the replacement
/// unit's text, or why the declaration was rejected.
pub open spec fn spec_derive(d: TypeDeclV) -> Result<Seq<char>, DeriveError> {
    match d.shape {
        StructShapeV::NotStruct => Err(DeriveError::NotStruct),
        StructShapeV::Unnamed => Err(DeriveError::NoNamedFields),
        StructShapeV::Named(fields) => match spec_plans(fields) {
            Err(e) => Err(e),
            Ok(ps) => Ok(spec_expansion(d.ident, ps)),
        },
    }
}

/// Builds the builder type's identifier.
fn builder_ident(name: &String) -> (r: String)
    ensures
        r@ == spec_builder_ident(name@),
{
    let mut b = name.clone();
    b.append("Builder");
    b
}

/// Emits one field's declaration inside the builder struct.
fn decl_line(p: &FieldPlan) -> (r: String)
    ensures
        r@ == spec_decl_line(p.deep_view()),
{
    let mut out = String::new();
    match p {
        FieldPlan::Repeated { name, elem, .. } => {
            out.append("    ");
            out.append(name.as_str());
            out.append(": Vec<");
            out.append(elem.as_str());
            out.append(">,\n");
        },
        FieldPlan::Optional { name, ty, .. } => {
            out.append("    ");
            out.append(name.as_str());
            out.append(": ");
            out.append(ty.as_str());
            out.append(",\n");
        },
        FieldPlan::Required { name, ty } => {
            out.append("    ");
            out.append(name.as_str());
            out.append(": Option<");
            out.append(ty.as_str());
            out.append(">,\n");
        },
    }
    proof {
        assert(out@ =~= spec_decl_line(p.deep_view()));
    }
    out
}

/// Emits one field's initializer inside `builder()`.
fn init_line(p: &FieldPlan) -> (r: String)
    ensures
        r@ == spec_init_line(p.deep_view()),
{
    let mut out = String::from_str("            ");
    match p {
        FieldPlan::Repeated { name, .. } => {
            out.append(name.as_str());
            out.append(": Vec::new(),\n");
        },
        FieldPlan::Optional { name, .. } => {
            out.append(name.as_str());
            out.append(": None,\n");
        },
        FieldPlan::Required { name, .. } => {
            out.append(name.as_str());
            out.append(": None,\n");
        },
    }
    proof {
        assert(out@ =~= spec_init_line(p.deep_view()));
    }
    out
}

/// Emits one field's setter.
fn setter(p: &FieldPlan) -> (r: String)
    ensures
        r@ == spec_setter(p.deep_view()),
{
    let mut out = String::from_str("    pub fn ");
    match p {
        FieldPlan::Repeated { name, setter, elem } => {
            out.append(setter.as_str());
            out.append("(&mut self, ");
            out.append(setter.as_str());
            out.append(": ");
            out.append(elem.as_str());
            out.append(") -> &mut Self {\n        self.");
            out.append(name.as_str());
            out.append(".push(");
            out.append(setter.as_str());
            out.append(");\n        self\n    }\n");
        },
        FieldPlan::Optional { name, inner, .. } => {
            out.append(name.as_str());
            out.append("(&mut self, ");
            out.append(name.as_str());
            out.append(": ");
            out.append(inner.as_str());
            out.append(") -> &mut Self {\n        self.");
            out.append(name.as_str());
            out.append(" = Some(");
            out.append(name.as_str());
            out.append(");\n        self\n    }\n");
        },
        FieldPlan::Required { name, ty } => {
            out.append(name.as_str());
            out.append("(&mut self, ");
            out.append(name.as_str());
            out.append(": ");
            out.append(ty.as_str());
            out.append(") -> &mut Self {\n        self.");
            out.append(name.as_str());
            out.append(" = Some(");
            out.append(name.as_str());
            out.append(");\n        self\n    }\n");
        },
    }
    proof {
        assert(out@ =~= spec_setter(p.deep_view()));
    }
    out
}

/// Emits one field's initializer inside `build()`.
fn build_line(p: &FieldPlan) -> (r: String)
    ensures
        r@ == spec_build_line(p.deep_view()),
{
    let mut out = String::from_str("            ");
    match p {
        FieldPlan::Repeated { name, .. } => {
            out.append(name.as_str());
            out.append(": self.");
            out.append(name.as_str());
            out.append(".clone(),\n");
        },
        FieldPlan::Optional { name, .. } => {
            out.append(name.as_str());
            out.append(": self.");
            out.append(name.as_str());
            out.append(".take(),\n");
        },
        FieldPlan::Required { name, .. } => {
            out.append(name.as_str());
            out.append(": self.");
            out.append(name.as_str());
            out.append(".take().ok_or_else(|| std::string::String::from(\"Field ");
            out.append(name.as_str());
            out.append(" is not set\"))?,\n");
        },
    }
    proof {
        assert(out@ =~= spec_build_line(p.deep_view()));
    }
    out
}

/// Emits the builder struct's field declarations, in field order.
fn decl_lines(ps: &Vec<FieldPlan>) -> (r: String)
    ensures
        r@ == spec_decl_lines(ps.deep_view()),
{
    let n = ps.len();
    let mut out = String::new();
    let mut i: usize = 0;
    proof {
        assert(ps.deep_view().take(0) =~= Seq::<FieldPlanV>::empty());
    }
    while i < n
        invariant
            n == ps@.len(),
            i <= n,
            ps.deep_view().len() == n,
            out@ == spec_decl_lines(ps.deep_view().take(i as int)),
        decreases n - i,
    {
        proof {
            let t = ps.deep_view().take(i as int + 1);
            assert(t.len() == i as int + 1);
            assert(t.drop_last() =~= ps.deep_view().take(i as int));
            assert(t.last() == ps.deep_view()[i as int]);
        }
        let line = decl_line(&ps[i]);
        out.append(line.as_str());
        i = i + 1;
    }
    proof {
        assert(ps.deep_view().take(n as int) =~= ps.deep_view());
    }
    out
}

/// Emits the initializers inside `builder()`, in field order.
fn init_lines(ps: &Vec<FieldPlan>) -> (r: String)
    ensures
        r@ == spec_init_lines(ps.deep_view()),
{
    let n = ps.len();
    let mut out = String::new();
    let mut i: usize = 0;
    proof {
        assert(ps.deep_view().take(0) =~= Seq::<FieldPlanV>::empty());
    }
    while i < n
        invariant
            n == ps@.len(),
            i <= n,
            ps.deep_view().len() == n,
            out@ == spec_init_lines(ps.deep_view().take(i as int)),
        decreases n - i,
    {
        proof {
            let t = ps.deep_view().take(i as int + 1);
            assert(t.len() == i as int + 1);
            assert(t.drop_last() =~= ps.deep_view().take(i as int));
            assert(t.last() == ps.deep_view()[i as int]);
        }
        let line = init_line(&ps[i]);
        out.append(line.as_str());
        i = i + 1;
    }
    proof {
        assert(ps.deep_view().take(n as int) =~= ps.deep_view());
    }
    out
}

/// Emits the setters, in field order.
fn setters(ps: &Vec<FieldPlan>) -> (r: String)
    ensures
        r@ == spec_setters(ps.deep_view()),
{
    let n = ps.len();
    let mut out = String::new();
    let mut i: usize = 0;
    proof {
        assert(ps.deep_view().take(0) =~= Seq::<FieldPlanV>::empty());
    }
    while i < n
        invariant
            n == ps@.len(),
            i <= n,
            ps.deep_view().len() == n,
            out@ == spec_setters(ps.deep_view().take(i as int)),
        decreases n - i,
    {
        proof {
            let t = ps.deep_view().take(i as int + 1);
            assert(t.len() == i as int + 1);
            assert(t.drop_last() =~= ps.deep_view().take(i as int));
            assert(t.last() == ps.deep_view()[i as int]);
        }
        let line = setter(&ps[i]);
        out.append(line.as_str());
        i = i + 1;
    }
    proof {
        assert(ps.deep_view().take(n as int) =~= ps.deep_view());
    }
    out
}

/// Emits the initializers inside `build()`, in field order.
fn build_lines(ps: &Vec<FieldPlan>) -> (r: String)
    ensures
        r@ == spec_build_lines(ps.deep_view()),
{
    let n = ps.len();
    let mut out = String::new();
    let mut i: usize = 0;
    proof {
        assert(ps.deep_view().take(0) =~= Seq::<FieldPlanV>::empty());
    }
    while i < n
        invariant
            n == ps@.len(),
            i <= n,
            ps.deep_view().len() == n,
            out@ == spec_build_lines(ps.deep_view().take(i as int)),
        decreases n - i,
    {
        proof {
            let t = ps.deep_view().take(i as int + 1);
            assert(t.len() == i as int + 1);
            assert(t.drop_last() =~= ps.deep_view().take(i as int));
            assert(t.last() == ps.deep_view()[i as int]);
        }
        let line = build_line(&ps[i]);
        out.append(line.as_str());
        i = i + 1;
    }
    proof {
        assert(ps.deep_view().take(n as int) =~= ps.deep_view());
    }
    out
}

/// Emits the whole replacement unit for the given plans.
fn expansion(name: &String, ps: &Vec<FieldPlan>) -> (r: String)
    ensures
        r@ == spec_expansion(name@, ps.deep_view()),
{
    let b = builder_ident(name);
    let mut out = String::from_str("pub struct ");
    out.append(b.as_str());
    out.append(" {\n");
    let decls = decl_lines(ps);
    out.append(decls.as_str());
    out.append("}\n");
    proof {
        assert(out@ =~= spec_struct_section(name@, ps.deep_view()));
    }
    out.append("impl ");
    out.append(name.as_str());
    out.append(" {\n    pub fn builder() -> ");
    out.append(b.as_str());
    out.append(" {\n        ");
    out.append(b.as_str());
    out.append(" {\n");
    let inits = init_lines(ps);
    out.append(inits.as_str());
    out.append("        }\n    }\n}\n");
    proof {
        assert(out@ =~= spec_struct_section(name@, ps.deep_view()) + spec_ctor_section(
            name@,
            ps.deep_view(),
        ));
    }
    out.append("impl ");
    out.append(b.as_str());
    out.append(" {\n");
    let sets = setters(ps);
    out.append(sets.as_str());
    out.append("    pub fn build(&mut self) -> Result<");
    out.append(name.as_str());
    out.append(", Box<dyn std::error::Error>> {\n        Ok(");
    out.append(name.as_str());
    out.append(" {\n");
    let builds = build_lines(ps);
    out.append(builds.as_str());
    out.append("        })\n    }\n}\n");
    proof {
        assert(out@ =~= spec_expansion(name@, ps.deep_view()));
    }
    out
}

/// The builder generator: answers the replacement unit's source text for
/// the declaration, or why the declaration was rejected.
pub fn derive(input: &TypeDecl) -> (r: Result<String, DeriveError>)
    ensures
        r is Ok <==> spec_derive(input.deep_view()) is Ok,
        r matches Ok(s) ==> spec_derive(input.deep_view()) == Ok::<Seq<char>, DeriveError>(s@),
        r matches Err(e) ==> spec_derive(input.deep_view()) == Err::<Seq<char>, DeriveError>(e),
{
    match &input.shape {
        StructShape::NotStruct => Err(DeriveError::NotStruct),
        StructShape::Unnamed => Err(DeriveError::NoNamedFields),
        StructShape::Named(fields) => match plans(fields) {
            Err(e) => Err(e),
            Ok(ps) => Ok(expansion(&input.ident, &ps)),
        },
    }
}

} // verus!
