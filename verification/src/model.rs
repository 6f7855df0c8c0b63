//! Plain-value model of one type declaration, as the generators read it:
//! field names, type-expression heads, per-field attributes, and generic
//! parameters, all carried as strings. Each model type has a ghost mirror
//! (`...V`) over `Seq<char>`, reached through `deep_view`, which the
//! generators' contracts speak of.

use vstd::prelude::*;

verus! {

/// One generic argument carried by a path type's leading segment.
pub enum TypeArg {
    /// An argument that is itself a type: its source text and, when the
    /// argument is a path of exactly one identifier, that identifier.
    Ty { text: String, single_ident: Option<String> },
    /// A lifetime or const argument.
    NonTy,
}

/// Ghost mirror of `TypeArg`.
pub enum TypeArgV {
    Ty { text: Seq<char>, single_ident: Option<Seq<char>> },
    NonTy,
}

impl DeepView for TypeArg {
    type V = TypeArgV;

    open spec fn deep_view(&self) -> TypeArgV {
        match self {
            TypeArg::Ty { text, single_ident } => TypeArgV::Ty {
                text: text.deep_view(),
                single_ident: single_ident.deep_view(),
            },
            TypeArg::NonTy => TypeArgV::NonTy,
        }
    }
}

/// The leading segment of a path type.
pub struct PathHead {
    /// The segment's identifier.
    pub ident: String,
    /// Its angle-bracketed generic arguments, when it has any.
    pub args: Option<Vec<TypeArg>>,
}

/// Ghost mirror of `PathHead`.
pub struct PathHeadV {
    pub ident: Seq<char>,
    pub args: Option<Seq<TypeArgV>>,
}

impl DeepView for PathHead {
    type V = PathHeadV;

    open spec fn deep_view(&self) -> PathHeadV {
        PathHeadV { ident: self.ident.deep_view(), args: self.args.deep_view() }
    }
}

/// What the generators read of one type expression.
pub struct TypeExpr {
    /// The full source text of the type.
    pub text: String,
    /// When the type is a path: its leading segment.
    pub head: Option<PathHead>,
}

/// Ghost mirror of `TypeExpr`.
pub struct TypeExprV {
    pub text: Seq<char>,
    pub head: Option<PathHeadV>,
}

impl DeepView for TypeExpr {
    type V = TypeExprV;

    open spec fn deep_view(&self) -> TypeExprV {
        TypeExprV { text: self.text.deep_view(), head: self.head.deep_view() }
    }
}

/// One item inside a parenthesised attribute list such as `#[builder(...)]`.
pub enum MetaItem {
    /// `key = "value"`, the key a single identifier, the value a string
    /// literal.
    KeyStr { key: String, value: String },
    /// An item whose path is a single identifier but whose value is missing
    /// or is not a string literal.
    KeyOther { key: String },
    /// An item whose path is not a single identifier.
    NoKey,
}

/// Ghost mirror of `MetaItem`.
pub enum MetaItemV {
    KeyStr { key: Seq<char>, value: Seq<char> },
    KeyOther { key: Seq<char> },
    NoKey,
}

impl DeepView for MetaItem {
    type V = MetaItemV;

    open spec fn deep_view(&self) -> MetaItemV {
        match self {
            MetaItem::KeyStr { key, value } => MetaItemV::KeyStr {
                key: key.deep_view(),
                value: value.deep_view(),
            },
            MetaItem::KeyOther { key } => MetaItemV::KeyOther { key: key.deep_view() },
            MetaItem::NoKey => MetaItemV::NoKey,
        }
    }
}

/// The shape of one attribute's arguments.
pub enum AttrValue {
    /// `#[name = "value"]` with a string-literal value.
    StrLit(String),
    /// `#[name(...)]` with each item of the list parsed.
    List(Vec<MetaItem>),
    /// `#[name(...)]` whose items could not be parsed.
    BadList,
    /// Any other shape: `#[name]`, `#[name = expr]`, and the like.
    Other,
}

/// Ghost mirror of `AttrValue`.
pub enum AttrValueV {
    StrLit(Seq<char>),
    List(Seq<MetaItemV>),
    BadList,
    Other,
}

impl DeepView for AttrValue {
    type V = AttrValueV;

    open spec fn deep_view(&self) -> AttrValueV {
        match self {
            AttrValue::StrLit(v) => AttrValueV::StrLit(v.deep_view()),
            AttrValue::List(items) => AttrValueV::List(items.deep_view()),
            AttrValue::BadList => AttrValueV::BadList,
            AttrValue::Other => AttrValueV::Other,
        }
    }
}

/// One attribute attached to a field.
pub struct Attr {
    /// The attribute's path, when it is a single identifier.
    pub name: Option<String>,
    pub value: AttrValue,
}

/// Ghost mirror of `Attr`.
pub struct AttrV {
    pub name: Option<Seq<char>>,
    pub value: AttrValueV,
}

impl DeepView for Attr {
    type V = AttrV;

    open spec fn deep_view(&self) -> AttrV {
        AttrV { name: self.name.deep_view(), value: self.value.deep_view() }
    }
}

/// One named field of the input struct.
pub struct Field {
    pub name: String,
    pub ty: TypeExpr,
    pub attrs: Vec<Attr>,
}

/// Ghost mirror of `Field`.
pub struct FieldV {
    pub name: Seq<char>,
    pub ty: TypeExprV,
    pub attrs: Seq<AttrV>,
}

impl DeepView for Field {
    type V = FieldV;

    open spec fn deep_view(&self) -> FieldV {
        FieldV {
            name: self.name.deep_view(),
            ty: self.ty.deep_view(),
            attrs: self.attrs.deep_view(),
        }
    }
}

/// One generic parameter of the input struct.
pub enum GenericParam {
    /// A lifetime parameter: its full declaration (bounds and all) and its
    /// bare name, both with the leading tick.
    Lifetime { decl: String, name: String },
    /// A type parameter: its identifier and its declared bounds, each bound
    /// as source text.
    TypeParam { ident: String, bounds: Vec<String> },
    /// A const parameter: its full declaration and its identifier.
    ConstParam { decl: String, ident: String },
}

/// Ghost mirror of `GenericParam`.
pub enum GenericParamV {
    Lifetime { decl: Seq<char>, name: Seq<char> },
    TypeParam { ident: Seq<char>, bounds: Seq<Seq<char>> },
    ConstParam { decl: Seq<char>, ident: Seq<char> },
}

impl DeepView for GenericParam {
    type V = GenericParamV;

    open spec fn deep_view(&self) -> GenericParamV {
        match self {
            GenericParam::Lifetime { decl, name } => GenericParamV::Lifetime {
                decl: decl.deep_view(),
                name: name.deep_view(),
            },
            GenericParam::TypeParam { ident, bounds } => GenericParamV::TypeParam {
                ident: ident.deep_view(),
                bounds: bounds.deep_view(),
            },
            GenericParam::ConstParam { decl, ident } => GenericParamV::ConstParam {
                decl: decl.deep_view(),
                ident: ident.deep_view(),
            },
        }
    }
}

/// The generic parameters and `where` clause of the input struct.
pub struct Generics {
    pub params: Vec<GenericParam>,
    /// The `where` clause's source text, with its `where` keyword, when the
    /// declaration has one.
    pub where_clause: Option<String>,
}

/// Ghost mirror of `Generics`.
pub struct GenericsV {
    pub params: Seq<GenericParamV>,
    pub where_clause: Option<Seq<char>>,
}

impl DeepView for Generics {
    type V = GenericsV;

    open spec fn deep_view(&self) -> GenericsV {
        GenericsV {
            params: self.params.deep_view(),
            where_clause: self.where_clause.deep_view(),
        }
    }
}

/// The shape of the declaration handed to a generator.
pub enum StructShape {
    /// A struct with named fields.
    Named(Vec<Field>),
    /// A struct whose fields are unnamed, or that has none.
    Unnamed,
    /// An enum or a union.
    NotStruct,
}

/// Ghost mirror of `StructShape`.
pub enum StructShapeV {
    Named(Seq<FieldV>),
    Unnamed,
    NotStruct,
}

impl DeepView for StructShape {
    type V = StructShapeV;

    open spec fn deep_view(&self) -> StructShapeV {
        match self {
            StructShape::Named(fields) => StructShapeV::Named(fields.deep_view()),
            StructShape::Unnamed => StructShapeV::Unnamed,
            StructShape::NotStruct => StructShapeV::NotStruct,
        }
    }
}

/// A type declaration, as a generator reads it.
pub struct TypeDecl {
    /// The declared type's identifier.
    pub ident: String,
    pub generics: Generics,
    pub shape: StructShape,
}

/// Ghost mirror of `TypeDecl`.
pub struct TypeDeclV {
    pub ident: Seq<char>,
    pub generics: GenericsV,
    pub shape: StructShapeV,
}

impl DeepView for TypeDecl {
    type V = TypeDeclV;

    open spec fn deep_view(&self) -> TypeDeclV {
        TypeDeclV {
            ident: self.ident.deep_view(),
            generics: self.generics.deep_view(),
            shape: self.shape.deep_view(),
        }
    }
}

/// Why a generator rejected its input.
#[derive(Clone, Copy, PartialEq, Eq, Structural, Debug)]
pub enum DeriveError {
    /// The declaration is an enum or a union.
    NotStruct,
    /// The struct's fields are unnamed, or it has none.
    NoNamedFields,
    /// A `builder` attribute carries an item other than `each = "..."`.
    UnexpectedBuilderItem,
    /// A `builder` attribute's `each` item has no string-literal value.
    EachValueNotString,
    /// A `builder` attribute's arguments are not a well-formed list.
    MalformedBuilderAttr,
}

impl DeriveError {
    /// The diagnostic message for this rejection.
    pub open spec fn spec_message(self) -> Seq<char> {
        match self {
            DeriveError::NotStruct => "Only structs are supported"@,
            DeriveError::NoNamedFields => "Only named fields are supported"@,
            DeriveError::UnexpectedBuilderItem => "expected `builder(each = \"...\")`"@,
            DeriveError::EachValueNotString => "expected string literal"@,
            DeriveError::MalformedBuilderAttr => "expected attribute arguments in parentheses: `builder(...)`"@,
        }
    }

    /// The diagnostic message for this rejection.
    pub fn message(&self) -> (r: String)
        ensures
            r@ == self.spec_message(),
    {
        match self {
            DeriveError::NotStruct => String::from_str("Only structs are supported"),
            DeriveError::NoNamedFields => String::from_str("Only named fields are supported"),
            DeriveError::UnexpectedBuilderItem => String::from_str(
                "expected `builder(each = \"...\")`",
            ),
            DeriveError::EachValueNotString => String::from_str("expected string literal"),
            DeriveError::MalformedBuilderAttr => String::from_str(
                "expected attribute arguments in parentheses: `builder(...)`",
            ),
        }
    }

    /// Whether this rejection concerns the declaration's overall shape.
    /// A shape rejection is a hard failure of the whole derive, not a
    /// recoverable diagnostic.
    pub fn is_shape_error(&self) -> (r: bool)
        ensures
            r == (self == DeriveError::NotStruct || self == DeriveError::NoNamedFields),
    {
        match self {
            DeriveError::NotStruct => true,
            DeriveError::NoNamedFields => true,
            _ => false,
        }
    }
}

} // verus!
