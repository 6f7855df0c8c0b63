use derive_gen::debug;
use derive_gen::model::{
    Attr, AttrValue, DeriveError, Field, GenericParam, Generics, PathHead, StructShape, TypeArg,
    TypeDecl, TypeExpr,
};
use derive_gen::text::escape_str_lit;

fn s(t: &str) -> String {
    t.to_string()
}

fn plain_ty(text: &str) -> TypeExpr {
    TypeExpr {
        text: s(text),
        head: Some(PathHead {
            ident: s(text),
            args: None,
        }),
    }
}

fn phantom_ty(arg: &str) -> TypeExpr {
    TypeExpr {
        text: format!("PhantomData<{}>", arg),
        head: Some(PathHead {
            ident: s("PhantomData"),
            args: Some(vec![TypeArg::Ty {
                text: s(arg),
                single_ident: Some(s(arg)),
            }]),
        }),
    }
}

fn field(name: &str, ty: TypeExpr) -> Field {
    Field {
        name: s(name),
        ty,
        attrs: vec![],
    }
}

fn fmt_field(name: &str, ty: TypeExpr, fmt: &str) -> Field {
    Field {
        name: s(name),
        ty,
        attrs: vec![Attr {
            name: Some(s("debug")),
            value: AttrValue::StrLit(s(fmt)),
        }],
    }
}

fn decl(ident: &str, params: Vec<GenericParam>, fields: Vec<Field>) -> TypeDecl {
    TypeDecl {
        ident: s(ident),
        generics: Generics {
            params,
            where_clause: None,
        },
        shape: StructShape::Named(fields),
    }
}

fn type_param(ident: &str, bounds: Vec<&str>) -> GenericParam {
    GenericParam::TypeParam {
        ident: s(ident),
        bounds: bounds.into_iter().map(s).collect(),
    }
}

#[test]
fn plain_struct_full_text() {
    let input = decl(
        "Field",
        vec![],
        vec![
            field("name", plain_ty("String")),
            fmt_field("bitmask", plain_ty("u8"), "0b{:08b}"),
        ],
    );
    let out = debug::derive(&input).unwrap();
    let expected = "\
impl std::fmt::Debug for Field {
    fn fmt(&self, f: &mut std::fmt::Formatter<'_>) -> std::fmt::Result {
        let mut s = f.debug_struct(\"Field\");
        s.field(\"name\", &self.name);
        s.field(\"bitmask\", &format_args!(\"0b{:08b}\", &self.bitmask));
        s.finish()
    }
}
";
    assert_eq!(out, expected);
}

#[test]
fn type_parameter_gains_debug_bound() {
    let input = decl(
        "Wrapper",
        vec![type_param("T", vec![])],
        vec![field("value", plain_ty("T"))],
    );
    let out = debug::derive(&input).unwrap();
    assert!(out.starts_with("impl<T: std::fmt::Debug> std::fmt::Debug for Wrapper<T> {\n"));
}

#[test]
fn declared_bounds_are_kept_before_the_added_one() {
    let input = decl(
        "Wrapper",
        vec![type_param("T", vec!["Clone"])],
        vec![field("value", plain_ty("T"))],
    );
    let out = debug::derive(&input).unwrap();
    assert!(out.starts_with(
        "impl<T: Clone + std::fmt::Debug> std::fmt::Debug for Wrapper<T> {\n"
    ));
}

#[test]
fn phantom_only_parameter_gets_no_bound() {
    let input = decl(
        "Tagged",
        vec![type_param("T", vec![])],
        vec![
            field("value", plain_ty("i32")),
            field("tag", phantom_ty("T")),
        ],
    );
    let out = debug::derive(&input).unwrap();
    assert!(out.starts_with("impl<T> std::fmt::Debug for Tagged<T> {\n"));
}

#[test]
fn lifetimes_consts_and_where_clause_are_carried_through() {
    let input = TypeDecl {
        ident: s("Slice"),
        generics: Generics {
            params: vec![
                GenericParam::Lifetime {
                    decl: s("'a"),
                    name: s("'a"),
                },
                type_param("T", vec![]),
                GenericParam::ConstParam {
                    decl: s("const N: usize"),
                    ident: s("N"),
                },
            ],
            where_clause: Some(s("where T: Send")),
        },
        shape: StructShape::Named(vec![field("value", plain_ty("T"))]),
    };
    let out = debug::derive(&input).unwrap();
    assert!(out.starts_with(
        "impl<'a, T: std::fmt::Debug, const N: usize> std::fmt::Debug for Slice<'a, T, N> where T: Send {\n"
    ));
}

#[test]
fn format_directive_is_escaped_when_re_emitted() {
    let input = decl(
        "Noted",
        vec![],
        vec![fmt_field("note", plain_ty("String"), "say \"{}\"")],
    );
    let out = debug::derive(&input).unwrap();
    assert!(out.contains("&format_args!(\"say \\\"{}\\\"\", &self.note)"));
    assert!(syn::parse_str::<syn::File>(&out).is_ok());
}

#[test]
fn first_debug_attribute_wins_and_odd_ones_are_skipped() {
    let f = Field {
        name: s("x"),
        ty: plain_ty("u8"),
        attrs: vec![
            Attr {
                name: Some(s("debug")),
                value: AttrValue::Other,
            },
            Attr {
                name: Some(s("debug")),
                value: AttrValue::StrLit(s("{:x}")),
            },
            Attr {
                name: Some(s("debug")),
                value: AttrValue::StrLit(s("{:o}")),
            },
        ],
    };
    let input = decl("Holder", vec![], vec![f]);
    let out = debug::derive(&input).unwrap();
    assert!(out.contains("&format_args!(\"{:x}\", &self.x)"));
    assert!(!out.contains("{:o}"));
}

#[test]
fn generated_impl_parses_as_rust_source() {
    let input = decl(
        "Wrapper",
        vec![type_param("T", vec![])],
        vec![
            field("value", plain_ty("T")),
            fmt_field("bits", plain_ty("u8"), "0b{:08b}"),
        ],
    );
    let out = debug::derive(&input).unwrap();
    assert!(syn::parse_str::<syn::File>(&out).is_ok());
}

#[test]
fn debug_rejects_non_struct() {
    let input = TypeDecl {
        ident: s("Direction"),
        generics: Generics {
            params: vec![],
            where_clause: None,
        },
        shape: StructShape::NotStruct,
    };
    assert_eq!(debug::derive(&input).unwrap_err(), DeriveError::NotStruct);
}

#[test]
fn debug_rejects_unnamed_fields() {
    let input = TypeDecl {
        ident: s("Pair"),
        generics: Generics {
            params: vec![],
            where_clause: None,
        },
        shape: StructShape::Unnamed,
    };
    assert_eq!(debug::derive(&input).unwrap_err(), DeriveError::NoNamedFields);
}

#[test]
fn escape_handles_quotes_and_backslashes() {
    assert_eq!(escape_str_lit("plain"), "plain");
    assert_eq!(escape_str_lit("a\"b"), "a\\\"b");
    assert_eq!(escape_str_lit("a\\b"), "a\\\\b");
    assert_eq!(escape_str_lit(""), "");
    assert_eq!(escape_str_lit("\\\""), "\\\\\\\"");
}

#[test]
fn add_trait_bounds_only_touches_type_parameters() {
    let generics = Generics {
        params: vec![
            GenericParam::Lifetime {
                decl: s("'a"),
                name: s("'a"),
            },
            type_param("T", vec![]),
            type_param("U", vec![]),
        ],
        where_clause: None,
    };
    let fields = vec![field("tag", phantom_ty("U"))];
    let bounded = debug::add_trait_bounds(&generics, &fields);
    match &bounded.params[0] {
        GenericParam::Lifetime { decl, .. } => assert_eq!(decl, "'a"),
        _ => panic!("lifetime changed kind"),
    }
    match &bounded.params[1] {
        GenericParam::TypeParam { bounds, .. } => {
            assert_eq!(bounds.len(), 1);
            assert_eq!(bounds[0], "std::fmt::Debug");
        }
        _ => panic!("type parameter changed kind"),
    }
    match &bounded.params[2] {
        GenericParam::TypeParam { bounds, .. } => assert!(bounds.is_empty()),
        _ => panic!("type parameter changed kind"),
    }
}
