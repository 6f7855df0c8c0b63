use derive_gen::builder;
use derive_gen::model::{
    Attr, AttrValue, DeriveError, Field, Generics, MetaItem, PathHead, StructShape, TypeArg,
    TypeDecl, TypeExpr,
};

fn s(t: &str) -> String {
    t.to_string()
}

fn plain_ty(text: &str) -> TypeExpr {
    TypeExpr {
        text: s(text),
        head: Some(PathHead {
            ident: s(text),
            args: None,
        }),
    }
}

fn option_ty(inner: &str) -> TypeExpr {
    TypeExpr {
        text: format!("Option<{}>", inner),
        head: Some(PathHead {
            ident: s("Option"),
            args: Some(vec![TypeArg::Ty {
                text: s(inner),
                single_ident: Some(s(inner)),
            }]),
        }),
    }
}

fn vec_ty(inner: &str) -> TypeExpr {
    TypeExpr {
        text: format!("Vec<{}>", inner),
        head: Some(PathHead {
            ident: s("Vec"),
            args: Some(vec![TypeArg::Ty {
                text: s(inner),
                single_ident: Some(s(inner)),
            }]),
        }),
    }
}

fn field(name: &str, ty: TypeExpr) -> Field {
    Field {
        name: s(name),
        ty,
        attrs: vec![],
    }
}

fn each_field(name: &str, ty: TypeExpr, setter: &str) -> Field {
    Field {
        name: s(name),
        ty,
        attrs: vec![Attr {
            name: Some(s("builder")),
            value: AttrValue::List(vec![MetaItem::KeyStr {
                key: s("each"),
                value: s(setter),
            }]),
        }],
    }
}

fn decl(ident: &str, fields: Vec<Field>) -> TypeDecl {
    TypeDecl {
        ident: s(ident),
        generics: Generics {
            params: vec![],
            where_clause: None,
        },
        shape: StructShape::Named(fields),
    }
}

#[test]
fn required_field_builder() {
    let input = decl("Command", vec![field("executable", plain_ty("String"))]);
    let out = builder::derive(&input).unwrap();
    let expected = "\
pub struct CommandBuilder {
    executable: Option<String>,
}
impl Command {
    pub fn builder() -> CommandBuilder {
        CommandBuilder {
            executable: None,
        }
    }
}
impl CommandBuilder {
    pub fn executable(&mut self, executable: String) -> &mut Self {
        self.executable = Some(executable);
        self
    }
    pub fn build(&mut self) -> Result<Command, Box<dyn std::error::Error>> {
        Ok(Command {
            executable: self.executable.take().ok_or_else(|| std::string::String::from(\"Field executable is not set\"))?,
        })
    }
}
";
    assert_eq!(out, expected);
}

#[test]
fn optional_field_setter_takes_inner_type() {
    let input = decl("Command", vec![field("current_dir", option_ty("String"))]);
    let out = builder::derive(&input).unwrap();
    // the builder keeps the field's own `Option<String>` type
    assert!(out.contains("    current_dir: Option<String>,\n"));
    // the setter takes the inner type
    assert!(out.contains("pub fn current_dir(&mut self, current_dir: String) -> &mut Self"));
    // the finalizer passes the stored value through instead of requiring it
    assert!(out.contains("current_dir: self.current_dir.take(),\n"));
    assert!(!out.contains("Field current_dir is not set"));
}

#[test]
fn repeated_field_gets_appender_not_replacing_setter() {
    let input = decl("Command", vec![each_field("args", vec_ty("String"), "arg")]);
    let out = builder::derive(&input).unwrap();
    // an appender named by the directive, taking one element
    assert!(out.contains("pub fn arg(&mut self, arg: String) -> &mut Self"));
    assert!(out.contains("self.args.push(arg);\n"));
    // no replacing setter named after the field
    assert!(!out.contains("pub fn args("));
    // the builder stores the vector directly and starts it empty
    assert!(out.contains("    args: Vec<String>,\n"));
    assert!(out.contains("args: Vec::new(),\n"));
    assert!(out.contains("args: self.args.clone(),\n"));
}

#[test]
fn mixed_fields_full_text() {
    let input = decl(
        "Command",
        vec![
            field("executable", plain_ty("String")),
            each_field("args", vec_ty("String"), "arg"),
            field("current_dir", option_ty("String")),
        ],
    );
    let out = builder::derive(&input).unwrap();
    let expected = "\
pub struct CommandBuilder {
    executable: Option<String>,
    args: Vec<String>,
    current_dir: Option<String>,
}
impl Command {
    pub fn builder() -> CommandBuilder {
        CommandBuilder {
            executable: None,
            args: Vec::new(),
            current_dir: None,
        }
    }
}
impl CommandBuilder {
    pub fn executable(&mut self, executable: String) -> &mut Self {
        self.executable = Some(executable);
        self
    }
    pub fn arg(&mut self, arg: String) -> &mut Self {
        self.args.push(arg);
        self
    }
    pub fn current_dir(&mut self, current_dir: String) -> &mut Self {
        self.current_dir = Some(current_dir);
        self
    }
    pub fn build(&mut self) -> Result<Command, Box<dyn std::error::Error>> {
        Ok(Command {
            executable: self.executable.take().ok_or_else(|| std::string::String::from(\"Field executable is not set\"))?,
            args: self.args.clone(),
            current_dir: self.current_dir.take(),
        })
    }
}
";
    assert_eq!(out, expected);
}

#[test]
fn output_parses_as_rust_source() {
    let input = decl(
        "Command",
        vec![
            field("executable", plain_ty("String")),
            each_field("env", vec_ty("String"), "env_var"),
            field("current_dir", option_ty("String")),
        ],
    );
    let out = builder::derive(&input).unwrap();
    assert!(syn::parse_str::<syn::File>(&out).is_ok());
}

#[test]
fn each_directive_on_non_vec_keeps_field_type_as_element() {
    // mirrors the fallback: when the annotated field is not `Vec<...>`, the
    // element type is the field's own type
    let input = decl("Holder", vec![each_field("items", plain_ty("String"), "item")]);
    let out = builder::derive(&input).unwrap();
    assert!(out.contains("    items: Vec<String>,\n"));
    assert!(out.contains("pub fn item(&mut self, item: String) -> &mut Self"));
}

#[test]
fn unexpected_builder_item_is_rejected() {
    let mut f = field("args", vec_ty("String"));
    f.attrs = vec![Attr {
        name: Some(s("builder")),
        value: AttrValue::List(vec![MetaItem::KeyStr {
            key: s("eac"),
            value: s("arg"),
        }]),
    }];
    let input = decl("Command", vec![f]);
    let err = builder::derive(&input).unwrap_err();
    assert_eq!(err, DeriveError::UnexpectedBuilderItem);
    assert_eq!(err.message(), "expected `builder(each = \"...\")`");
    assert!(!err.is_shape_error());
}

#[test]
fn each_without_string_value_is_rejected() {
    let mut f = field("args", vec_ty("String"));
    f.attrs = vec![Attr {
        name: Some(s("builder")),
        value: AttrValue::List(vec![MetaItem::KeyOther { key: s("each") }]),
    }];
    let input = decl("Command", vec![f]);
    let err = builder::derive(&input).unwrap_err();
    assert_eq!(err, DeriveError::EachValueNotString);
    assert_eq!(err.message(), "expected string literal");
}

#[test]
fn builder_attribute_without_list_is_rejected() {
    let mut f = field("args", vec_ty("String"));
    f.attrs = vec![Attr {
        name: Some(s("builder")),
        value: AttrValue::Other,
    }];
    let input = decl("Command", vec![f]);
    let err = builder::derive(&input).unwrap_err();
    assert_eq!(err, DeriveError::MalformedBuilderAttr);
    assert_eq!(
        err.message(),
        "expected attribute arguments in parentheses: `builder(...)`"
    );
}

#[test]
fn later_each_item_wins_within_one_attribute() {
    let mut f = field("args", vec_ty("String"));
    f.attrs = vec![Attr {
        name: Some(s("builder")),
        value: AttrValue::List(vec![
            MetaItem::KeyStr {
                key: s("each"),
                value: s("first"),
            },
            MetaItem::KeyStr {
                key: s("each"),
                value: s("second"),
            },
        ]),
    }];
    let input = decl("Command", vec![f]);
    let out = builder::derive(&input).unwrap();
    assert!(out.contains("pub fn second(&mut self, second: String) -> &mut Self"));
    assert!(!out.contains("pub fn first("));
}

#[test]
fn first_builder_attribute_decides() {
    let mut f = field("args", vec_ty("String"));
    f.attrs = vec![
        Attr {
            name: Some(s("builder")),
            value: AttrValue::List(vec![]),
        },
        Attr {
            name: Some(s("builder")),
            value: AttrValue::List(vec![MetaItem::KeyStr {
                key: s("each"),
                value: s("arg"),
            }]),
        },
    ];
    let input = decl("Command", vec![f]);
    let out = builder::derive(&input).unwrap();
    // the empty first list wins: the field is treated as required
    assert!(out.contains("pub fn args(&mut self, args: Vec<String>) -> &mut Self"));
    assert!(!out.contains("pub fn arg("));
}

#[test]
fn foreign_attributes_are_ignored() {
    let mut f = field("executable", plain_ty("String"));
    f.attrs = vec![
        Attr {
            name: Some(s("serde")),
            value: AttrValue::Other,
        },
        Attr {
            name: None,
            value: AttrValue::Other,
        },
    ];
    let input = decl("Command", vec![f]);
    assert!(builder::derive(&input).is_ok());
}

#[test]
fn non_struct_is_rejected() {
    let input = TypeDecl {
        ident: s("Direction"),
        generics: Generics {
            params: vec![],
            where_clause: None,
        },
        shape: StructShape::NotStruct,
    };
    let err = builder::derive(&input).unwrap_err();
    assert_eq!(err, DeriveError::NotStruct);
    assert_eq!(err.message(), "Only structs are supported");
    assert!(err.is_shape_error());
}

#[test]
fn unnamed_fields_are_rejected() {
    let input = TypeDecl {
        ident: s("Pair"),
        generics: Generics {
            params: vec![],
            where_clause: None,
        },
        shape: StructShape::Unnamed,
    };
    let err = builder::derive(&input).unwrap_err();
    assert_eq!(err, DeriveError::NoNamedFields);
    assert_eq!(err.message(), "Only named fields are supported");
    assert!(err.is_shape_error());
}

#[test]
fn first_rejected_field_wins() {
    let mut bad1 = field("a", plain_ty("u32"));
    bad1.attrs = vec![Attr {
        name: Some(s("builder")),
        value: AttrValue::Other,
    }];
    let mut bad2 = field("b", plain_ty("u32"));
    bad2.attrs = vec![Attr {
        name: Some(s("builder")),
        value: AttrValue::List(vec![MetaItem::NoKey]),
    }];
    let input = decl("Command", vec![bad1, bad2]);
    let err = builder::derive(&input).unwrap_err();
    assert_eq!(err, DeriveError::MalformedBuilderAttr);
}

#[test]
fn is_option_looks_at_leading_segment_only() {
    assert!(builder::is_option(&option_ty("String")));
    assert!(!builder::is_option(&plain_ty("String")));
    // a path whose leading segment is `std` is not recognized, even when it
    // ends in an option
    let qualified = TypeExpr {
        text: s("std::option::Option<String>"),
        head: Some(PathHead {
            ident: s("std"),
            args: None,
        }),
    };
    assert!(!builder::is_option(&qualified));
    // `Option` without angle-bracketed arguments is not recognized
    assert!(!builder::is_option(&plain_ty("Option")));
}

#[test]
fn inner_of_takes_first_type_argument_or_falls_back() {
    let v = vec_ty("u64");
    assert_eq!(builder::inner_of(&v, "Vec"), "u64");
    assert_eq!(builder::inner_of(&v, "Option"), "Vec<u64>");
    let p = plain_ty("String");
    assert_eq!(builder::inner_of(&p, "Vec"), "String");
}
