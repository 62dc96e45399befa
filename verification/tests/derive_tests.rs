use builder::ast::{Attr, AttrArg, AttrExpr, FieldDef, GenArg, Record, Ty, TyKind};
use builder::attr::{parse_each, EachOutcome};
use builder::classify::{classify_field, classify_fields, FieldShape};
use builder::diag::required_msg;
use builder::expand::derive_builder;

fn path_ty(name: &str) -> Ty {
    Ty {
        text: name.to_string(),
        kind: TyKind::PathTy { head: name.to_string(), args: vec![] },
    }
}

fn generic_ty(outer: &str, inner: &str) -> Ty {
    Ty {
        text: format!("{} < {} >", outer, inner),
        kind: TyKind::PathTy {
            head: outer.to_string(),
            args: vec![GenArg::TyArg(path_ty(inner))],
        },
    }
}

fn field(ident: &str, ty: Ty) -> FieldDef {
    FieldDef { ident: ident.to_string(), ty, attrs: vec![] }
}

fn each_attr(span: u64, key: &str, value: &str) -> Attr {
    Attr {
        path: "builder".to_string(),
        span,
        arg: AttrArg::AssignArg {
            left: AttrExpr::PathExpr(vec![key.to_string()]),
            right: AttrExpr::StrExpr(value.to_string()),
        },
    }
}

const EACH_ERR: &str = "expected `builder(each = \"...\")`";

#[test]
fn required_field_classifies_required() {
    let r = classify_field(field("executable", path_ty("String")));
    match r {
        Ok(FieldShape::Required { ident, ty }) => {
            assert_eq!(ident, "executable");
            assert_eq!(ty.text, "String");
        }
        other => panic!("expected Required, got {:?}", other),
    }
}

#[test]
fn option_field_classifies_optional() {
    let r = classify_field(field("current_dir", generic_ty("Option", "String")));
    match r {
        Ok(FieldShape::Optional { ident, inner }) => {
            assert_eq!(ident, "current_dir");
            assert_eq!(inner.text, "String");
        }
        other => panic!("expected Optional, got {:?}", other),
    }
}

#[test]
fn vec_without_attribute_stays_required() {
    // Scenario: a sequence field with no `builder` attribute keeps the
    // whole-vector setter and is required.
    let r = classify_field(field("args", generic_ty("Vec", "String")));
    match r {
        Ok(FieldShape::Required { ident, ty }) => {
            assert_eq!(ident, "args");
            assert_eq!(ty.text, "Vec < String >");
        }
        other => panic!("expected Required, got {:?}", other),
    }
}

#[test]
fn vec_with_each_attribute_classifies_repeated() {
    let mut f = field("args", generic_ty("Vec", "String"));
    f.attrs.push(each_attr(7, "each", "arg"));
    let r = classify_field(f);
    match r {
        Ok(FieldShape::Repeated { ident, elem, each }) => {
            assert_eq!(ident, "args");
            assert_eq!(elem.text, "String");
            assert_eq!(each, "arg");
        }
        other => panic!("expected Repeated, got {:?}", other),
    }
}

#[test]
fn wrong_key_on_vec_field_is_an_error() {
    // Scenario: `builder(eac = "arg")` on a Vec field fails the
    // derivation with the fixed message, anchored at the attribute.
    let mut f = field("args", generic_ty("Vec", "String"));
    f.attrs.push(each_attr(42, "eac", "arg"));
    let r = classify_field(f);
    match r {
        Err(d) => {
            assert_eq!(d.span, 42);
            assert_eq!(d.msg, EACH_ERR);
        }
        other => panic!("expected an error, got {:?}", other),
    }
}

#[test]
fn wrong_key_on_non_vec_field_is_ignored() {
    let mut f = field("executable", path_ty("String"));
    f.attrs.push(each_attr(42, "eac", "arg"));
    let r = classify_field(f);
    assert!(matches!(r, Ok(FieldShape::Required { .. })));
}

#[test]
fn wrong_key_on_option_field_is_ignored() {
    let mut f = field("current_dir", generic_ty("Option", "String"));
    f.attrs.push(each_attr(42, "eac", "arg"));
    let r = classify_field(f);
    assert!(matches!(r, Ok(FieldShape::Optional { .. })));
}

#[test]
fn unrecognized_attribute_shape_falls_back_to_required() {
    // `builder(each)` or `builder("x")`: no assignment, silently declined.
    let mut f = field("args", generic_ty("Vec", "String"));
    f.attrs.push(Attr { path: "builder".to_string(), span: 1, arg: AttrArg::NotAssign });
    let r = classify_field(f);
    assert!(matches!(r, Ok(FieldShape::Required { .. })));
}

#[test]
fn non_literal_right_side_falls_back_to_required() {
    let mut f = field("args", generic_ty("Vec", "String"));
    f.attrs.push(Attr {
        path: "builder".to_string(),
        span: 1,
        arg: AttrArg::AssignArg {
            left: AttrExpr::PathExpr(vec!["each".to_string()]),
            right: AttrExpr::OtherExpr,
        },
    });
    let r = classify_field(f);
    assert!(matches!(r, Ok(FieldShape::Required { .. })));
}

#[test]
fn multi_segment_key_falls_back_to_required() {
    let mut f = field("args", generic_ty("Vec", "String"));
    f.attrs.push(Attr {
        path: "builder".to_string(),
        span: 1,
        arg: AttrArg::AssignArg {
            left: AttrExpr::PathExpr(vec!["a".to_string(), "each".to_string()]),
            right: AttrExpr::StrExpr("arg".to_string()),
        },
    });
    let r = classify_field(f);
    assert!(matches!(r, Ok(FieldShape::Required { .. })));
}

#[test]
fn first_builder_attribute_wins() {
    // A foreign attribute ahead of ours is skipped; only the first
    // `builder` attribute is consulted.
    let mut f = field("args", generic_ty("Vec", "String"));
    f.attrs.push(Attr { path: "doc".to_string(), span: 1, arg: AttrArg::NotAssign });
    f.attrs.push(each_attr(2, "each", "arg"));
    f.attrs.push(each_attr(3, "eac", "bad"));
    let r = classify_field(f);
    match r {
        Ok(FieldShape::Repeated { each, .. }) => assert_eq!(each, "arg"),
        other => panic!("expected Repeated, got {:?}", other),
    }
}

#[test]
fn option_with_non_type_argument_is_required() {
    let f = field(
        "x",
        Ty {
            text: "Option < 'a >".to_string(),
            kind: TyKind::PathTy {
                head: "Option".to_string(),
                args: vec![GenArg::OtherArg],
            },
        },
    );
    assert!(matches!(classify_field(f), Ok(FieldShape::Required { .. })));
}

#[test]
fn option_with_two_arguments_is_required() {
    let f = field(
        "x",
        Ty {
            text: "Option < A , B >".to_string(),
            kind: TyKind::PathTy {
                head: "Option".to_string(),
                args: vec![GenArg::TyArg(path_ty("A")), GenArg::TyArg(path_ty("B"))],
            },
        },
    );
    assert!(matches!(classify_field(f), Ok(FieldShape::Required { .. })));
}

#[test]
fn non_path_type_is_required() {
    let f = field(
        "x",
        Ty { text: "[ u8 ; 4 ]".to_string(), kind: TyKind::OtherTy },
    );
    assert!(matches!(classify_field(f), Ok(FieldShape::Required { .. })));
}

#[test]
fn parse_each_recognizes_the_name() {
    let a = each_attr(5, "each", "env_var");
    match parse_each(&a) {
        EachOutcome::EachName(n) => assert_eq!(n, "env_var"),
        other => panic!("expected a name, got {:?}", other),
    }
}

#[test]
fn parse_each_signals_a_wrong_key() {
    let a = each_attr(5, "eah", "env_var");
    match parse_each(&a) {
        EachOutcome::Malformed(d) => {
            assert_eq!(d.span, 5);
            assert_eq!(d.msg, EACH_ERR);
        }
        other => panic!("expected a diagnostic, got {:?}", other),
    }
}

#[test]
fn parse_each_declines_foreign_shapes() {
    let a = Attr { path: "builder".to_string(), span: 5, arg: AttrArg::NotAssign };
    assert!(matches!(parse_each(&a), EachOutcome::Unrecognized));
}

#[test]
fn classification_preserves_declaration_order() {
    let fields = vec![
        field("executable", path_ty("String")),
        field("args", generic_ty("Vec", "String")),
        field("env", generic_ty("Vec", "String")),
        field("current_dir", generic_ty("Option", "String")),
    ];
    let shapes = classify_fields(fields).unwrap();
    let idents: Vec<&str> = shapes.iter().map(|s| s.ident().as_str()).collect();
    assert_eq!(idents, vec!["executable", "args", "env", "current_dir"]);
}

#[test]
fn classification_reports_the_first_error() {
    let mut f2 = field("args", generic_ty("Vec", "String"));
    f2.attrs.push(each_attr(10, "eac", "arg"));
    let mut f3 = field("env", generic_ty("Vec", "String"));
    f3.attrs.push(each_attr(20, "eac", "e"));
    let fields = vec![field("executable", path_ty("String")), f2, f3];
    let d = classify_fields(fields).unwrap_err();
    assert_eq!(d.span, 10);
}

#[test]
fn emitted_tokens_for_one_required_field() {
    let rec = Record {
        ident: "Command".to_string(),
        fields: vec![field("executable", path_ty("String"))],
    };
    let toks = derive_builder(rec).unwrap();
    let got = toks.join(" ");
    let expected = "pub struct CommandBuilder { \
executable : std :: option :: Option < String > , } \
impl Command { pub fn builder ( ) -> CommandBuilder { CommandBuilder { \
executable : std :: option :: Option :: None , } } } \
impl CommandBuilder { \
pub fn executable ( & mut self , executable : String ) -> & mut Self \
{ self . executable = std :: option :: Option :: Some ( executable ) ; self } \
pub fn build ( & mut self ) -> std :: result :: Result < Command , \
std :: boxed :: Box < dyn std :: error :: Error > > { \
let executable = if let std :: option :: Option :: Some ( x ) = & self . executable \
{ x . clone ( ) } else \
{ return std :: result :: Result :: Err ( \"\\\"executable\\\" is required\" . into ( ) ) ; } ; \
std :: result :: Result :: Ok ( Command { executable , } ) } }";
    assert_eq!(got, expected);
}

#[test]
fn emitted_tokens_for_an_optional_field() {
    let rec = Record {
        ident: "Command".to_string(),
        fields: vec![field("current_dir", generic_ty("Option", "String"))],
    };
    let toks = derive_builder(rec).unwrap();
    let got = toks.join(" ");
    // The slot keeps the inner type, the setter accepts the inner type,
    // and build clones the slot without any requiredness check.
    assert!(got.contains("current_dir : std :: option :: Option < String > ,"));
    assert!(got.contains("pub fn current_dir ( & mut self , current_dir : String )"));
    assert!(got.contains("let current_dir = self . current_dir . clone ( ) ;"));
    assert!(!got.contains("is required"));
}

#[test]
fn emitted_tokens_for_a_repeated_field() {
    let mut f = field("args", generic_ty("Vec", "String"));
    f.attrs.push(each_attr(0, "each", "arg"));
    let rec = Record { ident: "Command".to_string(), fields: vec![f] };
    let toks = derive_builder(rec).unwrap();
    let got = toks.join(" ");
    assert!(got.contains("args : std :: vec :: Vec < String > ,"));
    assert!(got.contains("args : std :: vec :: Vec :: new ( ) ,"));
    // Only the push-setter exists, under the per-element name.
    assert!(got.contains("pub fn arg ( & mut self , arg : String ) -> & mut Self { self . args . push ( arg ) ; self }"));
    assert!(!got.contains("pub fn args"));
    assert!(got.contains("let args = self . args . clone ( ) ;"));
}

#[test]
fn derivation_fails_on_a_malformed_attribute() {
    let mut f = field("args", generic_ty("Vec", "String"));
    f.attrs.push(each_attr(42, "eac", "arg"));
    let rec = Record {
        ident: "Command".to_string(),
        fields: vec![field("executable", path_ty("String")), f],
    };
    let d = derive_builder(rec).unwrap_err();
    assert_eq!(d.span, 42);
    assert_eq!(d.msg, EACH_ERR);
}

#[test]
fn constructor_lists_fields_in_declaration_order() {
    let mut args = field("args", generic_ty("Vec", "String"));
    args.attrs.push(each_attr(0, "each", "arg"));
    let rec = Record {
        ident: "Command".to_string(),
        fields: vec![
            field("executable", path_ty("String")),
            args,
            field("env", generic_ty("Vec", "String")),
            field("current_dir", generic_ty("Option", "String")),
        ],
    };
    let toks = derive_builder(rec).unwrap();
    let got = toks.join(" ");
    assert!(got.ends_with(
        "std :: result :: Result :: Ok ( Command { executable , args , env , current_dir , } ) } }"
    ));
}

#[test]
fn empty_record_still_derives() {
    let rec = Record { ident: "Unit".to_string(), fields: vec![] };
    let toks = derive_builder(rec).unwrap();
    let got = toks.join(" ");
    assert_eq!(
        got,
        "pub struct UnitBuilder { } \
impl Unit { pub fn builder ( ) -> UnitBuilder { UnitBuilder { } } } \
impl UnitBuilder { pub fn build ( & mut self ) -> std :: result :: Result < Unit , \
std :: boxed :: Box < dyn std :: error :: Error > > { \
std :: result :: Result :: Ok ( Unit { } ) } }"
    );
}

#[test]
fn push_setter_may_replace_the_whole_field_setter() {
    // each = "args" on the field `args`: only the push-setter exists,
    // under the field's own name.
    let mut f = field("args", generic_ty("Vec", "String"));
    f.attrs.push(each_attr(0, "each", "args"));
    let rec = Record { ident: "Command".to_string(), fields: vec![f] };
    let toks = derive_builder(rec).unwrap();
    let got = toks.join(" ");
    assert!(got.contains(
        "pub fn args ( & mut self , args : String ) -> & mut Self { self . args . push ( args ) ; self }"
    ));
    assert_eq!(got.matches("pub fn args").count(), 1);
}

#[test]
fn emitted_tokens_parse_as_rust_items() {
    let mut args = field("args", generic_ty("Vec", "String"));
    args.attrs.push(each_attr(0, "each", "arg"));
    let rec = Record {
        ident: "Command".to_string(),
        fields: vec![
            field("executable", path_ty("String")),
            args,
            field("env", generic_ty("Vec", "String")),
            field("current_dir", generic_ty("Option", "String")),
        ],
    };
    let code = derive_builder(rec).unwrap().join(" ");
    let file = syn::parse_str::<syn::File>(&code).expect("the emitted builder is valid Rust");
    assert_eq!(file.items.len(), 3);
}

#[test]
fn required_message_quotes_the_ident() {
    let m = required_msg(&"executable".to_string());
    assert_eq!(m, "\"executable\" is required");
}
