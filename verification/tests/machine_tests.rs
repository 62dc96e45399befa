use builder::ast::{GenArg, Ty, TyKind};
use builder::classify::FieldShape;
use builder::machine::{build_values, init_state, BuiltValue};

fn mty(name: &str) -> Ty {
    Ty {
        text: name.to_string(),
        kind: TyKind::PathTy { head: name.to_string(), args: vec![] },
    }
}

fn required(ident: &str) -> FieldShape {
    FieldShape::Required { ident: ident.to_string(), ty: mty("String") }
}

fn optional(ident: &str) -> FieldShape {
    FieldShape::Optional { ident: ident.to_string(), inner: mty("String") }
}

fn repeated(ident: &str, each: &str) -> FieldShape {
    FieldShape::Repeated {
        ident: ident.to_string(),
        elem: Ty {
            text: "String".to_string(),
            kind: TyKind::PathTy {
                head: "String".to_string(),
                args: vec![GenArg::TyArg(mty("String"))],
            },
        },
        each: each.to_string(),
    }
}

#[test]
fn all_required_round_trip() {
    // Scenario: every setter called once returns exactly the given
    // values, in declaration order.
    let shapes = vec![
        required("executable"),
        required("args"),
        required("env"),
        required("current_dir"),
    ];
    let mut st = init_state::<&str>(&shapes);
    st.set_field(0, "cargo");
    st.set_field(1, "build");
    st.set_field(2, "PATH=/bin");
    st.set_field(3, ".");
    let out = build_values(&shapes, &st).unwrap();
    assert_eq!(
        out,
        vec![
            BuiltValue::One("cargo"),
            BuiltValue::One("build"),
            BuiltValue::One("PATH=/bin"),
            BuiltValue::One("."),
        ]
    );
}

#[test]
fn missing_required_field_is_reported() {
    let shapes = vec![required("executable"), required("current_dir")];
    let mut st = init_state::<&str>(&shapes);
    st.set_field(1, ".");
    let e = build_values(&shapes, &st).unwrap_err();
    assert_eq!(e, "\"executable\" is required");
}

#[test]
fn first_missing_required_field_wins() {
    // Two unset required fields: the error names the first one in
    // declaration order.
    let shapes = vec![required("executable"), required("args"), required("env")];
    let mut st = init_state::<&str>(&shapes);
    st.set_field(0, "ls");
    let e = build_values(&shapes, &st).unwrap_err();
    assert_eq!(e, "\"args\" is required");
}

#[test]
fn optional_field_defaults_to_none() {
    // Scenario: omitting an optional field's setter builds the empty
    // option.
    let shapes = vec![required("executable"), optional("current_dir")];
    let mut st = init_state::<&str>(&shapes);
    st.set_field(0, "x");
    let out = build_values(&shapes, &st).unwrap();
    assert_eq!(out, vec![BuiltValue::One("x"), BuiltValue::Opt(None)]);
}

#[test]
fn optional_field_keeps_its_value() {
    let shapes = vec![required("executable"), optional("current_dir")];
    let mut st = init_state::<&str>(&shapes);
    st.set_field(0, "x");
    st.set_field(1, "/tmp");
    let out = build_values(&shapes, &st).unwrap();
    assert_eq!(out, vec![BuiltValue::One("x"), BuiltValue::Opt(Some("/tmp"))]);
}

#[test]
fn repeated_field_accumulates_in_order() {
    // Scenario: the push-setter called k times yields [e1, ..., ek].
    let shapes = vec![required("executable"), repeated("args", "arg")];
    let mut st = init_state::<&str>(&shapes);
    st.set_field(0, "ls");
    st.push_value(1, "-l");
    st.push_value(1, "-a");
    let out = build_values(&shapes, &st).unwrap();
    assert_eq!(
        out,
        vec![BuiltValue::One("ls"), BuiltValue::Many(vec!["-l", "-a"])]
    );
}

#[test]
fn repeated_field_defaults_to_empty() {
    let shapes = vec![repeated("args", "arg")];
    let st = init_state::<&str>(&shapes);
    let out = build_values(&shapes, &st).unwrap();
    assert_eq!(out, vec![BuiltValue::Many(vec![])]);
}

#[test]
fn build_is_recallable() {
    // Scenario: building twice from one fully set builder yields two
    // equal results.
    let shapes = vec![required("executable"), repeated("args", "arg")];
    let mut st = init_state::<&str>(&shapes);
    st.set_field(0, "ls");
    st.push_value(1, "-l");
    let first = build_values(&shapes, &st).unwrap();
    let second = build_values(&shapes, &st).unwrap();
    assert_eq!(first, second);
}

#[test]
fn setter_overwrites_previous_value() {
    let shapes = vec![required("executable")];
    let mut st = init_state::<&str>(&shapes);
    st.set_field(0, "old");
    st.set_field(0, "new");
    let out = build_values(&shapes, &st).unwrap();
    assert_eq!(out, vec![BuiltValue::One("new")]);
}

#[test]
fn integer_values_work_too() {
    let shapes = vec![required("a"), optional("b"), repeated("c", "item")];
    let mut st = init_state::<u64>(&shapes);
    st.set_field(0, 7);
    st.push_value(2, 1);
    st.push_value(2, 2);
    st.push_value(2, 3);
    let out = build_values(&shapes, &st).unwrap();
    assert_eq!(
        out,
        vec![
            BuiltValue::One(7),
            BuiltValue::Opt(None),
            BuiltValue::Many(vec![1, 2, 3]),
        ]
    );
}
