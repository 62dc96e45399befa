//! The emitter: from the classified field list and the record's name to
//! the output token text — builder type, `builder()` entry method, setter
//! cluster and fallible `build` method. Each element of the output vector
//! is one token (or, for a spliced type, one verbatim run of tokens).

use vstd::prelude::*;
use vstd::string::StringExecFns;

use crate::classify::{setter_name, shape_ident, FieldShape};

verus! {

/// The token views of a token vector.
pub open spec fn toks(v: Seq<String>) -> Seq<Seq<char>> {
    v.map_values(|s: String| s@)
}

/// The name of the generated builder type: the record's name followed by
/// `Builder`.
pub open spec fn builder_ident(target: Seq<char>) -> Seq<char> {
    target + "Builder"@
}

/// The string-literal token of the `build` error for one field: the field
/// ident in its quoted form, then ` is required`, all inside one literal.
pub open spec fn err_lit(ident: Seq<char>) -> Seq<char> {
    "\"\\\""@ + ident + "\\\" is required\""@
}

/// The slot declared for one field in the builder type: required and
/// optional fields get an optional slot, repeated fields a vector slot.
pub open spec fn slot_tokens(f: FieldShape) -> Seq<Seq<char>> {
    match f {
        FieldShape::Required { ident, ty } => seq![
            ident@, ":"@, "std"@, "::"@, "option"@, "::"@, "Option"@, "<"@, ty.text@, ">"@, ","@,
        ],
        FieldShape::Optional { ident, inner } => seq![
            ident@, ":"@, "std"@, "::"@, "option"@, "::"@, "Option"@, "<"@, inner.text@, ">"@,
            ","@,
        ],
        FieldShape::Repeated { ident, elem, .. } => seq![
            ident@, ":"@, "std"@, "::"@, "vec"@, "::"@, "Vec"@, "<"@, elem.text@, ">"@, ","@,
        ],
    }
}

/// The initializer entry for one slot: the empty option, or the empty
/// vector.
pub open spec fn init_tokens(f: FieldShape) -> Seq<Seq<char>> {
    match f {
        FieldShape::Required { ident, .. } => seq![
            ident@, ":"@, "std"@, "::"@, "option"@, "::"@, "Option"@, "::"@, "None"@, ","@,
        ],
        FieldShape::Optional { ident, .. } => seq![
            ident@, ":"@, "std"@, "::"@, "option"@, "::"@, "Option"@, "::"@, "None"@, ","@,
        ],
        FieldShape::Repeated { ident, .. } => seq![
            ident@, ":"@, "std"@, "::"@, "vec"@, "::"@, "Vec"@, "::"@, "new"@, "("@, ")"@, ","@,
        ],
    }
}

/// The one setter emitted for one field: required and optional fields get
/// a setter under the field's own name that stores the value; a repeated
/// field gets a push-setter under its per-element name.
pub open spec fn setter_tokens(f: FieldShape) -> Seq<Seq<char>> {
    match f {
        FieldShape::Required { ident, ty } => seq![
            "pub"@, "fn"@, ident@, "("@, "&"@, "mut"@, "self"@, ","@, ident@, ":"@, ty.text@,
            ")"@, "->"@, "&"@, "mut"@, "Self"@, "{"@, "self"@, "."@, ident@, "="@, "std"@, "::"@,
            "option"@, "::"@, "Option"@, "::"@, "Some"@, "("@, ident@, ")"@, ";"@, "self"@, "}"@,
        ],
        FieldShape::Optional { ident, inner } => seq![
            "pub"@, "fn"@, ident@, "("@, "&"@, "mut"@, "self"@, ","@, ident@, ":"@, inner.text@,
            ")"@, "->"@, "&"@, "mut"@, "Self"@, "{"@, "self"@, "."@, ident@, "="@, "std"@, "::"@,
            "option"@, "::"@, "Option"@, "::"@, "Some"@, "("@, ident@, ")"@, ";"@, "self"@, "}"@,
        ],
        FieldShape::Repeated { ident, elem, each } => seq![
            "pub"@, "fn"@, each@, "("@, "&"@, "mut"@, "self"@, ","@, each@, ":"@, elem.text@,
            ")"@, "->"@, "&"@, "mut"@, "Self"@, "{"@, "self"@, "."@, ident@, "."@, "push"@, "("@,
            each@, ")"@, ";"@, "self"@, "}"@,
        ],
    }
}

/// One extraction step of the `build` body: a required slot is unwrapped
/// or short-circuits with its error; optional and repeated slots are
/// cloned as they stand.
pub open spec fn step_tokens(f: FieldShape) -> Seq<Seq<char>> {
    match f {
        FieldShape::Required { ident, .. } => seq![
            "let"@, ident@, "="@, "if"@, "let"@, "std"@, "::"@, "option"@, "::"@, "Option"@,
            "::"@, "Some"@, "("@, "x"@, ")"@, "="@, "&"@, "self"@, "."@, ident@, "{"@, "x"@, "."@,
            "clone"@, "("@, ")"@, "}"@, "else"@, "{"@, "return"@, "std"@, "::"@, "result"@, "::"@,
            "Result"@, "::"@, "Err"@, "("@, err_lit(ident@), "."@, "into"@, "("@, ")"@, ")"@,
            ";"@, "}"@, ";"@,
        ],
        FieldShape::Optional { ident, .. } => seq![
            "let"@, ident@, "="@, "self"@, "."@, ident@, "."@, "clone"@, "("@, ")"@, ";"@,
        ],
        FieldShape::Repeated { ident, .. } => seq![
            "let"@, ident@, "="@, "self"@, "."@, ident@, "."@, "clone"@, "("@, ")"@, ";"@,
        ],
    }
}

/// One entry of the final constructor: the field's name, bound to the
/// local of the same name.
pub open spec fn ctor_tokens(f: FieldShape) -> Seq<Seq<char>> {
    match f {
        FieldShape::Required { ident, .. } => seq![ident@, ","@],
        FieldShape::Optional { ident, .. } => seq![ident@, ","@],
        FieldShape::Repeated { ident, .. } => seq![ident@, ","@],
    }
}

/// Which of the five per-field clusters of the output is being emitted.
#[derive(Clone, Copy, Debug)]
pub enum FieldCluster {
    Slots,
    Inits,
    Setters,
    Steps,
    CtorFields,
}

/// The tokens one field contributes to one cluster.
pub open spec fn field_tokens(c: FieldCluster, f: FieldShape) -> Seq<Seq<char>> {
    match c {
        FieldCluster::Slots => slot_tokens(f),
        FieldCluster::Inits => init_tokens(f),
        FieldCluster::Setters => setter_tokens(f),
        FieldCluster::Steps => step_tokens(f),
        FieldCluster::CtorFields => ctor_tokens(f),
    }
}

/// A whole cluster: every field's contribution, in declaration order.
pub open spec fn cluster_tokens(c: FieldCluster, fs: Seq<FieldShape>) -> Seq<Seq<char>>
    decreases fs.len(),
{
    if fs.len() == 0 {
        Seq::empty()
    } else {
        field_tokens(c, fs[0]) + cluster_tokens(c, fs.drop_first())
    }
}

pub proof fn lemma_cluster_concat(c: FieldCluster, a: Seq<FieldShape>, b: Seq<FieldShape>)
    ensures
        cluster_tokens(c, a + b) == cluster_tokens(c, a) + cluster_tokens(c, b),
    decreases a.len(),
{
    if a.len() == 0 {
        assert(a + b =~= b);
        assert(cluster_tokens(c, a) + cluster_tokens(c, b) =~= cluster_tokens(c, b));
    } else {
        assert((a + b).drop_first() =~= a.drop_first() + b);
        lemma_cluster_concat(c, a.drop_first(), b);
        assert((a + b)[0] == a[0]);
        assert(field_tokens(c, a[0]) + (cluster_tokens(c, a.drop_first()) + cluster_tokens(c, b))
            =~= (field_tokens(c, a[0]) + cluster_tokens(c, a.drop_first())) + cluster_tokens(
            c,
            b,
        ));
        assert(cluster_tokens(c, a + b) == field_tokens(c, (a + b)[0]) + cluster_tokens(
            c,
            (a + b).drop_first(),
        ));
    }
}

pub proof fn lemma_toks_concat(a: Seq<String>, b: Seq<String>)
    ensures
        toks(a + b) == toks(a) + toks(b),
{
    assert(toks(a + b) =~= toks(a) + toks(b));
}

fn push_tok(v: &mut Vec<String>, s: &str)
    ensures
        toks(final(v)@) == toks(old(v)@).push(s@),
{
    v.push(s.to_owned());
    proof {
        assert(toks(v@) =~= toks(old(v)@).push(s@));
    }
}

fn push_string(v: &mut Vec<String>, s: String)
    ensures
        toks(final(v)@) == toks(old(v)@).push(s@),
{
    let ghost sv = s@;
    v.push(s);
    proof {
        assert(toks(v@) =~= toks(old(v)@).push(sv));
    }
}

/// The name of the generated builder type.
pub fn builder_name(target: &String) -> (b: String)
    ensures
        b@ == builder_ident(target@),
{
    let mut b = target.clone();
    b.append("Builder");
    b
}

/// The string-literal token of one required field's error message.
fn err_lit_string(ident: &String) -> (m: String)
    ensures
        m@ == err_lit(ident@),
{
    let mut m = "\"\\\"".to_owned();
    m.append(ident.as_str());
    m.append("\\\" is required\"");
    proof {
        assert(m@ =~= err_lit(ident@));
    }
    m
}

/// The tokens one field contributes to one cluster.
pub fn field_tokens_exec(c: FieldCluster, f: &FieldShape) -> (v: Vec<String>)
    ensures
        toks(v@) == field_tokens(c, *f),
{
    let mut v: Vec<String> = Vec::new();
    match c {
        FieldCluster::Slots => {
            match f {
                FieldShape::Required { ident, ty } => {
                    push_string(&mut v, ident.clone());
                    push_tok(&mut v, ":");
                    push_tok(&mut v, "std");
                    push_tok(&mut v, "::");
                    push_tok(&mut v, "option");
                    push_tok(&mut v, "::");
                    push_tok(&mut v, "Option");
                    push_tok(&mut v, "<");
                    push_string(&mut v, ty.text.clone());
                    push_tok(&mut v, ">");
                    push_tok(&mut v, ",");
                },
                FieldShape::Optional { ident, inner } => {
                    push_string(&mut v, ident.clone());
                    push_tok(&mut v, ":");
                    push_tok(&mut v, "std");
                    push_tok(&mut v, "::");
                    push_tok(&mut v, "option");
                    push_tok(&mut v, "::");
                    push_tok(&mut v, "Option");
                    push_tok(&mut v, "<");
                    push_string(&mut v, inner.text.clone());
                    push_tok(&mut v, ">");
                    push_tok(&mut v, ",");
                },
                FieldShape::Repeated { ident, elem, .. } => {
                    push_string(&mut v, ident.clone());
                    push_tok(&mut v, ":");
                    push_tok(&mut v, "std");
                    push_tok(&mut v, "::");
                    push_tok(&mut v, "vec");
                    push_tok(&mut v, "::");
                    push_tok(&mut v, "Vec");
                    push_tok(&mut v, "<");
                    push_string(&mut v, elem.text.clone());
                    push_tok(&mut v, ">");
                    push_tok(&mut v, ",");
                },
            }
        },
        FieldCluster::Inits => {
            push_string(&mut v, f.ident().clone());
            push_tok(&mut v, ":");
            push_tok(&mut v, "std");
            push_tok(&mut v, "::");
            match f {
                FieldShape::Repeated { .. } => {
                    push_tok(&mut v, "vec");
                    push_tok(&mut v, "::");
                    push_tok(&mut v, "Vec");
                    push_tok(&mut v, "::");
                    push_tok(&mut v, "new");
                    push_tok(&mut v, "(");
                    push_tok(&mut v, ")");
                    push_tok(&mut v, ",");
                },
                _ => {
                    push_tok(&mut v, "option");
                    push_tok(&mut v, "::");
                    push_tok(&mut v, "Option");
                    push_tok(&mut v, "::");
                    push_tok(&mut v, "None");
                    push_tok(&mut v, ",");
                },
            }
        },
        FieldCluster::Setters => {
            let (name, text) = match f {
                FieldShape::Required { ident, ty } => (ident, &ty.text),
                FieldShape::Optional { ident, inner } => (ident, &inner.text),
                FieldShape::Repeated { elem, each, .. } => (each, &elem.text),
            };
            push_tok(&mut v, "pub");
            push_tok(&mut v, "fn");
            push_string(&mut v, name.clone());
            push_tok(&mut v, "(");
            push_tok(&mut v, "&");
            push_tok(&mut v, "mut");
            push_tok(&mut v, "self");
            push_tok(&mut v, ",");
            push_string(&mut v, name.clone());
            push_tok(&mut v, ":");
            push_string(&mut v, text.clone());
            push_tok(&mut v, ")");
            push_tok(&mut v, "->");
            push_tok(&mut v, "&");
            push_tok(&mut v, "mut");
            push_tok(&mut v, "Self");
            push_tok(&mut v, "{");
            push_tok(&mut v, "self");
            push_tok(&mut v, ".");
            push_string(&mut v, f.ident().clone());
            match f {
                FieldShape::Repeated { each, .. } => {
                    push_tok(&mut v, ".");
                    push_tok(&mut v, "push");
                    push_tok(&mut v, "(");
                    push_string(&mut v, each.clone());
                    push_tok(&mut v, ")");
                    push_tok(&mut v, ";");
                    push_tok(&mut v, "self");
                    push_tok(&mut v, "}");
                },
                _ => {
                    push_tok(&mut v, "=");
                    push_tok(&mut v, "std");
                    push_tok(&mut v, "::");
                    push_tok(&mut v, "option");
                    push_tok(&mut v, "::");
                    push_tok(&mut v, "Option");
                    push_tok(&mut v, "::");
                    push_tok(&mut v, "Some");
                    push_tok(&mut v, "(");
                    push_string(&mut v, f.ident().clone());
                    push_tok(&mut v, ")");
                    push_tok(&mut v, ";");
                    push_tok(&mut v, "self");
                    push_tok(&mut v, "}");
                },
            }
        },
        FieldCluster::Steps => {
            push_tok(&mut v, "let");
            push_string(&mut v, f.ident().clone());
            push_tok(&mut v, "=");
            match f {
                FieldShape::Required { ident, .. } => {
                    push_tok(&mut v, "if");
                    push_tok(&mut v, "let");
                    push_tok(&mut v, "std");
                    push_tok(&mut v, "::");
                    push_tok(&mut v, "option");
                    push_tok(&mut v, "::");
                    push_tok(&mut v, "Option");
                    push_tok(&mut v, "::");
                    push_tok(&mut v, "Some");
                    push_tok(&mut v, "(");
                    push_tok(&mut v, "x");
                    push_tok(&mut v, ")");
                    push_tok(&mut v, "=");
                    push_tok(&mut v, "&");
                    push_tok(&mut v, "self");
                    push_tok(&mut v, ".");
                    push_string(&mut v, ident.clone());
                    push_tok(&mut v, "{");
                    push_tok(&mut v, "x");
                    push_tok(&mut v, ".");
                    push_tok(&mut v, "clone");
                    push_tok(&mut v, "(");
                    push_tok(&mut v, ")");
                    push_tok(&mut v, "}");
                    push_tok(&mut v, "else");
                    push_tok(&mut v, "{");
                    push_tok(&mut v, "return");
                    push_tok(&mut v, "std");
                    push_tok(&mut v, "::");
                    push_tok(&mut v, "result");
                    push_tok(&mut v, "::");
                    push_tok(&mut v, "Result");
                    push_tok(&mut v, "::");
                    push_tok(&mut v, "Err");
                    push_tok(&mut v, "(");
                    push_string(&mut v, err_lit_string(ident));
                    push_tok(&mut v, ".");
                    push_tok(&mut v, "into");
                    push_tok(&mut v, "(");
                    push_tok(&mut v, ")");
                    push_tok(&mut v, ")");
                    push_tok(&mut v, ";");
                    push_tok(&mut v, "}");
                    push_tok(&mut v, ";");
                },
                _ => {
                    push_tok(&mut v, "self");
                    push_tok(&mut v, ".");
                    push_string(&mut v, f.ident().clone());
                    push_tok(&mut v, ".");
                    push_tok(&mut v, "clone");
                    push_tok(&mut v, "(");
                    push_tok(&mut v, ")");
                    push_tok(&mut v, ";");
                },
            }
        },
        FieldCluster::CtorFields => {
            push_string(&mut v, f.ident().clone());
            push_tok(&mut v, ",");
        },
    }
    proof {
        assert(toks(v@) =~= field_tokens(c, *f));
    }
    v
}

/// A whole cluster: every field's contribution, in declaration order.
pub fn cluster_exec(c: FieldCluster, fields: &Vec<FieldShape>) -> (v: Vec<String>)
    ensures
        toks(v@) == cluster_tokens(c, fields@),
{
    let mut v: Vec<String> = Vec::new();
    let n = fields.len();
    proof {
        assert(toks(v@) =~= cluster_tokens(c, fields@.take(0)));
    }
    for i in 0..n
        invariant
            n == fields@.len(),
            toks(v@) == cluster_tokens(c, fields@.take(i as int)),
    {
        let mut piece = field_tokens_exec(c, &fields[i]);
        let ghost a = v@;
        let ghost b = piece@;
        v.append(&mut piece);
        proof {
            lemma_toks_concat(a, b);
            assert(fields@.take(i as int + 1) =~= fields@.take(i as int) + seq![
                fields@[i as int],
            ]);
            lemma_cluster_concat(c, fields@.take(i as int), seq![fields@[i as int]]);
            assert(seq![fields@[i as int]].drop_first() =~= Seq::<FieldShape>::empty());
            assert(cluster_tokens(c, Seq::<FieldShape>::empty()) =~= Seq::<Seq<char>>::empty());
            assert(cluster_tokens(c, seq![fields@[i as int]]) =~= field_tokens(
                c,
                fields@[i as int],
            ));
        }
    }
    proof {
        assert(fields@.take(n as int) =~= fields@);
    }
    v
}

/// Field identity in every cluster: the slot, the initializer entry, the
/// extraction step and the constructor entry of a field all carry the
/// field's own ident, and the one setter emitted for it carries the
/// setter name — the field's ident, or the per-element name of a
/// repeated field.
pub proof fn lemma_field_identity(f: FieldShape)
    ensures
        slot_tokens(f)[0] == shape_ident(f)@,
        init_tokens(f)[0] == shape_ident(f)@,
        setter_tokens(f)[2] == setter_name(f)@,
        step_tokens(f)[1] == shape_ident(f)@,
        ctor_tokens(f)[0] == shape_ident(f)@,
{
}

/// Order preservation in the emitted constructor: the field list of the
/// final constructor holds exactly the classified fields' idents, in
/// declaration order, one comma after each.
pub proof fn lemma_ctor_cluster_order(fs: Seq<FieldShape>)
    ensures
        cluster_tokens(FieldCluster::CtorFields, fs).len() == 2 * fs.len(),
        forall|i: int|
            0 <= i < fs.len() ==> cluster_tokens(FieldCluster::CtorFields, fs)[2 * i]
                == shape_ident(#[trigger] fs[i])@ && cluster_tokens(FieldCluster::CtorFields, fs)[2
                * i + 1] == ","@,
    decreases fs.len(),
{
    if fs.len() == 0 {
        assert(cluster_tokens(FieldCluster::CtorFields, fs).len() == 0);
    } else {
        lemma_ctor_cluster_order(fs.drop_first());
        let c = cluster_tokens(FieldCluster::CtorFields, fs);
        let rest = cluster_tokens(FieldCluster::CtorFields, fs.drop_first());
        assert(ctor_tokens(fs[0]).len() == 2);
        assert(c == ctor_tokens(fs[0]) + rest);
        assert forall|i: int| 0 <= i < fs.len() implies c[2 * i] == shape_ident(
            #[trigger] fs[i],
        )@ && c[2 * i + 1] == ","@ by {
            if i == 0 {
                assert(c[0] == ctor_tokens(fs[0])[0]);
                assert(c[1] == ctor_tokens(fs[0])[1]);
            } else {
                assert(c[2 * i] == rest[2 * (i - 1)]);
                assert(c[2 * i + 1] == rest[2 * (i - 1) + 1]);
                assert(rest[2 * (i - 1)] == shape_ident(fs.drop_first()[i - 1])@);
                assert(fs.drop_first()[i - 1] == fs[i]);
            }
        }
    }
}

/// `impl Target { pub fn builder() -> TargetBuilder { TargetBuilder {`
pub open spec fn entry_head(target: Seq<char>) -> Seq<Seq<char>> {
    seq![
        "impl"@, target, "{"@, "pub"@, "fn"@, "builder"@, "("@, ")"@, "->"@,
        builder_ident(target), "{"@, builder_ident(target), "{"@,
    ]
}

/// Closes the initializer, the entry method, and its impl block.
pub open spec fn entry_tail() -> Seq<Seq<char>> {
    seq!["}"@, "}"@, "}"@]
}

/// `pub struct TargetBuilder {`
pub open spec fn struct_head(target: Seq<char>) -> Seq<Seq<char>> {
    seq!["pub"@, "struct"@, builder_ident(target), "{"@]
}

/// Closes the builder type declaration.
pub open spec fn struct_tail() -> Seq<Seq<char>> {
    seq!["}"@]
}

/// `impl TargetBuilder {`
pub open spec fn impl_head(target: Seq<char>) -> Seq<Seq<char>> {
    seq!["impl"@, builder_ident(target), "{"@]
}

/// The header of the fallible `build` method.
pub open spec fn build_head(target: Seq<char>) -> Seq<Seq<char>> {
    seq![
        "pub"@, "fn"@, "build"@, "("@, "&"@, "mut"@, "self"@, ")"@, "->"@, "std"@, "::"@,
        "result"@, "::"@, "Result"@, "<"@, target, ","@, "std"@, "::"@, "boxed"@, "::"@, "Box"@,
        "<"@, "dyn"@, "std"@, "::"@, "error"@, "::"@, "Error"@, ">"@, ">"@, "{"@,
    ]
}

/// `std :: result :: Result :: Ok ( Target {`
pub open spec fn ok_head(target: Seq<char>) -> Seq<Seq<char>> {
    seq!["std"@, "::"@, "result"@, "::"@, "Result"@, "::"@, "Ok"@, "("@, target, "{"@]
}

/// Closes the constructor, the `Ok`, the `build` method and its impl.
pub open spec fn ok_tail() -> Seq<Seq<char>> {
    seq!["}"@, ")"@, "}"@, "}"@]
}

/// The whole output, its four clusters in this order: the builder
/// storage type, the `builder()` entry method, the setter cluster and
/// the `build` method — each per-field cluster in declaration order.
pub open spec fn generated_tokens(target: Seq<char>, fs: Seq<FieldShape>) -> Seq<Seq<char>> {
    struct_head(target) + cluster_tokens(FieldCluster::Slots, fs) + struct_tail() + entry_head(
        target,
    ) + cluster_tokens(FieldCluster::Inits, fs) + entry_tail() + impl_head(target)
        + cluster_tokens(FieldCluster::Setters, fs) + build_head(target) + cluster_tokens(
        FieldCluster::Steps,
        fs,
    ) + ok_head(target) + cluster_tokens(FieldCluster::CtorFields, fs) + ok_tail()
}

fn append_chunk(v: &mut Vec<String>, chunk: Vec<String>)
    ensures
        toks(final(v)@) == toks(old(v)@) + toks(chunk@),
{
    let mut chunk = chunk;
    let ghost a = v@;
    let ghost b = chunk@;
    v.append(&mut chunk);
    proof {
        lemma_toks_concat(a, b);
    }
}

fn entry_head_exec(target: &String) -> (v: Vec<String>)
    ensures
        toks(v@) == struct_tail() + entry_head(target@),
{
    let mut v: Vec<String> = Vec::new();
    push_tok(&mut v, "}");
    push_tok(&mut v, "impl");
    push_string(&mut v, target.clone());
    push_tok(&mut v, "{");
    push_tok(&mut v, "pub");
    push_tok(&mut v, "fn");
    push_tok(&mut v, "builder");
    push_tok(&mut v, "(");
    push_tok(&mut v, ")");
    push_tok(&mut v, "->");
    push_string(&mut v, builder_name(target));
    push_tok(&mut v, "{");
    push_string(&mut v, builder_name(target));
    push_tok(&mut v, "{");
    proof {
        assert(toks(v@) =~= struct_tail() + entry_head(target@));
    }
    v
}

fn struct_head_exec(target: &String) -> (v: Vec<String>)
    ensures
        toks(v@) == struct_head(target@),
{
    let mut v: Vec<String> = Vec::new();
    push_tok(&mut v, "pub");
    push_tok(&mut v, "struct");
    push_string(&mut v, builder_name(target));
    push_tok(&mut v, "{");
    proof {
        assert(toks(v@) =~= struct_head(target@));
    }
    v
}

fn impl_head_exec(target: &String) -> (v: Vec<String>)
    ensures
        toks(v@) == entry_tail() + impl_head(target@),
{
    let mut v: Vec<String> = Vec::new();
    push_tok(&mut v, "}");
    push_tok(&mut v, "}");
    push_tok(&mut v, "}");
    push_tok(&mut v, "impl");
    push_string(&mut v, builder_name(target));
    push_tok(&mut v, "{");
    proof {
        assert(toks(v@) =~= entry_tail() + impl_head(target@));
    }
    v
}

fn build_head_exec(target: &String) -> (v: Vec<String>)
    ensures
        toks(v@) == build_head(target@),
{
    let mut v: Vec<String> = Vec::new();
    push_tok(&mut v, "pub");
    push_tok(&mut v, "fn");
    push_tok(&mut v, "build");
    push_tok(&mut v, "(");
    push_tok(&mut v, "&");
    push_tok(&mut v, "mut");
    push_tok(&mut v, "self");
    push_tok(&mut v, ")");
    push_tok(&mut v, "->");
    push_tok(&mut v, "std");
    push_tok(&mut v, "::");
    push_tok(&mut v, "result");
    push_tok(&mut v, "::");
    push_tok(&mut v, "Result");
    push_tok(&mut v, "<");
    push_string(&mut v, target.clone());
    push_tok(&mut v, ",");
    push_tok(&mut v, "std");
    push_tok(&mut v, "::");
    push_tok(&mut v, "boxed");
    push_tok(&mut v, "::");
    push_tok(&mut v, "Box");
    push_tok(&mut v, "<");
    push_tok(&mut v, "dyn");
    push_tok(&mut v, "std");
    push_tok(&mut v, "::");
    push_tok(&mut v, "error");
    push_tok(&mut v, "::");
    push_tok(&mut v, "Error");
    push_tok(&mut v, ">");
    push_tok(&mut v, ">");
    push_tok(&mut v, "{");
    proof {
        assert(toks(v@) =~= build_head(target@));
    }
    v
}

fn ok_head_exec(target: &String) -> (v: Vec<String>)
    ensures
        toks(v@) == ok_head(target@),
{
    let mut v: Vec<String> = Vec::new();
    push_tok(&mut v, "std");
    push_tok(&mut v, "::");
    push_tok(&mut v, "result");
    push_tok(&mut v, "::");
    push_tok(&mut v, "Result");
    push_tok(&mut v, "::");
    push_tok(&mut v, "Ok");
    push_tok(&mut v, "(");
    push_string(&mut v, target.clone());
    push_tok(&mut v, "{");
    proof {
        assert(toks(v@) =~= ok_head(target@));
    }
    v
}

fn ok_tail_exec() -> (v: Vec<String>)
    ensures
        toks(v@) == ok_tail(),
{
    let mut v: Vec<String> = Vec::new();
    push_tok(&mut v, "}");
    push_tok(&mut v, ")");
    push_tok(&mut v, "}");
    push_tok(&mut v, "}");
    proof {
        assert(toks(v@) =~= ok_tail());
    }
    v
}

/// Emit the whole output for a classified record.
pub fn generate(target: &String, fields: &Vec<FieldShape>) -> (v: Vec<String>)
    ensures
        toks(v@) == generated_tokens(target@, fields@),
{
    let mut v = struct_head_exec(target);
    append_chunk(&mut v, cluster_exec(FieldCluster::Slots, fields));
    append_chunk(&mut v, entry_head_exec(target));
    append_chunk(&mut v, cluster_exec(FieldCluster::Inits, fields));
    append_chunk(&mut v, impl_head_exec(target));
    append_chunk(&mut v, cluster_exec(FieldCluster::Setters, fields));
    append_chunk(&mut v, build_head_exec(target));
    append_chunk(&mut v, cluster_exec(FieldCluster::Steps, fields));
    append_chunk(&mut v, ok_head_exec(target));
    append_chunk(&mut v, cluster_exec(FieldCluster::CtorFields, fields));
    append_chunk(&mut v, ok_tail_exec());
    v
}

} // verus!
