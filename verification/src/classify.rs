//! The field classifier: every field of the input record is mapped to
//! exactly one of the three shapes — required scalar, optional, or
//! repeated with a per-element setter.

use vstd::prelude::*;
use vstd::pervasive::arbitrary;

use crate::ast::{Attr, FieldDef, GenArg, Ty, TyKind};
use crate::attr::{parse_each, parse_each_spec, EachOutcome, EachSpec};
use crate::diag::{each_err_msg, Diag};

verus! {

/// The classifier's output for one field.
#[derive(Debug, PartialEq)]
pub enum FieldShape {
    /// Must be set before `build`; the setter accepts the declared type.
    Required { ident: String, ty: Ty },
    /// The declared type is nominally `Option<inner>`; never required.
    Optional { ident: String, inner: Ty },
    /// The declared type is nominally `Vec<elem>` and a recognized
    /// `builder(each = "...")` attribute names the push-setter.
    Repeated { ident: String, elem: Ty, each: String },
}

/// The classifier's outcome at the specification level: one shape, or the
/// span of the offending attribute (the message is always the fixed one).
pub enum ClassSpec {
    Shape(FieldShape),
    BadAttr(u64),
}

/// The field ident a shape carries.
pub open spec fn shape_ident(s: FieldShape) -> String {
    match s {
        FieldShape::Required { ident, .. } => ident,
        FieldShape::Optional { ident, .. } => ident,
        FieldShape::Repeated { ident, .. } => ident,
    }
}

/// The name of the one setter emitted for a shape: the field ident itself,
/// except that a repeated field's setter is its per-element name.
pub open spec fn setter_name(s: FieldShape) -> String {
    match s {
        FieldShape::Required { ident, .. } => ident,
        FieldShape::Optional { ident, .. } => ident,
        FieldShape::Repeated { each, .. } => each,
    }
}

/// Nominal match: the outermost type is a path whose first segment's bare
/// name equals `name` and carries a single angle-bracketed type argument.
pub open spec fn single_ty_arg(kind: TyKind, name: Seq<char>) -> Option<Ty> {
    match kind {
        TyKind::PathTy { head, args } => if head@ == name && args@.len() == 1 {
            match args@[0] {
                GenArg::TyArg(t) => Some(t),
                GenArg::OtherArg => None,
            }
        } else {
            None
        },
        TyKind::OtherTy => None,
    }
}

/// The first attribute whose path is `builder`, if any.
pub open spec fn first_builder_attr(attrs: Seq<Attr>) -> Option<Attr>
    decreases attrs.len(),
{
    if attrs.len() == 0 {
        None
    } else if attrs[0].path@ == "builder"@ {
        Some(attrs[0])
    } else {
        first_builder_attr(attrs.drop_first())
    }
}

/// The classification rule, first match wins: an `Option<T>` field is
/// Optional; a `Vec<E>` field is Repeated when its first `builder`
/// attribute names a per-element setter, Required when no such attribute
/// is recognized, and an error when the attribute assigns to a key other
/// than `each`; every other field is Required.
pub open spec fn classify_spec(f: FieldDef) -> ClassSpec {
    match single_ty_arg(f.ty.kind, "Option"@) {
        Some(inner) => ClassSpec::Shape(FieldShape::Optional { ident: f.ident, inner }),
        None => match single_ty_arg(f.ty.kind, "Vec"@) {
            Some(elem) => match first_builder_attr(f.attrs@) {
                None => ClassSpec::Shape(FieldShape::Required { ident: f.ident, ty: f.ty }),
                Some(a) => match parse_each_spec(a) {
                    EachSpec::NameOf(n) => ClassSpec::Shape(
                        FieldShape::Repeated { ident: f.ident, elem, each: n },
                    ),
                    EachSpec::BadAttr => ClassSpec::BadAttr(a.span),
                    EachSpec::NotOurs => ClassSpec::Shape(
                        FieldShape::Required { ident: f.ident, ty: f.ty },
                    ),
                },
            },
            None => ClassSpec::Shape(FieldShape::Required { ident: f.ident, ty: f.ty }),
        },
    }
}

/// Classification of a whole field list, in order; the first error wins.
pub open spec fn classify_all(fs: Seq<FieldDef>) -> Result<Seq<FieldShape>, u64>
    decreases fs.len(),
{
    if fs.len() == 0 {
        Ok(Seq::empty())
    } else {
        match classify_spec(fs[0]) {
            ClassSpec::BadAttr(sp) => Err(sp),
            ClassSpec::Shape(s) => match classify_all(fs.drop_first()) {
                Ok(rest) => Ok(seq![s] + rest),
                Err(sp) => Err(sp),
            },
        }
    }
}

impl FieldShape {
    /// The field ident this shape carries.
    pub fn ident(&self) -> (r: &String)
        ensures
            *r == shape_ident(*self),
    {
        match self {
            FieldShape::Required { ident, .. } => ident,
            FieldShape::Optional { ident, .. } => ident,
            FieldShape::Repeated { ident, .. } => ident,
        }
    }
}

/// Index of the first attribute whose path is `builder`.
fn find_builder_attr(attrs: &Vec<Attr>) -> (r: Option<usize>)
    ensures
        match r {
            Some(i) => i < attrs@.len() && first_builder_attr(attrs@) == Some(attrs@[i as int]),
            None => first_builder_attr(attrs@) is None,
        },
{
    let n = attrs.len();
    let builder_name = "builder".to_owned();
    proof {
        assert(attrs@.subrange(0, n as int) =~= attrs@);
    }
    for i in 0..n
        invariant
            n == attrs@.len(),
            builder_name@ == "builder"@,
            first_builder_attr(attrs@) == first_builder_attr(attrs@.subrange(i as int, n as int)),
    {
        proof {
            assert(attrs@.subrange(i as int, n as int)[0] == attrs@[i as int]);
            assert(attrs@.subrange(i as int, n as int).drop_first() =~= attrs@.subrange(
                i as int + 1,
                n as int,
            ));
        }
        if attrs[i].path == builder_name {
            return Some(i);
        }
    }
    proof {
        assert(attrs@.subrange(n as int, n as int).len() == 0);
    }
    None
}

/// Classify one field.
pub fn classify_field(f: FieldDef) -> (r: Result<FieldShape, Diag>)
    ensures
        match classify_spec(f) {
            ClassSpec::Shape(s) => r == Ok::<FieldShape, Diag>(s),
            ClassSpec::BadAttr(sp) => r matches Err(d) && d.span == sp && d.msg@
                == each_err_msg(),
        },
{
    let FieldDef { ident, ty, attrs } = f;
    let Ty { text, kind } = ty;
    match kind {
        TyKind::OtherTy => Ok(
            FieldShape::Required { ident, ty: Ty { text, kind: TyKind::OtherTy } },
        ),
        TyKind::PathTy { head, args } => {
            let single = args.len() == 1 && matches!(&args[0], GenArg::TyArg(_));
            if single && head == "Option".to_owned() {
                let mut args = args;
                match args.remove(0) {
                    GenArg::TyArg(inner) => Ok(FieldShape::Optional { ident, inner }),
                    GenArg::OtherArg => {
                        // dead arm: `single` checked that the one argument is a type
                        proof {
                            assert(false);
                        }
                        Ok(FieldShape::Required { ident, ty: Ty { text, kind: TyKind::OtherTy } })
                    },
                }
            } else if single && head == "Vec".to_owned() {
                let each = match find_builder_attr(&attrs) {
                    None => None,
                    Some(i) => match parse_each(&attrs[i]) {
                        EachOutcome::EachName(n) => Some(n),
                        EachOutcome::Malformed(d) => {
                            return Err(d);
                        },
                        EachOutcome::Unrecognized => None,
                    },
                };
                match each {
                    Some(n) => {
                        let mut args = args;
                        match args.remove(0) {
                            GenArg::TyArg(elem) => Ok(
                                FieldShape::Repeated { ident, elem, each: n },
                            ),
                            GenArg::OtherArg => {
                                // dead arm: `single` checked that the one argument is a type
                                proof {
                                    assert(false);
                                }
                                Ok(
                                    FieldShape::Required {
                                        ident,
                                        ty: Ty { text, kind: TyKind::OtherTy },
                                    },
                                )
                            },
                        }
                    },
                    None => Ok(
                        FieldShape::Required {
                            ident,
                            ty: Ty { text, kind: TyKind::PathTy { head, args } },
                        },
                    ),
                }
            } else {
                Ok(
                    FieldShape::Required {
                        ident,
                        ty: Ty { text, kind: TyKind::PathTy { head, args } },
                    },
                )
            }
        },
    }
}

/// Classify every field of the record, in declaration order; the first
/// malformed attribute aborts the derivation.
pub fn classify_fields(fields: Vec<FieldDef>) -> (r: Result<Vec<FieldShape>, Diag>)
    ensures
        match classify_all(fields@) {
            Ok(shapes) => r matches Ok(v) && v@ == shapes,
            Err(sp) => r matches Err(d) && d.span == sp && d.msg@ == each_err_msg(),
        },
{
    let ghost all = fields@;
    let mut rest = fields;
    let mut out: Vec<FieldShape> = Vec::new();
    while rest.len() > 0
        invariant
            all == fields@,
            match classify_all(rest@) {
                Ok(tail) => classify_all(all) matches Ok(whole) && whole == out@ + tail,
                Err(sp) => classify_all(all) == Err::<Seq<FieldShape>, u64>(sp),
            },
        decreases rest@.len(),
    {
        let ghost rest0 = rest@;
        let f = rest.remove(0);
        proof {
            assert(rest@ =~= rest0.drop_first());
        }
        match classify_field(f) {
            Ok(s) => {
                out.push(s);
                proof {
                    if classify_all(rest@) is Ok {
                        let tail = classify_all(rest@)->Ok_0;
                        assert(classify_all(rest0) matches Ok(t0) && t0 == seq![s] + tail);
                        assert(out@ + tail =~= out@.drop_last() + (seq![s] + tail));
                    }
                }
            },
            Err(d) => {
                proof {
                    assert(f == rest0[0]);
                    assert(classify_all(rest0) == Err::<Seq<FieldShape>, u64>(d.span));
                }
                return Err(d);
            },
        }
    }
    proof {
        assert(classify_all(rest@) == Ok::<Seq<FieldShape>, u64>(Seq::<FieldShape>::empty()));
        if classify_all(all) is Ok {
            assert(out@ + Seq::<FieldShape>::empty() =~= out@);
        }
    }
    Ok(out)
}

/// Classification is total and disjoint: every field yields exactly one
/// shape or the one diagnostic, and which one is decided by the nominal
/// type match, the presence of a `builder` attribute, and the attribute
/// parser's tri-state outcome.
pub proof fn lemma_classification_total(f: FieldDef)
    ensures
        classify_spec(f) matches ClassSpec::Shape(s) ==> {
            &&& (s is Optional <==> single_ty_arg(f.ty.kind, "Option"@) is Some)
            &&& (s is Repeated <==> single_ty_arg(f.ty.kind, "Option"@) is None && single_ty_arg(
                f.ty.kind,
                "Vec"@,
            ) is Some && (first_builder_attr(f.attrs@) matches Some(a) && parse_each_spec(
                a,
            ) is NameOf))
            &&& (s is Required <==> !(s is Optional) && !(s is Repeated))
        },
        classify_spec(f) is BadAttr ==> single_ty_arg(f.ty.kind, "Option"@) is None
            && single_ty_arg(f.ty.kind, "Vec"@) is Some && (first_builder_attr(
            f.attrs@,
        ) matches Some(a) && parse_each_spec(a) is BadAttr && classify_spec(f)
            == ClassSpec::BadAttr(a.span)),
{
}

/// Order preservation through classification: the shapes come out exactly
/// one per field, in declaration order, each carrying its field's ident.
pub proof fn lemma_order_preserved(fs: Seq<FieldDef>)
    ensures
        classify_all(fs) matches Ok(shapes) ==> shapes.len() == fs.len() && (forall|i: int|
            0 <= i < fs.len() ==> shape_ident(#[trigger] shapes[i]) == fs[i].ident),
    decreases fs.len(),
{
    if fs.len() > 0 {
        lemma_order_preserved(fs.drop_first());
        if classify_all(fs) is Ok {
            let shapes = classify_all(fs)->Ok_0;
            let rest = classify_all(fs.drop_first())->Ok_0;
            let s0 = match classify_spec(fs[0]) {
                ClassSpec::Shape(s) => s,
                ClassSpec::BadAttr(_) => arbitrary(),
            };
            assert(shape_ident(s0) == fs[0].ident);
            assert(shapes == seq![s0] + rest);
            assert forall|i: int| 0 <= i < fs.len() implies shape_ident(#[trigger] shapes[i])
                == fs[i].ident by {
                if i > 0 {
                    assert(shapes[i] == rest[i - 1]);
                    assert(shape_ident(rest[i - 1]) == fs.drop_first()[i - 1].ident);
                }
            }
        }
    }
}

/// A `builder(key = "...")` attribute with `key` other than `each`, on a
/// `Vec` field, fails the classification of that field with the fixed
/// message, anchored at that attribute.
pub proof fn lemma_bad_attr(f: FieldDef, a: Attr)
    requires
        single_ty_arg(f.ty.kind, "Option"@) is None,
        single_ty_arg(f.ty.kind, "Vec"@) is Some,
        first_builder_attr(f.attrs@) == Some(a),
        parse_each_spec(a) is BadAttr,
    ensures
        classify_spec(f) == ClassSpec::BadAttr(a.span),
{
}

/// The derivation surfaces the first failing field's diagnostic: if every
/// earlier field classifies to a shape and field `i` fails, the whole
/// classification fails with field `i`'s attribute span.
pub proof fn lemma_attr_error_surfaces(fs: Seq<FieldDef>, i: int)
    requires
        0 <= i < fs.len(),
        forall|j: int| 0 <= j < i ==> classify_spec(#[trigger] fs[j]) is Shape,
        classify_spec(fs[i]) is BadAttr,
    ensures
        classify_all(fs) == Err::<Seq<FieldShape>, u64>(classify_spec(fs[i])->BadAttr_0),
    decreases i,
{
    if i == 0 {
    } else {
        assert forall|j: int| 0 <= j < i - 1 implies classify_spec(
            #[trigger] fs.drop_first()[j],
        ) is Shape by {
            assert(fs.drop_first()[j] == fs[j + 1]);
        }
        assert(fs.drop_first()[i - 1] == fs[i]);
        lemma_attr_error_surfaces(fs.drop_first(), i - 1);
        assert(classify_spec(fs[0]) is Shape);
    }
}

} // verus!
