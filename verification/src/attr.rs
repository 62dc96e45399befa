//! The attribute parser: reads one attribute's argument group and decides
//! whether it names a per-element setter (`each = "name"`), is a malformed
//! use of the `builder` attribute, or is not the recognized shape at all.

use vstd::prelude::*;

use crate::ast::{Attr, AttrArg, AttrExpr};
use crate::diag::{each_err_msg, each_err_string, Diag};

verus! {

/// The parser's outcome: the per-element setter name, a diagnostic for a
/// structurally recognized but wrong attribute, or a silent decline.
#[derive(Debug, PartialEq)]
pub enum EachOutcome {
    EachName(String),
    Malformed(Diag),
    Unrecognized,
}

/// The outcome at the specification level. A malformed attribute carries no
/// payload here: the diagnostic is always anchored at the attribute itself
/// and bears the one fixed message.
pub enum EachSpec {
    NameOf(String),
    BadAttr,
    NotOurs,
}

/// What `parse_each` returns: the argument group must be an assignment
/// whose left side is a single-segment path; a key other than `each` is the
/// user's mistake, any other shape belongs to someone else.
pub open spec fn parse_each_spec(a: Attr) -> EachSpec {
    match a.arg {
        AttrArg::NotAssign => EachSpec::NotOurs,
        AttrArg::AssignArg { left, right } => match left {
            AttrExpr::PathExpr(segs) => if segs@.len() != 1 {
                EachSpec::NotOurs
            } else if segs@[0]@ != "each"@ {
                EachSpec::BadAttr
            } else {
                match right {
                    AttrExpr::StrExpr(s) => EachSpec::NameOf(s),
                    _ => EachSpec::NotOurs,
                }
            },
            _ => EachSpec::NotOurs,
        },
    }
}

pub fn parse_each(a: &Attr) -> (r: EachOutcome)
    ensures
        match parse_each_spec(*a) {
            EachSpec::NameOf(n) => r == EachOutcome::EachName(n),
            EachSpec::BadAttr => r matches EachOutcome::Malformed(d) && d.span == a.span
                && d.msg@ == each_err_msg(),
            EachSpec::NotOurs => r == EachOutcome::Unrecognized,
        },
{
    match &a.arg {
        AttrArg::NotAssign => EachOutcome::Unrecognized,
        AttrArg::AssignArg { left, right } => match left {
            AttrExpr::PathExpr(segs) => {
                if segs.len() != 1 {
                    EachOutcome::Unrecognized
                } else if segs[0] == "each".to_owned() {
                    match right {
                        AttrExpr::StrExpr(s) => EachOutcome::EachName(s.clone()),
                        _ => EachOutcome::Unrecognized,
                    }
                } else {
                    EachOutcome::Malformed(Diag { span: a.span, msg: each_err_string() })
                }
            },
            _ => EachOutcome::Unrecognized,
        },
    }
}

} // verus!
