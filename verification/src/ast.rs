//! The input record as the host compiler hands it over: plain values
//! carrying exactly what classification reads and what emission splices.

use vstd::prelude::*;

verus! {

/// A nominal type: its full token text, spliced verbatim into the output,
/// and the structure of its outermost layer, which classification inspects.
#[derive(Debug, PartialEq)]
pub struct Ty {
    /// The whole type rendered as token text.
    pub text: String,
    /// The outermost structure of the type.
    pub kind: TyKind,
}

/// The outermost structure of a nominal type.
#[derive(Debug, PartialEq)]
pub enum TyKind {
    /// A path type: the bare name of its first segment together with that
    /// segment's angle-bracketed generic arguments (empty when there are
    /// none).
    PathTy { head: String, args: Vec<GenArg> },
    /// Any non-path type.
    OtherTy,
}

/// One generic argument of a path segment.
#[derive(Debug, PartialEq)]
pub enum GenArg {
    /// A type argument.
    TyArg(Ty),
    /// A lifetime, const or otherwise non-type argument.
    OtherArg,
}

/// One attribute attached to a field: the token text of its path, an opaque
/// span token from the host (used to anchor diagnostics), and the shape of
/// its argument group as the host's expression parser reads it.
#[derive(Debug, PartialEq)]
pub struct Attr {
    pub path: String,
    pub span: u64,
    pub arg: AttrArg,
}

/// The argument group of an attribute.
#[derive(Debug, PartialEq)]
pub enum AttrArg {
    /// The group parses as an assignment `left = right`.
    AssignArg { left: AttrExpr, right: AttrExpr },
    /// The group does not parse as an assignment.
    NotAssign,
}

/// One side of an attribute's assignment expression.
#[derive(Debug, PartialEq)]
pub enum AttrExpr {
    /// A path expression, one segment name per element.
    PathExpr(Vec<String>),
    /// A string literal, carrying its textual value.
    StrExpr(String),
    /// Any other expression.
    OtherExpr,
}

/// One named field of the input record, in declaration order.
#[derive(Debug, PartialEq)]
pub struct FieldDef {
    pub ident: String,
    pub ty: Ty,
    pub attrs: Vec<Attr>,
}

/// The input record: its bare name and its fields in declaration order.
#[derive(Debug, PartialEq)]
pub struct Record {
    pub ident: String,
    pub fields: Vec<FieldDef>,
}

} // verus!
