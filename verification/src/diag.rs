//! Diagnostics and the two fixed message formats of the derivation: the
//! malformed-attribute diagnostic and the missing-required-field message.

use vstd::prelude::*;
use vstd::string::StringExecFns;

verus! {

/// A diagnostic bound to a source span: `span` is the opaque span token of
/// the offending attribute, `msg` the message text.
#[derive(Debug, PartialEq)]
pub struct Diag {
    pub span: u64,
    pub msg: String,
}

/// The message of the one compile-time diagnostic: a `builder` attribute
/// whose argument assigns to a key other than `each`.
pub open spec fn each_err_msg() -> Seq<char> {
    "expected `builder(each = \"...\")`"@
}

/// The message of the one runtime error of the generated `build` method:
/// the named required field was never set.
pub open spec fn req_msg(ident: Seq<char>) -> Seq<char> {
    "\""@ + ident + "\" is required"@
}

pub fn each_err_string() -> (m: String)
    ensures
        m@ == each_err_msg(),
{
    "expected `builder(each = \"...\")`".to_owned()
}

pub fn required_msg(ident: &String) -> (m: String)
    ensures
        m@ == req_msg(ident@),
{
    let mut m = "\"".to_owned();
    m.append(ident.as_str());
    m.append("\" is required");
    proof {
        assert(m@ =~= req_msg(ident@));
    }
    m
}

} // verus!
