//! The whole derivation: classify the record's fields, then emit the
//! builder's token text, or surface the one diagnostic.

use vstd::prelude::*;

use crate::ast::Record;
use crate::classify::{classify_all, classify_fields};
use crate::diag::{each_err_msg, Diag};
use crate::emit::{generate, generated_tokens, toks};

verus! {

/// Derive the builder for one record: on success the output token
/// sequence, otherwise the diagnostic anchored at the offending
/// attribute.
pub fn derive_builder(rec: Record) -> (r: Result<Vec<String>, Diag>)
    ensures
        match classify_all(rec.fields@) {
            Ok(shapes) => r matches Ok(ts) && toks(ts@) == generated_tokens(rec.ident@, shapes),
            Err(sp) => r matches Err(d) && d.span == sp && d.msg@ == each_err_msg(),
        },
{
    let Record { ident, fields } = rec;
    match classify_fields(fields) {
        Ok(shapes) => Ok(generate(&ident, &shapes)),
        Err(d) => Err(d),
    }
}

} // verus!
