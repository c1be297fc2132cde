//! The one check the generator takes from the host toolchain: whether a
//! piece of annotation payload text lexes as a token stream. Malformed
//! expression payloads are a hard generation-time failure, so the check
//! must agree exactly with the lexer that later consumes the emitted text.
use vstd::prelude::*;

verus! {

/// Whether a piece of text lexes as a token stream. The answer depends on
/// the text alone; it is named here and never spelled out.
pub uninterp spec fn lexes_ok(s: Seq<char>) -> bool;

/// Relies on proc_macro2::TokenStream's FromStr implementation: whether the
/// text lexes as a token stream, a function of the text alone.
#[verifier::external_body]
pub fn lex_check(s: &str) -> (r: bool)
    ensures
        r == lexes_ok(s@),
{
    s.parse::<proc_macro2::TokenStream>().is_ok()
}

} // verus!
