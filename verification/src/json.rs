//! JSON string literals, as the `serde_json` crate writes them.

use vstd::prelude::*;

verus! {

/// The JSON string literal that `serde_json` writes for `text`: the text in
/// double quotes, with the escapes that JSON asks for. The library does not
/// define it: it names what the crate returns.
pub uninterp spec fn json_quoted(text: Seq<char>) -> Seq<char>;

/// Trusted: `serde_json::Value::String` written through the `Display` of
/// `serde_json::Value`. The contract only gives the literal its name.
#[verifier::external_body]
pub(crate) fn json_quote(text: &str) -> (literal: String)
    ensures
        literal@ == json_quoted(text@),
{
    serde_json::Value::String(text.to_owned()).to_string()
}

} // verus!
