use vstd::prelude::*;

use base64::{engine::general_purpose::STANDARD, Engine};

use crate::text::concat2;

verus! {

/// What the standard base64 engine (with padding) makes of the UTF-8 bytes
/// of `text`.
pub uninterp spec fn base64_encoded(text: Seq<char>) -> Seq<char>;

/// What the standard base64 engine (with padding) decodes the UTF-8 bytes of
/// `text` to, or the `Display` text of its error.
pub uninterp spec fn base64_decoded(text: Seq<char>) -> Result<Seq<u8>, Seq<char>>;

/// What `String::from_utf8_lossy` makes of `bytes`: invalid sequences
/// replaced by U+FFFD.
pub uninterp spec fn utf8_lossy(bytes: Seq<u8>) -> Seq<char>;

/// Every character of `s` is one of the standard base64 alphabet
/// (`A`-`Z`, `a`-`z`, `0`-`9`, `+`, `/`) or the padding `=`.
pub open spec fn base64_alphabet(s: Seq<char>) -> bool {
    forall|i: int| 0 <= i < s.len() ==> {
        let c = #[trigger] s[i];
        ||| 'A' <= c <= 'Z'
        ||| 'a' <= c <= 'z'
        ||| '0' <= c <= '9'
        ||| c == '+' || c == '/' || c == '='
    }
}

/// `Engine::encode` of the `base64` crate on its `STANDARD` engine, applied
/// to the bytes of `input`, named by `base64_encoded`. It writes only
/// characters of the standard alphabet and the padding `=`, and decodes
/// what it encodes back to the same bytes; `String::from_utf8_lossy` gives
/// back the string whose UTF-8 bytes it is handed.
#[verifier::external_body]
pub(crate) fn encode(input: &str) -> (r: String)
    ensures
        r@ == base64_encoded(input@),
        base64_alphabet(r@),
        match base64_decoded(r@) {
            Ok(b) => utf8_lossy(b) == input@,
            Err(_) => false,
        },
{
    STANDARD.encode(input)
}

/// `Engine::decode` of the `base64` crate on its `STANDARD` engine, applied
/// to the bytes of `input`, named by `base64_decoded`; which inputs are
/// rejected is not restated.
#[verifier::external_body]
fn decode(input: &str) -> (r: Result<Vec<u8>, String>)
    ensures
        match r {
            Ok(b) => base64_decoded(input@) == Ok::<Seq<u8>, Seq<char>>(b@),
            Err(m) => base64_decoded(input@) == Err::<Seq<u8>, Seq<char>>(m@),
        },
{
    match STANDARD.decode(input) {
        Ok(b) => Ok(b),
        Err(e) => Err(e.to_string()),
    }
}

/// `String::from_utf8_lossy` of std, named by `utf8_lossy`.
#[verifier::external_body]
fn from_utf8_lossy(bytes: &[u8]) -> (r: String)
    ensures
        r@ == utf8_lossy(bytes@),
{
    String::from_utf8_lossy(bytes).to_string()
}

/// The kind of exception that a script function throws.
#[derive(Debug, Clone, Copy, PartialEq, Eq, Structural)]
pub enum ThrownKind {
    TypeError,
    RangeError,
}

/// The script function `btoa`: base64 of the UTF-8 bytes of its first
/// argument (already turned into a string), a `TypeError` without one.
/// What it gives `atob` decodes back to the argument.
pub fn btoa(input: Option<&str>) -> (r: Result<String, (ThrownKind, String)>)
    ensures
        match input {
            Some(s) => r matches Ok(e) && e@ == base64_encoded(s@) && (base64_decoded(e@) matches Ok(b) && utf8_lossy(b) == s@),
            None => r matches Err((k, m)) && k == ThrownKind::TypeError && m@ == "btoa requires one argument"@,
        },
{
    match input {
        Some(s) => Ok(encode(s)),
        None => Err((ThrownKind::TypeError, "btoa requires one argument".to_owned())),
    }
}

/// The script function `atob`: its first argument (already a string)
/// decoded from base64 and read as UTF-8 (lossily); a `RangeError` when it
/// is no base64, a `TypeError` without an argument.
pub fn atob(input: Option<&str>) -> (r: Result<String, (ThrownKind, String)>)
    ensures
        match input {
            Some(s) => match base64_decoded(s@) {
                Ok(b) => r matches Ok(t) && t@ == utf8_lossy(b),
                Err(e) => r matches Err((k, m)) && k == ThrownKind::RangeError && m@ == "Invalid base64 input: "@ + e,
            },
            None => r matches Err((k, m)) && k == ThrownKind::TypeError && m@ == "atob requires one argument"@,
        },
{
    match input {
        Some(s) => match decode(s) {
            Ok(b) => Ok(from_utf8_lossy(b.as_slice())),
            Err(e) => Err((ThrownKind::RangeError, concat2("Invalid base64 input: ", e.as_str()))),
        },
        None => Err((ThrownKind::TypeError, "atob requires one argument".to_owned())),
    }
}

} // verus!
