//! What a captured path segment stands for. A segment arrives as it was written in the request,
//! with bytes that a path cannot hold written as percent-escapes; what is compared with a method
//! is the text that it stands for once those are resolved.

use crate::text::{chars_of, occurs_from};
use vstd::prelude::*;

verus! {

/// The text that `percent_encoding::percent_decode_str(segment).decode_utf8()` makes of
/// `segment`, or `None` where it fails: it resolves each percent sign that two hexadecimal
/// digits follow into the byte they write, leaves every other byte as it is, and fails where
/// the bytes so made are not UTF-8.
pub uninterp spec fn percent_decoded(segment: Seq<char>) -> Option<Seq<char>>;

/// Calls `percent_encoding::percent_decode_str` on `segment` and `PercentDecode::decode_utf8` on
/// what comes back, as one expression. The claim is that the outcome is a function of the
/// segment alone, which [`percent_decoded`] names: the text where there is one, `None` where
/// `decode_utf8` fails.
#[verifier::external_body]
fn percent_decode(segment: &str) -> (decoded: Option<String>)
    ensures
        decoded matches Some(text) ==> percent_decoded(segment@) == Some(text@),
        decoded is None ==> percent_decoded(segment@) is None,
{
    match percent_encoding::percent_decode_str(segment).decode_utf8() {
        Ok(text) => Some(text.into_owned()),
        Err(_) => None,
    }
}

/// The text that a captured segment stands for, if it stands for one: itself where it holds no
/// percent sign, and what decoding makes of it where it holds one.
pub open spec fn captured_text(segment: Seq<char>) -> Option<Seq<char>> {
    if segment.contains('%') {
        percent_decoded(segment)
    } else {
        Some(segment)
    }
}

/// What `decoded` stands for.
pub open spec fn text_view(decoded: Option<String>) -> Option<Seq<char>> {
    match decoded {
        Some(text) => Some(text@),
        None => None,
    }
}

/// Finds the text that a captured segment stands for.
pub fn decode_segment(segment: &str) -> (decoded: Option<String>)
    ensures
        text_view(decoded) == captured_text(segment@),
{
    let chars = chars_of(segment);
    assert(chars@.skip(0) =~= segment@);
    if occurs_from(&chars, 0, '%') {
        percent_decode(segment)
    } else {
        Some(segment.to_owned())
    }
}

} // verus!
