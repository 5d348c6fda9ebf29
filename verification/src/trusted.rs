//! What this crate believes without proof: the calls into the `url` and
//! `percent_encoding` crates, and one function of std. Everything else is proved on
//! top of the contracts stated here.

use vstd::prelude::*;

use crate::percent::decoded_text;

verus! {

/// `url::ParseError`, the error of `url::Url::parse`. Nothing inside it is looked at.
#[verifier::external_type_specification]
#[verifier::external_body]
pub struct ExParseError(url::ParseError);

/// `core::str::Utf8Error`, the error of `PercentDecode::decode_utf8`. Nothing inside it
/// is looked at.
#[verifier::external_type_specification]
#[verifier::external_body]
pub struct ExUtf8Error(core::str::Utf8Error);

/// `String::push` of std appends one character to the string.
pub assume_specification[ String::push ](s: &mut String, c: char)
    ensures
        final(s)@ == old(s)@.push(c),
;

/// The scheme that `url::Url::parse` finds in `text`, as `Url::scheme` returns it;
/// `None` where `Url::parse` rejects the text.
pub uninterp spec fn url_scheme(text: Seq<char>) -> Option<Seq<char>>;

/// Calls `url::Url::parse` on `text` and, where it succeeds, `Url::scheme` on the URL.
/// Believed without proof: that the outcome is a function of the text alone, which
/// [`url_scheme`] names. Nothing is claimed of which texts are accepted, nor of what
/// the scheme of an accepted text is.
#[verifier::external_body]
pub(crate) fn scheme_of(text: &str) -> (r: Result<String, url::ParseError>)
    ensures
        match r {
            Ok(scheme) => url_scheme(text@) == Some(scheme@),
            Err(_) => url_scheme(text@) is None,
        },
{
    match url::Url::parse(text) {
        Ok(parsed) => Ok(parsed.scheme().to_string()),
        Err(e) => Err(e),
    }
}

/// The text that `url::ParseError` displays for `e`. Nothing is claimed of it.
#[verifier::external_body]
pub(crate) fn describe_parse_error(e: &url::ParseError) -> String {
    e.to_string()
}

/// Calls `percent_encoding::percent_decode_str` on `text` and `PercentDecode::decode_utf8`
/// on what it returns. Believed without proof: every `%` that two hexadecimal digits
/// follow is decoded with them to one byte, every other byte of the text is kept, and
/// the call succeeds exactly when the bytes so made are valid UTF-8, returning them as
/// a string. [`decoded_text`] says the same in full.
#[verifier::external_body]
pub(crate) fn percent_decode_utf8(text: &str) -> (r: Result<String, core::str::Utf8Error>)
    ensures
        match r {
            Ok(decoded) => decoded_text(text@) == Some(decoded@),
            Err(_) => decoded_text(text@) is None,
        },
{
    match percent_encoding::percent_decode_str(text).decode_utf8() {
        Ok(decoded) => Ok(decoded.into_owned()),
        Err(e) => Err(e),
    }
}

} // verus!
