//! What holds of every `directory://` URI: the laws of the parser, each one proved.
//!
//! The laws speak of [`parsed`], which is what [`crate::uri::DirectoryUri::parse`]
//! returns, for a text in which the URL parser finds the scheme `directory`. A part of
//! a URI is given twice, as it is written and as it reads once its percent-escapes are
//! decoded; where nothing is escaped the two are the same text
//! ([`crate::percent::law_plain_text_decodes_to_itself`]).

use vstd::prelude::*;

use crate::error::SpecError;
use crate::percent::{
    decoded_text, is_plain_ascii, law_decoded_text_is_not_empty, law_plain_char_is_kept,
};
use crate::uri::{
    backslashed, has_bare_drive_prefix, has_drive_prefix, is_ascii_letter, native_path, parsed,
    scheme, scheme_prefix, shape_of, PathShape,
};

verus! {

/// The text of a URI: `directory://` and what follows it.
pub open spec fn uri_text(suffix: Seq<char>) -> Seq<char> {
    scheme_prefix() + suffix
}

/// The character of a path that stands for a character of the decoded text.
pub open spec fn kept_as(shape: PathShape, c: char) -> char {
    if shape != PathShape::Unix && c == '/' {
        '\\'
    } else {
        c
    }
}

proof fn lemma_suffix_of_uri_text(suffix: Seq<char>)
    ensures
        scheme_prefix().is_prefix_of(uri_text(suffix)),
        uri_text(suffix).skip(scheme_prefix().len() as int) == suffix,
{
}

proof fn lemma_letters_and_separators_are_plain(c: char)
    requires
        is_ascii_letter(c) || c == '/' || c == ':',
    ensures
        is_plain_ascii(c),
{
}

/// A Unix path is handed back as it reads: the slashes stay, and nothing changes case.
/// This is for a path whose first segment is not a single letter.
pub proof fn law_unix_path(written: Seq<char>, decoded: Seq<char>)
    requires
        decoded_text(written) == Some(decoded),
        !has_bare_drive_prefix(decoded),
    ensures
        parsed(Some(scheme()), uri_text(seq!['/'] + written)) == Ok::<_, SpecError>(
            seq!['/'] + decoded,
        ),
{
    lemma_suffix_of_uri_text(seq!['/'] + written);
    law_plain_char_is_kept('/', written);
}

/// A drive letter with its colon gives a Windows path: every `/` becomes `\`, and the
/// letter keeps its case.
pub proof fn law_drive_path(drive: char, written: Seq<char>, decoded: Seq<char>)
    requires
        is_ascii_letter(drive),
        decoded_text(written) == Some(decoded),
    ensures
        parsed(Some(scheme()), uri_text(seq![drive, ':', '/'] + written)) == Ok::<_, SpecError>(
            seq![drive, ':', '\\'] + backslashed(decoded),
        ),
{
    let suffix = seq![drive, ':', '/'] + written;
    let text = seq![drive, ':', '/'] + decoded;
    lemma_suffix_of_uri_text(suffix);
    lemma_letters_and_separators_are_plain(drive);
    law_plain_char_is_kept('/', written);
    law_plain_char_is_kept(':', seq!['/'] + written);
    law_plain_char_is_kept(drive, seq![':'] + (seq!['/'] + written));
    assert(seq![drive] + (seq![':'] + (seq!['/'] + written)) =~= suffix);
    assert(decoded_text(suffix) == Some(text));
    assert(backslashed(text) =~= seq![drive, ':', '\\'] + backslashed(decoded));
}

/// A drive letter that has lost its colon gives the same Windows path as with the colon.
pub proof fn law_drive_path_without_colon(drive: char, written: Seq<char>, decoded: Seq<char>)
    requires
        is_ascii_letter(drive),
        decoded_text(written) == Some(decoded),
    ensures
        parsed(Some(scheme()), uri_text(seq![drive, '/'] + written)) == Ok::<_, SpecError>(
            seq![drive, ':', '\\'] + backslashed(decoded),
        ),
{
    let suffix = seq![drive, '/'] + written;
    let text = seq![drive, '/'] + decoded;
    lemma_suffix_of_uri_text(suffix);
    lemma_letters_and_separators_are_plain(drive);
    law_plain_char_is_kept('/', written);
    law_plain_char_is_kept(drive, seq!['/'] + written);
    assert(seq![drive] + (seq!['/'] + written) =~= suffix);
    assert(decoded_text(suffix) == Some(text));
    let fixed = seq![drive, ':'] + text.skip(1);
    assert(backslashed(fixed) =~= seq![drive, ':', '\\'] + backslashed(decoded));
}

/// After three slashes too, a single letter and a slash are read as a drive: the path
/// is the Windows path, not a Unix path of that name.
pub proof fn law_drive_path_after_slash(drive: char, written: Seq<char>, decoded: Seq<char>)
    requires
        is_ascii_letter(drive),
        decoded_text(written) == Some(decoded),
    ensures
        parsed(Some(scheme()), uri_text(seq!['/', drive, '/'] + written)) == Ok::<_, SpecError>(
            seq![drive, ':', '\\'] + backslashed(decoded),
        ),
{
    let suffix = seq!['/', drive, '/'] + written;
    let text = seq!['/', drive, '/'] + decoded;
    lemma_suffix_of_uri_text(suffix);
    lemma_letters_and_separators_are_plain(drive);
    law_plain_char_is_kept('/', written);
    law_plain_char_is_kept(drive, seq!['/'] + written);
    law_plain_char_is_kept('/', seq![drive] + (seq!['/'] + written));
    assert(seq!['/'] + (seq![drive] + (seq!['/'] + written)) =~= suffix);
    assert(decoded_text(suffix) == Some(text));
    let rest = text.skip(1);
    let fixed = seq![drive, ':'] + rest.skip(1);
    assert(backslashed(fixed) =~= seq![drive, ':', '\\'] + backslashed(decoded));
}

/// A host and a share give a network path: two backslashes, then the text with every
/// `/` turned into `\`. This is for a text that begins with neither a slash nor a drive
/// letter, with or without its colon.
pub proof fn law_unc_path(written: Seq<char>, decoded: Seq<char>)
    requires
        written.len() > 0,
        written[0] != '/',
        decoded_text(written) == Some(decoded),
        !has_drive_prefix(decoded),
        !has_bare_drive_prefix(decoded),
    ensures
        parsed(Some(scheme()), uri_text(written)) == Ok::<_, SpecError>(
            seq!['\\', '\\'] + backslashed(decoded),
        ),
{
    lemma_suffix_of_uri_text(written);
}

/// Parsing never canonicalizes. From its third character on, the decoded text stands in
/// the path character for character, `.` and `..` included: nothing is dropped, merged
/// or resolved, and only `/` changes, to `\` in a Windows path. What comes before is the
/// drive or the root, of which the other laws speak.
pub proof fn law_never_canonicalizes(suffix: Seq<char>, decoded: Seq<char>)
    ensures
        ({
            let path = native_path(suffix, decoded);
            let shape = shape_of(suffix, decoded);
            let shift = path.len() - decoded.len();
            &&& 0 <= shift <= 2
            &&& forall|i: int|
                2 <= i < decoded.len() ==> #[trigger] path[i + shift] == kept_as(shape, decoded[i])
        }),
{
}

/// A Unix path is the decoded text itself, whatever its segments are.
pub proof fn law_unix_shape_keeps_text(suffix: Seq<char>, decoded: Seq<char>)
    requires
        shape_of(suffix, decoded) == PathShape::Unix,
    ensures
        native_path(suffix, decoded) == decoded,
{
}

/// A Windows path, on a drive or on the network, is written with backslashes only.
pub proof fn law_windows_path_has_no_slash(suffix: Seq<char>, decoded: Seq<char>)
    requires
        shape_of(suffix, decoded) != PathShape::Unix,
    ensures
        !native_path(suffix, decoded).contains('/'),
{
}

/// Any scheme other than `directory` is refused, and the error names the scheme. No
/// other text gives this error.
pub proof fn law_other_scheme_is_refused(
    found: Option<Seq<char>>,
    text: Seq<char>,
    other: Seq<char>,
)
    ensures
        parsed(found, text) == Err::<Seq<char>, _>(SpecError::InvalidScheme(other)) <==> found
            == Some(other) && other != scheme(),
{
}

/// A text that the URL parser rejects is no URI, and neither is one that does not begin
/// with `directory://`, letter for letter. No other text gives this error.
pub proof fn law_malformed_text_is_refused(found: Option<Seq<char>>, text: Seq<char>)
    ensures
        parsed(found, text) == Err::<Seq<char>, _>(SpecError::InvalidUri) <==> found is None || (
        found == Some(scheme()) && !scheme_prefix().is_prefix_of(text)),
{
}

/// `directory://` with nothing after it has no path. No other text gives this error:
/// whatever follows the prefix, the path made of it is not empty.
pub proof fn law_nothing_after_prefix(found: Option<Seq<char>>, text: Seq<char>)
    ensures
        parsed(found, text) == Err::<Seq<char>, _>(SpecError::EmptyPath) <==> found == Some(
            scheme(),
        ) && text == scheme_prefix(),
{
    lemma_suffix_of_uri_text(Seq::empty());
    assert(uri_text(Seq::empty()) =~= scheme_prefix());
    if found == Some(scheme()) && scheme_prefix().is_prefix_of(text) {
        let suffix = text.skip(scheme_prefix().len() as int);
        assert(text =~= uri_text(suffix));
        if suffix.len() > 0 {
            if let Some(decoded) = decoded_text(suffix) {
                law_decoded_text_is_not_empty(suffix);
            }
        }
    }
}

/// Escapes that do not decode to UTF-8 are refused. No other text gives this error.
pub proof fn law_invalid_encoding_is_refused(found: Option<Seq<char>>, text: Seq<char>)
    ensures
        parsed(found, text) == Err::<Seq<char>, _>(SpecError::InvalidEncoding) <==> {
            let suffix = text.skip(scheme_prefix().len() as int);
            &&& found == Some(scheme())
            &&& scheme_prefix().is_prefix_of(text)
            &&& suffix.len() > 0
            &&& decoded_text(suffix) is None
        },
{
    if found == Some(scheme()) && scheme_prefix().is_prefix_of(text) {
        let suffix = text.skip(scheme_prefix().len() as int);
        if suffix.len() > 0 {
            if let Some(decoded) = decoded_text(suffix) {
                law_decoded_text_is_not_empty(suffix);
            }
        }
    }
}

/// The path of a URI that parses is never empty.
pub proof fn law_path_is_never_empty(found: Option<Seq<char>>, text: Seq<char>)
    ensures
        parsed(found, text) matches Ok(path) ==> path.len() > 0,
{
}

} // verus!
