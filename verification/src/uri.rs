//! The `directory://` URI and the native path it stands for.
//!
//! Three shapes of path are written with the one scheme:
//!
//! | URI | Path |
//! |-----|------|
//! | `directory:///home/tagawa` | `/home/tagawa` |
//! | `directory://C:/Users/tagawa` | `C:\Users\tagawa` |
//! | `directory://server/share/folder` | `\\server\share\folder` |
//!
//! Which shape is meant is read from the text alone, not from the platform the code runs
//! on. Some browsers drop the colon after a drive letter; `C/Users` is read as `C:/Users`.
//! The price is an ambiguity that is left as it is: a first segment of one letter is always
//! a drive, so a Unix directory or a host with a name of one letter cannot be written.

use vstd::prelude::*;
use vstd::string::StringExecFns;

use crate::error::{QmpoError, SpecError};
use crate::percent::{decode_percent_encoding, decoded_text};
use crate::text::{first_char, replace_char, replaced, skip_first, strip_prefix, text_eq};
use crate::trusted::{describe_parse_error, scheme_of, url_scheme};

verus! {

broadcast use vstd::string::group_string_axioms;

/// The scheme of the URIs that this module reads.
pub open spec fn scheme() -> Seq<char> {
    "directory"@
}

/// What a URI must begin with, letter for letter.
pub open spec fn scheme_prefix() -> Seq<char> {
    "directory://"@
}

/// The shape of path that a URI stands for.
#[derive(Clone, Copy, Debug, PartialEq, Eq, Structural)]
pub enum PathShape {
    /// An absolute Unix path: `/home/tagawa`.
    Unix,
    /// A path on a Windows drive: `C:\Users\tagawa`.
    WindowsLocal,
    /// A Windows network path: `\\server\share\folder`.
    Unc,
}

/// True for `a`-`z` and `A`-`Z`.
pub open spec fn is_ascii_letter(c: char) -> bool {
    ('a' <= c && c <= 'z') || ('A' <= c && c <= 'Z')
}

/// A drive letter and a colon open the text, as in `C:/Users`.
pub open spec fn has_drive_prefix(s: Seq<char>) -> bool {
    s.len() >= 2 && is_ascii_letter(s[0]) && s[1] == ':'
}

/// A drive letter and a slash open the text, as in `C/Users`: the colon was lost.
pub open spec fn has_bare_drive_prefix(s: Seq<char>) -> bool {
    s.len() >= 2 && is_ascii_letter(s[0]) && s[1] == '/'
}

/// The text with the lost colon put back after the drive letter; any other text unchanged.
pub open spec fn with_drive_colon(s: Seq<char>) -> Seq<char> {
    if has_bare_drive_prefix(s) {
        seq![s[0], ':'] + s.skip(1)
    } else {
        s
    }
}

/// The text with every `/` turned into `\`.
pub open spec fn backslashed(s: Seq<char>) -> Seq<char> {
    replaced(s, '/', '\\')
}

/// The text in which a drive letter is looked for. Where the raw suffix begins with a
/// slash, that is the decoded text after its leading slash; else the decoded text itself.
pub open spec fn drive_text(suffix: Seq<char>, decoded: Seq<char>) -> Seq<char> {
    if suffix.len() > 0 && suffix[0] == '/' && decoded.len() > 0 && decoded[0] == '/' {
        decoded.skip(1)
    } else {
        decoded
    }
}

/// The shape of the path, decided on the raw suffix (what follows `directory://`) and on
/// its percent-decoded text. The leading slash is looked at first, the drive letter after.
pub open spec fn shape_of(suffix: Seq<char>, decoded: Seq<char>) -> PathShape {
    if suffix.len() > 0 && suffix[0] == '/' {
        if has_bare_drive_prefix(drive_text(suffix, decoded)) {
            PathShape::WindowsLocal
        } else {
            PathShape::Unix
        }
    } else if has_drive_prefix(with_drive_colon(decoded)) {
        PathShape::WindowsLocal
    } else {
        PathShape::Unc
    }
}

/// The native path for a raw suffix and its percent-decoded text.
pub open spec fn native_path(suffix: Seq<char>, decoded: Seq<char>) -> Seq<char> {
    match shape_of(suffix, decoded) {
        PathShape::Unix => decoded,
        PathShape::WindowsLocal => backslashed(with_drive_colon(drive_text(suffix, decoded))),
        PathShape::Unc => seq!['\\', '\\'] + backslashed(decoded),
    }
}

/// What [`DirectoryUri::extract_path`] makes of the text of a URI: the native path, or the
/// kind of error.
pub open spec fn extracted_path(text: Seq<char>) -> Result<Seq<char>, SpecError> {
    if !scheme_prefix().is_prefix_of(text) {
        Err(SpecError::InvalidUri)
    } else {
        let suffix = text.skip(scheme_prefix().len() as int);
        if suffix.len() == 0 {
            Err(SpecError::EmptyPath)
        } else {
            match decoded_text(suffix) {
                None => Err(SpecError::InvalidEncoding),
                Some(decoded) => Ok(native_path(suffix, decoded)),
            }
        }
    }
}

/// What [`DirectoryUri::resolve`] makes of a scheme and the text of a URI.
pub open spec fn resolved(scheme: Seq<char>, text: Seq<char>) -> Result<Seq<char>, SpecError> {
    if scheme != self::scheme() {
        Err(SpecError::InvalidScheme(scheme))
    } else {
        match extracted_path(text) {
            Ok(path) => if path.len() == 0 {
                Err(SpecError::EmptyPath)
            } else {
                Ok(path)
            },
            Err(e) => Err(e),
        }
    }
}

/// What [`DirectoryUri::parse`] makes of the text of a URI, given what the URL parser
/// finds in it: a scheme, or nothing where it rejects the text.
pub open spec fn parsed(found: Option<Seq<char>>, text: Seq<char>) -> Result<
    Seq<char>,
    SpecError,
> {
    match found {
        None => Err(SpecError::InvalidUri),
        Some(scheme) => resolved(scheme, text),
    }
}

fn ascii_letter(c: char) -> (r: bool)
    ensures
        r == is_ascii_letter(c),
{
    (c >= 'a' && c <= 'z') || (c >= 'A' && c <= 'Z')
}

/// Checks whether the text begins with a drive letter and a colon, as in `C:`.
pub fn is_windows_drive_letter(s: &str) -> (r: bool)
    ensures
        r == has_drive_prefix(s@),
{
    let mut chars = s.chars();
    let first = chars.next();
    let second = chars.next();
    match (first, second) {
        (Some(c), Some(d)) => ascii_letter(c) && d == ':',
        _ => false,
    }
}

/// Checks whether the text begins with a drive letter and a slash, as in `C/`.
pub fn is_windows_drive_letter_without_colon(s: &str) -> (r: bool)
    ensures
        r == has_bare_drive_prefix(s@),
{
    let mut chars = s.chars();
    let first = chars.next();
    let second = chars.next();
    match (first, second) {
        (Some(c), Some(d)) => ascii_letter(c) && d == '/',
        _ => false,
    }
}

/// Puts the colon back after a drive letter: `C/path` becomes `C:/path`. Any other text
/// is copied unchanged.
pub fn fix_windows_drive_letter(s: &str) -> (r: String)
    ensures
        r@ == with_drive_colon(s@),
{
    if is_windows_drive_letter_without_colon(s) {
        let mut result = String::new();
        match first_char(s) {
            Some(drive) => {
                result.push(drive);
                result.push(':');
                result.append(skip_first(s));
            },
            None => {},
        }
        result
    } else {
        String::from_str(s)
    }
}

/// Decides the shape of the path from the raw suffix and its decoded text.
pub fn classify(suffix: &str, decoded: &str) -> (shape: PathShape)
    ensures
        shape == shape_of(suffix@, decoded@),
{
    if starts_with_slash(suffix) {
        if is_windows_drive_letter_without_colon(after_leading_slash(decoded)) {
            PathShape::WindowsLocal
        } else {
            PathShape::Unix
        }
    } else {
        let fixed = fix_windows_drive_letter(decoded);
        if is_windows_drive_letter(fixed.as_str()) {
            PathShape::WindowsLocal
        } else {
            PathShape::Unc
        }
    }
}

fn starts_with_slash(s: &str) -> (r: bool)
    ensures
        r == (s@.len() > 0 && s@[0] == '/'),
{
    match first_char(s) {
        Some(c) => c == '/',
        None => false,
    }
}

fn after_leading_slash(s: &str) -> (r: &str)
    ensures
        r@ == if s@.len() > 0 && s@[0] == '/' {
            s@.skip(1)
        } else {
            s@
        },
{
    if starts_with_slash(s) {
        skip_first(s)
    } else {
        s
    }
}

/// A parsed `directory://` URI: the native path it stands for, never empty.
#[derive(Debug, Hash)]
pub struct DirectoryUri {
    path: String,
}

impl View for DirectoryUri {
    type V = Seq<char>;

    /// The native path.
    closed spec fn view(&self) -> Seq<char> {
        self.path@
    }
}

impl DirectoryUri {
    #[verifier::type_invariant]
    spec fn non_empty(&self) -> bool {
        self.path@.len() > 0
    }

    /// Parses a `directory://` URI and converts it to a native path.
    ///
    /// The text must be one that the URL parser accepts, with the scheme `directory`;
    /// it must begin with `directory://`, and something must follow.
    pub fn parse(uri_str: &str) -> (r: Result<DirectoryUri, QmpoError>)
        ensures
            match r {
                Ok(uri) => parsed(url_scheme(uri_str@), uri_str@) == Ok::<_, SpecError>(uri@),
                Err(e) => parsed(url_scheme(uri_str@), uri_str@) == Err::<Seq<char>, _>(e@),
            },
            url_scheme(uri_str@) is Some ==> (r matches Err(QmpoError::InvalidUri(reason))
                ==> reason@ == "missing scheme prefix"@),
    {
        match scheme_of(uri_str) {
            Ok(scheme) => DirectoryUri::resolve(scheme.as_str(), uri_str),
            Err(e) => Err(QmpoError::InvalidUri(describe_parse_error(&e))),
        }
    }

    /// Completes a parse once the scheme is known: checks the scheme, then reads the path
    /// from the text of the URI itself.
    pub fn resolve(scheme: &str, uri_str: &str) -> (r: Result<DirectoryUri, QmpoError>)
        ensures
            match r {
                Ok(uri) => resolved(scheme@, uri_str@) == Ok::<_, SpecError>(uri@),
                Err(e) => resolved(scheme@, uri_str@) == Err::<Seq<char>, _>(e@),
            },
            r matches Err(QmpoError::InvalidUri(reason)) ==> reason@ == "missing scheme prefix"@,
    {
        if !text_eq(scheme, "directory") {
            return Err(QmpoError::InvalidScheme(String::from_str(scheme)));
        }
        let path = match DirectoryUri::extract_path(uri_str) {
            Ok(path) => path,
            Err(e) => { return Err(e); },
        };
        if path.as_str().is_empty() {
            return Err(QmpoError::EmptyPath);
        }
        Ok(DirectoryUri { path })
    }

    /// Reads the native path from the text of a URI: what follows `directory://`, with
    /// its percent-escapes decoded, in the shape that the text calls for.
    pub fn extract_path(uri_str: &str) -> (r: Result<String, QmpoError>)
        ensures
            match r {
                Ok(path) => extracted_path(uri_str@) == Ok::<_, SpecError>(path@),
                Err(e) => extracted_path(uri_str@) == Err::<Seq<char>, _>(e@),
            },
            r matches Err(QmpoError::InvalidUri(reason)) ==> reason@ == "missing scheme prefix"@,
    {
        let after_scheme = match strip_prefix(uri_str, "directory://") {
            Some(rest) => rest,
            None => {
                return Err(QmpoError::InvalidUri(String::from_str("missing scheme prefix")));
            },
        };
        if after_scheme.is_empty() {
            return Err(QmpoError::EmptyPath);
        }
        let decoded = match decode_percent_encoding(after_scheme) {
            Ok(decoded) => decoded,
            Err(e) => { return Err(e); },
        };
        match classify(after_scheme, decoded.as_str()) {
            PathShape::Unix => Ok(decoded),
            PathShape::WindowsLocal => {
                let fixed = if starts_with_slash(after_scheme) {
                    fix_windows_drive_letter(after_leading_slash(decoded.as_str()))
                } else {
                    fix_windows_drive_letter(decoded.as_str())
                };
                Ok(replace_char(fixed.as_str(), '/', '\\'))
            },
            PathShape::Unc => {
                let mut unc_path = String::from_str("\\\\");
                unc_path.append(replace_char(decoded.as_str(), '/', '\\').as_str());
                proof {
                    reveal_strlit("\\\\");
                    assert("\\\\"@ == seq!['\\', '\\']);
                }
                Ok(unc_path)
            },
        }
    }

    /// The native path. It is not canonicalized: `.` and `..` stand as they were written.
    pub fn path(&self) -> (r: &str)
        ensures
            r@ == self@,
            r@.len() > 0,
    {
        proof {
            use_type_invariant(self);
        }
        self.path.as_str()
    }

    /// Consumes the URI and returns the native path.
    pub fn into_path(self) -> (r: String)
        ensures
            r@ == self@,
            r@.len() > 0,
    {
        proof {
            use_type_invariant(&self);
        }
        self.path
    }
}

impl Clone for DirectoryUri {
    fn clone(&self) -> (r: Self)
        ensures
            r@ == self@,
    {
        proof {
            use_type_invariant(self);
        }
        DirectoryUri { path: self.path.clone() }
    }
}

impl PartialEq for DirectoryUri {
    fn eq(&self, other: &Self) -> (r: bool) {
        self.path == other.path
    }
}

impl Eq for DirectoryUri {

}

impl vstd::std_specs::cmp::PartialEqSpecImpl for DirectoryUri {
    open spec fn obeys_eq_spec() -> bool {
        true
    }

    open spec fn eq_spec(&self, other: &Self) -> bool {
        self@ == other@
    }
}

} // verus!
