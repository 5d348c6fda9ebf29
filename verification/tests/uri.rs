use std::path::PathBuf;

use qmpo::{DirectoryUri, QmpoError};

// Basic paths

#[test]
fn test_unix_path() {
    let uri = DirectoryUri::parse("directory:///home/tagawa").unwrap();
    assert_eq!(uri.path(), "/home/tagawa");
}

#[test]
fn test_unix_root() {
    let uri = DirectoryUri::parse("directory:///").unwrap();
    assert_eq!(uri.path(), "/");
}

#[test]
fn test_unix_path_with_spaces() {
    let uri = DirectoryUri::parse("directory:///home/tagawa/My%20Documents").unwrap();
    assert_eq!(uri.path(), "/home/tagawa/My Documents");
}

#[test]
fn test_windows_local_path() {
    let uri = DirectoryUri::parse("directory://C:/Users/tagawa").unwrap();
    assert_eq!(uri.path(), "C:\\Users\\tagawa");
}

#[test]
fn test_windows_local_path_lowercase() {
    let uri = DirectoryUri::parse("directory://c:/Users/tagawa").unwrap();
    assert_eq!(uri.path(), "c:\\Users\\tagawa");
}

#[test]
fn test_windows_drive_root() {
    let uri = DirectoryUri::parse("directory://D:/").unwrap();
    assert_eq!(uri.path(), "D:\\");
}

// A drive letter whose colon a browser has dropped

#[test]
fn test_windows_drive_without_colon() {
    let uri = DirectoryUri::parse("directory://C/Users/tagawa").unwrap();
    assert_eq!(uri.path(), "C:\\Users\\tagawa");
}

#[test]
fn test_windows_drive_without_colon_lowercase() {
    let uri = DirectoryUri::parse("directory://d/Windows").unwrap();
    assert_eq!(uri.path(), "d:\\Windows");
}

#[test]
fn test_windows_drive_without_colon_triple_slash() {
    let uri = DirectoryUri::parse("directory:///C/Windows").unwrap();
    assert_eq!(uri.path(), "C:\\Windows");
}

#[test]
fn test_unc_path() {
    let uri = DirectoryUri::parse("directory://server/share/folder").unwrap();
    assert_eq!(uri.path(), "\\\\server\\share\\folder");
}

#[test]
fn test_unc_path_root() {
    let uri = DirectoryUri::parse("directory://server/share").unwrap();
    assert_eq!(uri.path(), "\\\\server\\share");
}

// Special characters

#[test]
fn test_percent_encoded_special_chars() {
    let uri = DirectoryUri::parse("directory:///home/user/%23folder").unwrap();
    assert_eq!(uri.path(), "/home/user/#folder");
}

#[test]
fn test_percent_encoded_unicode() {
    // Japanese characters: テスト
    let uri = DirectoryUri::parse("directory:///home/user/%E3%83%86%E3%82%B9%E3%83%88").unwrap();
    assert_eq!(uri.path(), "/home/user/テスト");
}

#[test]
fn test_path_with_dots() {
    // Nothing is canonicalized while parsing
    let uri = DirectoryUri::parse("directory:///home/user/../other").unwrap();
    assert_eq!(uri.path(), "/home/user/../other");
}

// Errors

#[test]
fn test_invalid_scheme() {
    let result = DirectoryUri::parse("file:///home/tagawa");
    assert!(matches!(result, Err(QmpoError::InvalidScheme(_))));
}

#[test]
fn test_empty_path() {
    let result = DirectoryUri::parse("directory://");
    assert!(matches!(result, Err(QmpoError::EmptyPath)));
}

#[test]
fn test_invalid_uri() {
    let result = DirectoryUri::parse("not a uri");
    assert!(result.is_err());
}

#[test]
fn test_missing_scheme() {
    let result = DirectoryUri::parse("///home/tagawa");
    assert!(result.is_err());
}

#[test]
fn test_into_path() {
    let uri = DirectoryUri::parse("directory:///home/tagawa").unwrap();
    let path: PathBuf = PathBuf::from(uri.into_path());
    assert_eq!(path, PathBuf::from("/home/tagawa"));
}

// The error says what was wrong

#[test]
fn wrong_scheme_is_named_in_the_error() {
    match DirectoryUri::parse("file:///home/tagawa") {
        Err(QmpoError::InvalidScheme(scheme)) => assert_eq!(scheme, "file"),
        other => panic!("unexpected result: {:?}", other),
    }
}

#[test]
fn text_that_is_no_uri_is_malformed() {
    match DirectoryUri::parse("not a uri") {
        Err(QmpoError::InvalidUri(reason)) => assert_eq!(reason, "relative URL without a base"),
        other => panic!("unexpected result: {:?}", other),
    }
    assert!(matches!(DirectoryUri::parse(""), Err(QmpoError::InvalidUri(_))));
    assert!(matches!(DirectoryUri::parse("///home/tagawa"), Err(QmpoError::InvalidUri(_))));
}

#[test]
fn prefix_must_be_written_letter_for_letter() {
    // The URL parser lowers the scheme, so these pass the scheme check; the text itself
    // does not begin with `directory://`.
    for text in ["DIRECTORY://C:/Users", "directory:/home/tagawa", "directory:home", " directory:///home"] {
        match DirectoryUri::parse(text) {
            Err(QmpoError::InvalidUri(reason)) => assert_eq!(reason, "missing scheme prefix"),
            other => panic!("unexpected result for {:?}: {:?}", text, other),
        }
    }
}

#[test]
fn escapes_that_are_not_utf8_are_an_encoding_error() {
    assert!(matches!(
        DirectoryUri::parse("directory:///home/%FF"),
        Err(QmpoError::InvalidEncoding)
    ));
    assert!(matches!(
        DirectoryUri::parse("directory://server/%E3%83"),
        Err(QmpoError::InvalidEncoding)
    ));
}

#[test]
fn nothing_after_the_prefix_is_an_empty_path() {
    assert!(matches!(DirectoryUri::resolve("directory", "directory://"), Err(QmpoError::EmptyPath)));
    assert!(matches!(DirectoryUri::extract_path("directory://"), Err(QmpoError::EmptyPath)));
}

#[test]
fn error_messages() {
    assert_eq!(
        QmpoError::InvalidScheme(String::from("file")).message(),
        "invalid URI scheme: expected 'directory', got 'file'"
    );
    assert_eq!(
        QmpoError::InvalidUri(String::from("missing scheme prefix")).message(),
        "invalid URI format: missing scheme prefix"
    );
    assert_eq!(QmpoError::EmptyPath.message(), "empty path in URI");
    assert_eq!(QmpoError::InvalidEncoding.message(), "percent-decoded path is not valid UTF-8");
}

// The scheme is checked before the text is read

#[test]
fn resolve_checks_the_scheme_first() {
    match DirectoryUri::resolve("file", "directory:///home/tagawa") {
        Err(QmpoError::InvalidScheme(scheme)) => assert_eq!(scheme, "file"),
        other => panic!("unexpected result: {:?}", other),
    }
    match DirectoryUri::resolve("Directory", "directory:///home/tagawa") {
        Err(QmpoError::InvalidScheme(scheme)) => assert_eq!(scheme, "Directory"),
        other => panic!("unexpected result: {:?}", other),
    }
    let uri = DirectoryUri::resolve("directory", "directory:///home/tagawa").unwrap();
    assert_eq!(uri.path(), "/home/tagawa");
    assert!(matches!(
        DirectoryUri::resolve("directory", "file:///home/tagawa"),
        Err(QmpoError::InvalidUri(_))
    ));
}

// Shapes

#[test]
fn extract_path_reads_each_shape() {
    assert_eq!(DirectoryUri::extract_path("directory:///home/tagawa").unwrap(), "/home/tagawa");
    assert_eq!(DirectoryUri::extract_path("directory://C:/Users/tagawa").unwrap(), "C:\\Users\\tagawa");
    assert_eq!(DirectoryUri::extract_path("directory://c/Users/tagawa").unwrap(), "c:\\Users\\tagawa");
    assert_eq!(
        DirectoryUri::extract_path("directory://server/share/folder").unwrap(),
        "\\\\server\\share\\folder"
    );
    assert_eq!(DirectoryUri::extract_path("directory:///C/Windows").unwrap(), "C:\\Windows");
}

#[test]
fn drive_letter_keeps_its_case() {
    assert_eq!(DirectoryUri::parse("directory://z:/Data").unwrap().path(), "z:\\Data");
    assert_eq!(DirectoryUri::parse("directory://Z/Data").unwrap().path(), "Z:\\Data");
    assert_eq!(DirectoryUri::parse("directory:///q/Data").unwrap().path(), "q:\\Data");
}

#[test]
fn slashes_come_before_the_drive_letter() {
    // Three slashes and a longer first segment: a Unix path.
    assert_eq!(DirectoryUri::parse("directory:///CD/Windows").unwrap().path(), "/CD/Windows");
    // Three slashes and a drive with its colon: the colon is not looked for here.
    assert_eq!(DirectoryUri::parse("directory:///C:/Windows").unwrap().path(), "/C:/Windows");
    // A single letter alone is no drive.
    assert_eq!(DirectoryUri::parse("directory:///C").unwrap().path(), "/C");
    assert_eq!(DirectoryUri::parse("directory://C").unwrap().path(), "\\\\C");
    // A digit is no drive letter.
    assert_eq!(DirectoryUri::parse("directory://1/share").unwrap().path(), "\\\\1\\share");
}

#[test]
fn single_letter_host_is_read_as_a_drive() {
    assert_eq!(DirectoryUri::parse("directory://x/share").unwrap().path(), "x:\\share");
}

#[test]
fn dot_segments_are_kept_in_every_shape() {
    assert_eq!(
        DirectoryUri::parse("directory:///home/./user/../../etc").unwrap().path(),
        "/home/./user/../../etc"
    );
    assert_eq!(
        DirectoryUri::parse("directory://C:/Users/../Windows/.").unwrap().path(),
        "C:\\Users\\..\\Windows\\."
    );
    assert_eq!(
        DirectoryUri::parse("directory://server/share/../other").unwrap().path(),
        "\\\\server\\share\\..\\other"
    );
    assert_eq!(DirectoryUri::parse("directory:///home//tagawa/").unwrap().path(), "/home//tagawa/");
}

// Escapes

#[test]
fn escapes_are_decoded_in_every_shape() {
    assert_eq!(
        DirectoryUri::parse("directory://C:/Program%20Files/My%23App").unwrap().path(),
        "C:\\Program Files\\My#App"
    );
    assert_eq!(
        DirectoryUri::parse("directory://server/%E5%85%B1%E6%9C%89/folder").unwrap().path(),
        "\\\\server\\共有\\folder"
    );
    assert_eq!(
        DirectoryUri::parse("directory:///home/user/%e3%83%86%e3%82%b9%e3%83%88").unwrap().path(),
        "/home/user/テスト"
    );
    assert_eq!(
        DirectoryUri::parse("directory:///home/%F0%9F%93%81").unwrap().path(),
        "/home/\u{1F4C1}"
    );
}

#[test]
fn shape_is_decided_on_the_decoded_text() {
    // An escaped slash is a separator once decoded.
    assert_eq!(
        DirectoryUri::extract_path("directory://server/a%2Fb").unwrap(),
        "\\\\server\\a\\b"
    );
    // An escaped drive letter is a drive letter.
    assert_eq!(DirectoryUri::extract_path("directory://%43:/Users").unwrap(), "C:\\Users");
    assert_eq!(DirectoryUri::extract_path("directory:///%43/Users").unwrap(), "C:\\Users");
    // The leading slash is looked for in the text as written.
    assert_eq!(DirectoryUri::extract_path("directory://%2Fhome").unwrap(), "\\\\\\home");
}

#[test]
fn percent_sign_without_digits_is_kept() {
    assert_eq!(DirectoryUri::extract_path("directory:///100%/done").unwrap(), "/100%/done");
    assert_eq!(DirectoryUri::extract_path("directory:///a%2").unwrap(), "/a%2");
    assert_eq!(DirectoryUri::extract_path("directory:///a%zz").unwrap(), "/a%zz");
}

#[test]
fn every_byte_escaped_decodes_to_the_same_text() {
    let text = "/home/user/テスト dir/#1/\u{1F4C1}";
    let mut written = String::from("directory://");
    for byte in text.bytes() {
        written.push_str(&format!("%{:02X}", byte));
    }
    // The text as written begins with `%`, not with a slash: a network path.
    let expected = format!("\\\\{}", text.replace('/', "\\"));
    assert_eq!(DirectoryUri::extract_path(&written).unwrap(), expected);
}

// The value

#[test]
fn equal_paths_make_equal_uris() {
    let a = DirectoryUri::parse("directory:///home/tagawa").unwrap();
    let b = DirectoryUri::parse("directory:///home/tagawa").unwrap();
    let c = DirectoryUri::parse("directory:///home/other").unwrap();
    assert_eq!(a, b);
    assert_eq!(a, a.clone());
    assert_ne!(a, c);
    // Two texts of one path
    let d = DirectoryUri::parse("directory://C/Users").unwrap();
    let e = DirectoryUri::parse("directory://C:/Users").unwrap();
    assert_eq!(d, e);
}

#[test]
fn path_is_never_empty() {
    for text in ["directory:///", "directory://a", "directory://%20", "directory://C:"] {
        let uri = DirectoryUri::parse(text).unwrap();
        assert!(!uri.path().is_empty());
        assert!(!uri.into_path().is_empty());
    }
}

// One example of each outcome

#[test]
fn documented_examples() {
    assert_eq!(DirectoryUri::parse("directory:///home/tagawa").unwrap().path(), "/home/tagawa");
    assert_eq!(
        DirectoryUri::parse("directory://C:/Users/tagawa").unwrap().path(),
        "C:\\Users\\tagawa"
    );
    assert_eq!(
        DirectoryUri::parse("directory://c/Users/tagawa").unwrap().path(),
        "c:\\Users\\tagawa"
    );
    assert_eq!(
        DirectoryUri::parse("directory://server/share/folder").unwrap().path(),
        "\\\\server\\share\\folder"
    );
    assert_eq!(
        DirectoryUri::parse("directory:///home/user/My%20Documents").unwrap().path(),
        "/home/user/My Documents"
    );
    assert!(matches!(DirectoryUri::parse("directory://"), Err(QmpoError::EmptyPath)));
    match DirectoryUri::parse("file:///home/tagawa") {
        Err(QmpoError::InvalidScheme(scheme)) => assert_eq!(scheme, "file"),
        other => panic!("unexpected result: {:?}", other),
    }
}
