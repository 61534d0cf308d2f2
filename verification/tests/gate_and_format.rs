use fb2_gateway::auth::authorize;
use fb2_gateway::bytes::{append_bytes, bytes_eq, clone_bytes};
use fb2_gateway::format::{format_is_allowed, lower_ascii};

fn bytes_of(s: &str) -> Vec<u8> {
    s.as_bytes().to_vec()
}

#[test]
fn allowed_formats_any_case() {
    for f in ["epub", "mobi", "EPUB", "MOBI", "Epub", "mObI", "ePUb"] {
        assert!(format_is_allowed(&bytes_of(f)), "{} must be allowed", f);
    }
}

#[test]
fn disallowed_formats() {
    for f in ["pdf", "", "epu", "epube", "epub ", " epub", "fb2", "mob", "azw3", "e pub"] {
        assert!(!format_is_allowed(&bytes_of(f)), "{} must be rejected", f);
    }
}

#[test]
fn lowercasing_touches_only_ascii_uppercase() {
    assert_eq!(lower_ascii(&bytes_of("EpUb-123_Z")), bytes_of("epub-123_z"));
    assert_eq!(lower_ascii(&bytes_of("")), bytes_of(""));
    assert_eq!(lower_ascii(&bytes_of("already lower")), bytes_of("already lower"));
}

#[test]
fn correct_credential_accepted() {
    let secret = bytes_of("correct-horse");
    assert!(authorize(&Some(bytes_of("correct-horse")), &secret));
}

#[test]
fn wrong_credential_refused() {
    let secret = bytes_of("correct-horse");
    assert!(!authorize(&Some(bytes_of("correct-horsf")), &secret));
    assert!(!authorize(&Some(bytes_of("correct-hors")), &secret));
    assert!(!authorize(&Some(bytes_of("")), &secret));
}

#[test]
fn absent_credential_refused() {
    let secret = bytes_of("correct-horse");
    assert!(!authorize(&None, &secret));
}

#[test]
fn empty_secret_matches_only_empty_header() {
    let secret = bytes_of("");
    assert!(authorize(&Some(bytes_of("")), &secret));
    assert!(!authorize(&Some(bytes_of("x")), &secret));
}

#[test]
fn byte_equality_helper() {
    assert!(bytes_eq(&bytes_of("abc"), &bytes_of("abc")));
    assert!(!bytes_eq(&bytes_of("abc"), &bytes_of("abd")));
    assert!(!bytes_eq(&bytes_of("abc"), &bytes_of("ab")));
    assert!(bytes_eq(&bytes_of(""), &bytes_of("")));
}

#[test]
fn byte_clone_and_append_helpers() {
    let v = bytes_of("hello");
    assert_eq!(clone_bytes(&v), v);
    let mut a = bytes_of("foo");
    append_bytes(&mut a, &bytes_of("bar"));
    assert_eq!(a, bytes_of("foobar"));
}
