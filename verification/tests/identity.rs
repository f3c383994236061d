use nusmods_api::bytes::{bytes_eq, lower_bytes};
use nusmods_api::identity::parse_identity;

#[test]
fn parses_the_canonical_body() {
    let u = parse_identity(b"{\"accountName\":\"e0000000\",\"upn\":\"e0000000@u.nus.edu\",\"email\":\"mail@example.com\"}")
        .expect("canonical body must parse");
    assert_eq!(u.account_name, b"e0000000".to_vec());
    assert_eq!(u.upn, b"e0000000@u.nus.edu".to_vec());
    assert_eq!(u.email, b"mail@example.com".to_vec());
}

#[test]
fn parses_members_in_any_order() {
    let u = parse_identity(b"{\"email\":\"m\",\"accountName\":\"a\",\"upn\":\"u\"}")
        .expect("reordered members must parse");
    assert_eq!(u.account_name, b"a".to_vec());
    assert_eq!(u.upn, b"u".to_vec());
    assert_eq!(u.email, b"m".to_vec());
    let v = parse_identity(b"{\"upn\":\"u\",\"email\":\"m\",\"accountName\":\"a\"}")
        .expect("reordered members must parse");
    assert_eq!(v.account_name, b"a".to_vec());
    assert_eq!(v.upn, b"u".to_vec());
    assert_eq!(v.email, b"m".to_vec());
}

#[test]
fn parses_with_whitespace_between_tokens() {
    let u = parse_identity(
        b" {\n\t\"accountName\" : \"a\" ,\r\n \"upn\"\t: \"u\" , \"email\" : \"m\" }\n",
    )
    .expect("whitespace between tokens must parse");
    assert_eq!(u.account_name, b"a".to_vec());
    assert_eq!(u.upn, b"u".to_vec());
    assert_eq!(u.email, b"m".to_vec());
}

#[test]
fn parses_empty_string_values() {
    let u = parse_identity(b"{\"accountName\":\"\",\"upn\":\"\",\"email\":\"\"}")
        .expect("empty values are still strings");
    assert_eq!(u.account_name, b"".to_vec());
    assert_eq!(u.upn, b"".to_vec());
    assert_eq!(u.email, b"".to_vec());
}

#[test]
fn rejects_missing_fields() {
    assert!(parse_identity(b"{}").is_none());
    assert!(parse_identity(b"{\"accountName\":\"a\"}").is_none());
    assert!(parse_identity(b"{\"accountName\":\"a\",\"upn\":\"u\"}").is_none());
}

#[test]
fn rejects_duplicate_keys() {
    assert!(parse_identity(b"{\"upn\":\"u\",\"upn\":\"v\",\"email\":\"m\"}").is_none());
    assert!(parse_identity(b"{\"accountName\":\"a\",\"accountName\":\"b\",\"accountName\":\"c\"}")
        .is_none());
}

#[test]
fn rejects_unknown_or_extra_members() {
    assert!(parse_identity(b"{\"accountName\":\"a\",\"upn\":\"u\",\"displayName\":\"d\"}").is_none());
    assert!(parse_identity(
        b"{\"accountName\":\"a\",\"upn\":\"u\",\"email\":\"m\",\"extra\":\"x\"}",
    )
    .is_none());
}

#[test]
fn rejects_non_object_and_trailing_garbage() {
    assert!(parse_identity(b"").is_none());
    assert!(parse_identity(b"null").is_none());
    assert!(parse_identity(b"[1,2,3]").is_none());
    assert!(parse_identity(b"{\"accountName\":\"a\",\"upn\":\"u\",\"email\":\"m\"} tail").is_none());
    assert!(parse_identity(b"{\"accountName\":\"a\",\"upn\":\"u\",\"email\":\"m\"").is_none());
}

#[test]
fn rejects_escapes_and_non_string_values() {
    assert!(parse_identity(b"{\"accountName\":\"a\\\"b\",\"upn\":\"u\",\"email\":\"m\"}").is_none());
    assert!(parse_identity(b"{\"accountName\":1,\"upn\":\"u\",\"email\":\"m\"}").is_none());
    assert!(parse_identity(b"{\"accountName\":null,\"upn\":\"u\",\"email\":\"m\"}").is_none());
}

#[test]
fn lower_bytes_folds_only_ascii_uppercase() {
    assert_eq!(lower_bytes(b"NusMods.COM"), b"nusmods.com".to_vec());
    assert_eq!(lower_bytes(b"abc-123_?"), b"abc-123_?".to_vec());
    assert_eq!(lower_bytes(b""), b"".to_vec());
    assert_eq!(lower_bytes(&[0, 64, 91, 96, 123, 255]), vec![0, 64, 91, 96, 123, 255]);
}

#[test]
fn bytes_eq_compares_contents() {
    assert!(bytes_eq(b"abc", b"abc"));
    assert!(!bytes_eq(b"abc", b"abd"));
    assert!(!bytes_eq(b"abc", b"abcd"));
    assert!(bytes_eq(b"", b""));
}
