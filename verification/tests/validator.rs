use nusmods_api::validator::{extract_host, host_matches, is_valid_callback, AllowedDomainSet};

fn domains() -> AllowedDomainSet {
    AllowedDomainSet::new(vec![
        b"nusmods.com".to_vec(),
        b"nusmods.io".to_vec(),
        b"modsn.us".to_vec(),
        b"localhost".to_vec(),
    ])
}

#[test]
fn accepts_allowed_domain_itself() {
    assert!(is_valid_callback(b"http://nusmods.com", &domains()));
}

#[test]
fn accepts_subdomain_with_path_and_query() {
    assert!(is_valid_callback(b"http://api.nusmods.com/path?x=1", &domains()));
}

#[test]
fn rejects_prefix_concatenation() {
    assert!(!is_valid_callback(b"http://evilnusmods.com", &domains()));
}

#[test]
fn rejects_domain_followed_by_other_suffix() {
    assert!(!is_valid_callback(b"http://nusmods.com.evil.com", &domains()));
}

#[test]
fn rejects_hyphenated_lookalike() {
    assert!(!is_valid_callback(b"http://evil-nusmods.com", &domains()));
}

#[test]
fn rejects_empty_string() {
    assert!(!is_valid_callback(b"", &domains()));
}

#[test]
fn rejects_url_without_scheme() {
    assert!(!is_valid_callback(b"nusmods.com", &domains()));
}

#[test]
fn rejects_url_without_host() {
    assert!(!is_valid_callback(b"http://", &domains()));
}

#[test]
fn rejects_relative_path() {
    assert!(!is_valid_callback(b"/timetable", &domains()));
}

#[test]
fn accepts_case_insensitively() {
    assert!(is_valid_callback(b"HTTP://NUSMODS.COM", &domains()));
    assert!(is_valid_callback(b"http://ApI.NusMods.Com/x", &domains()));
    assert!(is_valid_callback(b"http://api.NUSMODS.com", &domains()));
}

#[test]
fn accepts_with_port() {
    assert!(is_valid_callback(b"http://localhost:8080", &domains()));
    assert!(is_valid_callback(b"http://nusmods.com:3000/timetable", &domains()));
}

#[test]
fn accepts_other_schemes() {
    assert!(is_valid_callback(b"https://nusmods.com/callback", &domains()));
}

#[test]
fn accepts_nested_subdomain() {
    assert!(is_valid_callback(b"https://a.b.nusmods.com", &domains()));
}

#[test]
fn rejects_userinfo_trick() {
    assert!(!is_valid_callback(b"http://nusmods.com@evil.com", &domains()));
    assert!(!is_valid_callback(b"http://evil@nusmods.com", &domains()));
}

#[test]
fn rejects_userinfo_holding_a_colon() {
    // user information may itself hold a ':'; the '@' scan covers the whole
    // authority, so an allowed domain posing as userinfo gains nothing
    assert!(!is_valid_callback(b"http://nusmods.com:p@evil.com", &domains()));
    // and the validator fails closed on every userinfo form, even one whose
    // real host would match
    assert!(!is_valid_callback(b"http://evil.com:p@nusmods.com", &domains()));
}

#[test]
fn rejects_userinfo_before_a_path() {
    assert!(!is_valid_callback(b"http://nusmods.com:80@evil.com/cb", &domains()));
    // an '@' after the authority ends is ordinary query data, not userinfo
    assert!(is_valid_callback(b"http://nusmods.com/cb?mail=a@b.com", &domains()));
}

#[test]
fn rejects_delimiter_lookalikes_in_host() {
    assert!(!is_valid_callback(b"http://evil.com\\.nusmods.com", &domains()));
    assert!(!is_valid_callback(b"http://evil.com .nusmods.com", &domains()));
    let mut url = b"http://evil.com".to_vec();
    url.push(9);
    url.extend_from_slice(b".nusmods.com");
    assert!(!is_valid_callback(&url, &domains()));
    let mut url = b"http://evil.com".to_vec();
    url.push(0);
    url.extend_from_slice(b".nusmods.com");
    assert!(!is_valid_callback(&url, &domains()));
}

#[test]
fn rejects_bare_dot_prefix_of_domain() {
    assert!(!is_valid_callback(b"http://snusmods.com", &domains()));
}

#[test]
fn decision_ignores_port_path_query() {
    let with = [
        b"http://modsn.us:443".to_vec(),
        b"http://modsn.us/abc".to_vec(),
        b"http://modsn.us?x=1".to_vec(),
        b"http://modsn.us#frag".to_vec(),
    ];
    for url in with.iter() {
        assert!(is_valid_callback(url, &domains()));
    }
    let bad = [
        b"http://evil.com:443".to_vec(),
        b"http://evil.com/abc".to_vec(),
        b"http://evil.com?x=1".to_vec(),
    ];
    for url in bad.iter() {
        assert!(!is_valid_callback(url, &domains()));
    }
}

#[test]
fn extract_host_reads_the_host_component() {
    assert_eq!(extract_host(b"http://nusmods.com/path"), Some(b"nusmods.com".to_vec()));
    assert_eq!(extract_host(b"https://API.nusmods.com:8080?q=1"), Some(b"API.nusmods.com".to_vec()));
    assert_eq!(extract_host(b"http://"), None);
    assert_eq!(extract_host(b"not a url"), None);
    assert_eq!(extract_host(b"http:/nusmods.com"), None);
    assert_eq!(extract_host(b"://nusmods.com"), None);
    assert_eq!(extract_host(b"1http://nusmods.com"), None);
    assert_eq!(extract_host(b"http://nusmods.com:8080"), Some(b"nusmods.com".to_vec()));
    assert_eq!(extract_host(b"http://nusmods.com:p@evil.com"), None);
    assert_eq!(extract_host(b"http://evil.com:p@nusmods.com"), None);
    assert_eq!(extract_host(b"http://evil.com\\.nusmods.com"), None);
}

#[test]
fn host_matches_needs_dot_boundary() {
    assert!(host_matches(b"nusmods.com", b"nusmods.com"));
    assert!(host_matches(b"api.nusmods.com", b"nusmods.com"));
    assert!(host_matches(b"API.NUSMODS.COM", b"nusmods.com"));
    assert!(!host_matches(b"evilnusmods.com", b"nusmods.com"));
    assert!(!host_matches(b"nusmods.com.evil.com", b"nusmods.com"));
    assert!(!host_matches(b"usmods.com", b"nusmods.com"));
    assert!(!host_matches(b"com", b"nusmods.com"));
}

#[test]
fn empty_domain_set_accepts_nothing() {
    let none = AllowedDomainSet::new(vec![]);
    assert_eq!(none.len(), 0);
    assert!(!is_valid_callback(b"http://nusmods.com", &none));
}

#[test]
fn accepts_reports_the_matching_rule() {
    let d = domains();
    assert_eq!(d.len(), 4);
    assert!(d.accepts(b"nusmods.io"));
    assert!(d.accepts(b"sub.modsn.us"));
    assert!(!d.accepts(b"modsn.uss"));
}
