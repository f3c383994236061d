//! The callback-URL validator: decides whether a caller-supplied string is an
//! allowed single-sign-on redirect target. A URL is accepted iff it parses as
//! an absolute URL with a host and that host, lowercased, is one of the
//! allowed root domains or a strict subdomain of one (it ends with a dot
//! followed by the domain). The whole authority is read: a URL whose
//! authority carries user information (an `'@'` anywhere before the path,
//! query or fragment) is refused outright rather than split, and a host is
//! refused unless every byte of it belongs to a registered-name charset.
//! Anything that does not parse is rejected: the validator fails closed.

use vstd::prelude::*;

use crate::bytes::seq_lower;
use crate::bytes::lower_bytes;
use crate::bytes::bytes_eq;

verus! {

/// `':'`
pub const COLON: u8 = 58;
/// `'/'`
pub const SLASH: u8 = 47;
/// `'?'`
pub const QUESTION: u8 = 63;
/// `'#'`
pub const HASH: u8 = 35;
/// `'@'`
pub const AT: u8 = 64;
/// `'.'`
pub const DOT: u8 = 46;
/// `'+'`
pub const PLUS: u8 = 43;
/// `'-'`
pub const MINUS: u8 = 45;

/// ASCII letter.
pub open spec fn is_alpha(b: u8) -> bool {
    (65 <= b && b <= 90) || (97 <= b && b <= 122)
}

/// ASCII digit.
pub open spec fn is_digit(b: u8) -> bool {
    48 <= b && b <= 57
}

/// A byte allowed in a URL scheme after its first letter.
pub open spec fn is_scheme_char(b: u8) -> bool {
    is_alpha(b) || is_digit(b) || b == PLUS || b == MINUS || b == DOT
}

/// A byte that ends the authority component: the start of a path, query or
/// fragment. A `':'` does not end the authority — user information and a
/// port may hold one — so the scan for `'@'` below covers the authority
/// whole.
pub open spec fn is_authority_end(b: u8) -> bool {
    b == SLASH || b == QUESTION || b == HASH
}

/// A byte allowed in a host: a registered name's charset — letters, digits,
/// the unreserved marks, the sub-delimiters and `'%'` for percent-encoded
/// octets. Notably absent: `':'`, `'/'`, `'@'`, `'\'`, space and every
/// control byte, so nothing a URL parser could read as a delimiter can hide
/// inside an accepted host.
pub open spec fn is_host_byte(b: u8) -> bool {
    is_alpha(b) || is_digit(b) || b == MINUS || b == DOT || b == 95 || b == 126 || b == 33
        || b == 36 || b == 37 || b == 38 || b == 39 || b == 40 || b == 41 || b == 42 || b == PLUS
        || b == 44 || b == 59 || b == 61
}

/// Index of the `':'` that closes the scheme, scanning from `i`: every byte
/// before it must be a scheme character. `None` when the string ends, or a
/// byte that fits neither a scheme nor a `':'` appears, first.
pub open spec fn scheme_colon(s: Seq<u8>, i: int) -> Option<int>
    recommends
        0 <= i <= s.len(),
    decreases s.len() - i when 0 <= i <= s.len()
{
    if i >= s.len() {
        None
    } else if s[i] == COLON {
        Some(i)
    } else if is_scheme_char(s[i]) {
        scheme_colon(s, i + 1)
    } else {
        None
    }
}

/// Index of the first authority-ending byte at or after `i`, or the length
/// of the string when there is none.
pub open spec fn authority_close(s: Seq<u8>, i: int) -> int
    recommends
        0 <= i <= s.len(),
    decreases s.len() - i when 0 <= i <= s.len()
{
    if i >= s.len() {
        s.len() as int
    } else if is_authority_end(s[i]) {
        i
    } else {
        authority_close(s, i + 1)
    }
}

/// Index of the first `':'` at or after `i`, or the length of the string
/// when there is none.
pub open spec fn colon_close(s: Seq<u8>, i: int) -> int
    recommends
        0 <= i <= s.len(),
    decreases s.len() - i when 0 <= i <= s.len()
{
    if i >= s.len() {
        s.len() as int
    } else if s[i] == COLON {
        i
    } else {
        colon_close(s, i + 1)
    }
}

/// The authority `s[a0..ae]` carries user information: an `'@'` somewhere
/// before the path, query or fragment.
pub open spec fn authority_has_userinfo(s: Seq<u8>, a0: int, ae: int) -> bool {
    exists|j: int| a0 <= j < ae && s[j] == AT
}

/// Where the host inside the authority `s[a0..ae]` ends: at the authority's
/// first `':'` (the port separator), or with the authority itself.
pub open spec fn authority_host_end(s: Seq<u8>, a0: int, ae: int) -> int {
    if colon_close(s, a0) < ae {
        colon_close(s, a0)
    } else {
        ae
    }
}

/// Every byte of `h` belongs to the host charset.
pub open spec fn host_bytes_ok(h: Seq<u8>) -> bool {
    forall|j: int| 0 <= j < h.len() ==> is_host_byte(h[j])
}

/// The host inside the authority `s[a0..ae]`: refused whole if any `'@'`
/// occurs in the authority (user information is never split off — the
/// validator fails closed on it); otherwise the bytes up to the authority's
/// first `':'`, which must be non-empty and all of the host charset.
pub open spec fn host_in_authority(s: Seq<u8>, a0: int, ae: int) -> Option<Seq<u8>> {
    if authority_has_userinfo(s, a0, ae) {
        None
    } else {
        let h = s.subrange(a0, authority_host_end(s, a0, ae));
        if h.len() == 0 || !host_bytes_ok(h) {
            None
        } else {
            Some(h)
        }
    }
}

/// The host component of `s` read as an absolute URL: a scheme (a letter,
/// then scheme characters) closed by `"://"`, then the host of the
/// authority that runs up to the first `'/'`, `'?'` or `'#'`.
pub open spec fn spec_host_of(s: Seq<u8>) -> Option<Seq<u8>> {
    match scheme_colon(s, 0) {
        None => None,
        Some(c) => {
            if c < 1 || !is_alpha(s[0]) {
                None
            } else if c + 3 > s.len() || s[c + 1] != SLASH || s[c + 2] != SLASH {
                None
            } else {
                host_in_authority(s, c + 3, authority_close(s, c + 3))
            }
        },
    }
}

/// `s` ends with `suffix`.
pub open spec fn ends_with(s: Seq<u8>, suffix: Seq<u8>) -> bool {
    s.len() >= suffix.len() && s.subrange(s.len() - suffix.len(), s.len() as int) == suffix
}

/// The matching rule, case-insensitive on both sides: the host is the domain
/// itself, or a strict subdomain of it (the host ends with `'.'` then the
/// domain).
pub open spec fn host_matches_domain(host: Seq<u8>, domain: Seq<u8>) -> bool {
    let h = seq_lower(host);
    let d = seq_lower(domain);
    h == d || ends_with(h, seq![DOT].add(d))
}

/// Some allowed domain matches the host.
pub open spec fn accepts_host(domains: Seq<Seq<u8>>, host: Seq<u8>) -> bool {
    exists|i: int| 0 <= i < domains.len() && host_matches_domain(host, domains[i])
}

/// What the validator decides on a whole URL: parse out the host, then match
/// it against the allowed domains; no host, no acceptance.
pub open spec fn spec_is_valid_callback(url: Seq<u8>, domains: Seq<Seq<u8>>) -> bool {
    match spec_host_of(url) {
        None => false,
        Some(h) => accepts_host(domains, h),
    }
}

/// The immutable set of registered root domains a callback host is checked
/// against. Fixed at construction and never mutated.
pub struct AllowedDomainSet {
    domains: Vec<Vec<u8>>,
}

impl View for AllowedDomainSet {
    type V = Seq<Seq<u8>>;

    closed spec fn view(&self) -> Seq<Seq<u8>> {
        self.domains@.map_values(|d: Vec<u8>| d@)
    }
}

impl AllowedDomainSet {
    /// Builds the set from the configured root domains, kept as given.
    pub fn new(domains: Vec<Vec<u8>>) -> (r: AllowedDomainSet)
        ensures
            r@ == domains@.map_values(|d: Vec<u8>| d@),
    {
        AllowedDomainSet { domains }
    }

    /// How many domains are registered.
    pub fn len(&self) -> (r: usize)
        ensures
            r == self@.len(),
    {
        self.domains.len()
    }

    /// True when some registered domain matches `host` under the subdomain
    /// rule.
    pub fn accepts(&self, host: &[u8]) -> (r: bool)
        ensures
            r == accepts_host(self@, host@),
    {
        let mut i: usize = 0;
        while i < self.domains.len()
            invariant
                i <= self.domains.len(),
                forall|j: int| 0 <= j < i ==> !host_matches_domain(host@, self@[j]),
            decreases self.domains.len() - i,
        {
            if host_matches(host, self.domains[i].as_slice()) {
                proof {
                    assert(self@[i as int] == self.domains@[i as int]@);
                    assert(host_matches_domain(host@, self@[i as int]));
                }
                return true;
            }
            i = i + 1;
        }
        false
    }
}

/// Executable form of the matching rule.
pub fn host_matches(host: &[u8], domain: &[u8]) -> (r: bool)
    ensures
        r == host_matches_domain(host@, domain@),
{
    let h = lower_bytes(host);
    let d = lower_bytes(domain);
    if bytes_eq(h.as_slice(), d.as_slice()) {
        return true;
    }
    if h.len() <= d.len() {
        proof {
            assert(!ends_with(h@, seq![DOT].add(d@)));
        }
        return false;
    }
    let start = h.len() - d.len() - 1;
    if h[start] != DOT {
        proof {
            assert(seq![DOT].add(d@)[0] == DOT);
            assert(!ends_with(h@, seq![DOT].add(d@)));
        }
        return false;
    }
    let mut k: usize = 0;
    while k < d.len()
        invariant
            k <= d.len(),
            h.len() == host@.len(),
            d.len() == domain@.len(),
            h@ == seq_lower(host@),
            d@ == seq_lower(domain@),
            h.len() > d.len(),
            start == h.len() - d.len() - 1,
            h@[start as int] == DOT,
            forall|j: int| 0 <= j < k ==> h@[start + 1 + j] == d@[j],
        decreases d.len() - k,
    {
        if h[start + 1 + k] != d[k] {
            proof {
                assert(seq![DOT].add(d@)[1 + k] == d@[k as int]);
                assert(!ends_with(h@, seq![DOT].add(d@)));
            }
            return false;
        }
        k = k + 1;
    }
    proof {
        let suf = seq![DOT].add(d@);
        assert(h@.subrange(h@.len() - suf.len(), h@.len() as int) =~= suf);
    }
    true
}

/// `colon_close` never moves backwards and never passes the end.
pub proof fn lemma_colon_close_bounds(s: Seq<u8>, i: int)
    requires
        0 <= i <= s.len(),
    ensures
        i <= colon_close(s, i) <= s.len(),
    decreases s.len() - i,
{
    if i < s.len() && s[i] != COLON {
        lemma_colon_close_bounds(s, i + 1);
    }
}

/// Scanning for a `':'` may start anywhere inside a colon-free run.
pub proof fn lemma_colon_close_skip(s: Seq<u8>, i: int, e: int)
    requires
        0 <= i <= e <= s.len(),
        forall|j: int| i <= j < e ==> s[j] != COLON,
    ensures
        colon_close(s, i) == colon_close(s, e),
    decreases e - i,
{
    if i < e {
        lemma_colon_close_skip(s, i + 1, e);
    }
}

/// Executable test for a scheme character.
fn scheme_char(b: u8) -> (r: bool)
    ensures
        r == is_scheme_char(b),
{
    (65 <= b && b <= 90) || (97 <= b && b <= 122) || (48 <= b && b <= 57) || b == PLUS
        || b == MINUS || b == DOT
}

/// Executable test for an authority-ending byte.
fn authority_end_byte(b: u8) -> (r: bool)
    ensures
        r == is_authority_end(b),
{
    b == SLASH || b == QUESTION || b == HASH
}

/// Executable test for a host byte.
fn host_byte(b: u8) -> (r: bool)
    ensures
        r == is_host_byte(b),
{
    (65 <= b && b <= 90) || (97 <= b && b <= 122) || (48 <= b && b <= 57) || b == MINUS
        || b == DOT || b == 95 || b == 126 || b == 33 || b == 36 || b == 37 || b == 38 || b == 39
        || b == 40 || b == 41 || b == 42 || b == PLUS || b == 44 || b == 59 || b == 61
}

/// Finds the `':'` that closes the scheme, checking every byte before it.
fn find_scheme_colon(url: &[u8]) -> (r: Option<usize>)
    ensures
        match r {
            Some(c) => scheme_colon(url@, 0) == Some(c as int) && c < url@.len(),
            None => scheme_colon(url@, 0) is None,
        },
{
    let mut i: usize = 0;
    while i < url.len()
        invariant
            i <= url.len(),
            scheme_colon(url@, 0) == scheme_colon(url@, i as int),
        decreases url.len() - i,
    {
        let b = url[i];
        if b == COLON {
            return Some(i);
        }
        if !scheme_char(b) {
            return None;
        }
        i = i + 1;
    }
    None
}

/// Finds the end of the authority that starts at `i`.
fn find_authority_end(url: &[u8], i: usize) -> (r: usize)
    requires
        i <= url@.len(),
    ensures
        r == authority_close(url@, i as int),
        i <= r <= url@.len(),
{
    let mut j: usize = i;
    while j < url.len()
        invariant
            i <= j <= url.len(),
            authority_close(url@, i as int) == authority_close(url@, j as int),
        decreases url.len() - j,
    {
        if authority_end_byte(url[j]) {
            return j;
        }
        j = j + 1;
    }
    j
}

/// Finds where the host inside the authority `url[h0..ae]` ends: at the
/// authority's first `':'`, or with the authority itself.
fn find_port_colon(url: &[u8], h0: usize, ae: usize) -> (r: usize)
    requires
        h0 <= ae <= url@.len(),
    ensures
        r == authority_host_end(url@, h0 as int, ae as int),
        h0 <= r <= ae,
{
    let mut j: usize = h0;
    while j < ae
        invariant
            h0 <= j <= ae <= url@.len(),
            colon_close(url@, h0 as int) == colon_close(url@, j as int),
        decreases ae - j,
    {
        if url[j] == COLON {
            return j;
        }
        j = j + 1;
    }
    proof {
        lemma_colon_close_bounds(url@, ae as int);
    }
    ae
}

/// Copies the host out of the authority `url[h0..ae]`: refuses the whole
/// authority on any `'@'`, then an empty host and any byte outside the host
/// charset.
fn read_host(url: &[u8], h0: usize, ae: usize) -> (r: Option<Vec<u8>>)
    requires
        h0 <= ae <= url@.len(),
    ensures
        match r {
            Some(h) => host_in_authority(url@, h0 as int, ae as int) == Some(h@),
            None => host_in_authority(url@, h0 as int, ae as int) is None,
        },
{
    let mut j: usize = h0;
    while j < ae
        invariant
            h0 <= j <= ae <= url@.len(),
            forall|k: int| h0 <= k < j ==> url@[k] != AT,
        decreases ae - j,
    {
        if url[j] == AT {
            proof {
                assert(authority_has_userinfo(url@, h0 as int, ae as int));
            }
            return None;
        }
        j = j + 1;
    }
    proof {
        assert(!authority_has_userinfo(url@, h0 as int, ae as int));
    }
    let he = find_port_colon(url, h0, ae);
    if he == h0 {
        proof {
            assert(url@.subrange(h0 as int, h0 as int).len() == 0);
        }
        return None;
    }
    let mut hv: Vec<u8> = Vec::new();
    let mut k: usize = h0;
    while k < he
        invariant
            h0 <= k <= he <= ae <= url@.len(),
            h0 < he,
            he as int == authority_host_end(url@, h0 as int, ae as int),
            !authority_has_userinfo(url@, h0 as int, ae as int),
            hv@ == url@.subrange(h0 as int, k as int),
            forall|m: int| 0 <= m < hv@.len() ==> is_host_byte(hv@[m]),
        decreases he - k,
    {
        let b = url[k];
        if !host_byte(b) {
            proof {
                let h = url@.subrange(h0 as int, he as int);
                assert(h[k - h0] == url@[k as int]);
                assert(!host_bytes_ok(h));
            }
            return None;
        }
        hv.push(b);
        k = k + 1;
        proof {
            assert(hv@ =~= url@.subrange(h0 as int, k as int));
        }
    }
    proof {
        let h = url@.subrange(h0 as int, he as int);
        assert(hv@ == h);
        assert(host_bytes_ok(h));
    }
    Some(hv)
}

/// Extracts the host component of `url`, or `None` when `url` is no absolute
/// URL with a host.
pub fn extract_host(url: &[u8]) -> (r: Option<Vec<u8>>)
    ensures
        match r {
            Some(h) => spec_host_of(url@) == Some(h@),
            None => spec_host_of(url@) is None,
        },
{
    let c = match find_scheme_colon(url) {
        None => {
            return None;
        },
        Some(c) => c,
    };
    if c < 1 || !(65 <= url[0] && url[0] <= 90) && !(97 <= url[0] && url[0] <= 122) {
        return None;
    }
    if url.len() - c <= 2 {
        return None;
    }
    if url[c + 1] != SLASH || url[c + 2] != SLASH {
        return None;
    }
    let h0 = c + 3;
    let ae = find_authority_end(url, h0);
    read_host(url, h0, ae)
}

/// The scheme of every URL the laws below speak of: the bytes of `http://`.
pub open spec fn http_prefix() -> Seq<u8> {
    seq![104u8, 116, 116, 112, 58, 47, 47]
}

/// A run of scheme characters closed by a `':'` is found as the scheme
/// colon, wherever the scan starts inside the run.
pub proof fn lemma_scheme_run(s: Seq<u8>, i: int, e: int)
    requires
        0 <= i <= e < s.len(),
        forall|j: int| i <= j < e ==> is_scheme_char(s[j]),
        s[e] == COLON,
    ensures
        scheme_colon(s, i) == Some(e),
    decreases e - i,
{
    if i < e {
        assert(!is_scheme_char(COLON));
        lemma_scheme_run(s, i + 1, e);
    }
}

/// A run of non-terminating bytes that ends at a terminator (or at the end
/// of the string) closes the authority exactly there.
pub proof fn lemma_authority_close_run(s: Seq<u8>, i: int, e: int)
    requires
        0 <= i <= e <= s.len(),
        forall|j: int| i <= j < e ==> !is_authority_end(s[j]),
        e == s.len() || is_authority_end(s[e]),
    ensures
        authority_close(s, i) == e,
    decreases e - i,
{
    if i < e {
        lemma_authority_close_run(s, i + 1, e);
    }
}

/// A host byte is no delimiter: not a `':'`, not an `'@'`, and it never
/// ends the authority.
pub proof fn lemma_host_byte_no_delimiter()
    ensures
        forall|b: u8| is_host_byte(b) ==> b != COLON && b != AT && !is_authority_end(b),
{
}

/// The parser reads the host back out of a well-formed URL: for any host
/// `h` of host bytes, any port segment (a `':'` then bytes free of `'@'`
/// and of authority ends, or nothing) and any tail that starts with a path,
/// query or fragment separator (or is empty), `http://` ++ `h` ++ port ++
/// tail parses to exactly `h`.
pub proof fn lemma_http_host(h: Seq<u8>, port: Seq<u8>, tail: Seq<u8>)
    requires
        h.len() > 0,
        forall|j: int| 0 <= j < h.len() ==> is_host_byte(h[j]),
        port.len() == 0 || port[0] == COLON,
        forall|j: int| 0 <= j < port.len() ==> port[j] != AT && !is_authority_end(port[j]),
        tail.len() == 0 || is_authority_end(tail[0]),
    ensures
        spec_host_of(http_prefix().add(h).add(port).add(tail)) == Some(h),
{
    let s = http_prefix().add(h).add(port).add(tail);
    let hl = h.len() as int;
    let ae = 7 + hl + port.len() as int;
    lemma_host_byte_no_delimiter();
    assert(s.len() == ae + tail.len());
    assert forall|j: int| 0 <= j < 7 implies s[j] == http_prefix()[j] by {}
    assert forall|j: int| 7 <= j < 7 + hl implies s[j] == h[j - 7] by {}
    assert forall|j: int| 7 + hl <= j < ae implies s[j] == port[j - 7 - hl] by {}
    assert(s[0] == 104 && s[1] == 116 && s[2] == 116 && s[3] == 112);
    assert(s[4] == COLON && s[5] == SLASH && s[6] == SLASH);
    lemma_scheme_run(s, 0, 4);
    lemma_authority_close_run(s, 7, ae);
    assert forall|j: int| 7 <= j < ae implies s[j] != AT by {}
    assert(!authority_has_userinfo(s, 7, ae));
    lemma_colon_close_skip(s, 7, 7 + hl);
    if port.len() == 0 {
        lemma_colon_close_bounds(s, 7 + hl);
        assert(colon_close(s, 7) >= ae);
    } else {
        assert(s[7 + hl] == COLON);
        assert(colon_close(s, 7 + hl) == 7 + hl);
        assert(colon_close(s, 7) == 7 + hl && 7 + hl < ae);
    }
    assert(authority_host_end(s, 7, ae) == 7 + hl);
    assert(s.subrange(7, 7 + hl) =~= h);
    assert(host_bytes_ok(s.subrange(7, 7 + hl)));
    assert(host_in_authority(s, 7, ae) == Some(h));
}

/// A string that does not parse as an absolute URL with a host is never a
/// valid callback, whatever the allowed domains are: the validator fails
/// closed.
pub proof fn lemma_unparseable_rejected(url: Seq<u8>, domains: Seq<Seq<u8>>)
    requires
        spec_host_of(url) is None,
    ensures
        !spec_is_valid_callback(url, domains),
{
}

/// Any URL whose authority carries user information — an `'@'` between
/// `"://"` and the first path, query or fragment separator — is rejected,
/// whatever stands on either side of the `'@'`: the validator never splits
/// an authority, it fails closed.
pub proof fn lemma_userinfo_rejected(url: Seq<u8>, domains: Seq<Seq<u8>>, c: int, j: int)
    requires
        scheme_colon(url, 0) == Some(c),
        0 <= c && c + 3 <= url.len(),
        c + 3 <= j < authority_close(url, c + 3),
        url[j] == AT,
    ensures
        !spec_is_valid_callback(url, domains),
{
}

/// An allowed domain, or any strict subdomain of one, is a valid callback
/// host, case-insensitively, whatever port, path or query follows it.
pub proof fn lemma_allowed_host_accepted(
    h: Seq<u8>,
    port: Seq<u8>,
    tail: Seq<u8>,
    domains: Seq<Seq<u8>>,
    i: int,
)
    requires
        0 <= i < domains.len(),
        h.len() > 0,
        forall|j: int| 0 <= j < h.len() ==> is_host_byte(h[j]),
        port.len() == 0 || port[0] == COLON,
        forall|j: int| 0 <= j < port.len() ==> port[j] != AT && !is_authority_end(port[j]),
        tail.len() == 0 || is_authority_end(tail[0]),
        seq_lower(h) == seq_lower(domains[i]) || ends_with(
            seq_lower(h),
            seq![DOT].add(seq_lower(domains[i])),
        ),
    ensures
        spec_is_valid_callback(http_prefix().add(h).add(port).add(tail), domains),
{
    lemma_http_host(h, port, tail);
    assert(host_matches_domain(h, domains[i]));
}

/// A host that matches no allowed domain under the dot-boundary rule is
/// rejected: merely containing an allowed domain as a substring grants
/// nothing.
pub proof fn lemma_no_boundary_rejected(url: Seq<u8>, h: Seq<u8>, domains: Seq<Seq<u8>>)
    requires
        spec_host_of(url) == Some(h),
        forall|i: int| 0 <= i < domains.len() ==> seq_lower(h) != seq_lower(domains[i])
            && !ends_with(seq_lower(h), seq![DOT].add(seq_lower(domains[i]))),
    ensures
        !spec_is_valid_callback(url, domains),
{
    assert forall|i: int| 0 <= i < domains.len() implies !host_matches_domain(h, domains[i]) by {}
}

/// Acceptance forces the dot boundary: a valid callback's host is,
/// lowercased, an allowed domain itself or ends with a dot and an allowed
/// domain.
pub proof fn lemma_valid_needs_dot_boundary(url: Seq<u8>, domains: Seq<Seq<u8>>)
    requires
        spec_is_valid_callback(url, domains),
    ensures
        spec_host_of(url) is Some,
        exists|i: int|
            0 <= i < domains.len() && (seq_lower(spec_host_of(url)->0) == seq_lower(domains[i])
                || ends_with(
                    seq_lower(spec_host_of(url)->0),
                    seq![DOT].add(seq_lower(domains[i])),
                )),
{
    let h = spec_host_of(url)->0;
    let i = choose|i: int| 0 <= i < domains.len() && host_matches_domain(h, domains[i]);
    assert(seq_lower(h) == seq_lower(domains[i]) || ends_with(
        seq_lower(h),
        seq![DOT].add(seq_lower(domains[i])),
    ));
}

/// The host alone decides: a port, path or query behind a well-formed host
/// never changes the validity decision.
pub proof fn lemma_suffix_irrelevant(h: Seq<u8>, port: Seq<u8>, tail: Seq<u8>, domains: Seq<Seq<u8>>)
    requires
        h.len() > 0,
        forall|j: int| 0 <= j < h.len() ==> is_host_byte(h[j]),
        port.len() == 0 || port[0] == COLON,
        forall|j: int| 0 <= j < port.len() ==> port[j] != AT && !is_authority_end(port[j]),
        tail.len() == 0 || is_authority_end(tail[0]),
    ensures
        spec_is_valid_callback(http_prefix().add(h).add(port).add(tail), domains)
            == spec_is_valid_callback(http_prefix().add(h), domains),
{
    lemma_http_host(h, port, tail);
    lemma_http_host(h, Seq::empty(), Seq::empty());
    assert(http_prefix().add(h).add(Seq::empty()).add(Seq::empty()) =~= http_prefix().add(h));
}

/// The validator itself: accept `url` iff it parses as an absolute URL with
/// a host and that host matches an allowed domain, case-insensitively.
pub fn is_valid_callback(url: &[u8], allowed: &AllowedDomainSet) -> (r: bool)
    ensures
        r == spec_is_valid_callback(url@, allowed@),
{
    match extract_host(url) {
        None => false,
        Some(h) => allowed.accepts(h.as_slice()),
    }
}

} // verus!
