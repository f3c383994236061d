//! The user-identity record and its wire format. The identity service
//! answers a lookup with a JSON object of exactly three required string
//! fields, camel-cased on the wire: `accountName`, `upn` and `email`. The
//! parser here accepts precisely that shape — one object, those three
//! members once each in any order, string values without escape sequences,
//! whitespace wherever JSON allows it — and nothing else. Anything outside
//! the schema is refused, and the caller maps the refusal to an
//! authorization failure.

use vstd::prelude::*;

use crate::bytes::bytes_eq;

verus! {

/// `'"'`
pub const QUOTE: u8 = 34;
/// `'\'`
pub const BACKSLASH: u8 = 92;
/// `'{'`
pub const LBRACE: u8 = 123;
/// `'}'`
pub const RBRACE: u8 = 125;
/// `','`
pub const COMMA: u8 = 44;
/// `':'`
pub const COLON_SEP: u8 = 58;

/// JSON insignificant whitespace: space, tab, line feed, carriage return.
pub open spec fn is_ws(b: u8) -> bool {
    b == 32 || b == 9 || b == 10 || b == 13
}

/// Index of the first non-whitespace byte at or after `i`, or the length of
/// the string when there is none.
pub open spec fn ws_end(s: Seq<u8>, i: int) -> int
    recommends
        0 <= i <= s.len(),
    decreases s.len() - i when 0 <= i <= s.len()
{
    if i >= s.len() {
        s.len() as int
    } else if is_ws(s[i]) {
        ws_end(s, i + 1)
    } else {
        i
    }
}

/// Index of the quote that closes a string's content, scanning from `i`:
/// every byte before it must be plain content. `None` when the string ends,
/// or an escape-introducing backslash appears, first.
pub open spec fn scan_quote(s: Seq<u8>, i: int) -> Option<int>
    recommends
        0 <= i <= s.len(),
    decreases s.len() - i when 0 <= i <= s.len()
{
    if i >= s.len() {
        None
    } else if s[i] == QUOTE {
        Some(i)
    } else if s[i] == BACKSLASH {
        None
    } else {
        scan_quote(s, i + 1)
    }
}

/// A JSON string literal at `i`: an opening quote, plain content, a closing
/// quote. Yields the content and the index just past the closing quote.
pub open spec fn parse_string(s: Seq<u8>, i: int) -> Option<(Seq<u8>, int)> {
    if 0 <= i < s.len() && s[i] == QUOTE {
        match scan_quote(s, i + 1) {
            None => None,
            Some(e) => Some((s.subrange(i + 1, e), e + 1)),
        }
    } else {
        None
    }
}

/// One object member at `i`: a string key, `':'`, a string value, with
/// whitespace around the tokens. Yields key, value and the next index.
pub open spec fn parse_member(s: Seq<u8>, i: int) -> Option<(Seq<u8>, Seq<u8>, int)> {
    match parse_string(s, ws_end(s, i)) {
        None => None,
        Some((key, a)) => {
            let c = ws_end(s, a);
            if c < s.len() && s[c] == COLON_SEP {
                match parse_string(s, ws_end(s, c + 1)) {
                    None => None,
                    Some((val, b)) => Some((key, val, b)),
                }
            } else {
                None
            }
        },
    }
}

/// The wire key `accountName`.
pub open spec fn key_account_name() -> Seq<u8> {
    seq![97u8, 99, 99, 111, 117, 110, 116, 78, 97, 109, 101]
}

/// The wire key `upn`.
pub open spec fn key_upn() -> Seq<u8> {
    seq![117u8, 112, 110]
}

/// The wire key `email`.
pub open spec fn key_email() -> Seq<u8> {
    seq![101u8, 109, 97, 105, 108]
}

/// The mathematical form of a user identity: the three attribute values.
pub struct UserIdentityView {
    pub account_name: Seq<u8>,
    pub upn: Seq<u8>,
    pub email: Seq<u8>,
}

/// Sorts three key/value pairs into the record, in whichever order the keys
/// came; `None` unless the keys are exactly the three of the schema, which
/// also rules out a duplicated key.
pub open spec fn assemble(
    k1: Seq<u8>, v1: Seq<u8>,
    k2: Seq<u8>, v2: Seq<u8>,
    k3: Seq<u8>, v3: Seq<u8>,
) -> Option<UserIdentityView> {
    if k1 == key_account_name() && k2 == key_upn() && k3 == key_email() {
        Some(UserIdentityView { account_name: v1, upn: v2, email: v3 })
    } else if k1 == key_account_name() && k2 == key_email() && k3 == key_upn() {
        Some(UserIdentityView { account_name: v1, upn: v3, email: v2 })
    } else if k1 == key_upn() && k2 == key_account_name() && k3 == key_email() {
        Some(UserIdentityView { account_name: v2, upn: v1, email: v3 })
    } else if k1 == key_upn() && k2 == key_email() && k3 == key_account_name() {
        Some(UserIdentityView { account_name: v3, upn: v1, email: v2 })
    } else if k1 == key_email() && k2 == key_account_name() && k3 == key_upn() {
        Some(UserIdentityView { account_name: v2, upn: v3, email: v1 })
    } else if k1 == key_email() && k2 == key_upn() && k3 == key_account_name() {
        Some(UserIdentityView { account_name: v3, upn: v2, email: v1 })
    } else {
        None
    }
}

/// The whole response body: one JSON object holding exactly the three
/// members of the schema, then end of input.
pub open spec fn spec_parse_identity(s: Seq<u8>) -> Option<UserIdentityView> {
    let o = ws_end(s, 0);
    if !(o < s.len() && s[o] == LBRACE) {
        None
    } else {
        match parse_member(s, o + 1) {
            None => None,
            Some((k1, v1, a)) => {
                let c1 = ws_end(s, a);
                if !(c1 < s.len() && s[c1] == COMMA) {
                    None
                } else {
                    match parse_member(s, c1 + 1) {
                        None => None,
                        Some((k2, v2, b)) => {
                            let c2 = ws_end(s, b);
                            if !(c2 < s.len() && s[c2] == COMMA) {
                                None
                            } else {
                                match parse_member(s, c2 + 1) {
                                    None => None,
                                    Some((k3, v3, c)) => {
                                        let r = ws_end(s, c);
                                        if !(r < s.len() && s[r] == RBRACE) {
                                            None
                                        } else if ws_end(s, r + 1) != s.len() {
                                            None
                                        } else {
                                            assemble(k1, v1, k2, v2, k3, v3)
                                        }
                                    },
                                }
                            }
                        },
                    }
                }
            },
        }
    }
}

/// A user's identity as the identity service reports it: account name,
/// principal name, email. Built per request from the service's response and
/// returned to the caller.
pub struct UserIdentity {
    pub account_name: Vec<u8>,
    pub upn: Vec<u8>,
    pub email: Vec<u8>,
}

impl View for UserIdentity {
    type V = UserIdentityView;

    open spec fn view(&self) -> UserIdentityView {
        UserIdentityView {
            account_name: self.account_name@,
            upn: self.upn@,
            email: self.email@,
        }
    }
}

/// Skips insignificant whitespace.
fn ws_skip(s: &[u8], i: usize) -> (r: usize)
    requires
        i <= s@.len(),
    ensures
        r == ws_end(s@, i as int),
        i <= r <= s@.len(),
{
    let mut j: usize = i;
    while j < s.len()
        invariant
            i <= j <= s.len(),
            ws_end(s@, i as int) == ws_end(s@, j as int),
        decreases s.len() - j,
    {
        let b = s[j];
        if !(b == 32 || b == 9 || b == 10 || b == 13) {
            return j;
        }
        j = j + 1;
    }
    j
}

/// Reads one string literal, handing back its content and the index just
/// past the closing quote.
fn read_string(s: &[u8], i: usize) -> (r: Option<(Vec<u8>, usize)>)
    requires
        i <= s@.len(),
    ensures
        match r {
            Some(p) => parse_string(s@, i as int) == Some((p.0@, p.1 as int)) && p.1 <= s@.len(),
            None => parse_string(s@, i as int) is None,
        },
{
    if i >= s.len() || s[i] != QUOTE {
        return None;
    }
    let mut cv: Vec<u8> = Vec::new();
    let mut j: usize = i + 1;
    while j < s.len()
        invariant
            i + 1 <= j <= s.len(),
            i < s.len(),
            s@[i as int] == QUOTE,
            scan_quote(s@, i + 1) == scan_quote(s@, j as int),
            cv@ == s@.subrange(i + 1, j as int),
        decreases s.len() - j,
    {
        let b = s[j];
        if b == QUOTE {
            return Some((cv, j + 1));
        }
        if b == BACKSLASH {
            return None;
        }
        cv.push(b);
        j = j + 1;
        proof {
            assert(cv@ =~= s@.subrange(i + 1, j as int));
        }
    }
    None
}

/// Reads one `"key": "value"` member, handing back key, value and the next
/// index.
fn read_member(s: &[u8], i: usize) -> (r: Option<(Vec<u8>, Vec<u8>, usize)>)
    requires
        i <= s@.len(),
    ensures
        match r {
            Some(t) => parse_member(s@, i as int) == Some((t.0@, t.1@, t.2 as int))
                && t.2 <= s@.len(),
            None => parse_member(s@, i as int) is None,
        },
{
    let k0 = ws_skip(s, i);
    let (key, a) = match read_string(s, k0) {
        None => {
            return None;
        },
        Some(p) => p,
    };
    let c = ws_skip(s, a);
    if c >= s.len() || s[c] != COLON_SEP {
        return None;
    }
    let v0 = ws_skip(s, c + 1);
    match read_string(s, v0) {
        None => None,
        Some((val, b)) => Some((key, val, b)),
    }
}

/// The wire key `accountName` as bytes.
fn account_name_key() -> (r: Vec<u8>)
    ensures
        r@ == key_account_name(),
{
    let mut v: Vec<u8> = Vec::new();
    v.push(97);
    v.push(99);
    v.push(99);
    v.push(111);
    v.push(117);
    v.push(110);
    v.push(116);
    v.push(78);
    v.push(97);
    v.push(109);
    v.push(101);
    proof {
        assert(v@ =~= key_account_name());
    }
    v
}

/// The wire key `upn` as bytes.
fn upn_key() -> (r: Vec<u8>)
    ensures
        r@ == key_upn(),
{
    let mut v: Vec<u8> = Vec::new();
    v.push(117);
    v.push(112);
    v.push(110);
    proof {
        assert(v@ =~= key_upn());
    }
    v
}

/// The wire key `email` as bytes.
fn email_key() -> (r: Vec<u8>)
    ensures
        r@ == key_email(),
{
    let mut v: Vec<u8> = Vec::new();
    v.push(101);
    v.push(109);
    v.push(97);
    v.push(105);
    v.push(108);
    proof {
        assert(v@ =~= key_email());
    }
    v
}

/// Sorts the three parsed members into the record, mirroring `assemble`.
fn assemble_identity(k1: Vec<u8>, v1: Vec<u8>, k2: Vec<u8>, v2: Vec<u8>, k3: Vec<u8>, v3: Vec<u8>)
    -> (r: Option<UserIdentity>)
    ensures
        match r {
            Some(u) => assemble(k1@, v1@, k2@, v2@, k3@, v3@) == Some(u@),
            None => assemble(k1@, v1@, k2@, v2@, k3@, v3@) is None,
        },
{
    let ka = account_name_key();
    let ku = upn_key();
    let ke = email_key();
    let k1a = bytes_eq(k1.as_slice(), ka.as_slice());
    let k1u = bytes_eq(k1.as_slice(), ku.as_slice());
    let k1e = bytes_eq(k1.as_slice(), ke.as_slice());
    let k2a = bytes_eq(k2.as_slice(), ka.as_slice());
    let k2u = bytes_eq(k2.as_slice(), ku.as_slice());
    let k2e = bytes_eq(k2.as_slice(), ke.as_slice());
    let k3a = bytes_eq(k3.as_slice(), ka.as_slice());
    let k3u = bytes_eq(k3.as_slice(), ku.as_slice());
    let k3e = bytes_eq(k3.as_slice(), ke.as_slice());
    if k1a && k2u && k3e {
        Some(UserIdentity { account_name: v1, upn: v2, email: v3 })
    } else if k1a && k2e && k3u {
        Some(UserIdentity { account_name: v1, upn: v3, email: v2 })
    } else if k1u && k2a && k3e {
        Some(UserIdentity { account_name: v2, upn: v1, email: v3 })
    } else if k1u && k2e && k3a {
        Some(UserIdentity { account_name: v3, upn: v1, email: v2 })
    } else if k1e && k2a && k3u {
        Some(UserIdentity { account_name: v2, upn: v3, email: v1 })
    } else if k1e && k2u && k3a {
        Some(UserIdentity { account_name: v3, upn: v2, email: v1 })
    } else {
        None
    }
}

/// Parses a response body against the wire schema: one JSON object with
/// exactly the members `accountName`, `upn` and `email`, each a plain
/// string, in any order.
pub fn parse_identity(body: &[u8]) -> (r: Option<UserIdentity>)
    ensures
        match r {
            Some(u) => spec_parse_identity(body@) == Some(u@),
            None => spec_parse_identity(body@) is None,
        },
{
    let o = ws_skip(body, 0);
    if o >= body.len() || body[o] != LBRACE {
        return None;
    }
    let (k1, v1, a) = match read_member(body, o + 1) {
        None => {
            return None;
        },
        Some(t) => t,
    };
    let c1 = ws_skip(body, a);
    if c1 >= body.len() || body[c1] != COMMA {
        return None;
    }
    let (k2, v2, b) = match read_member(body, c1 + 1) {
        None => {
            return None;
        },
        Some(t) => t,
    };
    let c2 = ws_skip(body, b);
    if c2 >= body.len() || body[c2] != COMMA {
        return None;
    }
    let (k3, v3, c) = match read_member(body, c2 + 1) {
        None => {
            return None;
        },
        Some(t) => t,
    };
    let r = ws_skip(body, c);
    if r >= body.len() || body[r] != RBRACE {
        return None;
    }
    if ws_skip(body, r + 1) != body.len() {
        return None;
    }
    assemble_identity(k1, v1, k2, v2, k3, v3)
}

} // verus!
