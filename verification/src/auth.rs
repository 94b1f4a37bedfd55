//! Access check of the dashboard: a request carries its token in the query
//! string or, failing that, in an `Authorization: Bearer` header.
use vstd::prelude::*;
use crate::calibration::{blank, is_blank};

verus! {

/// Query parameters of a dashboard request.
#[derive(Debug, Clone)]
pub struct AuthQuery {
    pub token: Option<String>,
}

/// The header text with every occurrence of `Bearer ` removed, scanning
/// from the left.
pub open spec fn without_bearer(s: Seq<char>) -> Seq<char>
    decreases s.len(),
{
    if s.len() == 0 {
        s
    } else if s.len() >= 7 && s.take(7) == "Bearer "@ {
        without_bearer(s.skip(7))
    } else {
        seq![s[0]] + without_bearer(s.drop_first())
    }
}

/// `Bearer ` starts at position `i` of `s`.
fn bearer_at(s: &str, n: usize, i: usize) -> (b: bool)
    requires
        n == s@.len(),
        i < n,
    ensures
        b == (i + 7 <= n && s@.skip(i as int).take(7) == "Bearer "@),
{
    proof {
        reveal_strlit("Bearer ");
    }
    if n - i < 7 {
        return false;
    }
    let b = s.get_char(i) == 'B' && s.get_char(i + 1) == 'e' && s.get_char(i + 2) == 'a' && s.get_char(i + 3)
        == 'r' && s.get_char(i + 4) == 'e' && s.get_char(i + 5) == 'r' && s.get_char(i + 6) == ' ';
    proof {
        let w = s@.skip(i as int).take(7);
        if b {
            assert(w =~= "Bearer "@);
        } else {
            if w == "Bearer "@ {
                assert(w[0] == 'B' && w[1] == 'e' && w[2] == 'a' && w[3] == 'r' && w[4] == 'e' && w[5] == 'r' && w[6] == ' ');
            }
        }
    }
    b
}

/// The header text with every `Bearer ` removed (as `str::replace` with an
/// empty replacement does).
pub fn strip_bearer(header: &str) -> (r: String)
    ensures
        r@ == without_bearer(header@),
{
    let n = header.unicode_len();
    let mut out = String::new();
    let mut i: usize = 0;
    proof {
        assert(header@.skip(0) =~= header@);
        assert(out@ + without_bearer(header@) =~= without_bearer(header@));
    }
    while i < n
        invariant
            n == header@.len(),
            i <= n,
            out@ + without_bearer(header@.skip(i as int)) == without_bearer(header@),
        decreases n - i,
    {
        let ghost rest = header@.skip(i as int);
        if bearer_at(header, n, i) {
            proof {
                assert(rest.skip(7) =~= header@.skip(i + 7));
            }
            i = i + 7;
        } else {
            let piece = header.substring_char(i, i + 1);
            let ghost before = out@;
            out.append(piece);
            proof {
                assert(piece@ =~= seq![header@[i as int]]);
                assert(rest.drop_first() =~= header@.skip(i + 1));
                assert(rest[0] == header@[i as int]);
                assert(out@ + without_bearer(header@.skip(i + 1)) =~= before + without_bearer(rest));
            }
            i = i + 1;
        }
    }
    proof {
        assert(header@.skip(n as int) =~= Seq::<char>::empty());
        assert(out@ + Seq::<char>::empty() =~= out@);
    }
    out
}

/// The token a request presents: the query's, else the header's without `Bearer `.
pub open spec fn presented_token(query: Option<String>, header: Option<Seq<char>>) -> Option<Seq<char>> {
    match query {
        Some(t) => Some(t@),
        None => match header {
            Some(h) => Some(without_bearer(h)),
            None => None,
        },
    }
}

/// Whether a request may see the dashboard: it presents a token equal to
/// the configured one.
pub fn authorized(query: AuthQuery, authorization: Option<&str>, expected: &str) -> (b: bool)
    ensures
        b == (presented_token(
            query.token,
            match authorization {
                Some(h) => Some(h@),
                None => None,
            },
        ) == Some(expected@)),
{
    let token = match query.token {
        Some(t) => Some(t),
        None => match authorization {
            Some(h) => Some(strip_bearer(h)),
            None => None,
        },
    };
    match token {
        Some(t) => text_eq(t.as_str(), expected),
        None => false,
    }
}

/// Text equality.
pub fn text_eq(a: &str, b: &str) -> (r: bool)
    ensures
        r == (a@ == b@),
{
    let na = a.unicode_len();
    let nb = b.unicode_len();
    if na != nb {
        return false;
    }
    let mut i: usize = 0;
    while i < na
        invariant
            na == a@.len(),
            nb == b@.len(),
            na == nb,
            i <= na,
            forall|j: int| 0 <= j < i ==> a@[j] == b@[j],
        decreases na - i,
    {
        if a.get_char(i) != b.get_char(i) {
            return false;
        }
        i = i + 1;
    }
    proof {
        assert(a@ =~= b@);
    }
    true
}

/// `s` starts with `prefix`.
pub fn text_starts_with(s: &str, prefix: &str) -> (r: bool)
    ensures
        r == prefix@.is_prefix_of(s@),
{
    let ns = s.unicode_len();
    let np = prefix.unicode_len();
    if np > ns {
        return false;
    }
    let mut i: usize = 0;
    while i < np
        invariant
            ns == s@.len(),
            np == prefix@.len(),
            np <= ns,
            i <= np,
            forall|j: int| 0 <= j < i ==> prefix@[j] == s@[j],
        decreases np - i,
    {
        if prefix.get_char(i) != s.get_char(i) {
            return false;
        }
        i = i + 1;
    }
    true
}

/// Why the dashboard refuses to start.
#[derive(Debug, Clone, Copy, PartialEq, Eq, Structural)]
pub enum StartupError {
    /// Bound beyond localhost without explicit permission.
    InsecureRemote,
    /// No access token configured.
    MissingToken,
}

/// The bind address is local.
pub open spec fn is_localhost(addr: Seq<char>) -> bool {
    "127.0.0.1"@.is_prefix_of(addr) || "localhost"@.is_prefix_of(addr)
}

/// The dashboard's start-up verdict.
pub open spec fn startup_verdict(addr: Seq<char>, allow_insecure_remote: bool, token: Seq<char>) -> Result<(), StartupError> {
    if !is_localhost(addr) && !allow_insecure_remote {
        Err(StartupError::InsecureRemote)
    } else if is_blank(token) {
        Err(StartupError::MissingToken)
    } else {
        Ok(())
    }
}

/// Whether the dashboard may start: a non-local bind address needs explicit
/// permission, and an access token must be configured.
pub fn check_startup(bind_address: &str, allow_insecure_remote: bool, auth_token: &str) -> (r: Result<(), StartupError>)
    ensures
        r == startup_verdict(bind_address@, allow_insecure_remote, auth_token@),
{
    let local = text_starts_with(bind_address, "127.0.0.1") || text_starts_with(bind_address, "localhost");
    if !local && !allow_insecure_remote {
        return Err(StartupError::InsecureRemote);
    }
    if blank(auth_token) {
        return Err(StartupError::MissingToken);
    }
    Ok(())
}

} // verus!
