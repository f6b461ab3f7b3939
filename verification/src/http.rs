//! HTTP-side protocol decisions: extracting the target endpoint from a
//! CONNECT request, port defaulting for the forward proxy, the origin-form
//! rewrite applied before dispatching upstream, and the stripping of
//! hop-by-hop `Proxy-*` headers.
//!
//! The HTTP framing itself is done by an outside HTTP library; the functions
//! here receive the already-framed pieces (method, request-target, URI parts,
//! header names) as plain values.

use crate::endpoint::Endpoint;
use vstd::prelude::*;

verus! {

/// The protocol failures an HTTP acceptor can end in.
#[derive(Debug)]
pub enum HttpError {
    /// The inbound request used a method the acceptor does not serve.
    InvalidCommand(String),
    /// A CONNECT request-target that does not carry `host:port`.
    InvalidConnectUrl(String),
    /// A forward-proxy request-target without a host.
    InvalidUrl(String),
    /// The client closed the connection before any request was seen.
    ClosedWithoutRequest,
}

/// Whether `c` is a decimal digit.
pub open spec fn is_digit_char(c: char) -> bool {
    48 <= c as u32 <= 57
}

/// Numeric value of a decimal digit.
pub open spec fn digit_value(c: char) -> int {
    c as u32 - 48
}

/// Whether every character of `s` is a decimal digit.
pub open spec fn all_digits(s: Seq<char>) -> bool {
    forall|i: int| 0 <= i < s.len() ==> is_digit_char(s[i])
}

/// The decimal value of a digit string (0 for the empty string).
pub open spec fn decimal_value(s: Seq<char>) -> int
    decreases s.len(),
{
    if s.len() == 0 {
        0
    } else {
        decimal_value(s.drop_last()) * 10 + digit_value(s.last())
    }
}

/// Index of the last ':' in `s`, or -1 when `s` has none.
pub open spec fn last_colon(s: Seq<char>) -> int
    decreases s.len(),
{
    if s.len() == 0 {
        -1
    } else if s.last() == ':' {
        s.len() - 1
    } else {
        last_colon(s.drop_last())
    }
}

/// Whether `s` is a valid authority-form CONNECT target: a non-empty host,
/// one final ':', and a non-empty all-digit port no larger than 65535.
pub open spec fn connect_target_ok(s: Seq<char>) -> bool {
    let k = last_colon(s);
    &&& k >= 1
    &&& k < s.len() - 1
    &&& all_digits(s.subrange(k + 1, s.len() as int))
    &&& decimal_value(s.subrange(k + 1, s.len() as int)) <= 65535
}

/// The host part of a valid CONNECT target: everything before the last ':'.
pub open spec fn connect_target_host(s: Seq<char>) -> Seq<char> {
    s.subrange(0, last_colon(s))
}

/// The port part of a valid CONNECT target: the digits after the last ':'.
pub open spec fn connect_target_port(s: Seq<char>) -> int {
    decimal_value(s.subrange(last_colon(s) + 1, s.len() as int))
}

proof fn lemma_last_colon_at(s: Seq<char>, k: int)
    requires
        0 <= k < s.len(),
        s[k] == ':',
        forall|t: int| k < t < s.len() ==> s[t] != ':',
    ensures
        last_colon(s) == k,
    decreases s.len(),
{
    if k == s.len() - 1 {
    } else {
        lemma_last_colon_at(s.drop_last(), k);
    }
}

proof fn lemma_last_colon_none(s: Seq<char>)
    requires
        forall|t: int| 0 <= t < s.len() ==> s[t] != ':',
    ensures
        last_colon(s) == -1,
    decreases s.len(),
{
    if s.len() > 0 {
        lemma_last_colon_none(s.drop_last());
    }
}

proof fn lemma_decimal_value_nonneg(s: Seq<char>)
    requires
        all_digits(s),
    ensures
        decimal_value(s) >= 0,
    decreases s.len(),
{
    if s.len() > 0 {
        assert(all_digits(s.drop_last()));
        lemma_decimal_value_nonneg(s.drop_last());
    }
}

/// A digit string is worth at least as much as any of its prefixes.
proof fn lemma_decimal_value_prefix(s: Seq<char>, i: int)
    requires
        all_digits(s),
        0 <= i <= s.len(),
    ensures
        decimal_value(s) >= decimal_value(s.subrange(0, i)),
    decreases s.len() - i,
{
    if i == s.len() {
        assert(s.subrange(0, i) =~= s);
    } else {
        let t = s.subrange(0, i + 1);
        assert(t.drop_last() =~= s.subrange(0, i));
        assert(all_digits(t.drop_last()));
        lemma_decimal_value_nonneg(t.drop_last());
        assert(decimal_value(t) == decimal_value(s.subrange(0, i)) * 10 + digit_value(t.last()));
        lemma_decimal_value_prefix(s, i + 1);
    }
}

/// Index of the last ':' of `s`, scanning from the end.
fn rfind_colon(s: &str) -> (r: Option<usize>)
    ensures
        r matches Some(k) ==> 0 <= k < s@.len() && k == last_colon(s@),
        r is None ==> last_colon(s@) == -1,
{
    let n = s.unicode_len();
    let mut j = n;
    while j > 0
        invariant
            j <= n,
            n == s@.len(),
            forall|t: int| j <= t < n ==> s@[t] != ':',
        decreases j,
    {
        j -= 1;
        if s.get_char(j) == ':' {
            proof {
                lemma_last_colon_at(s@, j as int);
            }
            return Some(j);
        }
    }
    proof {
        lemma_last_colon_none(s@);
    }
    None
}

/// Parse an authority-form CONNECT target `host:port`.
///
/// Succeeds exactly on targets with a non-empty host, a final ':', and a
/// decimal port of at most 65535; the returned host and port are the pieces
/// around the last ':'.
pub fn parse_host_port(target: &str) -> (r: Option<(String, u16)>)
    ensures
        r is Some <==> connect_target_ok(target@),
        r matches Some((h, p)) ==> h@ == connect_target_host(target@) && p == connect_target_port(
            target@,
        ),
{
    let n = target.unicode_len();
    let colon = match rfind_colon(target) {
        Some(k) => k,
        None => {
            return None;
        },
    };
    if colon == 0 || colon + 1 == n {
        return None;
    }
    let mut val: u32 = 0;
    let mut i: usize = colon + 1;
    while i < n
        invariant
            colon + 1 <= i <= n,
            n == target@.len(),
            colon == last_colon(target@),
            0 <= colon < n,
            all_digits(target@.subrange(colon + 1, i as int)),
            val == decimal_value(target@.subrange(colon + 1, i as int)),
            val <= 65535,
        decreases n - i,
    {
        let c = target.get_char(i);
        let u = c as u32;
        if u < 48 || u > 57 {
            proof {
                // this character falsifies all_digits for the port part
                assert(target@.subrange(colon + 1, n as int)[i - (colon + 1)] == target@[i as int]);
            }
            return None;
        }
        proof {
            assert(target@.subrange(colon + 1, i + 1).drop_last() =~= target@.subrange(
                colon + 1,
                i as int,
            ));
        }
        val = val * 10 + (u - 48);
        if val > 65535 {
            proof {
                // any digit string extending these digits is worth even more
                if all_digits(target@.subrange(colon + 1, n as int)) {
                    lemma_decimal_value_prefix(
                        target@.subrange(colon + 1, n as int),
                        i + 1 - (colon + 1),
                    );
                    assert(target@.subrange(colon + 1, n as int).subrange(0, i + 1 - (colon + 1))
                        =~= target@.subrange(colon + 1, i + 1));
                }
            }
            return None;
        }
        i += 1;
    }
    proof {
        assert(target@.subrange(colon + 1, n as int) =~= target@.subrange(colon + 1, i as int));
    }
    let host = target.substring_char(0, colon).to_owned();
    Some((host, val as u16))
}

/// The characters of the method name `CONNECT`.
pub open spec fn connect_method() -> Seq<char> {
    seq!['C', 'O', 'N', 'N', 'E', 'C', 'T']
}

/// Whether `method` spells `CONNECT`.
pub fn is_connect_method(method: &str) -> (r: bool)
    ensures
        r == (method@ == connect_method()),
{
    if method.unicode_len() != 7 {
        return false;
    }
    let ok = method.get_char(0) == 'C' && method.get_char(1) == 'O' && method.get_char(2) == 'N'
        && method.get_char(3) == 'N' && method.get_char(4) == 'E' && method.get_char(5) == 'C'
        && method.get_char(6) == 'T';
    proof {
        if ok {
            assert(method@ =~= connect_method());
        }
    }
    ok
}

/// Decide the target endpoint of a CONNECT request.
///
/// A non-CONNECT method is refused with `InvalidCommand`; a CONNECT whose
/// request-target is not `host:port` is refused with `InvalidConnectUrl`;
/// otherwise the endpoint is the hostname and explicit port of the target.
pub fn connect_endpoint(method: &str, target: &str) -> (r: Result<Endpoint, HttpError>)
    ensures
        method@ != connect_method() ==> (r matches Err(e) && e matches HttpError::InvalidCommand(m)
            && m@ == method@),
        method@ == connect_method() && connect_target_ok(target@) ==> ({
            &&& r matches Ok(ep)
            &&& ep matches Endpoint::HostName(h, p)
            &&& h@ == connect_target_host(target@)
            &&& p == connect_target_port(target@)
        }),
        method@ == connect_method() && !connect_target_ok(target@) ==> (r matches Err(e)
            && e matches HttpError::InvalidConnectUrl(u) && u@ == target@),
{
    if !is_connect_method(method) {
        return Err(HttpError::InvalidCommand(method.to_owned()));
    }
    match parse_host_port(target) {
        Some((host, port)) => Ok(Endpoint::HostName(host, port)),
        None => Err(HttpError::InvalidConnectUrl(target.to_owned())),
    }
}

/// The port a forward-proxy request targets: the explicit port when the URI
/// has one, else 443 for an `https` URI, else 80.
pub open spec fn spec_effective_port(port: Option<u16>, https: bool) -> u16 {
    match port {
        Some(p) => p,
        None => if https {
            443u16
        } else {
            80u16
        },
    }
}

/// Executable form of [`spec_effective_port`].
pub fn effective_port(port: &Option<u16>, https: bool) -> (r: u16)
    ensures
        r == spec_effective_port(*port, https),
{
    match port {
        Some(p) => *p,
        None => if https {
            443
        } else {
            80
        },
    }
}

/// Decide the endpoint a forward-proxy request targets, from the host, the
/// explicit port and the scheme of its URI. `None` when the URI carries no
/// host.
pub fn forward_target(host: Option<String>, port: &Option<u16>, https: bool) -> (r: Option<
    Endpoint,
>)
    ensures
        host is None ==> r is None,
        host matches Some(h) ==> ({
            &&& r matches Some(ep)
            &&& ep matches Endpoint::HostName(h2, p)
            &&& h2@ == h@
            &&& p == spec_effective_port(*port, https)
        }),
{
    match host {
        Some(h) => Some(Endpoint::HostName(h, effective_port(port, https))),
        None => None,
    }
}

/// Decide the endpoint of a non-CONNECT forward-proxy request, refusing a
/// URI without a host with `InvalidUrl`.
pub fn forward_proxy_endpoint(host: Option<String>, port: &Option<u16>, https: bool, uri: &str)
    -> (r: Result<Endpoint, HttpError>)
    ensures
        host is None ==> (r matches Err(e) && e matches HttpError::InvalidUrl(u) && u@ == uri@),
        host matches Some(h) ==> ({
            &&& r matches Ok(ep)
            &&& ep matches Endpoint::HostName(h2, p)
            &&& h2@ == h@
            &&& p == spec_effective_port(*port, https)
        }),
{
    match forward_target(host, port, https) {
        Some(ep) => Ok(ep),
        None => Err(HttpError::InvalidUrl(uri.to_owned())),
    }
}

/// The origin-form request-target sent upstream: the URI's path-and-query,
/// falling back to `/` when it has none.
pub fn origin_form(path_and_query: Option<String>) -> (r: String)
    ensures
        path_and_query matches Some(p) ==> r@ == p@,
        path_and_query is None ==> r@ == seq!['/'],
{
    match path_and_query {
        Some(p) => p,
        None => {
            let s = String::from_str("/");
            proof {
                reveal_strlit("/");
                assert(s@ =~= seq!['/']);
            }
            s
        },
    }
}

/// ASCII code of `c` with an upper-case letter folded to lower case.
pub open spec fn ascii_lower(c: char) -> int {
    if 65 <= c as u32 <= 90 {
        c as u32 + 32
    } else {
        c as u32 as int
    }
}

/// The characters of the hop-by-hop header prefix `proxy-`.
pub open spec fn proxy_prefix() -> Seq<char> {
    seq!['p', 'r', 'o', 'x', 'y', '-']
}

/// Whether a header name starts, case-insensitively, with `Proxy-`.
pub open spec fn is_proxy_header_name(name: Seq<char>) -> bool {
    name.len() >= 6 && forall|i: int|
        0 <= i < 6 ==> ascii_lower(#[trigger] name[i]) == proxy_prefix()[i] as u32
}

/// Executable check of [`is_proxy_header_name`].
pub fn name_is_proxy_header(name: &String) -> (r: bool)
    ensures
        r == is_proxy_header_name(name@),
{
    let s = name.as_str();
    if s.unicode_len() < 6 {
        return false;
    }
    let mut i: usize = 0;
    while i < 6
        invariant
            0 <= i <= 6,
            s@.len() >= 6,
            s@ == name@,
            forall|j: int| 0 <= j < i ==> ascii_lower(#[trigger] s@[j]) == proxy_prefix()[j] as u32,
        decreases 6 - i,
    {
        let c = s.get_char(i);
        let u = c as u32;
        let low = if 65 <= u && u <= 90 {
            u + 32
        } else {
            u
        };
        let expected: u32 = if i == 0 {
            112
        } else if i == 1 {
            114
        } else if i == 2 {
            111
        } else if i == 3 {
            120
        } else if i == 4 {
            121
        } else {
            45
        };
        if low != expected {
            return false;
        }
        i += 1;
    }
    true
}

/// The headers kept after dropping every header whose name starts,
/// case-insensitively, with `Proxy-`; order is preserved.
pub open spec fn non_proxy_headers(hs: Seq<(String, String)>) -> Seq<(String, String)>
    decreases hs.len(),
{
    if hs.len() == 0 {
        Seq::empty()
    } else {
        let rest = non_proxy_headers(hs.drop_last());
        if is_proxy_header_name(hs.last().0@) {
            rest
        } else {
            rest.push(hs.last())
        }
    }
}

/// Drop every header whose name starts, case-insensitively, with `Proxy-`,
/// keeping all other headers in order. Applied to a forwarded request before
/// it is dispatched upstream.
pub fn strip_proxy_headers(headers: Vec<(String, String)>) -> (r: Vec<(String, String)>)
    ensures
        r@ == non_proxy_headers(headers@),
{
    let ghost orig = headers@;
    let mut rest = headers;
    let mut out: Vec<(String, String)> = Vec::new();
    let ghost mut done: int = 0;
    proof {
        assert(orig.subrange(0, 0) =~= Seq::<(String, String)>::empty());
    }
    while rest.len() > 0
        invariant
            0 <= done <= orig.len(),
            rest@ == orig.subrange(done, orig.len() as int),
            out@ == non_proxy_headers(orig.subrange(0, done)),
        decreases rest@.len(),
    {
        let kv = rest.remove(0);
        proof {
            assert(kv == orig[done]);
            assert(orig.subrange(0, done + 1).drop_last() =~= orig.subrange(0, done));
            assert(orig.subrange(0, done + 1).last() == orig[done]);
        }
        if !name_is_proxy_header(&kv.0) {
            out.push(kv);
        }
        proof {
            done = done + 1;
            assert(rest@ =~= orig.subrange(done, orig.len() as int));
        }
    }
    proof {
        assert(orig.subrange(0, done) =~= orig);
    }
    out
}

/// Carrier created once a CONNECT request's target is decoded but before
/// any data is forwarded: it holds the decoded target. The reclaimed
/// inbound socket, with any bytes the HTTP server read ahead, lives beside
/// it in the unverified glue.
pub struct HttpConnectMidHandshake {
    pub target: Endpoint,
}

impl HttpConnectMidHandshake {
    /// Wrap the decoded target endpoint.
    pub fn new(target: Endpoint) -> (r: HttpConnectMidHandshake)
        ensures
            r.target == target,
    {
        HttpConnectMidHandshake { target }
    }

    /// The decoded target endpoint; pure, callable any number of times
    /// before finalize, always returning the stored target.
    pub fn target_endpoint(&self) -> (r: &Endpoint)
        ensures
            *r == self.target,
    {
        &self.target
    }
}

/// The literal reply written to the inbound socket once a CONNECT tunnel's
/// upstream is connected.
pub fn connection_established_reply() -> (r: &'static str)
    ensures
        r@ == "HTTP/1.1 200 Connection Established\r\n\r\n"@,
{
    "HTTP/1.1 200 Connection Established\r\n\r\n"
}

} // verus!
