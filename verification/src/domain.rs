//! Normalization of the user-supplied domain: scheme selection, the loopback
//! exception for plain-HTTP development servers, the redirect-downgrade rule,
//! and the identity and profile-name values derived from the domain.

use vstd::prelude::*;
use crate::chars::{concat_str, has_prefix, str_has_prefix, str_to_chars};
use crate::numbers::{dec_rep, push_dec};
use crate::chars::{chars_to_string, push_str_chars};

verus! {

/// The text starts with the given host, and the host ends the text or is
/// followed by a port (`:`) or a path (`/`); a longer name that merely
/// begins with the host, such as a subdomain of another site, does not
/// qualify.
pub open spec fn host_prefix(d: Seq<char>, host: Seq<char>) -> bool {
    &&& has_prefix(d, host)
    &&& (d.len() == host.len() || d[host.len() as int] == ':' || d[host.len() as int] == '/')
}

/// The text begins with one of the recognized loopback hosts, properly
/// delimited.
pub open spec fn loopback_host_prefix(d: Seq<char>) -> bool {
    ||| host_prefix(d, "localhost"@)
    ||| host_prefix(d, "127.0.0.1"@)
    ||| host_prefix(d, "::1"@)
    ||| host_prefix(d, "[::1]"@)
}

/// The domain names one of the recognized loopback hosts — `localhost`,
/// `127.0.0.1`, `::1` or `[::1]` — bare or behind an `http://` or `https://`
/// scheme, with nothing but an optional port or path after the host.
pub open spec fn is_loopback_form(d: Seq<char>) -> bool {
    ||| loopback_host_prefix(d)
    ||| (has_prefix(d, "http://"@) && loopback_host_prefix(d.skip("http://"@.len() as int)))
    ||| (has_prefix(d, "https://"@) && loopback_host_prefix(d.skip("https://"@.len() as int)))
}

fn chars_host_prefix(d: &Vec<char>, start: usize, host: &str) -> (r: bool)
    requires
        start <= d@.len(),
    ensures
        r == host_prefix(d@.skip(start as int), host@),
{
    let ghost rem = d@.skip(start as int);
    let h = str_to_chars(host);
    let dlen = d.len();
    if h.len() > dlen - start {
        assert(!has_prefix(rem, host@));
        return false;
    }
    for i in 0..h.len()
        invariant
            dlen == d@.len(),
            start + h@.len() <= dlen,
            h@ == host@,
            rem == d@.skip(start as int),
            forall|j: int| 0 <= j < i ==> rem[j] == h@[j],
    {
        assert(start + i < dlen);
        if d[start + i] != h[i] {
            proof {
                assert(rem[i as int] == d@[start + i]);
                assert(!has_prefix(rem, host@)) by {
                    assert(rem.subrange(0, host@.len() as int)[i as int] == rem[i as int]);
                }
            }
            return false;
        }
        assert(rem[i as int] == d@[start + i]);
    }
    assert(rem.subrange(0, host@.len() as int) =~= host@);
    if start + h.len() == dlen {
        assert(rem.len() == host@.len());
        true
    } else {
        let c = d[start + h.len()];
        assert(c == rem[host@.len() as int]);
        c == ':' || c == '/'
    }
}

fn loopback_at(d: &Vec<char>, start: usize) -> (r: bool)
    requires
        start <= d@.len(),
    ensures
        r == loopback_host_prefix(d@.skip(start as int)),
{
    chars_host_prefix(d, start, "localhost") || chars_host_prefix(d, start, "127.0.0.1")
        || chars_host_prefix(d, start, "::1") || chars_host_prefix(d, start, "[::1]")
}

/// Decide whether a user-supplied domain counts as a local development host.
pub fn is_localhost_domain(domain: &str) -> (r: bool)
    ensures
        r == is_loopback_form(domain@),
{
    let d = str_to_chars(domain);
    proof {
        reveal_strlit("http://");
        reveal_strlit("https://");
        assert(d@.skip(0) =~= d@);
    }
    let bare = loopback_at(&d, 0);
    let is_http = str_has_prefix(domain, "http://");
    let http_host = if is_http {
        loopback_at(&d, 7)
    } else {
        false
    };
    let is_https = str_has_prefix(domain, "https://");
    let https_host = if is_https {
        loopback_at(&d, 8)
    } else {
        false
    };
    bare || (is_http && http_host) || (is_https && https_host)
}

/// The URL that discovery requests for a given domain, which is also the
/// normalized identity (`me`) sent in the authorization request: a domain
/// that already carries a scheme is used as-is; a domain without one gets
/// `https://`, unless it is a loopback host, which gets `http://` for local
/// development.
pub open spec fn normalized_domain(d: Seq<char>) -> Seq<char> {
    if has_prefix(d, "https://"@) || has_prefix(d, "http://"@) {
        d
    } else if is_loopback_form(d) {
        "http://"@ + d
    } else {
        "https://"@ + d
    }
}

/// Resolve the user-supplied domain into the URL discovery requests, and the
/// identity URL the authorization request carries.
pub fn normalize_domain(domain: &str) -> (r: String)
    ensures
        r@ == normalized_domain(domain@),
{
    if str_has_prefix(domain, "https://") || str_has_prefix(domain, "http://") {
        domain.to_owned()
    } else if is_localhost_domain(domain) {
        concat_str("http://", domain)
    } else {
        concat_str("https://", domain)
    }
}

/// Law: a domain that names no scheme is requested over HTTPS, unless it is
/// one of the recognized loopback forms, which is requested over plain HTTP
/// for local development.
pub proof fn lemma_bare_domain_scheme(d: Seq<char>)
    requires
        !has_prefix(d, "https://"@),
        !has_prefix(d, "http://"@),
    ensures
        !is_loopback_form(d) ==> normalized_domain(d) == "https://"@ + d,
        is_loopback_form(d) ==> normalized_domain(d) == "http://"@ + d,
{
}

/// Law: a domain that already carries a scheme is used exactly as given.
pub proof fn lemma_explicit_scheme_kept(d: Seq<char>)
    requires
        has_prefix(d, "https://"@) || has_prefix(d, "http://"@),
    ensures
        normalized_domain(d) == d,
{
}

/// The URL's host is one of the recognized loopback hosts, as `url::Url`
/// parses and normalizes it.
pub open spec fn is_loopback_host(u: Seq<char>) -> bool {
    match url_host_port_of(u) {
        Some(hp) => hp.0 == "localhost"@ || hp.0 == "127.0.0.1"@ || hp.0 == "::1"@ || hp.0
            == "[::1]"@,
        None => false,
    }
}

/// Does the parsed URL name a loopback host?
pub fn url_host_is_loopback(u: &str) -> (r: bool)
    ensures
        r == is_loopback_host(u@),
{
    match url_host_port(u) {
        Some((host, _)) => {
            let h = host.as_str();
            crate::chars::str_eq(h, "localhost") || crate::chars::str_eq(h, "127.0.0.1")
                || crate::chars::str_eq(h, "::1") || crate::chars::str_eq(h, "[::1]")
        },
        None => false,
    }
}

/// After redirects, the final response URL may be kept only when it still
/// speaks HTTPS or its resolved host is a loopback host.
pub fn redirect_allowed(final_url: &str) -> (r: bool)
    ensures
        r == (has_prefix(final_url@, "https://"@) || is_loopback_host(final_url@)),
{
    str_has_prefix(final_url, "https://") || url_host_is_loopback(final_url)
}

/// The local redirect URI advertised to the authorization server, for the
/// port the callback listener bound.
pub open spec fn redirect_uri_spec(port: u16) -> Seq<char> {
    "http://127.0.0.1:"@ + dec_rep(port as nat) + "/callback"@
}

/// Build the redirect URI pointing at the bound callback port.
pub fn redirect_uri_for(port: u16) -> (r: String)
    ensures
        r@ == redirect_uri_spec(port),
{
    let mut v: Vec<char> = Vec::new();
    push_str_chars(&mut v, "http://127.0.0.1:");
    push_dec(&mut v, port as u64);
    push_str_chars(&mut v, "/callback");
    chars_to_string(&v)
}

/// What `url::Url::parse` reports as host and port of an absolute URL:
/// `None` when the text does not parse as a URL or has no host, otherwise the
/// host text together with the port as `url::Url::port` reports it — absent
/// when the URL names none, and also when it names the scheme's default.
pub uninterp spec fn url_host_port_of(u: Seq<char>) -> Option<(Seq<char>, Option<u16>)>;

/// Relies on `url::Url::parse`, `Url::host_str` and `Url::port`: parsing is a
/// pure function of the text, and host and port are read off the parsed URL.
#[verifier::external_body]
fn url_host_port(u: &str) -> (r: Option<(String, Option<u16>)>)
    ensures
        match r {
            Some(hp) => url_host_port_of(u@) == Some((hp.0@, hp.1)),
            None => url_host_port_of(u@) is None,
        },
{
    let parsed = url::Url::parse(u).ok()?;
    let host = parsed.host_str()?.to_string();
    Some((host, parsed.port()))
}

/// The profile name a successful flow is stored under: for a domain with an
/// explicit scheme, the URL's host, with `:port` appended when the parsed URL
/// reports a port — a non-default one — so two services on one host get
/// distinct profiles; for a bare domain, the domain text itself. `None` when
/// a scheme-carrying domain has no parseable host.
pub open spec fn profile_name_spec(d: Seq<char>) -> Option<Seq<char>> {
    if has_prefix(d, "https://"@) || has_prefix(d, "http://"@) {
        match url_host_port_of(d) {
            Some(hp) => match hp.1 {
                Some(p) => Some(hp.0 + ":"@ + dec_rep(p as nat)),
                None => Some(hp.0),
            },
            None => None,
        }
    } else {
        Some(d)
    }
}

/// Derive the profile name for a domain; fails exactly when the domain has a
/// scheme but no host can be parsed out of it.
pub fn profile_name_for(domain: &str) -> (r: Option<String>)
    ensures
        match r {
            Some(name) => profile_name_spec(domain@) == Some(name@),
            None => profile_name_spec(domain@) is None,
        },
{
    if str_has_prefix(domain, "https://") || str_has_prefix(domain, "http://") {
        match url_host_port(domain) {
            Some((host, port_opt)) => match port_opt {
                Some(p) => {
                    let mut v: Vec<char> = Vec::new();
                    push_str_chars(&mut v, host.as_str());
                    push_str_chars(&mut v, ":");
                    push_dec(&mut v, p as u64);
                    Some(chars_to_string(&v))
                },
                None => Some(host),
            },
            None => None,
        }
    } else {
        Some(domain.to_owned())
    }
}

} // verus!
