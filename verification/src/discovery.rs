//! Endpoint discovery: parse `Link` response headers and HTML `<link>` tags,
//! apply the header-over-HTML precedence with first occurrence winning per
//! relation, and resolve the chosen references against the final response URL.

use vstd::prelude::*;
use crate::chars::{chars_have_prefix, chars_to_string, has_prefix, str_eq, str_to_chars};
use crate::domain::is_loopback_host;
use crate::textparse::{
    split_char, split_vec, subrange_vec, trim_end_matching, trim_end_matching_vec,
    trim_matching, trim_matching_vec, trim_start_matching, trim_start_matching_vec, trim_ws_spec,
    trim_ws_vec,
};

verus! {

/// Which of the three protocol endpoints a value or an error refers to.
#[derive(Debug, Clone, Copy, PartialEq, Eq, Structural)]
pub enum EndpointKind {
    Micropub,
    Authorization,
    Token,
}

/// Why discovery failed.
#[derive(Debug, Clone, Copy, PartialEq, Eq, Structural)]
pub enum DiscoveryError {
    /// The initial request could not be made or answered.
    NetworkFailure,
    /// Redirects left the final response URL on plain HTTP with a
    /// non-loopback host.
    InsecureRedirect,
    /// The reference chosen for a relation does not resolve against the final
    /// response URL.
    InvalidUrl,
    /// No reference was advertised for the relation, in headers or HTML.
    MissingEndpoint(EndpointKind),
}

/// The three endpoints a successful discovery yields.
#[derive(Debug, Clone, PartialEq, Eq)]
pub struct DiscoveredEndpoints {
    pub micropub_url: String,
    pub authorization_url: String,
    pub token_url: String,
}

/// What `url::Url::join` yields for a base URL text and a possibly relative
/// reference: `None` when the base does not parse or the join fails.
pub uninterp spec fn url_join_of(base: Seq<char>, href: Seq<char>) -> Option<Seq<char>>;

/// Relies on `url::Url::parse` and `url::Url::join`: resolving a possibly
/// relative reference against an absolute base is a pure function of the two
/// texts.
#[verifier::external_body]
pub fn url_join(base: &str, href: &str) -> (r: Option<String>)
    ensures
        match r {
            Some(u) => url_join_of(base@, href@) == Some(u@),
            None => url_join_of(base@, href@) is None,
        },
{
    let b = url::Url::parse(base).ok()?;
    let j = b.join(href).ok()?;
    Some(j.to_string())
}

/// The `(rel, href)` attribute pairs of the `<link>` elements with a `rel`
/// attribute in an HTML document, in document order, as the `scraper` crate
/// parses it.
pub uninterp spec fn html_links_of(html: Seq<char>) -> Seq<(Seq<char>, Seq<char>)>;

/// Relies on `scraper::Html::parse_document`, `scraper::Selector::parse` and
/// `Element::attr`: parsing is a pure function of the document text, and the
/// selected `link[rel]` elements come back in document order; elements
/// without an `href` attribute are skipped.
#[verifier::external_body]
pub fn extract_html_links(html: &str) -> (r: Vec<(String, String)>)
    ensures
        r.deep_view() == html_links_of(html@),
{
    let document = scraper::Html::parse_document(html);
    let selector = scraper::Selector::parse("link[rel]").unwrap();
    let mut out: Vec<(String, String)> = Vec::new();
    for element in document.select(&selector) {
        if let (Some(rel), Some(href)) = (element.value().attr("rel"), element.value().attr("href"))
        {
            out.push((rel.to_string(), href.to_string()));
        }
    }
    out
}

/// The relation named by one `;`-separated parameter of a Link header entry:
/// the parameter, after trimming, must start with `rel=`, and the value is
/// stripped of surrounding double and single quotes.
pub open spec fn rel_of_param(p: Seq<char>) -> Option<Seq<char>> {
    let t = trim_ws_spec(p);
    if has_prefix(t, "rel="@) {
        Some(trim_matching(trim_matching(t.skip(4), '"'), '\''))
    } else {
        None
    }
}

/// One `(url, rel)` candidate for every `rel=` parameter of a Link entry.
pub open spec fn pairs_of_params(ps: Seq<Seq<char>>, url: Seq<char>) -> Seq<(Seq<char>, Seq<char>)>
    decreases ps.len(),
{
    if ps.len() == 0 {
        Seq::empty()
    } else {
        let rest = pairs_of_params(ps.drop_first(), url);
        match rel_of_param(ps[0]) {
            Some(rel) => seq![(url, rel)] + rest,
            None => rest,
        }
    }
}

/// The URL text of a Link entry: the part before the first `;`, trimmed, with
/// the surrounding `<` and `>` removed.
pub open spec fn url_of_link_part(part: Seq<char>) -> Seq<char> {
    trim_end_matching(trim_start_matching(trim_ws_spec(part), '<'), '>')
}

/// The `(url, rel)` candidates of one comma-separated Link entry. An entry
/// without parameters yields nothing.
pub open spec fn pairs_of_link(link: Seq<char>) -> Seq<(Seq<char>, Seq<char>)> {
    let parts = split_char(link, ';');
    if parts.len() < 2 {
        Seq::empty()
    } else {
        pairs_of_params(parts.drop_first(), url_of_link_part(parts[0]))
    }
}

/// The candidates of the comma-separated entries of one Link header value,
/// in order.
pub open spec fn pairs_of_links(links: Seq<Seq<char>>) -> Seq<(Seq<char>, Seq<char>)>
    decreases links.len(),
{
    if links.len() == 0 {
        Seq::empty()
    } else {
        pairs_of_link(links[0]) + pairs_of_links(links.drop_first())
    }
}

/// The candidates of one Link header value.
pub open spec fn pairs_of_header(h: Seq<char>) -> Seq<(Seq<char>, Seq<char>)> {
    pairs_of_links(split_char(h, ','))
}

/// The candidates of all Link header values of the response, in order.
pub open spec fn pairs_of_headers(hs: Seq<Seq<char>>) -> Seq<(Seq<char>, Seq<char>)>
    decreases hs.len(),
{
    if hs.len() == 0 {
        Seq::empty()
    } else {
        pairs_of_header(hs[0]) + pairs_of_headers(hs.drop_first())
    }
}

/// The HTML `(rel, href)` pairs turned into `(url, rel)` candidates, keeping
/// document order.
pub open spec fn html_candidates(links: Seq<(Seq<char>, Seq<char>)>) -> Seq<
    (Seq<char>, Seq<char>),
> {
    Seq::new(links.len(), |i: int| (links[i].1, links[i].0))
}

/// The URL of the first candidate carrying the wanted relation.
pub open spec fn first_for_rel(cands: Seq<(Seq<char>, Seq<char>)>, rel: Seq<char>) -> Option<
    Seq<char>,
>
    decreases cands.len(),
{
    if cands.len() == 0 {
        None
    } else if cands[0].1 == rel {
        Some(cands[0].0)
    } else {
        first_for_rel(cands.drop_first(), rel)
    }
}

/// The reference chosen for a relation: the first Link-header candidate if
/// the headers advertise the relation at all, otherwise the first HTML
/// candidate.
pub open spec fn chosen_href(
    hdr: Seq<(Seq<char>, Seq<char>)>,
    html: Seq<(Seq<char>, Seq<char>)>,
    rel: Seq<char>,
) -> Option<Seq<char>> {
    match first_for_rel(hdr, rel) {
        Some(u) => Some(u),
        None => first_for_rel(html, rel),
    }
}

/// Law: when the Link headers advertise a relation at all, the chosen
/// reference is the headers' first candidate for it, whatever the HTML body
/// advertises for the same relation.
pub proof fn lemma_link_header_wins(
    hdr: Seq<(Seq<char>, Seq<char>)>,
    html: Seq<(Seq<char>, Seq<char>)>,
    rel: Seq<char>,
)
    requires
        first_for_rel(hdr, rel) is Some,
    ensures
        chosen_href(hdr, html, rel) == first_for_rel(hdr, rel),
{
}

/// The endpoint a relation resolves to: `None` when nothing advertises the
/// relation; `Some(None)` when the chosen reference does not resolve against
/// the final response URL; `Some(Some(u))` otherwise.
pub open spec fn resolved_endpoint(
    hdr: Seq<(Seq<char>, Seq<char>)>,
    html: Seq<(Seq<char>, Seq<char>)>,
    base: Seq<char>,
    rel: Seq<char>,
) -> Option<Option<Seq<char>>> {
    match chosen_href(hdr, html, rel) {
        None => None,
        Some(h) => Some(url_join_of(base, h)),
    }
}

/// The outcome of endpoint extraction over given candidates: the three
/// resolved endpoint URLs, or the first error, the relations checked in the
/// order micropub, authorization, token.
pub open spec fn extract_spec(
    hdr: Seq<(Seq<char>, Seq<char>)>,
    html: Seq<(Seq<char>, Seq<char>)>,
    base: Seq<char>,
) -> Result<(Seq<char>, Seq<char>, Seq<char>), DiscoveryError> {
    match resolved_endpoint(hdr, html, base, "micropub"@) {
        None => Err(DiscoveryError::MissingEndpoint(EndpointKind::Micropub)),
        Some(None) => Err(DiscoveryError::InvalidUrl),
        Some(Some(m)) => match resolved_endpoint(hdr, html, base, "authorization_endpoint"@) {
            None => Err(DiscoveryError::MissingEndpoint(EndpointKind::Authorization)),
            Some(None) => Err(DiscoveryError::InvalidUrl),
            Some(Some(a)) => match resolved_endpoint(hdr, html, base, "token_endpoint"@) {
                None => Err(DiscoveryError::MissingEndpoint(EndpointKind::Token)),
                Some(None) => Err(DiscoveryError::InvalidUrl),
                Some(Some(t)) => Ok((m, a, t)),
            },
        },
    }
}

fn rel_of_param_vec(p: Vec<char>) -> (r: Option<Vec<char>>)
    ensures
        match r {
            Some(v) => rel_of_param(p@) == Some(v@),
            None => rel_of_param(p@) is None,
        },
{
    let ghost orig = p@;
    let t = trim_ws_vec(p);
    let prefix = str_to_chars("rel=");
    proof {
        reveal_strlit("rel=");
    }
    if chars_have_prefix(&t, &prefix) {
        let rest = subrange_vec(&t, 4, t.len());
        assert(rest@ =~= trim_ws_spec(orig).skip(4));
        Some(trim_matching_vec(trim_matching_vec(rest, '"'), '\''))
    } else {
        None
    }
}

fn copy_chars(v: &Vec<char>) -> (r: Vec<char>)
    ensures
        r@ == v@,
{
    let r = subrange_vec(v, 0, v.len());
    assert(r@ =~= v@);
    r
}

fn link_pairs(link: &Vec<char>) -> (r: Vec<(String, String)>)
    ensures
        r.deep_view() == pairs_of_link(link@),
{
    let parts = split_vec(link, ';');
    let mut r: Vec<(String, String)> = Vec::new();
    if parts.len() < 2 {
        assert(r.deep_view() =~~= pairs_of_link(link@));
        return r;
    }
    let ghost partsv = parts.deep_view();
    proof {
        assert(parts@[0].deep_view() == partsv[0]);
        assert(parts@[0]@ =~= parts@[0].deep_view());
    }
    let url_chars = trim_end_matching_vec(
        trim_start_matching_vec(trim_ws_vec(copy_chars(&parts[0])), '<'),
        '>',
    );
    assert(url_chars@ == url_of_link_part(partsv[0]));
    let url = chars_to_string(&url_chars);
    let ghost goal = pairs_of_params(partsv.drop_first(), url_chars@);
    proof {
        assert(partsv.skip(1) =~~= partsv.drop_first());
    }
    let n = parts.len();
    for i in 1..n
        invariant
            1 <= i <= n,
            n == partsv.len(),
            partsv == parts.deep_view(),
            url@ == url_chars@,
            goal == pairs_of_params(partsv.drop_first(), url_chars@),
            r.deep_view() + pairs_of_params(partsv.skip(i as int), url_chars@) == goal,
    {
        let ghost rem = partsv.skip(i as int);
        proof {
            assert(rem.len() > 0);
            assert(rem[0] == partsv[i as int]);
            assert(rem.drop_first() =~~= partsv.skip(i + 1 as int));
            assert(parts@[i as int].deep_view() == partsv[i as int]);
            assert(parts@[i as int]@ =~= parts@[i as int].deep_view());
        }
        let piece = copy_chars(&parts[i]);
        assert(piece@ == rem[0]);
        let ghost old_dv = r.deep_view();
        match rel_of_param_vec(piece) {
            Some(rel_chars) => {
                let rel = chars_to_string(&rel_chars);
                r.push((url.clone(), rel));
                proof {
                    assert(r.deep_view() =~~= old_dv.push((url_chars@, rel_chars@)));
                    assert(pairs_of_params(rem, url_chars@) == seq![
                        (url_chars@, rel_chars@),
                    ] + pairs_of_params(rem.drop_first(), url_chars@));
                    assert(r.deep_view() + pairs_of_params(partsv.skip(i + 1 as int), url_chars@)
                        =~~= goal);
                }
            },
            None => {
                proof {
                    assert(pairs_of_params(rem, url_chars@) == pairs_of_params(
                        rem.drop_first(),
                        url_chars@,
                    ));
                }
            },
        }
    }
    proof {
        assert(partsv.skip(n as int) =~~= Seq::<Seq<char>>::empty());
        assert(r.deep_view() + Seq::<(Seq<char>, Seq<char>)>::empty() =~~= r.deep_view());
        assert(r.deep_view() =~~= pairs_of_link(link@));
    }
    r
}

fn append_pairs(dst: &mut Vec<(String, String)>, src: Vec<(String, String)>)
    ensures
        final(dst).deep_view() == old(dst).deep_view() + src.deep_view(),
{
    let ghost orig = dst.deep_view();
    let ghost srcv = src.deep_view();
    let n = src.len();
    for i in 0..n
        invariant
            n == srcv.len(),
            srcv == src.deep_view(),
            dst.deep_view() == orig + srcv.take(i as int),
    {
        let ghost before = dst.deep_view();
        let pair = (src[i].0.clone(), src[i].1.clone());
        dst.push(pair);
        proof {
            assert(dst.deep_view() =~~= before.push(srcv[i as int]));
            assert(before.push(srcv[i as int]) =~~= orig + srcv.take(i + 1 as int));
        }
    }
    proof {
        assert(srcv.take(n as int) =~~= srcv);
    }
}

/// Parse one Link header value into its `(url, rel)` candidates.
pub fn header_pairs(h: &str) -> (r: Vec<(String, String)>)
    ensures
        r.deep_view() == pairs_of_header(h@),
{
    let chars = str_to_chars(h);
    let links = split_vec(&chars, ',');
    let ghost linksv = links.deep_view();
    let mut r: Vec<(String, String)> = Vec::new();
    proof {
        assert(r.deep_view() =~~= Seq::<(Seq<char>, Seq<char>)>::empty());
        assert(linksv.skip(0) =~~= linksv);
    }
    let n = links.len();
    for i in 0..n
        invariant
            n == linksv.len(),
            linksv == links.deep_view(),
            r.deep_view() + pairs_of_links(linksv.skip(i as int)) == pairs_of_links(linksv),
    {
        let ghost rem = linksv.skip(i as int);
        proof {
            assert(rem.len() > 0);
            assert(rem[0] == linksv[i as int]);
            assert(rem.drop_first() =~~= linksv.skip(i + 1 as int));
            assert(links@[i as int].deep_view() == linksv[i as int]);
            assert(links@[i as int]@ =~= links@[i as int].deep_view());
        }
        let lp = link_pairs(&links[i]);
        assert(lp.deep_view() == pairs_of_link(rem[0]));
        let ghost before = r.deep_view();
        append_pairs(&mut r, lp);
        proof {
            assert(pairs_of_links(rem) == pairs_of_link(linksv[i as int]) + pairs_of_links(
                rem.drop_first(),
            ));
            assert(r.deep_view() + pairs_of_links(linksv.skip(i + 1 as int)) =~~= pairs_of_links(
                linksv,
            ));
        }
    }
    proof {
        assert(linksv.skip(n as int) =~~= Seq::<Seq<char>>::empty());
        assert(r.deep_view() + Seq::<(Seq<char>, Seq<char>)>::empty() =~~= r.deep_view());
    }
    r
}

/// Parse every Link header value of a response into one ordered candidate
/// list.
pub fn headers_pairs(headers: &Vec<String>) -> (r: Vec<(String, String)>)
    ensures
        r.deep_view() == pairs_of_headers(headers.deep_view()),
{
    let ghost hs = headers.deep_view();
    let mut r: Vec<(String, String)> = Vec::new();
    proof {
        assert(r.deep_view() =~~= Seq::<(Seq<char>, Seq<char>)>::empty());
        assert(hs.skip(0) =~~= hs);
    }
    let n = headers.len();
    for i in 0..n
        invariant
            n == hs.len(),
            hs == headers.deep_view(),
            r.deep_view() + pairs_of_headers(hs.skip(i as int)) == pairs_of_headers(hs),
    {
        let ghost rem = hs.skip(i as int);
        proof {
            assert(rem.len() > 0);
            assert(rem[0] == hs[i as int]);
            assert(rem.drop_first() =~~= hs.skip(i + 1 as int));
            assert(headers@[i as int].deep_view() == hs[i as int]);
        }
        let hp = header_pairs(headers[i].as_str());
        append_pairs(&mut r, hp);
        proof {
            assert(pairs_of_headers(rem) == pairs_of_header(hs[i as int]) + pairs_of_headers(
                rem.drop_first(),
            ));
            assert(r.deep_view() + pairs_of_headers(hs.skip(i + 1 as int)) =~~= pairs_of_headers(
                hs,
            ));
        }
    }
    proof {
        assert(hs.skip(n as int) =~~= Seq::<Seq<char>>::empty());
        assert(r.deep_view() + Seq::<(Seq<char>, Seq<char>)>::empty() =~~= r.deep_view());
    }
    r
}

/// Turn the `(rel, href)` pairs read out of the HTML into `(url, rel)`
/// candidates.
pub fn swap_html_links(links: &Vec<(String, String)>) -> (r: Vec<(String, String)>)
    ensures
        r.deep_view() == html_candidates(links.deep_view()),
{
    let ghost lv = links.deep_view();
    let mut r: Vec<(String, String)> = Vec::new();
    let n = links.len();
    for i in 0..n
        invariant
            n == lv.len(),
            lv == links.deep_view(),
            r.deep_view() == html_candidates(lv).take(i as int),
    {
        let ghost before = r.deep_view();
        proof {
            assert(links@[i as int].deep_view() == lv[i as int]);
        }
        r.push((links[i].1.clone(), links[i].0.clone()));
        proof {
            assert(r.deep_view() =~~= before.push((lv[i as int].1, lv[i as int].0)));
            assert(r.deep_view() =~~= html_candidates(lv).take(i + 1 as int));
        }
    }
    proof {
        assert(html_candidates(lv).take(n as int) =~~= html_candidates(lv));
    }
    r
}

/// Find the first candidate for a relation.
pub fn find_first_for_rel(cands: &Vec<(String, String)>, rel: &str) -> (r: Option<String>)
    ensures
        match r {
            Some(u) => first_for_rel(cands.deep_view(), rel@) == Some(u@),
            None => first_for_rel(cands.deep_view(), rel@) is None,
        },
{
    let ghost cv = cands.deep_view();
    proof {
        assert(cv.skip(0) =~~= cv);
    }
    let n = cands.len();
    for i in 0..n
        invariant
            n == cv.len(),
            cv == cands.deep_view(),
            first_for_rel(cv.skip(i as int), rel@) == first_for_rel(cv, rel@),
    {
        let ghost rem = cv.skip(i as int);
        proof {
            assert(rem.len() > 0);
            assert(rem[0] == cv[i as int]);
            assert(rem.drop_first() =~~= cv.skip(i + 1 as int));
            assert(cands@[i as int].deep_view() == cv[i as int]);
        }
        if str_eq(cands[i].1.as_str(), rel) {
            assert(first_for_rel(rem, rel@) == Some(cv[i as int].0));
            return Some(cands[i].0.clone());
        }
    }
    proof {
        assert(cv.skip(n as int) =~~= Seq::<(Seq<char>, Seq<char>)>::empty());
    }
    None
}

fn resolve_one(
    hdr: &Vec<(String, String)>,
    html: &Vec<(String, String)>,
    base: &str,
    rel: &str,
) -> (r: Option<Option<String>>)
    ensures
        match r {
            None => resolved_endpoint(hdr.deep_view(), html.deep_view(), base@, rel@) is None,
            Some(None) => resolved_endpoint(hdr.deep_view(), html.deep_view(), base@, rel@) == Some(
                Option::<Seq<char>>::None,
            ),
            Some(Some(u)) => resolved_endpoint(hdr.deep_view(), html.deep_view(), base@, rel@)
                == Some(Some(u@)),
        },
{
    let href = match find_first_for_rel(hdr, rel) {
        Some(u) => Some(u),
        None => find_first_for_rel(html, rel),
    };
    match href {
        None => None,
        Some(h) => match url_join(base, h.as_str()) {
            Some(u) => Some(Some(u)),
            None => Some(None),
        },
    }
}

/// Choose and resolve the three endpoints from the Link-header candidates and
/// the HTML candidates: per relation the first Link-header candidate wins
/// over every HTML candidate, and the first candidate of a source wins within
/// it.
pub fn extract_endpoints(
    final_url: &str,
    link_headers: &Vec<String>,
    html_links: &Vec<(String, String)>,
) -> (r: Result<DiscoveredEndpoints, DiscoveryError>)
    ensures
        ({
            let s = extract_spec(
                pairs_of_headers(link_headers.deep_view()),
                html_candidates(html_links.deep_view()),
                final_url@,
            );
            match r {
                Ok(eps) => s == Ok::<_, DiscoveryError>(
                    (eps.micropub_url@, eps.authorization_url@, eps.token_url@),
                ),
                Err(e) => s == Err::<(Seq<char>, Seq<char>, Seq<char>), _>(e),
            }
        }),
{
    let hdr = headers_pairs(link_headers);
    let html = swap_html_links(html_links);
    let micropub_url = match resolve_one(&hdr, &html, final_url, "micropub") {
        None => {
            return Err(DiscoveryError::MissingEndpoint(EndpointKind::Micropub));
        },
        Some(None) => {
            return Err(DiscoveryError::InvalidUrl);
        },
        Some(Some(u)) => u,
    };
    let authorization_url = match resolve_one(&hdr, &html, final_url, "authorization_endpoint") {
        None => {
            return Err(DiscoveryError::MissingEndpoint(EndpointKind::Authorization));
        },
        Some(None) => {
            return Err(DiscoveryError::InvalidUrl);
        },
        Some(Some(u)) => u,
    };
    let token_url = match resolve_one(&hdr, &html, final_url, "token_endpoint") {
        None => {
            return Err(DiscoveryError::MissingEndpoint(EndpointKind::Token));
        },
        Some(None) => {
            return Err(DiscoveryError::InvalidUrl);
        },
        Some(Some(u)) => u,
    };
    Ok(DiscoveredEndpoints { micropub_url, authorization_url, token_url })
}

/// The whole pure part of discovery for one response: reject an insecure
/// redirect (a final response URL that speaks plain HTTP to a non-loopback
/// host), then extract the endpoints from the response's Link headers and its
/// HTML body, headers winning per relation.
pub fn discover_from_response(
    final_url: &str,
    link_headers: &Vec<String>,
    html_body: &str,
) -> (r: Result<DiscoveredEndpoints, DiscoveryError>)
    ensures
        !(has_prefix(final_url@, "https://"@) || is_loopback_host(final_url@)) ==> r == Err::<
            DiscoveredEndpoints,
            _,
        >(DiscoveryError::InsecureRedirect),
        (has_prefix(final_url@, "https://"@) || is_loopback_host(final_url@)) ==> ({
            let s = extract_spec(
                pairs_of_headers(link_headers.deep_view()),
                html_candidates(html_links_of(html_body@)),
                final_url@,
            );
            match r {
                Ok(eps) => s == Ok::<_, DiscoveryError>(
                    (eps.micropub_url@, eps.authorization_url@, eps.token_url@),
                ),
                Err(e) => s == Err::<(Seq<char>, Seq<char>, Seq<char>), _>(e),
            }
        }),
{
    if !crate::domain::redirect_allowed(final_url) {
        return Err(DiscoveryError::InsecureRedirect);
    }
    let html_links = extract_html_links(html_body);
    extract_endpoints(final_url, link_headers, &html_links)
}

} // verus!
