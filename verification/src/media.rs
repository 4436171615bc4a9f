//! Media references in post content: finding local file references and
//! replacing them with the URLs they were uploaded to.

use vstd::prelude::*;
use crate::chars::{chars_to_string, has_prefix, push_chars, str_has_prefix, str_to_chars};

verus! {

/// A reference is local when it is not an absolute HTTP or HTTPS URL.
pub open spec fn is_local_path_spec(p: Seq<char>) -> bool {
    !has_prefix(p, "http://"@) && !has_prefix(p, "https://"@)
}

/// Check if a path is local (not a URL).
pub fn is_local_path(path: &str) -> (r: bool)
    ensures
        r == is_local_path_spec(path@),
{
    !str_has_prefix(path, "http://") && !str_has_prefix(path, "https://")
}

/// The image paths that the Markdown image pattern `!\[.*?\]\((.*?)\)` finds
/// in a text: the first capture of each non-overlapping match, in order, as
/// the `regex` crate finds them.
pub uninterp spec fn md_image_paths_of(content: Seq<char>) -> Seq<Seq<char>>;

/// Relies on `regex::Regex::new` and `Regex::captures_iter` with the fixed
/// Markdown-image pattern: the matches are a pure function of the text and
/// come in order.
#[verifier::external_body]
fn md_image_paths(content: &str) -> (r: Vec<String>)
    ensures
        r.deep_view() == md_image_paths_of(content@),
{
    let re = regex::Regex::new(r"!\[.*?\]\((.*?)\)").unwrap();
    let mut out: Vec<String> = Vec::new();
    for cap in re.captures_iter(content) {
        if let Some(path) = cap.get(1) {
            out.push(path.as_str().to_string());
        }
    }
    out
}

/// The image sources that the HTML `img` pattern `<img[^>]+src=["']([^"']+)["']`
/// finds in a text, in order, as the `regex` crate finds them.
pub uninterp spec fn html_img_srcs_of(content: Seq<char>) -> Seq<Seq<char>>;

/// Relies on `regex::Regex::new` and `Regex::captures_iter` with the fixed
/// HTML-image pattern: the matches are a pure function of the text and come
/// in order.
#[verifier::external_body]
fn html_img_srcs(content: &str) -> (r: Vec<String>)
    ensures
        r.deep_view() == html_img_srcs_of(content@),
{
    let re = regex::Regex::new(r#"<img[^>]+src=["']([^"']+)["']"#).unwrap();
    let mut out: Vec<String> = Vec::new();
    for cap in re.captures_iter(content) {
        if let Some(path) = cap.get(1) {
            out.push(path.as_str().to_string());
        }
    }
    out
}

/// The local references among a list of found paths, keeping their order.
pub open spec fn local_only(paths: Seq<Seq<char>>) -> Seq<Seq<char>>
    decreases paths.len(),
{
    if paths.len() == 0 {
        Seq::empty()
    } else {
        let rest = local_only(paths.drop_first());
        if is_local_path_spec(paths[0]) {
            seq![paths[0]] + rest
        } else {
            rest
        }
    }
}

fn filter_local(paths: Vec<String>, out: &mut Vec<String>)
    ensures
        final(out).deep_view() == old(out).deep_view() + local_only(paths.deep_view()),
{
    let ghost pv = paths.deep_view();
    let ghost orig = out.deep_view();
    proof {
        assert(pv.skip(0) =~~= pv);
        assert(orig + Seq::<Seq<char>>::empty() =~~= orig);
    }
    let n = paths.len();
    for i in 0..n
        invariant
            n == pv.len(),
            pv == paths.deep_view(),
            out.deep_view() + local_only(pv.skip(i as int)) == orig + local_only(pv),
    {
        let ghost rem = pv.skip(i as int);
        proof {
            assert(rem[0] == pv[i as int]);
            assert(rem.drop_first() =~~= pv.skip(i + 1 as int));
            assert(paths@[i as int].deep_view() == pv[i as int]);
        }
        let ghost before = out.deep_view();
        if is_local_path(paths[i].as_str()) {
            out.push(paths[i].clone());
            proof {
                assert(out.deep_view() =~~= before.push(pv[i as int]));
                assert(local_only(rem) == seq![rem[0]] + local_only(rem.drop_first()));
                assert(out.deep_view() + local_only(pv.skip(i + 1 as int)) =~~= orig + local_only(
                    pv,
                ));
            }
        } else {
            proof {
                assert(local_only(rem) == local_only(rem.drop_first()));
            }
        }
    }
    proof {
        assert(pv.skip(n as int) =~~= Seq::<Seq<char>>::empty());
        assert(out.deep_view() + Seq::<Seq<char>>::empty() =~~= out.deep_view());
    }
}

/// Find all local media file references in content: the local paths among the
/// Markdown image references, then those among the HTML image sources.
pub fn find_media_references(content: &str) -> (r: Vec<String>)
    ensures
        r.deep_view() == local_only(md_image_paths_of(content@)) + local_only(
            html_img_srcs_of(content@),
        ),
{
    let mut out: Vec<String> = Vec::new();
    proof {
        assert(out.deep_view() =~~= Seq::<Seq<char>>::empty());
    }
    let md = md_image_paths(content);
    filter_local(md, &mut out);
    let html = html_img_srcs(content);
    filter_local(html, &mut out);
    proof {
        assert(Seq::<Seq<char>>::empty() + local_only(md_image_paths_of(content@)) =~~=
        local_only(md_image_paths_of(content@)));
    }
    out
}

/// `s` with every non-overlapping occurrence of `pat` replaced by `rep`,
/// scanning left to right; a text without the pattern, or an empty pattern,
/// leaves `s` unchanged.
pub open spec fn replaced(s: Seq<char>, pat: Seq<char>, rep: Seq<char>) -> Seq<char>
    decreases s.len(),
{
    if pat.len() == 0 || s.len() == 0 {
        s
    } else if has_prefix(s, pat) {
        rep + replaced(s.skip(pat.len() as int), pat, rep)
    } else {
        seq![s[0]] + replaced(s.drop_first(), pat, rep)
    }
}

fn match_at(s: &Vec<char>, i: usize, pat: &Vec<char>) -> (r: bool)
    requires
        i <= s@.len(),
    ensures
        r == has_prefix(s@.skip(i as int), pat@),
{
    if pat.len() > s.len() - i {
        return false;
    }
    let slen = s.len();
    let ghost rem = s@.skip(i as int);
    for k in 0..pat.len()
        invariant
            slen == s@.len(),
            i + pat@.len() <= s@.len(),
            rem == s@.skip(i as int),
            forall|j: int| 0 <= j < k ==> rem[j] == pat@[j],
    {
        assert(i + k < slen);
        if s[i + k] != pat[k] {
            proof {
                assert(rem[k as int] == s@[i + k]);
                assert(!has_prefix(rem, pat@)) by {
                    assert(rem.subrange(0, pat@.len() as int)[k as int] == rem[k as int]);
                }
            }
            return false;
        }
        assert(rem[k as int] == s@[i + k]);
    }
    assert(rem.subrange(0, pat@.len() as int) =~= pat@);
    true
}

fn replace_chars(s: &Vec<char>, pat: &Vec<char>, rep: &Vec<char>) -> (r: Vec<char>)
    ensures
        r@ == replaced(s@, pat@, rep@),
{
    let mut out: Vec<char> = Vec::new();
    if pat.len() == 0 {
        push_chars(&mut out, s);
        assert(out@ =~= s@);
        return out;
    }
    let mut i: usize = 0;
    proof {
        assert(s@.skip(0) =~= s@);
        assert(Seq::<char>::empty() + replaced(s@, pat@, rep@) =~= replaced(s@, pat@, rep@));
    }
    while i < s.len()
        invariant
            i <= s@.len(),
            pat@.len() > 0,
            out@ + replaced(s@.skip(i as int), pat@, rep@) == replaced(s@, pat@, rep@),
        decreases s@.len() - i,
    {
        let ghost rem = s@.skip(i as int);
        if match_at(s, i, pat) {
            proof {
                assert(rem.len() > 0);
                assert(replaced(rem, pat@, rep@) == rep@ + replaced(
                    rem.skip(pat@.len() as int),
                    pat@,
                    rep@,
                ));
                assert(rem.skip(pat@.len() as int) =~= s@.skip(i + pat@.len()));
            }
            push_chars(&mut out, rep);
            proof {
                assert(out@ + replaced(s@.skip(i + pat@.len()), pat@, rep@) =~= replaced(
                    s@,
                    pat@,
                    rep@,
                ));
            }
            i = i + pat.len();
        } else {
            proof {
                assert(rem.len() > 0);
                assert(replaced(rem, pat@, rep@) == seq![rem[0]] + replaced(
                    rem.drop_first(),
                    pat@,
                    rep@,
                ));
                assert(rem.drop_first() =~= s@.skip(i + 1));
                assert(rem[0] == s@[i as int]);
            }
            out.push(s[i]);
            proof {
                assert(out@ + replaced(s@.skip(i + 1), pat@, rep@) =~= replaced(s@, pat@, rep@));
            }
            i = i + 1;
        }
    }
    proof {
        assert(s@.skip(s@.len() as int) =~= Seq::<char>::empty());
        assert(out@ + Seq::<char>::empty() =~= out@);
    }
    out
}

/// The content after applying every replacement pair in order; a later pair
/// sees the earlier pairs' work.
pub open spec fn replaced_all(s: Seq<char>, rs: Seq<(Seq<char>, Seq<char>)>) -> Seq<char>
    decreases rs.len(),
{
    if rs.len() == 0 {
        s
    } else {
        replaced_all(replaced(s, rs[0].0, rs[0].1), rs.drop_first())
    }
}

/// Replace local paths in content with the URLs they were uploaded to, one
/// pair after the other.
pub fn replace_paths(content: &str, replacements: &[(String, String)]) -> (r: String)
    ensures
        r@ == replaced_all(content@, replacements.deep_view()),
{
    let ghost rv = replacements.deep_view();
    let mut cur = str_to_chars(content);
    proof {
        assert(rv.skip(0) =~~= rv);
    }
    let n = replacements.len();
    for i in 0..n
        invariant
            n == rv.len(),
            rv == replacements.deep_view(),
            replaced_all(cur@, rv.skip(i as int)) == replaced_all(content@, rv),
    {
        let ghost rem = rv.skip(i as int);
        proof {
            assert(rem[0] == rv[i as int]);
            assert(rem.drop_first() =~~= rv.skip(i + 1 as int));
            assert(replacements@[i as int].deep_view() == rv[i as int]);
        }
        let pat = str_to_chars(replacements[i].0.as_str());
        let rep = str_to_chars(replacements[i].1.as_str());
        cur = replace_chars(&cur, &pat, &rep);
    }
    proof {
        assert(rv.skip(n as int) =~~= Seq::<(Seq<char>, Seq<char>)>::empty());
    }
    chars_to_string(&cur)
}

} // verus!
