//! Percent-encoding of query parameters and assembly of the authorization
//! request URL. Values are encoded byte-wise over their UTF-8 bytes: RFC 3986
//! unreserved bytes stay, every other byte becomes `%XX`.

use vstd::prelude::*;
use vstd::string::StringSliceAdditionalSpecFns;
use crate::chars::chars_to_string;

verus! {

/// A byte that stays as itself in a percent-encoded value: an ASCII letter or
/// digit, `-`, `.`, `_` or `~`.
pub open spec fn is_unreserved_byte(b: u8) -> bool {
    ||| (65 <= b && b <= 90)  // A-Z
    ||| (97 <= b && b <= 122)  // a-z
    ||| (48 <= b && b <= 57)  // 0-9
    ||| b == 45  // -
    ||| b == 46  // .
    ||| b == 95  // _
    ||| b == 126  // ~
}

/// The upper-case hexadecimal digit for a value below 16.
pub open spec fn hex_upper(d: nat) -> char
    recommends
        d < 16,
{
    if d < 10 {
        ('0' as u32 + d as u32) as char
    } else {
        ('A' as u32 + (d - 10) as u32) as char
    }
}

/// The characters one byte contributes to a percent-encoded value.
pub open spec fn enc_byte(b: u8) -> Seq<char> {
    if is_unreserved_byte(b) {
        seq![b as char]
    } else {
        seq!['%', hex_upper(b as nat / 16), hex_upper(b as nat % 16)]
    }
}

/// The percent-encoding of a byte sequence.
pub open spec fn percent_encoded(bytes: Seq<u8>) -> Seq<char>
    decreases bytes.len(),
{
    if bytes.len() == 0 {
        Seq::empty()
    } else {
        enc_byte(bytes[0]) + percent_encoded(bytes.drop_first())
    }
}

/// The percent-encoding of the UTF-8 bytes of a text.
pub open spec fn encoded_value(s: Seq<char>) -> Seq<char> {
    percent_encoded(vstd::utf8::encode_utf8(s))
}

proof fn lemma_percent_encoded_take(bytes: Seq<u8>, i: int)
    requires
        0 <= i < bytes.len(),
    ensures
        percent_encoded(bytes.take(i + 1)) == percent_encoded(bytes.take(i)) + enc_byte(bytes[i]),
    decreases i,
{
    let a = bytes.take(i + 1);
    if i == 0 {
        assert(a.drop_first() =~= Seq::<u8>::empty());
        assert(percent_encoded(a) == enc_byte(bytes[0]) + percent_encoded(Seq::<u8>::empty()));
        assert(bytes.take(0) =~= Seq::<u8>::empty());
        assert(enc_byte(bytes[0]) + Seq::<char>::empty() =~= enc_byte(bytes[0]));
        assert(Seq::<char>::empty() + enc_byte(bytes[0]) =~= enc_byte(bytes[0]));
    } else {
        let t = bytes.drop_first();
        lemma_percent_encoded_take(t, i - 1);
        assert(a.len() > 0 && a[0] == bytes[0]);
        assert(a.drop_first() =~= t.take(i));
        assert(bytes.take(i).drop_first() =~= t.take(i - 1));
        assert(bytes.take(i).len() > 0 && bytes.take(i)[0] == bytes[0]);
        assert(t[i - 1] == bytes[i]);
        assert(percent_encoded(a) == enc_byte(bytes[0]) + percent_encoded(t.take(i)));
        assert(percent_encoded(bytes.take(i)) == enc_byte(bytes[0]) + percent_encoded(
            t.take(i - 1),
        ));
        assert(enc_byte(bytes[0]) + (percent_encoded(t.take(i - 1)) + enc_byte(t[i - 1])) =~= (
        enc_byte(bytes[0]) + percent_encoded(t.take(i - 1))) + enc_byte(t[i - 1]));
    }
}

fn hex_upper_char(d: u8) -> (c: char)
    requires
        d < 16,
    ensures
        c == hex_upper(d as nat),
{
    if d < 10 {
        (('0' as u32) + (d as u32)) as u8 as char
    } else {
        (('A' as u32) + ((d - 10) as u32)) as u8 as char
    }
}

fn byte_is_unreserved(b: u8) -> (r: bool)
    ensures
        r == is_unreserved_byte(b),
{
    (65 <= b && b <= 90) || (97 <= b && b <= 122) || (48 <= b && b <= 57) || b == 45 || b == 46
        || b == 95 || b == 126
}

/// Append the percent-encoding of a text's UTF-8 bytes to `out`.
pub fn push_encoded(out: &mut Vec<char>, s: &str)
    ensures
        final(out)@ == old(out)@ + encoded_value(s@),
{
    let bytes = s.as_bytes();
    let ghost bs = vstd::utf8::encode_utf8(s@);
    assert(bytes@ == bs);
    let ghost orig = out@;
    let n = bytes.len();
    proof {
        assert(bs.take(0) =~= Seq::<u8>::empty());
        assert(orig + Seq::<char>::empty() =~= orig);
    }
    for i in 0..n
        invariant
            n == bs.len(),
            bytes@ == bs,
            out@ == orig + percent_encoded(bs.take(i as int)),
    {
        let b = bytes[i];
        if byte_is_unreserved(b) {
            out.push(b as char);
            assert(enc_byte(b) =~= seq![b as char]);
        } else {
            out.push('%');
            out.push(hex_upper_char(b / 16));
            out.push(hex_upper_char(b % 16));
            assert(enc_byte(b) =~= seq!['%', hex_upper(b as nat / 16), hex_upper(b as nat % 16)]);
        }
        proof {
            lemma_percent_encoded_take(bs, i as int);
            assert(out@ =~= orig + percent_encoded(bs.take(i + 1 as int)));
        }
    }
    proof {
        assert(bs.take(n as int) =~= bs);
    }
}

/// The query text of a parameter list: `key=value` pairs, each percent
/// encoded, joined with `&`.
pub open spec fn encoded_pair(p: (Seq<char>, Seq<char>)) -> Seq<char> {
    encoded_value(p.0) + "="@ + encoded_value(p.1)
}

/// The `&`-prefixed encodings of every parameter.
pub open spec fn query_tail(ps: Seq<(Seq<char>, Seq<char>)>) -> Seq<char>
    decreases ps.len(),
{
    if ps.len() == 0 {
        Seq::empty()
    } else {
        "&"@ + encoded_pair(ps[0]) + query_tail(ps.drop_first())
    }
}

/// The full query text of a parameter list.
pub open spec fn query_of_params(ps: Seq<(Seq<char>, Seq<char>)>) -> Seq<char> {
    if ps.len() == 0 {
        Seq::empty()
    } else {
        encoded_pair(ps[0]) + query_tail(ps.drop_first())
    }
}

/// Does the text contain a `?` anywhere?
pub open spec fn has_query_mark(s: Seq<char>) -> bool {
    exists|i: int| 0 <= i < s.len() && s[i] == '?'
}

fn contains_query_mark(s: &str) -> (r: bool)
    ensures
        r == has_query_mark(s@),
{
    let len = s.unicode_len();
    for i in 0..len
        invariant
            len == s@.len(),
            forall|j: int| 0 <= j < i ==> s@[j] != '?',
    {
        if s.get_char(i) == '?' {
            return true;
        }
    }
    false
}

/// The authorization URL for an endpoint and a parameter list: the endpoint,
/// a `?` (or `&` when the endpoint already carries a query), and the encoded
/// parameters.
pub open spec fn url_with_params_spec(
    endpoint: Seq<char>,
    ps: Seq<(Seq<char>, Seq<char>)>,
) -> Seq<char> {
    if has_query_mark(endpoint) {
        endpoint + "&"@ + query_of_params(ps)
    } else {
        endpoint + "?"@ + query_of_params(ps)
    }
}

/// Append percent-encoded query parameters to an endpoint URL.
pub fn url_with_params(endpoint: &str, params: &Vec<(String, String)>) -> (r: String)
    ensures
        r@ == url_with_params_spec(endpoint@, params.deep_view()),
{
    let ghost pv = params.deep_view();
    proof {
        reveal_strlit("&");
        reveal_strlit("?");
        reveal_strlit("=");
    }
    let mut out: Vec<char> = Vec::new();
    crate::chars::push_str_chars(&mut out, endpoint);
    if contains_query_mark(endpoint) {
        out.push('&');
        assert(out@ =~= endpoint@ + "&"@);
    } else {
        out.push('?');
        assert(out@ =~= endpoint@ + "?"@);
    }
    let ghost head = out@;
    let n = params.len();
    if n > 0 {
        proof {
            assert(params@[0].deep_view() == pv[0]);
        }
        push_encoded(&mut out, params[0].0.as_str());
        out.push('=');
        push_encoded(&mut out, params[0].1.as_str());
        proof {
            assert(out@ =~= head + encoded_pair(pv[0]));
            assert(pv.skip(1) =~= pv.drop_first());
            assert(out@ + query_tail(pv.skip(1)) =~= head + query_of_params(pv));
        }
        for i in 1..n
            invariant
                n == pv.len(),
                pv == params.deep_view(),
                out@ + query_tail(pv.skip(i as int)) == head + query_of_params(pv),
        {
            let ghost rem = pv.skip(i as int);
            proof {
                reveal_strlit("&");
                reveal_strlit("=");
                assert(pv[i as int].0 == params@[i as int].0@);
                assert(pv[i as int].1 == params@[i as int].1@);
                assert(rem.len() > 0);
                assert(rem[0] == pv[i as int]);
                assert(rem.drop_first() =~= pv.skip(i + 1 as int));
                assert(params@[i as int].deep_view() == pv[i as int]);
                assert(query_tail(rem) == "&"@ + encoded_pair(rem[0]) + query_tail(
                    rem.drop_first(),
                ));
            }
            let ghost before = out@;
            out.push('&');
            push_encoded(&mut out, params[i].0.as_str());
            out.push('=');
            push_encoded(&mut out, params[i].1.as_str());
            proof {
                assert(out@ =~= before + ("&"@ + encoded_pair(pv[i as int])));
                assert(out@ + query_tail(pv.skip(i + 1 as int)) =~= head + query_of_params(pv));
            }
        }
        proof {
            assert(pv.skip(n as int) =~= Seq::<(Seq<char>, Seq<char>)>::empty());
            assert(out@ + Seq::<char>::empty() =~= out@);
        }
    } else {
        proof {
            assert(query_of_params(pv) =~= Seq::<char>::empty());
            assert(head + Seq::<char>::empty() =~= head);
        }
    }
    chars_to_string(&out)
}

} // verus!
