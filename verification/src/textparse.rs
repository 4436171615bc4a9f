//! Small text-splitting and trimming algorithms, specified exactly, used by
//! the Link-header parser.

use vstd::prelude::*;

verus! {

/// ASCII whitespace, as it occurs in HTTP header values.
pub open spec fn is_ws(c: char) -> bool {
    c == ' ' || c == '\t' || c == '\n' || c == '\r'
}

/// `s` without its leading whitespace.
pub open spec fn trim_start_ws(s: Seq<char>) -> Seq<char>
    decreases s.len(),
{
    if s.len() > 0 && is_ws(s[0]) {
        trim_start_ws(s.drop_first())
    } else {
        s
    }
}

/// `s` without its trailing whitespace.
pub open spec fn trim_end_ws(s: Seq<char>) -> Seq<char>
    decreases s.len(),
{
    if s.len() > 0 && is_ws(s.last()) {
        trim_end_ws(s.drop_last())
    } else {
        s
    }
}

/// `s` without leading and trailing whitespace.
pub open spec fn trim_ws_spec(s: Seq<char>) -> Seq<char> {
    trim_end_ws(trim_start_ws(s))
}

/// `s` without its leading occurrences of `c`.
pub open spec fn trim_start_matching(s: Seq<char>, c: char) -> Seq<char>
    decreases s.len(),
{
    if s.len() > 0 && s[0] == c {
        trim_start_matching(s.drop_first(), c)
    } else {
        s
    }
}

/// `s` without its trailing occurrences of `c`.
pub open spec fn trim_end_matching(s: Seq<char>, c: char) -> Seq<char>
    decreases s.len(),
{
    if s.len() > 0 && s.last() == c {
        trim_end_matching(s.drop_last(), c)
    } else {
        s
    }
}

/// `s` without leading and trailing occurrences of `c`.
pub open spec fn trim_matching(s: Seq<char>, c: char) -> Seq<char> {
    trim_end_matching(trim_start_matching(s, c), c)
}

/// The position of the first occurrence of `sep` in `s`.
pub open spec fn find_sep(s: Seq<char>, sep: char) -> Option<int>
    decreases s.len(),
{
    if s.len() == 0 {
        None
    } else if s[0] == sep {
        Some(0)
    } else {
        match find_sep(s.drop_first(), sep) {
            Some(i) => Some(i + 1),
            None => None,
        }
    }
}

/// What `find_sep` returns: the least index holding `sep`, if any.
pub proof fn lemma_find_sep(s: Seq<char>, sep: char)
    ensures
        match find_sep(s, sep) {
            Some(i) => 0 <= i < s.len() && s[i] == sep && (forall|j: int| 0 <= j < i ==> s[j] != sep),
            None => forall|j: int| 0 <= j < s.len() ==> s[j] != sep,
        },
    decreases s.len(),
{
    if s.len() > 0 && s[0] != sep {
        let t = s.drop_first();
        lemma_find_sep(t, sep);
        match find_sep(t, sep) {
            Some(i) => {
                assert(t[i] == s[i + 1]);
                assert forall|j: int| 0 <= j < i + 1 implies s[j] != sep by {
                    if j > 0 {
                        assert(s[j] == t[j - 1]);
                    }
                }
            },
            None => {
                assert forall|j: int| 0 <= j < s.len() implies s[j] != sep by {
                    if j > 0 {
                        assert(s[j] == t[j - 1]);
                    }
                }
            },
        }
    }
}

/// The pieces of `s` between occurrences of `sep`, in order; `s` itself when
/// `sep` does not occur.
pub open spec fn split_char(s: Seq<char>, sep: char) -> Seq<Seq<char>>
    decreases s.len(),
{
    match find_sep(s, sep) {
        None => seq![s],
        Some(i) => {
            if 0 <= i < s.len() {
                seq![s.take(i)] + split_char(s.skip(i + 1), sep)
            } else {
                seq![s]
            }
        },
    }
}

/// Remove leading whitespace.
pub fn trim_start_ws_vec(v: Vec<char>) -> (r: Vec<char>)
    ensures
        r@ == trim_start_ws(v@),
{
    let mut v = v;
    let ghost orig = v@;
    while v.len() > 0 && (v[0] == ' ' || v[0] == '\t' || v[0] == '\n' || v[0] == '\r')
        invariant
            trim_start_ws(orig) == trim_start_ws(v@),
        decreases v.len(),
    {
        assert(is_ws(v@[0]));
        v.remove(0);
    }
    assert(trim_start_ws(v@) == v@);
    v
}

/// Remove trailing whitespace.
pub fn trim_end_ws_vec(v: Vec<char>) -> (r: Vec<char>)
    ensures
        r@ == trim_end_ws(v@),
{
    let mut v = v;
    let ghost orig = v@;
    loop
        invariant
            trim_end_ws(orig) == trim_end_ws(v@),
        ensures
            trim_end_ws(orig) == v@,
        decreases v.len(),
    {
        if v.len() > 0 {
            let c = v[v.len() - 1];
            if c == ' ' || c == '\t' || c == '\n' || c == '\r' {
                assert(is_ws(v@.last()));
                v.pop();
                continue ;
            }
        }
        assert(trim_end_ws(v@) == v@);
        break ;
    }
    v
}

/// Remove leading and trailing whitespace.
pub fn trim_ws_vec(v: Vec<char>) -> (r: Vec<char>)
    ensures
        r@ == trim_ws_spec(v@),
{
    trim_end_ws_vec(trim_start_ws_vec(v))
}

/// Remove leading occurrences of `c`.
pub fn trim_start_matching_vec(v: Vec<char>, c: char) -> (r: Vec<char>)
    ensures
        r@ == trim_start_matching(v@, c),
{
    let mut v = v;
    let ghost orig = v@;
    while v.len() > 0 && v[0] == c
        invariant
            trim_start_matching(orig, c) == trim_start_matching(v@, c),
        decreases v.len(),
    {
        v.remove(0);
    }
    assert(trim_start_matching(v@, c) == v@);
    v
}

/// Remove trailing occurrences of `c`.
pub fn trim_end_matching_vec(v: Vec<char>, c: char) -> (r: Vec<char>)
    ensures
        r@ == trim_end_matching(v@, c),
{
    let mut v = v;
    let ghost orig = v@;
    while v.len() > 0 && v[v.len() - 1] == c
        invariant
            trim_end_matching(orig, c) == trim_end_matching(v@, c),
        decreases v.len(),
    {
        v.pop();
    }
    assert(trim_end_matching(v@, c) == v@);
    v
}

/// Remove leading and trailing occurrences of `c`.
pub fn trim_matching_vec(v: Vec<char>, c: char) -> (r: Vec<char>)
    ensures
        r@ == trim_matching(v@, c),
{
    trim_end_matching_vec(trim_start_matching_vec(v, c), c)
}

/// Copy `v[a..b]` into a fresh vector.
pub fn subrange_vec(v: &Vec<char>, a: usize, b: usize) -> (r: Vec<char>)
    requires
        a <= b <= v@.len(),
    ensures
        r@ == v@.subrange(a as int, b as int),
{
    let mut r: Vec<char> = Vec::new();
    for i in a..b
        invariant
            a <= b <= v@.len(),
            r@ == v@.subrange(a as int, i as int),
    {
        r.push(v[i]);
        assert(r@ =~= v@.subrange(a as int, i + 1 as int));
    }
    r
}

/// Split `v` on `sep`, yielding the pieces between occurrences in order.
pub fn split_vec(v: &Vec<char>, sep: char) -> (r: Vec<Vec<char>>)
    ensures
        r.deep_view() == split_char(v@, sep),
{
    let mut r: Vec<Vec<char>> = Vec::new();
    let mut start: usize = 0;
    let mut i: usize = 0;
    proof {
        assert(v@.skip(0) =~= v@);
        assert(r.deep_view() =~~= Seq::<Seq<char>>::empty());
        assert(Seq::<Seq<char>>::empty() + split_char(v@, sep) =~~= split_char(v@, sep));
    }
    loop
        invariant
            start <= i <= v@.len(),
            forall|j: int| start <= j < i ==> v@[j] != sep,
            split_char(v@, sep) == r.deep_view() + split_char(v@.skip(start as int), sep),
        decreases v@.len() - i,
    {
        let ghost rem = v@.skip(start as int);
        if i == v.len() {
            proof {
                assert forall|j: int| 0 <= j < rem.len() implies rem[j] != sep by {
                    assert(rem[j] == v@[start + j]);
                }
                lemma_find_sep(rem, sep);
                assert(find_sep(rem, sep) is None);
                assert(split_char(rem, sep) == seq![rem]);
            }
            let piece = subrange_vec(v, start, v.len());
            assert(piece@ =~= rem);
            let ghost old_dv = r.deep_view();
            r.push(piece);
            proof {
                assert(r.deep_view() =~~= old_dv.push(rem));
                assert(old_dv.push(rem) =~~= old_dv + seq![rem]);
                assert(r.deep_view() =~~= split_char(v@, sep));
            }
            return r;
        }
        if v[i] == sep {
            let ghost k = i - start;
            proof {
                assert forall|j: int| 0 <= j < k implies rem[j] != sep by {
                    assert(rem[j] == v@[start + j]);
                }
                assert(rem[k] == v@[i as int]);
                lemma_find_sep(rem, sep);
                match find_sep(rem, sep) {
                    Some(f) => {
                        assert(!(f < k)) by {
                            if f < k {
                                assert(rem[f] != sep);
                            }
                        }
                        assert(!(f > k)) by {
                            if f > k {
                                assert(rem[k] != sep);
                            }
                        }
                        assert(f == k);
                    },
                    None => {
                        assert(rem[k] != sep);
                    },
                }
                assert(find_sep(rem, sep) == Some(k));
                assert(split_char(rem, sep) == seq![rem.take(k)] + split_char(
                    rem.skip(k + 1),
                    sep,
                ));
                assert(rem.take(k) =~= v@.subrange(start as int, i as int));
                assert(rem.skip(k + 1) =~= v@.skip(i + 1 as int));
            }
            let piece = subrange_vec(v, start, i);
            let ghost old_dv = r.deep_view();
            r.push(piece);
            proof {
                assert(r.deep_view() =~~= old_dv.push(piece@));
                assert(old_dv + split_char(rem, sep) =~~= old_dv.push(rem.take(k)) + split_char(
                    rem.skip(k + 1),
                    sep,
                ));
                assert(split_char(v@, sep) == r.deep_view() + split_char(
                    v@.skip(i + 1 as int),
                    sep,
                ));
            }
            start = i + 1;
            i = i + 1;
        } else {
            i = i + 1;
        }
    }
}

} // verus!
