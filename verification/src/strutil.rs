//! Verified string helpers: the final segment of a `/`-separated reference,
//! colon replacement, prefix tests, and equality.

use vstd::prelude::*;
use vstd::string::StrSliceExecFns;
use vstd::string::StringExecFns;

verus! {

/// Index just after the last `/` of `s`, or `0` when `s` holds no `/`.
pub open spec fn split_point(s: Seq<char>) -> int
    decreases s.len(),
{
    if s.len() == 0 {
        0
    } else if s[s.len() - 1] == '/' {
        s.len() as int
    } else {
        split_point(s.drop_last())
    }
}

pub proof fn lemma_split_point_bounds(s: Seq<char>)
    ensures
        0 <= split_point(s) <= s.len(),
    decreases s.len(),
{
    if s.len() > 0 && s[s.len() - 1] != '/' {
        lemma_split_point_bounds(s.drop_last());
    }
}

/// What `rsplit('/').next()` yields: the text after the last `/`, or the
/// whole string when it holds no `/`.
pub open spec fn last_segment(s: Seq<char>) -> Seq<char> {
    s.subrange(split_point(s), s.len() as int)
}

pub proof fn lemma_split_point_after_slash(s: Seq<char>, k: int)
    requires
        0 <= k < s.len(),
        s[k] == '/',
        forall|i: int| k < i < s.len() ==> s[i] != '/',
    ensures
        split_point(s) == k + 1,
    decreases s.len(),
{
    if k < s.len() - 1 {
        assert(s[s.len() - 1] != '/');
        assert(forall|i: int| k < i < s.drop_last().len() ==> s.drop_last()[i] != '/');
        lemma_split_point_after_slash(s.drop_last(), k);
    }
}

pub proof fn lemma_split_point_no_slash(s: Seq<char>)
    requires
        forall|i: int| 0 <= i < s.len() ==> s[i] != '/',
    ensures
        split_point(s) == 0,
    decreases s.len(),
{
    if s.len() > 0 {
        assert(forall|i: int| 0 <= i < s.drop_last().len() ==> s.drop_last()[i] != '/');
        lemma_split_point_no_slash(s.drop_last());
    }
}

pub fn last_segment_of<'a>(s: &'a str) -> (r: &'a str)
    ensures
        r@ == last_segment(s@),
{
    proof {
        lemma_split_point_bounds(s@);
    }
    let n: usize = s.unicode_len();
    let mut i: usize = n;
    while i > 0
        invariant
            n == s@.len(),
            i <= n,
            forall|j: int| i <= j < n ==> s@[j] != '/',
        decreases i,
    {
        if s.get_char(i - 1) == '/' {
            proof {
                lemma_split_point_after_slash(s@, i - 1);
            }
            return s.substring_char(i, n);
        }
        i = i - 1;
    }
    proof {
        lemma_split_point_no_slash(s@);
    }
    s.substring_char(0, n)
}

/// Every `:` replaced by `_`; all other characters kept.
pub open spec fn replace_colons(s: Seq<char>) -> Seq<char> {
    s.map_values(|c: char| if c == ':' { '_' } else { c })
}

pub fn replace_colons_in(s: &str) -> (r: String)
    ensures
        r@ == replace_colons(s@),
{
    let n: usize = s.unicode_len();
    let mut r = String::new();
    let mut i: usize = 0;
    while i < n
        invariant
            n == s@.len(),
            i <= n,
            r@ == replace_colons(s@.subrange(0, i as int)),
        decreases n - i,
    {
        let c = s.get_char(i);
        if c == ':' {
            proof {
                reveal_strlit("_");
            }
            r.append("_");
        } else {
            let piece = s.substring_char(i, i + 1);
            r.append(piece);
        }
        i = i + 1;
        proof {
            assert(r@ =~= replace_colons(s@.subrange(0, i as int)));
        }
    }
    proof {
        assert(s@.subrange(0, n as int) =~= s@);
    }
    r
}

pub open spec fn starts_with(s: Seq<char>, p: Seq<char>) -> bool {
    p.len() <= s.len() && s.subrange(0, p.len() as int) == p
}

pub fn str_starts_with(s: &str, p: &str) -> (r: bool)
    ensures
        r == starts_with(s@, p@),
{
    let sn: usize = s.unicode_len();
    let pn: usize = p.unicode_len();
    if pn > sn {
        return false;
    }
    let mut i: usize = 0;
    while i < pn
        invariant
            sn == s@.len(),
            pn == p@.len(),
            pn <= sn,
            i <= pn,
            forall|j: int| 0 <= j < i ==> s@[j] == p@[j],
        decreases pn - i,
    {
        if s.get_char(i) != p.get_char(i) {
            assert(s@.subrange(0, pn as int)[i as int] != p@[i as int]);
            return false;
        }
        i = i + 1;
    }
    proof {
        assert(s@.subrange(0, pn as int) =~= p@);
    }
    true
}

pub fn str_eq(a: &str, b: &str) -> (r: bool)
    ensures
        r == (a@ == b@),
{
    let an: usize = a.unicode_len();
    let bn: usize = b.unicode_len();
    if an != bn {
        return false;
    }
    let mut i: usize = 0;
    while i < an
        invariant
            an == a@.len(),
            an == b@.len(),
            i <= an,
            forall|j: int| 0 <= j < i ==> a@[j] == b@[j],
        decreases an - i,
    {
        if a.get_char(i) != b.get_char(i) {
            return false;
        }
        i = i + 1;
    }
    proof {
        assert(a@ =~= b@);
    }
    true
}

} // verus!
