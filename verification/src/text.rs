//! Character-sequence utilities the protocol layer builds on: substring
//! search for the modem's result tokens, and trimming of ASCII whitespace
//! around a response before it is embedded in a diagnostic.

use vstd::prelude::*;
use vstd::string::StrSliceExecFns;

verus! {

/// `tok` occurs as a contiguous run of characters somewhere inside `hay`.
pub open spec fn has_token(hay: Seq<char>, tok: Seq<char>) -> bool {
    exists|i: int|
        0 <= i && i + tok.len() <= hay.len() && #[trigger] hay.subrange(i, i + tok.len()) == tok
}

/// The ASCII whitespace characters that trimming removes from a response.
pub open spec fn is_ws(c: char) -> bool {
    c == ' ' || c == '\t' || c == '\n' || c == '\r' || c == '\u{b}' || c == '\u{c}'
}

/// `s` with every leading whitespace character removed.
pub open spec fn trim_front(s: Seq<char>) -> Seq<char>
    decreases s.len(),
{
    if s.len() > 0 && is_ws(s[0]) {
        trim_front(s.subrange(1, s.len() as int))
    } else {
        s
    }
}

/// `s` with every trailing whitespace character removed.
pub open spec fn trim_back(s: Seq<char>) -> Seq<char>
    decreases s.len(),
{
    if s.len() > 0 && is_ws(s[s.len() - 1]) {
        trim_back(s.subrange(0, s.len() - 1))
    } else {
        s
    }
}

/// `s` with whitespace removed from both ends.
pub open spec fn trim_ws(s: Seq<char>) -> Seq<char> {
    trim_front(trim_back(s))
}

/// Decides whether `c` is one of the whitespace characters of `is_ws`.
pub fn ws_char(c: char) -> (b: bool)
    ensures
        b == is_ws(c),
{
    c == ' ' || c == '\t' || c == '\n' || c == '\r' || c == '\u{b}' || c == '\u{c}'
}

/// Decides whether `tok` occurs inside `hay`, by direct character comparison.
pub fn find_token(hay: &str, tok: &str) -> (found: bool)
    ensures
        found == has_token(hay@, tok@),
{
    let hlen = hay.unicode_len();
    let tlen = tok.unicode_len();
    if tlen > hlen {
        return false;
    }
    let mut i: usize = 0;
    while i <= hlen - tlen
        invariant
            tlen <= hlen,
            hlen == hay@.len(),
            tlen == tok@.len(),
            i <= hlen - tlen + 1,
            forall|k: int| 0 <= k < i ==> #[trigger] hay@.subrange(k, k + tok@.len()) != tok@,
        decreases hlen - tlen + 1 - i,
    {
        let mut j: usize = 0;
        let mut still_equal = true;
        while still_equal && j < tlen
            invariant
                tlen <= hlen,
                hlen == hay@.len(),
                tlen == tok@.len(),
                i <= hlen - tlen,
                j <= tlen,
                still_equal ==> forall|k: int| 0 <= k < j ==> hay@[i + k] == tok@[k],
                !still_equal ==> j < tlen && hay@[i + j] != tok@[j as int],
            decreases tlen - j + (if still_equal { 1int } else { 0int }),
        {
            if hay.get_char(i + j) != tok.get_char(j) {
                still_equal = false;
            } else {
                j = j + 1;
            }
        }
        if still_equal {
            assert(hay@.subrange(i as int, i + tok@.len()) =~= tok@);
            return true;
        }
        assert(hay@.subrange(i as int, i + tok@.len()) != tok@) by {
            assert(hay@.subrange(i as int, i + tok@.len())[j as int] == hay@[i + j]);
        }
        i = i + 1;
    }
    assert(forall|k: int|
        0 <= k && k + tok@.len() <= hay@.len() ==> #[trigger] hay@.subrange(k, k + tok@.len())
            != tok@);
    false
}

proof fn lemma_trim_front_at(s: Seq<char>, lo: int)
    requires
        0 <= lo <= s.len(),
        forall|k: int| 0 <= k < lo ==> is_ws(#[trigger] s[k]),
        lo == s.len() || !is_ws(s[lo]),
    ensures
        trim_front(s) == s.subrange(lo, s.len() as int),
    decreases lo,
{
    if lo == 0 {
        assert(s.subrange(0, s.len() as int) =~= s);
    } else {
        let rest = s.subrange(1, s.len() as int);
        lemma_trim_front_at(rest, lo - 1);
        assert(rest.subrange(lo - 1, rest.len() as int) =~= s.subrange(lo, s.len() as int));
    }
}

proof fn lemma_trim_back_at(s: Seq<char>, hi: int)
    requires
        0 <= hi <= s.len(),
        forall|k: int| hi <= k < s.len() ==> is_ws(#[trigger] s[k]),
        hi == 0 || !is_ws(s[hi - 1]),
    ensures
        trim_back(s) == s.subrange(0, hi),
    decreases s.len(),
{
    if hi == s.len() {
        assert(s.subrange(0, s.len() as int) =~= s);
    } else {
        let rest = s.subrange(0, s.len() - 1);
        lemma_trim_back_at(rest, hi);
        assert(rest.subrange(0, hi) =~= s.subrange(0, hi));
    }
}

/// Copies `s` with whitespace removed from both ends, as `str::trim` does
/// for ASCII text.
pub fn trim_text(s: &str) -> (r: String)
    ensures
        r@ == trim_ws(s@),
{
    let len = s.unicode_len();
    let mut lo: usize = 0;
    while lo < len && ws_char(s.get_char(lo))
        invariant
            len == s@.len(),
            lo <= len,
            forall|k: int| 0 <= k < lo ==> is_ws(#[trigger] s@[k]),
        decreases len - lo,
    {
        lo = lo + 1;
    }
    let mut hi: usize = len;
    while hi > lo && ws_char(s.get_char(hi - 1))
        invariant
            len == s@.len(),
            lo <= hi <= len,
            forall|k: int| hi <= k < len ==> is_ws(#[trigger] s@[k]),
        decreases hi,
    {
        hi = hi - 1;
    }
    proof {
        if lo == len {
            assert(hi == lo);
            lemma_trim_back_at(s@, 0);
            assert(trim_back(s@) =~= Seq::<char>::empty());
            assert(trim_ws(s@) =~= s@.subrange(lo as int, hi as int));
        } else {
            assert(!is_ws(s@[lo as int]));
            assert(hi > lo);
            assert(!is_ws(s@[hi - 1]));
            lemma_trim_back_at(s@, hi as int);
            let cut = s@.subrange(0, hi as int);
            lemma_trim_front_at(cut, lo as int);
            assert(cut.subrange(lo as int, cut.len() as int) =~= s@.subrange(
                lo as int,
                hi as int,
            ));
        }
    }
    let t = s.substring_char(lo, hi);
    String::from_str(t)
}

} // verus!
