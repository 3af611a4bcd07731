//! Character-sequence primitives: whitespace trimming, substring search,
//! and reading the value that follows a label prefix.

use vstd::prelude::*;

verus! {

/// The Unicode `White_Space` characters, the set that `str::trim` removes.
pub open spec fn is_space(c: char) -> bool {
    ||| c == ' '
    ||| c == '\t'
    ||| c == '\n'
    ||| c == '\u{b}'
    ||| c == '\u{c}'
    ||| c == '\r'
    ||| c == '\u{85}'
    ||| c == '\u{a0}'
    ||| c == '\u{1680}'
    ||| ('\u{2000}' <= c && c <= '\u{200a}')
    ||| c == '\u{2028}'
    ||| c == '\u{2029}'
    ||| c == '\u{202f}'
    ||| c == '\u{205f}'
    ||| c == '\u{3000}'
}

pub fn char_is_space(c: char) -> (r: bool)
    ensures
        r == is_space(c),
{
    c == ' ' || c == '\t' || c == '\n' || c == '\u{b}' || c == '\u{c}' || c == '\r'
        || c == '\u{85}' || c == '\u{a0}' || c == '\u{1680}'
        || ('\u{2000}' <= c && c <= '\u{200a}') || c == '\u{2028}' || c == '\u{2029}'
        || c == '\u{202f}' || c == '\u{205f}' || c == '\u{3000}'
}

/// What is left after removing leading whitespace.
pub open spec fn trim_start_spec(s: Seq<char>) -> Seq<char>
    decreases s.len(),
{
    if s.len() > 0 && is_space(s[0]) {
        trim_start_spec(s.drop_first())
    } else {
        s
    }
}

/// What is left after removing trailing whitespace.
pub open spec fn trim_end_spec(s: Seq<char>) -> Seq<char>
    decreases s.len(),
{
    if s.len() > 0 && is_space(s.last()) {
        trim_end_spec(s.drop_last())
    } else {
        s
    }
}

/// What is left after removing leading and trailing whitespace, as
/// `str::trim` does.
pub open spec fn trim_spec(s: Seq<char>) -> Seq<char> {
    trim_end_spec(trim_start_spec(s))
}

proof fn lemma_trim_start_range(s: Seq<char>, k: int)
    requires
        0 <= k <= s.len(),
        forall|j: int| 0 <= j < k ==> is_space(s[j]),
        k == s.len() || !is_space(s[k]),
    ensures
        trim_start_spec(s) == s.subrange(k, s.len() as int),
    decreases k,
{
    if k == 0 {
        assert(s.subrange(0, s.len() as int) =~= s);
    } else {
        let t = s.drop_first();
        assert(forall|j: int| 0 <= j < k - 1 ==> is_space(#[trigger] t[j]));
        lemma_trim_start_range(t, k - 1);
        assert(t.subrange(k - 1, t.len() as int) =~= s.subrange(k, s.len() as int));
    }
}

proof fn lemma_trim_end_range(s: Seq<char>, k: int)
    requires
        0 <= k <= s.len(),
        forall|j: int| k <= j < s.len() ==> is_space(s[j]),
        k == 0 || !is_space(s[k - 1]),
    ensures
        trim_end_spec(s) == s.subrange(0, k),
    decreases s.len() - k,
{
    if k == s.len() {
        assert(s.subrange(0, k) =~= s);
    } else {
        let t = s.drop_last();
        assert(is_space(s.last()));
        assert(forall|j: int| k <= j < t.len() ==> is_space(#[trigger] t[j]));
        lemma_trim_end_range(t, k);
        assert(t.subrange(0, k) =~= s.subrange(0, k));
    }
}

/// Remove leading and trailing whitespace, the way `str::trim` does.
pub fn trim_str<'a>(s: &'a str) -> (r: &'a str)
    ensures
        r@ == trim_spec(s@),
{
    let len = s.unicode_len();
    let mut start: usize = 0;
    while start < len && char_is_space(s.get_char(start))
        invariant
            start <= len,
            len == s@.len(),
            forall|j: int| 0 <= j < start ==> is_space(s@[j]),
        decreases len - start,
    {
        start += 1;
    }
    let mut end: usize = len;
    while end > start && char_is_space(s.get_char(end - 1))
        invariant
            start <= end <= len,
            len == s@.len(),
            forall|j: int| end <= j < len ==> is_space(s@[j]),
        decreases end,
    {
        end -= 1;
    }
    proof {
        lemma_trim_start_range(s@, start as int);
        let mid = s@.subrange(start as int, len as int);
        assert(forall|j: int| end - start <= j < mid.len() ==> is_space(#[trigger] mid[j]));
        if end > start {
            assert(mid[end - start - 1] == s@[end - 1]);
        }
        lemma_trim_end_range(mid, end - start);
        assert(mid.subrange(0, end - start) =~= s@.subrange(start as int, end as int));
    }
    s.substring_char(start, end)
}

/// The pattern `p` occurs in `t` starting at position `i`.
pub open spec fn match_at(t: Seq<char>, p: Seq<char>, i: int) -> bool {
    &&& 0 <= i
    &&& i + p.len() <= t.len()
    &&& t.subrange(i, i + p.len() as int) == p
}

/// The position of the first occurrence of `p` in `t` at or after `i`.
pub open spec fn find_from_spec(t: Seq<char>, p: Seq<char>, i: int) -> Option<int>
    decreases t.len() - i + 1,
{
    if i < 0 || i + p.len() > t.len() {
        None
    } else if match_at(t, p, i) {
        Some(i)
    } else {
        find_from_spec(t, p, i + 1)
    }
}

/// The position of the first occurrence of `p` in `t`, if any.
pub open spec fn find_spec(t: Seq<char>, p: Seq<char>) -> Option<int> {
    find_from_spec(t, p, 0)
}

/// `t` has `p` as a substring.
pub open spec fn contains_spec(t: Seq<char>, p: Seq<char>) -> bool {
    find_spec(t, p) is Some
}

proof fn lemma_find_from_skip(t: Seq<char>, p: Seq<char>, i: int)
    requires
        0 <= i,
        forall|j: int| 0 <= j < i ==> !match_at(t, p, j),
    ensures
        find_from_spec(t, p, 0) == find_from_spec(t, p, i),
    decreases i,
{
    if i > 0 {
        lemma_find_from_skip(t, p, i - 1);
        if i - 1 + p.len() > t.len() {
            assert(find_from_spec(t, p, i - 1) is None);
            assert(find_from_spec(t, p, i) is None);
        }
    }
}

proof fn lemma_find_from_found(t: Seq<char>, p: Seq<char>, i: int, r: int)
    requires
        find_from_spec(t, p, i) == Some(r),
    ensures
        i <= r,
        match_at(t, p, r),
    decreases t.len() - i + 1,
{
    if !(i >= 0 && i + p.len() <= t.len() && match_at(t, p, i)) {
        lemma_find_from_found(t, p, i + 1, r);
    }
}

fn matches_at(t: &str, p: &str, i: usize, plen: usize) -> (r: bool)
    requires
        plen == p@.len(),
        i + plen <= t@.len(),
        t@.len() <= usize::MAX,
    ensures
        r == match_at(t@, p@, i as int),
{
    let mut j: usize = 0;
    while j < plen
        invariant
            j <= plen,
            plen == p@.len(),
            i + plen <= t@.len(),
            t@.len() <= usize::MAX,
            forall|k: int| 0 <= k < j ==> t@[i + k] == p@[k],
        decreases plen - j,
    {
        if t.get_char(i + j) != p.get_char(j) {
            proof {
                let sub = t@.subrange(i as int, i + plen as int);
                assert(sub[j as int] == t@[i + j]);
            }
            return false;
        }
        j += 1;
    }
    proof {
        assert(t@.subrange(i as int, i + plen as int) =~= p@);
    }
    true
}

/// The position (in characters) of the first occurrence of `p` in `t`.
pub fn str_find(t: &str, p: &str) -> (r: Option<usize>)
    ensures
        r matches Some(i) ==> find_spec(t@, p@) == Some(i as int),
        r is None ==> find_spec(t@, p@) is None,
{
    let tlen = t.unicode_len();
    let plen = p.unicode_len();
    if plen > tlen {
        return None;
    }
    if plen == 0 {
        proof {
            assert(t@.subrange(0, 0) =~= p@);
        }
        return Some(0);
    }
    let mut i: usize = 0;
    while i <= tlen - plen
        invariant
            0 < plen <= tlen,
            tlen == t@.len(),
            plen == p@.len(),
            i <= tlen - plen + 1,
            forall|j: int| 0 <= j < i ==> !match_at(t@, p@, j),
        decreases tlen - i,
    {
        if matches_at(t, p, i, plen) {
            proof {
                lemma_find_from_skip(t@, p@, i as int);
            }
            return Some(i);
        }
        i += 1;
    }
    proof {
        lemma_find_from_skip(t@, p@, i as int);
    }
    None
}

/// `t` has `p` as a substring, as `str::contains` reports it.
pub fn str_contains(t: &str, p: &str) -> (r: bool)
    ensures
        r == contains_spec(t@, p@),
{
    str_find(t, p).is_some()
}

/// The stored value for a label prefix `p` found in paragraph text `t`:
/// everything after the first occurrence of `p`, trimmed; absent when `p`
/// does not occur or when nothing but whitespace follows it.
pub open spec fn value_after(t: Seq<char>, p: Seq<char>) -> Option<Seq<char>> {
    match find_spec(t, p) {
        None => None,
        Some(i) => {
            let v = trim_spec(t.subrange(i + p.len() as int, t.len() as int));
            if v.len() == 0 {
                None
            } else {
                Some(v)
            }
        },
    }
}

/// Read the value that follows the first occurrence of `prefix` in `text`,
/// trimmed; `None` when the prefix is absent or only whitespace follows it.
pub fn extract_value(text: &str, prefix: &str) -> (r: Option<String>)
    ensures
        r.deep_view() == value_after(text@, prefix@),
{
    match str_find(text, prefix) {
        None => None,
        Some(i) => {
            proof {
                lemma_find_from_found(text@, prefix@, 0, i as int);
            }
            let tlen = text.unicode_len();
            let plen = prefix.unicode_len();
            let rest = text.substring_char(i + plen, tlen);
            let v = trim_str(rest);
            if v.unicode_len() == 0 {
                None
            } else {
                Some(v.to_owned())
            }
        },
    }
}

} // verus!
