//! Character-level text helpers shared by the label and SVG string logic.
//!
//! Text is modelled as the sequence of its Unicode scalar values (`Seq<char>`),
//! which is what `str`'s view gives. Searches report character positions.

use vstd::prelude::*;

verus! {

/// `pat` occurs in `s` starting at character position `i`.
pub open spec fn matches_at(s: Seq<char>, pat: Seq<char>, i: int) -> bool {
    &&& 0 <= i
    &&& i + pat.len() <= s.len()
    &&& s.subrange(i, i + pat.len()) == pat
}

/// First position `>= i` at which `pat` occurs in `s`.
pub open spec fn find_from(s: Seq<char>, pat: Seq<char>, i: int) -> Option<int>
    decreases s.len() + 1 - i,
{
    if i < 0 || i + pat.len() > s.len() {
        None
    } else if matches_at(s, pat, i) {
        Some(i)
    } else {
        find_from(s, pat, i + 1)
    }
}

/// First position at which `pat` occurs in `s` (what `str::find` reports).
pub open spec fn find_first(s: Seq<char>, pat: Seq<char>) -> Option<int> {
    find_from(s, pat, 0)
}

/// Last position `<= i` at which `pat` occurs in `s`.
pub open spec fn rfind_upto(s: Seq<char>, pat: Seq<char>, i: int) -> Option<int>
    decreases i + 1,
{
    if i < 0 {
        None
    } else if matches_at(s, pat, i) {
        Some(i)
    } else {
        rfind_upto(s, pat, i - 1)
    }
}

/// Last position at which `pat` occurs in `s` (what `str::rfind` reports).
pub open spec fn find_last(s: Seq<char>, pat: Seq<char>) -> Option<int> {
    rfind_upto(s, pat, s.len() - pat.len())
}

/// Unicode `White_Space` characters, as `char::is_whitespace` documents them.
pub open spec fn is_white_space(c: char) -> bool {
    ||| c == '\t' || c == '\n' || c == '\u{0B}' || c == '\u{0C}' || c == '\r' || c == ' '
    ||| c == '\u{85}' || c == '\u{A0}' || c == '\u{1680}'
    ||| ('\u{2000}' <= c && c <= '\u{200A}')
    ||| c == '\u{2028}' || c == '\u{2029}' || c == '\u{202F}' || c == '\u{205F}'
    ||| c == '\u{3000}'
}

/// `s` without its leading white space (what `str::trim_start` gives).
pub open spec fn trim_start(s: Seq<char>) -> Seq<char>
    decreases s.len(),
{
    if s.len() > 0 && is_white_space(s[0]) {
        trim_start(s.drop_first())
    } else {
        s
    }
}

/// What `find_from` reports is a match, and nothing before it (from `i`) is.
pub proof fn lemma_find_from_spec(s: Seq<char>, pat: Seq<char>, i: int)
    requires
        0 <= i,
    ensures
        find_from(s, pat, i) matches Some(k) ==> i <= k && matches_at(s, pat, k)
            && forall|m: int| i <= m < k ==> !matches_at(s, pat, m),
        find_from(s, pat, i) is None ==> forall|m: int| i <= m ==> !matches_at(s, pat, m),
    decreases s.len() + 1 - i,
{
    if i + pat.len() > s.len() {
    } else if matches_at(s, pat, i) {
    } else {
        lemma_find_from_spec(s, pat, i + 1);
    }
}

/// What `rfind_upto` reports is a match, and nothing after it (up to `i`) is.
pub proof fn lemma_rfind_upto_spec(s: Seq<char>, pat: Seq<char>, i: int)
    ensures
        rfind_upto(s, pat, i) matches Some(k) ==> 0 <= k <= i && matches_at(s, pat, k)
            && forall|m: int| k < m <= i ==> !matches_at(s, pat, m),
        rfind_upto(s, pat, i) is None ==> forall|m: int| m <= i ==> !matches_at(s, pat, m),
    decreases i + 1,
{
    if i >= 0 && !matches_at(s, pat, i) {
        lemma_rfind_upto_spec(s, pat, i - 1);
    }
}

/// Calls `String::push`. Trusted: the contract claims, as std documents, that
/// the string afterwards holds its former characters followed by `c`.
#[verifier::external_body]
pub(crate) fn push_char(s: &mut String, c: char)
    ensures
        final(s)@ == old(s)@.push(c),
{
    s.push(c);
}

/// The characters of `s`, in order.
pub fn chars_of(s: &str) -> (v: Vec<char>)
    ensures
        v@ == s@,
{
    let mut v: Vec<char> = Vec::new();
    for c in it: s.chars()
        invariant
            v@ == it.seq().take(it.index() as int),
            it.seq() == s@,
    {
        v.push(c);
    }
    v
}

/// The string made of `v[lo..hi]`.
pub(crate) fn string_of_range(v: &Vec<char>, lo: usize, hi: usize) -> (s: String)
    requires
        lo <= hi <= v.len(),
    ensures
        s@ == v@.subrange(lo as int, hi as int),
{
    let mut s = String::new();
    let mut i = lo;
    while i < hi
        invariant
            lo <= i <= hi <= v.len(),
            s@ == v@.subrange(lo as int, i as int),
        decreases hi - i,
    {
        push_char(&mut s, v[i]);
        assert(v@.subrange(lo as int, i + 1) == v@.subrange(lo as int, i as int).push(v@[i as int]));
        i = i + 1;
    }
    s
}

/// Whether `pat` occurs in `v` at position `i`.
pub(crate) fn matches_at_exec(v: &Vec<char>, pat: &Vec<char>, i: usize) -> (b: bool)
    ensures
        b == matches_at(v@, pat@, i as int),
{
    if pat.len() > v.len() || i > v.len() - pat.len() {
        return false;
    }
    let mut k: usize = 0;
    while k < pat.len()
        invariant
            i + pat.len() <= v.len(),
            k <= pat.len(),
            forall|m: int| 0 <= m < k ==> v@[i + m] == pat@[m],
        decreases pat.len() - k,
    {
        if v[i + k] != pat[k] {
            assert(v@.subrange(i as int, i + pat.len())[k as int] != pat@[k as int]);
            return false;
        }
        k = k + 1;
    }
    assert(v@.subrange(i as int, i + pat.len()) =~= pat@);
    true
}

/// First position `>= from` at which `pat` occurs in `v`.
pub(crate) fn find_from_exec(v: &Vec<char>, pat: &Vec<char>, from: usize) -> (r: Option<usize>)
    requires
        pat.len() > 0,
    ensures
        r matches Some(k) ==> find_from(v@, pat@, from as int) == Some(k as int),
        r is None ==> find_from(v@, pat@, from as int) is None,
{
    if pat.len() > v.len() || from > v.len() - pat.len() {
        return None;
    }
    let last = v.len() - pat.len();
    let mut i = from;
    while i <= last
        invariant
            from <= i,
            pat.len() > 0,
            last + pat.len() == v.len(),
            find_from(v@, pat@, from as int) == find_from(v@, pat@, i as int),
        decreases last + 1 - i,
    {
        if matches_at_exec(v, pat, i) {
            return Some(i);
        }
        assert(find_from(v@, pat@, i as int) == find_from(v@, pat@, i + 1));
        i = i + 1;
    }
    None
}

/// Last position at which `pat` occurs in `v`.
pub(crate) fn find_last_exec(v: &Vec<char>, pat: &Vec<char>) -> (r: Option<usize>)
    requires
        pat.len() > 0,
    ensures
        r matches Some(k) ==> find_last(v@, pat@) == Some(k as int),
        r is None ==> find_last(v@, pat@) is None,
{
    if pat.len() > v.len() {
        return None;
    }
    let mut i = v.len() - pat.len() + 1;
    while i > 0
        invariant
            i <= v.len() - pat.len() + 1,
            find_last(v@, pat@) == rfind_upto(v@, pat@, i - 1),
        decreases i,
    {
        if matches_at_exec(v, pat, i - 1) {
            return Some(i - 1);
        }
        i = i - 1;
    }
    None
}

/// First position `>= from` (and `<= v.len()`) whose character is not white space.
pub(crate) fn skip_white_space(v: &Vec<char>, from: usize) -> (k: usize)
    requires
        from <= v.len(),
    ensures
        from <= k <= v.len(),
        trim_start(v@.subrange(from as int, v.len() as int)) == v@.subrange(
            k as int,
            v.len() as int,
        ),
{
    let mut k = from;
    while k < v.len() && is_white_space_exec(v[k])
        invariant
            from <= k <= v.len(),
            trim_start(v@.subrange(from as int, v.len() as int)) == trim_start(
                v@.subrange(k as int, v.len() as int),
            ),
        decreases v.len() - k,
    {
        assert(v@.subrange(k as int, v.len() as int).drop_first() =~= v@.subrange(
            k + 1,
            v.len() as int,
        ));
        k = k + 1;
    }
    k
}

/// `char::is_whitespace`.
pub fn is_white_space_exec(c: char) -> (b: bool)
    ensures
        b == is_white_space(c),
{
    c == '\t' || c == '\n' || c == '\u{0B}' || c == '\u{0C}' || c == '\r' || c == ' '
        || c == '\u{85}' || c == '\u{A0}' || c == '\u{1680}' || ('\u{2000}' <= c && c
        <= '\u{200A}') || c == '\u{2028}' || c == '\u{2029}' || c == '\u{202F}' || c
        == '\u{205F}' || c == '\u{3000}'
}


/// `s` without its trailing white space (what `str::trim_end` gives).
pub open spec fn trim_end(s: Seq<char>) -> Seq<char>
    decreases s.len(),
{
    if s.len() > 0 && is_white_space(s.last()) {
        trim_end(s.drop_last())
    } else {
        s
    }
}

/// `s` without leading and trailing white space (what `str::trim` gives).
pub open spec fn trim(s: Seq<char>) -> Seq<char> {
    trim_end(trim_start(s))
}

/// Last position `< hi` (and `>= lo`) whose character is not white space, plus one;
/// `lo` when `v[lo..hi]` is all white space.
pub(crate) fn skip_white_space_back(v: &Vec<char>, lo: usize, hi: usize) -> (k: usize)
    requires
        lo <= hi <= v.len(),
    ensures
        lo <= k <= hi,
        trim_end(v@.subrange(lo as int, hi as int)) == v@.subrange(lo as int, k as int),
{
    let mut k = hi;
    while k > lo && is_white_space_exec(v[k - 1])
        invariant
            lo <= k <= hi <= v.len(),
            trim_end(v@.subrange(lo as int, hi as int)) == trim_end(
                v@.subrange(lo as int, k as int),
            ),
        decreases k,
    {
        assert(v@.subrange(lo as int, k as int).drop_last() =~= v@.subrange(lo as int, k - 1));
        k = k - 1;
    }
    k
}

/// The trimmed `s`, as a range `v[a..b]` of its characters `v`.
pub(crate) fn trim_range(v: &Vec<char>) -> (r: (usize, usize))
    ensures
        r.0 <= r.1 <= v.len(),
        trim(v@) == v@.subrange(r.0 as int, r.1 as int),
{
    let a = skip_white_space(v, 0);
    assert(v@.subrange(0, v.len() as int) =~= v@);
    let b = skip_white_space_back(v, a, v.len());
    (a, b)
}

/// Where the words of `s` (maximal runs of characters other than white space)
/// lie: `(start, end)` of each, left to right (what `str::split_whitespace` yields).
pub open spec fn word_spans(s: Seq<char>) -> Seq<(int, int)>
    decreases s.len(),
{
    if s.len() == 0 {
        Seq::empty()
    } else {
        let n = s.len() - 1;
        let w = word_spans(s.drop_last());
        if is_white_space(s[n]) {
            w
        } else if n > 0 && !is_white_space(s[n - 1]) {
            w.update(w.len() - 1, (w.last().0, n + 1))
        } else {
            w.push((n, n + 1))
        }
    }
}


/// Every word span lies in `s` and is not empty; the last one ends where `s`
/// ends when `s` ends in a word.
pub proof fn lemma_word_spans_bounds(s: Seq<char>)
    ensures
        forall|k: int|
            0 <= k < word_spans(s).len() ==> 0 <= #[trigger] word_spans(s)[k].0 < word_spans(
                s,
            )[k].1 <= s.len(),
        s.len() > 0 && !is_white_space(s.last()) ==> word_spans(s).len() > 0
            && word_spans(s).last().1 == s.len(),
    decreases s.len(),
{
    if s.len() > 0 {
        let t = s.drop_last();
        lemma_word_spans_bounds(t);
        let n = s.len() - 1;
        let w = word_spans(t);
        if is_white_space(s[n]) {
        } else if n > 0 && !is_white_space(s[n - 1]) {
            assert(t.last() == s[n - 1]);
            let u = w.update(w.len() - 1, (w.last().0, n + 1));
            assert(word_spans(s) == u);
            assert forall|k: int| 0 <= k < u.len() implies 0 <= #[trigger] u[k].0 < u[k].1
                <= s.len() by {
                if k < w.len() - 1 {
                    assert(u[k] == w[k]);
                }
            }
        } else {
            let u = w.push((n, n + 1));
            assert(word_spans(s) == u);
            assert forall|k: int| 0 <= k < u.len() implies 0 <= #[trigger] u[k].0 < u[k].1
                <= s.len() by {
                if k < w.len() {
                    assert(u[k] == w[k]);
                }
            }
        }
    }
}

/// White space at the end adds no word.
pub proof fn lemma_word_spans_push_space(s: Seq<char>, c: char)
    requires
        is_white_space(c),
    ensures
        word_spans(s.push(c)) == word_spans(s),
{
    assert(s.push(c).drop_last() =~= s);
}

/// A word put after nothing or after white space is one more word, spanning
/// exactly its characters.
pub proof fn lemma_word_spans_push_word(s: Seq<char>, w: Seq<char>)
    requires
        s.len() == 0 || is_white_space(s.last()),
        w.len() > 0,
        forall|i: int| 0 <= i < w.len() ==> !is_white_space(#[trigger] w[i]),
    ensures
        word_spans(s + w) == word_spans(s).push((s.len() as int, (s.len() + w.len()) as int)),
    decreases w.len(),
{
    let t = s + w;
    let n = t.len() - 1;
    assert(t[n] == w[w.len() - 1]);
    if w.len() == 1 {
        assert(t.drop_last() =~= s);
        if n > 0 {
            assert(t[n - 1] == s.last());
        }
    } else {
        let w2 = w.drop_last();
        lemma_word_spans_push_word(s, w2);
        assert(t.drop_last() =~= s + w2);
        assert(t[n - 1] == w[w.len() - 2]);
        assert(word_spans(t) =~= word_spans(s).push((s.len() as int, (s.len() + w.len()) as int)));
    }
}

/// The word spans of `v` (see [`word_spans`]).
pub(crate) fn word_spans_exec(v: &Vec<char>) -> (r: Vec<(usize, usize)>)
    ensures
        r@.len() == word_spans(v@).len(),
        forall|k: int|
            0 <= k < r@.len() ==> (#[trigger] r@[k].0 as int, r@[k].1 as int) == word_spans(
                v@,
            )[k],
{
    let mut r: Vec<(usize, usize)> = Vec::new();
    let mut i: usize = 0;
    while i < v.len()
        invariant
            i <= v.len(),
            r@.len() == word_spans(v@.take(i as int)).len(),
            forall|k: int|
                0 <= k < r@.len() ==> (#[trigger] r@[k].0 as int, r@[k].1 as int) == word_spans(
                    v@.take(i as int),
                )[k],
        decreases v.len() - i,
    {
        let ghost s = v@.take(i + 1);
        assert(s.drop_last() =~= v@.take(i as int));
        assert(s[i as int] == v@[i as int]);
        if is_white_space_exec(v[i]) {
        } else if i > 0 && !is_white_space_exec(v[i - 1]) {
            assert(s[i - 1] == v@[i - 1]);
            proof {
                lemma_word_spans_bounds(v@.take(i as int));
                assert(v@.take(i as int).last() == v@[i - 1]);
            }
            let last = r.len() - 1;
            let start = r[last].0;
            r.set(last, (start, i + 1));
        } else {
            r.push((i, i + 1));
        }
        i = i + 1;
    }
    assert(v@.take(v.len() as int) =~= v@);
    r
}

} // verus!
