//! Laws of markup escaping: escaped text holds no raw markup characters, every
//! `&` in it begins a character entity, it is as long as the entities make it,
//! and replacing the entities back gives the text that was escaped.

use vstd::prelude::*;
use crate::svg_util::{escape_char, html_escaped, is_markup_char, lemma_escape_concat, lemma_escaped_has_no_markup};
use crate::text::matches_at;

verus! {

/// `"&amp;"`
pub open spec fn amp_entity() -> Seq<char> {
    seq!['&', 'a', 'm', 'p', ';']
}

/// `"&lt;"`
pub open spec fn lt_entity() -> Seq<char> {
    seq!['&', 'l', 't', ';']
}

/// `"&gt;"`
pub open spec fn gt_entity() -> Seq<char> {
    seq!['&', 'g', 't', ';']
}

/// `"&quot;"`
pub open spec fn quot_entity() -> Seq<char> {
    seq!['&', 'q', 'u', 'o', 't', ';']
}

/// One of the four character entities begins at position `i` of `s`.
pub open spec fn entity_at(s: Seq<char>, i: int) -> bool {
    ||| matches_at(s, amp_entity(), i)
    ||| matches_at(s, lt_entity(), i)
    ||| matches_at(s, gt_entity(), i)
    ||| matches_at(s, quot_entity(), i)
}

/// `s` with every occurrence of `pat` replaced by `rep`, scanning left to right
/// without overlaps (what `str::replace` gives for a non-empty pattern).
pub open spec fn replace_all(s: Seq<char>, pat: Seq<char>, rep: Seq<char>) -> Seq<char>
    decreases s.len(),
{
    if pat.len() == 0 || s.len() < pat.len() {
        s
    } else if s.take(pat.len() as int) == pat {
        rep + replace_all(s.skip(pat.len() as int), pat, rep)
    } else {
        seq![s[0]] + replace_all(s.skip(1), pat, rep)
    }
}

/// Escaped text with its entities replaced back: `&quot;`, then `&gt;`, then
/// `&lt;`, and `&amp;` last.
pub open spec fn html_unescaped(r: Seq<char>) -> Seq<char> {
    replace_all(
        replace_all(
            replace_all(replace_all(r, quot_entity(), seq!['"']), gt_entity(), seq!['>']),
            lt_entity(),
            seq!['<'],
        ),
        amp_entity(),
        seq!['&'],
    )
}

/// How many times `c` occurs in `s`.
pub open spec fn count_char(s: Seq<char>, c: char) -> nat
    decreases s.len(),
{
    if s.len() == 0 {
        0
    } else {
        count_char(s.drop_last(), c) + if s.last() == c {
            1nat
        } else {
            0nat
        }
    }
}

/// No `&` in `x`.
pub open spec fn has_no_amp(x: Seq<char>) -> bool {
    forall|i: int| 0 <= i < x.len() ==> x[i] != '&'
}

proof fn lemma_replace_skips_plain(x: Seq<char>, y: Seq<char>, pat: Seq<char>, rep: Seq<char>)
    requires
        pat.len() > 0,
        pat[0] == '&',
        has_no_amp(x),
    ensures
        replace_all(x + y, pat, rep) == x + replace_all(y, pat, rep),
    decreases x.len(),
{
    let s = x + y;
    if x.len() == 0 {
        assert(s =~= y);
        assert(x + replace_all(y, pat, rep) =~= replace_all(y, pat, rep));
    } else if s.len() < pat.len() {
        assert(s =~= x + y);
    } else {
        assert(s.take(pat.len() as int)[0] == x[0]);
        assert(s.take(pat.len() as int) != pat);
        assert(s.skip(1) =~= x.skip(1) + y);
        lemma_replace_skips_plain(x.skip(1), y, pat, rep);
        assert(seq![s[0]] + (x.skip(1) + replace_all(y, pat, rep)) =~= x + replace_all(y, pat, rep));
    }
}

proof fn lemma_replace_skips_other_entity(x: Seq<char>, y: Seq<char>, pat: Seq<char>, rep: Seq<char>)
    requires
        pat.len() >= 2,
        pat[0] == '&',
        x.len() >= 2,
        x[0] == '&',
        x[1] != pat[1],
        has_no_amp(x.skip(1)),
    ensures
        replace_all(x + y, pat, rep) == x + replace_all(y, pat, rep),
{
    let s = x + y;
    if s.len() < pat.len() {
    } else {
        assert(s.take(pat.len() as int)[1] == x[1]);
        assert(s.take(pat.len() as int) != pat);
        assert(s.skip(1) =~= x.skip(1) + y);
        lemma_replace_skips_plain(x.skip(1), y, pat, rep);
        assert(seq![s[0]] + (x.skip(1) + replace_all(y, pat, rep)) =~= x + replace_all(y, pat, rep));
    }
}

proof fn lemma_replace_match(y: Seq<char>, pat: Seq<char>, rep: Seq<char>)
    requires
        pat.len() > 0,
    ensures
        replace_all(pat + y, pat, rep) == rep + replace_all(y, pat, rep),
{
    let s = pat + y;
    assert(s.take(pat.len() as int) =~= pat);
    assert(s.skip(pat.len() as int) =~= y);
}

/// The entity replaced by pass `k` of the unescaping (0: quote, 1: `>`, 2: `<`, 3: `&`).
spec fn pass_entity(k: int) -> Seq<char> {
    if k == 0 {
        quot_entity()
    } else if k == 1 {
        gt_entity()
    } else if k == 2 {
        lt_entity()
    } else {
        amp_entity()
    }
}

/// The character that pass `k` puts back.
spec fn pass_char(k: int) -> char {
    if k == 0 {
        '"'
    } else if k == 1 {
        '>'
    } else if k == 2 {
        '<'
    } else {
        '&'
    }
}

/// What stands for `c` after the first `k` unescaping passes.
spec fn stage_piece(c: char, k: int) -> Seq<char> {
    if (c == '"' && k >= 1) || (c == '>' && k >= 2) || (c == '<' && k >= 3) || (c == '&' && k
        >= 4) {
        seq![c]
    } else {
        escape_char(c)
    }
}

/// `s` after escaping and the first `k` unescaping passes.
spec fn staged(s: Seq<char>, k: int) -> Seq<char>
    decreases s.len(),
{
    if s.len() == 0 {
        Seq::empty()
    } else {
        stage_piece(s[0], k) + staged(s.drop_first(), k)
    }
}

proof fn lemma_pass(s: Seq<char>, k: int)
    requires
        0 <= k < 4,
    ensures
        replace_all(staged(s, k), pass_entity(k), seq![pass_char(k)]) == staged(s, k + 1),
    decreases s.len(),
{
    let pat = pass_entity(k);
    let rep = seq![pass_char(k)];
    if s.len() == 0 {
        assert(pat.len() > 0);
    } else {
        let c = s[0];
        let piece = stage_piece(c, k);
        let rest = staged(s.drop_first(), k);
        lemma_pass(s.drop_first(), k);
        assert(staged(s, k) == piece + rest);
        assert(staged(s, k + 1) == stage_piece(c, k + 1) + staged(s.drop_first(), k + 1));
        if c == pass_char(k) {
            assert(piece == pat);
            lemma_replace_match(rest, pat, rep);
        } else if piece.len() == 1 {
            assert(piece == seq![c]);
            assert(c != '&');
            assert(has_no_amp(piece));
            lemma_replace_skips_plain(piece, rest, pat, rep);
        } else {
            assert(piece == escape_char(c));
            assert(piece[1] != pat[1]);
            assert(has_no_amp(piece.skip(1)));
            lemma_replace_skips_other_entity(piece, rest, pat, rep);
        }
    }
}

proof fn lemma_staged_start(s: Seq<char>)
    ensures
        staged(s, 0) == html_escaped(s),
    decreases s.len(),
{
    if s.len() > 0 {
        lemma_staged_start(s.drop_first());
        assert(s =~= seq![s[0]] + s.drop_first());
        lemma_escape_concat(seq![s[0]], s.drop_first());
        assert(seq![s[0]].drop_last() =~= Seq::<char>::empty());
        assert(html_escaped(seq![s[0]]) == html_escaped(Seq::<char>::empty()) + escape_char(s[0]));
        assert(html_escaped(seq![s[0]]) =~= escape_char(s[0]));
    }
}

proof fn lemma_staged_end(s: Seq<char>)
    ensures
        staged(s, 4) == s,
    decreases s.len(),
{
    if s.len() > 0 {
        lemma_staged_end(s.drop_first());
        assert(s =~= seq![s[0]] + s.drop_first());
    }
}

proof fn lemma_match_extends(a: Seq<char>, b: Seq<char>, pat: Seq<char>, i: int)
    ensures
        matches_at(a, pat, i) ==> matches_at(a + b, pat, i),
{
    if matches_at(a, pat, i) {
        assert((a + b).subrange(i, i + pat.len()) =~= a.subrange(i, i + pat.len()));
    }
}

#[verifier::spinoff_prover]
proof fn lemma_ampersands_begin_entities(s: Seq<char>)
    ensures
        forall|i: int|
            0 <= i < html_escaped(s).len() && #[trigger] html_escaped(s)[i] == '&' ==> entity_at(
                html_escaped(s),
                i,
            ),
    decreases s.len(),
{
    if s.len() > 0 {
        let a = html_escaped(s.drop_last());
        let b = escape_char(s.last());
        lemma_ampersands_begin_entities(s.drop_last());
        let r = a + b;
        assert(html_escaped(s) == r);
        assert forall|i: int| 0 <= i < r.len() && #[trigger] r[i] == '&' implies entity_at(r, i) by {
            if i < a.len() {
                assert(a[i] == '&');
                assert(entity_at(a, i));
                lemma_match_extends(a, b, amp_entity(), i);
                lemma_match_extends(a, b, lt_entity(), i);
                lemma_match_extends(a, b, gt_entity(), i);
                lemma_match_extends(a, b, quot_entity(), i);
            } else {
                let j = i - a.len();
                assert(b[j] == '&');
                assert(j == 0);
                assert(r.subrange(a.len() as int, (a.len() + b.len()) as int) =~= b);
            }
        }
    }
}

proof fn lemma_escaped_len(s: Seq<char>)
    ensures
        html_escaped(s).len() == s.len() + 4 * count_char(s, '&') + 3 * count_char(s, '<') + 3
            * count_char(s, '>') + 5 * count_char(s, '"'),
    decreases s.len(),
{
    if s.len() > 0 {
        lemma_escaped_len(s.drop_last());
    }
}

/// The laws of `html_escape` (whose result is `html_escaped(s)`): the escaped
/// text holds no raw `<`, `>` or `"`; every `&` in it begins `&amp;`, `&lt;`,
/// `&gt;` or `&quot;`; replacing `&quot;`, `&gt;`, `&lt;` and then `&amp;`
/// back gives `s`; and each `&` adds 4 characters, each `<` and `>` 3, and
/// each `"` 5.
pub proof fn lemma_html_escape_laws(s: Seq<char>)
    ensures
        forall|i: int|
            0 <= i < html_escaped(s).len() ==> !is_markup_char(#[trigger] html_escaped(s)[i]),
        forall|i: int|
            0 <= i < html_escaped(s).len() && #[trigger] html_escaped(s)[i] == '&' ==> entity_at(
                html_escaped(s),
                i,
            ),
        html_unescaped(html_escaped(s)) == s,
        html_escaped(s).len() == s.len() + 4 * count_char(s, '&') + 3 * count_char(s, '<') + 3
            * count_char(s, '>') + 5 * count_char(s, '"'),
{
    lemma_escaped_has_no_markup(s);
    lemma_ampersands_begin_entities(s);
    lemma_escaped_len(s);
    lemma_staged_start(s);
    lemma_pass(s, 0);
    lemma_pass(s, 1);
    lemma_pass(s, 2);
    lemma_pass(s, 3);
    lemma_staged_end(s);
}

} // verus!
