//! SVG string utilities: markup escaping and extraction of an SVG's body.

use vstd::prelude::*;
use crate::text::{
    chars_of, find_first, find_from, find_from_exec, find_last, find_last_exec, push_char,
    skip_white_space, string_of_range, trim_start, word_spans, word_spans_exec,
};

verus! {

/// The text that stands for `c` in escaped markup.
pub open spec fn escape_char(c: char) -> Seq<char> {
    if c == '&' {
        seq!['&', 'a', 'm', 'p', ';']
    } else if c == '<' {
        seq!['&', 'l', 't', ';']
    } else if c == '>' {
        seq!['&', 'g', 't', ';']
    } else if c == '"' {
        seq!['&', 'q', 'u', 'o', 't', ';']
    } else {
        seq![c]
    }
}

/// `s` with every `&`, `<`, `>` and `"` replaced by its character entity.
pub open spec fn html_escaped(s: Seq<char>) -> Seq<char>
    decreases s.len(),
{
    if s.len() == 0 {
        Seq::empty()
    } else {
        html_escaped(s.drop_last()) + escape_char(s.last())
    }
}

/// A character that must not appear raw in escaped text.
pub open spec fn is_markup_char(c: char) -> bool {
    c == '<' || c == '>' || c == '"'
}

/// Escapes the characters that are special in SVG/HTML text and attribute values.
pub fn html_escape(s: &str) -> (r: String)
    ensures
        r@ == html_escaped(s@),
        forall|i: int| 0 <= i < r@.len() ==> !is_markup_char(#[trigger] r@[i]),
{
    let v = chars_of(s);
    let mut out = String::new();
    let mut i: usize = 0;
    while i < v.len()
        invariant
            v@ == s@,
            i <= v.len(),
            out@ == html_escaped(v@.take(i as int)),
        decreases v.len() - i,
    {
        let c = v[i];
        if c == '&' {
            push_char(&mut out, '&');
            push_char(&mut out, 'a');
            push_char(&mut out, 'm');
            push_char(&mut out, 'p');
            push_char(&mut out, ';');
        } else if c == '<' {
            push_char(&mut out, '&');
            push_char(&mut out, 'l');
            push_char(&mut out, 't');
            push_char(&mut out, ';');
        } else if c == '>' {
            push_char(&mut out, '&');
            push_char(&mut out, 'g');
            push_char(&mut out, 't');
            push_char(&mut out, ';');
        } else if c == '"' {
            push_char(&mut out, '&');
            push_char(&mut out, 'q');
            push_char(&mut out, 'u');
            push_char(&mut out, 'o');
            push_char(&mut out, 't');
            push_char(&mut out, ';');
        } else {
            push_char(&mut out, c);
        }
        assert(v@.take(i + 1).drop_last() =~= v@.take(i as int));
        assert(out@ =~= html_escaped(v@.take(i as int)) + escape_char(c));
        i = i + 1;
    }
    assert(v@.take(v.len() as int) =~= v@);
    proof {
        lemma_escaped_has_no_markup(s@);
    }
    out
}

/// Escaped text holds no raw `<`, `>` or `"`.
pub proof fn lemma_escaped_has_no_markup(s: Seq<char>)
    ensures
        forall|i: int|
            0 <= i < html_escaped(s).len() ==> !is_markup_char(#[trigger] html_escaped(s)[i]),
    decreases s.len(),
{
    if s.len() > 0 {
        lemma_escaped_has_no_markup(s.drop_last());
        let a = html_escaped(s.drop_last());
        let b = escape_char(s.last());
        assert forall|i: int| 0 <= i < (a + b).len() implies !is_markup_char(#[trigger] (a
            + b)[i]) by {
            if i >= a.len() {
                assert((a + b)[i] == b[i - a.len()]);
            }
        }
    }
}

/// Escaping commutes with concatenation: text can be escaped piece by piece.
pub proof fn lemma_escape_concat(a: Seq<char>, b: Seq<char>)
    ensures
        html_escaped(a + b) == html_escaped(a) + html_escaped(b),
    decreases b.len(),
{
    if b.len() == 0 {
        assert(a + b =~= a);
        assert(html_escaped(b) =~= Seq::<char>::empty());
        assert(html_escaped(a) + html_escaped(b) =~= html_escaped(a));
    } else {
        lemma_escape_concat(a, b.drop_last());
        assert((a + b).drop_last() =~= a + b.drop_last());
        assert((a + b).last() == b.last());
        assert(html_escaped(a + b) =~= html_escaped(a) + html_escaped(b.drop_last())
            + escape_char(b.last()));
    }
}

/// `">"`
pub open spec fn tag_end() -> Seq<char> {
    seq!['>']
}

/// `"</svg>"`
pub open spec fn svg_close() -> Seq<char> {
    seq!['<', '/', 's', 'v', 'g', '>']
}

/// `"<rect fill="`
pub open spec fn rect_fill_open() -> Seq<char> {
    seq!['<', 'r', 'e', 'c', 't', ' ', 'f', 'i', 'l', 'l', '=']
}

/// `"/>"`
pub open spec fn empty_tag_end() -> Seq<char> {
    seq!['/', '>']
}

/// The body of the SVG document is well placed: where both the first `>` and
/// the last `</svg>` occur, the first `>` comes before the last `</svg>`.
pub open spec fn svg_body_well_placed(s: Seq<char>) -> bool {
    match (find_first(s, tag_end()), find_last(s, svg_close())) {
        (Some(g), Some(e)) => g + 1 <= e,
        _ => true,
    }
}

/// What `extract_svg_content` gives: the text between the end of the opening
/// tag and the last `</svg>`, with the first `<rect fill=.../>` element (the
/// background) removed together with the white space after it; the whole
/// input when the opening tag or the closing tag is missing.
pub open spec fn svg_content(s: Seq<char>) -> Seq<char> {
    match (find_first(s, tag_end()), find_last(s, svg_close())) {
        (Some(g), Some(e)) => {
            let content = s.subrange(g + 1, e);
            match find_first(content, rect_fill_open()) {
                Some(b) => match find_from(content, empty_tag_end(), b) {
                    Some(t) => content.take(b) + trim_start(content.skip(t + 2)),
                    None => content,
                },
                None => content,
            }
        },
        _ => s,
    }
}

/// The copy of `v[lo..hi]` as a vector.
fn vec_range(v: &Vec<char>, lo: usize, hi: usize) -> (r: Vec<char>)
    requires
        lo <= hi <= v.len(),
    ensures
        r@ == v@.subrange(lo as int, hi as int),
{
    let mut r: Vec<char> = Vec::new();
    let mut i = lo;
    while i < hi
        invariant
            lo <= i <= hi <= v.len(),
            r@ == v@.subrange(lo as int, i as int),
        decreases hi - i,
    {
        r.push(v[i]);
        assert(v@.subrange(lo as int, i + 1) =~= v@.subrange(lo as int, i as int).push(
            v@[i as int],
        ));
        i = i + 1;
    }
    r
}

/// `pat` occurs somewhere in `s`.
pub open spec fn occurs_in(s: Seq<char>, pat: Seq<char>) -> bool {
    exists|m: int| crate::text::matches_at(s, pat, m)
}

/// Extraction gives back what was wrapped: for an opening tag `head` (up to
/// its `>`) and a body that holds neither `</svg>` nor a background
/// `<rect fill=`, the content of `head > body </svg>` is the body itself.
pub proof fn lemma_svg_content_of_wrapped(head: Seq<char>, body: Seq<char>)
    requires
        forall|i: int| 0 <= i < head.len() ==> head[i] != '>',
        !occurs_in(body, "</svg>"@),
        !occurs_in(body, "<rect fill="@),
    ensures
        svg_body_well_placed(head + ">"@ + body + "</svg>"@),
        svg_content(head + ">"@ + body + "</svg>"@) == body,
{
    reveal_strlit(">");
    reveal_strlit("</svg>");
    reveal_strlit("<rect fill=");
    assert(">"@ =~= tag_end());
    assert("</svg>"@ =~= svg_close());
    assert("<rect fill="@ =~= rect_fill_open());
    let s = head + tag_end() + body + svg_close();
    let h = head.len() as int;
    // the first `>` ends the head
    crate::text::lemma_find_from_spec(s, tag_end(), 0);
    assert(s.subrange(h, h + 1) =~= tag_end());
    assert(crate::text::matches_at(s, tag_end(), h));
    match find_first(s, tag_end()) {
        Some(k) => {
            if k < h {
                assert(s.subrange(k, k + 1)[0] == s[k]);
                assert(s[k] == head[k]);
            }
        },
        None => {},
    }
    assert(find_first(s, tag_end()) == Some(h));
    // the last `</svg>` closes the document
    let e = s.len() - 6;
    assert(s.subrange(e, e + 6) =~= svg_close());
    assert(find_last(s, svg_close()) == Some(e));
    let content = s.subrange(h + 1, e);
    assert(content =~= body);
    crate::text::lemma_find_from_spec(body, rect_fill_open(), 0);
    assert(find_first(body, rect_fill_open()) is None);
}

/// Extracts the content of an SVG document (between its opening and closing
/// tags), keeping `<defs>` and dropping the background rectangle, so that it
/// can be embedded in another SVG.
pub fn extract_svg_content(svg: &str) -> (r: String)
    requires
        svg_body_well_placed(svg@),
    ensures
        r@ == svg_content(svg@),
{
    let v = chars_of(svg);
    let gt = vec!['>'];
    let close = vec!['<', '/', 's', 'v', 'g', '>'];
    assert(gt@ =~= tag_end());
    assert(close@ =~= svg_close());
    if let Some(start) = find_from_exec(&v, &gt, 0) {
        if let Some(end) = find_last_exec(&v, &close) {
            proof {
                crate::text::lemma_rfind_upto_spec(v@, svg_close(), v@.len() - svg_close().len());
            }
            let content = vec_range(&v, start + 1, end);
            let rect = vec!['<', 'r', 'e', 'c', 't', ' ', 'f', 'i', 'l', 'l', '='];
            assert(rect@ =~= rect_fill_open());
            if let Some(bg_start) = find_from_exec(&content, &rect, 0) {
                let slash = vec!['/', '>'];
                assert(slash@ =~= empty_tag_end());
                if let Some(bg_end) = find_from_exec(&content, &slash, bg_start) {
                    proof {
                        crate::text::lemma_find_from_spec(content@, empty_tag_end(), bg_start as int);
                    }
                    let mut out = string_of_range(&content, 0, bg_start);
                    let k = skip_white_space(&content, bg_end + 2);
                    let tail = string_of_range(&content, k, content.len());
                    out.append(tail.as_str());
                    assert(content@.subrange(0, bg_start as int) =~= content@.take(bg_start as int));
                    assert(content@.subrange(bg_end + 2, content@.len() as int) =~= content@.skip(bg_end + 2));
                    return out;
                }
            }
            let whole = string_of_range(&content, 0, content.len());
            assert(content@.subrange(0, content@.len() as int) =~= content@);
            return whole;
        }
    }
    let all = string_of_range(&v, 0, v.len());
    assert(v@.subrange(0, v@.len() as int) =~= v@);
    all
}

/// `viewBox="`
pub open spec fn viewbox_attr() -> Seq<char> {
    seq!['v', 'i', 'e', 'w', 'B', 'o', 'x', '=', '"']
}

/// The value of the first `viewBox` attribute of an SVG document: the text
/// after the first `viewBox="` up to the next `"`.
pub open spec fn viewbox_value(s: Seq<char>) -> Option<Seq<char>> {
    match find_first(s, viewbox_attr()) {
        Some(start) => match find_from(s, seq!['"'], start + 9) {
            Some(end) => Some(s.subrange(start + 9, end)),
            None => None,
        },
        None => None,
    }
}

/// The fields of the `viewBox` value when it has exactly four (x, y, width,
/// height), separated by white space.
pub open spec fn viewbox_field_texts(s: Seq<char>) -> Option<Seq<Seq<char>>> {
    match viewbox_value(s) {
        Some(v) => {
            let w = word_spans(v);
            if w.len() == 4 {
                Some(w.map_values(|p: (int, int)| v.subrange(p.0, p.1)))
            } else {
                None
            }
        },
        None => None,
    }
}

/// A field of a `viewBox` value: not empty, with no white space and no `"`.
pub open spec fn is_viewbox_field(w: Seq<char>) -> bool {
    &&& w.len() > 0
    &&& forall|i: int|
        0 <= i < w.len() ==> !crate::text::is_white_space(#[trigger] w[i]) && w[i] != '"'
}

/// The words of `a b c d` are `a`, `b`, `c` and `d`.
proof fn lemma_four_word_spans(a: Seq<char>, b: Seq<char>, c: Seq<char>, d: Seq<char>)
    requires
        is_viewbox_field(a),
        is_viewbox_field(b),
        is_viewbox_field(c),
        is_viewbox_field(d),
    ensures
        ({
            let v = a.push(' ') + b.push(' ') + c.push(' ') + d;
            &&& word_spans(v).len() == 4
            &&& word_spans(v).map_values(|p: (int, int)| v.subrange(p.0, p.1)) == seq![a, b, c, d]
        }),
{
    let e = Seq::<char>::empty();
    crate::text::lemma_word_spans_push_word(e, a);
    assert(e + a =~= a);
    crate::text::lemma_word_spans_push_space(a, ' ');
    crate::text::lemma_word_spans_push_word(a.push(' '), b);
    let s2 = a.push(' ') + b;
    crate::text::lemma_word_spans_push_space(s2, ' ');
    assert(s2.push(' ') =~= a.push(' ') + b.push(' '));
    crate::text::lemma_word_spans_push_word(s2.push(' '), c);
    let s3 = s2.push(' ') + c;
    crate::text::lemma_word_spans_push_space(s3, ' ');
    assert(s3.push(' ') =~= a.push(' ') + b.push(' ') + c.push(' '));
    crate::text::lemma_word_spans_push_word(s3.push(' '), d);
    let v = a.push(' ') + b.push(' ') + c.push(' ') + d;
    assert(v =~= s3.push(' ') + d);
    let la = a.len() as int;
    let lb = b.len() as int;
    let lc = c.len() as int;
    let ld = d.len() as int;
    let w = word_spans(v);
    assert(w =~= seq![
        (0, la),
        (la + 1, la + 1 + lb),
        (la + lb + 2, la + lb + 2 + lc),
        (la + lb + lc + 3, la + lb + lc + 3 + ld),
    ]);
    assert(v.subrange(0, la) =~= a);
    assert(v.subrange(la + 1, la + 1 + lb) =~= b);
    assert(v.subrange(la + lb + 2, la + lb + 2 + lc) =~= c);
    assert(v.subrange(la + lb + lc + 3, la + lb + lc + 3 + ld) =~= d);
    assert(w.map_values(|p: (int, int)| v.subrange(p.0, p.1)) =~= seq![a, b, c, d]);
}

/// `a b c d` holds no `"`.
proof fn lemma_four_fields_unquoted(a: Seq<char>, b: Seq<char>, c: Seq<char>, d: Seq<char>)
    requires
        is_viewbox_field(a),
        is_viewbox_field(b),
        is_viewbox_field(c),
        is_viewbox_field(d),
    ensures
        forall|m: int|
            0 <= m < (a.push(' ') + b.push(' ') + c.push(' ') + d).len() ==> #[trigger] (a.push(
                ' ',
            ) + b.push(' ') + c.push(' ') + d)[m] != '"',
{
    let v = a.push(' ') + b.push(' ') + c.push(' ') + d;
    let la = a.len() as int;
    let lb = b.len() as int;
    let lc = c.len() as int;
    assert forall|m: int| 0 <= m < v.len() implies #[trigger] v[m] != '"' by {
        if m < la {
            assert(v[m] == a[m]);
        } else if m == la {
            assert(v[m] == ' ');
        } else if m < la + 1 + lb {
            assert(v[m] == b[m - la - 1]);
        } else if m == la + 1 + lb {
            assert(v[m] == ' ');
        } else if m < la + lb + 2 + lc {
            assert(v[m] == c[m - la - lb - 2]);
        } else if m == la + lb + 2 + lc {
            assert(v[m] == ' ');
        } else {
            assert(v[m] == d[m - la - lb - lc - 3]);
        }
    }
}

/// The first `viewBox="` of `pre viewBox="rest` is the one after `pre` when
/// `pre` holds none.
proof fn lemma_first_viewbox_attr(pre: Seq<char>, rest: Seq<char>)
    requires
        !occurs_in(pre, viewbox_attr()),
    ensures
        find_first(pre + viewbox_attr() + rest, viewbox_attr()) == Some(pre.len() as int),
{
    let attr = viewbox_attr();
    let s = pre + attr + rest;
    let p = pre.len() as int;
    assert(s.subrange(p, p + 9) =~= attr);
    assert(crate::text::matches_at(s, attr, p));
    crate::text::lemma_find_from_spec(s, attr, 0);
    let r = find_first(s, attr);
    assert(r is Some);
    let k = r->0;
    if k < p {
        lemma_no_earlier_viewbox_attr(pre, rest, k);
    }
    assert(k == p);
}

/// No `viewBox="` of `pre viewBox="rest` starts inside `pre` when `pre` holds
/// none.
proof fn lemma_no_earlier_viewbox_attr(pre: Seq<char>, rest: Seq<char>, k: int)
    requires
        !occurs_in(pre, viewbox_attr()),
        0 <= k < pre.len(),
    ensures
        !crate::text::matches_at(pre + viewbox_attr() + rest, viewbox_attr(), k),
{
    let attr = viewbox_attr();
    let s = pre + attr + rest;
    let p = pre.len() as int;
    if crate::text::matches_at(s, attr, k) {
        if k + 9 <= p {
            assert(pre.subrange(k, k + 9) =~= s.subrange(k, k + 9));
            assert(crate::text::matches_at(pre, attr, k));
        } else {
            let j = p - k;
            assert(1 <= j <= 8);
            assert(s.subrange(k, k + 9)[j] == s[p]);
            assert(s[p] == attr[0]);
            assert(attr[j] == s.subrange(k, k + 9)[j]);
            assert(attr[0] == 'v');
            assert(attr[j] != 'v');
        }
    }
}

/// The first `"` at or after the start of `v` in `head v " rest` closes `v`
/// when `v` holds none.
proof fn lemma_closing_quote(head: Seq<char>, v: Seq<char>, rest: Seq<char>)
    requires
        forall|m: int| 0 <= m < v.len() ==> #[trigger] v[m] != '"',
    ensures
        find_from(head + v + seq!['"'] + rest, seq!['"'], head.len() as int) == Some(
            (head.len() + v.len()) as int,
        ),
{
    let s = head + v + seq!['"'] + rest;
    let h = head.len() as int;
    let q = h + v.len();
    assert(s.subrange(q, q + 1) =~= seq!['"']);
    assert(crate::text::matches_at(s, seq!['"'], q));
    crate::text::lemma_find_from_spec(s, seq!['"'], h);
    match find_from(s, seq!['"'], h) {
        Some(k) => {
            if k < q {
                assert(s.subrange(k, k + 1)[0] == s[k]);
                assert(s[k] == v[k - h]);
            }
        },
        None => {},
    }
}

/// Reading the `viewBox` gives back what was written: in a document whose
/// text before the attribute holds no `viewBox="`, an attribute
/// `viewBox="a b c d"` gives the fields `a`, `b`, `c` and `d`.
pub proof fn lemma_viewbox_fields_of_attribute(
    pre: Seq<char>,
    a: Seq<char>,
    b: Seq<char>,
    c: Seq<char>,
    d: Seq<char>,
    post: Seq<char>,
)
    requires
        !occurs_in(pre, "viewBox=\""@),
        is_viewbox_field(a),
        is_viewbox_field(b),
        is_viewbox_field(c),
        is_viewbox_field(d),
    ensures
        viewbox_field_texts(
            pre + "viewBox=\""@ + (a.push(' ') + b.push(' ') + c.push(' ') + d) + "\""@ + post,
        ) == Some(seq![a, b, c, d]),
{
    reveal_strlit("viewBox=\"");
    reveal_strlit("\"");
    let attr = viewbox_attr();
    assert("viewBox=\""@ =~= attr);
    assert("\""@ =~= seq!['"']);
    let v = a.push(' ') + b.push(' ') + c.push(' ') + d;
    let s = pre + attr + v + seq!['"'] + post;
    let p = pre.len() as int;
    lemma_first_viewbox_attr(pre, v + seq!['"'] + post);
    assert(pre + attr + (v + seq!['"'] + post) =~= s);
    lemma_four_fields_unquoted(a, b, c, d);
    lemma_closing_quote(pre + attr, v, post);
    assert((pre + attr).len() == p + 9);
    assert(s.subrange(p + 9, p + 9 + v.len()) =~= v);
    assert(viewbox_value(s) == Some(v));
    lemma_four_word_spans(a, b, c, d);
}

/// The four whitespace-separated fields of an SVG document's `viewBox`
/// attribute (x, y, width, height), still as text; `None` when the attribute
/// is missing, unterminated, or does not have exactly four fields.
pub fn viewbox_fields(svg: &str) -> (r: Option<Vec<String>>)
    ensures
        r is Some <==> viewbox_field_texts(svg@) is Some,
        r matches Some(f) ==> f.len() == 4 && forall|k: int|
            0 <= k < 4 ==> #[trigger] f@[k]@ == viewbox_field_texts(svg@).unwrap()[k],
{
    let v = chars_of(svg);
    let attr = vec!['v', 'i', 'e', 'w', 'B', 'o', 'x', '=', '"'];
    let quote = vec!['"'];
    assert(attr@ =~= viewbox_attr());
    assert(quote@ =~= seq!['"']);
    let start = match find_from_exec(&v, &attr, 0) {
        Some(start) => start,
        None => return None,
    };
    let n = v.len();
    proof {
        crate::text::lemma_find_from_spec(v@, viewbox_attr(), 0);
        assert(viewbox_attr().len() == 9);
        assert(start + 9 <= n);
    }
    let values_start = start + 9;
    let end = match find_from_exec(&v, &quote, values_start) {
        Some(end) => end,
        None => return None,
    };
    proof {
        crate::text::lemma_find_from_spec(v@, seq!['"'], values_start as int);
    }
    let value = vec_range(&v, values_start, end);
    let spans = word_spans_exec(&value);
    proof {
        crate::text::lemma_word_spans_bounds(value@);
    }
    if spans.len() != 4 {
        return None;
    }
    let mut fields: Vec<String> = Vec::new();
    let mut k: usize = 0;
    while k < 4
        invariant
            k <= 4,
            spans@.len() == 4,
            value@ == v@.subrange(values_start as int, end as int),
            viewbox_value(svg@) == Some(value@),
            v@ == svg@,
            spans@.len() == word_spans(value@).len(),
            forall|j: int|
                0 <= j < spans@.len() ==> (#[trigger] spans@[j].0 as int, spans@[j].1 as int)
                    == word_spans(value@)[j],
            forall|j: int|
                0 <= j < word_spans(value@).len() ==> 0 <= #[trigger] word_spans(value@)[j].0
                    < word_spans(value@)[j].1 <= value@.len(),
            fields@.len() == k,
            forall|j: int|
                0 <= j < k ==> #[trigger] fields@[j]@ == value@.subrange(
                    word_spans(value@)[j].0,
                    word_spans(value@)[j].1,
                ),
        decreases 4 - k,
    {
        let (a, b) = spans[k];
        assert(word_spans(value@)[k as int] == (a as int, b as int));
        let f = string_of_range(&value, a, b);
        fields.push(f);
        k = k + 1;
    }
    Some(fields)
}

/// The `<defs>` block of a diagram: the single-diagonal hatching pattern used
/// for artwork. (Arrowheads are drawn inline rather than as markers.)
pub fn generate_defs() -> (r: String)
    ensures
        r@ == "  <defs>\n    <pattern id=\"hatch\" patternUnits=\"userSpaceOnUse\" width=\"4\" height=\"4\"><path d=\"M-1,1 l2,-2 M0,4 l4,-4 M3,5 l2,-2\" stroke=\"#CCCCCC\" stroke-width=\"0.5\"/></pattern>\n  </defs>\n"@,
{
    String::from_str(
        "  <defs>\n    <pattern id=\"hatch\" patternUnits=\"userSpaceOnUse\" width=\"4\" height=\"4\"><path d=\"M-1,1 l2,-2 M0,4 l4,-4 M3,5 l2,-2\" stroke=\"#CCCCCC\" stroke-width=\"0.5\"/></pattern>\n  </defs>\n",
    )
}

} // verus!
