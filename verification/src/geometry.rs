//! The discrete part of plan geometry: text width estimation by character
//! class, and the choice of axis breaks and corner detail.

use vstd::prelude::*;
use crate::layout::{label_lines, split_two_line_label};
use crate::text::chars_of;
use crate::types::DetailMode;

verus! {

/// Advance width of `c` in hundredths of the font size, by width class, as
/// measured for proportional sans-serif fonts (Inter, SF Pro, Arial).
pub open spec fn char_width_units(c: char) -> nat {
    if c == ' ' {
        28
    } else if c == '1' || c == 'i' || c == 'l' || c == '.' || c == ',' || c == ':' || c == ';'
        || c == '!' || c == '|' || c == '\'' {
        40
    } else if c == 'I' || c == 'j' || c == 't' || c == 'f' || c == 'r' {
        45
    } else if c == '(' || c == ')' || c == '[' || c == ']' {
        35
    } else if c == 'm' || c == 'w' || c == 'M' || c == 'W' {
        90
    } else if c == '/' {
        40
    } else if '0' <= c && c <= '9' {
        60
    } else if 'a' <= c && c <= 'z' {
        58
    } else if 'A' <= c && c <= 'Z' {
        72
    } else if c == '"' {
        45
    } else {
        60
    }
}

/// Estimated width of `s` in hundredths of the font size (before the safety margin).
pub open spec fn text_width_units(s: Seq<char>) -> nat
    decreases s.len(),
{
    if s.len() == 0 {
        0
    } else {
        text_width_units(s.drop_last()) + char_width_units(s.last())
    }
}

/// The width of a label as displayed: a two-line label is as wide as its wider line.
pub open spec fn label_width_units(label: Seq<char>) -> nat {
    match label_lines(label) {
        Some((a, b)) => if text_width_units(a) >= text_width_units(b) {
            text_width_units(a)
        } else {
            text_width_units(b)
        },
        None => text_width_units(label),
    }
}

/// The width class of one character, in hundredths of the font size.
pub fn char_width(c: char) -> (w: u8)
    ensures
        w as nat == char_width_units(c),
        w <= 90,
{
    if c == ' ' {
        28
    } else if c == '1' || c == 'i' || c == 'l' || c == '.' || c == ',' || c == ':' || c == ';'
        || c == '!' || c == '|' || c == '\'' {
        40
    } else if c == 'I' || c == 'j' || c == 't' || c == 'f' || c == 'r' {
        45
    } else if c == '(' || c == ')' || c == '[' || c == ']' {
        35
    } else if c == 'm' || c == 'w' || c == 'M' || c == 'W' {
        90
    } else if c == '/' {
        40
    } else if '0' <= c && c <= '9' {
        60
    } else if 'a' <= c && c <= 'z' {
        58
    } else if 'A' <= c && c <= 'Z' {
        72
    } else if c == '"' {
        45
    } else {
        60
    }
}

/// Estimated rendered width of `text`, in hundredths of the font size. The
/// width in pixels is `font_size * units / 100` times the 3% safety margin.
pub fn text_width(text: &str) -> (units: u128)
    ensures
        units as nat == text_width_units(text@),
{
    let v = chars_of(text);
    let mut total: u128 = 0;
    let mut i: usize = 0;
    while i < v.len()
        invariant
            v@ == text@,
            i <= v.len(),
            total as nat == text_width_units(v@.take(i as int)),
            total <= 90 * i,
        decreases v.len() - i,
    {
        let w = char_width(v[i]);
        assert(v@.take(i + 1).drop_last() =~= v@.take(i as int));
        total = total + w as u128;
        i = i + 1;
    }
    assert(v@.take(v.len() as int) =~= v@);
    total
}

/// Estimated display width of a label in hundredths of the font size: a label
/// holding `": "` is drawn on two lines and is as wide as its wider line.
pub fn label_width(label: &str) -> (units: u128)
    ensures
        units as nat == label_width_units(label@),
        units <= text_width_units(label@),
        !crate::layout::holds_separator(label@) ==> units as nat == text_width_units(label@),
{
    proof {
        lemma_label_width_laws(label@);
    }
    match split_two_line_label(label) {
        Some((prefix, value)) => {
            let a = text_width(prefix.as_str());
            let b = text_width(value.as_str());
            if a >= b {
                a
            } else {
                b
            }
        },
        None => text_width(label),
    }
}

/// Widths add up: the width of two texts put together is the sum of their widths.
pub proof fn lemma_text_width_concat(a: Seq<char>, b: Seq<char>)
    ensures
        text_width_units(a + b) == text_width_units(a) + text_width_units(b),
    decreases b.len(),
{
    if b.len() == 0 {
        assert(a + b =~= a);
    } else {
        lemma_text_width_concat(a, b.drop_last());
        assert((a + b).drop_last() =~= a + b.drop_last());
        assert((a + b).last() == b.last());
    }
}

/// The laws of the character widths: every character is at least as wide as a
/// space and at most as wide as `m`; the digits other than `1` share one width,
/// and `1` is narrower than they are; an upper-case letter of the regular class
/// is wider than a lower-case one.
pub proof fn lemma_char_width_laws(c: char, d: char)
    ensures
        char_width_units(' ') <= char_width_units(c) <= char_width_units('m'),
        '0' <= c <= '9' && '0' <= d <= '9' && c != '1' && d != '1' ==> char_width_units(c)
            == char_width_units(d),
        '0' <= c <= '9' && c != '1' ==> char_width_units('1') < char_width_units(c),
        'A' <= c <= 'Z' && 'a' <= d <= 'z' && !(c == 'I' || c == 'M' || c == 'W') && !(d == 'i'
            || d == 'j' || d == 'l' || d == 't' || d == 'f' || d == 'r' || d == 'm' || d == 'w')
            ==> char_width_units(c) > char_width_units(d),
{
}

/// Dropping leading white space never widens a text.
proof fn lemma_trim_start_narrower(s: Seq<char>)
    ensures
        text_width_units(crate::text::trim_start(s)) <= text_width_units(s),
    decreases s.len(),
{
    if s.len() > 0 && crate::text::is_white_space(s[0]) {
        lemma_trim_start_narrower(s.drop_first());
        lemma_text_width_concat(s.take(1), s.drop_first());
        assert(s.take(1) + s.drop_first() =~= s);
    }
}

/// The laws of label widths: a label without `": "` is as wide as its text,
/// and drawing a label on two lines never makes it wider than its text on one
/// line.
pub proof fn lemma_label_width_laws(label: Seq<char>)
    ensures
        !crate::layout::holds_separator(label) ==> label_width_units(label) == text_width_units(
            label,
        ),
        label_width_units(label) <= text_width_units(label),
{
    crate::layout::lemma_two_line_iff_separator(label);
    crate::text::lemma_find_from_spec(label, crate::layout::label_separator(), 0);
    match crate::text::find_first(label, crate::layout::label_separator()) {
        Some(p) => {
            assert(crate::text::matches_at(label, crate::layout::label_separator(), p));
            assert(p + 2 <= label.len());
            let a = label.take(p + 1);
            let rest = label.skip(p + 1);
            lemma_text_width_concat(a, rest);
            assert(a + rest =~= label);
            lemma_text_width_concat(rest.take(1), label.skip(p + 2));
            assert(rest.take(1) + label.skip(p + 2) =~= rest);
            lemma_trim_start_narrower(label.skip(p + 2));
        },
        None => {},
    }
}

/// The geometric facts about a frame that bear on axis breaks and corner detail.
#[derive(Debug, Clone, Copy, PartialEq, Eq, Structural)]
pub struct BreakSignals {
    /// The frame band is under the break ratio of the outer width.
    pub needs_break_x: bool,
    /// The frame band is under the break ratio of the outer height.
    pub needs_break_y: bool,
    /// The frame band is under the forced-break ratio of the outer width.
    pub force_break_x: bool,
    /// The frame band is under the forced-break ratio of the outer height.
    pub force_break_y: bool,
    /// The frame is too short at native scale for its height labels while more
    /// than twice as wide as tall.
    pub force_break_x_label: bool,
    /// The frame is too narrow at native scale for its width labels while more
    /// than twice as tall as wide.
    pub force_break_y_label: bool,
    /// Detail strokes are too large against the rendered frame face.
    pub needs_corner_detail: bool,
}

/// Which axes are broken, and whether the corner detail inset is shown.
#[derive(Debug, Clone, Copy, PartialEq, Eq, Structural)]
pub struct BreakDecision {
    pub use_break_x: bool,
    pub use_break_y: bool,
    pub use_corner_detail: bool,
}

/// Any forced break.
pub open spec fn any_forced(s: BreakSignals) -> bool {
    s.force_break_x || s.force_break_y || s.force_break_x_label || s.force_break_y_label
}

/// Breaks are used in automatic mode when an axis needs one and breaks are
/// enabled, or when one is forced; never in disabled mode.
pub open spec fn breaks_used(s: BreakSignals, mode: DetailMode, axis_breaks_enabled: bool) -> bool {
    match mode {
        DetailMode::Auto => ((s.needs_break_x || s.needs_break_y) && axis_breaks_enabled)
            || any_forced(s),
        DetailMode::Disabled => false,
    }
}

/// The break decision for the given signals and options.
pub open spec fn break_decision(
    s: BreakSignals,
    mode: DetailMode,
    corner_detail_enabled: bool,
    axis_breaks_enabled: bool,
) -> BreakDecision {
    let used = breaks_used(s, mode, axis_breaks_enabled);
    BreakDecision {
        use_break_x: used && (s.needs_break_x || s.force_break_x || s.force_break_x_label),
        use_break_y: used && (s.needs_break_y || s.force_break_y || s.force_break_y_label),
        use_corner_detail: mode == DetailMode::Auto && s.needs_corner_detail
            && corner_detail_enabled,
    }
}

/// The laws of the break decision.
///
/// The corner detail inset is shown exactly when detail mode is automatic, the
/// inset is enabled and the frame needs it; it does not depend on the break
/// signals. An axis is broken only in automatic mode and only when that axis
/// needs or is forced a break; a forced break is always taken, a needed one
/// whenever breaks are enabled; with breaks disabled and nothing forced, no
/// axis is broken. In disabled mode nothing is used.
pub proof fn lemma_break_decision_laws(
    s: BreakSignals,
    mode: DetailMode,
    corner_detail_enabled: bool,
    axis_breaks_enabled: bool,
)
    ensures
        ({
            let d = break_decision(s, mode, corner_detail_enabled, axis_breaks_enabled);
            &&& d.use_corner_detail <==> (mode == DetailMode::Auto && corner_detail_enabled
                && s.needs_corner_detail)
            &&& !corner_detail_enabled ==> !d.use_corner_detail
            &&& d.use_break_x ==> mode == DetailMode::Auto && (s.needs_break_x || s.force_break_x
                || s.force_break_x_label)
            &&& d.use_break_y ==> mode == DetailMode::Auto && (s.needs_break_y || s.force_break_y
                || s.force_break_y_label)
            &&& mode == DetailMode::Auto && (s.force_break_x || s.force_break_x_label)
                ==> d.use_break_x
            &&& mode == DetailMode::Auto && (s.force_break_y || s.force_break_y_label)
                ==> d.use_break_y
            &&& mode == DetailMode::Auto && axis_breaks_enabled && s.needs_break_x ==> d.use_break_x
            &&& mode == DetailMode::Auto && axis_breaks_enabled && s.needs_break_y ==> d.use_break_y
            &&& !axis_breaks_enabled && !s.force_break_x && !s.force_break_y
                && !s.force_break_x_label && !s.force_break_y_label ==> !d.use_break_x
                && !d.use_break_y
            &&& mode == DetailMode::Disabled ==> !d.use_break_x && !d.use_break_y
                && !d.use_corner_detail
        }),
{
}

/// The corner detail choice does not depend on the break signals or on whether
/// axis breaks are enabled: two frames with the same corner detail need get the
/// same choice.
pub proof fn lemma_corner_detail_independent_of_breaks(
    s1: BreakSignals,
    s2: BreakSignals,
    mode: DetailMode,
    corner_detail_enabled: bool,
    breaks1: bool,
    breaks2: bool,
)
    requires
        s1.needs_corner_detail == s2.needs_corner_detail,
    ensures
        break_decision(s1, mode, corner_detail_enabled, breaks1).use_corner_detail
            == break_decision(s2, mode, corner_detail_enabled, breaks2).use_corner_detail,
{
}

/// Decides which axes get an axis break and whether the corner detail inset is
/// needed.
pub fn decide_axis_breaks(
    signals: BreakSignals,
    detail_mode: DetailMode,
    corner_detail_enabled: bool,
    axis_breaks_enabled: bool,
) -> (d: BreakDecision)
    ensures
        d == break_decision(signals, detail_mode, corner_detail_enabled, axis_breaks_enabled),
        detail_mode == DetailMode::Disabled ==> !d.use_break_x && !d.use_break_y
            && !d.use_corner_detail,
        detail_mode == DetailMode::Auto && any_forced(signals) ==> d.use_break_x
            || d.use_break_y,
        d.use_corner_detail <==> (detail_mode == DetailMode::Auto && corner_detail_enabled
            && signals.needs_corner_detail),
        d.use_break_x ==> detail_mode == DetailMode::Auto && (signals.needs_break_x
            || signals.force_break_x || signals.force_break_x_label),
        d.use_break_y ==> detail_mode == DetailMode::Auto && (signals.needs_break_y
            || signals.force_break_y || signals.force_break_y_label),
        detail_mode == DetailMode::Auto && (signals.force_break_x || signals.force_break_x_label)
            ==> d.use_break_x,
        detail_mode == DetailMode::Auto && (signals.force_break_y || signals.force_break_y_label)
            ==> d.use_break_y,
        detail_mode == DetailMode::Auto && axis_breaks_enabled && signals.needs_break_x
            ==> d.use_break_x,
        detail_mode == DetailMode::Auto && axis_breaks_enabled && signals.needs_break_y
            ==> d.use_break_y,
        !axis_breaks_enabled && !signals.force_break_x && !signals.force_break_y
            && !signals.force_break_x_label && !signals.force_break_y_label ==> !d.use_break_x
            && !d.use_break_y,
{
    proof {
        lemma_break_decision_laws(signals, detail_mode, corner_detail_enabled, axis_breaks_enabled);
    }
    let force_breaks = signals.force_break_x || signals.force_break_y
        || signals.force_break_x_label || signals.force_break_y_label;
    let needs_breaks = signals.needs_break_x || signals.needs_break_y;
    let use_breaks = match detail_mode {
        DetailMode::Auto => (needs_breaks && axis_breaks_enabled) || force_breaks,
        DetailMode::Disabled => false,
    };
    let use_corner_detail = match detail_mode {
        DetailMode::Auto => signals.needs_corner_detail && corner_detail_enabled,
        DetailMode::Disabled => false,
    };
    let (use_break_x, use_break_y) = if use_breaks {
        (
            signals.needs_break_x || signals.force_break_x || signals.force_break_x_label,
            signals.needs_break_y || signals.force_break_y || signals.force_break_y_label,
        )
    } else {
        (false, false)
    };
    BreakDecision { use_break_x, use_break_y, use_corner_detail }
}

} // verus!
