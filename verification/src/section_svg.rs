//! Text decisions of the section view and the title block: the legend's
//! materials and the diagram title.

use vstd::prelude::*;
use crate::svg_util::{html_escape, html_escaped};
use crate::text::{chars_of, string_of_range, trim, trim_range};

verus! {

/// The materials listed in the section legend, in order; the matboard only
/// when the design has a mat.
pub open spec fn legend_names(has_mat: bool) -> Seq<&'static str> {
    if has_mat {
        seq!["Frame", "Glazing", "Matboard", "Artwork", "Backing"]
    } else {
        seq!["Frame", "Glazing", "Artwork", "Backing"]
    }
}

/// The material names shown in the section view legend.
pub fn legend_materials(has_mat: bool) -> (r: Vec<&'static str>)
    ensures
        r@ == legend_names(has_mat),
        r@.len() == if has_mat {
            5int
        } else {
            4
        },
        r@[0] == "Frame" && r@[1] == "Glazing",
        r@.last() == "Backing" && r@[r@.len() - 2] == "Artwork",
        has_mat ==> r@[2] == "Matboard",
{
    let mut r: Vec<&'static str> = Vec::new();
    r.push("Frame");
    r.push("Glazing");
    if has_mat {
        r.push("Matboard");
    }
    r.push("Artwork");
    r.push("Backing");
    assert(r@ =~= legend_names(has_mat));
    r
}

/// A title was given and is not blank.
pub open spec fn is_custom_title(title: Option<Seq<char>>) -> bool {
    match title {
        Some(t) => trim(t).len() > 0,
        None => false,
    }
}

/// The title shown in the title block: the given title, trimmed and escaped,
/// or "Frame Design" when none is given or it is blank.
pub open spec fn title_text(title: Option<Seq<char>>) -> Seq<char> {
    if is_custom_title(title) {
        html_escaped(trim(title.unwrap()))
    } else {
        "Frame Design"@
    }
}

/// The view of an optional string.
pub open spec fn opt_view(title: &Option<String>) -> Option<Seq<char>> {
    match title {
        Some(t) => Some(t@),
        None => None,
    }
}

/// Whether a custom title is shown (the subtitle with the outside dimensions
/// is shown only under the default title).
pub fn has_custom_title(title: &Option<String>) -> (b: bool)
    ensures
        b == is_custom_title(opt_view(title)),
        title is None ==> !b,
        title matches Some(t) ==> (b <==> trim(t@).len() > 0),
{
    match title {
        Some(t) => {
            let v = chars_of(t.as_str());
            let (a, b) = trim_range(&v);
            a < b
        },
        None => false,
    }
}

/// The title text of the title block.
pub fn diagram_title(title: &Option<String>) -> (r: String)
    ensures
        r@ == title_text(opt_view(title)),
        title is None ==> r@ == "Frame Design"@,
        title matches Some(t) ==> (trim(t@).len() == 0 ==> r@ == "Frame Design"@),
        title matches Some(t) ==> (trim(t@).len() > 0 ==> r@ == html_escaped(trim(t@))),
{
    match title {
        Some(t) => {
            let v = chars_of(t.as_str());
            let (a, b) = trim_range(&v);
            if a < b {
                let trimmed = string_of_range(&v, a, b);
                return html_escape(trimmed.as_str());
            }
        },
        None => {},
    }
    String::from_str("Frame Design")
}

/// How the frame holds the artwork.
#[derive(Debug, Clone, Copy, PartialEq, Eq, Structural)]
pub enum FrameStyle {
    /// A rabbet lip overlaps the edge of the artwork (or mat).
    Rabbet,
    /// Sight-size: the rabbet holds oversized glazing and backing but clears the art.
    SightSize,
    /// Float: the artwork floats inside the rabbet channel.
    Float,
}

/// The rabbet label under the section view. `width` and `depth` are the
/// formatted rabbet width and depth; `square` says the two are equal (within
/// 0.001"), in which case a rabbeted frame shows one value.
pub open spec fn rabbet_label_text(style: FrameStyle, square: bool, width: Seq<char>, depth: Seq<char>) -> Seq<char> {
    match style {
        FrameStyle::SightSize => "Sight-size · rabbet "@ + width + " × "@ + depth + " (clears art)"@,
        FrameStyle::Float => "Float · rabbet "@ + width + " × "@ + depth,
        FrameStyle::Rabbet => if square {
            "Rabbet: "@ + depth
        } else {
            "Rabbet: "@ + width + " × "@ + depth
        },
    }
}

/// The laws of the rabbet label.
///
/// A rabbeted frame's label starts with `Rabbet: ` and ends with the depth; a
/// square rabbet shows the depth alone, whatever the width. Otherwise, and for
/// the float and sight-size styles whether square or not, the label gives the
/// width, `" × "` and the depth after its style's prefix; a sight-size label
/// adds that the rabbet clears the art.
pub proof fn lemma_rabbet_label_laws(
    style: FrameStyle,
    square: bool,
    width: Seq<char>,
    other_width: Seq<char>,
    depth: Seq<char>,
)
    ensures
        rabbet_label_text(FrameStyle::Rabbet, true, width, depth) == "Rabbet: "@ + depth,
        rabbet_label_text(FrameStyle::Rabbet, true, width, depth) == rabbet_label_text(
            FrameStyle::Rabbet,
            true,
            other_width,
            depth,
        ),
        style != FrameStyle::Rabbet ==> rabbet_label_text(style, true, width, depth)
            == rabbet_label_text(style, false, width, depth),
        rabbet_label_text(FrameStyle::Rabbet, false, width, depth) == "Rabbet: "@ + width + " × "@
            + depth,
        rabbet_label_text(FrameStyle::Float, square, width, depth) == "Float · rabbet "@ + width
            + " × "@ + depth,
        rabbet_label_text(FrameStyle::SightSize, square, width, depth) == "Sight-size · rabbet "@
            + width + " × "@ + depth + " (clears art)"@,
        style == FrameStyle::Rabbet ==> rabbet_label_text(style, square, width, depth).take(8)
            == "Rabbet: "@,
{
    reveal_strlit("Rabbet: ");
    if style == FrameStyle::Rabbet {
        let l = rabbet_label_text(style, square, width, depth);
        assert(l.take(8) =~= "Rabbet: "@);
    }
}

/// See [`rabbet_label_text`].
pub fn rabbet_label(style: FrameStyle, square: bool, width: &str, depth: &str) -> (r: String)
    ensures
        r@ == rabbet_label_text(style, square, width@, depth@),
        style == FrameStyle::Rabbet && square ==> r@ == "Rabbet: "@ + depth@,
        style == FrameStyle::Rabbet && !square ==> r@ == "Rabbet: "@ + width@ + " × "@ + depth@,
        style == FrameStyle::Float ==> r@ == "Float · rabbet "@ + width@ + " × "@ + depth@,
        style == FrameStyle::SightSize ==> r@ == "Sight-size · rabbet "@ + width@ + " × "@
            + depth@ + " (clears art)"@,
{
    match style {
        FrameStyle::SightSize => {
            let mut r = String::from_str("Sight-size · rabbet ");
            r.append(width);
            r.append(" × ");
            r.append(depth);
            r.append(" (clears art)");
            r
        },
        FrameStyle::Float => {
            let mut r = String::from_str("Float · rabbet ");
            r.append(width);
            r.append(" × ");
            r.append(depth);
            r
        },
        FrameStyle::Rabbet => {
            let mut r = String::from_str("Rabbet: ");
            if square {
                r.append(depth);
            } else {
                r.append(width);
                r.append(" × ");
                r.append(depth);
            }
            r
        },
    }
}

/// Color role of the rabbet and clearance lines.
#[derive(Debug, Clone, Copy, PartialEq, Eq, Structural)]
pub enum IndicatorColor {
    /// The stack fits in the rabbet.
    Success,
    /// The stack is deeper than the rabbet.
    Warning,
}

/// Where the rabbet and clearance lines are drawn.
#[derive(Debug, Clone, Copy, PartialEq, Eq, Structural)]
pub enum NotePlacement {
    /// With the section dimensions.
    Inline,
    /// After the legend, on a backdrop, so that the warning stays legible.
    AfterLegend,
}

/// The clearance line under the rabbet label, its color and its placement.
pub struct ClearanceNote {
    pub line: String,
    pub color: IndicatorColor,
    pub placement: NotePlacement,
}

/// The clearance line: `"(INTERFERENCE: amount)"` when the stack is deeper
/// than the rabbet, `"(clearance: amount)"` otherwise; `amount` is the
/// formatted size of the gap or of the excess.
pub open spec fn clearance_line_text(interference: bool, amount: Seq<char>) -> Seq<char> {
    if interference {
        "(INTERFERENCE: "@ + amount + ")"@
    } else {
        "(clearance: "@ + amount + ")"@
    }
}

/// The laws of the clearance note: the warning color, the placement after the
/// legend and the interference wording go together, and the note of an
/// interference never reads like the note of a clearance.
pub proof fn lemma_clearance_note_laws(amount: Seq<char>, other: Seq<char>)
    ensures
        clearance_line_text(true, amount) == "(INTERFERENCE: "@ + amount + ")"@,
        clearance_line_text(false, amount) == "(clearance: "@ + amount + ")"@,
        clearance_line_text(true, amount) != clearance_line_text(false, other),
{
    reveal_strlit("(INTERFERENCE: ");
    reveal_strlit("(clearance: ");
    assert(clearance_line_text(true, amount)[1] == 'I');
    assert(clearance_line_text(false, other)[1] == 'c');
}

/// The clearance note of the section view: an interference is shown in the
/// warning color after the legend; a clearance in the success color inline.
pub fn clearance_note(interference: bool, amount: &str) -> (n: ClearanceNote)
    ensures
        n.line@ == clearance_line_text(interference, amount@),
        n.color == (if interference { IndicatorColor::Warning } else { IndicatorColor::Success }),
        n.placement == (if interference { NotePlacement::AfterLegend } else { NotePlacement::Inline }),
        (n.color == IndicatorColor::Warning) <==> interference,
        (n.placement == NotePlacement::AfterLegend) <==> interference,
        interference ==> n.line@ == "(INTERFERENCE: "@ + amount@ + ")"@,
        !interference ==> n.line@ == "(clearance: "@ + amount@ + ")"@,
{
    let mut line = if interference {
        String::from_str("(INTERFERENCE: ")
    } else {
        String::from_str("(clearance: ")
    };
    line.append(amount);
    line.append(")");
    if interference {
        ClearanceNote { line, color: IndicatorColor::Warning, placement: NotePlacement::AfterLegend }
    } else {
        ClearanceNote { line, color: IndicatorColor::Success, placement: NotePlacement::Inline }
    }
}

} // verus!
