//! Which dimension callouts a diagram shows.

use vstd::prelude::*;
use crate::types::DimensionType;

verus! {

/// The plan view callouts, in order: outside width and height, inside width
/// and height, then, when the design has a mat with an opening, the mat cut
/// width and, when the top/bottom and side mat borders differ (by more than
/// 1/32"), the mat cut height.
pub open spec fn plan_callouts(has_mat: bool, has_mat_opening: bool, mat_borders_differ: bool) -> Seq<
    DimensionType,
> {
    let frame = seq![
        DimensionType::FrameOutsideWidth,
        DimensionType::FrameOutsideHeight,
        DimensionType::FrameInsideWidthInterior,
        DimensionType::FrameInsideHeightInterior,
    ];
    if has_mat && has_mat_opening {
        if mat_borders_differ {
            frame + seq![DimensionType::MatCutWidth, DimensionType::MatCutHeight]
        } else {
            frame.push(DimensionType::MatCutWidth)
        }
    } else {
        frame
    }
}

/// The kinds of the plan view callouts (see [`plan_callouts`]).
pub fn plan_callout_types(has_mat: bool, has_mat_opening: bool, mat_borders_differ: bool) -> (r: Vec<
    DimensionType,
>)
    ensures
        r@ == plan_callouts(has_mat, has_mat_opening, mat_borders_differ),
        r@.len() >= 4,
        r@[0] == DimensionType::FrameOutsideWidth,
        r@[1] == DimensionType::FrameOutsideHeight,
        r@[2] == DimensionType::FrameInsideWidthInterior,
        r@[3] == DimensionType::FrameInsideHeightInterior,
        r@.contains(DimensionType::MatCutWidth) <==> (has_mat && has_mat_opening),
        r@.len() > 4 ==> r@[4] == DimensionType::MatCutWidth,
        r@.contains(DimensionType::MatCutHeight) <==> (has_mat && has_mat_opening
            && mat_borders_differ),
        r@.len() == 4 + (if has_mat && has_mat_opening {
            1int
        } else {
            0
        }) + (if has_mat && has_mat_opening && mat_borders_differ {
            1int
        } else {
            0
        }),
{
    let mut r = vec![
        DimensionType::FrameOutsideWidth,
        DimensionType::FrameOutsideHeight,
        DimensionType::FrameInsideWidthInterior,
        DimensionType::FrameInsideHeightInterior,
    ];
    if has_mat && has_mat_opening {
        r.push(DimensionType::MatCutWidth);
        if mat_borders_differ {
            r.push(DimensionType::MatCutHeight);
        }
    }
    assert(r@ =~= plan_callouts(has_mat, has_mat_opening, mat_borders_differ));
    proof {
        if !(has_mat && has_mat_opening) {
            assert(!r@.contains(DimensionType::MatCutWidth)) by {
                assert(forall|k: int| 0 <= k < r@.len() ==> r@[k] != DimensionType::MatCutWidth);
            }
        } else {
            assert(r@[4] == DimensionType::MatCutWidth);
        }
        if !(has_mat && has_mat_opening && mat_borders_differ) {
            assert(!r@.contains(DimensionType::MatCutHeight)) by {
                assert(forall|k: int| 0 <= k < r@.len() ==> r@[k] != DimensionType::MatCutHeight);
            }
        } else {
            assert(r@[5] == DimensionType::MatCutHeight);
        }
    }
    r
}

/// The section view callouts, in order: frame depth, glazing, the matboard
/// when the design has a mat, artwork, backing, total stack height and
/// clearance.
pub open spec fn section_callouts(has_mat: bool) -> Seq<DimensionType> {
    let head = seq![DimensionType::FrameDepth, DimensionType::GlazingThickness];
    let tail = seq![
        DimensionType::ArtworkThickness,
        DimensionType::BackingThickness,
        DimensionType::TotalStackHeight,
        DimensionType::Clearance,
    ];
    if has_mat {
        head.push(DimensionType::MatboardThickness) + tail
    } else {
        head + tail
    }
}

/// The kinds of the section view callouts (see [`section_callouts`]).
pub fn section_callout_types(has_mat: bool) -> (r: Vec<DimensionType>)
    ensures
        r@ == section_callouts(has_mat),
        r@.len() == if has_mat {
            7int
        } else {
            6
        },
        r@[0] == DimensionType::FrameDepth,
        r@[1] == DimensionType::GlazingThickness,
        r@.contains(DimensionType::MatboardThickness) <==> has_mat,
        r@.last() == DimensionType::Clearance,
        r@[r@.len() - 2] == DimensionType::TotalStackHeight,
        r@[r@.len() - 3] == DimensionType::BackingThickness,
        r@[r@.len() - 4] == DimensionType::ArtworkThickness,
{
    let mut r = vec![DimensionType::FrameDepth, DimensionType::GlazingThickness];
    if has_mat {
        r.push(DimensionType::MatboardThickness);
    }
    r.push(DimensionType::ArtworkThickness);
    r.push(DimensionType::BackingThickness);
    r.push(DimensionType::TotalStackHeight);
    r.push(DimensionType::Clearance);
    assert(r@ =~= section_callouts(has_mat));
    proof {
        if has_mat {
            assert(r@[2] == DimensionType::MatboardThickness);
        } else {
            assert(forall|k: int| 0 <= k < r@.len() ==> r@[k] != DimensionType::MatboardThickness);
        }
    }
    r
}

/// The label of a callout. `value` is the formatted measurement; for mat cut
/// callouts `visible` is the formatted visible mat border; for the clearance
/// callout `interference` says the stack is deeper than the rabbet (then
/// `value` is the formatted excess). Frame depth, total stack height and the
/// kinds no view generates are labelled with the value alone.
pub open spec fn callout_label_text(
    kind: DimensionType,
    value: Seq<char>,
    visible: Seq<char>,
    interference: bool,
) -> Seq<char> {
    match kind {
        DimensionType::FrameOutsideWidth | DimensionType::FrameOutsideHeight => "Outside: "@ + value,
        DimensionType::FrameInsideWidthInterior
        | DimensionType::FrameInsideHeightInterior => "Inside: "@ + value,
        DimensionType::MatCutWidth | DimensionType::MatCutHeight => "Mat Cut: "@ + value + " ("@
            + visible + " visible)"@,
        DimensionType::GlazingThickness => "Glazing "@ + value,
        DimensionType::MatboardThickness => "Mat "@ + value,
        DimensionType::ArtworkThickness => "Artwork "@ + value,
        DimensionType::BackingThickness => "Backing "@ + value,
        DimensionType::Clearance => if interference {
            "INTERFERENCE "@ + value
        } else {
            "Clearance "@ + value
        },
        _ => value,
    }
}

/// Whether a callout measures the frame's outside.
pub open spec fn is_outside_kind(kind: DimensionType) -> bool {
    kind == DimensionType::FrameOutsideWidth || kind == DimensionType::FrameOutsideHeight
}

/// Whether a callout measures the frame's inside opening.
pub open spec fn is_inside_kind(kind: DimensionType) -> bool {
    kind == DimensionType::FrameInsideWidthInterior || kind
        == DimensionType::FrameInsideHeightInterior
}

/// Whether a callout measures the mat opening.
pub open spec fn is_mat_cut_kind(kind: DimensionType) -> bool {
    kind == DimensionType::MatCutWidth || kind == DimensionType::MatCutHeight
}

/// The laws of the callout labels.
///
/// Every outside measurement is labelled `Outside: ` and the value, every
/// inside one `Inside: ` and the value, every mat cut `Mat Cut: `, the value and
/// the visible border in brackets; a width and the matching height with the
/// same value get the same label. An outside label and an inside label never
/// coincide. The clearance callout reads `INTERFERENCE ` and the value exactly
/// when the stack is deeper than the rabbet, `Clearance ` and the value
/// otherwise. Every label but the mat cut's ends with the value.
pub proof fn lemma_callout_label_laws(
    kind: DimensionType,
    value: Seq<char>,
    visible: Seq<char>,
    interference: bool,
)
    ensures
        is_outside_kind(kind) ==> callout_label_text(kind, value, visible, interference)
            == "Outside: "@ + value,
        is_inside_kind(kind) ==> callout_label_text(kind, value, visible, interference)
            == "Inside: "@ + value,
        is_mat_cut_kind(kind) ==> callout_label_text(kind, value, visible, interference)
            == "Mat Cut: "@ + value + " ("@ + visible + " visible)"@,
        callout_label_text(DimensionType::FrameOutsideWidth, value, visible, interference)
            == callout_label_text(DimensionType::FrameOutsideHeight, value, visible, interference),
        callout_label_text(DimensionType::FrameInsideWidthInterior, value, visible, interference)
            == callout_label_text(
            DimensionType::FrameInsideHeightInterior,
            value,
            visible,
            interference,
        ),
        callout_label_text(DimensionType::MatCutWidth, value, visible, interference)
            == callout_label_text(DimensionType::MatCutHeight, value, visible, interference),
        forall|k1: DimensionType, k2: DimensionType|
            is_outside_kind(k1) && is_inside_kind(k2) ==> callout_label_text(
                k1,
                value,
                visible,
                interference,
            ) != callout_label_text(k2, value, visible, interference),
        kind == DimensionType::Clearance && interference ==> callout_label_text(
            kind,
            value,
            visible,
            interference,
        ) == "INTERFERENCE "@ + value,
        kind == DimensionType::Clearance && !interference ==> callout_label_text(
            kind,
            value,
            visible,
            interference,
        ) == "Clearance "@ + value,
        kind == DimensionType::FrameDepth || kind == DimensionType::TotalStackHeight
            ==> callout_label_text(kind, value, visible, interference) == value,
        !is_mat_cut_kind(kind) ==> callout_label_text(kind, value, visible, interference).len()
            >= value.len() && callout_label_text(kind, value, visible, interference).subrange(
            callout_label_text(kind, value, visible, interference).len() - value.len(),
            callout_label_text(kind, value, visible, interference).len() as int,
        ) == value,
{
    reveal_strlit("Outside: ");
    reveal_strlit("Inside: ");
    let o = "Outside: "@ + value;
    let i = "Inside: "@ + value;
    assert(o[0] != i[0]);
    let l = callout_label_text(kind, value, visible, interference);
    if !is_mat_cut_kind(kind) {
        assert(l.subrange(l.len() - value.len(), l.len() as int) =~= value);
    }
}

/// The label of a callout (see [`callout_label_text`]).
pub fn callout_label(kind: DimensionType, value: &str, visible: &str, interference: bool) -> (r:
    String)
    ensures
        r@ == callout_label_text(kind, value@, visible@, interference),
        is_outside_kind(kind) ==> r@ == "Outside: "@ + value@,
        is_inside_kind(kind) ==> r@ == "Inside: "@ + value@,
        is_mat_cut_kind(kind) ==> r@ == "Mat Cut: "@ + value@ + " ("@ + visible@ + " visible)"@,
        kind == DimensionType::GlazingThickness ==> r@ == "Glazing "@ + value@,
        kind == DimensionType::MatboardThickness ==> r@ == "Mat "@ + value@,
        kind == DimensionType::ArtworkThickness ==> r@ == "Artwork "@ + value@,
        kind == DimensionType::BackingThickness ==> r@ == "Backing "@ + value@,
        kind == DimensionType::Clearance && interference ==> r@ == "INTERFERENCE "@ + value@,
        kind == DimensionType::Clearance && !interference ==> r@ == "Clearance "@ + value@,
        kind == DimensionType::FrameDepth || kind == DimensionType::TotalStackHeight ==> r@
            == value@,
{
    proof {
        lemma_callout_label_laws(kind, value@, visible@, interference);
    }
    let mut r = match kind {
        DimensionType::FrameOutsideWidth | DimensionType::FrameOutsideHeight => String::from_str(
            "Outside: ",
        ),
        DimensionType::FrameInsideWidthInterior
        | DimensionType::FrameInsideHeightInterior => String::from_str("Inside: "),
        DimensionType::MatCutWidth | DimensionType::MatCutHeight => String::from_str("Mat Cut: "),
        DimensionType::GlazingThickness => String::from_str("Glazing "),
        DimensionType::MatboardThickness => String::from_str("Mat "),
        DimensionType::ArtworkThickness => String::from_str("Artwork "),
        DimensionType::BackingThickness => String::from_str("Backing "),
        DimensionType::Clearance => if interference {
            String::from_str("INTERFERENCE ")
        } else {
            String::from_str("Clearance ")
        },
        _ => String::new(),
    };
    r.append(value);
    if kind == DimensionType::MatCutWidth || kind == DimensionType::MatCutHeight {
        r.append(" (");
        r.append(visible);
        r.append(" visible)");
    }
    r
}

} // verus!
