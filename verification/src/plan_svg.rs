//! Structure of the plan view SVG: which groups it holds, in drawing order.

use vstd::prelude::*;

verus! {

/// A top-level group of the plan view SVG.
#[derive(Debug, Clone, Copy, PartialEq, Eq, Structural)]
pub enum PlanSvgGroup {
    /// Full frame, opening and mat rectangles (no axis break)
    Geometry,
    /// Shaded rabbet overlap between content edge and frame opening
    RabbetOverlap,
    /// Dashed content (matboard or artwork) boundary (no axis break)
    ContentBoundary,
    /// Shaded mat overlap over the artwork
    MatOverlap,
    /// Axis break zigzag ribbons and corner strokes
    AxisBreaks,
    /// Dimension callouts other than the mat cut
    Dimensions,
    /// Artwork size arrows
    ArtworkIndicator,
    /// Mat cut extension and dimension lines
    MatCutGeometry,
    /// Corner detail inset
    CornerDetail,
    /// Mat cut labels
    MatCutLabels,
    /// Actual-proportions thumbnail
    Thumbnail,
}

/// The `id` attribute of a plan view group.
pub open spec fn group_id(g: PlanSvgGroup) -> &'static str {
    match g {
        PlanSvgGroup::Geometry => "geometry",
        PlanSvgGroup::RabbetOverlap => "rabbet-overlap",
        PlanSvgGroup::ContentBoundary => "content-boundary",
        PlanSvgGroup::MatOverlap => "mat-overlap",
        PlanSvgGroup::AxisBreaks => "plan-axis-breaks",
        PlanSvgGroup::Dimensions => "dimensions",
        PlanSvgGroup::ArtworkIndicator => "artwork-indicator",
        PlanSvgGroup::MatCutGeometry => "mat-cut-geom",
        PlanSvgGroup::CornerDetail => "corner-detail",
        PlanSvgGroup::MatCutLabels => "mat-cut-labels",
        PlanSvgGroup::Thumbnail => "thumbnail",
    }
}

/// Every group has an `id` of its own, so the ids in the document are unique.
pub proof fn lemma_group_ids_distinct(g1: PlanSvgGroup, g2: PlanSvgGroup)
    ensures
        g1 != g2 ==> group_id(g1)@ != group_id(g2)@,
{
    reveal_strlit("geometry");
    reveal_strlit("rabbet-overlap");
    reveal_strlit("content-boundary");
    reveal_strlit("mat-overlap");
    reveal_strlit("plan-axis-breaks");
    reveal_strlit("dimensions");
    reveal_strlit("artwork-indicator");
    reveal_strlit("mat-cut-geom");
    reveal_strlit("corner-detail");
    reveal_strlit("mat-cut-labels");
    reveal_strlit("thumbnail");
    if g1 != g2 {
        let a = group_id(g1)@;
        let b = group_id(g2)@;
        assert(a.len() != b.len() || a[0] != b[0]);
    }
}

impl PlanSvgGroup {
    /// The group's `id` attribute.
    pub fn id(&self) -> (s: &'static str)
        ensures
            s == group_id(*self),
    {
        match self {
            PlanSvgGroup::Geometry => "geometry",
            PlanSvgGroup::RabbetOverlap => "rabbet-overlap",
            PlanSvgGroup::ContentBoundary => "content-boundary",
            PlanSvgGroup::MatOverlap => "mat-overlap",
            PlanSvgGroup::AxisBreaks => "plan-axis-breaks",
            PlanSvgGroup::Dimensions => "dimensions",
            PlanSvgGroup::ArtworkIndicator => "artwork-indicator",
            PlanSvgGroup::MatCutGeometry => "mat-cut-geom",
            PlanSvgGroup::CornerDetail => "corner-detail",
            PlanSvgGroup::MatCutLabels => "mat-cut-labels",
            PlanSvgGroup::Thumbnail => "thumbnail",
        }
    }
}

/// What the plan view SVG has to show.
#[derive(Debug, Clone, Copy, PartialEq, Eq, Structural)]
pub struct PlanSvgFlags {
    /// An axis break is active on either axis.
    pub has_breaks: bool,
    /// The rabbet width is wider than half a pixel at the drawing scale.
    pub rabbet_overlap_visible: bool,
    /// The design has a mat.
    pub has_mat: bool,
    /// The geometry has a mat opening.
    pub has_mat_opening: bool,
    /// The mat overlap is wider than half a pixel at the drawing scale.
    pub mat_overlap_visible: bool,
    /// Dimension callouts are shown.
    pub show_callouts: bool,
    /// Some positioned callout is a mat cut callout.
    pub has_mat_cut_callouts: bool,
    /// The corner detail inset is shown.
    pub has_corner_detail: bool,
    /// The actual-proportions thumbnail is shown.
    pub has_thumbnail: bool,
}

/// `seq![g]` when `present`, else nothing.
pub open spec fn group_if(present: bool, g: PlanSvgGroup) -> Seq<PlanSvgGroup> {
    if present {
        seq![g]
    } else {
        Seq::empty()
    }
}

/// The groups of the plan view SVG, in drawing order. Without axis breaks the
/// full rectangles and the content boundary are drawn; with them, the break
/// ribbons. Mat cut lines come before the corner detail inset and mat cut
/// labels after it, so the inset never hides the mat cut measurements.
pub open spec fn plan_groups(f: PlanSvgFlags) -> Seq<PlanSvgGroup> {
    group_if(!f.has_breaks, PlanSvgGroup::Geometry) + group_if(
        f.rabbet_overlap_visible,
        PlanSvgGroup::RabbetOverlap,
    ) + group_if(!f.has_breaks, PlanSvgGroup::ContentBoundary) + group_if(
        f.has_mat_opening && f.mat_overlap_visible && f.has_mat,
        PlanSvgGroup::MatOverlap,
    ) + group_if(f.has_breaks, PlanSvgGroup::AxisBreaks) + group_if(
        f.show_callouts,
        PlanSvgGroup::Dimensions,
    ) + group_if(f.show_callouts, PlanSvgGroup::ArtworkIndicator) + group_if(
        f.show_callouts && f.has_mat_cut_callouts,
        PlanSvgGroup::MatCutGeometry,
    ) + group_if(f.has_corner_detail, PlanSvgGroup::CornerDetail) + group_if(
        f.show_callouts && f.has_mat_cut_callouts,
        PlanSvgGroup::MatCutLabels,
    ) + group_if(f.has_thumbnail, PlanSvgGroup::Thumbnail)
}

proof fn lemma_contains_concat(a: Seq<PlanSvgGroup>, b: Seq<PlanSvgGroup>, g: PlanSvgGroup)
    ensures
        (a + b).contains(g) <==> a.contains(g) || b.contains(g),
{
    if a.contains(g) {
        let i = choose|i: int| 0 <= i < a.len() && a[i] == g;
        assert((a + b)[i] == g);
    }
    if b.contains(g) {
        let i = choose|i: int| 0 <= i < b.len() && b[i] == g;
        assert((a + b)[a.len() + i] == g);
    }
    if (a + b).contains(g) {
        let i = choose|i: int| 0 <= i < (a + b).len() && (a + b)[i] == g;
        if i < a.len() {
            assert(a[i] == g);
        } else {
            assert(b[i - a.len()] == g);
        }
    }
}

proof fn lemma_group_if_contains(present: bool, h: PlanSvgGroup, g: PlanSvgGroup)
    ensures
        group_if(present, h).contains(g) <==> present && h == g,
{
    if present {
        assert(group_if(present, h)[0] == h);
    }
}

/// Which groups the plan view SVG holds: the full rectangles and the content
/// boundary exactly when no axis is broken, the break ribbons exactly when one
/// is; the rabbet overlap when it is visible; the mat overlap when the design
/// has a mat with an opening and the overlap is visible; the dimensions and
/// artwork indicator exactly when callouts are shown; the mat cut lines and
/// labels exactly when mat cut callouts are shown; the corner detail inset
/// exactly when it is shown, with or without axis breaks; the thumbnail
/// exactly when it is shown.
pub proof fn lemma_plan_groups_presence(f: PlanSvgFlags)
    ensures
        plan_groups(f).contains(PlanSvgGroup::Geometry) <==> !f.has_breaks,
        plan_groups(f).contains(PlanSvgGroup::RabbetOverlap) <==> f.rabbet_overlap_visible,
        plan_groups(f).contains(PlanSvgGroup::ContentBoundary) <==> !f.has_breaks,
        plan_groups(f).contains(PlanSvgGroup::MatOverlap) <==> f.has_mat && f.has_mat_opening
            && f.mat_overlap_visible,
        plan_groups(f).contains(PlanSvgGroup::AxisBreaks) <==> f.has_breaks,
        plan_groups(f).contains(PlanSvgGroup::Dimensions) <==> f.show_callouts,
        plan_groups(f).contains(PlanSvgGroup::ArtworkIndicator) <==> f.show_callouts,
        plan_groups(f).contains(PlanSvgGroup::MatCutGeometry) <==> f.show_callouts
            && f.has_mat_cut_callouts,
        plan_groups(f).contains(PlanSvgGroup::CornerDetail) <==> f.has_corner_detail,
        plan_groups(f).contains(PlanSvgGroup::MatCutLabels) <==> f.show_callouts
            && f.has_mat_cut_callouts,
        plan_groups(f).contains(PlanSvgGroup::Thumbnail) <==> f.has_thumbnail,
{
    let p1 = group_if(!f.has_breaks, PlanSvgGroup::Geometry);
    let p2 = group_if(f.rabbet_overlap_visible, PlanSvgGroup::RabbetOverlap);
    let p3 = group_if(!f.has_breaks, PlanSvgGroup::ContentBoundary);
    let p4 = group_if(f.has_mat_opening && f.mat_overlap_visible && f.has_mat, PlanSvgGroup::MatOverlap);
    let p5 = group_if(f.has_breaks, PlanSvgGroup::AxisBreaks);
    let p6 = group_if(f.show_callouts, PlanSvgGroup::Dimensions);
    let p7 = group_if(f.show_callouts, PlanSvgGroup::ArtworkIndicator);
    let p8 = group_if(f.show_callouts && f.has_mat_cut_callouts, PlanSvgGroup::MatCutGeometry);
    let p9 = group_if(f.has_corner_detail, PlanSvgGroup::CornerDetail);
    let p10 = group_if(f.show_callouts && f.has_mat_cut_callouts, PlanSvgGroup::MatCutLabels);
    let p11 = group_if(f.has_thumbnail, PlanSvgGroup::Thumbnail);
    let q2 = p1 + p2;
    let q3 = q2 + p3;
    let q4 = q3 + p4;
    let q5 = q4 + p5;
    let q6 = q5 + p6;
    let q7 = q6 + p7;
    let q8 = q7 + p8;
    let q9 = q8 + p9;
    let q10 = q9 + p10;
    let q11 = q10 + p11;
    assert(plan_groups(f) == q11);
    assert forall|g: PlanSvgGroup| #[trigger] q11.contains(g) <==> (p1.contains(g) || p2.contains(g)
        || p3.contains(g) || p4.contains(g) || p5.contains(g) || p6.contains(g) || p7.contains(g)
        || p8.contains(g) || p9.contains(g) || p10.contains(g) || p11.contains(g)) by {
        lemma_contains_concat(p1, p2, g);
        lemma_contains_concat(q2, p3, g);
        lemma_contains_concat(q3, p4, g);
        lemma_contains_concat(q4, p5, g);
        lemma_contains_concat(q5, p6, g);
        lemma_contains_concat(q6, p7, g);
        lemma_contains_concat(q7, p8, g);
        lemma_contains_concat(q8, p9, g);
        lemma_contains_concat(q9, p10, g);
        lemma_contains_concat(q10, p11, g);
    }
    assert forall|g: PlanSvgGroup| #![auto] true implies {
        &&& p1.contains(g) <==> !f.has_breaks && g == PlanSvgGroup::Geometry
        &&& p2.contains(g) <==> f.rabbet_overlap_visible && g == PlanSvgGroup::RabbetOverlap
        &&& p3.contains(g) <==> !f.has_breaks && g == PlanSvgGroup::ContentBoundary
        &&& p4.contains(g) <==> f.has_mat_opening && f.mat_overlap_visible && f.has_mat && g
            == PlanSvgGroup::MatOverlap
        &&& p5.contains(g) <==> f.has_breaks && g == PlanSvgGroup::AxisBreaks
        &&& p6.contains(g) <==> f.show_callouts && g == PlanSvgGroup::Dimensions
        &&& p7.contains(g) <==> f.show_callouts && g == PlanSvgGroup::ArtworkIndicator
        &&& p8.contains(g) <==> f.show_callouts && f.has_mat_cut_callouts && g
            == PlanSvgGroup::MatCutGeometry
        &&& p9.contains(g) <==> f.has_corner_detail && g == PlanSvgGroup::CornerDetail
        &&& p10.contains(g) <==> f.show_callouts && f.has_mat_cut_callouts && g
            == PlanSvgGroup::MatCutLabels
        &&& p11.contains(g) <==> f.has_thumbnail && g == PlanSvgGroup::Thumbnail
    } by {
        lemma_group_if_contains(!f.has_breaks, PlanSvgGroup::Geometry, g);
        lemma_group_if_contains(f.rabbet_overlap_visible, PlanSvgGroup::RabbetOverlap, g);
        lemma_group_if_contains(!f.has_breaks, PlanSvgGroup::ContentBoundary, g);
        lemma_group_if_contains(f.has_mat_opening && f.mat_overlap_visible && f.has_mat, PlanSvgGroup::MatOverlap, g);
        lemma_group_if_contains(f.has_breaks, PlanSvgGroup::AxisBreaks, g);
        lemma_group_if_contains(f.show_callouts, PlanSvgGroup::Dimensions, g);
        lemma_group_if_contains(f.show_callouts, PlanSvgGroup::ArtworkIndicator, g);
        lemma_group_if_contains(f.show_callouts && f.has_mat_cut_callouts, PlanSvgGroup::MatCutGeometry, g);
        lemma_group_if_contains(f.has_corner_detail, PlanSvgGroup::CornerDetail, g);
        lemma_group_if_contains(f.show_callouts && f.has_mat_cut_callouts, PlanSvgGroup::MatCutLabels, g);
        lemma_group_if_contains(f.has_thumbnail, PlanSvgGroup::Thumbnail, g);
    }
}

/// Drawing position of each group: later groups are drawn over earlier ones.
pub open spec fn group_rank(g: PlanSvgGroup) -> int {
    match g {
        PlanSvgGroup::Geometry => 0,
        PlanSvgGroup::RabbetOverlap => 1,
        PlanSvgGroup::ContentBoundary => 2,
        PlanSvgGroup::MatOverlap => 3,
        PlanSvgGroup::AxisBreaks => 4,
        PlanSvgGroup::Dimensions => 5,
        PlanSvgGroup::ArtworkIndicator => 6,
        PlanSvgGroup::MatCutGeometry => 7,
        PlanSvgGroup::CornerDetail => 8,
        PlanSvgGroup::MatCutLabels => 9,
        PlanSvgGroup::Thumbnail => 10,
    }
}

/// `gs` is in drawing order, each group once, all ranked below `bound`.
pub open spec fn in_drawing_order(gs: Seq<PlanSvgGroup>, bound: int) -> bool {
    &&& forall|i: int, j: int| 0 <= i < j < gs.len() ==> group_rank(#[trigger] gs[i]) < group_rank(#[trigger] gs[j])
    &&& forall|i: int| 0 <= i < gs.len() ==> group_rank(#[trigger] gs[i]) < bound
}

proof fn lemma_order_step(a: Seq<PlanSvgGroup>, present: bool, g: PlanSvgGroup)
    requires
        in_drawing_order(a, group_rank(g)),
    ensures
        in_drawing_order(a + group_if(present, g), group_rank(g) + 1),
{
    let b = group_if(present, g);
    let c = a + b;
    assert forall|i: int, j: int| 0 <= i < j < c.len() implies group_rank(#[trigger] c[i]) < group_rank(#[trigger] c[j]) by {
        if j < a.len() {
            assert(c[i] == a[i] && c[j] == a[j]);
        } else {
            assert(c[j] == g);
            assert(c[i] == a[i]);
        }
    }
    assert forall|i: int| 0 <= i < c.len() implies group_rank(#[trigger] c[i]) < group_rank(g) + 1 by {
        if i < a.len() {
            assert(c[i] == a[i]);
        } else {
            assert(c[i] == g);
        }
    }
}

/// The plan view groups are drawn in a fixed order, each at most once: the
/// frame and overlap shading first, then the breaks, dimensions and artwork
/// indicator, then the mat cut lines, the corner detail inset over them, the
/// mat cut labels over the inset, and the thumbnail last.
pub proof fn lemma_plan_groups_order(f: PlanSvgFlags)
    ensures
        forall|i: int, j: int|
            0 <= i < j < plan_groups(f).len() ==> group_rank(#[trigger] plan_groups(f)[i])
                < group_rank(#[trigger] plan_groups(f)[j]),
{
    let e = Seq::<PlanSvgGroup>::empty();
    let q1 = e + group_if(!f.has_breaks, PlanSvgGroup::Geometry);
    lemma_order_step(e, !f.has_breaks, PlanSvgGroup::Geometry);
    let q2 = q1 + group_if(f.rabbet_overlap_visible, PlanSvgGroup::RabbetOverlap);
    lemma_order_step(q1, f.rabbet_overlap_visible, PlanSvgGroup::RabbetOverlap);
    let q3 = q2 + group_if(!f.has_breaks, PlanSvgGroup::ContentBoundary);
    lemma_order_step(q2, !f.has_breaks, PlanSvgGroup::ContentBoundary);
    let c4 = f.has_mat_opening && f.mat_overlap_visible && f.has_mat;
    let q4 = q3 + group_if(c4, PlanSvgGroup::MatOverlap);
    lemma_order_step(q3, c4, PlanSvgGroup::MatOverlap);
    let q5 = q4 + group_if(f.has_breaks, PlanSvgGroup::AxisBreaks);
    lemma_order_step(q4, f.has_breaks, PlanSvgGroup::AxisBreaks);
    let q6 = q5 + group_if(f.show_callouts, PlanSvgGroup::Dimensions);
    lemma_order_step(q5, f.show_callouts, PlanSvgGroup::Dimensions);
    let q7 = q6 + group_if(f.show_callouts, PlanSvgGroup::ArtworkIndicator);
    lemma_order_step(q6, f.show_callouts, PlanSvgGroup::ArtworkIndicator);
    let c8 = f.show_callouts && f.has_mat_cut_callouts;
    let q8 = q7 + group_if(c8, PlanSvgGroup::MatCutGeometry);
    lemma_order_step(q7, c8, PlanSvgGroup::MatCutGeometry);
    let q9 = q8 + group_if(f.has_corner_detail, PlanSvgGroup::CornerDetail);
    lemma_order_step(q8, f.has_corner_detail, PlanSvgGroup::CornerDetail);
    let q10 = q9 + group_if(c8, PlanSvgGroup::MatCutLabels);
    lemma_order_step(q9, c8, PlanSvgGroup::MatCutLabels);
    let q11 = q10 + group_if(f.has_thumbnail, PlanSvgGroup::Thumbnail);
    lemma_order_step(q10, f.has_thumbnail, PlanSvgGroup::Thumbnail);
    assert(q1 =~= group_if(!f.has_breaks, PlanSvgGroup::Geometry));
    assert(plan_groups(f) == q11);
}

fn push_if(v: &mut Vec<PlanSvgGroup>, present: bool, g: PlanSvgGroup)
    ensures
        final(v)@ == old(v)@ + group_if(present, g),
{
    if present {
        v.push(g);
    }
    assert(v@ =~= old(v)@ + group_if(present, g));
}

/// The groups of the plan view SVG for `flags`, in drawing order.
pub fn plan_svg_groups(flags: PlanSvgFlags) -> (groups: Vec<PlanSvgGroup>)
    ensures
        groups@ == plan_groups(flags),
        groups@.contains(PlanSvgGroup::Geometry) <==> !flags.has_breaks,
        groups@.contains(PlanSvgGroup::RabbetOverlap) <==> flags.rabbet_overlap_visible,
        groups@.contains(PlanSvgGroup::ContentBoundary) <==> !flags.has_breaks,
        groups@.contains(PlanSvgGroup::MatOverlap) <==> flags.has_mat && flags.has_mat_opening
            && flags.mat_overlap_visible,
        groups@.contains(PlanSvgGroup::AxisBreaks) <==> flags.has_breaks,
        groups@.contains(PlanSvgGroup::Dimensions) <==> flags.show_callouts,
        groups@.contains(PlanSvgGroup::ArtworkIndicator) <==> flags.show_callouts,
        groups@.contains(PlanSvgGroup::MatCutGeometry) <==> flags.show_callouts
            && flags.has_mat_cut_callouts,
        groups@.contains(PlanSvgGroup::CornerDetail) <==> flags.has_corner_detail,
        groups@.contains(PlanSvgGroup::MatCutLabels) <==> flags.show_callouts
            && flags.has_mat_cut_callouts,
        groups@.contains(PlanSvgGroup::Thumbnail) <==> flags.has_thumbnail,
        forall|i: int, j: int|
            0 <= i < j < groups@.len() ==> group_rank(#[trigger] groups@[i]) < group_rank(
                #[trigger] groups@[j],
            ),
{
    proof {
        lemma_plan_groups_presence(flags);
        lemma_plan_groups_order(flags);
    }
    let mut g: Vec<PlanSvgGroup> = Vec::new();
    push_if(&mut g, !flags.has_breaks, PlanSvgGroup::Geometry);
    push_if(&mut g, flags.rabbet_overlap_visible, PlanSvgGroup::RabbetOverlap);
    push_if(&mut g, !flags.has_breaks, PlanSvgGroup::ContentBoundary);
    push_if(
        &mut g,
        flags.has_mat_opening && flags.mat_overlap_visible && flags.has_mat,
        PlanSvgGroup::MatOverlap,
    );
    push_if(&mut g, flags.has_breaks, PlanSvgGroup::AxisBreaks);
    push_if(&mut g, flags.show_callouts, PlanSvgGroup::Dimensions);
    push_if(&mut g, flags.show_callouts, PlanSvgGroup::ArtworkIndicator);
    push_if(&mut g, flags.show_callouts && flags.has_mat_cut_callouts, PlanSvgGroup::MatCutGeometry);
    push_if(&mut g, flags.has_corner_detail, PlanSvgGroup::CornerDetail);
    push_if(&mut g, flags.show_callouts && flags.has_mat_cut_callouts, PlanSvgGroup::MatCutLabels);
    push_if(&mut g, flags.has_thumbnail, PlanSvgGroup::Thumbnail);
    g
}

/// The word for the content under the rabbet, used in the corner detail inset.
pub fn content_label(has_mat: bool) -> (s: &'static str)
    ensures
        s == (if has_mat { "matboard" } else { "artwork" }),
{
    if has_mat {
        "matboard"
    } else {
        "artwork"
    }
}

} // verus!
