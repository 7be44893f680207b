use referenceframe_core::plan_svg::{content_label, plan_svg_groups, PlanSvgFlags, PlanSvgGroup};

fn flags() -> PlanSvgFlags {
    PlanSvgFlags {
        has_breaks: false,
        rabbet_overlap_visible: true,
        has_mat: true,
        has_mat_opening: true,
        mat_overlap_visible: true,
        show_callouts: true,
        has_mat_cut_callouts: true,
        has_corner_detail: false,
        has_thumbnail: false,
    }
}

#[test]
fn plan_groups_without_breaks() {
    let ids: Vec<&str> = plan_svg_groups(flags()).iter().map(|g| g.id()).collect();
    assert_eq!(
        ids,
        vec![
            "geometry",
            "rabbet-overlap",
            "content-boundary",
            "mat-overlap",
            "dimensions",
            "artwork-indicator",
            "mat-cut-geom",
            "mat-cut-labels",
        ]
    );
}

#[test]
fn plan_groups_with_breaks_and_insets() {
    let f = PlanSvgFlags { has_breaks: true, has_corner_detail: true, has_thumbnail: true, has_mat: false, ..flags() };
    assert_eq!(
        plan_svg_groups(f),
        vec![
            PlanSvgGroup::RabbetOverlap,
            PlanSvgGroup::AxisBreaks,
            PlanSvgGroup::Dimensions,
            PlanSvgGroup::ArtworkIndicator,
            PlanSvgGroup::MatCutGeometry,
            PlanSvgGroup::CornerDetail,
            PlanSvgGroup::MatCutLabels,
            PlanSvgGroup::Thumbnail,
        ]
    );
}

#[test]
fn preview_without_callouts() {
    let f = PlanSvgFlags { show_callouts: false, rabbet_overlap_visible: false, mat_overlap_visible: false, ..flags() };
    assert_eq!(plan_svg_groups(f), vec![PlanSvgGroup::Geometry, PlanSvgGroup::ContentBoundary]);
}

#[test]
fn content_label_by_mat() {
    assert_eq!(content_label(true), "matboard");
    assert_eq!(content_label(false), "artwork");
}
