use referenceframe_core::layout::{
    is_two_line_label, label_anchor_for_side, side_order, split_two_line_label,
    uses_two_line_layout,
};
use referenceframe_core::types::{DimensionType, Side, TextAnchor};

#[test]
fn two_line_labels_hold_colon_space() {
    assert!(is_two_line_label("Outside: 12 1/2\""));
    assert!(!is_two_line_label("12 1/2\""));
    assert!(!is_two_line_label("Ratio 3:4"));
    assert!(!is_two_line_label(""));
}

#[test]
fn split_two_line_label_keeps_colon_in_prefix() {
    assert_eq!(
        split_two_line_label("Outside: 12 1/2\""),
        Some(("Outside:".to_string(), "12 1/2\"".to_string()))
    );
    assert_eq!(
        split_two_line_label("Mat Cut:    2\" (1\" visible)"),
        Some(("Mat Cut:".to_string(), "2\" (1\" visible)".to_string()))
    );
    assert_eq!(split_two_line_label("a: b: c"), Some(("a:".to_string(), "b: c".to_string())));
    assert_eq!(split_two_line_label("x: "), Some(("x:".to_string(), String::new())));
    assert_eq!(split_two_line_label("no separator"), None);
}

#[test]
fn side_order_groups_by_side_and_sorts_by_priority() {
    let types = [
        DimensionType::FrameOutsideWidth,          // Top, 2
        DimensionType::FrameOutsideHeight,         // Right, 2
        DimensionType::FrameInsideWidthInterior,   // Top, 1
        DimensionType::FrameInsideHeightInterior,  // Right, 1
        DimensionType::MatCutWidth,                // Bottom, 2
        DimensionType::ArtworkWidth,               // Top, 4
        DimensionType::MatOpeningWidth,            // Top, 2
    ];
    let sides: Vec<Side> = types.iter().map(|t| t.preferred_side()).collect();
    let priorities: Vec<u8> = types.iter().map(|t| t.priority()).collect();
    assert_eq!(side_order(&sides, &priorities, Side::Top), vec![2, 0, 6, 5]);
    assert_eq!(side_order(&sides, &priorities, Side::Right), vec![3, 1]);
    assert_eq!(side_order(&sides, &priorities, Side::Bottom), vec![4]);
    assert_eq!(side_order(&sides, &priorities, Side::Left), Vec::<usize>::new());
}

#[test]
fn side_orders_cover_every_callout_once() {
    let sides = vec![Side::Left, Side::Top, Side::Left, Side::Bottom, Side::Right, Side::Left];
    let priorities = vec![3u8, 1, 3, 255, 0, 2];
    let mut all: Vec<usize> = Vec::new();
    for s in [Side::Top, Side::Bottom, Side::Right, Side::Left] {
        let order = side_order(&sides, &priorities, s);
        for w in order.windows(2) {
            assert!(priorities[w[0]] <= priorities[w[1]]);
        }
        all.extend(order);
    }
    assert_eq!(all, vec![1, 3, 4, 5, 0, 2]);
}

#[test]
fn anchors_by_side() {
    assert_eq!(label_anchor_for_side(Side::Top), TextAnchor::Middle);
    assert_eq!(label_anchor_for_side(Side::Bottom), TextAnchor::Middle);
    assert_eq!(label_anchor_for_side(Side::Right), TextAnchor::Start);
    assert_eq!(label_anchor_for_side(Side::Left), TextAnchor::End);
}

#[test]
fn two_line_layout_on_horizontal_sides_only_when_alone() {
    assert!(uses_two_line_layout(Side::Top, 1, "Outside: 10\""));
    assert!(!uses_two_line_layout(Side::Top, 2, "Outside: 10\""));
    assert!(!uses_two_line_layout(Side::Bottom, 1, "10\""));
    assert!(uses_two_line_layout(Side::Left, 3, "Mat Cut: 2\""));
    assert!(uses_two_line_layout(Side::Right, 1, "Inside: 9\""));
    assert!(!uses_two_line_layout(Side::Right, 1, "9\""));
}

use referenceframe_core::layout::{max_level_per_side, outermost_callouts};

#[test]
fn max_level_per_side_and_outermost() {
    let sides = vec![Side::Top, Side::Top, Side::Right, Side::Top, Side::Right];
    let levels = vec![0u8, 1, 0, 2, 1];
    assert_eq!(max_level_per_side(&sides, &levels, Side::Top), 2);
    assert_eq!(max_level_per_side(&sides, &levels, Side::Right), 1);
    assert_eq!(max_level_per_side(&sides, &levels, Side::Left), 0);
    assert_eq!(outermost_callouts(&sides, &levels), vec![false, false, false, true, true]);
    assert_eq!(outermost_callouts(&vec![Side::Bottom], &vec![0]), vec![true]);
    assert_eq!(outermost_callouts(&Vec::new(), &Vec::new()), Vec::<bool>::new());
}
