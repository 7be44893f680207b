use referenceframe_core::callouts::{plan_callout_types, section_callout_types};
use referenceframe_core::get_wasm_version;
use referenceframe_core::types::{DimensionType, Side};

#[test]
fn plan_callouts_without_mat() {
    assert_eq!(
        plan_callout_types(false, true, true),
        vec![
            DimensionType::FrameOutsideWidth,
            DimensionType::FrameOutsideHeight,
            DimensionType::FrameInsideWidthInterior,
            DimensionType::FrameInsideHeightInterior,
        ]
    );
    assert_eq!(plan_callout_types(true, false, false).len(), 4);
}

#[test]
fn plan_callouts_with_mat() {
    let same = plan_callout_types(true, true, false);
    assert_eq!(same.last(), Some(&DimensionType::MatCutWidth));
    assert_eq!(same.len(), 5);
    let differ = plan_callout_types(true, true, true);
    assert_eq!(&differ[4..], &[DimensionType::MatCutWidth, DimensionType::MatCutHeight]);
    // The mat cut height is the only plan callout on the left.
    assert_eq!(differ.iter().filter(|t| t.preferred_side() == Side::Left).count(), 1);
}

#[test]
fn section_callouts_with_and_without_mat() {
    let with_mat = section_callout_types(true);
    assert_eq!(with_mat.len(), 7);
    assert_eq!(with_mat[2], DimensionType::MatboardThickness);
    let without = section_callout_types(false);
    assert_eq!(
        without,
        vec![
            DimensionType::FrameDepth,
            DimensionType::GlazingThickness,
            DimensionType::ArtworkThickness,
            DimensionType::BackingThickness,
            DimensionType::TotalStackHeight,
            DimensionType::Clearance,
        ]
    );
    assert!(without.iter().all(|t| t.preferred_side() == Side::Right));
}

#[test]
fn wasm_version_string() {
    assert_eq!(get_wasm_version(), "2026-01-09-dogleg-no-offset");
}

use referenceframe_core::callouts::callout_label;

#[test]
fn callout_labels_by_kind() {
    assert_eq!(callout_label(DimensionType::FrameOutsideWidth, "12\"", "", false), "Outside: 12\"");
    assert_eq!(callout_label(DimensionType::FrameInsideHeightInterior, "9\"", "", false), "Inside: 9\"");
    assert_eq!(
        callout_label(DimensionType::MatCutHeight, "2 3/8\"", "2\"", false),
        "Mat Cut: 2 3/8\" (2\" visible)"
    );
    assert_eq!(callout_label(DimensionType::GlazingThickness, "3/32\"", "", false), "Glazing 3/32\"");
    assert_eq!(callout_label(DimensionType::MatboardThickness, "1/16\"", "", false), "Mat 1/16\"");
    assert_eq!(callout_label(DimensionType::ArtworkThickness, "0\"", "", false), "Artwork 0\"");
    assert_eq!(callout_label(DimensionType::BackingThickness, "1/8\"", "", false), "Backing 1/8\"");
    assert_eq!(callout_label(DimensionType::FrameDepth, "3/4\"", "", false), "3/4\"");
    assert_eq!(callout_label(DimensionType::TotalStackHeight, "1/2\"", "", true), "1/2\"");
    assert_eq!(callout_label(DimensionType::Clearance, "1/8\"", "", false), "Clearance 1/8\"");
    assert_eq!(callout_label(DimensionType::Clearance, "1/8\"", "", true), "INTERFERENCE 1/8\"");
}
