use referenceframe_core::types::{
    default_true, DetailMode, DimensionColor, DimensionType, Side,
};

#[test]
fn test_side_opposite() {
    assert_eq!(Side::Top.opposite(), Side::Bottom);
    assert_eq!(Side::Left.opposite(), Side::Right);
}

#[test]
fn test_dimension_priority() {
    // Inside dimensions have priority 1 (closest to frame)
    assert_eq!(DimensionType::FrameInsideWidthInterior.priority(), 1);
    // Outside dimensions have priority 2 (further from frame)
    assert_eq!(DimensionType::FrameOutsideWidth.priority(), 2);
    // Nice to have dimensions have lower priority
    assert_eq!(DimensionType::ArtworkThickness.priority(), 5);
}

#[test]
fn test_dimension_type_preferred_side() {
    assert_eq!(DimensionType::FrameOutsideWidth.preferred_side(), Side::Top);
    assert_eq!(DimensionType::FrameOutsideHeight.preferred_side(), Side::Right);
    assert_eq!(DimensionType::MatCutWidth.preferred_side(), Side::Bottom);
    assert_eq!(DimensionType::MatCutHeight.preferred_side(), Side::Left);
}

#[test]
fn test_side_is_horizontal_is_vertical() {
    assert!(Side::Top.is_horizontal());
    assert!(Side::Bottom.is_horizontal());
    assert!(!Side::Left.is_horizontal());
    assert!(!Side::Right.is_horizontal());

    assert!(Side::Left.is_vertical());
    assert!(Side::Right.is_vertical());
    assert!(!Side::Top.is_vertical());
    assert!(!Side::Bottom.is_vertical());
}

const ALL_SIDES: [Side; 4] = [Side::Top, Side::Bottom, Side::Left, Side::Right];

const ALL_DIMENSIONS: [DimensionType; 21] = [
    DimensionType::FrameOutsideWidth,
    DimensionType::FrameOutsideHeight,
    DimensionType::FrameInsideWidthInterior,
    DimensionType::FrameInsideHeightInterior,
    DimensionType::MatVisibleWidth,
    DimensionType::MatVisibleHeight,
    DimensionType::MatCutWidth,
    DimensionType::MatCutHeight,
    DimensionType::MatOpeningWidth,
    DimensionType::MatOpeningHeight,
    DimensionType::FrameMaterialWidth,
    DimensionType::RabbetDepth,
    DimensionType::ArtworkWidth,
    DimensionType::ArtworkHeight,
    DimensionType::FrameDepth,
    DimensionType::GlazingThickness,
    DimensionType::MatboardThickness,
    DimensionType::ArtworkThickness,
    DimensionType::BackingThickness,
    DimensionType::TotalStackHeight,
    DimensionType::Clearance,
];

#[test]
fn opposite_twice_is_identity_and_keeps_orientation() {
    for s in ALL_SIDES {
        assert_eq!(s.opposite().opposite(), s);
        assert_ne!(s.opposite(), s);
        assert_eq!(s.opposite().is_horizontal(), s.is_horizontal());
        assert_ne!(s.is_horizontal(), s.is_vertical());
    }
    assert_eq!(Side::Bottom.opposite(), Side::Top);
    assert_eq!(Side::Right.opposite(), Side::Left);
}

#[test]
fn extends_positive_only_for_bottom_and_right() {
    assert!(Side::Bottom.extends_positive());
    assert!(Side::Right.extends_positive());
    assert!(!Side::Top.extends_positive());
    assert!(!Side::Left.extends_positive());
}

#[test]
fn every_priority_is_between_one_and_five() {
    for d in ALL_DIMENSIONS {
        let p = d.priority();
        assert!((1..=5).contains(&p), "{:?} has priority {}", d, p);
    }
    assert_eq!(DimensionType::FrameDepth.priority(), 1);
    assert_eq!(DimensionType::TotalStackHeight.priority(), 1);
    assert_eq!(DimensionType::MatCutHeight.priority(), 2);
    assert_eq!(DimensionType::RabbetDepth.priority(), 3);
    assert_eq!(DimensionType::Clearance.priority(), 3);
    assert_eq!(DimensionType::BackingThickness.priority(), 4);
}

#[test]
fn section_dimensions_prefer_the_right_side() {
    for d in [
        DimensionType::FrameDepth,
        DimensionType::GlazingThickness,
        DimensionType::MatboardThickness,
        DimensionType::ArtworkThickness,
        DimensionType::BackingThickness,
        DimensionType::TotalStackHeight,
        DimensionType::Clearance,
    ] {
        assert_eq!(d.preferred_side(), Side::Right);
    }
    assert_eq!(DimensionType::RabbetDepth.preferred_side(), Side::Bottom);
    assert_eq!(DimensionType::ArtworkWidth.preferred_side(), Side::Top);
    assert_eq!(DimensionType::MatVisibleHeight.preferred_side(), Side::Right);
}

#[test]
fn dimension_colors_follow_the_palette_roles() {
    assert_eq!(DimensionType::FrameInsideWidthInterior.color(), DimensionColor::Inside);
    assert_eq!(DimensionType::FrameOutsideHeight.color(), DimensionColor::Outside);
    assert_eq!(DimensionType::MatCutHeight.color(), DimensionColor::Mat);
    assert_eq!(DimensionType::MatVisibleWidth.color(), DimensionColor::Mat);
    assert_eq!(DimensionType::ArtworkHeight.color(), DimensionColor::Artwork);
    assert_eq!(DimensionType::FrameDepth.color(), DimensionColor::General);
    assert_eq!(DimensionType::RabbetDepth.color(), DimensionColor::General);
}

#[test]
fn defaults_are_auto_and_true() {
    assert_eq!(DetailMode::default(), DetailMode::Auto);
    assert!(default_true());
}

#[test]
fn only_mat_cut_dimensions_are_mat_cut() {
    let cut: Vec<DimensionType> = ALL_DIMENSIONS.iter().copied().filter(|d| d.is_mat_cut()).collect();
    assert_eq!(cut, vec![DimensionType::MatCutWidth, DimensionType::MatCutHeight]);
}
