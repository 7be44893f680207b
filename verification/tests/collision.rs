use referenceframe_core::collision::{
    callout_shift_axis, skip_unresolvable_pair, split_fixed_flexible, Axis, ElementId,
    FlexPriority,
};
use referenceframe_core::types::Side;

#[test]
fn flex_levels_follow_declaration_order() {
    assert_eq!(FlexPriority::Immovable.level(), 0);
    assert_eq!(FlexPriority::CornerDetail.level(), 2);
    assert_eq!(FlexPriority::Callout.level(), 3);
    assert_eq!(FlexPriority::Thumbnail.level(), 4);
    assert!(FlexPriority::Immovable < FlexPriority::Thumbnail);
}

#[test]
fn the_more_flexible_element_moves() {
    assert_eq!(split_fixed_flexible(0, FlexPriority::Callout, 1, FlexPriority::Thumbnail), (0, 1));
    assert_eq!(split_fixed_flexible(0, FlexPriority::Thumbnail, 1, FlexPriority::Immovable), (1, 0));
    // On a tie, the first element of the pair moves.
    assert_eq!(split_fixed_flexible(3, FlexPriority::Callout, 7, FlexPriority::Callout), (7, 3));
}

#[test]
fn unresolvable_pairs_are_skipped_symmetrically() {
    let sides = vec![Side::Top, Side::Left, Side::Bottom];
    let pairs = [
        (ElementId::Callout(0), ElementId::Thumbnail, true),
        (ElementId::Callout(0), ElementId::Callout(1), true),
        (ElementId::Callout(0), ElementId::Callout(2), false),
        (ElementId::Callout(1), ElementId::CornerDetail, false),
        (ElementId::CornerDetail, ElementId::Thumbnail, false),
        (ElementId::ArrowStub { callout: 2, side: Side::Left }, ElementId::Thumbnail, false),
        // A callout index without a recorded side counts as a top callout.
        (ElementId::Callout(9), ElementId::Callout(1), true),
        (ElementId::Callout(9), ElementId::Callout(0), false),
    ];
    for (a, b, expected) in pairs {
        assert_eq!(skip_unresolvable_pair(a, b, &sides), expected, "{:?} {:?}", a, b);
        assert_eq!(skip_unresolvable_pair(b, a, &sides), expected, "{:?} {:?}", b, a);
    }
}

#[test]
fn callouts_shift_outward_along_their_normal() {
    assert_eq!(callout_shift_axis(Side::Top), (Axis::Y, true));
    assert_eq!(callout_shift_axis(Side::Bottom), (Axis::Y, false));
    assert_eq!(callout_shift_axis(Side::Left), (Axis::X, true));
    assert_eq!(callout_shift_axis(Side::Right), (Axis::X, false));
}
