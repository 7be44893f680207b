use referenceframe_core::section_svg::{diagram_title, has_custom_title, legend_materials};

#[test]
fn legend_lists_matboard_only_with_mat() {
    assert_eq!(legend_materials(true), vec!["Frame", "Glazing", "Matboard", "Artwork", "Backing"]);
    assert_eq!(legend_materials(false), vec!["Frame", "Glazing", "Artwork", "Backing"]);
}

#[test]
fn default_title_when_missing_or_blank() {
    assert_eq!(diagram_title(&None), "Frame Design");
    assert_eq!(diagram_title(&Some("   \t".to_string())), "Frame Design");
    assert!(!has_custom_title(&None));
    assert!(!has_custom_title(&Some(" \n ".to_string())));
}

#[test]
fn custom_title_is_trimmed_and_escaped() {
    assert_eq!(diagram_title(&Some("  Mom's <Frame> ".to_string())), "Mom's &lt;Frame&gt;");
    assert_eq!(diagram_title(&Some("16\" x 20\"".to_string())), "16&quot; x 20&quot;");
    assert!(has_custom_title(&Some(" x ".to_string())));
}

use referenceframe_core::section_svg::{
    clearance_note, rabbet_label, FrameStyle, IndicatorColor, NotePlacement,
};

#[test]
fn rabbet_label_forms() {
    assert_eq!(rabbet_label(FrameStyle::Rabbet, true, "3/8\"", "3/8\""), "Rabbet: 3/8\"");
    assert_eq!(rabbet_label(FrameStyle::Rabbet, false, "1/4\"", "1/2\""), "Rabbet: 1/4\" × 1/2\"");
    assert_eq!(
        rabbet_label(FrameStyle::SightSize, true, "1/4\"", "1/2\""),
        "Sight-size · rabbet 1/4\" × 1/2\" (clears art)"
    );
    assert_eq!(rabbet_label(FrameStyle::Float, false, "1/4\"", "1/2\""), "Float · rabbet 1/4\" × 1/2\"");
}

#[test]
fn clearance_note_forms() {
    let ok = clearance_note(false, "1/8\"");
    assert_eq!(ok.line, "(clearance: 1/8\")");
    assert_eq!(ok.color, IndicatorColor::Success);
    assert_eq!(ok.placement, NotePlacement::Inline);
    let bad = clearance_note(true, "1/16\"");
    assert_eq!(bad.line, "(INTERFERENCE: 1/16\")");
    assert_eq!(bad.color, IndicatorColor::Warning);
    assert_eq!(bad.placement, NotePlacement::AfterLegend);
}
