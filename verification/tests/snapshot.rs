use referenceframe_core::snapshot::{overlap_pair_is_counted, snapshot_path, test_designs};

#[test]
fn snapshot_path_under_crate_root() {
    assert_eq!(snapshot_path("/repo/core", "4x6_small"), "/repo/core/tests/snapshots/4x6_small.json");
    assert_eq!(snapshot_path("/repo/core/", "a"), "/repo/core/tests/snapshots/a.json");
    assert_eq!(snapshot_path("", "a"), "tests/snapshots/a.json");
    assert_eq!(snapshot_path("/repo", "/abs/x"), "/abs/x.json");
}

#[test]
fn snapshot_path_matches_path_buf() {
    let mut p = std::path::PathBuf::from("/repo/core");
    p.push("tests");
    p.push("snapshots");
    p.push(format!("{}.json", "16x20_with_mat"));
    assert_eq!(snapshot_path("/repo/core", "16x20_with_mat"), p.to_string_lossy());
}

#[test]
fn overlap_pairs_counted() {
    assert!(!overlap_pair_is_counted("frame_outer", "thumbnail"));
    assert!(!overlap_pair_is_counted("corner_detail", "frame_outer"));
    assert!(!overlap_pair_is_counted("callout_label_FrameDepth_0", "callout_label_Clearance_1"));
    assert!(overlap_pair_is_counted("callout_label_FrameDepth_0", "thumbnail"));
    assert!(overlap_pair_is_counted("corner_detail", "thumbnail"));
    assert!(overlap_pair_is_counted("frame_outer2", "thumbnail"));
}

#[test]
fn snapshot_cases_in_order() {
    let cases = test_designs();
    let labels: Vec<&str> = cases.iter().map(|c| c.label).collect();
    assert_eq!(
        labels,
        vec![
            "8x10_no_mat",
            "16x20_with_mat",
            "5x100_portrait_break",
            "100x5_landscape_break",
            "3x20_label_fit_break",
            "250x375_dual_break",
            "4x6_small",
        ]
    );
    let mat = &cases[1];
    assert_eq!((mat.artwork_height, mat.artwork_width), (320, 256));
    assert_eq!((mat.mat_width_top_bottom, mat.mat_width_sides), (32, 32));
    assert!(cases.iter().all(|c| c.frame_material_width == 12));
    assert_eq!((cases[5].artwork_height, cases[5].artwork_width), (6000, 4000));
}
