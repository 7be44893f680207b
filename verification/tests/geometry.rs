use referenceframe_core::geometry::{
    char_width, decide_axis_breaks, label_width, text_width, BreakDecision, BreakSignals,
};
use referenceframe_core::types::DetailMode;

fn signals() -> BreakSignals {
    BreakSignals {
        needs_break_x: false,
        needs_break_y: false,
        force_break_x: false,
        force_break_y: false,
        force_break_x_label: false,
        force_break_y_label: false,
        needs_corner_detail: false,
    }
}

#[test]
fn character_width_classes() {
    assert_eq!(char_width(' '), 28);
    assert_eq!(char_width('1'), 40);
    assert_eq!(char_width('t'), 45);
    assert_eq!(char_width('('), 35);
    assert_eq!(char_width('W'), 90);
    assert_eq!(char_width('/'), 40);
    assert_eq!(char_width('7'), 60);
    assert_eq!(char_width('a'), 58);
    assert_eq!(char_width('Q'), 72);
    assert_eq!(char_width('"'), 45);
    assert_eq!(char_width('×'), 60);
}

#[test]
fn text_width_sums_character_widths() {
    // "10\"" = 40 + 60 + 45
    assert_eq!(text_width("10\""), 145);
    // "24 3/4\"" = 60 + 60 + 28 + 60 + 40 + 60 + 45
    assert_eq!(text_width("24 3/4\""), 353);
    assert!(text_width("24 3/4\"") > text_width("10\""));
    assert_eq!(text_width(""), 0);
    assert_eq!(text_width("ab cd"), text_width("ab") + text_width(" cd"));
}

#[test]
fn label_width_is_the_wider_line() {
    // "Outside:" = 72+58+45+58+40+58+58+40 = 429, "10\"" = 145
    assert_eq!(label_width("Outside: 10\""), 429);
    assert_eq!(label_width("10\""), 145);
    // "a:" = 98, "24 3/4\"" = 353
    assert_eq!(label_width("a: 24 3/4\""), 353);
}

#[test]
fn no_breaks_when_nothing_needs_them() {
    let d = decide_axis_breaks(signals(), DetailMode::Auto, true, true);
    assert_eq!(d, BreakDecision { use_break_x: false, use_break_y: false, use_corner_detail: false });
}

#[test]
fn needed_break_only_on_the_needy_axis() {
    let s = BreakSignals { needs_break_y: true, needs_corner_detail: true, ..signals() };
    let d = decide_axis_breaks(s, DetailMode::Auto, true, true);
    assert_eq!(d, BreakDecision { use_break_x: false, use_break_y: true, use_corner_detail: true });
}

#[test]
fn disabled_breaks_still_yield_to_forced_ones() {
    let s = BreakSignals { needs_break_x: true, needs_break_y: true, ..signals() };
    let d = decide_axis_breaks(s, DetailMode::Auto, true, false);
    assert!(!d.use_break_x && !d.use_break_y);

    let s = BreakSignals { needs_break_y: true, force_break_x_label: true, ..signals() };
    let d = decide_axis_breaks(s, DetailMode::Auto, false, false);
    assert_eq!(d, BreakDecision { use_break_x: true, use_break_y: true, use_corner_detail: false });
}

#[test]
fn detail_mode_disabled_turns_everything_off() {
    let s = BreakSignals {
        needs_break_x: true,
        needs_break_y: true,
        force_break_x: true,
        force_break_y: true,
        force_break_x_label: true,
        force_break_y_label: true,
        needs_corner_detail: true,
    };
    let d = decide_axis_breaks(s, DetailMode::Disabled, true, true);
    assert_eq!(d, BreakDecision { use_break_x: false, use_break_y: false, use_corner_detail: false });
}
