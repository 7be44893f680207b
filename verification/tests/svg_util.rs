use referenceframe_core::svg_util::{extract_svg_content, html_escape};

#[test]
fn test_html_escape() {
    assert_eq!(html_escape("12 3/4\""), "12 3/4&quot;");
    assert_eq!(html_escape("<test>"), "&lt;test&gt;");
}

#[test]
fn html_escape_replaces_ampersand_once() {
    assert_eq!(html_escape("a & b"), "a &amp; b");
    assert_eq!(html_escape("&lt;"), "&amp;lt;");
    assert_eq!(html_escape(""), "");
    assert_eq!(html_escape("Mat Cut: 2\" (1 3/4\" visible)"), "Mat Cut: 2&quot; (1 3/4&quot; visible)");
}

#[test]
fn html_escape_output_has_no_markup_characters() {
    let escaped = html_escape("<a href=\"x\">&</a>");
    assert_eq!(escaped, "&lt;a href=&quot;x&quot;&gt;&amp;&lt;/a&gt;");
    assert!(!escaped.contains('<'));
    assert!(!escaped.contains('>'));
    assert!(!escaped.contains('"'));
}

#[test]
fn html_escape_is_piecewise() {
    let a = "12 3/4\" <";
    let b = "& 5\"";
    assert_eq!(html_escape(&format!("{}{}", a, b)), format!("{}{}", html_escape(a), html_escape(b)));
}

#[test]
fn html_escape_keeps_non_ascii() {
    assert_eq!(html_escape("250×375 ≈ \"big\""), "250×375 ≈ &quot;big&quot;");
}

#[test]
fn extract_svg_content_drops_background_rect() {
    let svg = "<svg viewBox=\"0 0 10 10\"><defs><marker/></defs><rect fill=\"#FFF\" width=\"100%\" height=\"100%\"/>\n  <line x1=\"0\"/></svg>";
    assert_eq!(extract_svg_content(svg), "<defs><marker/></defs><line x1=\"0\"/>");
}

#[test]
fn extract_svg_content_without_background() {
    let svg = "<svg><g>x</g></svg>";
    assert_eq!(extract_svg_content(svg), "<g>x</g>");
}

#[test]
fn extract_svg_content_uses_last_closing_tag() {
    let svg = "<svg><svg>inner</svg>tail</svg>";
    assert_eq!(extract_svg_content(svg), "<svg>inner</svg>tail");
}

#[test]
fn extract_svg_content_without_tags_returns_input() {
    assert_eq!(extract_svg_content("plain text"), "plain text");
    assert_eq!(extract_svg_content("<svg>no close"), "<svg>no close");
    assert_eq!(extract_svg_content(""), "");
}

#[test]
fn extract_svg_content_unclosed_background_rect_is_kept() {
    let svg = "<svg><rect fill=\"red\"></svg>";
    assert_eq!(extract_svg_content(svg), "<rect fill=\"red\">");
}

use referenceframe_core::svg_util::{generate_defs, viewbox_fields};

#[test]
fn viewbox_fields_four_numbers() {
    let svg = "<svg viewBox=\"-10.5 0 800.25  600\" xmlns=\"http://www.w3.org/2000/svg\">";
    assert_eq!(
        viewbox_fields(svg),
        Some(vec!["-10.5".to_string(), "0".to_string(), "800.25".to_string(), "600".to_string()])
    );
}

#[test]
fn viewbox_fields_rejects_wrong_shapes() {
    assert_eq!(viewbox_fields("<svg width=\"10\">"), None);
    assert_eq!(viewbox_fields("<svg viewBox=\"0 0 10\">"), None);
    assert_eq!(viewbox_fields("<svg viewBox=\"0 0 10 10 5\">"), None);
    assert_eq!(viewbox_fields("<svg viewBox=\"0 0 10 10"), None);
    // Only the first viewBox attribute is read.
    assert_eq!(
        viewbox_fields("<svg viewBox=\" 1\t2\n3 4 \"><svg viewBox=\"5 6 7 8\">"),
        Some(vec!["1".to_string(), "2".to_string(), "3".to_string(), "4".to_string()])
    );
}

#[test]
fn defs_hold_the_hatch_pattern() {
    let defs = generate_defs();
    assert!(defs.starts_with("  <defs>\n"));
    assert!(defs.contains("<pattern id=\"hatch\" patternUnits=\"userSpaceOnUse\" width=\"4\" height=\"4\">"));
    assert!(defs.contains("stroke=\"#CCCCCC\" stroke-width=\"0.5\"/></pattern>\n"));
    assert!(defs.ends_with("  </defs>\n"));
}

fn unescape(s: &str) -> String {
    s.replace("&quot;", "\"").replace("&gt;", ">").replace("&lt;", "<").replace("&amp;", "&")
}

#[test]
fn html_escape_round_trips_and_has_entity_lengths() {
    for s in ["", "plain", "&amp;", "a<b>\"c\"&d", "&&<<>>\"\"", "Mom's 12 3/4\" & 5×7 <frame>"] {
        let e = html_escape(s);
        assert_eq!(unescape(&e), s);
        let count = |c: char| s.chars().filter(|&x| x == c).count();
        assert_eq!(
            e.chars().count(),
            s.chars().count() + 4 * count('&') + 3 * count('<') + 3 * count('>') + 5 * count('"')
        );
        for (i, _) in e.match_indices('&') {
            let rest = &e[i..];
            assert!(
                rest.starts_with("&amp;") || rest.starts_with("&lt;") || rest.starts_with("&gt;")
                    || rest.starts_with("&quot;"),
                "{:?} at {}",
                e,
                i
            );
        }
    }
}
