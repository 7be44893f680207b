//! Frame design diagrams: the decisions behind the plan and section views of a
//! picture frame (callout placement, axis breaks, collision handling) and the
//! SVG text utilities they use.

use vstd::prelude::*;

pub mod callouts;
pub mod collision;
pub mod escape_laws;
pub mod geometry;
pub mod layout;
pub mod plan_svg;
pub mod section_svg;
pub mod snapshot;
pub mod svg_util;
pub mod text;
pub mod types;

verus! {

/// The build version reported to the web front end.
pub fn get_wasm_version() -> (v: String)
    ensures
        v@ == "2026-01-09-dogleg-no-offset"@,
{
    String::from_str("2026-01-09-dogleg-no-offset")
}

} // verus!
