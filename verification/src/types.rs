//! Core vocabulary of the frame diagrams: sides, dimension kinds, anchors and
//! view selections.

use vstd::prelude::*;

verus! {

/// Where the thumbnail label text is positioned relative to the thumbnail rect.
#[derive(Debug, Clone, Copy, PartialEq, Eq, Structural)]
pub enum ThumbnailLabelPosition {
    /// Label text to the right of the thumbnail (landscape, no obstruction).
    Right,
    /// Label text below the thumbnail (portrait, or landscape with obstruction).
    Below,
}

/// Side of the diagram on which a dimension is placed.
#[derive(Debug, Clone, Copy, PartialEq, Eq, Structural)]
pub enum Side {
    Top,
    Bottom,
    Left,
    Right,
}

/// Top and bottom are the horizontal sides.
pub open spec fn side_is_horizontal(s: Side) -> bool {
    s == Side::Top || s == Side::Bottom
}

/// Left and right are the vertical sides.
pub open spec fn side_is_vertical(s: Side) -> bool {
    s == Side::Left || s == Side::Right
}

/// The side across the diagram.
pub open spec fn opposite_side(s: Side) -> Side {
    match s {
        Side::Top => Side::Bottom,
        Side::Bottom => Side::Top,
        Side::Left => Side::Right,
        Side::Right => Side::Left,
    }
}

impl Side {
    /// Whether this is a horizontal side (top or bottom).
    pub fn is_horizontal(&self) -> (b: bool)
        ensures
            b == side_is_horizontal(*self),
            b != side_is_vertical(*self),
    {
        matches!(self, Side::Top | Side::Bottom)
    }

    /// Whether this is a vertical side (left or right).
    pub fn is_vertical(&self) -> (b: bool)
        ensures
            b == side_is_vertical(*self),
            b != side_is_horizontal(*self),
    {
        matches!(self, Side::Left | Side::Right)
    }

    /// The opposite side.
    pub fn opposite(&self) -> (s: Side)
        ensures
            s == opposite_side(*self),
            s != *self,
            side_is_horizontal(s) == side_is_horizontal(*self),
    {
        match self {
            Side::Top => Side::Bottom,
            Side::Bottom => Side::Top,
            Side::Left => Side::Right,
            Side::Right => Side::Left,
        }
    }

    /// Whether a dimension on this side is drawn away from the geometry in the
    /// direction of growing coordinates (bottom and right do; top and left go
    /// toward smaller coordinates).
    pub fn extends_positive(&self) -> (b: bool)
        ensures
            b <==> (*self == Side::Bottom || *self == Side::Right),
    {
        matches!(self, Side::Bottom | Side::Right)
    }
}

/// Taking the opposite side twice gives back the side.
pub proof fn lemma_opposite_involution(s: Side)
    ensures
        opposite_side(opposite_side(s)) == s,
        side_is_vertical(opposite_side(s)) == side_is_vertical(s),
{
}

/// Types of dimensions that can be displayed.
#[derive(Debug, Clone, Copy, PartialEq, Eq, Structural)]
pub enum DimensionType {
    // Plan view dimensions
    FrameOutsideWidth,
    FrameOutsideHeight,
    /// Inside width shown inside the frame opening
    FrameInsideWidthInterior,
    /// Inside height shown inside the frame opening
    FrameInsideHeightInterior,
    MatVisibleWidth,
    MatVisibleHeight,
    /// Total mat cut width (visible + rabbet), shown at the bottom
    MatCutWidth,
    /// Total mat cut height (visible + rabbet), shown on the left when it differs
    MatCutHeight,
    MatOpeningWidth,
    MatOpeningHeight,
    FrameMaterialWidth,
    RabbetDepth,
    ArtworkWidth,
    ArtworkHeight,
    // Section view dimensions
    FrameDepth,
    GlazingThickness,
    MatboardThickness,
    ArtworkThickness,
    BackingThickness,
    TotalStackHeight,
    Clearance,
}

/// Display priority of a dimension (1 = highest, always shown; a lower number
/// is placed closer to the frame).
pub open spec fn dimension_priority(d: DimensionType) -> u8 {
    match d {
        DimensionType::FrameInsideWidthInterior => 1,
        DimensionType::FrameInsideHeightInterior => 1,
        DimensionType::FrameOutsideWidth => 2,
        DimensionType::FrameOutsideHeight => 2,
        DimensionType::FrameDepth => 1,
        DimensionType::TotalStackHeight => 1,
        DimensionType::MatOpeningWidth => 2,
        DimensionType::MatOpeningHeight => 2,
        DimensionType::FrameMaterialWidth => 3,
        DimensionType::MatVisibleWidth => 3,
        DimensionType::MatVisibleHeight => 3,
        DimensionType::MatCutWidth => 2,
        DimensionType::MatCutHeight => 2,
        DimensionType::RabbetDepth => 3,
        DimensionType::ArtworkWidth => 4,
        DimensionType::ArtworkHeight => 4,
        DimensionType::GlazingThickness => 4,
        DimensionType::MatboardThickness => 4,
        DimensionType::ArtworkThickness => 5,
        DimensionType::BackingThickness => 4,
        DimensionType::Clearance => 3,
    }
}

/// The side on which a dimension is placed by preference.
pub open spec fn dimension_preferred_side(d: DimensionType) -> Side {
    match d {
        DimensionType::FrameOutsideWidth => Side::Top,
        DimensionType::FrameOutsideHeight => Side::Right,
        DimensionType::FrameInsideWidthInterior => Side::Top,
        DimensionType::FrameInsideHeightInterior => Side::Right,
        DimensionType::MatCutWidth => Side::Bottom,
        DimensionType::MatCutHeight => Side::Left,
        DimensionType::MatOpeningWidth | DimensionType::MatVisibleWidth
        | DimensionType::ArtworkWidth => Side::Top,
        DimensionType::MatOpeningHeight | DimensionType::MatVisibleHeight
        | DimensionType::ArtworkHeight => Side::Right,
        DimensionType::FrameMaterialWidth | DimensionType::RabbetDepth => Side::Bottom,
        DimensionType::FrameDepth | DimensionType::GlazingThickness
        | DimensionType::MatboardThickness | DimensionType::ArtworkThickness
        | DimensionType::BackingThickness | DimensionType::TotalStackHeight
        | DimensionType::Clearance => Side::Right,
    }
}

/// The dimensions that belong to the cross-section view.
pub open spec fn is_section_dimension(d: DimensionType) -> bool {
    ||| d == DimensionType::FrameDepth
    ||| d == DimensionType::GlazingThickness
    ||| d == DimensionType::MatboardThickness
    ||| d == DimensionType::ArtworkThickness
    ||| d == DimensionType::BackingThickness
    ||| d == DimensionType::TotalStackHeight
    ||| d == DimensionType::Clearance
}

/// The dimensions that measure a width (placed along a horizontal side).
pub open spec fn is_width_dimension(d: DimensionType) -> bool {
    ||| d == DimensionType::FrameOutsideWidth
    ||| d == DimensionType::FrameInsideWidthInterior
    ||| d == DimensionType::MatVisibleWidth
    ||| d == DimensionType::MatCutWidth
    ||| d == DimensionType::MatOpeningWidth
    ||| d == DimensionType::FrameMaterialWidth
    ||| d == DimensionType::ArtworkWidth
}

/// The dimensions that measure a height of the plan view.
pub open spec fn is_height_dimension(d: DimensionType) -> bool {
    ||| d == DimensionType::FrameOutsideHeight
    ||| d == DimensionType::FrameInsideHeightInterior
    ||| d == DimensionType::MatVisibleHeight
    ||| d == DimensionType::MatCutHeight
    ||| d == DimensionType::MatOpeningHeight
    ||| d == DimensionType::ArtworkHeight
}

/// The laws of priorities and preferred sides.
///
/// Only the inside width and height, the frame depth and the total stack
/// height have the highest priority; the inside dimensions are placed closer
/// to the frame than the outside ones. A width and the matching height share a
/// priority, and the mat cut dimensions share theirs with the other mat
/// opening dimensions. Every width prefers a horizontal side and every plan
/// height a vertical one: the outside and inside widths the top, the outside
/// and inside heights the right, the mat cut width the bottom and the mat cut
/// height the left. Every section dimension prefers the right.
pub proof fn lemma_dimension_laws(d: DimensionType)
    ensures
        dimension_priority(d) == 1 <==> (d == DimensionType::FrameInsideWidthInterior || d
            == DimensionType::FrameInsideHeightInterior || d == DimensionType::FrameDepth || d
            == DimensionType::TotalStackHeight),
        1 <= dimension_priority(d) <= 5,
        dimension_priority(DimensionType::FrameInsideWidthInterior) < dimension_priority(
            DimensionType::FrameOutsideWidth,
        ),
        dimension_priority(DimensionType::FrameInsideHeightInterior) < dimension_priority(
            DimensionType::FrameOutsideHeight,
        ),
        dimension_priority(DimensionType::FrameOutsideWidth) == dimension_priority(
            DimensionType::FrameOutsideHeight,
        ),
        dimension_priority(DimensionType::FrameInsideWidthInterior) == dimension_priority(
            DimensionType::FrameInsideHeightInterior,
        ),
        dimension_priority(DimensionType::MatCutWidth) == dimension_priority(
            DimensionType::MatOpeningWidth,
        ),
        dimension_priority(DimensionType::MatCutHeight) == dimension_priority(
            DimensionType::MatOpeningHeight,
        ),
        is_width_dimension(d) ==> side_is_horizontal(dimension_preferred_side(d)),
        is_height_dimension(d) ==> side_is_vertical(dimension_preferred_side(d)),
        is_section_dimension(d) ==> dimension_preferred_side(d) == Side::Right,
        d == DimensionType::FrameOutsideWidth || d == DimensionType::FrameInsideWidthInterior
            ==> dimension_preferred_side(d) == Side::Top,
        d == DimensionType::FrameOutsideHeight || d == DimensionType::FrameInsideHeightInterior
            ==> dimension_preferred_side(d) == Side::Right,
        dimension_preferred_side(DimensionType::MatCutWidth) == Side::Bottom,
        dimension_preferred_side(DimensionType::MatCutHeight) == Side::Left,
        d == DimensionType::MatOpeningWidth || d == DimensionType::MatVisibleWidth || d
            == DimensionType::ArtworkWidth ==> dimension_preferred_side(d)
            == dimension_preferred_side(DimensionType::FrameOutsideWidth),
        d == DimensionType::MatOpeningHeight || d == DimensionType::MatVisibleHeight || d
            == DimensionType::ArtworkHeight ==> dimension_preferred_side(d)
            == dimension_preferred_side(DimensionType::FrameOutsideHeight),
        d == DimensionType::MatOpeningWidth || d == DimensionType::MatOpeningHeight || d
            == DimensionType::MatVisibleWidth || d == DimensionType::MatVisibleHeight || d
            == DimensionType::MatCutWidth || d == DimensionType::MatCutHeight || d
            == DimensionType::FrameMaterialWidth || d == DimensionType::RabbetDepth ==> 2
            <= dimension_priority(d) <= 3,
        d == DimensionType::ArtworkWidth || d == DimensionType::ArtworkHeight || d
            == DimensionType::GlazingThickness || d == DimensionType::MatboardThickness || d
            == DimensionType::ArtworkThickness || d == DimensionType::BackingThickness ==> 4
            <= dimension_priority(d),
        dimension_priority(d) <= dimension_priority(DimensionType::ArtworkThickness),
        dimension_priority(d) == dimension_priority(DimensionType::ArtworkThickness) ==> d
            == DimensionType::ArtworkThickness,
{
}

/// Which palette color a dimension is drawn in.
#[derive(Debug, Clone, Copy, PartialEq, Eq, Structural)]
pub enum DimensionColor {
    /// Frame inside width/height
    Inside,
    /// Frame outside width/height
    Outside,
    /// Mat cut, opening and visible dimensions
    Mat,
    /// Artwork width/height
    Artwork,
    /// Every other dimension
    General,
}

/// The palette color of a dimension.
pub open spec fn dimension_color(d: DimensionType) -> DimensionColor {
    match d {
        DimensionType::FrameInsideWidthInterior
        | DimensionType::FrameInsideHeightInterior => DimensionColor::Inside,
        DimensionType::FrameOutsideWidth
        | DimensionType::FrameOutsideHeight => DimensionColor::Outside,
        DimensionType::MatCutWidth | DimensionType::MatCutHeight
        | DimensionType::MatOpeningWidth | DimensionType::MatOpeningHeight
        | DimensionType::MatVisibleWidth
        | DimensionType::MatVisibleHeight => DimensionColor::Mat,
        DimensionType::ArtworkWidth | DimensionType::ArtworkHeight => DimensionColor::Artwork,
        _ => DimensionColor::General,
    }
}

/// The laws of the palette colors: the inside dimensions are drawn in the
/// inside color, the outside ones in the outside color, every mat dimension in
/// the mat color, the artwork's width and height in the artwork color, and every
/// section dimension in the general color; a width and the matching height
/// share a color.
pub proof fn lemma_dimension_color_laws(d: DimensionType)
    ensures
        d == DimensionType::FrameInsideWidthInterior || d
            == DimensionType::FrameInsideHeightInterior <==> dimension_color(d)
            == DimensionColor::Inside,
        d == DimensionType::FrameOutsideWidth || d == DimensionType::FrameOutsideHeight
            <==> dimension_color(d) == DimensionColor::Outside,
        d == DimensionType::ArtworkWidth || d == DimensionType::ArtworkHeight <==> dimension_color(
            d,
        ) == DimensionColor::Artwork,
        d == DimensionType::MatCutWidth || d == DimensionType::MatCutHeight || d
            == DimensionType::MatOpeningWidth || d == DimensionType::MatOpeningHeight || d
            == DimensionType::MatVisibleWidth || d == DimensionType::MatVisibleHeight
            <==> dimension_color(d) == DimensionColor::Mat,
        is_section_dimension(d) ==> dimension_color(d) == DimensionColor::General,
{
}

impl DimensionType {
    /// Display priority (1 = highest, must always show). A lower number is
    /// placed closer to the frame (offset level 0).
    pub fn priority(&self) -> (p: u8)
        ensures
            p == dimension_priority(*self),
            1 <= p <= 5,
    {
        match self {
            DimensionType::FrameInsideWidthInterior => 1,
            DimensionType::FrameInsideHeightInterior => 1,
            DimensionType::FrameOutsideWidth => 2,
            DimensionType::FrameOutsideHeight => 2,
            DimensionType::FrameDepth => 1,
            DimensionType::TotalStackHeight => 1,
            DimensionType::MatOpeningWidth => 2,
            DimensionType::MatOpeningHeight => 2,
            DimensionType::FrameMaterialWidth => 3,
            DimensionType::MatVisibleWidth => 3,
            DimensionType::MatVisibleHeight => 3,
            DimensionType::MatCutWidth => 2,
            DimensionType::MatCutHeight => 2,
            DimensionType::RabbetDepth => 3,
            DimensionType::ArtworkWidth => 4,
            DimensionType::ArtworkHeight => 4,
            DimensionType::GlazingThickness => 4,
            DimensionType::MatboardThickness => 4,
            DimensionType::ArtworkThickness => 5,
            DimensionType::BackingThickness => 4,
            DimensionType::Clearance => 3,
        }
    }

    /// The preferred side for this dimension.
    pub fn preferred_side(&self) -> (s: Side)
        ensures
            s == dimension_preferred_side(*self),
            is_section_dimension(*self) ==> s == Side::Right,
    {
        match self {
            DimensionType::FrameOutsideWidth => Side::Top,
            DimensionType::FrameOutsideHeight => Side::Right,
            DimensionType::FrameInsideWidthInterior => Side::Top,
            DimensionType::FrameInsideHeightInterior => Side::Right,
            DimensionType::MatCutWidth => Side::Bottom,
            DimensionType::MatCutHeight => Side::Left,
            DimensionType::MatOpeningWidth
            | DimensionType::MatVisibleWidth
            | DimensionType::ArtworkWidth => Side::Top,
            DimensionType::MatOpeningHeight
            | DimensionType::MatVisibleHeight
            | DimensionType::ArtworkHeight => Side::Right,
            DimensionType::FrameMaterialWidth | DimensionType::RabbetDepth => Side::Bottom,
            DimensionType::FrameDepth
            | DimensionType::GlazingThickness
            | DimensionType::MatboardThickness
            | DimensionType::ArtworkThickness
            | DimensionType::BackingThickness
            | DimensionType::TotalStackHeight
            | DimensionType::Clearance => Side::Right,
        }
    }

    /// Whether this is a mat cut dimension; those are drawn after the corner
    /// detail inset so that it never hides them.
    pub fn is_mat_cut(&self) -> (b: bool)
        ensures
            b <==> (*self == DimensionType::MatCutWidth || *self == DimensionType::MatCutHeight),
    {
        matches!(self, DimensionType::MatCutWidth | DimensionType::MatCutHeight)
    }

    /// The palette color this dimension is drawn in.
    pub fn color(&self) -> (c: DimensionColor)
        ensures
            c == dimension_color(*self),
    {
        match self {
            DimensionType::FrameInsideWidthInterior
            | DimensionType::FrameInsideHeightInterior => DimensionColor::Inside,
            DimensionType::FrameOutsideWidth
            | DimensionType::FrameOutsideHeight => DimensionColor::Outside,
            DimensionType::MatCutWidth
            | DimensionType::MatCutHeight
            | DimensionType::MatOpeningWidth
            | DimensionType::MatOpeningHeight
            | DimensionType::MatVisibleWidth
            | DimensionType::MatVisibleHeight => DimensionColor::Mat,
            DimensionType::ArtworkWidth | DimensionType::ArtworkHeight => DimensionColor::Artwork,
            _ => DimensionColor::General,
        }
    }
}

/// Text anchor for label positioning.
#[derive(Debug, Clone, Copy, PartialEq, Eq, Structural)]
pub enum TextAnchor {
    Start,
    Middle,
    End,
}

/// View type for diagram generation.
#[derive(Debug, Clone, Copy, PartialEq, Eq, Structural)]
pub enum ViewType {
    /// Front-on plan view showing nested rectangles
    Plan,
    /// Cross-section showing the material stack
    Section,
}

/// View selection for diagram generation.
#[derive(Debug, Clone, Copy, PartialEq, Eq, Structural)]
pub enum ViewOption {
    PlanOnly,
    SectionOnly,
    /// Plan and section together (PDF export)
    Both,
}

/// How to handle thin frame layers in the plan view.
#[derive(Debug, Clone, Copy, PartialEq, Eq, Structural)]
pub enum DetailMode {
    /// Use corner detail / axis breaks when conditions are met
    Auto,
    /// No detail enhancements (no corner detail, no axis breaks)
    Disabled,
}

impl Default for DetailMode {
    fn default() -> (m: Self)
        ensures
            m == DetailMode::Auto,
    {
        DetailMode::Auto
    }
}

/// Default for the diagram options that are on unless turned off.
pub fn default_true() -> (b: bool)
    ensures
        b,
{
    true
}

} // verus!
