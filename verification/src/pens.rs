//! The pens sidebar: which page, row, toggle and icon show each pen configuration,
//! and which configuration a selected row stands for.

use vstd::prelude::*;
use vstd::string::StringExecFns;

verus! {

/// The pens.
#[derive(Clone, Copy, Debug, PartialEq, Eq, Structural)]
pub enum PenStyle {
    Brush,
    Shaper,
    Typewriter,
    Eraser,
    Selector,
    Tools,
}

#[derive(Clone, Copy, Debug, PartialEq, Eq, Structural)]
pub enum BrushStyle {
    Marker,
    Solid,
    Textured,
}

#[derive(Clone, Copy, Debug, PartialEq, Eq, Structural)]
pub enum PenPathBuilderType {
    Simple,
    Curved,
    Modeled,
}

#[derive(Clone, Copy, Debug, PartialEq, Eq, Structural)]
pub enum ShaperStyle {
    Smooth,
    Rough,
}

#[derive(Clone, Copy, Debug, PartialEq, Eq, Structural)]
pub enum ShapeBuilderType {
    Line,
    Rectangle,
    CoordSystem2D,
    CoordSystem3D,
    QuadrantCoordSystem2D,
    Ellipse,
    FociEllipse,
    QuadBez,
    CubBez,
}

#[derive(Clone, Copy, Debug, PartialEq, Eq, Structural)]
pub enum SelectorStyle {
    Polygon,
    Rectangle,
    Single,
    IntersectingPath,
}

#[derive(Clone, Copy, Debug, PartialEq, Eq, Structural)]
pub enum EraserStyle {
    TrashCollidingStrokes,
    SplitCollidingStrokes,
}

#[derive(Clone, Copy, Debug, PartialEq, Eq, Structural)]
pub enum ToolStyle {
    VerticalSpace,
    OffsetCamera,
}

/// The name of the sidebar stack page of each pen.
pub open spec fn page_name(style: PenStyle) -> Seq<char> {
    match style {
        PenStyle::Brush => "brush_page"@,
        PenStyle::Shaper => "shaper_page"@,
        PenStyle::Typewriter => "typewriter_page"@,
        PenStyle::Eraser => "eraser_page"@,
        PenStyle::Selector => "selector_page"@,
        PenStyle::Tools => "tools_page"@,
    }
}

/// The sidebar page that shows the pen.
pub fn sidebar_page_name(style: PenStyle) -> (name: String)
    ensures
        name@ == page_name(style),
{
    match style {
        PenStyle::Brush => String::from_str("brush_page"),
        PenStyle::Shaper => String::from_str("shaper_page"),
        PenStyle::Typewriter => String::from_str("typewriter_page"),
        PenStyle::Eraser => String::from_str("eraser_page"),
        PenStyle::Selector => String::from_str("selector_page"),
        PenStyle::Tools => String::from_str("tools_page"),
    }
}

/// Which colors of the current pen the color picker takes over when the UI is
/// refreshed from the engine.
#[derive(Clone, Copy, Debug, PartialEq, Eq, Structural)]
pub enum ColorSync {
    /// the stroke and the fill color
    StrokeAndFill,
    /// the stroke color (the textured brush and the typewriter have no fill)
    StrokeOnly,
    /// no color
    Nothing,
}

/// The colors that follow the pen: both for the marker and solid brush and for
/// both shaper styles, the stroke color alone for the textured brush and the
/// typewriter, none for the other pens.
pub open spec fn color_sync_for(pen: PenStyle, brush: BrushStyle) -> ColorSync {
    match pen {
        PenStyle::Brush => match brush {
            BrushStyle::Textured => ColorSync::StrokeOnly,
            _ => ColorSync::StrokeAndFill,
        },
        PenStyle::Shaper => ColorSync::StrokeAndFill,
        PenStyle::Typewriter => ColorSync::StrokeOnly,
        _ => ColorSync::Nothing,
    }
}

/// Which colors of the pen the color picker takes over.
pub fn colors_to_sync(pen: PenStyle, brush: BrushStyle) -> (c: ColorSync)
    ensures
        c == color_sync_for(pen, brush),
{
    match pen {
        PenStyle::Brush => match brush {
            BrushStyle::Textured => ColorSync::StrokeOnly,
            _ => ColorSync::StrokeAndFill,
        },
        PenStyle::Shaper => ColorSync::StrokeAndFill,
        PenStyle::Typewriter => ColorSync::StrokeOnly,
        _ => ColorSync::Nothing,
    }
}

/// The brush style of each row of the brush style list.
pub open spec fn brush_style_of_row(row: u32) -> Option<BrushStyle> {
    if row == 0 {
        Some(BrushStyle::Marker)
    } else if row == 1 {
        Some(BrushStyle::Solid)
    } else if row == 2 {
        Some(BrushStyle::Textured)
    } else {
        None
    }
}

/// The brush style of the selected row, `None` for a row past the list.
pub fn brush_style_from_row(row: u32) -> (s: Option<BrushStyle>)
    ensures
        s == brush_style_of_row(row),
{
    if row == 0 {
        Some(BrushStyle::Marker)
    } else if row == 1 {
        Some(BrushStyle::Solid)
    } else if row == 2 {
        Some(BrushStyle::Textured)
    } else {
        None
    }
}

/// The row of the brush style list that shows the style.
pub fn brush_style_row(style: BrushStyle) -> (row: u32)
    ensures
        brush_style_of_row(row) == Some(style),
{
    match style {
        BrushStyle::Marker => 0,
        BrushStyle::Solid => 1,
        BrushStyle::Textured => 2,
    }
}

/// The icon of each brush style.
pub open spec fn brush_icon(style: BrushStyle) -> Seq<char> {
    match style {
        BrushStyle::Marker => "pen-brush-style-marker-symbolic"@,
        BrushStyle::Solid => "pen-brush-style-solid-symbolic"@,
        BrushStyle::Textured => "pen-brush-style-textured-symbolic"@,
    }
}

/// The icon of the brush style menu button for the style.
pub fn brush_style_icon_name(style: BrushStyle) -> (name: String)
    ensures
        name@ == brush_icon(style),
{
    match style {
        BrushStyle::Marker => String::from_str("pen-brush-style-marker-symbolic"),
        BrushStyle::Solid => String::from_str("pen-brush-style-solid-symbolic"),
        BrushStyle::Textured => String::from_str("pen-brush-style-textured-symbolic"),
    }
}

/// The builder type of each row of the builder type list.
pub open spec fn builder_type_of_row(row: u32) -> Option<PenPathBuilderType> {
    if row == 0 {
        Some(PenPathBuilderType::Simple)
    } else if row == 1 {
        Some(PenPathBuilderType::Curved)
    } else if row == 2 {
        Some(PenPathBuilderType::Modeled)
    } else {
        None
    }
}

/// The builder type of the selected row, `None` for a row past the list.
pub fn builder_type_from_row(row: u32) -> (t: Option<PenPathBuilderType>)
    ensures
        t == builder_type_of_row(row),
{
    if row == 0 {
        Some(PenPathBuilderType::Simple)
    } else if row == 1 {
        Some(PenPathBuilderType::Curved)
    } else if row == 2 {
        Some(PenPathBuilderType::Modeled)
    } else {
        None
    }
}

/// The row of the builder type list that shows the builder type.
pub fn builder_type_row(t: PenPathBuilderType) -> (row: u32)
    ensures
        builder_type_of_row(row) == Some(t),
{
    match t {
        PenPathBuilderType::Simple => 0,
        PenPathBuilderType::Curved => 1,
        PenPathBuilderType::Modeled => 2,
    }
}

/// The shaper style of a selected row; rows past the list give the default, smooth.
pub open spec fn shaper_style_of_row(row: u32) -> ShaperStyle {
    if row == 1 {
        ShaperStyle::Rough
    } else {
        ShaperStyle::Smooth
    }
}

/// The shaper style of the selected row.
pub fn shaper_style_from_row(row: u32) -> (s: ShaperStyle)
    ensures
        s == shaper_style_of_row(row),
{
    if row == 1 {
        ShaperStyle::Rough
    } else {
        ShaperStyle::Smooth
    }
}

/// The row and the icon of each shaper style.
pub open spec fn shaper_style_view(style: ShaperStyle) -> (u32, Seq<char>) {
    match style {
        ShaperStyle::Smooth => (0, "pen-shaper-style-smooth-symbolic"@),
        ShaperStyle::Rough => (1, "pen-shaper-style-rough-symbolic"@),
    }
}

/// The shape builder type of each row; rows past the list give the default, a line.
pub open spec fn shape_builder_type_of_row(row: u32) -> ShapeBuilderType {
    if row == 1 {
        ShapeBuilderType::Rectangle
    } else if row == 2 {
        ShapeBuilderType::CoordSystem2D
    } else if row == 3 {
        ShapeBuilderType::CoordSystem3D
    } else if row == 4 {
        ShapeBuilderType::QuadrantCoordSystem2D
    } else if row == 5 {
        ShapeBuilderType::Ellipse
    } else if row == 6 {
        ShapeBuilderType::FociEllipse
    } else if row == 7 {
        ShapeBuilderType::QuadBez
    } else if row == 8 {
        ShapeBuilderType::CubBez
    } else {
        ShapeBuilderType::Line
    }
}

/// The shape builder type of the selected row.
pub fn shape_builder_type_from_row(row: u32) -> (t: ShapeBuilderType)
    ensures
        t == shape_builder_type_of_row(row),
{
    if row == 1 {
        ShapeBuilderType::Rectangle
    } else if row == 2 {
        ShapeBuilderType::CoordSystem2D
    } else if row == 3 {
        ShapeBuilderType::CoordSystem3D
    } else if row == 4 {
        ShapeBuilderType::QuadrantCoordSystem2D
    } else if row == 5 {
        ShapeBuilderType::Ellipse
    } else if row == 6 {
        ShapeBuilderType::FociEllipse
    } else if row == 7 {
        ShapeBuilderType::QuadBez
    } else if row == 8 {
        ShapeBuilderType::CubBez
    } else {
        ShapeBuilderType::Line
    }
}

/// The icon of each shape builder type.
pub open spec fn shape_icon(t: ShapeBuilderType) -> Seq<char> {
    match t {
        ShapeBuilderType::Line => "shape-line-symbolic"@,
        ShapeBuilderType::Rectangle => "shape-rectangle-symbolic"@,
        ShapeBuilderType::CoordSystem2D => "shape-coordsystem2d-symbolic"@,
        ShapeBuilderType::CoordSystem3D => "shape-coordsystem3d-symbolic"@,
        ShapeBuilderType::QuadrantCoordSystem2D => "shape-quadrantcoordsystem2d-symbolic"@,
        ShapeBuilderType::Ellipse => "shape-ellipse-symbolic"@,
        ShapeBuilderType::FociEllipse => "shape-fociellipse-symbolic"@,
        ShapeBuilderType::QuadBez => "shape-quadbez-symbolic"@,
        ShapeBuilderType::CubBez => "shape-cubbez-symbolic"@,
    }
}

/// How the rough style fills a shape, in the order of the fill style list.
#[derive(Clone, Copy, Debug, PartialEq, Eq, Structural)]
pub enum FillStyle {
    Solid,
    Hachure,
    ZigZag,
    ZigZagLine,
    CrossHatch,
    Dots,
    Dashed,
}

/// The fill style of each row of the rough style's fill style list.
pub open spec fn fill_style_of_row(row: u32) -> Option<FillStyle> {
    if row == 0 {
        Some(FillStyle::Solid)
    } else if row == 1 {
        Some(FillStyle::Hachure)
    } else if row == 2 {
        Some(FillStyle::ZigZag)
    } else if row == 3 {
        Some(FillStyle::ZigZagLine)
    } else if row == 4 {
        Some(FillStyle::CrossHatch)
    } else if row == 5 {
        Some(FillStyle::Dots)
    } else if row == 6 {
        Some(FillStyle::Dashed)
    } else {
        None
    }
}

/// The fill style of the selected row, `None` for a row past the list.
pub fn fill_style_from_row(row: u32) -> (f: Option<FillStyle>)
    ensures
        f == fill_style_of_row(row),
{
    if row == 0 {
        Some(FillStyle::Solid)
    } else if row == 1 {
        Some(FillStyle::Hachure)
    } else if row == 2 {
        Some(FillStyle::ZigZag)
    } else if row == 3 {
        Some(FillStyle::ZigZagLine)
    } else if row == 4 {
        Some(FillStyle::CrossHatch)
    } else if row == 5 {
        Some(FillStyle::Dots)
    } else if row == 6 {
        Some(FillStyle::Dashed)
    } else {
        None
    }
}

/// The row of the fill style list that shows the fill style.
pub fn fill_style_row(f: FillStyle) -> (row: u32)
    ensures
        fill_style_of_row(row) == Some(f),
{
    match f {
        FillStyle::Solid => 0,
        FillStyle::Hachure => 1,
        FillStyle::ZigZag => 2,
        FillStyle::ZigZagLine => 3,
        FillStyle::CrossHatch => 4,
        FillStyle::Dots => 5,
        FillStyle::Dashed => 6,
    }
}

/// The constraint ratios a shape can be held to.
#[derive(Clone, Copy, Debug, PartialEq, Eq, Structural)]
pub struct ConstraintRatios {
    pub one_to_one: bool,
    pub three_to_two: bool,
    pub golden: bool,
}

#[derive(Clone, Copy, Debug, PartialEq, Eq, Structural)]
pub enum ConstraintRatio {
    OneToOne,
    ThreeToTwo,
    Golden,
}

/// The ratios after the switch of `ratio` was set to `on`: the ratio is added or
/// removed, the others stay.
pub fn switch_constraint_ratio(ratios: ConstraintRatios, ratio: ConstraintRatio, on: bool) -> (r: ConstraintRatios)
    ensures
        r.one_to_one == (if ratio == ConstraintRatio::OneToOne { on } else { ratios.one_to_one }),
        r.three_to_two == (if ratio == ConstraintRatio::ThreeToTwo { on } else { ratios.three_to_two }),
        r.golden == (if ratio == ConstraintRatio::Golden { on } else { ratios.golden }),
{
    match ratio {
        ConstraintRatio::OneToOne => ConstraintRatios { one_to_one: on, ..ratios },
        ConstraintRatio::ThreeToTwo => ConstraintRatios { three_to_two: on, ..ratios },
        ConstraintRatio::Golden => ConstraintRatios { golden: on, ..ratios },
    }
}

/// What the shaper page shows for a shaper configuration.
#[derive(Clone, Debug)]
pub struct ShaperPageView {
    pub style_row: u32,
    pub style_icon: String,
    pub builder_type_row: u32,
    pub builder_type_icon: String,
    /// the selected row of the rough style's fill style list
    pub fill_style_row: u32,
    pub constraints_enabled: bool,
    pub one_to_one_switch: bool,
    pub three_to_two_switch: bool,
    pub golden_switch: bool,
}

/// The shaper page for the shaper style, builder type, the rough style's fill style and
/// the constraints: the rows to select, their icons, and the state of the constraint
/// switches.
pub fn shaper_page_view(
    style: ShaperStyle,
    builder_type: ShapeBuilderType,
    fill_style: FillStyle,
    constraints_enabled: bool,
    ratios: ConstraintRatios,
) -> (v: ShaperPageView)
    ensures
        fill_style_of_row(v.fill_style_row) == Some(fill_style),
        (v.style_row, v.style_icon@) == shaper_style_view(style),
        shape_builder_type_of_row(v.builder_type_row) == builder_type,
        v.builder_type_row <= 8,
        v.builder_type_icon@ == shape_icon(builder_type),
        v.constraints_enabled == constraints_enabled,
        v.one_to_one_switch == ratios.one_to_one,
        v.three_to_two_switch == ratios.three_to_two,
        v.golden_switch == ratios.golden,
{
    let (style_row, style_icon) = match style {
        ShaperStyle::Smooth => (0u32, String::from_str("pen-shaper-style-smooth-symbolic")),
        ShaperStyle::Rough => (1u32, String::from_str("pen-shaper-style-rough-symbolic")),
    };
    let (builder_type_row, builder_type_icon) = match builder_type {
        ShapeBuilderType::Line => (0u32, String::from_str("shape-line-symbolic")),
        ShapeBuilderType::Rectangle => (1u32, String::from_str("shape-rectangle-symbolic")),
        ShapeBuilderType::CoordSystem2D => (2u32, String::from_str("shape-coordsystem2d-symbolic")),
        ShapeBuilderType::CoordSystem3D => (3u32, String::from_str("shape-coordsystem3d-symbolic")),
        ShapeBuilderType::QuadrantCoordSystem2D => (4u32, String::from_str("shape-quadrantcoordsystem2d-symbolic")),
        ShapeBuilderType::Ellipse => (5u32, String::from_str("shape-ellipse-symbolic")),
        ShapeBuilderType::FociEllipse => (6u32, String::from_str("shape-fociellipse-symbolic")),
        ShapeBuilderType::QuadBez => (7u32, String::from_str("shape-quadbez-symbolic")),
        ShapeBuilderType::CubBez => (8u32, String::from_str("shape-cubbez-symbolic")),
    };
    ShaperPageView {
        style_row,
        style_icon,
        builder_type_row,
        builder_type_icon,
        fill_style_row: fill_style_row(fill_style),
        constraints_enabled,
        one_to_one_switch: ratios.one_to_one,
        three_to_two_switch: ratios.three_to_two,
        golden_switch: ratios.golden,
    }
}

/// The toggle of the selector page that shows each selector style, in the order
/// polygon, rectangle, single, intersecting path.
pub fn selector_style_toggle(style: SelectorStyle) -> (index: usize)
    ensures
        index < 4,
        selector_style_of_toggle(index) == Some(style),
        index == (match style {
            SelectorStyle::Polygon => 0usize,
            SelectorStyle::Rectangle => 1usize,
            SelectorStyle::Single => 2usize,
            SelectorStyle::IntersectingPath => 3usize,
        }),
{
    match style {
        SelectorStyle::Polygon => 0,
        SelectorStyle::Rectangle => 1,
        SelectorStyle::Single => 2,
        SelectorStyle::IntersectingPath => 3,
    }
}

/// The toggle of the eraser page that shows each eraser style, in the order trash
/// colliding strokes, split colliding strokes.
pub fn eraser_style_toggle(style: EraserStyle) -> (index: usize)
    ensures
        eraser_style_of_toggle(index) == Some(style),
        index == (match style {
            EraserStyle::TrashCollidingStrokes => 0usize,
            EraserStyle::SplitCollidingStrokes => 1usize,
        }),
{
    match style {
        EraserStyle::TrashCollidingStrokes => 0,
        EraserStyle::SplitCollidingStrokes => 1,
    }
}

/// The selector style a toggle of the selector page stands for, `None` for an index
/// past the toggles.
pub open spec fn selector_style_of_toggle(index: usize) -> Option<SelectorStyle> {
    if index == 0 {
        Some(SelectorStyle::Polygon)
    } else if index == 1 {
        Some(SelectorStyle::Rectangle)
    } else if index == 2 {
        Some(SelectorStyle::Single)
    } else if index == 3 {
        Some(SelectorStyle::IntersectingPath)
    } else {
        None
    }
}

/// The selector style of an activated toggle of the selector page.
pub fn selector_style_from_toggle(index: usize) -> (style: Option<SelectorStyle>)
    ensures
        style == selector_style_of_toggle(index),
{
    if index == 0 {
        Some(SelectorStyle::Polygon)
    } else if index == 1 {
        Some(SelectorStyle::Rectangle)
    } else if index == 2 {
        Some(SelectorStyle::Single)
    } else if index == 3 {
        Some(SelectorStyle::IntersectingPath)
    } else {
        None
    }
}

/// The eraser style an activated toggle of the eraser page stands for, `None` for an
/// index past the toggles.
pub open spec fn eraser_style_of_toggle(index: usize) -> Option<EraserStyle> {
    if index == 0 {
        Some(EraserStyle::TrashCollidingStrokes)
    } else if index == 1 {
        Some(EraserStyle::SplitCollidingStrokes)
    } else {
        None
    }
}

/// The eraser style of an activated toggle of the eraser page.
pub fn eraser_style_from_toggle(index: usize) -> (style: Option<EraserStyle>)
    ensures
        style == eraser_style_of_toggle(index),
{
    if index == 0 {
        Some(EraserStyle::TrashCollidingStrokes)
    } else if index == 1 {
        Some(EraserStyle::SplitCollidingStrokes)
    } else {
        None
    }
}

/// Refreshing the selector and eraser pages and then handling the toggle that was
/// activated gives back the style the page was refreshed with: the style is left
/// unchanged by the round trip through its toggle.
pub proof fn lemma_style_toggles_round_trip(s: SelectorStyle, e: EraserStyle)
    ensures
        selector_style_of_toggle(match s {
            SelectorStyle::Polygon => 0usize,
            SelectorStyle::Rectangle => 1usize,
            SelectorStyle::Single => 2usize,
            SelectorStyle::IntersectingPath => 3usize,
        }) == Some(s),
        eraser_style_of_toggle(match e {
            EraserStyle::TrashCollidingStrokes => 0usize,
            EraserStyle::SplitCollidingStrokes => 1usize,
        }) == Some(e),
{
}

/// The tool style of the tools page's toggles: vertical space when its toggle is
/// active, else offset camera when that toggle is, else none.
pub fn tool_style(verticalspace_active: bool, offsetcamera_active: bool) -> (s: Option<ToolStyle>)
    ensures
        s == (if verticalspace_active {
            Some(ToolStyle::VerticalSpace)
        } else if offsetcamera_active {
            Some(ToolStyle::OffsetCamera)
        } else {
            None
        }),
{
    if verticalspace_active {
        Some(ToolStyle::VerticalSpace)
    } else if offsetcamera_active {
        Some(ToolStyle::OffsetCamera)
    } else {
        None
    }
}

/// Whether activating the pen style action changes the engine's pen: only when the
/// style differs from the current style with its override.
pub fn pen_style_change_needed(new_style: PenStyle, current_style_w_override: PenStyle) -> (b: bool)
    ensures
        b == (new_style != current_style_w_override),
{
    new_style != current_style_w_override
}

/// The color picker follows both colors of the marker and solid brushes and of the
/// shaper, only the stroke color of the textured brush and the typewriter, and no color
/// of the eraser, selector and tools.
pub proof fn lemma_color_sync(pen: PenStyle, brush: BrushStyle)
    ensures
        pen == PenStyle::Shaper ==> color_sync_for(pen, brush) == ColorSync::StrokeAndFill,
        pen == PenStyle::Brush && brush != BrushStyle::Textured ==> color_sync_for(pen, brush) == ColorSync::StrokeAndFill,
        pen == PenStyle::Brush && brush == BrushStyle::Textured ==> color_sync_for(pen, brush) == ColorSync::StrokeOnly,
        pen == PenStyle::Typewriter ==> color_sync_for(pen, brush) == ColorSync::StrokeOnly,
        (pen == PenStyle::Eraser || pen == PenStyle::Selector || pen == PenStyle::Tools) ==> color_sync_for(pen, brush) == ColorSync::Nothing,
{
}

/// The rows of the pen pages' lists: brush styles marker, solid, textured; builder types
/// simple, curved, modeled; shaper styles smooth, rough (past the list smooth); shape
/// builder types line, rectangle, the three coordinate systems, ellipse, foci ellipse,
/// quadratic and cubic bezier (past the list a line); fill styles solid, hachure, zig
/// zag, zig zag line, cross hatch, dots, dashed.
pub proof fn lemma_row_orders(row: u32)
    ensures
        brush_style_of_row(0) == Some(BrushStyle::Marker) && brush_style_of_row(1) == Some(BrushStyle::Solid)
            && brush_style_of_row(2) == Some(BrushStyle::Textured) && (row > 2 ==> brush_style_of_row(row) is None),
        builder_type_of_row(0) == Some(PenPathBuilderType::Simple) && builder_type_of_row(1) == Some(PenPathBuilderType::Curved)
            && builder_type_of_row(2) == Some(PenPathBuilderType::Modeled) && (row > 2 ==> builder_type_of_row(row) is None),
        shaper_style_of_row(1) == ShaperStyle::Rough && (row != 1 ==> shaper_style_of_row(row) == ShaperStyle::Smooth),
        shape_builder_type_of_row(0) == ShapeBuilderType::Line && shape_builder_type_of_row(1) == ShapeBuilderType::Rectangle
            && shape_builder_type_of_row(2) == ShapeBuilderType::CoordSystem2D && shape_builder_type_of_row(3) == ShapeBuilderType::CoordSystem3D
            && shape_builder_type_of_row(4) == ShapeBuilderType::QuadrantCoordSystem2D && shape_builder_type_of_row(5) == ShapeBuilderType::Ellipse
            && shape_builder_type_of_row(6) == ShapeBuilderType::FociEllipse && shape_builder_type_of_row(7) == ShapeBuilderType::QuadBez
            && shape_builder_type_of_row(8) == ShapeBuilderType::CubBez && (row > 8 ==> shape_builder_type_of_row(row) == ShapeBuilderType::Line),
        fill_style_of_row(0) == Some(FillStyle::Solid) && fill_style_of_row(1) == Some(FillStyle::Hachure)
            && fill_style_of_row(2) == Some(FillStyle::ZigZag) && fill_style_of_row(3) == Some(FillStyle::ZigZagLine)
            && fill_style_of_row(4) == Some(FillStyle::CrossHatch) && fill_style_of_row(5) == Some(FillStyle::Dots)
            && fill_style_of_row(6) == Some(FillStyle::Dashed) && (row > 6 ==> fill_style_of_row(row) is None),
{
}

} // verus!
