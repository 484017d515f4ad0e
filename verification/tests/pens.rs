use rnote::pens::{
    brush_style_from_row, brush_style_icon_name, brush_style_row, builder_type_from_row, builder_type_row,
    colors_to_sync, eraser_style_toggle, fill_style_from_row, fill_style_row, pen_style_change_needed, selector_style_toggle, shape_builder_type_from_row,
    shaper_page_view, shaper_style_from_row, sidebar_page_name, switch_constraint_ratio, tool_style, BrushStyle,
    ColorSync, ConstraintRatio, FillStyle, ConstraintRatios, EraserStyle, PenPathBuilderType, PenStyle, SelectorStyle,
    ShapeBuilderType, ShaperStyle, ToolStyle,
};

#[test]
fn sidebar_pages_by_pen() {
    assert_eq!(sidebar_page_name(PenStyle::Brush), "brush_page");
    assert_eq!(sidebar_page_name(PenStyle::Typewriter), "typewriter_page");
    assert_eq!(sidebar_page_name(PenStyle::Tools), "tools_page");
}

#[test]
fn colors_synced_by_pen() {
    assert_eq!(colors_to_sync(PenStyle::Brush, BrushStyle::Marker), ColorSync::StrokeAndFill);
    assert_eq!(colors_to_sync(PenStyle::Brush, BrushStyle::Textured), ColorSync::StrokeOnly);
    assert_eq!(colors_to_sync(PenStyle::Shaper, BrushStyle::Textured), ColorSync::StrokeAndFill);
    assert_eq!(colors_to_sync(PenStyle::Typewriter, BrushStyle::Solid), ColorSync::StrokeOnly);
    assert_eq!(colors_to_sync(PenStyle::Eraser, BrushStyle::Solid), ColorSync::Nothing);
}

#[test]
fn brush_style_rows_round_trip() {
    for s in [BrushStyle::Marker, BrushStyle::Solid, BrushStyle::Textured] {
        assert_eq!(brush_style_from_row(brush_style_row(s)), Some(s));
    }
    assert_eq!(brush_style_from_row(3), None);
    assert_eq!(brush_style_icon_name(BrushStyle::Solid), "pen-brush-style-solid-symbolic");
}

#[test]
fn builder_type_rows_round_trip() {
    for t in [PenPathBuilderType::Simple, PenPathBuilderType::Curved, PenPathBuilderType::Modeled] {
        assert_eq!(builder_type_from_row(builder_type_row(t)), Some(t));
    }
    assert_eq!(builder_type_from_row(9), None);
}

#[test]
fn shaper_rows_default_past_the_list() {
    assert_eq!(shaper_style_from_row(1), ShaperStyle::Rough);
    assert_eq!(shaper_style_from_row(0), ShaperStyle::Smooth);
    assert_eq!(shaper_style_from_row(5), ShaperStyle::Smooth);
    assert_eq!(shape_builder_type_from_row(5), ShapeBuilderType::Ellipse);
    assert_eq!(shape_builder_type_from_row(8), ShapeBuilderType::CubBez);
    assert_eq!(shape_builder_type_from_row(40), ShapeBuilderType::Line);
}

#[test]
fn shaper_page_shows_the_configuration() {
    let ratios = ConstraintRatios { one_to_one: true, three_to_two: false, golden: true };
    let v = shaper_page_view(ShaperStyle::Rough, ShapeBuilderType::FociEllipse, FillStyle::CrossHatch, true, ratios);
    assert_eq!(v.style_row, 1);
    assert_eq!(v.style_icon, "pen-shaper-style-rough-symbolic");
    assert_eq!(v.builder_type_row, 6);
    assert_eq!(shape_builder_type_from_row(v.builder_type_row), ShapeBuilderType::FociEllipse);
    assert_eq!(v.builder_type_icon, "shape-fociellipse-symbolic");
    assert_eq!(v.fill_style_row, 4);
    assert!(v.constraints_enabled);
    assert!(v.one_to_one_switch);
    assert!(!v.three_to_two_switch);
    assert!(v.golden_switch);
}

#[test]
fn constraint_switches_add_and_remove_ratios() {
    let none = ConstraintRatios { one_to_one: false, three_to_two: false, golden: false };
    let r = switch_constraint_ratio(none, ConstraintRatio::Golden, true);
    assert_eq!(r, ConstraintRatios { one_to_one: false, three_to_two: false, golden: true });
    let r = switch_constraint_ratio(r, ConstraintRatio::ThreeToTwo, true);
    let r = switch_constraint_ratio(r, ConstraintRatio::Golden, false);
    assert_eq!(r, ConstraintRatios { one_to_one: false, three_to_two: true, golden: false });
    assert_eq!(switch_constraint_ratio(r, ConstraintRatio::OneToOne, true).one_to_one, true);
}

#[test]
fn style_toggles() {
    assert_eq!(selector_style_toggle(SelectorStyle::Polygon), 0);
    assert_eq!(selector_style_toggle(SelectorStyle::IntersectingPath), 3);
    assert_eq!(eraser_style_toggle(EraserStyle::SplitCollidingStrokes), 1);
    assert_eq!(tool_style(true, true), Some(ToolStyle::VerticalSpace));
    assert_eq!(tool_style(false, true), Some(ToolStyle::OffsetCamera));
    assert_eq!(tool_style(false, false), None);
}

#[test]
fn pen_style_changes_only_when_different() {
    assert!(!pen_style_change_needed(PenStyle::Eraser, PenStyle::Eraser));
    assert!(pen_style_change_needed(PenStyle::Eraser, PenStyle::Brush));
}

#[test]
fn fill_style_rows_round_trip() {
    for f in [
        FillStyle::Solid,
        FillStyle::Hachure,
        FillStyle::ZigZag,
        FillStyle::ZigZagLine,
        FillStyle::CrossHatch,
        FillStyle::Dots,
        FillStyle::Dashed,
    ] {
        assert_eq!(fill_style_from_row(fill_style_row(f)), Some(f));
    }
    assert_eq!(fill_style_row(FillStyle::Dashed), 6);
    assert_eq!(fill_style_from_row(7), None);
}

#[test]
fn style_toggles_round_trip() {
    for st in [SelectorStyle::Polygon, SelectorStyle::Rectangle, SelectorStyle::Single, SelectorStyle::IntersectingPath] {
        assert_eq!(rnote::pens::selector_style_from_toggle(selector_style_toggle(st)), Some(st));
    }
    assert_eq!(rnote::pens::selector_style_from_toggle(4), None);
    for e in [EraserStyle::TrashCollidingStrokes, EraserStyle::SplitCollidingStrokes] {
        assert_eq!(rnote::pens::eraser_style_from_toggle(eraser_style_toggle(e)), Some(e));
    }
    assert_eq!(rnote::pens::eraser_style_from_toggle(2), None);
}
