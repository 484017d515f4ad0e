use rnote::colorpicker::{layout_for_position, ColorPickerState, Orientation, PositionType, AMOUNT_SETTERS};

fn picker(stroke_pad: bool, fill_pad: bool) -> ColorPickerState<u32> {
    ColorPickerState::new(100, 200, stroke_pad, fill_pad, [1, 2, 3, 4, 5, 6, 7, 8])
}

fn active_setters(p: &ColorPickerState<u32>) -> Vec<usize> {
    (0..AMOUNT_SETTERS).filter(|i| p.setter(*i).active).collect()
}

#[test]
fn layout_follows_the_position() {
    let l = layout_for_position(PositionType::Left);
    assert_eq!(l.orientation, Orientation::Vertical);
    assert_eq!(l.popover_position, PositionType::Right);
    let r = layout_for_position(PositionType::Right);
    assert_eq!(r.orientation, Orientation::Vertical);
    assert_eq!(r.popover_position, PositionType::Left);
    let t = layout_for_position(PositionType::Top);
    assert_eq!(t.orientation, Orientation::Horizontal);
    assert_eq!(t.popover_position, PositionType::Bottom);
    let b = layout_for_position(PositionType::Bottom);
    assert_eq!(b.orientation, Orientation::Horizontal);
    assert_eq!(b.popover_position, PositionType::Top);
}

#[test]
fn new_picker_shows_the_active_pad() {
    let p = picker(true, false);
    assert_eq!(p.stroke_color(), 100);
    assert_eq!(p.fill_color(), 200);
    assert_eq!(p.chooser_color(), 100);
    assert!(p.stroke_pad_active());
    assert!(!p.fill_pad_active());
    assert!(active_setters(&p).is_empty());
    assert_eq!(p.setter(7).color, 8);
    assert_eq!(picker(false, true).chooser_color(), 200);
    assert_eq!(picker(false, false).chooser_color(), 100);
}

#[test]
fn activated_setter_is_the_only_active_one() {
    let mut p = picker(true, false);
    p.activate_setter(2);
    p.activate_setter(5);
    assert_eq!(active_setters(&p), vec![5]);
    assert_eq!(p.stroke_color(), 6);
    assert_eq!(p.fill_color(), 200);
    assert_eq!(p.chooser_color(), 6);
}

#[test]
fn activated_setter_fills_the_fill_pad() {
    let mut p = picker(false, true);
    p.activate_setter(0);
    assert_eq!(p.fill_color(), 1);
    assert_eq!(p.stroke_color(), 100);
    assert_eq!(p.chooser_color(), 1);
}

#[test]
fn activated_setter_without_active_pad_keeps_the_pads() {
    let mut p = picker(false, false);
    p.activate_setter(3);
    assert_eq!(p.stroke_color(), 100);
    assert_eq!(p.fill_color(), 200);
    assert_eq!(p.chooser_color(), 100);
    assert_eq!(active_setters(&p), vec![3]);
}

#[test]
fn chooser_color_goes_to_pad_and_active_setter() {
    let mut p = picker(true, false);
    p.activate_setter(1);
    p.chooser_color_changed(42);
    assert_eq!(p.stroke_color(), 42);
    assert_eq!(p.chooser_color(), 42);
    assert_eq!(p.setter(1).color, 42);
    assert!(p.setter(1).active);
    assert_eq!(p.setter(0).color, 1);
}

#[test]
fn chooser_color_without_active_setter_changes_no_setter() {
    let mut p = picker(false, true);
    p.chooser_color_changed(7);
    assert_eq!(p.fill_color(), 7);
    for i in 0..AMOUNT_SETTERS {
        assert_eq!(p.setter(i).color, (i + 1) as u32);
    }
}

#[test]
fn toggling_pads_deselects_setters() {
    let mut p = picker(true, false);
    p.activate_setter(4);
    p.toggle_pads(false, true);
    assert!(active_setters(&p).is_empty());
    assert!(!p.stroke_pad_active());
    assert!(p.fill_pad_active());
    assert_eq!(p.setter(4).color, 5);
}

#[test]
fn pad_colors_follow_the_chooser_only_when_active() {
    let mut p = picker(true, false);
    p.set_fill_color(9);
    assert_eq!(p.fill_color(), 9);
    assert_eq!(p.chooser_color(), 100);
    p.set_stroke_color(11);
    assert_eq!(p.chooser_color(), 11);
}

#[test]
fn set_color_active_setter_and_deselect() {
    let mut p = picker(false, false);
    p.set_color_active_setter(77);
    assert_eq!(p.setter(0).color, 1);
    p.activate_setter(6);
    p.set_color_active_setter(77);
    assert_eq!(p.setter(6).color, 77);
    p.deselect_setters();
    assert!(active_setters(&p).is_empty());
    assert_eq!(p.setter(6).color, 77);
}
