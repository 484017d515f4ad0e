use rnote::strokes::{ElementAction, StateTask, StrokeKind, StrokesState};

fn store_with(kinds: &[StrokeKind]) -> (StrokesState, Vec<u64>) {
    let mut s = StrokesState::new();
    let mut keys = Vec::new();
    for k in kinds {
        keys.push(s.insert_stroke(*k));
    }
    (s, keys)
}

#[test]
fn new_store_is_empty() {
    let s = StrokesState::new();
    assert_eq!(s.len(), 0);
    assert!(s.stroke_keys_in_order_rendered().is_empty());
    assert!(s.selection_keys_in_order_rendered().is_empty());
    assert!(s.keys_sorted_chrono().is_empty());
    assert!(s.untrashed_keys().is_empty());
}

#[test]
fn inserted_strokes_get_default_components() {
    let (s, keys) = store_with(&[StrokeKind::BrushStroke]);
    let k = keys[0];
    assert_eq!(s.len(), 1);
    assert_eq!(s.kind(k), Some(StrokeKind::BrushStroke));
    assert_eq!(s.trashed(k), Some(false));
    assert_eq!(s.selected(k), Some(false));
    assert_eq!(s.does_render(k), Some(true));
    assert_eq!(s.regenerate_flag(k), Some(true));
}

#[test]
fn strokes_render_in_insertion_order() {
    let (s, keys) = store_with(&[StrokeKind::MarkerStroke, StrokeKind::BrushStroke, StrokeKind::ShapeStroke]);
    assert_eq!(s.stroke_keys_in_order_rendered(), keys);
    assert_eq!(s.keys_sorted_chrono(), keys);
}

#[test]
fn inserted_stroke_is_drawn_last() {
    let (mut s, keys) = store_with(&[StrokeKind::MarkerStroke, StrokeKind::BrushStroke]);
    s.set_trashed(keys[0], true);
    let k = s.insert_stroke(StrokeKind::ShapeStroke);
    let order = s.stroke_keys_in_order_rendered();
    assert_eq!(order, vec![keys[1], k]);
    assert_eq!(*order.last().unwrap(), k);
}

#[test]
fn remove_undoes_insert() {
    let (mut s, keys) = store_with(&[StrokeKind::MarkerStroke, StrokeKind::BrushStroke]);
    let before = s.stroke_keys_in_order_rendered();
    let k = s.insert_stroke(StrokeKind::VectorImage);
    assert_eq!(s.len(), 3);
    assert_eq!(s.remove_stroke(k), Some(StrokeKind::VectorImage));
    assert_eq!(s.len(), 2);
    assert_eq!(s.kind(k), None);
    assert_eq!(s.stroke_keys_in_order_rendered(), before);
    assert_eq!(before, keys);
}

#[test]
fn removing_a_missing_stroke_gives_none() {
    let (mut s, keys) = store_with(&[StrokeKind::MarkerStroke]);
    assert_eq!(s.remove_stroke(keys[0]), Some(StrokeKind::MarkerStroke));
    assert_eq!(s.remove_stroke(keys[0]), None);
    assert_eq!(s.remove_stroke(0), None);
    assert_eq!(s.len(), 0);
}

#[test]
fn removed_key_is_not_reused_as_a_live_key() {
    let (mut s, keys) = store_with(&[StrokeKind::MarkerStroke]);
    s.remove_stroke(keys[0]);
    let k = s.insert_stroke(StrokeKind::BrushStroke);
    assert_ne!(k, keys[0]);
    assert_eq!(s.kind(keys[0]), None);
    assert_eq!(s.kind(k), Some(StrokeKind::BrushStroke));
}

#[test]
fn selection_and_strokes_layers_are_disjoint() {
    let (mut s, keys) = store_with(&[StrokeKind::MarkerStroke, StrokeKind::BrushStroke, StrokeKind::ShapeStroke]);
    s.set_selected(keys[1], true);
    let drawn = s.stroke_keys_in_order_rendered();
    let selection = s.selection_keys_in_order_rendered();
    assert_eq!(drawn, vec![keys[0], keys[2]]);
    assert_eq!(selection, vec![keys[1]]);
    for k in &selection {
        assert!(!drawn.contains(k));
    }
}

#[test]
fn trashed_strokes_are_not_drawn() {
    let (mut s, keys) = store_with(&[StrokeKind::MarkerStroke, StrokeKind::BrushStroke]);
    s.set_selected(keys[1], true);
    s.set_trashed(keys[0], true);
    s.set_trashed(keys[1], true);
    assert!(s.stroke_keys_in_order_rendered().is_empty());
    assert!(s.selection_keys_in_order_rendered().is_empty());
    assert!(s.untrashed_keys().is_empty());
    assert_eq!(s.keys_sorted_chrono(), keys);
    s.set_trashed(keys[0], false);
    assert_eq!(s.stroke_keys_in_order_rendered(), vec![keys[0]]);
    assert_eq!(s.untrashed_keys(), vec![keys[0]]);
}

#[test]
fn render_order_is_the_same_on_each_call() {
    let (mut s, keys) = store_with(&[
        StrokeKind::MarkerStroke,
        StrokeKind::BrushStroke,
        StrokeKind::ShapeStroke,
        StrokeKind::BitmapImage,
    ]);
    s.remove_stroke(keys[1]);
    s.insert_stroke(StrokeKind::MarkerStroke);
    let a = s.stroke_keys_in_order_rendered();
    let b = s.stroke_keys_in_order_rendered();
    assert_eq!(a, b);
    assert_eq!(a.len(), 4);
}

#[test]
fn setting_flags_of_missing_strokes_changes_nothing() {
    let (mut s, keys) = store_with(&[StrokeKind::MarkerStroke]);
    s.set_trashed(12345, true);
    s.set_selected(12345, true);
    assert_eq!(s.trashed(12345), None);
    assert!(!s.update_geometry_for_stroke(12345));
    assert_eq!(s.stroke_keys_in_order_rendered(), keys);
}

#[test]
fn set_selected_and_trashed_keys() {
    let (mut s, keys) = store_with(&[StrokeKind::MarkerStroke, StrokeKind::BrushStroke, StrokeKind::ShapeStroke]);
    s.set_selected_keys(&vec![keys[0], keys[2], 99], true);
    assert_eq!(s.selection_keys_in_order_rendered(), vec![keys[0], keys[2]]);
    assert_eq!(s.stroke_keys_in_order_rendered(), vec![keys[1]]);
    s.set_trashed_keys(&vec![keys[2]], true);
    assert_eq!(s.selection_keys_in_order_rendered(), vec![keys[0]]);
    assert_eq!(s.selected(keys[2]), Some(true));
    assert_eq!(s.trashed(keys[2]), Some(true));
    s.set_selected_keys(&vec![keys[0]], false);
    assert_eq!(s.stroke_keys_in_order_rendered(), vec![keys[0], keys[1]]);
}

#[test]
fn clear_removes_every_stroke() {
    let (mut s, keys) = store_with(&[StrokeKind::MarkerStroke, StrokeKind::BrushStroke]);
    s.clear();
    assert_eq!(s.len(), 0);
    assert_eq!(s.kind(keys[0]), None);
    let k = s.insert_stroke(StrokeKind::ShapeStroke);
    assert_eq!(s.stroke_keys_in_order_rendered(), vec![k]);
}

#[test]
fn imported_images_arrive_selected() {
    let mut s = StrokesState::new();
    let img = s.insert_stroke_from_task(StrokeKind::BitmapImage);
    assert!(img.activate_selector);
    assert_eq!(s.selected(img.key), Some(true));
    let vec_img = s.insert_stroke_from_task(StrokeKind::VectorImage);
    assert!(vec_img.activate_selector);
    let stroke = s.insert_stroke_from_task(StrokeKind::MarkerStroke);
    assert!(!stroke.activate_selector);
    assert_eq!(s.selected(stroke.key), Some(false));
    assert_eq!(s.selection_keys_in_order_rendered(), vec![img.key, vec_img.key]);
    assert_eq!(s.stroke_keys_in_order_rendered(), vec![stroke.key]);
}

#[test]
fn add_to_stroke_acts_by_kind() {
    let (mut s, keys) = store_with(&[
        StrokeKind::MarkerStroke,
        StrokeKind::BrushStroke,
        StrokeKind::ShapeStroke,
        StrokeKind::VectorImage,
        StrokeKind::BitmapImage,
    ]);
    assert_eq!(s.add_to_stroke(keys[0]), ElementAction::PushElement);
    assert_eq!(s.add_to_stroke(keys[1]), ElementAction::PushElement);
    assert_eq!(s.add_to_stroke(keys[2]), ElementAction::UpdateShape);
    assert_eq!(s.add_to_stroke(keys[3]), ElementAction::Ignore);
    assert_eq!(s.add_to_stroke(keys[4]), ElementAction::Ignore);
    assert_eq!(s.regenerate_flag(keys[4]), Some(true));
}

#[test]
fn geometry_updates_mark_regeneration() {
    let (mut s, keys) = store_with(&[StrokeKind::MarkerStroke, StrokeKind::BrushStroke]);
    assert!(s.update_geometry_for_stroke(keys[0]));
    s.set_selected(keys[1], true);
    s.update_geometry_selection_strokes();
    s.update_geometry_all_strokes();
    assert_eq!(s.regenerate_flag(keys[0]), Some(true));
    assert_eq!(s.regenerate_flag(keys[1]), Some(true));
    assert_eq!(s.len(), 2);
}

#[test]
fn import_state_copies_the_other_store() {
    let (other, keys) = store_with(&[StrokeKind::MarkerStroke, StrokeKind::ShapeStroke]);
    let (mut s, own) = store_with(&[StrokeKind::BrushStroke]);
    s.import_state(&other);
    assert_eq!(s.len(), 2);
    assert_eq!(s.keys_sorted_chrono(), keys);
    assert_eq!(other.keys_sorted_chrono(), keys);
    assert_eq!(s.kind(keys[1]), Some(StrokeKind::ShapeStroke));
    // both stores were built the same way, so the first key of each coincides
    assert_eq!(own[0], keys[0]);
    assert_eq!(s.kind(own[0]), Some(StrokeKind::MarkerStroke));
}

#[test]
fn import_strokes_state_takes_the_other_store() {
    let (other, keys) = store_with(&[StrokeKind::MarkerStroke, StrokeKind::ShapeStroke, StrokeKind::BrushStroke]);
    let mut s = StrokesState::new();
    s.import_strokes_state(other);
    assert_eq!(s.len(), 3);
    assert_eq!(s.stroke_keys_in_order_rendered(), keys);
    let k = s.insert_stroke(StrokeKind::MarkerStroke);
    assert_eq!(*s.stroke_keys_in_order_rendered().last().unwrap(), k);
}

#[test]
fn restoring_undoes_trashing() {
    let (mut s, keys) = store_with(&[StrokeKind::MarkerStroke, StrokeKind::BrushStroke]);
    s.set_selected(keys[1], true);
    s.set_trashed(keys[1], true);
    assert!(s.selection_keys_in_order_rendered().is_empty());
    s.set_trashed(keys[1], false);
    assert_eq!(s.trashed(keys[1]), Some(false));
    assert_eq!(s.selected(keys[1]), Some(true));
    assert_eq!(s.selection_keys_in_order_rendered(), vec![keys[1]]);
    s.set_selected(keys[1], false);
    assert_eq!(s.stroke_keys_in_order_rendered(), keys);
}

#[test]
fn chrono_counter_counts_insertions() {
    let (mut s, _) = store_with(&[StrokeKind::MarkerStroke, StrokeKind::BrushStroke]);
    assert_eq!(s.chrono_counter(), 2);
    s.insert_stroke_from_task(StrokeKind::BitmapImage);
    assert_eq!(s.chrono_counter(), 3);
    s.clear();
    assert_eq!(s.chrono_counter(), 0);
}

#[test]
fn state_tasks() {
    let mut s = StrokesState::new();
    let out = s.handle_state_task(StateTask::InsertStroke { kind: StrokeKind::VectorImage });
    assert!(out.continue_listening && out.queue_draw && out.queue_resize);
    let ins = out.inserted.unwrap();
    assert!(ins.activate_selector);
    assert_eq!(s.selected(ins.key), Some(true));
    let out = s.handle_state_task(StateTask::InsertStroke { kind: StrokeKind::ShapeStroke });
    assert!(!out.inserted.unwrap().activate_selector);
    let out = s.handle_state_task(StateTask::UpdateStrokeWithImages { key: ins.key });
    assert!(out.continue_listening && out.queue_draw && !out.queue_resize);
    assert!(out.inserted.is_none());
    let out = s.handle_state_task(StateTask::AppendImagesToStroke { key: ins.key });
    assert!(out.continue_listening && out.queue_draw);
    let out = s.handle_state_task(StateTask::Quit);
    assert!(!out.continue_listening);
    assert_eq!(s.len(), 2);
}

#[test]
fn replaced_rendering_needs_no_regeneration() {
    let (mut s, keys) = store_with(&[StrokeKind::MarkerStroke, StrokeKind::BrushStroke]);
    s.handle_state_task(StateTask::UpdateStrokeWithImages { key: keys[0] });
    assert_eq!(s.regenerate_flag(keys[0]), Some(false));
    assert_eq!(s.regenerate_flag(keys[1]), Some(true));
    s.handle_state_task(StateTask::AppendImagesToStroke { key: keys[0] });
    assert_eq!(s.regenerate_flag(keys[0]), Some(false));
    assert!(s.update_geometry_for_stroke(keys[0]));
    assert_eq!(s.regenerate_flag(keys[0]), Some(true));
    let out = s.handle_state_task(StateTask::UpdateStrokeWithImages { key: 777 });
    assert!(out.queue_draw);
    assert_eq!(s.len(), 2);
}

#[test]
fn remove_right_after_insert() {
    let (mut s, keys) = store_with(&[StrokeKind::MarkerStroke]);
    let k = s.insert_stroke(StrokeKind::ShapeStroke);
    assert_eq!(s.remove_stroke(k), Some(StrokeKind::ShapeStroke));
    assert_eq!(s.remove_stroke(k), None);
    assert_eq!(s.chrono_counter(), 2);
    assert_eq!(s.keys_sorted_chrono(), keys);
}
