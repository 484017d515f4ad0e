use rnote::window::{
    choose_paste_action, color_scheme_setting, doc_layout_nick, fixedsize_quickactions_revealed,
    handle_output_file_event, handle_widget_flags, image_mime_name, load_failure_message, loader_for,
    open_file_w_dialogs, parse_color_scheme, parse_doc_layout, plan_open_file, refresh_titles, save_window_size,
    tabs_any_unsaved_changes, toggle_devel_mode, ColorScheme, DialogOpenAction, DocLayout, FileMonitorAction,
    FileMonitorEvent, FileType, ImageMime, Loader, OpenPlan, PasteAction, WidgetFlags,
};

fn mimes(v: &[&str]) -> Vec<String> {
    v.iter().map(|s| s.to_string()).collect()
}

#[test]
fn doc_layouts_round_trip_through_their_nicks() {
    for l in [DocLayout::FixedSize, DocLayout::ContinuousVertical, DocLayout::Infinite] {
        assert_eq!(parse_doc_layout(&doc_layout_nick(l)), Some(l));
    }
    assert_eq!(doc_layout_nick(DocLayout::ContinuousVertical), "continuous-vertical");
    assert_eq!(parse_doc_layout("infinite"), Some(DocLayout::Infinite));
    assert_eq!(parse_doc_layout("endless"), None);
}

#[test]
fn quickactions_only_in_fixed_size() {
    assert!(fixedsize_quickactions_revealed(DocLayout::FixedSize));
    assert!(!fixedsize_quickactions_revealed(DocLayout::Infinite));
    assert!(!fixedsize_quickactions_revealed(DocLayout::ContinuousVertical));
}

#[test]
fn color_schemes_round_trip_through_the_settings() {
    for c in [ColorScheme::Default, ColorScheme::ForceLight, ColorScheme::ForceDark] {
        assert_eq!(parse_color_scheme(&color_scheme_setting(c)), Some(c));
    }
    assert_eq!(color_scheme_setting(ColorScheme::ForceDark), "force-dark");
    assert_eq!(parse_color_scheme("force-light"), Some(ColorScheme::ForceLight));
    assert_eq!(parse_color_scheme("dark"), None);
}

#[test]
fn devel_mode_toggles() {
    let on = toggle_devel_mode(false);
    assert!(on.new_state);
    assert!(on.devel_menu_enabled);
    assert!(!on.disable_visual_debug);
    let off = toggle_devel_mode(true);
    assert!(!off.new_state);
    assert!(!off.devel_menu_enabled);
    assert!(off.disable_visual_debug);
}

#[test]
fn paste_prefers_uri_lists_then_images_then_text() {
    assert_eq!(choose_paste_action(&mimes(&["text/plain", "text/uri-list", "image/png"])), PasteAction::UriList);
    assert_eq!(choose_paste_action(&mimes(&["image/bmp", "image/jpeg", "text/plain"])), PasteAction::Image(ImageMime::Jpeg));
    assert_eq!(choose_paste_action(&mimes(&["image/tiff"])), PasteAction::Image(ImageMime::Tiff));
    assert_eq!(choose_paste_action(&mimes(&["text/plain;charset=utf-8"])), PasteAction::Text);
    assert_eq!(choose_paste_action(&mimes(&["application/pdf"])), PasteAction::Unsupported);
    assert_eq!(choose_paste_action(&Vec::new()), PasteAction::Unsupported);
    assert_eq!(image_mime_name(ImageMime::Jpg), "image/jpg");
}

#[test]
fn widget_flags_map_to_effects() {
    let e = handle_widget_flags(WidgetFlags {
        redraw: true,
        resize: false,
        refresh_ui: true,
        store_modified: true,
        update_view: false,
        hide_undo: Some(true),
        hide_redo: Some(false),
        enable_text_preprocessing: None,
    });
    assert!(e.queue_draw);
    assert!(!e.queue_resize);
    assert!(e.refresh_ui);
    assert!(e.mark_unsaved_and_nonempty);
    assert!(!e.update_camera_offset);
    assert_eq!(e.undo_sensitive, Some(false));
    assert_eq!(e.redo_sensitive, Some(true));
    assert_eq!(e.text_preprocessing, None);
}

#[test]
fn open_plans_by_file_type() {
    assert_eq!(plan_open_file(FileType::RnoteFile, true, Some(2), false), OpenPlan::SwitchToTab(2));
    assert_eq!(plan_open_file(FileType::RnoteFile, true, None, true), OpenPlan::LoadInNewTab);
    assert_eq!(plan_open_file(FileType::RnoteFile, true, None, false), OpenPlan::LoadInActiveTab);
    assert_eq!(plan_open_file(FileType::RnoteFile, false, None, true), OpenPlan::NoPath);
    assert_eq!(plan_open_file(FileType::BitmapImageFile, true, None, true), OpenPlan::LoadInActiveTab);
    assert_eq!(plan_open_file(FileType::XoppFile, true, None, true), OpenPlan::ImportXoppInNewTab);
    assert_eq!(plan_open_file(FileType::PdfFile, true, None, true), OpenPlan::ImportPdf);
    assert_eq!(plan_open_file(FileType::Folder, true, None, true), OpenPlan::SetWorkspaceDir);
    assert_eq!(plan_open_file(FileType::Unsupported, true, None, true), OpenPlan::Unsupported);
}

#[test]
fn opening_with_dialogs_asks_before_replacing() {
    assert_eq!(open_file_w_dialogs(FileType::RnoteFile, true, true), DialogOpenAction::AskOverwrite);
    assert_eq!(open_file_w_dialogs(FileType::XoppFile, false, true), DialogOpenAction::Load);
    assert_eq!(open_file_w_dialogs(FileType::PdfFile, true, true), DialogOpenAction::Load);
    assert_eq!(open_file_w_dialogs(FileType::Folder, false, true), DialogOpenAction::SetPrimaryPath);
    assert_eq!(open_file_w_dialogs(FileType::Folder, false, false), DialogOpenAction::Nothing);
    assert_eq!(open_file_w_dialogs(FileType::Unsupported, false, true), DialogOpenAction::WarnUnsupported);
}

#[test]
fn loaders_and_failure_messages() {
    assert_eq!(loader_for(FileType::RnoteFile), Ok(Loader::RnoteBytes));
    assert_eq!(loader_for(FileType::VectorImageFile), Ok(Loader::VectorImageBytes));
    assert_eq!(loader_for(FileType::PdfFile), Ok(Loader::PdfBytes));
    assert_eq!(loader_for(FileType::Folder), Err("Error: Tried opening folder as file".to_string()));
    assert_eq!(
        loader_for(FileType::Unsupported),
        Err("Failed to open file: Unsupported file type.".to_string())
    );
    assert_eq!(load_failure_message(FileType::XoppFile), "Opening Xournal++ file failed.");
}

#[test]
fn titles_name_the_document_and_the_app() {
    let t = refresh_titles("Draft", "Rnote", true);
    assert_eq!(t.window_title, "Draft - Rnote");
    assert!(t.unsaved_indicator_visible);
    assert!(t.unsaved_css_class);
    assert!(!refresh_titles("Draft", "Rnote", false).unsaved_css_class);
}

#[test]
fn any_tab_with_unsaved_changes() {
    assert!(!tabs_any_unsaved_changes(&Vec::new()));
    assert!(!tabs_any_unsaved_changes(&vec![false, false]));
    assert!(tabs_any_unsaved_changes(&vec![false, true, false]));
}

#[test]
fn own_write_hides_one_event() {
    let (a, expect) = handle_output_file_event(FileMonitorEvent::Changed, true, false, false);
    assert_eq!(a, FileMonitorAction::OwnWrite);
    assert!(!expect);
    let (b, _) = handle_output_file_event(FileMonitorEvent::Changed, expect, false, false);
    assert_eq!(b, FileMonitorAction::OfferReload);
}

#[test]
fn output_file_events() {
    assert_eq!(
        handle_output_file_event(FileMonitorEvent::Renamed, false, false, false),
        (FileMonitorAction::FollowRename { new_file_missing: true }, false)
    );
    assert_eq!(
        handle_output_file_event(FileMonitorEvent::Renamed, false, true, true),
        (FileMonitorAction::OfferReload, false)
    );
    assert_eq!(handle_output_file_event(FileMonitorEvent::Deleted, false, false, false), (FileMonitorAction::Lost, false));
    assert_eq!(handle_output_file_event(FileMonitorEvent::MovedOut, true, false, false), (FileMonitorAction::OwnWrite, false));
    assert_eq!(handle_output_file_event(FileMonitorEvent::Other, true, false, false), (FileMonitorAction::Ignore, true));
}

#[test]
fn saved_window_size_takes_off_the_margin() {
    let s = save_window_size(1000, 800, true);
    assert_eq!(s.width, 878);
    assert_eq!(s.height, 678);
    assert!(s.is_maximized);
}

#[test]
fn the_first_tab_with_the_same_file_is_found() {
    assert_eq!(rnote::window::tabs_query_file_opened(&vec![false, true, true]), Some(1));
    assert_eq!(rnote::window::tabs_query_file_opened(&vec![false, false]), None);
    assert_eq!(rnote::window::tabs_query_file_opened(&Vec::new()), None);
}

#[test]
fn inactive_tabs_are_the_unselected_ones() {
    assert_eq!(rnote::window::clear_rendering_inactive_tabs(&vec![false, true, false]), vec![0, 2]);
    assert_eq!(rnote::window::clear_rendering_inactive_tabs(&vec![true]), Vec::<usize>::new());
}

#[test]
fn accelerators() {
    let release = rnote::window::action_accels(false);
    assert_eq!(release.len(), 25);
    assert_eq!(release[0], ("win.close-active", "<Ctrl>w"));
    assert_eq!(release[24], ("win.pen-style::tools", "<Ctrl>6"));
    let devel = rnote::window::action_accels(true);
    assert_eq!(devel.len(), 26);
    assert_eq!(devel[25], ("win.visual-debug", "<Ctrl><Shift>v"));
}

#[test]
fn flap_drags() {
    let d = rnote::window::flap_drag_update(false, false, true, 300, 20, 1000);
    assert_eq!(d.width_request, Some(320));
    assert!(!d.reveal_toggle);
    let d = rnote::window::flap_drag_update(false, false, false, 300, 20, 1000);
    assert_eq!(d.width_request, Some(280));
    let d = rnote::window::flap_drag_update(false, false, true, 300, 700, 1000);
    assert_eq!(d.width_request, None);
    let d = rnote::window::flap_drag_update(false, false, false, 10, 10, 1000);
    assert_eq!(d.width_request, None);
    let d = rnote::window::flap_drag_update(true, false, true, 300, 20, 1000);
    assert_eq!(d.width_request, None);
    assert!(d.reveal_toggle);
    assert!(!d.prev_folded);
    let d = rnote::window::flap_drag_update(false, true, true, 300, 20, 1000);
    assert!(!d.reveal_toggle);
    assert!(d.prev_folded);
}

#[test]
fn doc_layout_action_targets() {
    assert_eq!(rnote::window::doc_layout_action("fixed-size"), DocLayout::FixedSize);
    assert_eq!(rnote::window::doc_layout_action("continuous-vertical"), DocLayout::ContinuousVertical);
    assert_eq!(rnote::window::doc_layout_action("infinite"), DocLayout::Infinite);
}
