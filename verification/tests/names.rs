use rnote::names::{cursors_list, cursors_list_to_display_name, workspace_icons_list, workspace_icons_list_to_display_name};

#[test]
fn icon_and_cursor_lists() {
    let icons = workspace_icons_list();
    assert_eq!(icons[0], "workspacelistentryicon-bandaid-symbolic");
    assert_eq!(icons.last().unwrap(), "workspacelistentryicon-weight-symbolic");
    let cursors = cursors_list();
    assert_eq!(cursors.len(), 18);
    assert_eq!(cursors[0], "cursor-crosshair-small");
    assert_eq!(cursors[17], "cursor-beam-large");
}

#[test]
fn every_listed_name_has_a_display_text() {
    for icon in workspace_icons_list() {
        assert!(!workspace_icons_list_to_display_name(&icon).is_empty());
    }
    for cursor in cursors_list() {
        assert!(!cursors_list_to_display_name(&cursor).is_empty());
    }
}

#[test]
fn display_texts() {
    assert_eq!(workspace_icons_list_to_display_name("workspacelistentryicon-musicnote-symbolic"), "Musical Note");
    assert_eq!(workspace_icons_list_to_display_name("workspacelistentryicon-bandaid-symbolic"), "Band-Aid");
    assert_eq!(cursors_list_to_display_name("cursor-teardrop-ne-large"), "Teardrop North-East (Large)");
    assert_eq!(cursors_list_to_display_name("cursor-dot-small"), "Dot (Small)");
}
