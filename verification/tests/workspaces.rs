use rnote::workspaces::{WorkspaceList, WorkspaceListEntry};

fn entry(dir: &str, color: u32) -> WorkspaceListEntry<u32> {
    WorkspaceListEntry {
        dir: dir.to_string(),
        icon: "workspacelistentryicon-folder-symbolic".to_string(),
        color,
        name: dir.to_string(),
    }
}

#[test]
fn new_list_is_empty() {
    let l: WorkspaceList<u32> = WorkspaceList::new();
    assert_eq!(l.n_items(), 0);
    assert_eq!(l.selected_workspace_index(), None);
    assert!(l.selected_workspacelistentry().is_none());
    assert!(!l.remove_button_sensitive());
    assert!(!l.edit_button_sensitive());
    assert_eq!(l.index_to_save(), 0);
}

#[test]
fn pushed_workspace_is_selected() {
    let mut l = WorkspaceList::new();
    l.push_workspace(entry("/a", 1));
    l.push_workspace(entry("/b", 2));
    assert_eq!(l.n_items(), 2);
    assert_eq!(l.selected_workspace_index(), Some(1));
    let e = l.selected_workspacelistentry().unwrap();
    assert_eq!(e.dir, "/b");
    assert_eq!(e.color, 2);
    assert!(l.remove_button_sensitive());
    assert!(l.edit_button_sensitive());
}

#[test]
fn select_by_index_clamps_to_the_last_row() {
    let mut l = WorkspaceList::new();
    l.push_workspace(entry("/a", 1));
    l.push_workspace(entry("/b", 2));
    l.push_workspace(entry("/c", 3));
    l.select_workspace_by_index(0);
    assert_eq!(l.selected_workspace_index(), Some(0));
    l.select_workspace_by_index(7);
    assert_eq!(l.selected_workspace_index(), Some(2));
    let mut empty: WorkspaceList<u32> = WorkspaceList::new();
    empty.select_workspace_by_index(3);
    assert_eq!(empty.selected_workspace_index(), None);
}

#[test]
fn remove_undoes_push() {
    let mut l = WorkspaceList::new();
    l.push_workspace(entry("/a", 1));
    l.push_workspace(entry("/b", 2));
    l.push_workspace(entry("/c", 3));
    l.remove_selected_workspace();
    assert_eq!(l.n_items(), 2);
    assert_eq!(l.selected_workspace_index(), Some(1));
    assert_eq!(l.selected_workspacelistentry().unwrap().dir, "/b");
}

#[test]
fn remove_keeps_the_selected_index() {
    let mut l = WorkspaceList::new();
    l.push_workspace(entry("/a", 1));
    l.push_workspace(entry("/b", 2));
    l.push_workspace(entry("/c", 3));
    l.select_workspace_by_index(0);
    l.remove_selected_workspace();
    assert_eq!(l.n_items(), 2);
    assert_eq!(l.selected_workspace_index(), Some(0));
    assert_eq!(l.selected_workspacelistentry().unwrap().dir, "/b");
}

#[test]
fn remove_on_empty_list_does_nothing() {
    let mut l: WorkspaceList<u32> = WorkspaceList::new();
    l.remove_selected_workspace();
    assert_eq!(l.n_items(), 0);
    assert_eq!(l.selected_workspace_index(), None);
}

#[test]
fn the_last_workspace_is_never_removed() {
    let mut l = WorkspaceList::new();
    l.push_workspace(entry("/a", 1));
    l.remove_selected_workspace();
    assert_eq!(l.n_items(), 1);
    assert_eq!(l.selected_workspace_index(), Some(0));
    assert_eq!(l.selected_workspacelistentry().unwrap().dir, "/a");
    l.push_workspace(entry("/b", 2));
    l.remove_selected_workspace();
    l.remove_selected_workspace();
    assert_eq!(l.n_items(), 1);
    assert_eq!(l.entry_at(0).dir, "/a");
}

#[test]
fn setters_change_the_selected_workspace() {
    let mut l = WorkspaceList::new();
    l.push_workspace(entry("/a", 1));
    l.push_workspace(entry("/b", 2));
    l.select_workspace_by_index(0);
    l.set_selected_workspace_dir("/x".to_string());
    l.set_selected_workspace_icon("workspacelistentryicon-star-symbolic".to_string());
    l.set_selected_workspace_color(9);
    l.set_selected_workspace_name("X".to_string());
    let e = l.selected_workspacelistentry().unwrap();
    assert_eq!(e.dir, "/x");
    assert_eq!(e.icon, "workspacelistentryicon-star-symbolic");
    assert_eq!(e.color, 9);
    assert_eq!(e.name, "X");
    l.select_workspace_by_index(1);
    assert_eq!(l.selected_workspacelistentry().unwrap().dir, "/b");
}

#[test]
fn replace_selected_entry() {
    let mut l = WorkspaceList::new();
    l.push_workspace(entry("/a", 1));
    l.replace_selected_workspacelistentry(entry("/z", 5));
    assert_eq!(l.n_items(), 1);
    assert_eq!(l.selected_workspacelistentry().unwrap().dir, "/z");
}

#[test]
fn add_workspace_copies_the_selected_one() {
    let mut l = WorkspaceList::new();
    l.add_workspace(entry("/default", 0));
    assert_eq!(l.n_items(), 1);
    assert_eq!(l.selected_workspacelistentry().unwrap().dir, "/default");
    l.set_selected_workspace_color(4);
    l.add_workspace(entry("/other", 0));
    assert_eq!(l.n_items(), 2);
    assert_eq!(l.selected_workspace_index(), Some(1));
    let e = l.selected_workspacelistentry().unwrap();
    assert_eq!(e.dir, "/default");
    assert_eq!(e.color, 4);
}

#[test]
fn load_from_settings_clamps_the_saved_index() {
    let mut l = WorkspaceList::new();
    l.load_from_settings(vec![entry("/a", 1), entry("/b", 2)], 5);
    assert_eq!(l.selected_workspace_index(), Some(1));
    assert_eq!(l.index_to_save(), 1);
    l.load_from_settings(Vec::new(), 0);
    assert_eq!(l.selected_workspace_index(), None);
    assert_eq!(l.index_to_save(), 0);
}

#[test]
fn duplicate_entry_is_equal() {
    let e = entry("/a", 3);
    let d = e.duplicate();
    assert_eq!(d.dir, e.dir);
    assert_eq!(d.icon, e.icon);
    assert_eq!(d.color, e.color);
    assert_eq!(d.name, e.name);
}

#[test]
fn entries_by_row() {
    let mut l = WorkspaceList::new();
    l.push_workspace(entry("/a", 1));
    l.push_workspace(entry("/b", 2));
    assert_eq!(l.entry_at(0).dir, "/a");
    assert_eq!(l.entry_at(1).color, 2);
}
