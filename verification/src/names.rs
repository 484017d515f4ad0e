//! The names of the workspace icons and of the cursors, and the text (before localization)
//! each is shown with.

use vstd::prelude::*;
use vstd::string::StringExecFns;
use crate::text::str_eq;

verus! {

/// The workspace icons.
pub open spec fn workspace_icon_names() -> Seq<Seq<char>> {
    seq![
        "workspacelistentryicon-bandaid-symbolic"@,
        "workspacelistentryicon-bank-symbolic"@,
        "workspacelistentryicon-bookmark-symbolic"@,
        "workspacelistentryicon-book-symbolic"@,
        "workspacelistentryicon-bread-symbolic"@,
        "workspacelistentryicon-calendar-symbolic"@,
        "workspacelistentryicon-camera-symbolic"@,
        "workspacelistentryicon-chip-symbolic"@,
        "workspacelistentryicon-code-symbolic"@,
        "workspacelistentryicon-compose-symbolic"@,
        "workspacelistentryicon-document-symbolic"@,
        "workspacelistentryicon-drinks-symbolic"@,
        "workspacelistentryicon-flag-symbolic"@,
        "workspacelistentryicon-folder-symbolic"@,
        "workspacelistentryicon-footprints-symbolic"@,
        "workspacelistentryicon-gamepad-symbolic"@,
        "workspacelistentryicon-gear-symbolic"@,
        "workspacelistentryicon-hammer-symbolic"@,
        "workspacelistentryicon-heart-symbolic"@,
        "workspacelistentryicon-hourglass-symbolic"@,
        "workspacelistentryicon-key-symbolic"@,
        "workspacelistentryicon-language-symbolic"@,
        "workspacelistentryicon-lightbulb-symbolic"@,
        "workspacelistentryicon-math-symbolic"@,
        "workspacelistentryicon-meeting-symbolic"@,
        "workspacelistentryicon-money-symbolic"@,
        "workspacelistentryicon-musicnote-symbolic"@,
        "workspacelistentryicon-paintbrush-symbolic"@,
        "workspacelistentryicon-pencilandpaper-symbolic"@,
        "workspacelistentryicon-people-symbolic"@,
        "workspacelistentryicon-person-symbolic"@,
        "workspacelistentryicon-projector-symbolic"@,
        "workspacelistentryicon-scratchpad-symbolic"@,
        "workspacelistentryicon-shapes-symbolic"@,
        "workspacelistentryicon-shopping-symbolic"@,
        "workspacelistentryicon-speechbubble-symbolic"@,
        "workspacelistentryicon-speedometer-symbolic"@,
        "workspacelistentryicon-star-symbolic"@,
        "workspacelistentryicon-terminal-symbolic"@,
        "workspacelistentryicon-text-symbolic"@,
        "workspacelistentryicon-travel-symbolic"@,
        "workspacelistentryicon-weather-symbolic"@,
        "workspacelistentryicon-weight-symbolic"@,
    ]
}

/// The text shown for each workspace icon, by position.
pub open spec fn workspace_icon_display_names() -> Seq<Seq<char>> {
    seq![
        "Band-Aid"@,
        "Bank"@,
        "Bookmark"@,
        "Book"@,
        "Bread"@,
        "Calendar"@,
        "Camera"@,
        "Chip"@,
        "Code"@,
        "Compose"@,
        "Document"@,
        "Drinks"@,
        "Flag"@,
        "Folder"@,
        "Footprints"@,
        "Gamepad"@,
        "Gear"@,
        "Hammer"@,
        "Heart"@,
        "Hourglass"@,
        "Key"@,
        "Language"@,
        "Lightbulb"@,
        "Math"@,
        "Meeting"@,
        "Money"@,
        "Musical Note"@,
        "Paintbrush"@,
        "Pencil and Paper"@,
        "People"@,
        "Person"@,
        "Projector"@,
        "Scratchpad"@,
        "Shapes"@,
        "Shopping"@,
        "Speech Bubble"@,
        "Speedometer"@,
        "Star"@,
        "Terminal"@,
        "Text"@,
        "Travel"@,
        "Weather"@,
        "Weight"@,
    ]
}

/// The cursors.
pub open spec fn cursor_names() -> Seq<Seq<char>> {
    seq![
        "cursor-crosshair-small"@,
        "cursor-crosshair-medium"@,
        "cursor-crosshair-large"@,
        "cursor-dot-small"@,
        "cursor-dot-medium"@,
        "cursor-dot-large"@,
        "cursor-teardrop-nw-small"@,
        "cursor-teardrop-nw-medium"@,
        "cursor-teardrop-nw-large"@,
        "cursor-teardrop-ne-small"@,
        "cursor-teardrop-ne-medium"@,
        "cursor-teardrop-ne-large"@,
        "cursor-teardrop-n-small"@,
        "cursor-teardrop-n-medium"@,
        "cursor-teardrop-n-large"@,
        "cursor-beam-small"@,
        "cursor-beam-medium"@,
        "cursor-beam-large"@,
    ]
}

/// The text shown for each cursor, by position.
pub open spec fn cursor_display_names() -> Seq<Seq<char>> {
    seq![
        "Crosshair (Small)"@,
        "Crosshair (Medium)"@,
        "Crosshair (Large)"@,
        "Dot (Small)"@,
        "Dot (Medium)"@,
        "Dot (Large)"@,
        "Teardrop North-West (Small)"@,
        "Teardrop North-West (Medium)"@,
        "Teardrop North-West (Large)"@,
        "Teardrop North-East (Small)"@,
        "Teardrop North-East (Medium)"@,
        "Teardrop North-East (Large)"@,
        "Teardrop North (Small)"@,
        "Teardrop North (Medium)"@,
        "Teardrop North (Large)"@,
        "Beam (Small)"@,
        "Beam (Medium)"@,
        "Beam (Large)"@,
    ]
}

/// The workspace icons with their display texts.
fn workspace_icon_table() -> (t: Vec<(&'static str, &'static str)>)
    ensures
        t.len() == workspace_icon_names().len(),
        forall|i: int| 0 <= i < t.len() ==> (#[trigger] t[i]).0@ == workspace_icon_names()[i] && t[i].1@ == workspace_icon_display_names()[i],
{
    vec![
        ("workspacelistentryicon-bandaid-symbolic", "Band-Aid"),
        ("workspacelistentryicon-bank-symbolic", "Bank"),
        ("workspacelistentryicon-bookmark-symbolic", "Bookmark"),
        ("workspacelistentryicon-book-symbolic", "Book"),
        ("workspacelistentryicon-bread-symbolic", "Bread"),
        ("workspacelistentryicon-calendar-symbolic", "Calendar"),
        ("workspacelistentryicon-camera-symbolic", "Camera"),
        ("workspacelistentryicon-chip-symbolic", "Chip"),
        ("workspacelistentryicon-code-symbolic", "Code"),
        ("workspacelistentryicon-compose-symbolic", "Compose"),
        ("workspacelistentryicon-document-symbolic", "Document"),
        ("workspacelistentryicon-drinks-symbolic", "Drinks"),
        ("workspacelistentryicon-flag-symbolic", "Flag"),
        ("workspacelistentryicon-folder-symbolic", "Folder"),
        ("workspacelistentryicon-footprints-symbolic", "Footprints"),
        ("workspacelistentryicon-gamepad-symbolic", "Gamepad"),
        ("workspacelistentryicon-gear-symbolic", "Gear"),
        ("workspacelistentryicon-hammer-symbolic", "Hammer"),
        ("workspacelistentryicon-heart-symbolic", "Heart"),
        ("workspacelistentryicon-hourglass-symbolic", "Hourglass"),
        ("workspacelistentryicon-key-symbolic", "Key"),
        ("workspacelistentryicon-language-symbolic", "Language"),
        ("workspacelistentryicon-lightbulb-symbolic", "Lightbulb"),
        ("workspacelistentryicon-math-symbolic", "Math"),
        ("workspacelistentryicon-meeting-symbolic", "Meeting"),
        ("workspacelistentryicon-money-symbolic", "Money"),
        ("workspacelistentryicon-musicnote-symbolic", "Musical Note"),
        ("workspacelistentryicon-paintbrush-symbolic", "Paintbrush"),
        ("workspacelistentryicon-pencilandpaper-symbolic", "Pencil and Paper"),
        ("workspacelistentryicon-people-symbolic", "People"),
        ("workspacelistentryicon-person-symbolic", "Person"),
        ("workspacelistentryicon-projector-symbolic", "Projector"),
        ("workspacelistentryicon-scratchpad-symbolic", "Scratchpad"),
        ("workspacelistentryicon-shapes-symbolic", "Shapes"),
        ("workspacelistentryicon-shopping-symbolic", "Shopping"),
        ("workspacelistentryicon-speechbubble-symbolic", "Speech Bubble"),
        ("workspacelistentryicon-speedometer-symbolic", "Speedometer"),
        ("workspacelistentryicon-star-symbolic", "Star"),
        ("workspacelistentryicon-terminal-symbolic", "Terminal"),
        ("workspacelistentryicon-text-symbolic", "Text"),
        ("workspacelistentryicon-travel-symbolic", "Travel"),
        ("workspacelistentryicon-weather-symbolic", "Weather"),
        ("workspacelistentryicon-weight-symbolic", "Weight"),
    ]
}

/// The cursors with their display texts.
fn cursor_table() -> (t: Vec<(&'static str, &'static str)>)
    ensures
        t.len() == cursor_names().len(),
        forall|i: int| 0 <= i < t.len() ==> (#[trigger] t[i]).0@ == cursor_names()[i] && t[i].1@ == cursor_display_names()[i],
{
    vec![
        ("cursor-crosshair-small", "Crosshair (Small)"),
        ("cursor-crosshair-medium", "Crosshair (Medium)"),
        ("cursor-crosshair-large", "Crosshair (Large)"),
        ("cursor-dot-small", "Dot (Small)"),
        ("cursor-dot-medium", "Dot (Medium)"),
        ("cursor-dot-large", "Dot (Large)"),
        ("cursor-teardrop-nw-small", "Teardrop North-West (Small)"),
        ("cursor-teardrop-nw-medium", "Teardrop North-West (Medium)"),
        ("cursor-teardrop-nw-large", "Teardrop North-West (Large)"),
        ("cursor-teardrop-ne-small", "Teardrop North-East (Small)"),
        ("cursor-teardrop-ne-medium", "Teardrop North-East (Medium)"),
        ("cursor-teardrop-ne-large", "Teardrop North-East (Large)"),
        ("cursor-teardrop-n-small", "Teardrop North (Small)"),
        ("cursor-teardrop-n-medium", "Teardrop North (Medium)"),
        ("cursor-teardrop-n-large", "Teardrop North (Large)"),
        ("cursor-beam-small", "Beam (Small)"),
        ("cursor-beam-medium", "Beam (Medium)"),
        ("cursor-beam-large", "Beam (Large)"),
    ]
}

/// The names of the workspace icons, in the order they are offered.
pub fn workspace_icons_list() -> (l: Vec<String>)
    ensures
        l.len() == workspace_icon_names().len(),
        forall|i: int| 0 <= i < l.len() ==> (#[trigger] l[i])@ == workspace_icon_names()[i],
{
    first_column(&workspace_icon_table())
}

/// The names of the cursors, in the order they are offered.
pub fn cursors_list() -> (l: Vec<String>)
    ensures
        l.len() == cursor_names().len(),
        forall|i: int| 0 <= i < l.len() ==> (#[trigger] l[i])@ == cursor_names()[i],
{
    first_column(&cursor_table())
}

fn first_column(t: &Vec<(&'static str, &'static str)>) -> (l: Vec<String>)
    ensures
        l.len() == t.len(),
        forall|i: int| 0 <= i < l.len() ==> (#[trigger] l[i])@ == t[i].0@,
{
    let mut l: Vec<String> = Vec::new();
    let mut i: usize = 0;
    while i < t.len()
        invariant
            i <= t.len(),
            l.len() == i,
            forall|j: int| 0 <= j < i ==> (#[trigger] l[j])@ == t[j].0@,
        decreases t.len() - i,
    {
        l.push(String::from_str(t[i].0));
        i = i + 1;
    }
    l
}

/// The display text of the entry of `names` that equals `name`, from `displays`.
pub open spec fn display_of(names: Seq<Seq<char>>, displays: Seq<Seq<char>>, name: Seq<char>) -> Seq<char> {
    displays[first_index(names, name)]
}

/// The first position of `x` in `s`.
pub open spec fn first_index(s: Seq<Seq<char>>, x: Seq<char>) -> int {
    choose|i: int| 0 <= i < s.len() && s[i] == x && forall|j: int| 0 <= j < i ==> s[j] != x
}

/// Looks a name up in a table.
fn lookup(t: &Vec<(&'static str, &'static str)>, name: &str) -> (r: Option<String>)
    ensures
        match r {
            Some(d) => exists|i: int| 0 <= i < t.len() && (#[trigger] t[i]).0@ == name@ && d@ == t[i].1@
                && forall|j: int| 0 <= j < i ==> t[j].0@ != name@,
            None => forall|i: int| 0 <= i < t.len() ==> (#[trigger] t[i]).0@ != name@,
        },
{
    let mut i: usize = 0;
    while i < t.len()
        invariant
            i <= t.len(),
            forall|j: int| 0 <= j < i ==> (#[trigger] t[j]).0@ != name@,
        decreases t.len() - i,
    {
        if str_eq(t[i].0, name) {
            return Some(String::from_str(t[i].1));
        }
        i = i + 1;
    }
    None
}

/// The text a workspace icon is shown with, before localization. The icon must be one
/// of the workspace icons.
pub fn workspace_icons_list_to_display_name(icon_name: &str) -> (d: String)
    requires
        workspace_icon_names().contains(icon_name@),
    ensures
        d@ == display_of(workspace_icon_names(), workspace_icon_display_names(), icon_name@),
{
    let t = workspace_icon_table();
    let r = lookup(&t, icon_name);
    proof {
        let k = choose|k: int| 0 <= k < workspace_icon_names().len() && workspace_icon_names()[k] == icon_name@;
        assert(t[k].0@ == icon_name@);
    }
    let d = r.unwrap();
    proof {
        let i = choose|i: int| 0 <= i < t.len() && (#[trigger] t[i]).0@ == icon_name@ && d@ == t[i].1@
            && forall|j: int| 0 <= j < i ==> t[j].0@ != icon_name@;
        let names = workspace_icon_names();
        assert(names[i] == icon_name@);
        assert forall|j: int| 0 <= j < i implies names[j] != icon_name@ by {
            assert(t[j].0@ == names[j]);
        }
        lemma_first_index(names, icon_name@, i);
    }
    d
}

/// The text a cursor is shown with, before localization. The cursor must be one of
/// the cursors.
pub fn cursors_list_to_display_name(cursor_name: &str) -> (d: String)
    requires
        cursor_names().contains(cursor_name@),
    ensures
        d@ == display_of(cursor_names(), cursor_display_names(), cursor_name@),
{
    let t = cursor_table();
    let r = lookup(&t, cursor_name);
    proof {
        let k = choose|k: int| 0 <= k < cursor_names().len() && cursor_names()[k] == cursor_name@;
        assert(t[k].0@ == cursor_name@);
    }
    let d = r.unwrap();
    proof {
        let i = choose|i: int| 0 <= i < t.len() && (#[trigger] t[i]).0@ == cursor_name@ && d@ == t[i].1@
            && forall|j: int| 0 <= j < i ==> t[j].0@ != cursor_name@;
        let names = cursor_names();
        assert(names[i] == cursor_name@);
        assert forall|j: int| 0 <= j < i implies names[j] != cursor_name@ by {
            assert(t[j].0@ == names[j]);
        }
        lemma_first_index(names, cursor_name@, i);
    }
    d
}

/// The first position of an element is its index.
proof fn lemma_first_index(s: Seq<Seq<char>>, x: Seq<char>, i: int)
    requires
        0 <= i < s.len(),
        s[i] == x,
        forall|j: int| 0 <= j < i ==> s[j] != x,
    ensures
        first_index(s, x) == i,
{
    let k = first_index(s, x);
    if k < i {
        assert(s[k] != x);
    }
    if k > i {
        assert(s[i] != x);
    }
}

} // verus!
