//! The choices the main window makes: which document layout an action names, what
//! pasting does, how widget flags are handled, how a file is opened, the window
//! title, and how the canvas answers changes of its file on disk.

use vstd::prelude::*;
use vstd::string::StringExecFns;
use crate::paths::{file_name_of, parent_of, path_file_stem, path_parent, stem_of_name};
use crate::text::str_eq;

verus! {

/// How the document expands.
#[derive(Clone, Copy, Debug, PartialEq, Eq, Structural)]
pub enum DocLayout {
    FixedSize,
    ContinuousVertical,
    Infinite,
}

/// The nick of each layout, the target string of the `doc-layout` action.
pub open spec fn layout_nick(layout: DocLayout) -> Seq<char> {
    match layout {
        DocLayout::FixedSize => "fixed-size"@,
        DocLayout::ContinuousVertical => "continuous-vertical"@,
        DocLayout::Infinite => "infinite"@,
    }
}

/// The layout a target string names, `None` for any other string: the test a caller
/// makes before activating the `doc-layout` action.
pub fn parse_doc_layout(target: &str) -> (layout: Option<DocLayout>)
    ensures
        match layout {
            Some(l) => layout_nick(l) == target@,
            None => forall|l: DocLayout| layout_nick(l) != target@,
        },
{
    if str_eq(target, "fixed-size") {
        Some(DocLayout::FixedSize)
    } else if str_eq(target, "continuous-vertical") {
        Some(DocLayout::ContinuousVertical)
    } else if str_eq(target, "infinite") {
        Some(DocLayout::Infinite)
    } else {
        proof {
            assert forall|l: DocLayout| layout_nick(l) != target@ by {
                match l {
                    DocLayout::FixedSize => {},
                    DocLayout::ContinuousVertical => {},
                    DocLayout::Infinite => {},
                }
            }
        }
        None
    }
}

/// The target string of the `doc-layout` action for the layout.
pub fn doc_layout_nick(layout: DocLayout) -> (nick: String)
    ensures
        nick@ == layout_nick(layout),
{
    match layout {
        DocLayout::FixedSize => String::from_str("fixed-size"),
        DocLayout::ContinuousVertical => String::from_str("continuous-vertical"),
        DocLayout::Infinite => String::from_str("infinite"),
    }
}

/// Whether the target string names a layout.
pub open spec fn names_doc_layout(target: Seq<char>) -> bool {
    exists|l: DocLayout| layout_nick(l) == target
}

/// The layout the `doc-layout` action switches to for its target, which must name a
/// layout (the action fails on any other target).
pub fn doc_layout_action(target: &str) -> (layout: DocLayout)
    requires
        names_doc_layout(target@),
    ensures
        layout_nick(layout) == target@,
{
    match parse_doc_layout(target) {
        Some(l) => l,
        None => {
            proof {
                let l = choose|l: DocLayout| layout_nick(l) == target@;
                assert(layout_nick(l) == target@);
            }
            DocLayout::Infinite
        },
    }
}

/// Each layout's nick names it alone, so that parsing a nick gives its layout back.
pub proof fn lemma_doc_layout_nick_round_trip(a: DocLayout, b: DocLayout)
    ensures
        layout_nick(a) == layout_nick(b) ==> a == b,
{
    reveal_strlit("fixed-size");
    reveal_strlit("continuous-vertical");
    reveal_strlit("infinite");
    if a != b {
        assert(layout_nick(a).len() != layout_nick(b).len() || layout_nick(a)[0] != layout_nick(b)[0]);
    }
}

/// The colour scheme the application follows.
#[derive(Clone, Copy, Debug, PartialEq, Eq, Structural)]
pub enum ColorScheme {
    Default,
    ForceLight,
    ForceDark,
}

/// The string under which each colour scheme is stored in the settings.
pub open spec fn color_scheme_str(scheme: ColorScheme) -> Seq<char> {
    match scheme {
        ColorScheme::Default => "default"@,
        ColorScheme::ForceLight => "force-light"@,
        ColorScheme::ForceDark => "force-dark"@,
    }
}

/// The colour scheme a stored setting names; `None` for any other string, which the
/// setting does not map.
pub fn parse_color_scheme(setting: &str) -> (scheme: Option<ColorScheme>)
    ensures
        match scheme {
            Some(c) => color_scheme_str(c) == setting@,
            None => forall|c: ColorScheme| color_scheme_str(c) != setting@,
        },
{
    if str_eq(setting, "default") {
        Some(ColorScheme::Default)
    } else if str_eq(setting, "force-light") {
        Some(ColorScheme::ForceLight)
    } else if str_eq(setting, "force-dark") {
        Some(ColorScheme::ForceDark)
    } else {
        proof {
            assert forall|c: ColorScheme| color_scheme_str(c) != setting@ by {
                match c {
                    ColorScheme::Default => {},
                    ColorScheme::ForceLight => {},
                    ColorScheme::ForceDark => {},
                }
            }
        }
        None
    }
}

/// The string under which the colour scheme is stored in the settings.
pub fn color_scheme_setting(scheme: ColorScheme) -> (setting: String)
    ensures
        setting@ == color_scheme_str(scheme),
{
    match scheme {
        ColorScheme::Default => String::from_str("default"),
        ColorScheme::ForceLight => String::from_str("force-light"),
        ColorScheme::ForceDark => String::from_str("force-dark"),
    }
}

/// Each colour scheme is stored under a string of its own, so that reading back a
/// stored scheme gives the same scheme.
pub proof fn lemma_color_scheme_round_trip(a: ColorScheme, b: ColorScheme)
    ensures
        color_scheme_str(a) == color_scheme_str(b) ==> a == b,
{
    reveal_strlit("default");
    reveal_strlit("force-light");
    reveal_strlit("force-dark");
    if a != b {
        assert(color_scheme_str(a).len() != color_scheme_str(b).len() || color_scheme_str(a)[6] != color_scheme_str(b)[6]);
    }
}

/// Whether the quick actions of the fixed size layout are revealed: only in that layout.
pub fn fixedsize_quickactions_revealed(layout: DocLayout) -> (b: bool)
    ensures
        b == (layout == DocLayout::FixedSize),
{
    match layout {
        DocLayout::FixedSize => true,
        _ => false,
    }
}

/// What toggling the developer mode does.
#[derive(Clone, Copy, Debug, PartialEq, Eq, Structural)]
pub struct DevelModeToggle {
    /// the developer menu is enabled when the mode is turned on
    pub devel_menu_enabled: bool,
    /// visual debugging is turned off when the mode is turned off
    pub disable_visual_debug: bool,
    pub new_state: bool,
}

/// Toggles the developer mode from its current state.
pub fn toggle_devel_mode(state: bool) -> (t: DevelModeToggle)
    ensures
        t.new_state == !state,
        t.devel_menu_enabled == !state,
        t.disable_visual_debug == state,
{
    DevelModeToggle { devel_menu_enabled: !state, disable_visual_debug: state, new_state: !state }
}

/// The image mime types pasted as bitmaps.
#[derive(Clone, Copy, Debug, PartialEq, Eq, Structural)]
pub enum ImageMime {
    Png,
    Jpeg,
    Jpg,
    Tiff,
    Bmp,
}

/// The mime type string of each.
pub open spec fn image_mime_str(m: ImageMime) -> Seq<char> {
    match m {
        ImageMime::Png => "image/png"@,
        ImageMime::Jpeg => "image/jpeg"@,
        ImageMime::Jpg => "image/jpg"@,
        ImageMime::Tiff => "image/tiff"@,
        ImageMime::Bmp => "image/bmp"@,
    }
}

/// The mime type string of an image mime type.
pub fn image_mime_name(m: ImageMime) -> (s: String)
    ensures
        s@ == image_mime_str(m),
{
    match m {
        ImageMime::Png => String::from_str("image/png"),
        ImageMime::Jpeg => String::from_str("image/jpeg"),
        ImageMime::Jpg => String::from_str("image/jpg"),
        ImageMime::Tiff => String::from_str("image/tiff"),
        ImageMime::Bmp => String::from_str("image/bmp"),
    }
}

/// What pasting the clipboard does, by the mime types it offers.
#[derive(Clone, Copy, Debug, PartialEq, Eq, Structural)]
pub enum PasteAction {
    /// open the files the uri list names
    UriList,
    /// insert the image, read as a texture of the given mime type
    Image(ImageMime),
    /// insert the text
    Text,
    /// nothing can be pasted
    Unsupported,
}

/// Whether the clipboard offers the mime type.
pub open spec fn offers(mimes: Seq<String>, mime: Seq<char>) -> bool {
    exists|i: int| 0 <= i < mimes.len() && (#[trigger] mimes[i])@ == mime
}

/// The first image type offered, in the order png, jpeg, jpg, tiff, bmp.
pub open spec fn first_offered_image(mimes: Seq<String>) -> Option<ImageMime> {
    if offers(mimes, "image/png"@) {
        Some(ImageMime::Png)
    } else if offers(mimes, "image/jpeg"@) {
        Some(ImageMime::Jpeg)
    } else if offers(mimes, "image/jpg"@) {
        Some(ImageMime::Jpg)
    } else if offers(mimes, "image/tiff"@) {
        Some(ImageMime::Tiff)
    } else if offers(mimes, "image/bmp"@) {
        Some(ImageMime::Bmp)
    } else {
        None
    }
}

/// What pasting does: a uri list first, else the first image type offered, else
/// text, else nothing.
pub open spec fn paste_action_for(mimes: Seq<String>) -> PasteAction {
    if offers(mimes, "text/uri-list"@) {
        PasteAction::UriList
    } else if first_offered_image(mimes) is Some {
        PasteAction::Image(first_offered_image(mimes).unwrap())
    } else if offers(mimes, "text/plain"@) || offers(mimes, "text/plain;charset=utf-8"@) {
        PasteAction::Text
    } else {
        PasteAction::Unsupported
    }
}

/// Whether the list holds the mime type.
fn offers_mime(mimes: &Vec<String>, mime: &str) -> (b: bool)
    ensures
        b == offers(mimes@, mime@),
{
    let mut i: usize = 0;
    while i < mimes.len()
        invariant
            i <= mimes.len(),
            forall|j: int| 0 <= j < i ==> mimes@[j]@ != mime@,
        decreases mimes.len() - i,
    {
        if str_eq(mimes[i].as_str(), mime) {
            return true;
        }
        i = i + 1;
    }
    false
}

/// Chooses what pasting the clipboard does from the mime types it offers.
pub fn choose_paste_action(mimes: &Vec<String>) -> (a: PasteAction)
    ensures
        a == paste_action_for(mimes@),
{
    if offers_mime(mimes, "text/uri-list") {
        PasteAction::UriList
    } else if offers_mime(mimes, "image/png") {
        PasteAction::Image(ImageMime::Png)
    } else if offers_mime(mimes, "image/jpeg") {
        PasteAction::Image(ImageMime::Jpeg)
    } else if offers_mime(mimes, "image/jpg") {
        PasteAction::Image(ImageMime::Jpg)
    } else if offers_mime(mimes, "image/tiff") {
        PasteAction::Image(ImageMime::Tiff)
    } else if offers_mime(mimes, "image/bmp") {
        PasteAction::Image(ImageMime::Bmp)
    } else if offers_mime(mimes, "text/plain") || offers_mime(mimes, "text/plain;charset=utf-8") {
        PasteAction::Text
    } else {
        PasteAction::Unsupported
    }
}

/// The flags the engine hands back after it handled an event.
#[derive(Clone, Copy, Debug, PartialEq, Eq, Structural)]
pub struct WidgetFlags {
    pub redraw: bool,
    pub resize: bool,
    pub refresh_ui: bool,
    pub store_modified: bool,
    pub update_view: bool,
    pub hide_undo: Option<bool>,
    pub hide_redo: Option<bool>,
    pub enable_text_preprocessing: Option<bool>,
}

/// What the window does for a set of widget flags.
#[derive(Clone, Copy, Debug, PartialEq, Eq, Structural)]
pub struct WidgetFlagsEffects {
    pub queue_draw: bool,
    pub queue_resize: bool,
    pub refresh_ui: bool,
    /// the document gets unsaved changes and is not empty any more
    pub mark_unsaved_and_nonempty: bool,
    /// the canvas adjustments take the camera offset
    pub update_camera_offset: bool,
    pub undo_sensitive: Option<bool>,
    pub redo_sensitive: Option<bool>,
    pub text_preprocessing: Option<bool>,
}

/// The effects of widget flags: each flag asks for its effect, and the undo and redo
/// buttons are made sensitive exactly when they are not hidden.
pub fn handle_widget_flags(flags: WidgetFlags) -> (e: WidgetFlagsEffects)
    ensures
        e.queue_draw == flags.redraw,
        e.queue_resize == flags.resize,
        e.refresh_ui == flags.refresh_ui,
        e.mark_unsaved_and_nonempty == flags.store_modified,
        e.update_camera_offset == flags.update_view,
        e.undo_sensitive == (match flags.hide_undo {
            Some(h) => Some(!h),
            None => None,
        }),
        e.redo_sensitive == (match flags.hide_redo {
            Some(h) => Some(!h),
            None => None,
        }),
        e.text_preprocessing == flags.enable_text_preprocessing,
{
    WidgetFlagsEffects {
        queue_draw: flags.redraw,
        queue_resize: flags.resize,
        refresh_ui: flags.refresh_ui,
        mark_unsaved_and_nonempty: flags.store_modified,
        update_camera_offset: flags.update_view,
        undo_sensitive: match flags.hide_undo {
            Some(h) => Some(!h),
            None => None,
        },
        redo_sensitive: match flags.hide_redo {
            Some(h) => Some(!h),
            None => None,
        },
        text_preprocessing: flags.enable_text_preprocessing,
    }
}

/// The kinds of files the window opens.
#[derive(Clone, Copy, Debug, PartialEq, Eq, Structural)]
pub enum FileType {
    RnoteFile,
    VectorImageFile,
    BitmapImageFile,
    XoppFile,
    PdfFile,
    Folder,
    Unsupported,
}

/// What opening a file does.
#[derive(Clone, Copy, Debug, PartialEq, Eq, Structural)]
pub enum OpenPlan {
    /// the file is already open in the tab at this index: switch to it
    SwitchToTab(usize),
    /// load the file in a new tab
    LoadInNewTab,
    /// load the file into the active tab
    LoadInActiveTab,
    /// open a new tab and show the Xournal++ import dialog for it
    ImportXoppInNewTab,
    /// show the PDF import dialog for the active tab
    ImportPdf,
    /// make the folder the directory of the selected workspace
    SetWorkspaceDir,
    /// the rnote file has no local path
    NoPath,
    /// log that the type is not supported
    Unsupported,
}

/// The plan for opening a file of the given type: rnote files switch to the tab
/// that has them open, else load in a new or the active tab; images load into the
/// active tab; Xournal++ and PDF files go through their import dialogs; folders
/// become the workspace directory.
pub open spec fn open_plan_for(file_type: FileType, has_path: bool, opened_in_tab: Option<usize>, rnote_file_new_tab: bool) -> OpenPlan {
    match file_type {
        FileType::RnoteFile => if !has_path {
            OpenPlan::NoPath
        } else if opened_in_tab is Some {
            OpenPlan::SwitchToTab(opened_in_tab.unwrap())
        } else if rnote_file_new_tab {
            OpenPlan::LoadInNewTab
        } else {
            OpenPlan::LoadInActiveTab
        },
        FileType::VectorImageFile | FileType::BitmapImageFile => OpenPlan::LoadInActiveTab,
        FileType::XoppFile => OpenPlan::ImportXoppInNewTab,
        FileType::PdfFile => OpenPlan::ImportPdf,
        FileType::Folder => if has_path { OpenPlan::SetWorkspaceDir } else { OpenPlan::NoPath },
        FileType::Unsupported => OpenPlan::Unsupported,
    }
}

/// Plans opening a file. `opened_in_tab` is the tab that has the same file open,
/// if one has.
pub fn plan_open_file(file_type: FileType, has_path: bool, opened_in_tab: Option<usize>, rnote_file_new_tab: bool) -> (p: OpenPlan)
    ensures
        p == open_plan_for(file_type, has_path, opened_in_tab, rnote_file_new_tab),
{
    match file_type {
        FileType::RnoteFile => {
            if !has_path {
                OpenPlan::NoPath
            } else {
                match opened_in_tab {
                    Some(i) => OpenPlan::SwitchToTab(i),
                    None => if rnote_file_new_tab {
                        OpenPlan::LoadInNewTab
                    } else {
                        OpenPlan::LoadInActiveTab
                    },
                }
            }
        },
        FileType::VectorImageFile | FileType::BitmapImageFile => OpenPlan::LoadInActiveTab,
        FileType::XoppFile => OpenPlan::ImportXoppInNewTab,
        FileType::PdfFile => OpenPlan::ImportPdf,
        FileType::Folder => if has_path {
            OpenPlan::SetWorkspaceDir
        } else {
            OpenPlan::NoPath
        },
        FileType::Unsupported => OpenPlan::Unsupported,
    }
}

/// How the bytes of a file are loaded into the engine.
#[derive(Clone, Copy, Debug, PartialEq, Eq, Structural)]
pub enum Loader {
    RnoteBytes,
    VectorImageBytes,
    BitmapImageBytes,
    XoppBytes,
    PdfBytes,
}

/// The loader of each file type; folders and unsupported files have none.
pub open spec fn loader_of(file_type: FileType) -> Option<Loader> {
    match file_type {
        FileType::RnoteFile => Some(Loader::RnoteBytes),
        FileType::VectorImageFile => Some(Loader::VectorImageBytes),
        FileType::BitmapImageFile => Some(Loader::BitmapImageBytes),
        FileType::XoppFile => Some(Loader::XoppBytes),
        FileType::PdfFile => Some(Loader::PdfBytes),
        FileType::Folder | FileType::Unsupported => None,
    }
}

/// The message of the toast shown when loading fails.
pub open spec fn load_failure_text(file_type: FileType) -> Seq<char> {
    match file_type {
        FileType::RnoteFile => "Opening .rnote file failed."@,
        FileType::VectorImageFile => "Opening vector image file failed."@,
        FileType::BitmapImageFile => "Opening bitmap image file failed."@,
        FileType::XoppFile => "Opening Xournal++ file failed."@,
        FileType::PdfFile => "Opening PDF file failed."@,
        FileType::Folder => "Error: Tried opening folder as file"@,
        FileType::Unsupported => "Failed to open file: Unsupported file type."@,
    }
}

/// The loader for a file type: `Err` with the toast message for folders and
/// unsupported files.
pub fn loader_for(file_type: FileType) -> (l: Result<Loader, String>)
    ensures
        match l {
            Ok(loader) => loader_of(file_type) == Some(loader),
            Err(msg) => loader_of(file_type) is None && msg@ == load_failure_text(file_type),
        },
{
    match file_type {
        FileType::RnoteFile => Ok(Loader::RnoteBytes),
        FileType::VectorImageFile => Ok(Loader::VectorImageBytes),
        FileType::BitmapImageFile => Ok(Loader::BitmapImageBytes),
        FileType::XoppFile => Ok(Loader::XoppBytes),
        FileType::PdfFile => Ok(Loader::PdfBytes),
        FileType::Folder => Err(String::from_str("Error: Tried opening folder as file")),
        FileType::Unsupported => Err(String::from_str("Failed to open file: Unsupported file type.")),
    }
}

/// The message of the toast shown when the loader of a file type fails.
pub fn load_failure_message(file_type: FileType) -> (msg: String)
    ensures
        msg@ == load_failure_text(file_type),
{
    match file_type {
        FileType::RnoteFile => String::from_str("Opening .rnote file failed."),
        FileType::VectorImageFile => String::from_str("Opening vector image file failed."),
        FileType::BitmapImageFile => String::from_str("Opening bitmap image file failed."),
        FileType::XoppFile => String::from_str("Opening Xournal++ file failed."),
        FileType::PdfFile => String::from_str("Opening PDF file failed."),
        FileType::Folder => String::from_str("Error: Tried opening folder as file"),
        FileType::Unsupported => String::from_str("Failed to open file: Unsupported file type."),
    }
}

/// The window's title and header for the active document.
#[derive(Clone, Debug)]
pub struct Titles {
    pub window_title: String,
    pub unsaved_indicator_visible: bool,
    /// whether the header title has the `unsaved_changes` css class
    pub unsaved_css_class: bool,
}

/// The titles: the document title, a dash and the application name; the unsaved
/// changes marks follow the document.
pub fn refresh_titles(doc_title: &str, app_name: &str, unsaved_changes: bool) -> (t: Titles)
    ensures
        t.window_title@ == doc_title@ + " - "@ + app_name@,
        t.unsaved_indicator_visible == unsaved_changes,
        t.unsaved_css_class == unsaved_changes,
{
    let mut title = String::from_str(doc_title);
    title.append(" - ");
    title.append(app_name);
    Titles { window_title: title, unsaved_indicator_visible: unsaved_changes, unsaved_css_class: unsaved_changes }
}

/// Whether any tab has unsaved changes.
pub fn tabs_any_unsaved_changes(unsaved: &Vec<bool>) -> (b: bool)
    ensures
        b == exists|i: int| 0 <= i < unsaved.len() && unsaved[i],
{
    let mut i: usize = 0;
    while i < unsaved.len()
        invariant
            i <= unsaved.len(),
            forall|j: int| 0 <= j < i ==> !unsaved[j],
        decreases unsaved.len() - i,
    {
        if unsaved[i] {
            return true;
        }
        i = i + 1;
    }
    false
}

/// The events of the monitor of the canvas's output file.
#[derive(Clone, Copy, Debug, PartialEq, Eq, Structural)]
pub enum FileMonitorEvent {
    Changed,
    Renamed,
    Deleted,
    MovedOut,
    /// any event the canvas does not handle
    Other,
}

/// What the canvas does for an event of its output file.
#[derive(Clone, Copy, Debug, PartialEq, Eq, Structural)]
pub enum FileMonitorAction {
    /// the change was the canvas's own save: the expected write is used up
    OwnWrite,
    /// mark unsaved changes and offer to reload the modified file
    OfferReload,
    /// the file was renamed: it becomes the output file, and without a new file the
    /// document gets unsaved changes
    FollowRename { new_file_missing: bool },
    /// the file is gone: unsaved changes, no output file
    Lost,
    /// nothing to do
    Ignore,
}

/// The action for an event, and whether a write of the canvas's own is still expected
/// afterwards. A handled event that a write was expected for uses the expectation up;
/// an unhandled event leaves it.
pub open spec fn monitor_step(event: FileMonitorEvent, expect_write: bool, from_goutputstream: bool, other_file_present: bool) -> (FileMonitorAction, bool) {
    match event {
        FileMonitorEvent::Changed => if expect_write {
            (FileMonitorAction::OwnWrite, false)
        } else {
            (FileMonitorAction::OfferReload, false)
        },
        FileMonitorEvent::Renamed => if expect_write {
            (FileMonitorAction::OwnWrite, false)
        } else if from_goutputstream {
            (FileMonitorAction::OfferReload, false)
        } else {
            (FileMonitorAction::FollowRename { new_file_missing: !other_file_present }, false)
        },
        FileMonitorEvent::Deleted | FileMonitorEvent::MovedOut => if expect_write {
            (FileMonitorAction::OwnWrite, false)
        } else {
            (FileMonitorAction::Lost, false)
        },
        FileMonitorEvent::Other => (FileMonitorAction::Ignore, expect_write),
    }
}

/// Decides what the canvas does for an event of its output file. `from_goutputstream`
/// tells that a renamed file came from a `.goutputstream-` file, that is, gio replaced
/// the file.
pub fn handle_output_file_event(event: FileMonitorEvent, expect_write: bool, from_goutputstream: bool, other_file_present: bool) -> (r: (FileMonitorAction, bool))
    ensures
        r == monitor_step(event, expect_write, from_goutputstream, other_file_present),
{
    match event {
        FileMonitorEvent::Changed => {
            if expect_write {
                (FileMonitorAction::OwnWrite, false)
            } else {
                (FileMonitorAction::OfferReload, false)
            }
        },
        FileMonitorEvent::Renamed => {
            if expect_write {
                (FileMonitorAction::OwnWrite, false)
            } else if from_goutputstream {
                (FileMonitorAction::OfferReload, false)
            } else {
                (FileMonitorAction::FollowRename { new_file_missing: !other_file_present }, false)
            }
        },
        FileMonitorEvent::Deleted | FileMonitorEvent::MovedOut => {
            if expect_write {
                (FileMonitorAction::OwnWrite, false)
            } else {
                (FileMonitorAction::Lost, false)
            }
        },
        FileMonitorEvent::Other => (FileMonitorAction::Ignore, expect_write),
    }
}

/// A write of the canvas's own hides exactly one handled event from it: after that
/// event no write is expected, and the event after it is handled as it comes.
pub proof fn lemma_own_write_hides_one_event(first: FileMonitorEvent, second: FileMonitorEvent, g1: bool, g2: bool, o1: bool, o2: bool)
    requires
        first != FileMonitorEvent::Other,
    ensures
        monitor_step(first, true, g1, o1) == (FileMonitorAction::OwnWrite, false),
        monitor_step(second, monitor_step(first, true, g1, o1).1, g2, o2) == monitor_step(second, false, g2, o2),
{
}

/// What opening a file from the command line, a drop or the open action does, in the
/// window that asks before it replaces a document.
#[derive(Clone, Copy, Debug, PartialEq, Eq, Structural)]
pub enum DialogOpenAction {
    /// remember the file and ask whether to overwrite the unsaved document
    AskOverwrite,
    /// load the file into the sheet
    Load,
    /// make the folder the primary path of the workspace browser
    SetPrimaryPath,
    /// a folder without a local path: nothing to do
    Nothing,
    /// log that the file type is not supported
    WarnUnsupported,
}

/// The action for a file: rnote and Xournal++ files ask first when the document has
/// unsaved changes and load otherwise; images and PDFs load; folders with a path set
/// the browser's primary path.
pub open spec fn dialog_open_action_for(file_type: FileType, unsaved_changes: bool, has_path: bool) -> DialogOpenAction {
    match file_type {
        FileType::RnoteFile | FileType::XoppFile => if unsaved_changes {
            DialogOpenAction::AskOverwrite
        } else {
            DialogOpenAction::Load
        },
        FileType::VectorImageFile | FileType::BitmapImageFile | FileType::PdfFile => DialogOpenAction::Load,
        FileType::Folder => if has_path { DialogOpenAction::SetPrimaryPath } else { DialogOpenAction::Nothing },
        FileType::Unsupported => DialogOpenAction::WarnUnsupported,
    }
}

/// Chooses what opening a file does.
pub fn open_file_w_dialogs(file_type: FileType, unsaved_changes: bool, has_path: bool) -> (a: DialogOpenAction)
    ensures
        a == dialog_open_action_for(file_type, unsaved_changes, has_path),
{
    match file_type {
        FileType::RnoteFile | FileType::XoppFile => {
            if unsaved_changes {
                DialogOpenAction::AskOverwrite
            } else {
                DialogOpenAction::Load
            }
        },
        FileType::VectorImageFile | FileType::BitmapImageFile | FileType::PdfFile => DialogOpenAction::Load,
        FileType::Folder => if has_path {
            DialogOpenAction::SetPrimaryPath
        } else {
            DialogOpenAction::Nothing
        },
        FileType::Unsupported => DialogOpenAction::WarnUnsupported,
    }
}

/// The margin the window's reported size exceeds the size it is given by.
pub const WINDOW_SIZE_MARGIN: i32 = 122;

/// The window size stored in the settings.
#[derive(Clone, Copy, Debug, PartialEq, Eq, Structural)]
pub struct WindowSizeSetting {
    pub width: i32,
    pub height: i32,
    pub is_maximized: bool,
}

/// The size to store for a window of the given size: the margin is taken off both
/// sides, so that the window does not grow each time it is restored.
pub fn save_window_size(width: i32, height: i32, is_maximized: bool) -> (s: WindowSizeSetting)
    requires
        width >= i32::MIN + WINDOW_SIZE_MARGIN,
        height >= i32::MIN + WINDOW_SIZE_MARGIN,
    ensures
        s.width == width - WINDOW_SIZE_MARGIN,
        s.height == height - WINDOW_SIZE_MARGIN,
        s.is_maximized == is_maximized,
{
    WindowSizeSetting { width: width - WINDOW_SIZE_MARGIN, height: height - WINDOW_SIZE_MARGIN, is_maximized }
}

/// The index of the first tab whose output file is the file being opened. `same_file`
/// holds, per tab, whether the tab has an output file that is the same file.
pub fn tabs_query_file_opened(same_file: &Vec<bool>) -> (tab: Option<usize>)
    ensures
        match tab {
            Some(i) => i < same_file.len() && same_file[i as int] && forall|j: int| 0 <= j < i ==> !same_file[j],
            None => forall|j: int| 0 <= j < same_file.len() ==> !same_file[j],
        },
{
    let mut i: usize = 0;
    while i < same_file.len()
        invariant
            i <= same_file.len(),
            forall|j: int| 0 <= j < i ==> !same_file[j],
        decreases same_file.len() - i,
    {
        if same_file[i] {
            return Some(i);
        }
        i = i + 1;
    }
    None
}

/// The indices of the tabs that are not selected, whose rendering is cleared, in order.
/// `selected` holds, per tab, whether it is the selected one.
pub fn clear_rendering_inactive_tabs(selected: &Vec<bool>) -> (inactive: Vec<usize>)
    ensures
        inactive@.map_values(|i: usize| i as int) == Seq::new(selected.len() as nat, |i: int| i).filter(|i: int| !selected[i]),
{
    let ghost all = Seq::new(selected.len() as nat, |i: int| i);
    let mut inactive: Vec<usize> = Vec::new();
    let mut i: usize = 0;
    while i < selected.len()
        invariant
            i <= selected.len(),
            all == Seq::new(selected.len() as nat, |i: int| i),
            inactive@.map_values(|i: usize| i as int) == all.subrange(0, i as int).filter(|i: int| !selected[i]),
        decreases selected.len() - i,
    {
        let ghost prev = inactive@;
        proof {
            assert(all.subrange(0, i + 1).drop_last() == all.subrange(0, i as int));
            assert(all.subrange(0, i + 1).last() == i as int);
        }
        if !selected[i] {
            inactive.push(i);
            assert(inactive@.map_values(|i: usize| i as int) == prev.map_values(|i: usize| i as int).push(i as int));
        }
        proof {
            reveal(Seq::filter);
        }
        i = i + 1;
    }
    proof {
        assert(all.subrange(0, selected.len() as int) == all);
    }
    inactive
}

/// The keyboard accelerators of the window's actions: each detailed action name with
/// its accelerator.
pub open spec fn action_accel_table() -> Seq<(Seq<char>, Seq<char>)> {
    seq![
        ("win.close-active"@, "<Ctrl>w"@),
        ("win.fullscreen"@, "F11"@),
        ("win.keyboard-shortcuts"@, "<Ctrl>question"@),
        ("win.open-canvasmenu"@, "F9"@),
        ("win.open-appmenu"@, "F10"@),
        ("win.new-doc"@, "<Ctrl>n"@),
        ("win.open-doc"@, "<Ctrl>o"@),
        ("win.save-doc"@, "<Ctrl>s"@),
        ("win.save-doc-as"@, "<Ctrl><Shift>s"@),
        ("win.clear-doc"@, "<Ctrl>l"@),
        ("win.print-doc"@, "<Ctrl>p"@),
        ("win.zoom-in"@, "<Ctrl>plus"@),
        ("win.zoom-out"@, "<Ctrl>minus"@),
        ("win.import-file"@, "<Ctrl>i"@),
        ("win.undo"@, "<Ctrl>z"@),
        ("win.redo"@, "<Ctrl><Shift>z"@),
        ("win.clipboard-copy"@, "<Ctrl>c"@),
        ("win.clipboard-cut"@, "<Ctrl>x"@),
        ("win.clipboard-paste"@, "<Ctrl>v"@),
        ("win.pen-style::brush"@, "<Ctrl>1"@),
        ("win.pen-style::shaper"@, "<Ctrl>2"@),
        ("win.pen-style::typewriter"@, "<Ctrl>3"@),
        ("win.pen-style::eraser"@, "<Ctrl>4"@),
        ("win.pen-style::selector"@, "<Ctrl>5"@),
        ("win.pen-style::tools"@, "<Ctrl>6"@),
    ]
}

/// The accelerator development builds add: visual debugging.
pub open spec fn devel_accel() -> (Seq<char>, Seq<char>) {
    ("win.visual-debug"@, "<Ctrl><Shift>v"@)
}

/// The accelerators to set, with the visual debugging one in development builds.
pub open spec fn accels_for(devel: bool) -> Seq<(Seq<char>, Seq<char>)> {
    if devel {
        action_accel_table().push(devel_accel())
    } else {
        action_accel_table()
    }
}

/// The accelerators the window sets for its actions.
pub fn action_accels(devel: bool) -> (t: Vec<(&'static str, &'static str)>)
    ensures
        t.len() == accels_for(devel).len(),
        forall|i: int| 0 <= i < t.len() ==> ((#[trigger] t[i]).0@, t[i].1@) == accels_for(devel)[i],
{
    let mut t = vec![
        ("win.close-active", "<Ctrl>w"),
        ("win.fullscreen", "F11"),
        ("win.keyboard-shortcuts", "<Ctrl>question"),
        ("win.open-canvasmenu", "F9"),
        ("win.open-appmenu", "F10"),
        ("win.new-doc", "<Ctrl>n"),
        ("win.open-doc", "<Ctrl>o"),
        ("win.save-doc", "<Ctrl>s"),
        ("win.save-doc-as", "<Ctrl><Shift>s"),
        ("win.clear-doc", "<Ctrl>l"),
        ("win.print-doc", "<Ctrl>p"),
        ("win.zoom-in", "<Ctrl>plus"),
        ("win.zoom-out", "<Ctrl>minus"),
        ("win.import-file", "<Ctrl>i"),
        ("win.undo", "<Ctrl>z"),
        ("win.redo", "<Ctrl><Shift>z"),
        ("win.clipboard-copy", "<Ctrl>c"),
        ("win.clipboard-cut", "<Ctrl>x"),
        ("win.clipboard-paste", "<Ctrl>v"),
        ("win.pen-style::brush", "<Ctrl>1"),
        ("win.pen-style::shaper", "<Ctrl>2"),
        ("win.pen-style::typewriter", "<Ctrl>3"),
        ("win.pen-style::eraser", "<Ctrl>4"),
        ("win.pen-style::selector", "<Ctrl>5"),
        ("win.pen-style::tools", "<Ctrl>6"),
    ];
    if devel {
        t.push(("win.visual-debug", "<Ctrl><Shift>v"));
    }
    t
}

/// The title shown for a document without an output file.
pub open spec fn new_document_title() -> Seq<char> {
    "New Document"@
}

/// The title shown when the output file's path has no file name.
pub open spec fn invalid_file_name_title() -> Seq<char> {
    "- invalid file name -"@
}

/// The folder shown for a document without an output file.
pub open spec fn draft_folder_text() -> Seq<char> {
    "Draft"@
}

/// The folder shown when the output file's path has no parent.
pub open spec fn invalid_folder_text() -> Seq<char> {
    "- invalid folder path -"@
}

/// The title of a document (before localization): the file stem of its output file,
/// or the new document title when it has none.
pub fn doc_title_display(output_path: Option<&str>) -> (title: String)
    ensures
        title@ == match output_path {
            None => new_document_title(),
            Some(p) => match file_name_of(p@) {
                Some(n) => stem_of_name(n),
                None => invalid_file_name_title(),
            },
        },
{
    match output_path {
        None => String::from_str("New Document"),
        Some(p) => match path_file_stem(p) {
            Some(stem) => stem,
            None => String::from_str("- invalid file name -"),
        },
    }
}

/// The folder of a document for display (before localization): the parent of its
/// output file, or the draft text when it has none.
pub fn doc_folderpath_display(output_path: Option<&str>) -> (folder: String)
    ensures
        folder@ == match output_path {
            None => draft_folder_text(),
            Some(p) => match parent_of(p@) {
                Some(parent) => parent,
                None => invalid_folder_text(),
            },
        },
{
    match output_path {
        None => String::from_str("Draft"),
        Some(p) => match path_parent(p) {
            Some(parent) => parent,
            None => String::from_str("- invalid folder path -"),
        },
    }
}

/// The margin the flap keeps to the width of the main header when it is dragged wider.
pub const FLAP_WIDTH_MARGIN: i32 = 64;

/// What a drag of the flap's resizer does.
#[derive(Clone, Copy, Debug, PartialEq, Eq, Structural)]
pub struct FlapDrag {
    /// the folded state remembered for the next update of the drag
    pub prev_folded: bool,
    /// the new width request of the flap, when it changes
    pub width_request: Option<i32>,
    /// whether the flap's reveal toggle is switched on
    pub reveal_toggle: bool,
}

/// The flap's new width for a drag by `delta` pixels (the horizontal drag offset,
/// rounded up for a flap at the start and down for a flap at the end): a flap at the
/// start grows with the offset, a flap at the end shrinks with it.
pub open spec fn dragged_flap_width(at_start: bool, flap_width: i32, delta: i32) -> int {
    if at_start { flap_width + delta } else { flap_width - delta }
}

/// One update of a drag of the flap's resizer. While the flap stays folded or unfolded
/// as it was, its width follows the drag, within zero and the header's width less the
/// margin; when it has just become folded, its reveal toggle is switched on instead.
pub fn flap_drag_update(folded: bool, prev_folded: bool, at_start: bool, flap_width: i32, delta: i32, header_width: i32) -> (d: FlapDrag)
    requires
        i32::MIN <= dragged_flap_width(at_start, flap_width, delta) <= i32::MAX,
        header_width >= i32::MIN + FLAP_WIDTH_MARGIN,
    ensures
        d.prev_folded == if folded == prev_folded { folded } else { prev_folded },
        d.reveal_toggle == (folded != prev_folded && folded),
        d.width_request == (if folded == prev_folded && 0 < dragged_flap_width(at_start, flap_width, delta) < header_width - FLAP_WIDTH_MARGIN {
            Some(dragged_flap_width(at_start, flap_width, delta) as i32)
        } else {
            None
        }),
{
    if folded == prev_folded {
        let new_width = if at_start { flap_width + delta } else { flap_width - delta };
        let width_request = if new_width > 0 && new_width < header_width - FLAP_WIDTH_MARGIN {
            Some(new_width)
        } else {
            None
        };
        FlapDrag { prev_folded: folded, width_request, reveal_toggle: false }
    } else {
        FlapDrag { prev_folded, width_request: None, reveal_toggle: folded }
    }
}

/// Opening an image file, vector or bitmap, loads it into the active tab, whatever the
/// path, the tabs and the new-tab setting; a Xournal++ file is imported in a new tab, a
/// PDF through its import dialog, a folder with a path becomes the workspace directory,
/// and an unsupported file is only reported. An rnote file with a path switches to the
/// tab that has it open, else loads in a new tab or the active one as the setting says.
pub proof fn lemma_open_plans(has_path: bool, opened_in_tab: Option<usize>, rnote_file_new_tab: bool, tab: usize)
    ensures
        open_plan_for(FileType::VectorImageFile, has_path, opened_in_tab, rnote_file_new_tab) == OpenPlan::LoadInActiveTab,
        open_plan_for(FileType::BitmapImageFile, has_path, opened_in_tab, rnote_file_new_tab) == OpenPlan::LoadInActiveTab,
        open_plan_for(FileType::XoppFile, has_path, opened_in_tab, rnote_file_new_tab) == OpenPlan::ImportXoppInNewTab,
        open_plan_for(FileType::PdfFile, has_path, opened_in_tab, rnote_file_new_tab) == OpenPlan::ImportPdf,
        open_plan_for(FileType::Folder, true, opened_in_tab, rnote_file_new_tab) == OpenPlan::SetWorkspaceDir,
        open_plan_for(FileType::Folder, false, opened_in_tab, rnote_file_new_tab) == OpenPlan::NoPath,
        open_plan_for(FileType::Unsupported, has_path, opened_in_tab, rnote_file_new_tab) == OpenPlan::Unsupported,
        open_plan_for(FileType::RnoteFile, false, opened_in_tab, rnote_file_new_tab) == OpenPlan::NoPath,
        open_plan_for(FileType::RnoteFile, true, Some(tab), rnote_file_new_tab) == OpenPlan::SwitchToTab(tab),
        open_plan_for(FileType::RnoteFile, true, None, true) == OpenPlan::LoadInNewTab,
        open_plan_for(FileType::RnoteFile, true, None, false) == OpenPlan::LoadInActiveTab,
{
}

/// Pasting prefers a uri list, then images in the order png, jpeg, jpg, tiff, bmp, then
/// text: whenever the clipboard offers `image/png` and no uri list, the image is pasted
/// as png; an image type is taken only when no earlier one is offered; text is pasted
/// only when neither a uri list nor an image is offered; and with none of these nothing
/// is pasted.
pub proof fn lemma_paste_priorities(mimes: Seq<String>)
    ensures
        (exists|i: int| 0 <= i < mimes.len() && (#[trigger] mimes[i])@ == "text/uri-list"@) ==> paste_action_for(mimes) == PasteAction::UriList,
        (forall|i: int| 0 <= i < mimes.len() ==> (#[trigger] mimes[i])@ != "text/uri-list"@) ==> {
            &&& (exists|i: int| 0 <= i < mimes.len() && (#[trigger] mimes[i])@ == "image/png"@)
                ==> paste_action_for(mimes) == PasteAction::Image(ImageMime::Png)
            &&& (forall|i: int| 0 <= i < mimes.len() ==> (#[trigger] mimes[i])@ != "image/png"@)
                && (exists|i: int| 0 <= i < mimes.len() && (#[trigger] mimes[i])@ == "image/jpeg"@)
                ==> paste_action_for(mimes) == PasteAction::Image(ImageMime::Jpeg)
            &&& (forall|i: int| 0 <= i < mimes.len() ==> (#[trigger] mimes[i])@ != "image/png"@ && mimes[i]@ != "image/jpeg"@)
                && (exists|i: int| 0 <= i < mimes.len() && (#[trigger] mimes[i])@ == "image/jpg"@)
                ==> paste_action_for(mimes) == PasteAction::Image(ImageMime::Jpg)
            &&& (forall|i: int| 0 <= i < mimes.len() ==> (#[trigger] mimes[i])@ != "image/png"@ && mimes[i]@ != "image/jpeg"@ && mimes[i]@ != "image/jpg"@)
                && (exists|i: int| 0 <= i < mimes.len() && (#[trigger] mimes[i])@ == "image/tiff"@)
                ==> paste_action_for(mimes) == PasteAction::Image(ImageMime::Tiff)
            &&& (forall|i: int| 0 <= i < mimes.len() ==> (#[trigger] mimes[i])@ != "image/png"@ && mimes[i]@ != "image/jpeg"@ && mimes[i]@ != "image/jpg"@ && mimes[i]@ != "image/tiff"@)
                && (exists|i: int| 0 <= i < mimes.len() && (#[trigger] mimes[i])@ == "image/bmp"@)
                ==> paste_action_for(mimes) == PasteAction::Image(ImageMime::Bmp)
            &&& (forall|i: int| 0 <= i < mimes.len() ==> (#[trigger] mimes[i])@ != "image/png"@ && mimes[i]@ != "image/jpeg"@ && mimes[i]@ != "image/jpg"@ && mimes[i]@ != "image/tiff"@ && mimes[i]@ != "image/bmp"@)
                ==> {
                    &&& (exists|i: int| 0 <= i < mimes.len() && ((#[trigger] mimes[i])@ == "text/plain"@ || mimes[i]@ == "text/plain;charset=utf-8"@))
                        ==> paste_action_for(mimes) == PasteAction::Text
                    &&& (forall|i: int| 0 <= i < mimes.len() ==> (#[trigger] mimes[i])@ != "text/plain"@ && mimes[i]@ != "text/plain;charset=utf-8"@)
                        ==> paste_action_for(mimes) == PasteAction::Unsupported
                }
        },
{
    if exists|i: int| 0 <= i < mimes.len() && ((#[trigger] mimes[i])@ == "text/plain"@ || mimes[i]@ == "text/plain;charset=utf-8"@) {
        let i = choose|i: int| 0 <= i < mimes.len() && ((#[trigger] mimes[i])@ == "text/plain"@ || mimes[i]@ == "text/plain;charset=utf-8"@);
        if mimes[i]@ == "text/plain"@ {
            assert(offers(mimes, "text/plain"@));
        } else {
            assert(offers(mimes, "text/plain;charset=utf-8"@));
        }
    }
}

/// The canvas's reactions to events of its file when it expects no write of its own: a
/// change offers to reload; a rename by gio's replacing write offers to reload; another
/// rename follows the file, with unsaved changes when no new file is there; a file
/// deleted or moved out is lost; any other event is ignored. None of these leaves a
/// write expected, but an ignored event keeps an expected write.
pub proof fn lemma_file_events_without_own_write(g: bool, o: bool, expect: bool)
    ensures
        monitor_step(FileMonitorEvent::Changed, false, g, o) == (FileMonitorAction::OfferReload, false),
        monitor_step(FileMonitorEvent::Renamed, false, true, o) == (FileMonitorAction::OfferReload, false),
        monitor_step(FileMonitorEvent::Renamed, false, false, o) == (FileMonitorAction::FollowRename { new_file_missing: !o }, false),
        monitor_step(FileMonitorEvent::Deleted, false, g, o) == (FileMonitorAction::Lost, false),
        monitor_step(FileMonitorEvent::MovedOut, false, g, o) == (FileMonitorAction::Lost, false),
        monitor_step(FileMonitorEvent::Other, expect, g, o) == (FileMonitorAction::Ignore, expect),
        monitor_step(FileMonitorEvent::Changed, true, g, o) == (FileMonitorAction::OwnWrite, false),
        monitor_step(FileMonitorEvent::Renamed, true, g, o) == (FileMonitorAction::OwnWrite, false),
        monitor_step(FileMonitorEvent::Deleted, true, g, o) == (FileMonitorAction::OwnWrite, false),
        monitor_step(FileMonitorEvent::MovedOut, true, g, o) == (FileMonitorAction::OwnWrite, false),
{
}

/// Rnote and Xournal++ files ask before they replace a document with unsaved changes and
/// load otherwise; images and PDFs load; a folder with a path becomes the browser's
/// primary path and one without does nothing; unsupported files are reported. Every
/// file type but folders and unsupported files has a loader of its own kind.
pub proof fn lemma_dialog_open_actions(unsaved: bool, has_path: bool)
    ensures
        dialog_open_action_for(FileType::RnoteFile, true, has_path) == DialogOpenAction::AskOverwrite,
        dialog_open_action_for(FileType::XoppFile, true, has_path) == DialogOpenAction::AskOverwrite,
        dialog_open_action_for(FileType::RnoteFile, false, has_path) == DialogOpenAction::Load,
        dialog_open_action_for(FileType::XoppFile, false, has_path) == DialogOpenAction::Load,
        dialog_open_action_for(FileType::VectorImageFile, unsaved, has_path) == DialogOpenAction::Load,
        dialog_open_action_for(FileType::BitmapImageFile, unsaved, has_path) == DialogOpenAction::Load,
        dialog_open_action_for(FileType::PdfFile, unsaved, has_path) == DialogOpenAction::Load,
        dialog_open_action_for(FileType::Folder, unsaved, true) == DialogOpenAction::SetPrimaryPath,
        dialog_open_action_for(FileType::Folder, unsaved, false) == DialogOpenAction::Nothing,
        dialog_open_action_for(FileType::Unsupported, unsaved, has_path) == DialogOpenAction::WarnUnsupported,
        loader_of(FileType::RnoteFile) == Some(Loader::RnoteBytes),
        loader_of(FileType::VectorImageFile) == Some(Loader::VectorImageBytes),
        loader_of(FileType::BitmapImageFile) == Some(Loader::BitmapImageBytes),
        loader_of(FileType::XoppFile) == Some(Loader::XoppBytes),
        loader_of(FileType::PdfFile) == Some(Loader::PdfBytes),
        loader_of(FileType::Folder) is None && loader_of(FileType::Unsupported) is None,
{
}

/// The `doc-layout` action's targets name the layouts `fixed-size`, `continuous-vertical`
/// and `infinite`, and the colour schemes are stored as `default`, `force-light` and
/// `force-dark`; only the fixed-size layout reveals its quick actions.
pub proof fn lemma_setting_names()
    ensures
        layout_nick(DocLayout::FixedSize) == "fixed-size"@,
        layout_nick(DocLayout::ContinuousVertical) == "continuous-vertical"@,
        layout_nick(DocLayout::Infinite) == "infinite"@,
        color_scheme_str(ColorScheme::Default) == "default"@,
        color_scheme_str(ColorScheme::ForceLight) == "force-light"@,
        color_scheme_str(ColorScheme::ForceDark) == "force-dark"@,
{
}

} // verus!
