use rnote::paths::{path_extension, rename_entry_text};
use rnote::recovery::find_metadata;

#[test]
fn extensions_follow_the_last_dot() {
    assert_eq!(path_extension("/data/doc.rnote"), Some("rnote".to_string()));
    assert_eq!(path_extension("/data/archive.tar.gz"), Some("gz".to_string()));
    assert_eq!(path_extension("/data/trailing."), Some(String::new()));
    assert_eq!(path_extension("/data/.hidden"), None);
    assert_eq!(path_extension("/data/.hidden.json"), Some("json".to_string()));
    assert_eq!(path_extension("/data/noext"), None);
    assert_eq!(path_extension("/"), None);
    assert_eq!(path_extension("/data/dir.d/file"), None);
}

#[test]
fn rename_entry_starts_with_the_file_name() {
    assert_eq!(rename_entry_text("/home/user/notes/sheet.rnote"), "sheet.rnote");
    assert_eq!(rename_entry_text("/"), "");
}

#[test]
fn recovery_metadata_files_are_the_json_ones() {
    let entries: Vec<String> = vec![
        "/rec/a.json".to_string(),
        "/rec/a.rnote".to_string(),
        "/rec/.json".to_string(),
        "/rec/b.JSON".to_string(),
        "/rec/c.json".to_string(),
    ];
    assert_eq!(find_metadata(&entries), vec!["/rec/a.json".to_string(), "/rec/c.json".to_string()]);
    assert!(find_metadata(&Vec::new()).is_empty());
}

#[test]
fn file_stems_drop_the_extension() {
    use_stem("/data/doc.rnote", Some("doc"));
    use_stem("/data/archive.tar.gz", Some("archive.tar"));
    use_stem("/data/.hidden", Some(".hidden"));
    use_stem("/data/noext", Some("noext"));
    use_stem("/", None);
}

fn use_stem(path: &str, expected: Option<&str>) {
    assert_eq!(rnote::paths::path_file_stem(path), expected.map(|s| s.to_string()));
}

#[test]
fn document_titles_and_folders() {
    use_title(None, "New Document");
    use_title(Some("/home/user/notes/lecture.rnote"), "lecture");
    use_title(Some("/"), "- invalid file name -");
    assert_eq!(rnote::window::doc_folderpath_display(None), "Draft");
    assert_eq!(rnote::window::doc_folderpath_display(Some("/home/user/notes/lecture.rnote")), "/home/user/notes");
    assert_eq!(rnote::window::doc_folderpath_display(Some("/")), "- invalid folder path -");
}

fn use_title(path: Option<&str>, expected: &str) {
    assert_eq!(rnote::window::doc_title_display(path), expected);
}
