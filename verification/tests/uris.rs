use rnote::uris::{clipboard_uri_paths, paste_candidate_paths, text_lines};

#[test]
fn lines_split_as_str_lines_does() {
    assert_eq!(text_lines("a\nb\r\nc"), vec!["a".to_string(), "b".to_string(), "c".to_string()]);
    assert_eq!(text_lines("a\n"), vec!["a".to_string()]);
    assert_eq!(text_lines("a\n\nb"), vec!["a".to_string(), String::new(), "b".to_string()]);
    assert_eq!(text_lines("x\r"), vec!["x\r".to_string()]);
    assert!(text_lines("").is_empty());
    let s = "é\r\n\nü\r\nlast";
    let expected: Vec<String> = s.lines().map(|l| l.to_string()).collect();
    assert_eq!(text_lines(s), expected);
}

#[test]
fn candidates_follow_the_readings() {
    let lines = vec!["file:///a".to_string(), "/plain/path".to_string(), "https://example.com/x".to_string()];
    let parsed = vec![Ok(Some("/a".to_string())), Err(()), Ok(None)];
    assert_eq!(paste_candidate_paths(&lines, &parsed), vec!["/a".to_string(), "/plain/path".to_string()]);
}

#[test]
fn uri_lists_give_local_paths() {
    let text = "file:///home/user/a%20b.rnote\r\n/tmp/plain.png\nfile://otherhost/x\n";
    assert_eq!(
        clipboard_uri_paths(text),
        vec!["/home/user/a b.rnote".to_string(), "/tmp/plain.png".to_string()]
    );
    assert_eq!(clipboard_uri_paths("file://localhost/etc/hosts"), vec!["/etc/hosts".to_string()]);
    assert!(clipboard_uri_paths("").is_empty());
}
