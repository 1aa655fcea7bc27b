use datatest_stable::EmbeddedFile;
use datatest_stable::FixtureSource;
use datatest_stable::source::include_directory_entry;
use datatest_stable::source::is_hidden_path;

fn tree(files: Vec<(&str, &[u8])>) -> FixtureSource {
    FixtureSource::EmbeddedTree {
        root: "fixtures".to_string(),
        files: files
            .into_iter()
            .map(|(path, contents)| EmbeddedFile {
                path: path.to_string(),
                contents: contents.to_vec(),
            })
            .collect(),
    }
}

#[test]
fn hidden_files_are_excluded() {
    let source = tree(vec![
        ("visible.txt", b"v" as &[u8]),
        (".hidden.txt", b"h" as &[u8]),
    ]);
    assert_eq!(source.enumerate_embedded(), vec!["visible.txt".to_string()]);
}

#[test]
fn hidden_check_looks_at_the_file_name_only() {
    assert!(is_hidden_path(".hidden.txt"));
    assert!(is_hidden_path("dir/.hidden.txt"));
    assert!(!is_hidden_path("visible.txt"));
    // a hidden directory does not hide the files below it
    assert!(!is_hidden_path(".hidden/visible.txt"));
}

#[test]
fn directory_entries_are_filtered_like_embedded_ones() {
    assert!(include_directory_entry(true, "visible.txt"));
    assert!(!include_directory_entry(true, ".hidden.txt"));
    assert!(!include_directory_entry(false, "some_dir"));
    // a hidden directory is not yielded itself, but the walk descends into it
    assert!(!include_directory_entry(false, ".hidden_dir"));
}

#[test]
fn embedded_contents_finds_exact_paths() {
    let source = tree(vec![
        ("a.txt", b"alpha" as &[u8]),
        ("dir/b.txt", b"beta" as &[u8]),
    ]);
    assert_eq!(source.embedded_contents("a.txt").map(|c| c.as_slice()), Some(b"alpha" as &[u8]));
    assert_eq!(source.embedded_contents("dir/b.txt").map(|c| c.as_slice()), Some(b"beta" as &[u8]));
    assert_eq!(source.embedded_contents("missing.txt"), None);
    assert_eq!(source.embedded_contents("a"), None);
}
