use keepass_viewer::store::{ends_with_kdbx, find_all_keepass_files, DirEntryInfo, KeePassFile};

fn dir_entry(path: &str, filename: Option<&str>, is_file: bool) -> DirEntryInfo {
    DirEntryInfo {
        path: path.to_string(),
        filename: filename.map(|s| s.to_string()),
        is_file,
    }
}

#[test]
fn suffix_filtering() {
    let listing = vec![
        dir_entry("/db/a.kdbx", Some("a.kdbx"), true),
        dir_entry("/db/b.KDBX", Some("b.KDBX"), true),
        dir_entry("/db/c.txt", Some("c.txt"), true),
        dir_entry("/db/d.kdbx", Some("d.kdbx"), true),
    ];
    let found = find_all_keepass_files(&listing);
    assert_eq!(found.len(), 2);
    assert_eq!(found[0].filename, "a.kdbx");
    assert_eq!(found[0].filepath, "/db/a.kdbx");
    assert_eq!(found[1].filename, "d.kdbx");
    assert_eq!(found[1].filepath, "/db/d.kdbx");
}

#[test]
fn non_files_and_undecodable_names_are_skipped() {
    let listing = vec![
        dir_entry("/db/dir.kdbx", Some("dir.kdbx"), false),
        dir_entry("/db/raw", None, true),
    ];
    let found = find_all_keepass_files(&listing);
    assert_eq!(found.len(), 0);
}

#[test]
fn listing_order_is_kept() {
    let listing = vec![
        dir_entry("/db/z.kdbx", Some("z.kdbx"), true),
        dir_entry("/db/a.kdbx", Some("a.kdbx"), true),
    ];
    let names: Vec<String> = find_all_keepass_files(&listing)
        .into_iter()
        .map(|f| f.filename)
        .collect();
    assert_eq!(names, vec!["z.kdbx".to_string(), "a.kdbx".to_string()]);
}

#[test]
fn suffix_must_match_exactly() {
    assert!(ends_with_kdbx("a.kdbx"));
    assert!(ends_with_kdbx(".kdbx"));
    assert!(ends_with_kdbx("deep.name.kdbx"));
    assert!(!ends_with_kdbx("a.KDBX"));
    assert!(!ends_with_kdbx("kdbx"));
    assert!(!ends_with_kdbx(""));
    assert!(!ends_with_kdbx("a.kdbxy"));
    assert!(!ends_with_kdbx("a.kdb"));
}

#[test]
fn descriptor_binds_path_and_name() {
    let f = KeePassFile::new("/db/a.kdbx".to_string(), "a.kdbx".to_string());
    assert_eq!(f.filepath, "/db/a.kdbx");
    assert_eq!(f.filename, "a.kdbx");
}
