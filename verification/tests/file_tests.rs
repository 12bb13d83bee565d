use seeker::file::{get_files, last_pressed, File, Level, RawEntry};

fn raw(path: &str, name: &str, is_dir: bool) -> RawEntry {
    RawEntry { path: path.to_string(), name: name.to_string(), is_dir }
}

#[test]
fn get_files_excludes_hidden_entries() {
    let listing = vec![
        raw("/home/u/alpha", "alpha", true),
        raw("/home/u/.config", ".config", true),
        raw("/home/u/beta.txt", "beta.txt", false),
        raw("/home/u/.bashrc", ".bashrc", false),
    ];
    let files = get_files(listing, 7, Level::new(1));
    assert_eq!(files.len(), 2);
    assert_eq!(files[0].filename, "alpha");
    assert!(files[0].is_dir);
    assert_eq!(files[0].path, "/home/u/alpha");
    assert_eq!(files[0].root_entity, 7);
    assert_eq!(files[0].level.level, 1);
    assert_eq!(files[1].filename, "beta.txt");
    assert!(!files[1].is_dir);
}

#[test]
fn get_files_keeps_every_visible_entry_once_in_order() {
    let listing = vec![
        raw("/d/one", "one", false),
        raw("/d/two", "two", false),
        raw("/d/three", "three", false),
    ];
    let files = get_files(listing, 1, Level::new(2));
    assert_eq!(files.len(), 3);
    assert_eq!(files[0].filename, "one");
    assert_eq!(files[1].filename, "two");
    assert_eq!(files[2].filename, "three");
    for f in &files {
        assert!(!f.filename.starts_with('.'));
        assert_eq!(f.level.level, 2);
    }
}

#[test]
fn get_files_of_empty_listing_is_empty() {
    let files = get_files(Vec::new(), 1, Level::new(1));
    assert_eq!(files.len(), 0);
}

#[test]
fn last_pressed_takes_the_last_click() {
    let mk = |name: &str| File {
        path: format!("/x/{name}"),
        filename: name.to_string(),
        is_dir: false,
        root_entity: 1,
        level: Level::new(1),
    };
    assert!(last_pressed(Vec::new()).is_none());
    let picked = last_pressed(vec![mk("a"), mk("b"), mk("c")]).unwrap();
    assert_eq!(picked.filename, "c");
}
