use seeker::file::{File, Level};
use seeker::session::{join_path, trimmed_chars, DialogSession, FileDialogAction, NewFolderAction};
use seeker::states::{SeekerFileDialogFnState, SeekerNewFolderState, SeekerState};
use seeker::textbuf::KeyPress;

fn entry(path: &str, name: &str, is_dir: bool, level: usize) -> File {
    File {
        path: path.to_string(),
        filename: name.to_string(),
        is_dir,
        root_entity: 1,
        level: Level::new(level),
    }
}

fn type_text(s: &mut DialogSession, text: &str) {
    for c in text.chars() {
        s.new_folder_key(&KeyPress::Text(c.to_string()));
    }
}

#[test]
fn opening_dialog_hides_host_and_resets_selection() {
    let mut s = DialogSession::new();
    assert_eq!(s.host_mode, SeekerState::Home);
    s.open_dialog(vec![entry("/home/u/x", "x", true, 1)]);
    assert_eq!(s.dialog_state, SeekerFileDialogFnState::Open);
    assert!(!s.host_window_visible);
    assert!(s.dialog_window_visible);
    assert_eq!(s.columns.columns.len(), 1);
    assert!(s.current_file.file.is_none());
}

#[test]
fn create_folder_targets_exactly_the_selected_directory() {
    let mut s = DialogSession::new();
    s.open_dialog(vec![entry("/tmp/x", "x", true, 1)]);
    s.click_row(entry("/tmp/x", "x", true, 1), Vec::new());
    s.dialog_action(FileDialogAction::NewFolder);
    assert_eq!(s.new_folder_state, SeekerNewFolderState::Open);
    assert!(!s.dialog_window_visible);

    type_text(&mut s, "test");
    let target = s.new_folder_action(NewFolderAction::Create);
    assert_eq!(target.as_deref(), Some("/tmp/x/test"));
    assert_eq!(s.new_folder_state, SeekerNewFolderState::Closed);
    assert!(s.dialog_window_visible);
    // The selection is unchanged by the sub-dialog.
    assert_eq!(s.current_file.file.as_ref().unwrap().path, "/tmp/x");
}

#[test]
fn create_folder_trims_the_entered_name() {
    let mut s = DialogSession::new();
    s.open_dialog(vec![entry("/tmp/x", "x", true, 1)]);
    s.click_row(entry("/tmp/x", "x", true, 1), Vec::new());
    s.dialog_action(FileDialogAction::NewFolder);
    type_text(&mut s, "  test ");
    let target = s.new_folder_action(NewFolderAction::Create);
    assert_eq!(target.as_deref(), Some("/tmp/x/test"));
}

#[test]
fn create_with_file_selection_or_empty_name_does_nothing() {
    let mut s = DialogSession::new();
    s.open_dialog(vec![entry("/tmp/a.txt", "a.txt", false, 1)]);
    s.click_row(entry("/tmp/a.txt", "a.txt", false, 1), Vec::new());
    s.dialog_action(FileDialogAction::NewFolder);
    type_text(&mut s, "test");
    assert!(s.new_folder_action(NewFolderAction::Create).is_none());

    s.dialog_action(FileDialogAction::NewFolder);
    type_text(&mut s, "   ");
    assert!(s.new_folder_action(NewFolderAction::Create).is_none());
}

#[test]
fn cancel_new_folder_restores_dialog_without_side_effect() {
    let mut s = DialogSession::new();
    s.open_dialog(vec![entry("/tmp/x", "x", true, 1)]);
    s.click_row(entry("/tmp/x", "x", true, 1), Vec::new());
    s.dialog_action(FileDialogAction::NewFolder);
    type_text(&mut s, "name");
    assert!(s.new_folder_action(NewFolderAction::Cancel).is_none());
    assert_eq!(s.new_folder_state, SeekerNewFolderState::Closed);
    assert!(s.dialog_window_visible);
}

#[test]
fn open_commit_advances_host_to_edit_and_tears_down() {
    let mut s = DialogSession::new();
    s.open_dialog(vec![entry("/tmp/x", "x", true, 1)]);
    s.dialog_action(FileDialogAction::Open);
    assert_eq!(s.host_mode, SeekerState::Edit);
    assert_eq!(s.dialog_state, SeekerFileDialogFnState::Closed);
    assert!(s.host_window_visible);
    assert!(!s.dialog_window_visible);
    assert_eq!(s.columns.columns.len(), 0);
}

#[test]
fn cancel_dialog_keeps_host_mode() {
    let mut s = DialogSession::new();
    s.open_dialog(vec![entry("/tmp/x", "x", true, 1)]);
    s.dialog_action(FileDialogAction::Cancel);
    assert_eq!(s.host_mode, SeekerState::Home);
    assert_eq!(s.dialog_state, SeekerFileDialogFnState::Closed);
    assert_eq!(s.columns.columns.len(), 0);
}

#[test]
fn click_sequence_keeps_one_column_per_depth() {
    let mut s = DialogSession::new();
    s.open_dialog(vec![entry("/r/a", "a", true, 1), entry("/r/b", "b", true, 1)]);
    s.click_row(entry("/r/a", "a", true, 1), vec![entry("/r/a/c", "c", true, 2)]);
    s.click_row(entry("/r/a/c", "c", true, 2), Vec::new());
    assert_eq!(s.columns.columns.len(), 3);
    s.click_row(entry("/r/b", "b", true, 1), Vec::new());
    assert_eq!(s.columns.columns.len(), 2);
    for (i, col) in s.columns.columns.iter().enumerate() {
        assert_eq!(col.level.level, i + 1);
    }
    assert_eq!(s.current_file.file.as_ref().unwrap().filename, "b");
}

#[test]
fn clicking_in_sub_dialog_toggles_ime() {
    let mut s = DialogSession::new();
    s.open_dialog(vec![entry("/tmp/x", "x", true, 1)]);
    s.dialog_action(FileDialogAction::NewFolder);
    assert!(!s.ime_enabled);
    s.toggle_ime();
    assert!(s.ime_enabled);
    s.toggle_ime();
    assert!(!s.ime_enabled);
}

#[test]
fn join_path_handles_separators_and_absolute_names() {
    let name: Vec<char> = "test".chars().collect();
    assert_eq!(join_path("/tmp/x", &name), "/tmp/x/test");
    assert_eq!(join_path("/tmp/x/", &name), "/tmp/x/test");
    let abs: Vec<char> = "/etc".chars().collect();
    assert_eq!(join_path("/tmp/x", &abs), "/etc");
}

#[test]
fn trimmed_chars_strips_surrounding_whitespace() {
    let v: Vec<char> = " \t new folder \n".chars().collect();
    let t: String = trimmed_chars(&v).into_iter().collect();
    assert_eq!(t, "new folder");
    let empty: Vec<char> = "   ".chars().collect();
    assert_eq!(trimmed_chars(&empty).len(), 0);
}
