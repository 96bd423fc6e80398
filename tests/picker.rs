use rest_snapview::dialog::{DialogFocus, DirEntry, DownloadDialog};

fn dir(name: &str) -> DirEntry {
    DirEntry { name: name.to_string(), is_dir: true }
}

fn file(name: &str) -> DirEntry {
    DirEntry { name: name.to_string(), is_dir: false }
}

fn names(d: &DownloadDialog) -> Vec<String> {
    d.entries.iter().map(|e| e.name.clone()).collect()
}

#[test]
fn new_picker_starts_on_the_path_with_a_stale_listing() {
    let d = DownloadDialog::new("/home/notes.txt".to_string(), "/tmp", None);
    assert_eq!(d.source_path, "/home/notes.txt");
    assert_eq!(d.input_text, "/tmp");
    assert_eq!(d.cursor_pos, 4);
    assert!(d.entries.is_empty());
    assert_eq!(d.focus, DialogFocus::PathPicker);
    assert!(d.needs_refresh);
}

#[test]
fn focus_cycles_over_three_controls() {
    let mut d = DownloadDialog::new("/a".to_string(), "/", None);
    d.focus_next();
    assert_eq!(d.focus, DialogFocus::DownloadButton);
    d.focus_next();
    assert_eq!(d.focus, DialogFocus::CancelButton);
    d.focus_next();
    assert_eq!(d.focus, DialogFocus::PathPicker);
    d.focus_prev();
    assert_eq!(d.focus, DialogFocus::CancelButton);
    d.focus_prev();
    assert_eq!(d.focus, DialogFocus::DownloadButton);
}

#[test]
fn editing_the_path_text() {
    let mut d = DownloadDialog::new("/a".to_string(), "/tp", None);
    d.refresh_entries(false, None);
    assert!(!d.needs_refresh);
    d.cursor_left();
    d.insert_char('m');
    assert_eq!(d.input_text, "/tmp");
    assert_eq!(d.cursor_pos, 3);
    assert!(d.needs_refresh);
    d.cursor_home();
    d.cursor_left();
    assert_eq!(d.cursor_pos, 0);
    d.delete();
    assert_eq!(d.input_text, "tmp");
    d.cursor_end();
    assert_eq!(d.cursor_pos, 3);
    d.cursor_right();
    assert_eq!(d.cursor_pos, 3);
    d.delete();
    assert_eq!(d.input_text, "tmp");
    d.backspace();
    assert_eq!(d.input_text, "tm");
    d.cursor_home();
    d.backspace();
    assert_eq!(d.input_text, "tm");
}

#[test]
fn editing_counts_characters_not_bytes() {
    let mut d = DownloadDialog::new("/a".to_string(), "/é", None);
    assert_eq!(d.cursor_pos, 2);
    d.insert_char('ü');
    assert_eq!(d.input_text, "/éü");
    d.cursor_left();
    d.backspace();
    assert_eq!(d.input_text, "/ü");
}

#[test]
fn tilde_expands_for_resolution_only() {
    let d = DownloadDialog::new("/a".to_string(), "~/dl", Some("/home/me".to_string()));
    assert_eq!(d.expanded_input(), "/home/me/dl");
    assert_eq!(d.input_text, "~/dl");
    let d = DownloadDialog::new("/a".to_string(), "~", Some("/home/me".to_string()));
    assert_eq!(d.expanded_input(), "/home/me");
    let d = DownloadDialog::new("/a".to_string(), "~x", Some("/home/me".to_string()));
    assert_eq!(d.expanded_input(), "~x");
    let d = DownloadDialog::new("/a".to_string(), "~/dl", None);
    assert_eq!(d.expanded_input(), "~/dl");
}

#[test]
fn listing_shows_visible_directories_by_lowercase_name() {
    let mut d = DownloadDialog::new("/a".to_string(), "/home/me", None);
    d.selected = 2;
    d.scroll = 1;
    let raw = vec![dir("src"), file("notes.txt"), dir(".cache"), dir("Music"), dir("bin")];
    d.refresh_entries(true, Some(raw));
    assert_eq!(names(&d), vec!["..", "bin", "Music", "src"]);
    assert!(d.entries.iter().all(|e| e.is_dir));
    assert_eq!(d.selected, 0);
    assert_eq!(d.scroll, 0);
    assert!(d.input_is_dir);
}

#[test]
fn listing_of_the_root_has_no_up_entry() {
    let mut d = DownloadDialog::new("/a".to_string(), "/", None);
    d.refresh_entries(true, Some(vec![dir("usr"), dir("etc")]));
    assert_eq!(names(&d), vec!["etc", "usr"]);
}

#[test]
fn unreadable_directory_shows_only_the_up_entry() {
    let mut d = DownloadDialog::new("/a".to_string(), "/root/secret", None);
    d.refresh_entries(true, None);
    assert_eq!(names(&d), vec![".."]);
}

#[test]
fn partial_path_lists_its_parent_unfiltered() {
    let mut d = DownloadDialog::new("/a".to_string(), "/etc", None);
    d.refresh_entries(true, Some(vec![dir("ssl")]));
    d.cursor_end();
    d.backspace();
    d.backspace();
    assert_eq!(d.input_text, "/e");
    assert_eq!(d.resolve_dir(false), "/");
    let root = vec![dir("bin"), dir("etc"), dir("home"), dir("Elf")];
    d.refresh_entries(false, Some(root));
    assert_eq!(names(&d), vec!["bin", "Elf", "etc", "home"]);
}

#[test]
fn same_text_and_disk_give_same_listing() {
    let raw = || vec![dir("b"), dir("B"), dir("a")];
    let mut d1 = DownloadDialog::new("/a".to_string(), "/x", None);
    let mut d2 = DownloadDialog::new("/b".to_string(), "/x", None);
    d1.refresh_entries(true, Some(raw()));
    d2.refresh_entries(true, Some(raw()));
    assert_eq!(names(&d1), names(&d2));
    assert_eq!(names(&d1), vec!["..", "a", "b", "B"]);
}

#[test]
fn selection_moves_within_the_listing() {
    let mut d = DownloadDialog::new("/a".to_string(), "/", None);
    d.refresh_entries(true, Some(vec![dir("a"), dir("b")]));
    d.select_prev();
    assert_eq!(d.selected, 0);
    d.select_next();
    d.select_next();
    assert_eq!(d.selected, 1);
}

#[test]
fn entering_a_directory_joins_its_name() {
    let mut d = DownloadDialog::new("/a".to_string(), "/home", None);
    d.refresh_entries(true, Some(vec![dir("me")]));
    d.select_next();
    d.enter_selected();
    assert_eq!(d.input_text, "/home/me");
    assert_eq!(d.cursor_pos, 8);
    assert!(d.needs_refresh);
}

#[test]
fn entering_from_a_partial_path_joins_to_its_parent() {
    let mut d = DownloadDialog::new("/a".to_string(), "/ho", None);
    d.refresh_entries(false, Some(vec![dir("home")]));
    d.enter_selected();
    assert_eq!(d.input_text, "/home");
}

#[test]
fn entering_up_goes_to_the_parent() {
    let mut d = DownloadDialog::new("/a".to_string(), "/home/me", None);
    d.refresh_entries(true, Some(vec![]));
    assert_eq!(names(&d), vec![".."]);
    d.enter_selected();
    assert_eq!(d.input_text, "/home");
    d.refresh_entries(true, Some(vec![]));
    d.go_parent();
    assert_eq!(d.input_text, "/");
}

#[test]
fn going_up_from_a_partial_path_skips_two_levels() {
    let mut d = DownloadDialog::new("/a".to_string(), "/home/me/do", None);
    d.refresh_entries(false, None);
    d.go_parent();
    assert_eq!(d.input_text, "/home");
}

#[test]
fn going_up_from_the_root_does_nothing() {
    let mut d = DownloadDialog::new("/a".to_string(), "/", None);
    d.refresh_entries(true, None);
    d.go_parent();
    assert_eq!(d.input_text, "/");
    assert!(!d.needs_refresh);
}

#[test]
fn confirmed_path_is_the_directory_or_its_parent() {
    let mut d = DownloadDialog::new("/a".to_string(), "~/dl", Some("/home/me".to_string()));
    d.refresh_entries(true, None);
    assert_eq!(d.confirmed_path(), "/home/me/dl");
    d.refresh_entries(false, None);
    assert_eq!(d.confirmed_path(), "/home/me");
}

#[test]
fn picker_scroll_follows_selection() {
    let mut d = DownloadDialog::new("/a".to_string(), "/", None);
    d.selected = 7;
    d.adjust_scroll(3);
    assert_eq!(d.scroll, 5);
    d.selected = 2;
    d.adjust_scroll(3);
    assert_eq!(d.scroll, 2);
    d.adjust_scroll(0);
    assert_eq!(d.scroll, 2);
}

fn scrolled_picker(text: &str) -> DownloadDialog {
    let mut d = DownloadDialog::new("/a".to_string(), text, None);
    d.refresh_entries(true, Some(vec![dir("a"), dir("b"), dir("c")]));
    d.selected = 2;
    d.scroll = 1;
    d
}

#[test]
fn every_edit_puts_selection_and_scroll_at_the_top() {
    let mut d = scrolled_picker("/home");
    d.insert_char('x');
    assert_eq!((d.selected, d.scroll), (0, 0));
    let mut d = scrolled_picker("/home");
    d.backspace();
    assert_eq!((d.selected, d.scroll), (0, 0));
    let mut d = scrolled_picker("/home");
    d.cursor_home();
    d.delete();
    assert_eq!((d.selected, d.scroll), (0, 0));
    let mut d = scrolled_picker("/home");
    d.enter_selected();
    assert_eq!(d.input_text, "/home/b");
    assert_eq!((d.selected, d.scroll), (0, 0));
    let mut d = scrolled_picker("/home");
    d.go_parent();
    assert_eq!(d.input_text, "/");
    assert_eq!((d.selected, d.scroll), (0, 0));
}

#[test]
fn cursor_moves_keep_selection_and_scroll() {
    let mut d = scrolled_picker("/home");
    d.cursor_left();
    d.cursor_home();
    d.cursor_end();
    assert_eq!((d.selected, d.scroll), (2, 1));
}
