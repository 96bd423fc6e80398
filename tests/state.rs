use rest_snapview::app::{clamp_cursor, App, AppState, Panel};
use rest_snapview::dialog::{DialogFocus, DirEntry};
use rest_snapview::event::{
    classify, is_back, is_download, is_help, is_panel_switch, is_quit, is_select, key_to_movement, Action,
    Command, KeyCode, KeyEvent, Movement,
};
use rest_snapview::file::FileNode;
use rest_snapview::snapshot::Snapshot;

fn key(code: KeyCode) -> KeyEvent {
    KeyEvent { code, ctrl: false, shift: false }
}

fn ctrl(c: char) -> KeyEvent {
    KeyEvent { code: KeyCode::Char(c), ctrl: true, shift: false }
}

fn ch(c: char) -> KeyEvent {
    key(KeyCode::Char(c))
}

fn node(name: &str, kind: &str, path: &str, size: Option<u64>) -> FileNode {
    FileNode {
        name: name.to_string(),
        node_type: kind.to_string(),
        path: path.to_string(),
        size,
    }
}

fn snap(id: &str, secs: i64, root: &str) -> Snapshot {
    Snapshot {
        full_id: id.to_string(),
        short_id: id.to_string(),
        time_secs: secs,
        time_nanos: 0,
        paths: vec![root.to_string()],
        hostname: String::new(),
        username: String::new(),
        tags: Vec::new(),
    }
}

fn shown(app: &App) -> Vec<String> {
    app.visible_files().iter().map(|f| f.display_name()).collect()
}

fn home_entries() -> Vec<FileNode> {
    vec![
        node("docs", "dir", "/home/docs", None),
        node("notes.txt", "file", "/home/notes.txt", Some(512)),
    ]
}

/// An app browsing `/home` of snapshot `def456`.
fn at_home() -> App {
    let mut app = App::new("/tmp".to_string(), Some("/root".to_string()));
    app.set_snapshots(vec![snap("abc123", 1000, "/home"), snap("def456", 2000, "/home")]);
    app.handle_key(key(KeyCode::Enter));
    app.set_files(home_entries());
    app
}

#[test]
fn new_app_is_loading_snapshots() {
    let app = App::new("/work".to_string(), None);
    assert_eq!(app.state, AppState::Loading);
    assert_eq!(app.focused_panel, Panel::Snapshots);
    assert_eq!(app.last_download_dir, "/work");
    assert!(!app.should_quit);
}

#[test]
fn snapshot_selection_lists_its_root() {
    let mut app = App::new("/tmp".to_string(), None);
    app.set_snapshots(vec![snap("abc123", 1000, "/home"), snap("def456", 2000, "/home")]);
    assert_eq!(app.state, AppState::Ready);
    assert_eq!(app.snapshots[0].short_id, "def456");
    assert_eq!(app.snapshots[1].short_id, "abc123");
    let cmd = app.handle_key(key(KeyCode::Enter));
    match cmd {
        Some(Command::LoadSnapshot { snapshot_id, path }) => {
            assert_eq!(snapshot_id, "def456");
            assert_eq!(path, "/home");
        }
        other => panic!("unexpected {:?}", other),
    }
    assert_eq!(app.state, AppState::Loading);
    assert_eq!(app.focused_panel, Panel::Files);
    app.set_files(home_entries());
    assert_eq!(app.state, AppState::Ready);
    assert_eq!(shown(&app), vec!["docs/", "notes.txt"]);
}

#[test]
fn descending_caches_and_back_restores_without_a_command() {
    let mut app = at_home();
    let cmd = app.handle_key(key(KeyCode::Enter));
    match cmd {
        Some(Command::NavigateDir { path }) => assert_eq!(path, "/home/docs"),
        other => panic!("unexpected {:?}", other),
    }
    assert_eq!(app.nav_stack.len(), 1);
    assert_eq!(app.nav_stack[0].path, "/home");
    assert_eq!(app.current_path, "/home/docs");
    app.set_files(vec![node("a.pdf", "file", "/home/docs/a.pdf", Some(10))]);
    assert_eq!(shown(&app), vec!["..", "a.pdf"]);
    app.handle_key(key(KeyCode::Down));
    let cmd = app.handle_key(key(KeyCode::Backspace));
    assert!(cmd.is_none());
    assert_eq!(app.state, AppState::Ready);
    assert_eq!(app.current_path, "/home");
    assert_eq!(shown(&app), vec!["docs/", "notes.txt"]);
    assert_eq!(app.file_cursor, 0);
    assert!(app.nav_stack.is_empty());
}

#[test]
fn back_restores_cursor_and_scroll_of_each_level() {
    let mut app = at_home();
    app.handle_key(key(KeyCode::Down));
    app.file_scroll = 1;
    app.handle_key(key(KeyCode::Up));
    app.handle_key(key(KeyCode::Enter));
    app.set_files(vec![
        node("sub", "dir", "/home/docs/sub", None),
        node("z", "file", "/home/docs/z", None),
    ]);
    app.handle_key(key(KeyCode::Down));
    app.handle_key(key(KeyCode::Enter));
    assert_eq!(app.current_path, "/home/docs/sub");
    app.set_files(Vec::new());
    app.handle_key(key(KeyCode::Left));
    assert_eq!(app.current_path, "/home/docs");
    assert_eq!(app.file_cursor, 1);
    app.handle_key(ch('h'));
    assert_eq!(app.current_path, "/home");
    assert_eq!(app.file_cursor, 0);
    assert_eq!(app.file_scroll, 1);
}

#[test]
fn selecting_the_parent_entry_goes_back() {
    let mut app = at_home();
    app.handle_key(key(KeyCode::Enter));
    app.set_files(vec![node("a.pdf", "file", "/home/docs/a.pdf", Some(10))]);
    assert_eq!(app.files[0].name, "..");
    let cmd = app.handle_key(key(KeyCode::Enter));
    assert!(cmd.is_none());
    assert_eq!(app.current_path, "/home");
}

#[test]
fn back_without_cache_lists_the_parent() {
    let mut app = at_home();
    let cmd = app.handle_key(key(KeyCode::Backspace));
    match cmd {
        Some(Command::NavigateDir { path }) => assert_eq!(path, "/"),
        other => panic!("unexpected {:?}", other),
    }
    assert_eq!(app.state, AppState::Loading);
    app.set_files(vec![node("home", "dir", "/home", None)]);
    assert_eq!(shown(&app), vec!["..", "home/"]);
    assert!(app.handle_key(key(KeyCode::Backspace)).is_none());
    assert_eq!(app.current_path, "/");
}

#[test]
fn back_needs_the_files_panel_and_a_snapshot() {
    let mut app = App::new("/tmp".to_string(), None);
    app.focused_panel = Panel::Files;
    app.state = AppState::Ready;
    assert!(app.go_back().is_none());
    let mut app = at_home();
    app.switch_panel();
    assert!(app.go_back().is_none());
    assert_eq!(app.current_path, "/home");
}

#[test]
fn selecting_a_file_does_nothing() {
    let mut app = at_home();
    app.handle_key(key(KeyCode::Down));
    assert!(app.handle_key(key(KeyCode::Enter)).is_none());
    assert_eq!(app.current_path, "/home");
    assert_eq!(app.state, AppState::Ready);
}

#[test]
fn parent_entry_only_below_the_root() {
    let mut app = at_home();
    assert!(app.files.iter().all(|f| f.name != ".."));
    app.current_path = "/home/docs".to_string();
    app.set_files(Vec::new());
    assert_eq!(app.files.len(), 1);
    assert_eq!(app.files[0].name, "..");
    assert_eq!(app.files[0].path, "/home");
}

#[test]
fn cursor_stays_within_the_list() {
    let mut app = at_home();
    for _ in 0..5 {
        app.handle_key(key(KeyCode::Down));
    }
    assert_eq!(app.file_cursor, 1);
    app.handle_key(ch('g'));
    assert_eq!(app.file_cursor, 0);
    app.handle_key(ch('G'));
    assert_eq!(app.file_cursor, 1);
    app.handle_key(ch('k'));
    app.handle_key(ch('k'));
    assert_eq!(app.file_cursor, 0);
    app.handle_key(key(KeyCode::PageDown));
    assert_eq!(app.file_cursor, 1);
    app.handle_key(ctrl('u'));
    assert_eq!(app.file_cursor, 0);
}

#[test]
fn paging_uses_the_panel_height() {
    let mut app = App::new("/tmp".to_string(), None);
    let list: Vec<Snapshot> = (0..50).map(|i| snap(&format!("s{}", i), i, "/")).collect();
    app.set_snapshots(list);
    app.snapshot_visible_height = 10;
    app.handle_key(ctrl('f'));
    assert_eq!(app.snapshot_cursor, 10);
    app.handle_key(ctrl('d'));
    assert_eq!(app.snapshot_cursor, 15);
    app.handle_key(ctrl('b'));
    assert_eq!(app.snapshot_cursor, 5);
    app.handle_key(key(KeyCode::End));
    assert_eq!(app.snapshot_cursor, 49);
    app.handle_key(key(KeyCode::Home));
    assert_eq!(app.snapshot_cursor, 0);
    app.snapshot_visible_height = 1;
    app.handle_key(ctrl('d'));
    assert_eq!(app.snapshot_cursor, 1);
}

#[test]
fn movement_in_an_empty_panel_keeps_the_cursor() {
    let mut app = App::new("/tmp".to_string(), None);
    app.state = AppState::Ready;
    app.handle_key(key(KeyCode::Down));
    assert_eq!(app.snapshot_cursor, 0);
}

#[test]
fn clamp_cursor_ends_and_bounds() {
    assert_eq!(clamp_cursor(3, i128::MIN, 9), 0);
    assert_eq!(clamp_cursor(3, i128::MAX, 9), 9);
    assert_eq!(clamp_cursor(3, -10, 9), 0);
    assert_eq!(clamp_cursor(3, 4, 9), 7);
    assert_eq!(clamp_cursor(3, 40, 9), 9);
}

#[test]
fn search_filters_case_insensitively_and_clears() {
    let mut app = at_home();
    app.handle_key(ch('/'));
    assert_eq!(app.state, AppState::FileSearch);
    assert_eq!(shown(&app), vec!["docs/", "notes.txt"]);
    app.handle_key(ch('N'));
    app.handle_key(ch('O'));
    assert_eq!(app.search_query, "NO");
    assert_eq!(shown(&app), vec!["notes.txt"]);
    assert_eq!(app.filtered_files, vec![1]);
    app.handle_key(key(KeyCode::Enter));
    assert_eq!(app.state, AppState::Ready);
    assert_eq!(shown(&app), vec!["notes.txt"]);
    app.handle_key(ch('/'));
    assert_eq!(app.search_query, "");
    app.handle_key(ch('z'));
    assert!(shown(&app).is_empty());
    app.handle_key(key(KeyCode::Esc));
    assert_eq!(app.state, AppState::Ready);
    assert_eq!(app.search_query, "");
    assert_eq!(shown(&app), vec!["docs/", "notes.txt"]);
    assert_eq!(app.file_cursor, 0);
    assert_eq!(app.file_scroll, 0);
}

#[test]
fn search_twice_gives_the_same_matches() {
    let mut app = at_home();
    app.search_query = "doc".to_string();
    app.apply_search_filter();
    let once = app.filtered_files.clone();
    app.apply_search_filter();
    assert_eq!(app.filtered_files, once);
    assert_eq!(once, vec![0]);
}

#[test]
fn search_always_keeps_the_parent_entry() {
    let mut app = at_home();
    app.handle_key(key(KeyCode::Enter));
    app.set_files(vec![node("a.pdf", "file", "/home/docs/a.pdf", Some(10))]);
    app.handle_key(ch('/'));
    app.handle_key(ch('z'));
    assert_eq!(shown(&app), vec![".."]);
}

#[test]
fn search_query_editing() {
    let mut app = at_home();
    app.handle_key(ch('/'));
    for c in ['n', 'x', 't'] {
        app.handle_key(ch(c));
    }
    app.handle_key(key(KeyCode::Left));
    app.handle_key(key(KeyCode::Backspace));
    assert_eq!(app.search_query, "nt");
    app.handle_key(key(KeyCode::Home));
    app.handle_key(key(KeyCode::Delete));
    assert_eq!(app.search_query, "t");
    app.handle_key(key(KeyCode::End));
    assert_eq!(app.search_cursor, 1);
    app.handle_key(key(KeyCode::Right));
    assert_eq!(app.search_cursor, 1);
    assert_eq!(shown(&app), vec!["notes.txt"]);
}

#[test]
fn search_needs_entries_and_the_files_panel() {
    let mut app = App::new("/tmp".to_string(), None);
    app.state = AppState::Ready;
    app.focused_panel = Panel::Files;
    app.handle_key(ch('/'));
    assert_eq!(app.state, AppState::Ready);
    let mut app = at_home();
    app.switch_panel();
    app.handle_key(ch('/'));
    assert_eq!(app.state, AppState::Ready);
}

#[test]
fn quit_help_and_error_modes() {
    let mut app = at_home();
    assert!(app.handle_key(ch('?')).is_none());
    assert_eq!(app.state, AppState::Help);
    app.handle_key(key(KeyCode::Down));
    assert_eq!(app.file_cursor, 0);
    assert!(app.handle_key(ch('q')).is_none());
    assert_eq!(app.state, AppState::Ready);
    assert!(!app.should_quit);
    app.set_error("Failed to list files: boom".to_string());
    assert_eq!(app.state, AppState::Error("Failed to list files: boom".to_string()));
    app.handle_key(key(KeyCode::Down));
    assert_eq!(app.state, AppState::Ready);
    assert_eq!(app.file_cursor, 1);
    assert!(matches!(app.handle_key(ch('q')), Some(Command::Quit)));
    assert!(app.should_quit);
}

#[test]
fn input_waits_while_loading() {
    let mut app = at_home();
    app.handle_key(key(KeyCode::Enter));
    assert_eq!(app.state, AppState::Loading);
    assert!(app.handle_key(key(KeyCode::Backspace)).is_none());
    assert_eq!(app.current_path, "/home/docs");
    assert!(matches!(app.handle_key(key(KeyCode::Esc)), Some(Command::Quit)));
}

#[test]
fn tab_switches_panels() {
    let mut app = at_home();
    app.handle_key(key(KeyCode::Tab));
    assert_eq!(app.focused_panel, Panel::Snapshots);
    app.handle_key(key(KeyCode::BackTab));
    assert_eq!(app.focused_panel, Panel::Files);
}

#[test]
fn restore_flow_through_the_picker() {
    let mut app = at_home();
    app.handle_key(key(KeyCode::Down));
    assert!(app.handle_key(ch('d')).is_none());
    assert_eq!(app.state, AppState::DownloadDialog);
    {
        let d = app.download_dialog.as_mut().unwrap();
        assert_eq!(d.source_path, "/home/notes.txt");
        assert_eq!(d.input_text, "/tmp");
        d.refresh_entries(true, Some(vec![DirEntry { name: "out".to_string(), is_dir: true }]));
    }
    app.handle_key(key(KeyCode::Down));
    app.handle_key(key(KeyCode::Enter));
    {
        let d = app.download_dialog.as_mut().unwrap();
        assert_eq!(d.input_text, "/tmp/out");
        d.refresh_entries(true, Some(Vec::new()));
    }
    app.handle_key(key(KeyCode::Tab));
    assert_eq!(app.download_dialog.as_ref().unwrap().focus, DialogFocus::DownloadButton);
    match app.handle_key(key(KeyCode::Enter)) {
        Some(Command::Download { path, target }) => {
            assert_eq!(path, "/home/notes.txt");
            assert_eq!(target, "/tmp/out");
        }
        other => panic!("unexpected {:?}", other),
    }
    assert!(app.download_dialog.is_none());
    assert_eq!(app.state, AppState::Downloading("/home/notes.txt".to_string()));
    assert_eq!(app.last_download_dir, "/tmp/out");
    assert!(app.handle_key(key(KeyCode::Down)).is_none());
    app.download_finished(Ok("/tmp/out".to_string()));
    assert_eq!(app.state, AppState::Ready);
    assert_eq!(app.status_message, Some("Downloaded to: /tmp/out".to_string()));
}

#[test]
fn failed_restore_keeps_the_chosen_directory() {
    let mut app = at_home();
    app.handle_key(ch('d'));
    app.download_dialog.as_mut().unwrap().refresh_entries(true, None);
    app.handle_key(KeyEvent { code: KeyCode::BackTab, ctrl: false, shift: true });
    app.handle_key(KeyEvent { code: KeyCode::Tab, ctrl: false, shift: true });
    assert_eq!(app.download_dialog.as_ref().unwrap().focus, DialogFocus::DownloadButton);
    app.handle_key(key(KeyCode::Enter));
    app.download_finished(Err("Download failed: no space".to_string()));
    assert_eq!(app.state, AppState::Error("Download failed: no space".to_string()));
    assert_eq!(app.last_download_dir, "/tmp");
}

#[test]
fn picker_cancel_and_escape() {
    let mut app = at_home();
    app.handle_key(ch('d'));
    app.handle_key(key(KeyCode::Esc));
    assert!(app.download_dialog.is_none());
    assert_eq!(app.state, AppState::Ready);
    assert!(!app.should_quit);
    app.handle_key(ch('d'));
    app.handle_key(key(KeyCode::BackTab));
    assert_eq!(app.download_dialog.as_ref().unwrap().focus, DialogFocus::CancelButton);
    app.handle_key(ch('x'));
    assert!(app.download_dialog.is_some());
    app.handle_key(key(KeyCode::Enter));
    assert!(app.download_dialog.is_none());
    assert_eq!(app.state, AppState::Ready);
}

#[test]
fn picker_typing_goes_to_the_path() {
    let mut app = at_home();
    app.handle_key(ch('d'));
    app.handle_key(ch('/'));
    app.handle_key(ch('q'));
    app.handle_key(ctrl('w'));
    let d = app.download_dialog.as_ref().unwrap();
    assert_eq!(d.input_text, "/tmp/q");
    assert!(d.needs_refresh);
    assert_eq!(app.state, AppState::DownloadDialog);
}

#[test]
fn no_picker_for_the_parent_entry_or_snapshots_panel() {
    let mut app = at_home();
    app.handle_key(key(KeyCode::Enter));
    app.set_files(vec![node("a.pdf", "file", "/home/docs/a.pdf", Some(10))]);
    app.handle_key(ch('d'));
    assert!(app.download_dialog.is_none());
    assert_eq!(app.state, AppState::Ready);
    app.switch_panel();
    app.handle_key(ch('d'));
    assert!(app.download_dialog.is_none());
}

#[test]
fn new_snapshot_clears_the_cache() {
    let mut app = at_home();
    app.handle_key(key(KeyCode::Enter));
    assert_eq!(app.nav_stack.len(), 1);
    app.set_files(Vec::new());
    app.switch_panel();
    app.handle_key(key(KeyCode::Down));
    let cmd = app.handle_key(key(KeyCode::Enter));
    match cmd {
        Some(Command::LoadSnapshot { snapshot_id, .. }) => assert_eq!(snapshot_id, "abc123"),
        other => panic!("unexpected {:?}", other),
    }
    assert!(app.nav_stack.is_empty());
    assert_eq!(app.file_cursor, 0);
}

#[test]
fn scroll_follows_the_cursor() {
    let mut app = at_home();
    app.file_cursor = 9;
    app.adjust_scroll(Panel::Files, 4);
    assert_eq!(app.file_scroll, 6);
    app.file_cursor = 2;
    app.adjust_scroll(Panel::Files, 4);
    assert_eq!(app.file_scroll, 2);
    app.snapshot_cursor = 30;
    app.adjust_scroll(Panel::Snapshots, 10);
    assert_eq!(app.snapshot_scroll, 21);
}

#[test]
fn spinner_cycles_through_ten_frames() {
    let mut app = App::new("/tmp".to_string(), None);
    assert_eq!(app.spinner_char(), '\u{280b}');
    for _ in 0..10 {
        app.tick_spinner();
    }
    assert_eq!(app.spinner_frame, 0);
    app.tick_spinner();
    assert_eq!(app.spinner_char(), '\u{2819}');
    app.set_status("ok".to_string());
    assert_eq!(app.status_message, Some("ok".to_string()));
}

#[test]
fn file_at_cursor_respects_the_filter() {
    let mut app = at_home();
    app.handle_key(ch('/'));
    app.handle_key(ch('t'));
    app.handle_key(ch('x'));
    assert_eq!(app.file_at_cursor().unwrap().name, "notes.txt");
    assert_eq!(app.visible_file_count(), 1);
}

#[test]
fn keys_map_to_movements() {
    assert_eq!(key_to_movement(&ctrl('f')), Some(Movement::PageDown));
    assert_eq!(key_to_movement(&ctrl('b')), Some(Movement::PageUp));
    assert_eq!(key_to_movement(&ctrl('d')), Some(Movement::HalfPageDown));
    assert_eq!(key_to_movement(&ctrl('u')), Some(Movement::HalfPageUp));
    assert_eq!(key_to_movement(&ch('k')), Some(Movement::Up(1)));
    assert_eq!(key_to_movement(&key(KeyCode::Down)), Some(Movement::Down(1)));
    assert_eq!(key_to_movement(&key(KeyCode::PageUp)), Some(Movement::PageUp));
    assert_eq!(key_to_movement(&ch('g')), Some(Movement::Top));
    assert_eq!(key_to_movement(&ch('G')), Some(Movement::Bottom));
    assert_eq!(key_to_movement(&ctrl('k')), None);
    assert_eq!(key_to_movement(&ch('d')), None);
}

#[test]
fn key_predicates() {
    assert!(is_panel_switch(KeyCode::Tab) && is_panel_switch(KeyCode::BackTab));
    assert!(is_select(KeyCode::Enter) && !is_select(KeyCode::Char('l')));
    assert!(is_back(KeyCode::Backspace) && is_back(KeyCode::Left) && is_back(KeyCode::Char('h')));
    assert!(is_download(KeyCode::Char('d')) && !is_download(KeyCode::Char('D')));
    assert!(is_quit(KeyCode::Char('q')) && is_quit(KeyCode::Esc));
    assert!(is_help(KeyCode::Char('?')));
}

#[test]
fn classification_priority() {
    assert_eq!(classify(&key(KeyCode::Esc)), Some(Action::Quit));
    assert_eq!(classify(&ch('?')), Some(Action::Help));
    assert_eq!(classify(&ctrl('d')), Some(Action::Move(Movement::HalfPageDown)));
    assert_eq!(classify(&ch('d')), Some(Action::Download));
    assert_eq!(classify(&key(KeyCode::Left)), Some(Action::Back));
    assert_eq!(classify(&key(KeyCode::Tab)), Some(Action::SwitchPanel));
    assert_eq!(classify(&key(KeyCode::Enter)), Some(Action::Select));
    assert_eq!(classify(&ch('/')), Some(Action::Search));
    assert_eq!(classify(&ch('z')), None);
}

#[test]
fn listing_results_fold_in() {
    let mut app = at_home();
    app.handle_key(key(KeyCode::Enter));
    app.listing_finished(Err("Failed to list files: denied".to_string()));
    assert_eq!(app.state, AppState::Error("Failed to list files: denied".to_string()));
    assert_eq!(app.nav_stack.len(), 1);
    app.handle_key(key(KeyCode::Backspace));
    assert_eq!(app.state, AppState::Ready);
    assert_eq!(app.current_path, "/home");
    assert_eq!(shown(&app), vec!["docs/", "notes.txt"]);
    app.handle_key(key(KeyCode::Enter));
    app.listing_finished(Ok(vec![node("a.pdf", "file", "/home/docs/a.pdf", Some(10))]));
    assert_eq!(app.state, AppState::Ready);
    assert_eq!(shown(&app), vec!["..", "a.pdf"]);
}

#[test]
fn typing_in_the_picker_resets_its_selection() {
    let mut app = at_home();
    app.handle_key(ch('d'));
    {
        let d = app.download_dialog.as_mut().unwrap();
        d.refresh_entries(true, Some(vec![DirEntry { name: "a".to_string(), is_dir: true }]));
        d.selected = 1;
        d.scroll = 1;
    }
    app.handle_key(ch('/'));
    let d = app.download_dialog.as_ref().unwrap();
    assert_eq!((d.selected, d.scroll), (0, 0));
    assert_eq!(d.input_text, "/tmp/");
}

#[test]
fn escape_in_search_through_its_own_handler() {
    let mut app = at_home();
    app.handle_key(ch('/'));
    app.handle_key(ch('n'));
    assert!(app.handle_file_search_key(KeyCode::Esc).is_none());
    assert_eq!(app.state, AppState::Ready);
    assert_eq!(app.search_query, "");
    assert_eq!(shown(&app), vec!["docs/", "notes.txt"]);
    assert_eq!((app.file_cursor, app.file_scroll), (0, 0));
}
