//! The application state machine: two panels, a navigation cache for free
//! backward moves, the search filter, and the restore-destination picker.
//! Keys go in; at most one command per key comes out.

use vstd::prelude::*;

use crate::dialog::{
    backspaced, base_dir, deleted, entered, insert_at, inserted, is_fresh, remove_at, removed, scrolled, typed,
    DialogFocus, DownloadDialog,
};
use crate::event::{action_of, classify, Action, Command, KeyCode, KeyEvent, Movement};
use crate::file::{
    copy_nodes, is_parent_entry_of, is_parent_name, is_parent_name_exec, parent_entry, parent_or_root,
    parent_or_root_exec, FileNode,
};
use crate::snapshot::{primary_root, sort_snapshots, Snapshot};
use crate::text::{contains_seq, contains_text, lower_of, lowercase};

verus! {

/// The panel that has the focus.
#[derive(Debug, Clone, Copy, PartialEq, Eq, Structural)]
pub enum Panel {
    Snapshots,
    Files,
}

/// The mode of the application.
#[derive(Debug, Clone)]
pub enum AppState {
    Loading,
    Ready,
    /// The search query is being typed.
    FileSearch,
    /// The restore-destination picker is open.
    DownloadDialog,
    /// A restore of this path runs.
    Downloading(String),
    Error(String),
    Help,
}

pub open spec fn same_state(a: AppState, b: AppState) -> bool {
    match (a, b) {
        (AppState::Loading, AppState::Loading) => true,
        (AppState::Ready, AppState::Ready) => true,
        (AppState::FileSearch, AppState::FileSearch) => true,
        (AppState::DownloadDialog, AppState::DownloadDialog) => true,
        (AppState::Downloading(x), AppState::Downloading(y)) => x@ == y@,
        (AppState::Error(x), AppState::Error(y)) => x@ == y@,
        (AppState::Help, AppState::Help) => true,
        _ => false,
    }
}

impl PartialEq for AppState {
    fn eq(&self, o: &AppState) -> (r: bool)
        ensures
            r == same_state(*self, *o),
    {
        match (self, o) {
            (AppState::Loading, AppState::Loading) => true,
            (AppState::Ready, AppState::Ready) => true,
            (AppState::FileSearch, AppState::FileSearch) => true,
            (AppState::DownloadDialog, AppState::DownloadDialog) => true,
            (AppState::Downloading(x), AppState::Downloading(y)) => *x == *y,
            (AppState::Error(x), AppState::Error(y)) => *x == *y,
            (AppState::Help, AppState::Help) => true,
            _ => false,
        }
    }
}

impl vstd::std_specs::cmp::PartialEqSpecImpl for AppState {
    open spec fn obeys_eq_spec() -> bool {
        true
    }

    open spec fn eq_spec(&self, o: &AppState) -> bool {
        same_state(*self, *o)
    }
}

/// A directory as it was browsed, kept for going back to it.
#[derive(Debug, Clone)]
pub struct DirCache {
    pub path: String,
    pub files: Vec<FileNode>,
    pub cursor: usize,
    pub scroll: usize,
}

pub struct App {
    pub state: AppState,
    pub focused_panel: Panel,
    pub snapshots: Vec<Snapshot>,
    pub snapshot_cursor: usize,
    pub snapshot_scroll: usize,
    /// The snapshot being browsed.
    pub current_snapshot_id: Option<String>,
    /// The primary path of the snapshot being browsed.
    pub snapshot_root: String,
    pub current_path: String,
    /// The entries of `current_path`, unfiltered.
    pub files: Vec<FileNode>,
    /// Indices into `files` of the entries that match the search.
    pub filtered_files: Vec<usize>,
    /// Cursor in the list shown: the filtered one while a search applies.
    pub file_cursor: usize,
    pub file_scroll: usize,
    /// Directories left by descending, innermost last.
    pub nav_stack: Vec<DirCache>,
    pub search_query: String,
    /// Edit cursor in the query, in characters.
    pub search_cursor: usize,
    pub download_dialog: Option<DownloadDialog>,
    /// Where the last restore went: the picker opens there.
    pub last_download_dir: String,
    /// Home directory, for a leading `~` in the picker.
    pub home_dir: Option<String>,
    pub status_message: Option<String>,
    pub spinner_frame: usize,
    /// Rows shown by each panel, as the renderer last reported.
    pub snapshot_visible_height: usize,
    pub file_visible_height: usize,
    pub should_quit: bool,
}

/// The entry matches the query: the parent entry always, others when the query
/// is empty or, lowercased, stands in the lowercased name.
pub open spec fn search_matches(e: FileNode, query: Seq<char>) -> bool {
    is_parent_name(e.name@) || query.len() == 0 || contains_seq(lower_of(e.name@), lower_of(query))
}

/// Indices below `n` of the entries that match, ascending.
pub open spec fn matching_indices(files: Seq<FileNode>, query: Seq<char>, n: int) -> Seq<usize>
    decreases n,
{
    if n <= 0 {
        Seq::empty()
    } else {
        let r = matching_indices(files, query, n - 1);
        if search_matches(files[n - 1], query) {
            r.push((n - 1) as usize)
        } else {
            r
        }
    }
}

/// The entries that `indices` point at, skipping those out of range.
pub open spec fn picked(files: Seq<FileNode>, indices: Seq<usize>) -> Seq<FileNode>
    decreases indices.len(),
{
    if indices.len() == 0 {
        Seq::empty()
    } else {
        let r = picked(files, indices.drop_last());
        let i = indices.last() as int;
        if i < files.len() {
            r.push(files[i])
        } else {
            r
        }
    }
}

/// How far a movement goes for a panel of `height` rows (Top and Bottom aside).
pub open spec fn movement_delta(m: Movement, height: int) -> int {
    match m {
        Movement::Up(n) => -n,
        Movement::Down(n) => n as int,
        Movement::PageUp => -height,
        Movement::PageDown => height,
        Movement::HalfPageUp => -(if height / 2 > 1 { height / 2 } else { 1 }),
        Movement::HalfPageDown => if height / 2 > 1 { height / 2 } else { 1 },
        Movement::Top => 0,
        Movement::Bottom => 0,
    }
}

pub open spec fn clamp(x: int, lo: int, hi: int) -> int {
    if x < lo {
        lo
    } else if x > hi {
        hi
    } else {
        x
    }
}

/// The cursor after a movement in a list of `count` items; an empty list keeps it.
pub open spec fn moved_cursor(cursor: int, m: Movement, height: int, count: int) -> int {
    if count <= 0 {
        cursor
    } else {
        match m {
            Movement::Top => 0,
            Movement::Bottom => count - 1,
            _ => clamp(cursor + movement_delta(m, height), 0, count - 1),
        }
    }
}

/// Where the spinner is drawn from.
pub open spec fn spinner_glyph(i: int) -> char {
    if i == 0 {
        '\u{280b}'
    } else if i == 1 {
        '\u{2819}'
    } else if i == 2 {
        '\u{2839}'
    } else if i == 3 {
        '\u{2838}'
    } else if i == 4 {
        '\u{283c}'
    } else if i == 5 {
        '\u{2834}'
    } else if i == 6 {
        '\u{2826}'
    } else if i == 7 {
        '\u{2827}'
    } else if i == 8 {
        '\u{2807}'
    } else {
        '\u{280f}'
    }
}

/// The frame kept on descending from `a`.
pub open spec fn saves(frame: DirCache, a: App) -> bool {
    &&& frame.path == a.current_path
    &&& frame.files@ == a.files@
    &&& frame.cursor == a.file_cursor
    &&& frame.scroll == a.file_scroll
}

impl App {
    /// Edit cursors lie within their texts, which can grow by one.
    pub open spec fn wf(&self) -> bool {
        &&& self.search_cursor <= self.search_query@.len()
        &&& self.search_query@.len() + 1 < usize::MAX
        &&& (self.download_dialog matches Some(d) ==> d.wf())
    }

    /// The files panel shows the filtered list.
    pub open spec fn filtering(&self) -> bool {
        self.search_query@.len() > 0 || self.state is FileSearch
    }

    pub open spec fn visible_list(&self) -> Seq<FileNode> {
        if self.filtering() {
            picked(self.files@, self.filtered_files@)
        } else {
            self.files@
        }
    }

    pub open spec fn visible_count(&self) -> int {
        if self.filtering() {
            self.filtered_files.len() as int
        } else {
            self.files.len() as int
        }
    }

    /// The entry under the files cursor.
    pub open spec fn entry_at_cursor(&self) -> Option<FileNode> {
        if self.filtering() {
            if self.file_cursor < self.filtered_files.len() && self.filtered_files[self.file_cursor as int]
                < self.files.len() {
                Some(self.files[self.filtered_files[self.file_cursor as int] as int])
            } else {
                None
            }
        } else if self.file_cursor < self.files.len() {
            Some(self.files[self.file_cursor as int])
        } else {
            None
        }
    }
}

/// The state after a movement in the focused panel.
pub open spec fn after_movement(a: App, m: Movement) -> App {
    match a.focused_panel {
        Panel::Snapshots => App {
            snapshot_cursor: moved_cursor(
                a.snapshot_cursor as int,
                m,
                a.snapshot_visible_height as int,
                a.snapshots.len() as int,
            ) as usize,
            ..a
        },
        Panel::Files => App {
            file_cursor: moved_cursor(a.file_cursor as int, m, a.file_visible_height as int, a.visible_count())
                as usize,
            ..a
        },
    }
}

/// `post` is `pre` with the query set to `query`, its cursor to `cursor`, the
/// mode to `state`, the matches computed anew and the files cursor at the top.
pub open spec fn refiltered(pre: App, post: App, query: Seq<char>, cursor: int, state: AppState) -> bool {
    &&& post == (App {
        search_query: post.search_query,
        search_cursor: cursor as usize,
        filtered_files: post.filtered_files,
        file_cursor: 0,
        file_scroll: 0,
        state,
        ..pre
    })
    &&& post.search_query@ == query
    &&& post.filtered_files@ == matching_indices(pre.files@, query, pre.files.len() as int)
    &&& post.search_cursor == cursor
}

/// Going back: from the cache if a frame is there, else by listing the parent,
/// unless the path is its own parent.
pub open spec fn back_post(pre: App, post: App, r: Option<Command>) -> bool {
    if pre.focused_panel != Panel::Files || pre.current_snapshot_id is None {
        post == pre && r is None
    } else if pre.nav_stack.len() > 0 {
        let f = pre.nav_stack@.last();
        &&& r is None
        &&& post == (App {
            current_path: f.path,
            files: f.files,
            file_cursor: f.cursor,
            file_scroll: f.scroll,
            nav_stack: post.nav_stack,
            filtered_files: post.filtered_files,
            search_query: post.search_query,
            search_cursor: 0,
            state: AppState::Ready,
            ..pre
        })
        &&& post.nav_stack@ == pre.nav_stack@.drop_last()
        &&& post.filtered_files.len() == 0
        &&& post.search_query@.len() == 0
    } else {
        let parent = parent_or_root(pre.current_path@);
        if parent == pre.current_path@ {
            post == pre && r is None
        } else {
            &&& r matches Some(Command::NavigateDir { path }) && path@ == parent
            &&& post == (App {
                current_path: post.current_path,
                file_cursor: 0,
                state: AppState::Loading,
                ..pre
            })
            &&& post.current_path@ == parent
        }
    }
}

/// Selecting: a snapshot becomes the active one and its root is listed; a
/// directory is descended into, its parent entry goes back; a file does nothing.
pub open spec fn select_post(pre: App, post: App, r: Option<Command>) -> bool {
    match pre.focused_panel {
        Panel::Snapshots => if pre.snapshot_cursor < pre.snapshots.len() {
            let s = pre.snapshots[pre.snapshot_cursor as int];
            &&& r matches Some(Command::LoadSnapshot { snapshot_id, path }) && snapshot_id@ == s.full_id@
                && path@ == primary_root(s)
            &&& post == (App {
                current_snapshot_id: post.current_snapshot_id,
                snapshot_root: post.snapshot_root,
                current_path: post.current_path,
                focused_panel: Panel::Files,
                file_cursor: 0,
                nav_stack: post.nav_stack,
                state: AppState::Loading,
                ..pre
            })
            &&& post.current_snapshot_id matches Some(id) && id@ == s.full_id@
            &&& post.snapshot_root@ == primary_root(s)
            &&& post.current_path@ == primary_root(s)
            &&& post.nav_stack.len() == 0
        } else {
            post == pre && r is None
        },
        Panel::Files => if pre.entry_at_cursor() is Some && pre.entry_at_cursor()->0.is_directory() {
            let e = pre.entry_at_cursor()->0;
            if is_parent_name(e.name@) {
                back_post(pre, post, r)
            } else {
                &&& r matches Some(Command::NavigateDir { path }) && path@ == e.path@
                &&& post == (App {
                    nav_stack: post.nav_stack,
                    current_path: post.current_path,
                    file_cursor: 0,
                    search_query: post.search_query,
                    search_cursor: 0,
                    state: AppState::Loading,
                    ..pre
                })
                &&& post.nav_stack.len() == pre.nav_stack.len() + 1
                &&& post.nav_stack@.drop_last() == pre.nav_stack@
                &&& saves(post.nav_stack@.last(), pre)
                &&& post.current_path@ == e.path@
                &&& post.search_query@.len() == 0
            }
        } else {
            post == pre && r is None
        },
    }
}

/// Opening the picker on the entry under the cursor, unless that is the parent entry.
pub open spec fn open_dialog_post(pre: App, post: App) -> bool {
    if pre.focused_panel == Panel::Files && pre.entry_at_cursor() is Some && !is_parent_name(
        pre.entry_at_cursor()->0.name@,
    ) {
        &&& post == (App { download_dialog: post.download_dialog, state: AppState::DownloadDialog, ..pre })
        &&& post.download_dialog matches Some(d) && is_fresh(
            d,
            pre.entry_at_cursor()->0.path,
            pre.last_download_dir@,
            pre.home_dir,
        )
    } else {
        post == pre
    }
}

/// Starting a search over a non-empty listing: an empty query, all entries matching.
pub open spec fn search_start_post(pre: App, post: App) -> bool {
    if pre.files.len() == 0 {
        post == pre
    } else {
        refiltered(pre, post, Seq::empty(), 0, AppState::FileSearch)
    }
}

/// A key while the query is typed.
pub open spec fn search_key_post(pre: App, post: App, code: KeyCode) -> bool {
    let q = pre.search_query@;
    let c = pre.search_cursor as int;
    match code {
        KeyCode::Esc => refiltered(pre, post, Seq::empty(), 0, AppState::Ready),
        KeyCode::Enter => post == (App { state: AppState::Ready, ..pre }),
        KeyCode::Up => post == after_movement(pre, Movement::Up(1)),
        KeyCode::Down => post == after_movement(pre, Movement::Down(1)),
        KeyCode::Char('k') => post == after_movement(pre, Movement::Up(1)),
        KeyCode::Char('j') => post == after_movement(pre, Movement::Down(1)),
        KeyCode::Backspace => if c > 0 {
            refiltered(pre, post, removed(q, c - 1), c - 1, pre.state)
        } else {
            post == pre
        },
        KeyCode::Delete => if c < q.len() {
            refiltered(pre, post, removed(q, c), c, pre.state)
        } else {
            post == pre
        },
        KeyCode::Left => post == (App { search_cursor: if c > 0 { (c - 1) as usize } else { 0 }, ..pre }),
        KeyCode::Right => post == (App {
            search_cursor: if c < q.len() { (c + 1) as usize } else { c as usize },
            ..pre
        }),
        KeyCode::Home => post == (App { search_cursor: 0, ..pre }),
        KeyCode::End => post == (App { search_cursor: q.len() as usize, ..pre }),
        KeyCode::Char(ch) => if q.len() + 2 < usize::MAX {
            refiltered(pre, post, inserted(q, c, ch), c + 1, pre.state)
        } else {
            post == pre
        },
        _ => post == pre,
    }
}

/// A key in the text-and-listing control of the picker.
pub open spec fn picker_key_post(d: DownloadDialog, n: DownloadDialog, key: KeyEvent) -> bool {
    match key.code {
        KeyCode::Down => n == (DownloadDialog {
            selected: if d.selected + 1 < d.entries.len() { (d.selected + 1) as usize } else { d.selected },
            ..d
        }),
        KeyCode::Up => n == (DownloadDialog {
            selected: if d.selected > 0 { (d.selected - 1) as usize } else { 0 },
            ..d
        }),
        KeyCode::Enter => if key.ctrl {
            n == d
        } else {
            entered(d, n)
        },
        KeyCode::Left => n == (DownloadDialog {
            cursor_pos: if d.cursor_pos > 0 { (d.cursor_pos - 1) as usize } else { 0 },
            ..d
        }),
        KeyCode::Right => n == (DownloadDialog {
            cursor_pos: if d.cursor_pos < d.input_text@.len() { (d.cursor_pos + 1) as usize } else { d.cursor_pos },
            ..d
        }),
        KeyCode::Home => n == (DownloadDialog { cursor_pos: 0, ..d }),
        KeyCode::End => n == (DownloadDialog { cursor_pos: d.input_text@.len() as usize, ..d }),
        KeyCode::Backspace => backspaced(d, n),
        KeyCode::Delete => deleted(d, n),
        KeyCode::Char(c) => if key.ctrl {
            n == d
        } else {
            typed(d, n, c)
        },
        _ => n == d,
    }
}

/// A key while the picker is open.
pub open spec fn dialog_key_post(pre: App, post: App, key: KeyEvent, r: Option<Command>) -> bool {
    match pre.download_dialog {
        None => post == pre && r is None,
        Some(d) => if key.code == KeyCode::Esc {
            post == (App { download_dialog: None, state: AppState::Ready, ..pre }) && r is None
        } else if key.code == KeyCode::Tab || key.code == KeyCode::BackTab {
            let f = if key.shift || key.code == KeyCode::BackTab {
                crate::dialog::prev_focus(d.focus)
            } else {
                crate::dialog::next_focus(d.focus)
            };
            post == (App { download_dialog: Some(DownloadDialog { focus: f, ..d }), ..pre }) && r is None
        } else {
            match d.focus {
                DialogFocus::PathPicker => {
                    &&& r is None
                    &&& post == (App { download_dialog: post.download_dialog, ..pre })
                    &&& post.download_dialog matches Some(n) && picker_key_post(d, n, key)
                },
                DialogFocus::DownloadButton => if key.code == KeyCode::Enter {
                    let target = base_dir(d.expanded(), d.input_is_dir);
                    &&& r matches Some(Command::Download { path, target: t }) && path@ == d.source_path@
                        && t@ == target
                    &&& post == (App {
                        last_download_dir: post.last_download_dir,
                        download_dialog: None,
                        state: post.state,
                        ..pre
                    })
                    &&& post.last_download_dir@ == target
                    &&& post.state matches AppState::Downloading(p) && p@ == d.source_path@
                } else {
                    post == pre && r is None
                },
                DialogFocus::CancelButton => {
                    &&& r is None
                    &&& if key.code == KeyCode::Enter {
                        post == (App { download_dialog: None, state: AppState::Ready, ..pre })
                    } else {
                        post == pre
                    }
                },
            }
        },
    }
}

/// What an action does once the mode lets it through.
pub open spec fn action_post(pre: App, post: App, a: Option<Action>, r: Option<Command>) -> bool {
    match a {
        Some(Action::Move(m)) => post == after_movement(pre, m) && r is None,
        Some(Action::SwitchPanel) => post == (App {
            focused_panel: if pre.focused_panel == Panel::Snapshots { Panel::Files } else { Panel::Snapshots },
            ..pre
        }) && r is None,
        Some(Action::Select) => select_post(pre, post, r),
        Some(Action::Back) => back_post(pre, post, r),
        Some(Action::Download) => open_dialog_post(pre, post) && r is None,
        Some(Action::Search) => r is None && if pre.focused_panel == Panel::Files {
            search_start_post(pre, post)
        } else {
            post == pre
        },
        _ => post == pre && r is None,
    }
}

/// A key in any mode: the picker and the search take their keys first; quit
/// and help apply in every other mode; while loading, restoring or showing
/// help nothing else does; an error is dismissed before the key acts.
pub open spec fn key_post(pre: App, post: App, key: KeyEvent, r: Option<Command>) -> bool {
    if pre.state is DownloadDialog {
        dialog_key_post(pre, post, key, r)
    } else if pre.state is FileSearch {
        search_key_post(pre, post, key.code) && r is None
    } else {
        match action_of(key) {
            Some(Action::Quit) => if pre.state is Help {
                post == (App { state: AppState::Ready, ..pre }) && r is None
            } else {
                post == (App { should_quit: true, ..pre }) && r matches Some(Command::Quit)
            },
            Some(Action::Help) => r is None && post == (App {
                state: if pre.state is Help { AppState::Ready } else { AppState::Help },
                ..pre
            }),
            _ => if pre.state is Help || pre.state is Loading || pre.state is Downloading {
                post == pre && r is None
            } else {
                let mid = if pre.state is Error { App { state: AppState::Ready, ..pre } } else { pre };
                action_post(mid, post, action_of(key), r)
            },
        }
    }
}

/// `post` shows `entries`, listed for the current path of `pre`, with the search
/// cleared, the cursor at the top and the mode ready.
pub open spec fn files_shown(pre: App, post: App, entries: Seq<FileNode>) -> bool {
    &&& post == (App {
        files: post.files,
        filtered_files: post.filtered_files,
        search_query: post.search_query,
        search_cursor: 0,
        file_cursor: 0,
        file_scroll: 0,
        state: AppState::Ready,
        ..pre
    })
    &&& shown_listing(post.files@, entries, pre.current_path@, pre.snapshot_root@)
    &&& post.filtered_files.len() == 0
    &&& post.search_query@.len() == 0
}

/// The entries shown for `path` once `entries` were listed for it under the
/// snapshot root `root`: the parent entry first unless `path` is the root.
pub open spec fn shown_listing(shown: Seq<FileNode>, entries: Seq<FileNode>, path: Seq<char>, root: Seq<char>) -> bool {
    if path != root {
        &&& shown.len() == entries.len() + 1
        &&& is_parent_entry_of(shown[0], path)
        &&& shown.drop_first() == entries
    } else {
        shown == entries
    }
}

/// The cursor moved by `delta`, kept within `[0, max]`; the least and the
/// greatest `delta` jump to the ends.
pub fn clamp_cursor(current: usize, delta: i128, max: usize) -> (r: usize)
    ensures
        r == (if delta == i128::MIN {
            0
        } else if delta == i128::MAX {
            max as int
        } else {
            clamp(current + delta, 0, max as int)
        }),
{
    if delta == i128::MIN {
        return 0;
    }
    if delta == i128::MAX {
        return max;
    }
    if delta > i128::MAX - u64::MAX as i128 {
        return max;
    }
    let p: i128 = current as i128 + delta;
    if p < 0 {
        0
    } else if p > max as i128 {
        max
    } else {
        p as usize
    }
}

impl App {
    pub fn new(default_dir: String, home_dir: Option<String>) -> (r: Self)
        ensures
            r.wf(),
            r.state is Loading,
            r.focused_panel == Panel::Snapshots,
            r.snapshots.len() == 0,
            r.snapshot_cursor == 0,
            r.snapshot_scroll == 0,
            r.current_snapshot_id is None,
            r.snapshot_root@.len() == 0,
            r.current_path@.len() == 0,
            r.files.len() == 0,
            r.filtered_files.len() == 0,
            r.file_cursor == 0,
            r.file_scroll == 0,
            r.nav_stack.len() == 0,
            r.search_query@.len() == 0,
            r.search_cursor == 0,
            r.download_dialog is None,
            r.last_download_dir == default_dir,
            r.home_dir == home_dir,
            r.status_message is None,
            r.spinner_frame == 0,
            r.snapshot_visible_height == 20,
            r.file_visible_height == 20,
            !r.should_quit,
    {
        App {
            state: AppState::Loading,
            focused_panel: Panel::Snapshots,
            snapshots: Vec::new(),
            snapshot_cursor: 0,
            snapshot_scroll: 0,
            current_snapshot_id: None,
            snapshot_root: String::new(),
            current_path: String::new(),
            files: Vec::new(),
            filtered_files: Vec::new(),
            file_cursor: 0,
            file_scroll: 0,
            nav_stack: Vec::new(),
            search_query: String::new(),
            search_cursor: 0,
            download_dialog: None,
            last_download_dir: default_dir,
            home_dir,
            status_message: None,
            spinner_frame: 0,
            snapshot_visible_height: 20,
            file_visible_height: 20,
            should_quit: false,
        }
    }

    pub fn tick_spinner(&mut self)
        ensures
            *final(self) == (App { spinner_frame: ((old(self).spinner_frame % 10 + 1) % 10) as usize, ..*old(self) }),
    {
        self.spinner_frame = (self.spinner_frame % 10 + 1) % 10;
    }

    pub fn spinner_char(&self) -> (r: char)
        ensures
            r == spinner_glyph((self.spinner_frame % 10) as int),
    {
        let i = self.spinner_frame % 10;
        if i == 0 {
            '\u{280b}'
        } else if i == 1 {
            '\u{2819}'
        } else if i == 2 {
            '\u{2839}'
        } else if i == 3 {
            '\u{2838}'
        } else if i == 4 {
            '\u{283c}'
        } else if i == 5 {
            '\u{2834}'
        } else if i == 6 {
            '\u{2826}'
        } else if i == 7 {
            '\u{2827}'
        } else if i == 8 {
            '\u{2807}'
        } else {
            '\u{280f}'
        }
    }

    fn is_filtering(&self) -> (r: bool)
        ensures
            r == self.filtering(),
    {
        self.search_query.as_str().unicode_len() > 0 || matches!(self.state, AppState::FileSearch)
    }

    pub fn visible_file_count(&self) -> (r: usize)
        ensures
            r == self.visible_count(),
    {
        if self.is_filtering() {
            self.filtered_files.len()
        } else {
            self.files.len()
        }
    }

    pub fn visible_files(&self) -> (r: Vec<&FileNode>)
        ensures
            r@.len() == self.visible_list().len(),
            forall|i: int| 0 <= i < r@.len() ==> *r@[i] == self.visible_list()[i],
    {
        let mut r: Vec<&FileNode> = Vec::new();
        if !self.is_filtering() {
            let mut i: usize = 0;
            while i < self.files.len()
                invariant
                    i <= self.files.len(),
                    r@.len() == i,
                    forall|k: int| 0 <= k < i ==> *r@[k] == self.files@[k],
                decreases self.files.len() - i,
            {
                r.push(&self.files[i]);
                i = i + 1;
            }
            return r;
        }
        let mut i: usize = 0;
        while i < self.filtered_files.len()
            invariant
                i <= self.filtered_files.len(),
                r@.len() == picked(self.files@, self.filtered_files@.subrange(0, i as int)).len(),
                forall|k: int| 0 <= k < r@.len() ==> *r@[k] == picked(self.files@, self.filtered_files@.subrange(0, i as int))[k],
            decreases self.filtered_files.len() - i,
        {
            let j = self.filtered_files[i];
            assert(self.filtered_files@.subrange(0, i + 1).drop_last() == self.filtered_files@.subrange(0, i as int));
            if j < self.files.len() {
                r.push(&self.files[j]);
            }
            i = i + 1;
        }
        assert(self.filtered_files@.subrange(0, self.filtered_files.len() as int) == self.filtered_files@);
        r
    }

    pub fn file_at_cursor(&self) -> (r: Option<&FileNode>)
        ensures
            r is Some <==> self.entry_at_cursor() is Some,
            r is Some ==> *r->0 == self.entry_at_cursor()->0,
    {
        if self.is_filtering() {
            if self.file_cursor < self.filtered_files.len() && self.filtered_files[self.file_cursor]
                < self.files.len() {
                Some(&self.files[self.filtered_files[self.file_cursor]])
            } else {
                None
            }
        } else if self.file_cursor < self.files.len() {
            Some(&self.files[self.file_cursor])
        } else {
            None
        }
    }

    /// Moves the cursor of the focused panel.
    pub fn apply_movement(&mut self, movement: Movement)
        ensures
            *final(self) == after_movement(*old(self), movement),
    {
        let count = match self.focused_panel {
            Panel::Snapshots => self.snapshots.len(),
            Panel::Files => self.visible_file_count(),
        };
        let height = match self.focused_panel {
            Panel::Snapshots => self.snapshot_visible_height,
            Panel::Files => self.file_visible_height,
        };
        if count == 0 {
            return;
        }
        let max = count - 1;
        let h: i128 = height as i128;
        let half: i128 = if h / 2 > 1 {
            h / 2
        } else {
            1
        };
        let delta: i128 = match movement {
            Movement::Up(n) => -(n as i128),
            Movement::Down(n) => n as i128,
            Movement::PageUp => -h,
            Movement::PageDown => h,
            Movement::HalfPageUp => -half,
            Movement::HalfPageDown => half,
            Movement::Top => i128::MIN,
            Movement::Bottom => i128::MAX,
        };
        match self.focused_panel {
            Panel::Snapshots => {
                self.snapshot_cursor = clamp_cursor(self.snapshot_cursor, delta, max);
            },
            Panel::Files => {
                self.file_cursor = clamp_cursor(self.file_cursor, delta, max);
            },
        }
    }

    /// Recomputes the matches of the query and puts the files cursor at the top.
    pub fn apply_search_filter(&mut self)
        ensures
            filter_applied(*old(self), *final(self)),
    {
        let query = lowercase(self.search_query.as_str());
        let empty = self.search_query.as_str().unicode_len() == 0;
        let mut out: Vec<usize> = Vec::new();
        let mut i: usize = 0;
        while i < self.files.len()
            invariant
                i <= self.files.len(),
                query@ == lower_of(self.search_query@),
                empty == (self.search_query@.len() == 0),
                out@ == matching_indices(self.files@, self.search_query@, i as int),
            decreases self.files.len() - i,
        {
            let f = &self.files[i];
            let hit = if is_parent_name_exec(&f.name) || empty {
                true
            } else {
                let name = lowercase(f.name.as_str());
                contains_text(name.as_str(), query.as_str())
            };
            if hit {
                out.push(i);
            }
            i = i + 1;
        }
        self.filtered_files = out;
        self.file_cursor = 0;
        self.file_scroll = 0;
    }

    fn start_file_search(&mut self)
        ensures
            search_start_post(*old(self), *final(self)),
    {
        if self.files.len() == 0 {
            return;
        }
        self.search_query = String::new();
        self.search_cursor = 0;
        self.apply_search_filter();
        self.state = AppState::FileSearch;
    }

    /// Handles a key while the query is typed.
    pub fn handle_file_search_key(&mut self, key: KeyCode) -> (r: Option<Command>)
        requires
            old(self).wf(),
        ensures
            search_key_post(*old(self), *final(self), key),
            r is None,
    {
        match key {
            KeyCode::Esc => {
                self.search_query = String::new();
                self.search_cursor = 0;
                self.apply_search_filter();
                self.state = AppState::Ready;
            },
            KeyCode::Enter => {
                self.state = AppState::Ready;
            },
            KeyCode::Up | KeyCode::Char('k') => {
                self.apply_movement(Movement::Up(1));
            },
            KeyCode::Down | KeyCode::Char('j') => {
                self.apply_movement(Movement::Down(1));
            },
            KeyCode::Backspace => {
                if self.search_cursor > 0 {
                    self.search_cursor = self.search_cursor - 1;
                    self.search_query = remove_at(&self.search_query, self.search_cursor);
                    self.apply_search_filter();
                }
            },
            KeyCode::Delete => {
                if self.search_cursor < self.search_query.as_str().unicode_len() {
                    self.search_query = remove_at(&self.search_query, self.search_cursor);
                    self.apply_search_filter();
                }
            },
            KeyCode::Left => {
                if self.search_cursor > 0 {
                    self.search_cursor = self.search_cursor - 1;
                }
            },
            KeyCode::Right => {
                if self.search_cursor < self.search_query.as_str().unicode_len() {
                    self.search_cursor = self.search_cursor + 1;
                }
            },
            KeyCode::Home => {
                self.search_cursor = 0;
            },
            KeyCode::End => {
                self.search_cursor = self.search_query.as_str().unicode_len();
            },
            KeyCode::Char(c) => {
                if self.search_query.as_str().unicode_len() < usize::MAX - 2 {
                    self.search_query = insert_at(&self.search_query, self.search_cursor, c);
                    self.search_cursor = self.search_cursor + 1;
                    self.apply_search_filter();
                }
            },
            _ => {},
        }
        None
    }
}

impl App {
    fn handle_download_dialog_key(&mut self, key: KeyEvent) -> (r: Option<Command>)
        requires
            old(self).wf(),
        ensures
            dialog_key_post(*old(self), *final(self), key, r),
            final(self).wf(),
    {
        let mut d = match self.download_dialog.take() {
            Some(d) => d,
            None => return None,
        };
        if matches!(key.code, KeyCode::Esc) {
            self.state = AppState::Ready;
            return None;
        }
        if matches!(key.code, KeyCode::Tab | KeyCode::BackTab) {
            if key.shift || matches!(key.code, KeyCode::BackTab) {
                d.focus_prev();
            } else {
                d.focus_next();
            }
            self.download_dialog = Some(d);
            return None;
        }
        match d.focus {
            DialogFocus::PathPicker => {
                match key.code {
                    KeyCode::Down => d.select_next(),
                    KeyCode::Up => d.select_prev(),
                    KeyCode::Enter => {
                        if !key.ctrl {
                            d.enter_selected();
                        }
                    },
                    KeyCode::Left => d.cursor_left(),
                    KeyCode::Right => d.cursor_right(),
                    KeyCode::Home => d.cursor_home(),
                    KeyCode::End => d.cursor_end(),
                    KeyCode::Backspace => d.backspace(),
                    KeyCode::Delete => d.delete(),
                    KeyCode::Char(c) => {
                        if !key.ctrl {
                            d.insert_char(c);
                        }
                    },
                    _ => {},
                }
                self.download_dialog = Some(d);
                None
            },
            DialogFocus::DownloadButton => {
                if matches!(key.code, KeyCode::Enter) {
                    let target = d.confirmed_path();
                    let source = d.source_path.clone();
                    self.last_download_dir = target.clone();
                    self.state = AppState::Downloading(source.clone());
                    Some(Command::Download { path: source, target })
                } else {
                    self.download_dialog = Some(d);
                    None
                }
            },
            DialogFocus::CancelButton => {
                if matches!(key.code, KeyCode::Enter) {
                    self.state = AppState::Ready;
                } else {
                    self.download_dialog = Some(d);
                }
                None
            },
        }
    }

    fn open_download_dialog(&mut self) -> (r: Option<Command>)
        requires
            old(self).wf(),
        ensures
            open_dialog_post(*old(self), *final(self)),
            r is None,
    {
        if !matches!(self.focused_panel, Panel::Files) {
            return None;
        }
        let source = match self.file_at_cursor() {
            Some(f) => {
                if is_parent_name_exec(&f.name) {
                    return None;
                }
                f.path.clone()
            },
            None => return None,
        };
        let home = self.home_dir.clone();
        let d = DownloadDialog::new(source, self.last_download_dir.as_str(), home);
        self.download_dialog = Some(d);
        self.state = AppState::DownloadDialog;
        None
    }

    /// Scrolls a panel just enough to keep its cursor in a window of `visible_height` rows.
    pub fn adjust_scroll(&mut self, panel: Panel, visible_height: usize)
        ensures
            panel == Panel::Snapshots ==> *final(self) == (App {
                snapshot_scroll: scrolled(
                    old(self).snapshot_cursor as int,
                    old(self).snapshot_scroll as int,
                    visible_height as int,
                ) as usize,
                ..*old(self)
            }),
            panel == Panel::Files ==> *final(self) == (App {
                file_scroll: scrolled(old(self).file_cursor as int, old(self).file_scroll as int, visible_height as int)
                    as usize,
                ..*old(self)
            }),
    {
        if visible_height == 0 {
            return;
        }
        match panel {
            Panel::Snapshots => {
                if self.snapshot_cursor < self.snapshot_scroll {
                    self.snapshot_scroll = self.snapshot_cursor;
                } else if self.snapshot_cursor - self.snapshot_scroll >= visible_height {
                    self.snapshot_scroll = self.snapshot_cursor - visible_height + 1;
                }
            },
            Panel::Files => {
                if self.file_cursor < self.file_scroll {
                    self.file_scroll = self.file_cursor;
                } else if self.file_cursor - self.file_scroll >= visible_height {
                    self.file_scroll = self.file_cursor - visible_height + 1;
                }
            },
        }
    }

    pub fn switch_panel(&mut self)
        ensures
            *final(self) == (App {
                focused_panel: if old(self).focused_panel == Panel::Snapshots {
                    Panel::Files
                } else {
                    Panel::Snapshots
                },
                ..*old(self)
            }),
    {
        self.focused_panel = match self.focused_panel {
            Panel::Snapshots => Panel::Files,
            Panel::Files => Panel::Snapshots,
        };
    }

    /// Goes to the parent directory: from the cache when a frame is there, at no
    /// cost; else by listing the parent, unless the path is its own parent.
    pub fn go_back(&mut self) -> (r: Option<Command>)
        ensures
            back_post(*old(self), *final(self), r),
    {
        if !matches!(self.focused_panel, Panel::Files) || self.current_snapshot_id.is_none() {
            return None;
        }
        if self.nav_stack.len() > 0 {
            let cached = match self.nav_stack.pop() {
                Some(c) => c,
                None => return None,
            };
            self.current_path = cached.path;
            self.files = cached.files;
            self.file_cursor = cached.cursor;
            self.file_scroll = cached.scroll;
            self.filtered_files = Vec::new();
            self.search_query = String::new();
            self.search_cursor = 0;
            self.state = AppState::Ready;
            return None;
        }
        let parent = parent_or_root_exec(self.current_path.as_str());
        if parent == self.current_path {
            return None;
        }
        self.current_path = parent.clone();
        self.file_cursor = 0;
        self.state = AppState::Loading;
        Some(Command::NavigateDir { path: parent })
    }

    /// Selects the item under the cursor of the focused panel.
    pub fn select_item(&mut self) -> (r: Option<Command>)
        ensures
            select_post(*old(self), *final(self), r),
    {
        match self.focused_panel {
            Panel::Snapshots => {
                if self.snapshot_cursor < self.snapshots.len() {
                    let s = &self.snapshots[self.snapshot_cursor];
                    let path = String::from_str(s.primary_path());
                    let id = s.full_id.clone();
                    self.current_snapshot_id = Some(s.full_id.clone());
                    self.snapshot_root = path.clone();
                    self.current_path = path.clone();
                    self.focused_panel = Panel::Files;
                    self.file_cursor = 0;
                    self.nav_stack = Vec::new();
                    self.state = AppState::Loading;
                    return Some(Command::LoadSnapshot { snapshot_id: id, path });
                }
                None
            },
            Panel::Files => {
                let (is_dir, is_parent, path) = match self.file_at_cursor() {
                    Some(f) => (f.is_dir(), is_parent_name_exec(&f.name), f.path.clone()),
                    None => return None,
                };
                if !is_dir {
                    return None;
                }
                if is_parent {
                    return self.go_back();
                }
                let frame = DirCache {
                    path: self.current_path.clone(),
                    files: copy_nodes(&self.files),
                    cursor: self.file_cursor,
                    scroll: self.file_scroll,
                };
                let ghost stack_before = self.nav_stack@;
                self.nav_stack.push(frame);
                assert(self.nav_stack@.drop_last() =~= stack_before);
                self.current_path = path.clone();
                self.file_cursor = 0;
                self.search_query = String::new();
                self.search_cursor = 0;
                self.state = AppState::Loading;
                Some(Command::NavigateDir { path })
            },
        }
    }

    /// Shows a listing of `current_path`, with the parent entry first unless it
    /// is the snapshot root; the search is cleared and the mode becomes ready.
    pub fn set_files(&mut self, files: Vec<FileNode>)
        ensures
            files_shown(*old(self), *final(self), files@),
    {
        let mut shown = files;
        if self.current_path != self.snapshot_root {
            let ghost listed = shown@;
            shown.insert(0, parent_entry(self.current_path.as_str()));
            assert(shown@.drop_first() =~= listed);
        }
        self.files = shown;
        self.filtered_files = Vec::new();
        self.search_query = String::new();
        self.search_cursor = 0;
        self.file_cursor = 0;
        self.file_scroll = 0;
        self.state = AppState::Ready;
    }

    /// A listing ended: its entries are shown, or its error.
    pub fn listing_finished(&mut self, result: Result<Vec<FileNode>, String>)
        ensures
            match result {
                Ok(files) => files_shown(*old(self), *final(self), files@),
                Err(e) => *final(self) == (App { state: AppState::Error(e), ..*old(self) }),
            },
    {
        match result {
            Ok(files) => self.set_files(files),
            Err(e) => self.set_error(e),
        }
    }

    /// Shows a fresh list of snapshots, newest first.
    pub fn set_snapshots(&mut self, snapshots: Vec<Snapshot>)
        ensures
            *final(self) == (App {
                snapshots: final(self).snapshots,
                snapshot_cursor: 0,
                snapshot_scroll: 0,
                state: AppState::Ready,
                ..*old(self)
            }),
            final(self).snapshots@ == crate::text::key_sorted(snapshots@, |s: Snapshot| crate::snapshot::age_key(s)),
            final(self).snapshots@.to_multiset() == snapshots@.to_multiset(),
            forall|i: int, j: int|
                0 <= i < j < final(self).snapshots.len() ==> crate::snapshot::not_newer(
                    final(self).snapshots[j],
                    final(self).snapshots[i],
                ),
    {
        self.snapshots = sort_snapshots(snapshots);
        self.snapshot_cursor = 0;
        self.snapshot_scroll = 0;
        self.state = AppState::Ready;
    }

    pub fn set_error(&mut self, message: String)
        ensures
            *final(self) == (App { state: AppState::Error(message), ..*old(self) }),
    {
        self.state = AppState::Error(message);
    }

    pub fn set_status(&mut self, message: String)
        ensures
            *final(self) == (App { status_message: Some(message), ..*old(self) }),
    {
        self.status_message = Some(message);
    }

    /// A restore ended: success makes the mode ready and says where the files
    /// went; failure shows the error.
    pub fn download_finished(&mut self, result: Result<String, String>)
        ensures
            match result {
                Ok(target) => {
                    &&& *final(self) == (App {
                        state: AppState::Ready,
                        status_message: final(self).status_message,
                        ..*old(self)
                    })
                    &&& final(self).status_message matches Some(m) && m@ == "Downloaded to: "@ + target@
                },
                Err(e) => *final(self) == (App { state: AppState::Error(e), ..*old(self) }),
            },
    {
        match result {
            Ok(target) => {
                self.state = AppState::Ready;
                let m = String::from_str("Downloaded to: ").concat(target.as_str());
                self.status_message = Some(m);
            },
            Err(e) => {
                self.state = AppState::Error(e);
            },
        }
    }

    /// Handles one key; returns the command it calls for, if any.
    pub fn handle_key(&mut self, key: KeyEvent) -> (r: Option<Command>)
        requires
            old(self).wf(),
        ensures
            key_post(*old(self), *final(self), key, r),
            final(self).wf(),
    {
        if matches!(self.state, AppState::DownloadDialog) {
            return self.handle_download_dialog_key(key);
        }
        if matches!(self.state, AppState::FileSearch) {
            return self.handle_file_search_key(key.code);
        }
        let action = classify(&key);
        match action {
            Some(Action::Quit) => {
                if matches!(self.state, AppState::Help) {
                    self.state = AppState::Ready;
                    return None;
                }
                self.should_quit = true;
                return Some(Command::Quit);
            },
            Some(Action::Help) => {
                self.state = if matches!(self.state, AppState::Help) {
                    AppState::Ready
                } else {
                    AppState::Help
                };
                return None;
            },
            _ => {},
        }
        if matches!(self.state, AppState::Help | AppState::Loading | AppState::Downloading(_)) {
            return None;
        }
        if matches!(self.state, AppState::Error(_)) {
            self.state = AppState::Ready;
        }
        match action {
            Some(Action::Move(m)) => {
                self.apply_movement(m);
                None
            },
            Some(Action::SwitchPanel) => {
                self.switch_panel();
                None
            },
            Some(Action::Select) => self.select_item(),
            Some(Action::Back) => self.go_back(),
            Some(Action::Download) => self.open_download_dialog(),
            Some(Action::Search) => {
                if matches!(self.focused_panel, Panel::Files) {
                    self.start_file_search();
                }
                None
            },
            _ => None,
        }
    }
}

/// The cursor after a run of movements, first to last.
pub open spec fn run_movements(cursor: int, moves: Seq<Movement>, height: int, count: int) -> int
    decreases moves.len(),
{
    if moves.len() == 0 {
        cursor
    } else {
        moved_cursor(run_movements(cursor, moves.drop_last(), height, count), moves.last(), height, count)
    }
}

/// The state after a run of movements in the focused panel.
pub open spec fn after_movements(a: App, moves: Seq<Movement>) -> App
    decreases moves.len(),
{
    if moves.len() == 0 {
        a
    } else {
        after_movement(after_movements(a, moves.drop_last()), moves.last())
    }
}

/// The cursor of the focused panel and the number of items it moves over:
/// the filtered count while a search applies.
pub open spec fn focused_cursor(a: App) -> int {
    match a.focused_panel {
        Panel::Snapshots => a.snapshot_cursor as int,
        Panel::Files => a.file_cursor as int,
    }
}

pub open spec fn focused_count(a: App) -> int {
    match a.focused_panel {
        Panel::Snapshots => a.snapshots.len() as int,
        Panel::Files => a.visible_count(),
    }
}

/// A single movement in a non-empty list lands within it; Top lands on the
/// first item and Bottom on the last.
pub proof fn lemma_movement_in_range(cursor: int, m: Movement, height: int, count: int)
    requires
        count > 0,
    ensures
        0 <= moved_cursor(cursor, m, height, count) < count,
        m == Movement::Top ==> moved_cursor(cursor, m, height, count) == 0,
        m == Movement::Bottom ==> moved_cursor(cursor, m, height, count) == count - 1,
{
}

/// After any non-empty run of movements the cursor of the focused panel lies in
/// `[0, count - 1]`, where count is the filtered count while a search applies;
/// a run that ends in Top leaves it at 0, one that ends in Bottom at `count - 1`.
/// Movements change nothing but that cursor.
pub proof fn lemma_movements_keep_cursor_in_range(a: App, moves: Seq<Movement>)
    requires
        focused_count(a) > 0,
        moves.len() > 0,
    ensures
        0 <= focused_cursor(after_movements(a, moves)) < focused_count(a),
        moves.last() == Movement::Top ==> focused_cursor(after_movements(a, moves)) == 0,
        moves.last() == Movement::Bottom ==> focused_cursor(after_movements(a, moves)) == focused_count(a) - 1,
    decreases moves.len(),
{
    lemma_movements_keep_shape(a, moves.drop_last());
    let b = after_movements(a, moves.drop_last());
    match b.focused_panel {
        Panel::Snapshots => lemma_movement_in_range(
            b.snapshot_cursor as int,
            moves.last(),
            b.snapshot_visible_height as int,
            b.snapshots.len() as int,
        ),
        Panel::Files => lemma_movement_in_range(
            b.file_cursor as int,
            moves.last(),
            b.file_visible_height as int,
            b.visible_count(),
        ),
    }
}

/// Movements leave everything but the focused cursor as it was.
pub proof fn lemma_movements_keep_shape(a: App, moves: Seq<Movement>)
    ensures
        after_movements(a, moves).focused_panel == a.focused_panel,
        focused_count(after_movements(a, moves)) == focused_count(a),
        after_movements(a, moves).snapshot_visible_height == a.snapshot_visible_height,
        after_movements(a, moves).file_visible_height == a.file_visible_height,
    decreases moves.len(),
{
    if moves.len() > 0 {
        lemma_movements_keep_shape(a, moves.drop_last());
    }
}

/// `post` descended from `pre` into the directory under the cursor.
pub open spec fn descended(pre: App, post: App, r: Option<Command>) -> bool {
    &&& pre.focused_panel == Panel::Files
    &&& pre.entry_at_cursor() is Some
    &&& pre.entry_at_cursor()->0.is_directory()
    &&& !is_parent_name(pre.entry_at_cursor()->0.name@)
    &&& select_post(pre, post, r)
}

/// Going back once after a descent, with the cache as the descent left it,
/// restores the path, entries, cursor and scroll seen just before the descent,
/// and the cache as it was then, with no command for the backend.
pub proof fn lemma_back_undoes_descent(
    before: App,
    down: App,
    r1: Option<Command>,
    between: App,
    after: App,
    r2: Option<Command>,
)
    requires
        before.current_snapshot_id is Some,
        descended(before, down, r1),
        between.nav_stack@ == down.nav_stack@,
        between.focused_panel == Panel::Files,
        between.current_snapshot_id is Some,
        back_post(between, after, r2),
    ensures
        r2 is None,
        after.current_path == before.current_path,
        after.files@ == before.files@,
        after.file_cursor == before.file_cursor,
        after.file_scroll == before.file_scroll,
        after.nav_stack@ == before.nav_stack@,
        after.focused_panel == between.focused_panel,
        after.current_snapshot_id == between.current_snapshot_id,
{
}

/// N descents, each from `before[i]` to `down[i]` with anything in between that
/// leaves the cache alone (`before[i + 1]` has the cache of `down[i]`), then N
/// backs from a state with the cache of the last descent: back number k restores
/// path, entries, cursor, scroll and cache as they were just before descent
/// number N - 1 - k, each with no command for the backend.
pub proof fn lemma_backs_undo_descents(
    before: Seq<App>,
    down: Seq<App>,
    cmds: Seq<Option<Command>>,
    start: App,
    backs: Seq<App>,
    back_cmds: Seq<Option<Command>>,
)
    requires
        before.len() == down.len(),
        cmds.len() == down.len(),
        backs.len() == down.len(),
        back_cmds.len() == down.len(),
        forall|i: int| 0 <= i < before.len() ==> (#[trigger] before[i]).current_snapshot_id is Some,
        forall|i: int| 0 <= i < before.len() ==> descended(#[trigger] before[i], down[i], cmds[i]),
        forall|i: int| 0 <= i < before.len() - 1 ==> (#[trigger] before[i + 1]).nav_stack@ == down[i].nav_stack@,
        down.len() > 0 ==> start.nav_stack@ == down.last().nav_stack@,
        start.focused_panel == Panel::Files,
        start.current_snapshot_id is Some,
        down.len() > 0 ==> back_post(start, backs[0], back_cmds[0]),
        forall|k: int| 0 < k < backs.len() ==> back_post(#[trigger] backs[k - 1], backs[k], back_cmds[k]),
    ensures
        forall|k: int|
            0 <= k < backs.len() ==> {
                let b = before[before.len() - 1 - k];
                &&& back_cmds[k] is None
                &&& (#[trigger] backs[k]).current_path == b.current_path
                &&& backs[k].files@ == b.files@
                &&& backs[k].file_cursor == b.file_cursor
                &&& backs[k].file_scroll == b.file_scroll
                &&& backs[k].nav_stack@ == b.nav_stack@
                &&& backs[k].nav_stack.len() == before[0].nav_stack.len() + (backs.len() - 1 - k)
            },
    decreases backs.len(),
{
    let n = backs.len() as int;
    if n == 0 {
        return;
    }
    assert forall|k: int| 0 <= k < n implies {
        let b = before[n - 1 - k];
        &&& back_cmds[k] is None
        &&& (#[trigger] backs[k]).current_path == b.current_path
        &&& backs[k].files@ == b.files@
        &&& backs[k].file_cursor == b.file_cursor
        &&& backs[k].file_scroll == b.file_scroll
        &&& backs[k].nav_stack@ == b.nav_stack@
        &&& backs[k].nav_stack.len() == before[0].nav_stack.len() + (n - 1 - k)
    } by {
        lemma_back_chain(before, down, cmds, start, backs, back_cmds, k);
        lemma_stack_grows(before, down, cmds, n - 1 - k);
    }
}

/// Each descent of the chain adds one frame.
proof fn lemma_stack_grows(before: Seq<App>, down: Seq<App>, cmds: Seq<Option<Command>>, i: int)
    requires
        before.len() == down.len(),
        cmds.len() == down.len(),
        0 <= i < before.len(),
        forall|j: int| 0 <= j < before.len() ==> descended(#[trigger] before[j], down[j], cmds[j]),
        forall|j: int| 0 <= j < before.len() - 1 ==> (#[trigger] before[j + 1]).nav_stack@ == down[j].nav_stack@,
    ensures
        before[i].nav_stack.len() == before[0].nav_stack.len() + i,
    decreases i,
{
    if i > 0 {
        lemma_stack_grows(before, down, cmds, i - 1);
        assert(descended(before[i - 1], down[i - 1], cmds[i - 1]));
        let j = i - 1;
        assert(before[j + 1].nav_stack@ == down[j].nav_stack@);
    }
}

proof fn lemma_back_chain(
    before: Seq<App>,
    down: Seq<App>,
    cmds: Seq<Option<Command>>,
    start: App,
    backs: Seq<App>,
    back_cmds: Seq<Option<Command>>,
    k: int,
)
    requires
        before.len() == down.len(),
        cmds.len() == down.len(),
        backs.len() == down.len(),
        back_cmds.len() == down.len(),
        0 <= k < backs.len(),
        forall|i: int| 0 <= i < before.len() ==> (#[trigger] before[i]).current_snapshot_id is Some,
        forall|i: int| 0 <= i < before.len() ==> descended(#[trigger] before[i], down[i], cmds[i]),
        forall|i: int| 0 <= i < before.len() - 1 ==> (#[trigger] before[i + 1]).nav_stack@ == down[i].nav_stack@,
        start.nav_stack@ == down.last().nav_stack@,
        start.focused_panel == Panel::Files,
        start.current_snapshot_id is Some,
        back_post(start, backs[0], back_cmds[0]),
        forall|j: int| 0 < j < backs.len() ==> back_post(#[trigger] backs[j - 1], backs[j], back_cmds[j]),
    ensures
        ({
            let b = before[before.len() - 1 - k];
            &&& back_cmds[k] is None
            &&& backs[k].current_path == b.current_path
            &&& backs[k].files@ == b.files@
            &&& backs[k].file_cursor == b.file_cursor
            &&& backs[k].file_scroll == b.file_scroll
            &&& backs[k].nav_stack@ == b.nav_stack@
            &&& backs[k].focused_panel == Panel::Files
            &&& backs[k].current_snapshot_id is Some
        }),
    decreases k,
{
    let n = backs.len() as int;
    let i = n - 1 - k;
    if k == 0 {
        lemma_back_undoes_descent(before[i], down[i], cmds[i], start, backs[0], back_cmds[0]);
    } else {
        lemma_back_chain(before, down, cmds, start, backs, back_cmds, k - 1);
        assert(before[i + 1].nav_stack@ == down[i].nav_stack@);
        assert(back_post(backs[k - 1], backs[k], back_cmds[k]));
        lemma_back_undoes_descent(before[i], down[i], cmds[i], backs[k - 1], backs[k], back_cmds[k]);
    }
}

/// `post` is `pre` with the matches of its query computed anew and the files
/// cursor at the top.
pub open spec fn filter_applied(pre: App, post: App) -> bool {
    &&& post == (App { filtered_files: post.filtered_files, file_cursor: 0, file_scroll: 0, ..pre })
    &&& post.filtered_files@ == matching_indices(pre.files@, pre.search_query@, pre.files.len() as int)
}

/// Filtering twice with the same query gives the matches and the list shown by
/// filtering once.
pub proof fn lemma_filter_idempotent(pre: App, once: App, twice: App)
    requires
        filter_applied(pre, once),
        filter_applied(once, twice),
    ensures
        twice.filtered_files@ == once.filtered_files@,
        twice.visible_list() == once.visible_list(),
        twice.file_cursor == once.file_cursor,
        twice.file_scroll == once.file_scroll,
{
}

/// The empty query matches every entry, in order.
pub proof fn lemma_empty_query_matches_all(files: Seq<FileNode>, n: int)
    requires
        0 <= n <= files.len(),
    ensures
        matching_indices(files, Seq::empty(), n) == Seq::new(n as nat, |i: int| i as usize),
    decreases n,
{
    if n > 0 {
        lemma_empty_query_matches_all(files, n - 1);
        assert(matching_indices(files, Seq::empty(), n) =~= Seq::new(n as nat, |i: int| i as usize));
    }
}

/// Cancelling a search clears the query, shows the full unfiltered list and puts
/// the cursor and scroll at zero.
pub proof fn lemma_cancel_search_restores_list(pre: App, post: App)
    requires
        search_key_post(pre, post, KeyCode::Esc),
    ensures
        post.search_query@.len() == 0,
        !post.filtering(),
        post.visible_list() == pre.files@,
        post.file_cursor == 0,
        post.file_scroll == 0,
        post.filtered_files@ == Seq::new(pre.files.len() as nat, |i: int| i as usize),
{
    lemma_empty_query_matches_all(pre.files@, pre.files.len() as int);
}

/// A listing shows the parent entry if and only if the path is not the root of
/// the active snapshot, provided the backend listed no entry of that name.
pub proof fn lemma_parent_entry_iff_below_root(shown: Seq<FileNode>, entries: Seq<FileNode>, path: Seq<char>, root: Seq<char>)
    requires
        shown_listing(shown, entries, path, root),
        forall|i: int| 0 <= i < entries.len() ==> !is_parent_name(#[trigger] entries[i].name@),
    ensures
        (exists|i: int| 0 <= i < shown.len() && is_parent_name(#[trigger] shown[i].name@)) <==> path != root,
{
    if path != root {
        assert(is_parent_name(shown[0].name@));
    } else {
        assert forall|i: int| 0 <= i < shown.len() implies !is_parent_name(#[trigger] shown[i].name@) by {
            assert(shown[i] == entries[i]);
        }
    }
}

/// After a snapshot is selected from the list, moves and descents aside, the
/// listing that comes back shows the parent entry if and only if its path is not
/// the primary root of that snapshot (the backend listing no entry named `..`).
pub proof fn lemma_parent_entry_iff_below_selected_root(
    pre: App,
    chosen: App,
    r: Option<Command>,
    before_listing: App,
    entries: Seq<FileNode>,
    post: App,
)
    requires
        pre.focused_panel == Panel::Snapshots,
        pre.snapshot_cursor < pre.snapshots.len(),
        select_post(pre, chosen, r),
        before_listing.snapshot_root == chosen.snapshot_root,
        files_shown(before_listing, post, entries),
        forall|i: int| 0 <= i < entries.len() ==> !is_parent_name(#[trigger] entries[i].name@),
    ensures
        (exists|i: int| 0 <= i < post.files.len() && is_parent_name(#[trigger] post.files@[i].name@))
            <==> before_listing.current_path@ != primary_root(pre.snapshots[pre.snapshot_cursor as int]),
{
    lemma_parent_entry_iff_below_root(post.files@, entries, before_listing.current_path@, before_listing.snapshot_root@);
}

/// Selecting the parent entry does what going back does.
pub proof fn lemma_select_parent_is_back(pre: App, post: App, r: Option<Command>)
    requires
        pre.focused_panel == Panel::Files,
        pre.entry_at_cursor() is Some,
        pre.entry_at_cursor()->0.is_directory(),
        is_parent_name(pre.entry_at_cursor()->0.name@),
    ensures
        select_post(pre, post, r) == back_post(pre, post, r),
{
}

} // verus!
