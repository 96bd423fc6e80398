//! The restore-destination picker: an editable path, the sub-directories of the
//! directory it names, and three controls that take the focus in turn.
//!
//! The picker reads no disk itself. After each edit it is marked stale; whoever
//! owns the disk then asks it for the path to probe (`expanded_input`), tells it
//! whether that path is a directory, and hands it the entries of `resolve_dir`
//! through `refresh_entries`.

use vstd::prelude::*;

use crate::file::{is_parent_name, is_parent_name_exec, parent_of, parent_or_root, parent_or_root_exec, path_parent};
use crate::text::{char_codes, codes, key_sorted, lemma_key_sorted_member, lower_of, lowercase, push_char, sort_by_keys};

verus! {

/// The control of the picker that has the focus.
#[derive(Debug, Clone, Copy, PartialEq, Eq, Structural)]
pub enum DialogFocus {
    PathPicker,
    DownloadButton,
    CancelButton,
}

/// A name found in a directory of the local disk.
#[derive(Debug, Clone)]
pub struct DirEntry {
    pub name: String,
    pub is_dir: bool,
}

impl DirEntry {
    /// A field-by-field copy.
    pub fn copied(&self) -> (r: DirEntry)
        ensures
            r == *self,
    {
        DirEntry { name: self.name.clone(), is_dir: self.is_dir }
    }
}

pub struct DownloadDialog {
    /// Path inside the snapshot that is to be restored.
    pub source_path: String,
    /// The destination as typed.
    pub input_text: String,
    /// Edit cursor, in characters.
    pub cursor_pos: usize,
    /// `..` unless at the root, then the visible sub-directories by name.
    pub entries: Vec<DirEntry>,
    pub selected: usize,
    pub scroll: usize,
    pub focus: DialogFocus,
    /// Home directory, for a leading `~`.
    pub home: Option<String>,
    /// Whether the typed path named a directory when the entries were last read.
    pub input_is_dir: bool,
    /// The text changed since the entries were last read.
    pub needs_refresh: bool,
}

pub open spec fn next_focus(f: DialogFocus) -> DialogFocus {
    match f {
        DialogFocus::PathPicker => DialogFocus::DownloadButton,
        DialogFocus::DownloadButton => DialogFocus::CancelButton,
        DialogFocus::CancelButton => DialogFocus::PathPicker,
    }
}

pub open spec fn prev_focus(f: DialogFocus) -> DialogFocus {
    match f {
        DialogFocus::PathPicker => DialogFocus::CancelButton,
        DialogFocus::DownloadButton => DialogFocus::PathPicker,
        DialogFocus::CancelButton => DialogFocus::DownloadButton,
    }
}

/// The typed path with a leading `~` (alone or before `/`) read as the home directory.
pub open spec fn home_expanded(text: Seq<char>, home: Option<String>) -> Seq<char> {
    match home {
        Some(h) => if text.len() == 1 && text[0] == '~' {
            h@
        } else if text.len() >= 2 && text[0] == '~' && text[1] == '/' {
            h@ + text.subrange(1, text.len() as int)
        } else {
            text
        },
        None => text,
    }
}

/// The directory a path stands for: itself if it is one, else its parent (or `/`).
pub open spec fn base_dir(expanded: Seq<char>, is_dir: bool) -> Seq<char> {
    if is_dir {
        expanded
    } else {
        parent_or_root(expanded)
    }
}

/// A directory other than the root gets a `..` entry.
pub open spec fn shows_up_link(dir: Seq<char>) -> bool {
    parent_of(dir) is Some && dir != "/"@
}

pub open spec fn is_hidden(name: Seq<char>) -> bool {
    name.len() > 0 && name[0] == '.'
}

/// The picker shows directories that are not hidden.
pub open spec fn pickable(e: DirEntry) -> bool {
    e.is_dir && !is_hidden(e.name@)
}

pub open spec fn name_key(e: DirEntry) -> Seq<u64> {
    codes(lower_of(e.name@))
}

pub open spec fn raw_entries(listing: Option<Vec<DirEntry>>) -> Seq<DirEntry> {
    match listing {
        Some(v) => v@,
        None => Seq::empty(),
    }
}

/// Index of the first entry read from the disk: past the `..` entry, if any.
pub open spec fn first_read(dir: Seq<char>) -> int {
    if shows_up_link(dir) {
        1
    } else {
        0
    }
}

/// The entries shown for `dir`, whose reading gave `raw`: `..` first unless at the
/// root, then the pickable entries of `raw` by lowercased name.
pub open spec fn listing_for(entries: Seq<DirEntry>, dir: Seq<char>, raw: Seq<DirEntry>) -> bool {
    let h = first_read(dir);
    &&& entries.len() >= h
    &&& shows_up_link(dir) ==> is_parent_name(entries[0].name@) && entries[0].is_dir
    &&& entries.subrange(h, entries.len() as int) == key_sorted(raw.filter(|e: DirEntry| pickable(e)), |e: DirEntry| name_key(e))
}

/// `name` under `base`, with one separator; an absolute `name` stands alone.
pub open spec fn join_path(base: Seq<char>, name: Seq<char>) -> Seq<char> {
    if name.len() > 0 && name[0] == '/' {
        name
    } else if base.len() == 0 || base.last() == '/' {
        base + name
    } else {
        base.push('/') + name
    }
}

fn join_path_exec(base: String, name: &str) -> (r: String)
    ensures
        r@ == join_path(base@, name@),
{
    let n = name.unicode_len();
    if n > 0 && name.get_char(0) == '/' {
        return String::from_str(name);
    }
    let b = base.unicode_len();
    let mut s = base;
    if b > 0 && s.as_str().get_char(b - 1) != '/' {
        push_char(&mut s, '/');
    }
    s.append(name);
    s
}

/// The two parents up from a path that is not a directory, one up from one that is.
pub open spec fn up_target(expanded: Seq<char>, is_dir: bool) -> Option<Seq<char>> {
    if is_dir {
        parent_of(expanded)
    } else {
        match parent_of(expanded) {
            Some(p) => parent_of(p),
            None => None,
        }
    }
}

/// The scroll offset that keeps `selected` within a window of `height` rows.
pub open spec fn scrolled(selected: int, scroll: int, height: int) -> int {
    if height == 0 {
        scroll
    } else if selected < scroll {
        selected
    } else if selected >= scroll + height {
        selected - height + 1
    } else {
        scroll
    }
}

/// `text` with `c` put in at `at`.
pub open spec fn inserted(text: Seq<char>, at: int, c: char) -> Seq<char> {
    text.subrange(0, at) + seq![c] + text.subrange(at, text.len() as int)
}

/// `text` without the character at `at`.
pub open spec fn removed(text: Seq<char>, at: int) -> Seq<char> {
    text.subrange(0, at) + text.subrange(at + 1, text.len() as int)
}

pub(crate) fn insert_at(text: &String, at: usize, c: char) -> (r: String)
    requires
        at <= text@.len(),
    ensures
        r@ == inserted(text@, at as int, c),
{
    let t = text.as_str();
    let n = t.unicode_len();
    let mut s = String::from_str(t.substring_char(0, at));
    push_char(&mut s, c);
    s.append(t.substring_char(at, n));
    assert(s@ =~= inserted(text@, at as int, c));
    s
}

pub(crate) fn remove_at(text: &String, at: usize) -> (r: String)
    requires
        at < text@.len(),
    ensures
        r@ == removed(text@, at as int),
{
    let t = text.as_str();
    let n = t.unicode_len();
    let mut s = String::from_str(t.substring_char(0, at));
    s.append(t.substring_char(at + 1, n));
    s
}

/// `n` is `o` with the text set to `text`, the cursor moved, the selection and
/// scroll back at the top, and the entries stale.
pub open spec fn retyped(o: DownloadDialog, n: DownloadDialog, text: Seq<char>, cursor: int) -> bool {
    &&& n.wf()
    &&& n == (DownloadDialog {
        input_text: n.input_text,
        cursor_pos: cursor as usize,
        selected: 0,
        scroll: 0,
        needs_refresh: true,
        ..o
    })
    &&& n.input_text@ == text
    &&& n.cursor_pos == cursor
}

/// The text becomes `target` (`/` for an empty one), the cursor at its end.
pub open spec fn moved_to(o: DownloadDialog, n: DownloadDialog, target: Seq<char>) -> bool {
    let t = if target.len() == 0 { "/"@ } else { target };
    retyped(o, n, t, t.len() as int)
}

/// `c` typed at the cursor, unless the text is as long as a length can be.
pub open spec fn typed(o: DownloadDialog, n: DownloadDialog, c: char) -> bool {
    if o.input_text@.len() + 1 < usize::MAX {
        retyped(o, n, inserted(o.input_text@, o.cursor_pos as int, c), o.cursor_pos + 1)
    } else {
        n == o
    }
}

pub open spec fn backspaced(o: DownloadDialog, n: DownloadDialog) -> bool {
    if o.cursor_pos > 0 {
        retyped(o, n, removed(o.input_text@, o.cursor_pos - 1), o.cursor_pos - 1)
    } else {
        n == o
    }
}

pub open spec fn deleted(o: DownloadDialog, n: DownloadDialog) -> bool {
    if o.cursor_pos < o.input_text@.len() {
        retyped(o, n, removed(o.input_text@, o.cursor_pos as int), o.cursor_pos as int)
    } else {
        n == o
    }
}

/// One directory up, where there is one (and its text can grow by one).
pub open spec fn went_up(o: DownloadDialog, n: DownloadDialog) -> bool {
    let up = up_target(o.expanded(), o.input_is_dir);
    if up is Some && up->0.len() + 1 < usize::MAX {
        moved_to(o, n, up->0)
    } else {
        n == o
    }
}

/// Into the selected directory: `..` goes up, another name is joined to the
/// directory that the text stands for.
pub open spec fn entered(o: DownloadDialog, n: DownloadDialog) -> bool {
    if o.selected < o.entries.len() && o.entries[o.selected as int].is_dir {
        let name = o.entries[o.selected as int].name@;
        if is_parent_name(name) {
            went_up(o, n)
        } else {
            let target = join_path(base_dir(o.expanded(), o.input_is_dir), name);
            if target.len() + 1 < usize::MAX {
                moved_to(o, n, target)
            } else {
                n == o
            }
        }
    } else {
        n == o
    }
}

/// A picker just opened on `source` with the text `dir`, its entries not yet read.
pub open spec fn is_fresh(d: DownloadDialog, source: String, dir: Seq<char>, home: Option<String>) -> bool {
    &&& d.wf()
    &&& d.source_path == source
    &&& d.input_text@ == dir
    &&& d.cursor_pos == dir.len()
    &&& d.entries.len() == 0
    &&& d.selected == 0
    &&& d.scroll == 0
    &&& d.focus == DialogFocus::PathPicker
    &&& d.home == home
    &&& !d.input_is_dir
    &&& d.needs_refresh
}

impl DownloadDialog {
    /// The edit cursor lies within the text.
    pub open spec fn wf(&self) -> bool {
        self.cursor_pos <= self.input_text@.len()
    }

    /// The path the text stands for, `~` expanded.
    pub open spec fn expanded(&self) -> Seq<char> {
        home_expanded(self.input_text@, self.home)
    }

    pub fn new(source_path: String, initial_dir: &str, home: Option<String>) -> (r: Self)
        ensures
            is_fresh(r, source_path, initial_dir@, home),
    {
        DownloadDialog {
            source_path,
            input_text: String::from_str(initial_dir),
            cursor_pos: initial_dir.unicode_len(),
            entries: Vec::new(),
            selected: 0,
            scroll: 0,
            focus: DialogFocus::PathPicker,
            home,
            input_is_dir: false,
            needs_refresh: true,
        }
    }

    pub fn focus_next(&mut self)
        ensures
            *final(self) == (DownloadDialog { focus: next_focus(old(self).focus), ..*old(self) }),
    {
        self.focus = match self.focus {
            DialogFocus::PathPicker => DialogFocus::DownloadButton,
            DialogFocus::DownloadButton => DialogFocus::CancelButton,
            DialogFocus::CancelButton => DialogFocus::PathPicker,
        };
    }

    pub fn focus_prev(&mut self)
        ensures
            *final(self) == (DownloadDialog { focus: prev_focus(old(self).focus), ..*old(self) }),
    {
        self.focus = match self.focus {
            DialogFocus::PathPicker => DialogFocus::CancelButton,
            DialogFocus::DownloadButton => DialogFocus::PathPicker,
            DialogFocus::CancelButton => DialogFocus::DownloadButton,
        };
    }

    pub fn expanded_input(&self) -> (r: String)
        ensures
            r@ == self.expanded(),
    {
        let t = self.input_text.as_str();
        let n = t.unicode_len();
        match &self.home {
            Some(h) => {
                if n == 1 && t.get_char(0) == '~' {
                    h.clone()
                } else if n >= 2 && t.get_char(0) == '~' && t.get_char(1) == '/' {
                    h.clone().concat(t.substring_char(1, n))
                } else {
                    String::from_str(t)
                }
            },
            None => String::from_str(t),
        }
    }

    /// The directory to list, and to restore into: the expanded text if
    /// `input_is_dir`, else its parent.
    pub fn resolve_dir(&self, input_is_dir: bool) -> (r: String)
        ensures
            r@ == base_dir(self.expanded(), input_is_dir),
    {
        let expanded = self.expanded_input();
        if input_is_dir {
            expanded
        } else {
            parent_or_root_exec(expanded.as_str())
        }
    }

    /// Reads the entries anew: `input_is_dir` tells whether the expanded text
    /// names a directory, `listing` what reading `resolve_dir(input_is_dir)` gave
    /// (`None` where it could not be read).
    pub fn refresh_entries(&mut self, input_is_dir: bool, listing: Option<Vec<DirEntry>>)
        ensures
            *final(self) == (DownloadDialog {
                entries: final(self).entries,
                selected: 0,
                scroll: 0,
                input_is_dir,
                needs_refresh: false,
                ..*old(self)
            }),
            listing_for(final(self).entries@, base_dir(old(self).expanded(), input_is_dir), raw_entries(listing)),
    {
        let dir = self.resolve_dir(input_is_dir);
        let mut entries: Vec<DirEntry> = Vec::new();
        let root = String::from_str("/");
        let up = path_parent(dir.as_str()).is_some() && dir != root;
        if up {
            entries.push(DirEntry { name: String::from_str(".."), is_dir: true });
        }
        let ghost raw = raw_entries(listing);
        let ghost pred = |e: DirEntry| pickable(e);
        let mut kept: Vec<DirEntry> = Vec::new();
        let mut keys: Vec<Vec<u64>> = Vec::new();
        match listing {
            Some(v) => {
                let mut i: usize = 0;
                while i < v.len()
                    invariant
                        raw == v@,
                        i <= v.len(),
                        pred == (|e: DirEntry| pickable(e)),
                        kept@ == v@.subrange(0, i as int).filter(pred),
                        keys.len() == kept.len(),
                        forall|k: int| 0 <= k < kept.len() ==> #[trigger] keys[k]@ == name_key(kept[k]),
                    decreases v.len() - i,
                {
                    let e = &v[i];
                    let ghost prefix = v@.subrange(0, i + 1);
                    let ghost kept_before = kept@;
                    let name = e.name.as_str();
                    let keep = e.is_dir && !(name.unicode_len() > 0 && name.get_char(0) == '.');
                    assert(keep == pickable(*e));
                    if keep {
                        let lower = lowercase(name);
                        keys.push(char_codes(lower.as_str()));
                        kept.push(e.copied());
                    }
                    proof {
                        reveal(Seq::filter);
                        assert(prefix.drop_last() == v@.subrange(0, i as int));
                        assert(prefix.last() == *e);
                        if pred(*e) {
                            assert(kept@ == kept_before.push(*e));
                        }
                        assert(kept@ == prefix.filter(pred));
                    }
                    i = i + 1;
                }
                assert(v@.subrange(0, v.len() as int) == v@);
            },
            None => {
                assert(raw =~= Seq::empty());
                proof {
                    reveal(Seq::filter);
                }
            },
        }
        let mut sorted = sort_by_keys(kept, keys, Ghost(|e: DirEntry| name_key(e)));
        let ghost head = entries@;
        entries.append(&mut sorted);
        proof {
            let h: int = if up { 1 } else { 0 };
            assert(head.len() == h);
            assert(entries@.subrange(h, entries@.len() as int) =~= key_sorted(raw.filter(pred), |e: DirEntry| name_key(e)));
        }
        self.entries = entries;
        self.selected = 0;
        self.scroll = 0;
        self.input_is_dir = input_is_dir;
        self.needs_refresh = false;
    }

    pub fn insert_char(&mut self, c: char)
        requires
            old(self).wf(),
        ensures
            typed(*old(self), *final(self), c),
    {
        if self.input_text.as_str().unicode_len() >= usize::MAX - 1 {
            return;
        }
        self.input_text = insert_at(&self.input_text, self.cursor_pos, c);
        self.cursor_pos = self.cursor_pos + 1;
        self.selected = 0;
        self.scroll = 0;
        self.needs_refresh = true;
    }

    pub fn backspace(&mut self)
        requires
            old(self).wf(),
        ensures
            backspaced(*old(self), *final(self)),
    {
        if self.cursor_pos > 0 {
            self.cursor_pos = self.cursor_pos - 1;
            self.input_text = remove_at(&self.input_text, self.cursor_pos);
            self.selected = 0;
            self.scroll = 0;
            self.needs_refresh = true;
        }
    }

    pub fn delete(&mut self)
        requires
            old(self).wf(),
        ensures
            deleted(*old(self), *final(self)),
    {
        if self.cursor_pos < self.input_text.as_str().unicode_len() {
            self.input_text = remove_at(&self.input_text, self.cursor_pos);
            self.selected = 0;
            self.scroll = 0;
            self.needs_refresh = true;
        }
    }

    pub fn cursor_left(&mut self)
        ensures
            *final(self) == (DownloadDialog {
                cursor_pos: if old(self).cursor_pos > 0 { (old(self).cursor_pos - 1) as usize } else { 0 },
                ..*old(self)
            }),
    {
        if self.cursor_pos > 0 {
            self.cursor_pos = self.cursor_pos - 1;
        }
    }

    pub fn cursor_right(&mut self)
        requires
            old(self).wf(),
        ensures
            *final(self) == (DownloadDialog {
                cursor_pos: if old(self).cursor_pos < old(self).input_text@.len() {
                    (old(self).cursor_pos + 1) as usize
                } else {
                    old(self).cursor_pos
                },
                ..*old(self)
            }),
    {
        if self.cursor_pos < self.input_text.as_str().unicode_len() {
            self.cursor_pos = self.cursor_pos + 1;
        }
    }

    pub fn cursor_home(&mut self)
        ensures
            *final(self) == (DownloadDialog { cursor_pos: 0, ..*old(self) }),
    {
        self.cursor_pos = 0;
    }

    pub fn cursor_end(&mut self)
        ensures
            *final(self) == (DownloadDialog { cursor_pos: old(self).input_text@.len() as usize, ..*old(self) }),
    {
        self.cursor_pos = self.input_text.as_str().unicode_len();
    }

    pub fn select_prev(&mut self)
        ensures
            *final(self) == (DownloadDialog {
                selected: if old(self).selected > 0 { (old(self).selected - 1) as usize } else { 0 },
                ..*old(self)
            }),
    {
        if self.selected > 0 {
            self.selected = self.selected - 1;
        }
    }

    pub fn select_next(&mut self)
        ensures
            *final(self) == (DownloadDialog {
                selected: if old(self).selected + 1 < old(self).entries.len() {
                    (old(self).selected + 1) as usize
                } else {
                    old(self).selected
                },
                ..*old(self)
            }),
    {
        if self.entries.len() > 0 && self.selected < self.entries.len() - 1 {
            self.selected = self.selected + 1;
        }
    }

    /// Sets the text to `target` (`/` for an empty one) with the cursor at its end.
    fn set_text(&mut self, target: String)
        requires
            target@.len() + 1 < usize::MAX,
        ensures
            moved_to(*old(self), *final(self), target@),
    {
        if target.as_str().unicode_len() == 0 {
            self.input_text = String::from_str("/");
            proof {
                reveal_strlit("/");
            }
        } else {
            self.input_text = target;
        }
        self.cursor_pos = self.input_text.as_str().unicode_len();
        self.selected = 0;
        self.scroll = 0;
        self.needs_refresh = true;
    }

    /// The text moves up one directory, where there is one.
    pub fn go_parent(&mut self)
        ensures
            went_up(*old(self), *final(self)),
    {
        let expanded = self.expanded_input();
        let parent = if self.input_is_dir {
            path_parent(expanded.as_str())
        } else {
            match path_parent(expanded.as_str()) {
                Some(p) => path_parent(p.as_str()),
                None => None,
            }
        };
        if let Some(p) = parent {
            if p.as_str().unicode_len() < usize::MAX - 1 {
                self.set_text(p);
            }
        }
    }

    /// Enters the selected directory: `..` goes up, another name is joined to
    /// the directory the text stands for.
    pub fn enter_selected(&mut self)
        ensures
            entered(*old(self), *final(self)),
    {
        if self.selected < self.entries.len() && self.entries[self.selected].is_dir {
            if is_parent_name_exec(&self.entries[self.selected].name) {
                self.go_parent();
                return;
            }
            let base = self.resolve_dir(self.input_is_dir);
            let target = join_path_exec(base, self.entries[self.selected].name.as_str());
            if target.as_str().unicode_len() < usize::MAX - 1 {
                self.set_text(target);
            }
        }
    }

    /// Where a restore goes: the expanded text if it named a directory, else its parent.
    pub fn confirmed_path(&self) -> (r: String)
        ensures
            r@ == base_dir(self.expanded(), self.input_is_dir),
    {
        self.resolve_dir(self.input_is_dir)
    }

    pub fn adjust_scroll(&mut self, visible_height: usize)
        ensures
            *final(self) == (DownloadDialog {
                scroll: scrolled(old(self).selected as int, old(self).scroll as int, visible_height as int) as usize,
                ..*old(self)
            }),
    {
        if visible_height == 0 {
            return;
        }
        if self.selected < self.scroll {
            self.scroll = self.selected;
        } else if self.selected - self.scroll >= visible_height {
            self.scroll = self.selected - visible_height + 1;
        }
    }
}

/// Names and kinds of picker entries, in order.
pub open spec fn entry_views(s: Seq<DirEntry>) -> Seq<(Seq<char>, bool)> {
    s.map_values(|e: DirEntry| (e.name@, e.is_dir))
}

/// Reading the same directory with the same contents gives the same entries, in
/// the same order; past the `..` entry there are only directories, none hidden.
pub proof fn lemma_listing_deterministic(a: Seq<DirEntry>, b: Seq<DirEntry>, dir: Seq<char>, raw: Seq<DirEntry>)
    requires
        listing_for(a, dir, raw),
        listing_for(b, dir, raw),
    ensures
        entry_views(a) == entry_views(b),
        forall|i: int| first_read(dir) <= i < a.len() ==> #[trigger] a[i].is_dir && !is_hidden(a[i].name@),
{
    let h = first_read(dir);
    let pred = |e: DirEntry| pickable(e);
    let sorted = key_sorted(raw.filter(pred), |e: DirEntry| name_key(e));
    assert(a.subrange(h, a.len() as int) == sorted);
    assert(b.subrange(h, b.len() as int) == sorted);
    assert(a.len() == b.len());
    assert forall|i: int| 0 <= i < a.len() implies entry_views(a)[i] == entry_views(b)[i] by {
        if i >= h {
            assert(a[i] == sorted[i - h]);
            assert(b[i] == sorted[i - h]);
        }
    }
    assert(entry_views(a) =~= entry_views(b));
    assert forall|i: int| h <= i < a.len() implies #[trigger] a[i].is_dir && !is_hidden(a[i].name@) by {
        assert(a[i] == sorted[i - h]);
        lemma_key_sorted_member(raw.filter(pred), |e: DirEntry| name_key(e), i - h);
        let x = sorted[i - h];
        let k = choose|k: int| 0 <= k < raw.filter(pred).len() && raw.filter(pred)[k] == x;
        raw.lemma_filter_pred(pred, k);
    }
}

/// Two pickers with the same text and home, refreshed with the same findings
/// about the disk, show the same entries in the same order.
pub proof fn lemma_refresh_deterministic(
    p: DownloadDialog,
    q: DownloadDialog,
    p_after: DownloadDialog,
    q_after: DownloadDialog,
    input_is_dir: bool,
    raw: Seq<DirEntry>,
)
    requires
        p.input_text@ == q.input_text@,
        p.home == q.home,
        listing_for(p_after.entries@, base_dir(p.expanded(), input_is_dir), raw),
        listing_for(q_after.entries@, base_dir(q.expanded(), input_is_dir), raw),
    ensures
        entry_views(p_after.entries@) == entry_views(q_after.entries@),
{
    lemma_listing_deterministic(p_after.entries@, q_after.entries@, base_dir(p.expanded(), input_is_dir), raw);
}

} // verus!
