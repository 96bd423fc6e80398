//! Entries of a directory listing inside a snapshot.

use vstd::prelude::*;

use crate::text::{decimal, digit, digit_char, push_char, push_decimal};

verus! {

pub const KB: u64 = 1024;

pub const MB: u64 = 1048576;

pub const GB: u64 = 1073741824;

/// One file or directory of a snapshot, as the archive lists it.
#[derive(Debug, Clone)]
pub struct FileNode {
    pub name: String,
    /// `dir` for a directory, another word (`file`, `symlink`, ...) otherwise.
    pub node_type: String,
    /// Absolute path inside the snapshot.
    pub path: String,
    pub size: Option<u64>,
}

/// What `std::path::Path::parent` returns for a path: the path without its
/// last component, none for a root or an empty path.
pub uninterp spec fn parent_of(p: Seq<char>) -> Option<Seq<char>>;

/// Relies on `std::path::Path::parent`, read back as text.
#[verifier::external_body]
pub(crate) fn path_parent(p: &str) -> (r: Option<String>)
    ensures
        r is Some <==> parent_of(p@) is Some,
        r is Some ==> r->0@ == parent_of(p@)->0,
{
    match std::path::Path::new(p).parent() {
        Some(q) => Some(q.to_string_lossy().to_string()),
        None => None,
    }
}

/// The parent of a path, `/` where it has none.
pub open spec fn parent_or_root(p: Seq<char>) -> Seq<char> {
    match parent_of(p) {
        Some(q) => q,
        None => "/"@,
    }
}

pub(crate) fn parent_or_root_exec(p: &str) -> (r: String)
    ensures
        r@ == parent_or_root(p@),
{
    match path_parent(p) {
        Some(q) => q,
        None => String::from_str("/"),
    }
}

/// The name of the synthetic entry that leads to the parent directory.
pub open spec fn is_parent_name(name: Seq<char>) -> bool {
    name == ".."@
}

pub(crate) fn is_parent_name_exec(name: &String) -> (r: bool)
    ensures
        r == is_parent_name(name@),
{
    let dots = String::from_str("..");
    *name == dots
}

/// Tenths of `bytes / unit`, rounded to the nearest, ties to even.
pub open spec fn tenths(bytes: nat, unit: nat) -> nat
    recommends
        unit > 0,
{
    let q = (bytes * 10) / unit;
    let r = (bytes * 10) % unit;
    if 2 * r > unit || (2 * r == unit && q % 2 == 1) {
        q + 1
    } else {
        q
    }
}

/// A number of tenths written with one decimal.
pub open spec fn one_decimal(t: nat) -> Seq<char> {
    decimal(t / 10).push('.').push(digit_char((t % 10) as int))
}

/// Human-readable size: bytes below a KiB, else KiB, MiB or GiB with one decimal.
pub open spec fn size_text(bytes: nat) -> Seq<char> {
    if bytes >= GB {
        one_decimal(tenths(bytes, GB as nat)) + " GB"@
    } else if bytes >= MB {
        one_decimal(tenths(bytes, MB as nat)) + " MB"@
    } else if bytes >= KB {
        one_decimal(tenths(bytes, KB as nat)) + " KB"@
    } else {
        decimal(bytes) + " B"@
    }
}

pub fn format_bytes(bytes: u64) -> (r: String)
    ensures
        r@ == size_text(bytes as nat),
{
    let mut s = String::new();
    if bytes < KB {
        push_decimal(&mut s, bytes as u128);
        s.append(" B");
        return s;
    }
    let unit: u64 = if bytes >= GB {
        GB
    } else if bytes >= MB {
        MB
    } else {
        KB
    };
    let n: u128 = bytes as u128 * 10;
    let q: u128 = n / unit as u128;
    let r: u128 = n % unit as u128;
    assert(q <= n) by (nonlinear_arith)
        requires
            q == n / unit as u128,
            unit >= 1,
    ;
    let t: u128 = if 2 * r > unit as u128 || (2 * r == unit as u128 && q % 2 == 1) {
        q + 1
    } else {
        q
    };
    assert(t == tenths(bytes as nat, unit as nat));
    push_decimal(&mut s, t / 10);
    push_char(&mut s, '.');
    push_char(&mut s, digit(t % 10));
    assert(s@ =~= one_decimal(t as nat));
    if bytes >= GB {
        s.append(" GB");
    } else if bytes >= MB {
        s.append(" MB");
    } else {
        s.append(" KB");
    }
    s
}

impl FileNode {
    pub open spec fn is_directory(&self) -> bool {
        self.node_type@ == "dir"@
    }

    /// The label of the size column: `[DIR]`, the size, or `-` when unknown.
    pub open spec fn size_label(&self) -> Seq<char> {
        if self.is_directory() {
            "[DIR]"@
        } else {
            match self.size {
                Some(b) => size_text(b as nat),
                None => "-"@,
            }
        }
    }

    /// The name as listed: a directory other than the parent entry ends in `/`.
    pub open spec fn shown_name(&self) -> Seq<char> {
        if self.is_directory() && !is_parent_name(self.name@) {
            self.name@ + "/"@
        } else {
            self.name@
        }
    }

    pub fn is_dir(&self) -> (r: bool)
        ensures
            r == self.is_directory(),
    {
        let dir = String::from_str("dir");
        self.node_type == dir
    }

    pub fn formatted_size(&self) -> (r: String)
        ensures
            r@ == self.size_label(),
    {
        if self.is_dir() {
            String::from_str("[DIR]")
        } else {
            match self.size {
                Some(bytes) => format_bytes(bytes),
                None => String::from_str("-"),
            }
        }
    }

    pub fn display_name(&self) -> (r: String)
        ensures
            r@ == self.shown_name(),
    {
        let name = self.name.clone();
        if self.is_dir() && !is_parent_name_exec(&self.name) {
            name.concat("/")
        } else {
            name
        }
    }

    /// A field-by-field copy.
    pub fn copied(&self) -> (r: FileNode)
        ensures
            r == *self,
    {
        FileNode {
            name: self.name.clone(),
            node_type: self.node_type.clone(),
            path: self.path.clone(),
            size: self.size,
        }
    }
}

/// Copies a listing entry by entry.
pub fn copy_nodes(v: &Vec<FileNode>) -> (r: Vec<FileNode>)
    ensures
        r@ == v@,
{
    let mut r: Vec<FileNode> = Vec::new();
    let mut i: usize = 0;
    while i < v.len()
        invariant
            i <= v.len(),
            r@ == v@.subrange(0, i as int),
        decreases v.len() - i,
    {
        r.push(v[i].copied());
        assert(r@ =~= v@.subrange(0, i + 1));
        i = i + 1;
    }
    assert(v@.subrange(0, v.len() as int) =~= v@);
    r
}

/// The synthetic `..` entry that leads from `current_path` to its parent.
pub open spec fn is_parent_entry_of(e: FileNode, current_path: Seq<char>) -> bool {
    &&& is_parent_name(e.name@)
    &&& e.is_directory()
    &&& e.path@ == parent_or_root(current_path)
    &&& e.size is None
}

pub fn parent_entry(current_path: &str) -> (r: FileNode)
    ensures
        is_parent_entry_of(r, current_path@),
{
    FileNode {
        name: String::from_str(".."),
        node_type: String::from_str("dir"),
        path: parent_or_root_exec(current_path),
        size: None,
    }
}

/// A directory entry that stands for a whole snapshot path.
pub fn path_entry(path: &str) -> (r: FileNode)
    ensures
        r.name@ == path@,
        r.path@ == path@,
        r.is_directory(),
        r.size is None,
{
    FileNode {
        name: String::from_str(path),
        node_type: String::from_str("dir"),
        path: String::from_str(path),
        size: None,
    }
}

} // verus!
