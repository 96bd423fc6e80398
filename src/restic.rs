//! What the library decides about the archive tool: the arguments of its three
//! operations, and which of the entries it lists belong to a directory, in what
//! order.

use vstd::prelude::*;

use crate::file::FileNode;
use crate::text::{char_codes, codes, key_sorted, lex_le, lower_of, lowercase, sort_by_keys};

verus! {

/// The path without its trailing slashes.
pub open spec fn trim_end_slashes(s: Seq<char>) -> Seq<char>
    decreases s.len(),
{
    if s.len() > 0 && s.last() == '/' {
        trim_end_slashes(s.drop_last())
    } else {
        s
    }
}

pub open spec fn has_slash(s: Seq<char>) -> bool {
    exists|i: int| 0 <= i < s.len() && s[i] == '/'
}

/// `child` names an entry directly inside `parent`; trailing slashes do not count,
/// and under an empty or root parent a name without a slash is a child too.
pub open spec fn direct_child(child: Seq<char>, parent: Seq<char>) -> bool {
    let p = trim_end_slashes(parent);
    let c = trim_end_slashes(child);
    &&& p.is_prefix_of(c)
    &&& {
        let rest = c.subrange(p.len() as int, c.len() as int);
        if rest.len() > 0 && rest[0] == '/' {
            !has_slash(rest.drop_first())
        } else {
            p.len() == 0 && !has_slash(rest)
        }
    }
}

/// Length of the path once its trailing slashes are cut.
fn trimmed_len(s: &str) -> (k: usize)
    ensures
        k <= s@.len(),
        s@.subrange(0, k as int) == trim_end_slashes(s@),
{
    let mut k = s.unicode_len();
    assert(s@.subrange(0, k as int) == s@);
    while k > 0 && s.get_char(k - 1) == '/'
        invariant
            k <= s@.len(),
            trim_end_slashes(s@) == trim_end_slashes(s@.subrange(0, k as int)),
        decreases k,
    {
        assert(s@.subrange(0, k as int).drop_last() == s@.subrange(0, k - 1));
        k = k - 1;
    }
    k
}

/// Whether a `/` stands at an index in `[from, to)`.
fn slash_between(s: &str, from: usize, to: usize) -> (r: bool)
    requires
        from <= to <= s@.len(),
    ensures
        r == has_slash(s@.subrange(from as int, to as int)),
{
    let mut i = from;
    while i < to
        invariant
            from <= i <= to <= s@.len(),
            forall|k: int| from <= k < i ==> s@[k] != '/',
        decreases to - i,
    {
        if s.get_char(i) == '/' {
            assert(s@.subrange(from as int, to as int)[i - from] == '/');
            return true;
        }
        i = i + 1;
    }
    assert forall|k: int| 0 <= k < to - from implies s@.subrange(from as int, to as int)[k] != '/' by {
        assert(s@[from + k] != '/');
    }
    false
}

pub fn is_direct_child(child_path: &str, parent_path: &str) -> (r: bool)
    ensures
        r == direct_child(child_path@, parent_path@),
{
    let p = trimmed_len(parent_path);
    let c = trimmed_len(child_path);
    let ghost ps = trim_end_slashes(parent_path@);
    let ghost cs = trim_end_slashes(child_path@);
    if p > c {
        return false;
    }
    let mut i: usize = 0;
    while i < p
        invariant
            i <= p <= c,
            ps == parent_path@.subrange(0, p as int),
            cs == child_path@.subrange(0, c as int),
            ps == trim_end_slashes(parent_path@),
            cs == trim_end_slashes(child_path@),
            p <= parent_path@.len(),
            c <= child_path@.len(),
            forall|k: int| 0 <= k < i ==> child_path@[k] == parent_path@[k],
        decreases p - i,
    {
        if child_path.get_char(i) != parent_path.get_char(i) {
            assert(cs[i as int] == child_path@[i as int]);
            assert(ps[i as int] == parent_path@[i as int]);
            assert(cs.subrange(0, p as int)[i as int] != ps[i as int]);
            assert(!ps.is_prefix_of(cs));
            return false;
        }
        i = i + 1;
    }
    assert(ps.is_prefix_of(cs));
    let ghost rest = cs.subrange(p as int, c as int);
    assert(rest == child_path@.subrange(p as int, c as int));
    if p < c && child_path.get_char(p) == '/' {
        let s = slash_between(child_path, p + 1, c);
        assert(rest.drop_first() == child_path@.subrange(p + 1, c as int));
        !s
    } else {
        p == 0 && !slash_between(child_path, p, c)
    }
}

/// Dirs first, then by the code points of the lowercased name.
pub open spec fn listed_before(a: FileNode, b: FileNode) -> bool {
    ||| (a.is_directory() && !b.is_directory())
    ||| (a.is_directory() == b.is_directory() && lex_le(codes(lower_of(a.name@)), codes(lower_of(b.name@))))
}

pub open spec fn entry_key(e: FileNode) -> Seq<u64> {
    seq![if e.is_directory() { 0u64 } else { 1u64 }] + codes(lower_of(e.name@))
}

proof fn lemma_entry_key_order(a: FileNode, b: FileNode)
    requires
        lex_le(entry_key(a), entry_key(b)),
    ensures
        listed_before(a, b),
{
    assert(entry_key(a).drop_first() =~= codes(lower_of(a.name@)));
    assert(entry_key(b).drop_first() =~= codes(lower_of(b.name@)));
}

/// An entry that the listing of `path` shows: a direct child, not `path` itself.
pub open spec fn belongs_to(e: FileNode, path: Seq<char>) -> bool {
    e.path@ != path && direct_child(e.path@, path)
}

/// The entries of `nodes` that belong to the directory `path`, dirs first, each
/// group by lowercased name.
pub fn children_listing(nodes: Vec<FileNode>, path: &str) -> (r: Vec<FileNode>)
    ensures
        r@ == key_sorted(nodes@.filter(|e: FileNode| belongs_to(e, path@)), |e: FileNode| entry_key(e)),
        r@.to_multiset() == nodes@.filter(|e: FileNode| belongs_to(e, path@)).to_multiset(),
        forall|i: int, j: int| 0 <= i < j < r.len() ==> listed_before(r[i], r[j]),
{
    let ghost pred = |e: FileNode| belongs_to(e, path@);
    let owned = String::from_str(path);
    let mut kept: Vec<FileNode> = Vec::new();
    let mut keys: Vec<Vec<u64>> = Vec::new();
    let mut i: usize = 0;
    while i < nodes.len()
        invariant
            i <= nodes.len(),
            owned@ == path@,
            pred == (|e: FileNode| belongs_to(e, path@)),
            kept@ == nodes@.subrange(0, i as int).filter(pred),
            keys.len() == kept.len(),
            forall|k: int| 0 <= k < kept.len() ==> #[trigger] keys[k]@ == entry_key(kept[k]),
        decreases nodes.len() - i,
    {
        let n = &nodes[i];
        let ghost prefix = nodes@.subrange(0, i + 1);
        let ghost kept_before = kept@;
        proof {
            assert(prefix.drop_last() == nodes@.subrange(0, i as int));
            assert(prefix.last() == *n);
        }
        let keep = n.path != owned && is_direct_child(n.path.as_str(), path);
        assert(keep == belongs_to(*n, path@));
        assert(pred(*n) == belongs_to(*n, path@));
        if keep {
            let lower = lowercase(n.name.as_str());
            let mut k: Vec<u64> = Vec::new();
            if n.is_dir() {
                k.push(0);
            } else {
                k.push(1);
            }
            let mut name_key = char_codes(lower.as_str());
            k.append(&mut name_key);
            assert(k@ =~= entry_key(*n));
            kept.push(n.copied());
            keys.push(k);
        }
        proof {
            reveal(Seq::filter);
            if pred(*n) {
                assert(kept@ == kept_before.push(*n));
            }
            assert(kept@ == prefix.filter(pred));
        }
        i = i + 1;
    }
    assert(nodes@.subrange(0, nodes.len() as int) == nodes@);
    let r = sort_by_keys(kept, keys, Ghost(|e: FileNode| entry_key(e)));
    assert forall|i: int, j: int| 0 <= i < j < r.len() implies listed_before(r[i], r[j]) by {
        lemma_entry_key_order(r[i], r[j]);
    }
    r
}

/// How the library reaches an archive: its location, for the tool's `--repo`.
pub struct ResticClient {
    repository: String,
}

/// Texts of a list of arguments.
pub open spec fn texts(v: Seq<String>) -> Seq<Seq<char>> {
    v.map_values(|s: String| s@)
}

impl ResticClient {
    pub closed spec fn repository_spec(&self) -> Seq<char> {
        self.repository@
    }

    pub fn new(repository: String) -> (r: Self)
        ensures
            r.repository_spec() == repository@,
    {
        ResticClient { repository }
    }

    pub fn repository(&self) -> (r: &str)
        ensures
            r@ == self.repository_spec(),
    {
        self.repository.as_str()
    }

    /// `--repo <repository> --json snapshots`
    pub fn snapshots_args(&self) -> (r: Vec<String>)
        ensures
            texts(r@) == seq!["--repo"@, self.repository_spec(), "--json"@, "snapshots"@],
    {
        let r = vec![
            String::from_str("--repo"),
            self.repository.clone(),
            String::from_str("--json"),
            String::from_str("snapshots"),
        ];
        assert(texts(r@) =~= seq!["--repo"@, self.repository_spec(), "--json"@, "snapshots"@]);
        r
    }

    /// `--repo <repository> --json ls <snapshot> <path>`
    pub fn ls_args(&self, snapshot_id: &str, path: &str) -> (r: Vec<String>)
        ensures
            texts(r@) == seq!["--repo"@, self.repository_spec(), "--json"@, "ls"@, snapshot_id@, path@],
    {
        let r = vec![
            String::from_str("--repo"),
            self.repository.clone(),
            String::from_str("--json"),
            String::from_str("ls"),
            String::from_str(snapshot_id),
            String::from_str(path),
        ];
        assert(texts(r@) =~= seq!["--repo"@, self.repository_spec(), "--json"@, "ls"@, snapshot_id@, path@]);
        r
    }

    /// `--repo <repository> restore <snapshot> --include <path> --target <target>`
    pub fn restore_args(&self, snapshot_id: &str, include_path: &str, target: &str) -> (r: Vec<String>)
        ensures
            texts(r@) == seq![
                "--repo"@,
                self.repository_spec(),
                "restore"@,
                snapshot_id@,
                "--include"@,
                include_path@,
                "--target"@,
                target@,
            ],
    {
        let r = vec![
            String::from_str("--repo"),
            self.repository.clone(),
            String::from_str("restore"),
            String::from_str(snapshot_id),
            String::from_str("--include"),
            String::from_str(include_path),
            String::from_str("--target"),
            String::from_str(target),
        ];
        assert(texts(r@) =~= seq![
            "--repo"@,
            self.repository_spec(),
            "restore"@,
            snapshot_id@,
            "--include"@,
            include_path@,
            "--target"@,
            target@,
        ]);
        r
    }
}

} // verus!
