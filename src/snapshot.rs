//! Snapshots of the archive and their order.

use vstd::prelude::*;

use crate::text::{key_sorted, lex_le, sort_by_keys};

verus! {

/// One point-in-time capture of the archive.
#[derive(Debug, Clone)]
pub struct Snapshot {
    pub full_id: String,
    pub short_id: String,
    /// Creation time: whole seconds since the Unix epoch, UTC.
    pub time_secs: i64,
    /// Creation time: nanoseconds past `time_secs`.
    pub time_nanos: u32,
    pub paths: Vec<String>,
    pub hostname: String,
    pub username: String,
    pub tags: Vec<String>,
}

/// What chrono writes for a Unix time in whole seconds as `%Y-%m-%d %H:%M` in
/// UTC; none outside the range of its dates.
pub uninterp spec fn utc_minute_text(secs: int) -> Option<Seq<char>>;

/// Relies on chrono's `DateTime::<Utc>::from_timestamp` and its `format`.
#[verifier::external_body]
fn utc_minutes(secs: i64) -> (r: Option<String>)
    ensures
        r is Some <==> utc_minute_text(secs as int) is Some,
        r is Some ==> r->0@ == utc_minute_text(secs as int)->0,
{
    match chrono::DateTime::from_timestamp(secs, 0) {
        Some(t) => Some(t.format("%Y-%m-%d %H:%M").to_string()),
        None => None,
    }
}

/// `a` was taken no later than `b`.
pub open spec fn not_newer(a: Snapshot, b: Snapshot) -> bool {
    a.time_secs < b.time_secs || (a.time_secs == b.time_secs && a.time_nanos <= b.time_nanos)
}

/// Ascending in this key is newest first.
pub open spec fn age_key(s: Snapshot) -> Seq<u64> {
    seq![(i64::MAX - s.time_secs) as u64, (u32::MAX - s.time_nanos) as u64]
}

proof fn lemma_age_key_order(a: Snapshot, b: Snapshot)
    requires
        lex_le(age_key(a), age_key(b)),
    ensures
        not_newer(b, a),
{
    let ka = age_key(a);
    let kb = age_key(b);
    reveal_with_fuel(lex_le, 3);
    if ka[0] == kb[0] {
        assert(ka.drop_first() =~= seq![(u32::MAX - a.time_nanos) as u64]);
        assert(kb.drop_first() =~= seq![(u32::MAX - b.time_nanos) as u64]);
    }
}

/// The root that browsing a snapshot starts from: its first path, `N/A` when it has none.
pub open spec fn primary_root(s: Snapshot) -> Seq<char> {
    if s.paths.len() > 0 {
        s.paths[0]@
    } else {
        "N/A"@
    }
}

impl Snapshot {
    pub fn display_id(&self) -> (r: &str)
        ensures
            r@ == self.short_id@,
    {
        self.short_id.as_str()
    }

    pub fn primary_path(&self) -> (r: &str)
        ensures
            r@ == primary_root(*self),
    {
        if self.paths.len() > 0 {
            self.paths[0].as_str()
        } else {
            "N/A"
        }
    }

    /// The creation time to the minute, UTC; `-` where chrono has no date for it.
    pub fn formatted_time(&self) -> (r: String)
        ensures
            utc_minute_text(self.time_secs as int) is Some ==> r@ == utc_minute_text(self.time_secs as int)->0,
            utc_minute_text(self.time_secs as int) is None ==> r@ == "-"@,
    {
        match utc_minutes(self.time_secs) {
            Some(t) => t,
            None => String::from_str("-"),
        }
    }
}

/// The snapshots, newest first.
pub fn sort_snapshots(snapshots: Vec<Snapshot>) -> (r: Vec<Snapshot>)
    ensures
        r@ == key_sorted(snapshots@, |s: Snapshot| age_key(s)),
        r@.to_multiset() == snapshots@.to_multiset(),
        r.len() == snapshots.len(),
        forall|i: int, j: int| 0 <= i < j < r.len() ==> not_newer(r[j], r[i]),
{
    let mut keys: Vec<Vec<u64>> = Vec::new();
    let mut i: usize = 0;
    while i < snapshots.len()
        invariant
            i <= snapshots.len(),
            keys.len() == i,
            forall|k: int| 0 <= k < i ==> #[trigger] keys[k]@ == age_key(snapshots[k]),
        decreases snapshots.len() - i,
    {
        let s = &snapshots[i];
        let secs_key: u64 = (i64::MAX as i128 - s.time_secs as i128) as u64;
        let nanos_key: u64 = (u32::MAX - s.time_nanos) as u64;
        let k = vec![secs_key, nanos_key];
        assert(k@ =~= age_key(*s));
        keys.push(k);
        i = i + 1;
    }
    let r = sort_by_keys(snapshots, keys, Ghost(|s: Snapshot| age_key(s)));
    assert forall|i: int, j: int| 0 <= i < j < r.len() implies not_newer(r[j], r[i]) by {
        lemma_age_key_order(r[i], r[j]);
    }
    r
}

} // verus!
