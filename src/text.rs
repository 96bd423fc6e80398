//! Text helpers shared by the panels: case folding, lexicographic keys,
//! substring search and decimal rendering.

use vstd::multiset::Multiset;
use vstd::prelude::*;

verus! {

/// What `str::to_lowercase` returns for a string.
pub uninterp spec fn lower_of(s: Seq<char>) -> Seq<char>;

/// Relies on `str::to_lowercase`: the lowercase form depends on the characters alone.
#[verifier::external_body]
pub(crate) fn lowercase(s: &str) -> (r: String)
    ensures
        r@ == lower_of(s@),
{
    s.to_lowercase()
}

/// Relies on `String::push`: appends one character.
#[verifier::external_body]
pub(crate) fn push_char(s: &mut String, c: char)
    ensures
        final(s)@ == old(s)@.push(c),
{
    s.push(c)
}

/// Lexicographic order on sequences of integers; a proper prefix comes first.
pub open spec fn lex_le(a: Seq<u64>, b: Seq<u64>) -> bool
    decreases a.len(),
{
    if a.len() == 0 {
        true
    } else if b.len() == 0 {
        false
    } else if a[0] != b[0] {
        a[0] < b[0]
    } else {
        lex_le(a.drop_first(), b.drop_first())
    }
}

pub proof fn lemma_lex_total(a: Seq<u64>, b: Seq<u64>)
    ensures
        lex_le(a, b) || lex_le(b, a),
    decreases a.len(),
{
    if a.len() > 0 && b.len() > 0 && a[0] == b[0] {
        lemma_lex_total(a.drop_first(), b.drop_first());
    }
}

pub proof fn lemma_lex_trans(a: Seq<u64>, b: Seq<u64>, c: Seq<u64>)
    requires
        lex_le(a, b),
        lex_le(b, c),
    ensures
        lex_le(a, c),
    decreases a.len(),
{
    if a.len() > 0 && b.len() > 0 && c.len() > 0 && a[0] == b[0] && b[0] == c[0] {
        lemma_lex_trans(a.drop_first(), b.drop_first(), c.drop_first());
    }
}

/// The code points of a string, as integers.
pub open spec fn codes(s: Seq<char>) -> Seq<u64> {
    s.map_values(|c: char| c as u64)
}

pub fn char_codes(s: &str) -> (r: Vec<u64>)
    ensures
        r@ == codes(s@),
{
    let n = s.unicode_len();
    let mut r: Vec<u64> = Vec::new();
    let mut i: usize = 0;
    while i < n
        invariant
            n == s@.len(),
            i <= n,
            r@ == codes(s@.subrange(0, i as int)),
        decreases n - i,
    {
        let c = s.get_char(i);
        r.push(c as u64);
        assert(s@.subrange(0, i + 1) == s@.subrange(0, i as int).push(c));
        i = i + 1;
    }
    assert(s@.subrange(0, n as int) == s@);
    r
}

pub fn lex_le_exec(a: &Vec<u64>, b: &Vec<u64>) -> (r: bool)
    ensures
        r == lex_le(a@, b@),
{
    let mut i: usize = 0;
    assert(a@.subrange(0, a@.len() as int) == a@);
    assert(b@.subrange(0, b@.len() as int) == b@);
    while i < a.len() && i < b.len() && a[i] == b[i]
        invariant
            i <= a.len(),
            i <= b.len(),
            lex_le(a@, b@) == lex_le(a@.subrange(i as int, a@.len() as int), b@.subrange(i as int, b@.len() as int)),
        decreases a.len() - i,
    {
        let ghost sa = a@.subrange(i as int, a@.len() as int);
        let ghost sb = b@.subrange(i as int, b@.len() as int);
        assert(sa.drop_first() == a@.subrange(i + 1, a@.len() as int));
        assert(sb.drop_first() == b@.subrange(i + 1, b@.len() as int));
        i = i + 1;
    }
    if i == a.len() {
        true
    } else if i == b.len() {
        false
    } else {
        a[i] < b[i]
    }
}

/// First index from `p` on whose key is greater than `k`: where insertion puts
/// an item of key `k` after the items of equal key.
pub open spec fn insert_pos<T>(s: Seq<T>, k: Seq<u64>, key_of: spec_fn(T) -> Seq<u64>, p: int) -> int
    decreases s.len() - p,
{
    if 0 <= p < s.len() && lex_le(key_of(s[p]), k) {
        insert_pos(s, k, key_of, p + 1)
    } else {
        p
    }
}

/// `s` sorted by `key_of` by insertion in the order given, so that items of equal
/// key keep their order.
pub open spec fn key_sorted<T>(s: Seq<T>, key_of: spec_fn(T) -> Seq<u64>) -> Seq<T>
    decreases s.len(),
{
    if s.len() == 0 {
        s
    } else {
        let done = key_sorted(s.drop_last(), key_of);
        done.insert(insert_pos(done, key_of(s.last()), key_of, 0), s.last())
    }
}

pub proof fn lemma_insert_pos_bounds<T>(s: Seq<T>, k: Seq<u64>, key_of: spec_fn(T) -> Seq<u64>, p: int)
    requires
        0 <= p <= s.len(),
    ensures
        p <= insert_pos(s, k, key_of, p) <= s.len(),
    decreases s.len() - p,
{
    if p < s.len() && lex_le(key_of(s[p]), k) {
        lemma_insert_pos_bounds(s, k, key_of, p + 1);
    }
}

/// Sorting keeps the items, each as often as it was there.
pub proof fn lemma_key_sorted_permutes<T>(s: Seq<T>, key_of: spec_fn(T) -> Seq<u64>)
    ensures
        key_sorted(s, key_of).to_multiset() == s.to_multiset(),
        key_sorted(s, key_of).len() == s.len(),
    decreases s.len(),
{
    broadcast use vstd::seq_lib::group_to_multiset_ensures;
    if s.len() > 0 {
        let done = key_sorted(s.drop_last(), key_of);
        lemma_key_sorted_permutes(s.drop_last(), key_of);
        lemma_insert_pos_bounds(done, key_of(s.last()), key_of, 0);
        let p = insert_pos(done, key_of(s.last()), key_of, 0);
        vstd::seq_lib::to_multiset_insert(done, p, s.last());
        vstd::seq_lib::to_multiset_build(s.drop_last(), s.last());
        assert(s.drop_last().push(s.last()) == s);
    }
}

/// Every item of the sorted sequence was an item of the input.
pub proof fn lemma_key_sorted_member<T>(s: Seq<T>, key_of: spec_fn(T) -> Seq<u64>, i: int)
    requires
        0 <= i < key_sorted(s, key_of).len(),
    ensures
        s.contains(key_sorted(s, key_of)[i]),
{
    broadcast use vstd::seq_lib::group_to_multiset_ensures;
    lemma_key_sorted_permutes(s, key_of);
    let x = key_sorted(s, key_of)[i];
    vstd::seq_lib::to_multiset_contains(key_sorted(s, key_of), x);
    assert(key_sorted(s, key_of).contains(x));
    vstd::seq_lib::to_multiset_contains(s, x);
}

/// Sorts `items` by the key that `key_of` gives each item, smallest first; `keys`
/// holds those keys in the order of `items`.
pub fn sort_by_keys<T>(items: Vec<T>, keys: Vec<Vec<u64>>, Ghost(key_of): Ghost<spec_fn(T) -> Seq<u64>>) -> (r: Vec<T>)
    requires
        keys.len() == items.len(),
        forall|i: int| 0 <= i < items.len() ==> #[trigger] keys[i]@ == key_of(items[i]),
    ensures
        r@ == key_sorted(items@, key_of),
        r@.to_multiset() == items@.to_multiset(),
        r.len() == items.len(),
        forall|i: int, j: int| 0 <= i < j < r.len() ==> lex_le(key_of(r[i]), key_of(r[j])),
{
    broadcast use vstd::seq_lib::group_to_multiset_ensures;
    let ghost orig = items@;
    let mut items = items;
    let mut keys = keys;
    let mut out: Vec<T> = Vec::new();
    let mut out_keys: Vec<Vec<u64>> = Vec::new();
    while items.len() > 0
        invariant
            keys.len() == items.len(),
            out_keys.len() == out.len(),
            forall|i: int| 0 <= i < items.len() ==> #[trigger] keys[i]@ == key_of(items[i]),
            forall|i: int| 0 <= i < out.len() ==> #[trigger] out_keys[i]@ == key_of(out[i]),
            out@.to_multiset().add(items@.to_multiset()) == orig.to_multiset(),
            out.len() + items.len() == orig.len(),
            items@ == orig.subrange(out.len() as int, orig.len() as int),
            out@ == key_sorted(orig.subrange(0, out.len() as int), key_of),
            forall|i: int, j: int| 0 <= i < j < out.len() ==> lex_le(key_of(out[i]), key_of(out[j])),
        decreases items.len(),
    {
        let ghost before_items = items@;
        let ghost before_out = out@;
        let x = items.remove(0);
        let kx = keys.remove(0);
        assert(forall|i: int| 0 <= i < items.len() ==> items[i] == before_items[i + 1]);
        let mut p: usize = 0;
        while p < out.len() && lex_le_exec(&out_keys[p], &kx)
            invariant
                p <= out.len(),
                out@ == before_out,
                out_keys.len() == out.len(),
                forall|i: int| 0 <= i < out.len() ==> #[trigger] out_keys[i]@ == key_of(out[i]),
                kx@ == key_of(x),
                forall|i: int| 0 <= i < p ==> lex_le(key_of(#[trigger] out[i]), key_of(x)),
                insert_pos(out@, key_of(x), key_of, 0) == insert_pos(out@, key_of(x), key_of, p as int),
            decreases out.len() - p,
        {
            p = p + 1;
        }
        proof {
            if p < out.len() {
                lemma_lex_total(key_of(x), key_of(out[p as int]));
                assert forall|j: int| p <= j < out.len() implies lex_le(key_of(x), key_of(#[trigger] out[j])) by {
                    if j > p {
                        lemma_lex_trans(key_of(x), key_of(out[p as int]), key_of(out[j]));
                    }
                }
            }
        }
        let ghost done: int = before_out.len() as int;
        out.insert(p, x);
        out_keys.insert(p, kx);
        proof {
            let pre = orig.subrange(0, done + 1);
            assert(pre.drop_last() == orig.subrange(0, done));
            assert(pre.last() == x);
            assert(out@ == key_sorted(pre, key_of));
            assert(items@ == orig.subrange(done + 1, orig.len() as int));
            assert(before_items.remove(0) == items@);
            assert(out@ == before_out.insert(p as int, x));
            assert(before_items[0] == x);
            vstd::seq_lib::to_multiset_insert(before_out, p as int, x);
            vstd::seq_lib::to_multiset_remove(before_items, 0);
            vstd::seq_lib::to_multiset_contains(before_items, x);
            assert(before_items.to_multiset().contains(x));
            assert(out@.to_multiset().add(items@.to_multiset()) =~= orig.to_multiset());
            assert forall|i: int, j: int| 0 <= i < j < out.len() implies lex_le(key_of(out[i]), key_of(out[j])) by {
                if i < p && j == p {
                } else if i < p && j > p {
                    assert(out[j] == before_out[j - 1]);
                } else if i == p {
                    assert(out[j] == before_out[j - 1]);
                } else if i > p {
                    assert(out[j] == before_out[j - 1]);
                    assert(out[i] == before_out[i - 1]);
                } else {
                    assert(out[j] == before_out[j]);
                }
            }
            assert forall|i: int| 0 <= i < out.len() implies #[trigger] out_keys[i]@ == key_of(out[i]) by {
                if i > p {
                    assert(out[i] == before_out[i - 1]);
                }
            }
        }
    }
    assert(orig.subrange(0, orig.len() as int) == orig);
    assert(items@.to_multiset() =~= Multiset::empty());
    assert(out@.to_multiset() =~= orig.to_multiset());
    out
}

/// `needle` stands in `hay` starting at index `i`.
pub open spec fn occurs_at(hay: Seq<char>, needle: Seq<char>, i: int) -> bool {
    0 <= i && i + needle.len() <= hay.len() && hay.subrange(i, i + needle.len()) == needle
}

/// `needle` is a substring of `hay`.
pub open spec fn contains_seq(hay: Seq<char>, needle: Seq<char>) -> bool {
    exists|i: int| occurs_at(hay, needle, i)
}

pub fn contains_text(hay: &str, needle: &str) -> (r: bool)
    ensures
        r == contains_seq(hay@, needle@),
{
    let h = hay.unicode_len();
    let n = needle.unicode_len();
    if n > h {
        assert forall|i: int| !occurs_at(hay@, needle@, i) by {}
        return false;
    }
    let mut i: usize = 0;
    while i <= h - n
        invariant
            h == hay@.len(),
            n == needle@.len(),
            n <= h,
            i <= h - n + 1,
            forall|k: int| 0 <= k < i ==> !occurs_at(hay@, needle@, k),
        decreases h - n + 1 - i,
    {
        let mut j: usize = 0;
        while j < n && hay.get_char(i + j) == needle.get_char(j)
            invariant
                h == hay@.len(),
                n == needle@.len(),
                i + n <= h,
                j <= n,
                forall|k: int| 0 <= k < j ==> hay@[i + k] == needle@[k],
            decreases n - j,
        {
            j = j + 1;
        }
        if j == n {
            assert(hay@.subrange(i as int, i + n) =~= needle@);
            assert(occurs_at(hay@, needle@, i as int));
            return true;
        }
        assert(hay@.subrange(i as int, i + n)[j as int] != needle@[j as int]);
        i = i + 1;
    }
    assert forall|k: int| !occurs_at(hay@, needle@, k) by {
        if 0 <= k && k + n <= h {
            assert(k < i);
        }
    }
    false
}

/// The character of a decimal digit.
pub open spec fn digit_char(d: int) -> char {
    if d == 0 {
        '0'
    } else if d == 1 {
        '1'
    } else if d == 2 {
        '2'
    } else if d == 3 {
        '3'
    } else if d == 4 {
        '4'
    } else if d == 5 {
        '5'
    } else if d == 6 {
        '6'
    } else if d == 7 {
        '7'
    } else if d == 8 {
        '8'
    } else {
        '9'
    }
}

pub fn digit(d: u128) -> (c: char)
    requires
        d < 10,
    ensures
        c == digit_char(d as int),
{
    if d == 0 {
        '0'
    } else if d == 1 {
        '1'
    } else if d == 2 {
        '2'
    } else if d == 3 {
        '3'
    } else if d == 4 {
        '4'
    } else if d == 5 {
        '5'
    } else if d == 6 {
        '6'
    } else if d == 7 {
        '7'
    } else if d == 8 {
        '8'
    } else {
        '9'
    }
}

/// Decimal digits of a natural number, without leading zeros.
pub open spec fn decimal(n: nat) -> Seq<char>
    decreases n,
{
    if n < 10 {
        seq![digit_char(n as int)]
    } else {
        decimal(n / 10).push(digit_char((n % 10) as int))
    }
}

/// Appends the decimal digits of `n`.
pub fn push_decimal(s: &mut String, n: u128)
    ensures
        final(s)@ == old(s)@ + decimal(n as nat),
    decreases n,
{
    if n >= 10 {
        push_decimal(s, n / 10);
    }
    push_char(s, digit(n % 10));
    assert(s@ =~= old(s)@ + decimal(n as nat));
}

} // verus!
