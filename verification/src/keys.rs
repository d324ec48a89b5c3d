//! The order of dictionary keys.
//!
//! Keys are ordered as Rust orders strings: by the bytes of their UTF-8
//! form, position by position, a proper prefix before the longer string.

use vstd::prelude::*;
use vstd::utf8::{encode_utf8, encode_utf8_decode_utf8};

verus! {

/// Whether `x` comes before `y`, looking from position `from` on: at the
/// first position at which they differ `x` has the smaller byte, or `x`
/// ends there and `y` goes on.
pub open spec fn bytes_before_from(x: Seq<u8>, y: Seq<u8>, from: int) -> bool
    decreases x.len() - from,
{
    if from < 0 || from >= y.len() {
        false
    } else if from >= x.len() {
        true
    } else if x[from] != y[from] {
        x[from] < y[from]
    } else {
        bytes_before_from(x, y, from + 1)
    }
}

/// Whether the key `a` comes before the key `b`: whether the UTF-8 form of
/// `a` comes before that of `b`.
pub open spec fn key_before(a: Seq<char>, b: Seq<char>) -> bool {
    bytes_before_from(encode_utf8(a), encode_utf8(b), 0)
}

/// The keys of the entries rise strictly from each entry to the next.
pub open spec fn sorted_keys<V>(entries: Seq<(Seq<char>, V)>) -> bool {
    forall|i: int, j: int|
        0 <= i < j < entries.len() ==> key_before(
            (#[trigger] entries[i]).0,
            (#[trigger] entries[j]).0,
        )
}

/// Whether the string `a` comes before the string `b`.
pub fn str_before(a: &str, b: &str) -> (r: bool)
    ensures
        r == key_before(a@, b@),
{
    let x = a.as_bytes();
    let y = b.as_bytes();
    let mut i: usize = 0;
    while i < x.len() && i < y.len()
        invariant
            i <= x.len(),
            i <= y.len(),
            x@ == encode_utf8(a@),
            y@ == encode_utf8(b@),
            bytes_before_from(x@, y@, 0) == bytes_before_from(x@, y@, i as int),
        decreases x.len() - i,
    {
        if x[i] != y[i] {
            return x[i] < y[i];
        }
        i += 1;
    }
    i < y.len()
}

/// Whether two strings are the same string.
pub fn str_equal(a: &str, b: &str) -> (r: bool)
    ensures
        r == (a@ == b@),
{
    let x = a.as_bytes();
    let y = b.as_bytes();
    proof {
        encode_utf8_decode_utf8(a@);
        encode_utf8_decode_utf8(b@);
    }
    if x.len() != y.len() {
        return false;
    }
    let mut i: usize = 0;
    while i < x.len()
        invariant
            i <= x.len(),
            x.len() == y.len(),
            x@ == encode_utf8(a@),
            y@ == encode_utf8(b@),
            forall|j: int| 0 <= j < i ==> x@[j] == y@[j],
        decreases x.len() - i,
    {
        if x[i] != y[i] {
            return false;
        }
        i += 1;
    }
    assert(x@ =~= y@);
    true
}

proof fn lemma_bytes_irreflexive(x: Seq<u8>, from: int)
    requires
        0 <= from,
    ensures
        !bytes_before_from(x, x, from),
    decreases x.len() - from,
{
    if from < x.len() {
        lemma_bytes_irreflexive(x, from + 1);
    }
}

proof fn lemma_bytes_total(x: Seq<u8>, y: Seq<u8>, from: int)
    requires
        0 <= from <= x.len(),
        from <= y.len(),
        x != y,
        forall|j: int| 0 <= j < from ==> x[j] == y[j],
    ensures
        bytes_before_from(x, y, from) || bytes_before_from(y, x, from),
    decreases x.len() - from,
{
    if from < x.len() && from < y.len() {
        if x[from] == y[from] {
            lemma_bytes_total(x, y, from + 1);
        }
    } else if from == x.len() && from == y.len() {
        assert(x =~= y);
    }
}

proof fn lemma_bytes_transitive(x: Seq<u8>, y: Seq<u8>, z: Seq<u8>, from: int)
    requires
        0 <= from,
        bytes_before_from(x, y, from),
        bytes_before_from(y, z, from),
    ensures
        bytes_before_from(x, z, from),
    decreases x.len() - from,
{
    if from < x.len() && x[from] == y[from] && y[from] == z[from] {
        lemma_bytes_transitive(x, y, z, from + 1);
    }
}

/// No key comes before itself.
pub proof fn lemma_before_irreflexive(a: Seq<char>)
    ensures
        !key_before(a, a),
{
    lemma_bytes_irreflexive(encode_utf8(a), 0);
}

/// Of two different keys one comes before the other.
pub proof fn lemma_before_total(a: Seq<char>, b: Seq<char>)
    requires
        a != b,
    ensures
        key_before(a, b) || key_before(b, a),
{
    encode_utf8_decode_utf8(a);
    encode_utf8_decode_utf8(b);
    lemma_bytes_total(encode_utf8(a), encode_utf8(b), 0);
}

/// What comes before a key comes before all that the key comes before.
pub proof fn lemma_before_transitive(a: Seq<char>, b: Seq<char>, c: Seq<char>)
    requires
        key_before(a, b),
        key_before(b, c),
    ensures
        key_before(a, c),
{
    lemma_bytes_transitive(encode_utf8(a), encode_utf8(b), encode_utf8(c), 0);
}

/// In entries with sorted keys no key occurs twice.
pub proof fn lemma_sorted_distinct<V>(entries: Seq<(Seq<char>, V)>, i: int, j: int)
    requires
        sorted_keys(entries),
        0 <= i < entries.len(),
        0 <= j < entries.len(),
        entries[i].0 == entries[j].0,
    ensures
        i == j,
{
    lemma_before_irreflexive(entries[i].0);
    if i < j {
        assert(key_before(entries[i].0, entries[j].0));
    } else if j < i {
        assert(key_before(entries[j].0, entries[i].0));
    }
}

} // verus!
