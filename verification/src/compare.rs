//! Comparing sequences and text place by place.
//!
//! Two sequences are equal when they agree at every place. They are ordered
//! by the first place at which they differ; where one ends before they
//! differ, the shorter comes first. Text is compared by its UTF-8 bytes,
//! which is how string slices compare.

use core::cmp::Ordering;
use vstd::prelude::*;
use vstd::utf8::{encode_utf8, encode_utf8_decode_utf8};

verus! {

/// How two integers stand to each other.
pub open spec fn int_order(a: int, b: int) -> Ordering {
    if a < b {
        Ordering::Less
    } else if a == b {
        Ordering::Equal
    } else {
        Ordering::Greater
    }
}

/// The number of leading places at which two sequences hold the same items.
pub open spec fn common_prefix_len<T>(a: Seq<T>, b: Seq<T>) -> int
    decreases a.len(),
{
    if a.len() > 0 && b.len() > 0 && a[0] == b[0] {
        1 + common_prefix_len(a.drop_first(), b.drop_first())
    } else {
        0
    }
}

/// The lexicographic order of two byte strings.
pub open spec fn bytes_order(a: Seq<u8>, b: Seq<u8>) -> Ordering {
    let n = common_prefix_len(a, b);
    if n < a.len() && n < b.len() {
        if a[n] < b[n] {
            Ordering::Less
        } else {
            Ordering::Greater
        }
    } else if a.len() < b.len() {
        Ordering::Less
    } else if a.len() == b.len() {
        Ordering::Equal
    } else {
        Ordering::Greater
    }
}

/// The order of two texts: the lexicographic order of their UTF-8
/// encodings.
pub open spec fn text_order(a: Seq<char>, b: Seq<char>) -> Ordering {
    bytes_order(encode_utf8(a), encode_utf8(b))
}

/// The common prefix lies within both sequences, the sequences agree on it,
/// and they differ just behind it unless one of them ends there.
pub proof fn common_prefix_len_bounds<T>(a: Seq<T>, b: Seq<T>)
    ensures
        ({
            let n = common_prefix_len(a, b);
            &&& 0 <= n <= a.len()
            &&& n <= b.len()
            &&& forall|k: int| 0 <= k < n ==> a[k] == b[k]
            &&& n < a.len() && n < b.len() ==> a[n] != b[n]
        }),
    decreases a.len(),
{
    if a.len() > 0 && b.len() > 0 && a[0] == b[0] {
        let rest_a = a.drop_first();
        let rest_b = b.drop_first();
        common_prefix_len_bounds(rest_a, rest_b);
        let n = common_prefix_len(rest_a, rest_b);
        assert forall|k: int| 0 <= k < n + 1 implies a[k] == b[k] by {
            if k > 0 {
                assert(a[k] == rest_a[k - 1]);
                assert(b[k] == rest_b[k - 1]);
            }
        }
    }
}

/// A length up to which two sequences agree, and behind which they differ
/// or one of them ends, is the length of their common prefix.
pub proof fn common_prefix_len_is<T>(a: Seq<T>, b: Seq<T>, n: int)
    requires
        0 <= n <= a.len(),
        n <= b.len(),
        forall|k: int| 0 <= k < n ==> a[k] == b[k],
        n < a.len() && n < b.len() ==> a[n] != b[n],
    ensures
        common_prefix_len(a, b) == n,
{
    common_prefix_len_bounds(a, b);
}

/// Two sequences are equal exactly when their common prefix is all of both.
pub proof fn common_prefix_len_of_equal<T>(a: Seq<T>, b: Seq<T>)
    ensures
        a == b <==> common_prefix_len(a, b) == a.len() && a.len() == b.len(),
{
    common_prefix_len_bounds(a, b);
    if common_prefix_len(a, b) == a.len() && a.len() == b.len() {
        assert(a =~= b);
    }
}

/// Two texts with the same UTF-8 encoding are the same text.
pub proof fn encoding_is_injective(a: Seq<char>, b: Seq<char>)
    requires
        encode_utf8(a) == encode_utf8(b),
    ensures
        a == b,
{
    encode_utf8_decode_utf8(a);
    encode_utf8_decode_utf8(b);
}

/// Two texts are equal in order exactly when they are the same text.
pub proof fn text_order_of_equal(a: Seq<char>, b: Seq<char>)
    ensures
        text_order(a, b) == Ordering::Equal <==> a == b,
{
    common_prefix_len_of_equal(encode_utf8(a), encode_utf8(b));
    common_prefix_len_bounds(encode_utf8(a), encode_utf8(b));
    if encode_utf8(a) == encode_utf8(b) {
        encoding_is_injective(a, b);
    }
}

/// The common prefix of two sequences is the same from either side.
pub proof fn common_prefix_len_is_symmetric<T>(a: Seq<T>, b: Seq<T>)
    ensures
        common_prefix_len(a, b) == common_prefix_len(b, a),
{
    common_prefix_len_bounds(a, b);
    common_prefix_len_is(b, a, common_prefix_len(a, b));
}

/// Where a first sequence agrees with a second for longer than the second
/// agrees with a third, or the other way round, the first and the third
/// agree for the shorter of the two lengths. Where the two lengths are the
/// same, the first and the third agree for at least that length.
pub proof fn common_prefix_len_of_three<T>(a: Seq<T>, b: Seq<T>, c: Seq<T>)
    ensures
        ({
            let p = common_prefix_len(a, b);
            let q = common_prefix_len(b, c);
            let r = common_prefix_len(a, c);
            &&& p < q ==> r == p
            &&& q < p ==> r == q
            &&& p == q ==> r >= p
        }),
{
    let p = common_prefix_len(a, b);
    let q = common_prefix_len(b, c);
    common_prefix_len_bounds(a, b);
    common_prefix_len_bounds(b, c);
    common_prefix_len_bounds(a, c);
    if p < q {
        common_prefix_len_is(a, c, p);
    } else if q < p {
        common_prefix_len_is(a, c, q);
    }
}

/// The order of two texts turns round when the texts change places.
pub proof fn text_order_reverses(a: Seq<char>, b: Seq<char>)
    ensures
        text_order(a, b) == Ordering::Less <==> text_order(b, a) == Ordering::Greater,
        text_order(a, b) == Ordering::Equal <==> text_order(b, a) == Ordering::Equal,
        text_order(a, b) == Ordering::Greater <==> text_order(b, a) == Ordering::Less,
{
    common_prefix_len_is_symmetric(encode_utf8(a), encode_utf8(b));
    common_prefix_len_bounds(encode_utf8(a), encode_utf8(b));
}

/// A text before a second text that is before a third is before the third.
pub proof fn text_order_is_transitive(a: Seq<char>, b: Seq<char>, c: Seq<char>)
    requires
        text_order(a, b) == Ordering::Less,
        text_order(b, c) == Ordering::Less,
    ensures
        text_order(a, c) == Ordering::Less,
{
    let x = encode_utf8(a);
    let y = encode_utf8(b);
    let z = encode_utf8(c);
    common_prefix_len_bounds(x, y);
    common_prefix_len_bounds(y, z);
    common_prefix_len_bounds(x, z);
    common_prefix_len_of_three(x, y, z);
    let p = common_prefix_len(x, y);
    if p == common_prefix_len(y, z) && p < x.len() && p < z.len() {
        common_prefix_len_is(x, z, p);
    }
}

/// The length of the common prefix of two byte slices.
pub fn common_prefix_of_bytes(x: &[u8], y: &[u8]) -> (n: usize)
    ensures
        n == common_prefix_len(x@, y@),
{
    let mut i: usize = 0;
    while i < x.len() && i < y.len() && x[i] == y[i]
        invariant
            i <= x.len(),
            i <= y.len(),
            forall|k: int| 0 <= k < i ==> x@[k] == y@[k],
        decreases x.len() - i,
    {
        i += 1;
    }
    proof {
        common_prefix_len_is(x@, y@, i as int);
    }
    i
}

/// Whether two string slices hold the same text.
pub fn same_text(a: &str, b: &str) -> (same: bool)
    ensures
        same == (a@ == b@),
{
    let x = a.as_bytes();
    let y = b.as_bytes();
    if x.len() != y.len() {
        return false;
    }
    let n = common_prefix_of_bytes(x, y);
    proof {
        common_prefix_len_of_equal(x@, y@);
        if x@ == y@ {
            encoding_is_injective(a@, b@);
        }
    }
    n == x.len()
}

/// Orders two string slices as `str` orders them.
pub fn order_of_text(a: &str, b: &str) -> (order: Ordering)
    ensures
        order == text_order(a@, b@),
{
    let x = a.as_bytes();
    let y = b.as_bytes();
    let n = common_prefix_of_bytes(x, y);
    if n < x.len() && n < y.len() {
        if x[n] < y[n] {
            Ordering::Less
        } else {
            Ordering::Greater
        }
    } else if x.len() < y.len() {
        Ordering::Less
    } else if x.len() == y.len() {
        Ordering::Equal
    } else {
        Ordering::Greater
    }
}

} // verus!
