//! The order of byte strings: by the first byte in which they differ.

use core::cmp::Ordering;
use vstd::prelude::*;

verus! {

/// The sign of the comparison of two byte strings: `-1` where `a` comes
/// first, `1` where `b` comes first, `0` where they are equal. A string comes
/// before the strings that it is a proper prefix of.
pub open spec fn sign(a: Seq<u8>, b: Seq<u8>) -> int
    decreases a.len(),
{
    if a.len() == 0 {
        if b.len() == 0 {
            0
        } else {
            -1
        }
    } else if b.len() == 0 {
        1
    } else if a[0] < b[0] {
        -1
    } else if a[0] > b[0] {
        1
    } else {
        sign(a.skip(1), b.skip(1))
    }
}

/// The order that a sign stands for.
pub open spec fn order_of_sign(s: int) -> Ordering {
    if s < 0 {
        Ordering::Less
    } else if s == 0 {
        Ordering::Equal
    } else {
        Ordering::Greater
    }
}

/// The order of two byte strings.
pub open spec fn order(a: Seq<u8>, b: Seq<u8>) -> Ordering {
    order_of_sign(sign(a, b))
}

/// Two byte strings compare as equal exactly when they are equal.
pub proof fn lemma_sign_zero(a: Seq<u8>, b: Seq<u8>)
    ensures
        sign(a, b) == 0 <==> a == b,
    decreases a.len(),
{
    if a.len() > 0 && b.len() > 0 {
        lemma_sign_zero(a.skip(1), b.skip(1));
        if a[0] == b[0] && a.skip(1) == b.skip(1) {
            assert(a =~= seq![a[0]] + a.skip(1));
            assert(b =~= seq![b[0]] + b.skip(1));
        }
    } else if a.len() == 0 && b.len() == 0 {
        assert(a =~= b);
    }
}

/// Two byte strings that agree up to the position `i` compare as what is left
/// of them from there.
proof fn lemma_sign_after_common_prefix(a: Seq<u8>, b: Seq<u8>, i: int)
    requires
        0 <= i <= a.len(),
        i <= b.len(),
        forall|j: int| 0 <= j < i ==> a[j] == b[j],
    ensures
        sign(a, b) == sign(a.skip(i), b.skip(i)),
    decreases i,
{
    if i > 0 {
        assert(a[0] == b[0]);
        lemma_sign_after_common_prefix(a.skip(1), b.skip(1), i - 1);
        assert(a.skip(1).skip(i - 1) =~= a.skip(i));
        assert(b.skip(1).skip(i - 1) =~= b.skip(i));
    } else {
        assert(a.skip(0) =~= a);
        assert(b.skip(0) =~= b);
    }
}

/// Compares two byte strings.
pub fn compare(a: &[u8], b: &[u8]) -> (s: i8)
    ensures
        s == sign(a@, b@),
{
    let mut i: usize = 0;
    while i < a.len() && i < b.len()
        invariant
            i <= a@.len(),
            i <= b@.len(),
            forall|j: int| 0 <= j < i ==> a@[j] == b@[j],
        decreases a@.len() - i,
    {
        proof {
            lemma_sign_after_common_prefix(a@, b@, i as int);
        }
        if a[i] < b[i] {
            return -1;
        }
        if a[i] > b[i] {
            return 1;
        }
        i += 1;
    }
    proof {
        lemma_sign_after_common_prefix(a@, b@, i as int);
    }
    if i < b.len() {
        -1
    } else if i < a.len() {
        1
    } else {
        0
    }
}

/// Whether two byte strings are equal.
pub fn equal(a: &[u8], b: &[u8]) -> (r: bool)
    ensures
        r == (a@ == b@),
{
    proof {
        lemma_sign_zero(a@, b@);
    }
    compare(a, b) == 0
}

/// The order for a sign that a comparison gave.
pub fn order_from(s: i8) -> (o: Ordering)
    ensures
        o == (if s < 0 {
            Ordering::Less
        } else if s == 0 {
            Ordering::Equal
        } else {
            Ordering::Greater
        }),
{
    if s < 0 {
        Ordering::Less
    } else if s == 0 {
        Ordering::Equal
    } else {
        Ordering::Greater
    }
}

} // verus!
