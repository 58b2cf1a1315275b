//! Arithmetic modulo the group order: the identities that the signature
//! scheme rests on.

use crate::scalar::{add_mod, group_order, mul_mod, sub_mod};
use vstd::arithmetic::div_mod::{lemma_fundamental_div_mod, lemma_mod_multiples_vanish};
use vstd::prelude::*;

verus! {

/// Two numbers that differ by a multiple of the group order have the same
/// remainder.
pub proof fn lemma_same_remainder(x: int, y: int, k: int)
    requires
        x == y + k * group_order(),
    ensures
        x % (group_order() as int) == y % (group_order() as int),
{
    let n = group_order() as int;
    assert(k * n == n * k) by (nonlinear_arith);
    lemma_mod_multiples_vanish(k, y, n);
}

/// The quotient `q` with `x == q * n + x % n`, for `n` the group order.
pub open spec fn quotient(x: int) -> int {
    x / (group_order() as int)
}

/// A number is its quotient by the group order times the group order, plus
/// its remainder, and the remainder is below the group order.
pub proof fn lemma_quotient(x: int)
    ensures
        x == quotient(x) * group_order() + x % (group_order() as int),
        0 <= x % (group_order() as int) < group_order(),
{
    let n = group_order() as int;
    lemma_fundamental_div_mod(x, n);
    assert(n * (x / n) == (x / n) * n) by (nonlinear_arith);
}

/// What the verification of a signature computes, `(s * B - c * A) - R` with
/// each step reduced, is the remainder of `s * B - c * A - R`.
pub proof fn lemma_verification_residue(b: nat, s: nat, a: nat, c: nat, r: nat)
    ensures
        sub_mod(sub_mod(mul_mod(b, s), mul_mod(a, c)), r) == (s * b - c * a - r) % (
        group_order() as int),
{
    let n = group_order() as int;
    let sb = mul_mod(b, s) as int;
    let ca = mul_mod(a, c) as int;
    let d = sub_mod(sb as nat, ca as nat) as int;
    lemma_quotient((b * s) as int);
    lemma_quotient((a * c) as int);
    lemma_quotient(sb - ca);
    let k = quotient(sb - ca) + quotient((b * s) as int) - quotient((a * c) as int);
    assert(s * b - c * a - r == (d - r) + k * n) by (nonlinear_arith)
        requires
            b * s == quotient((b * s) as int) * n + sb,
            a * c == quotient((a * c) as int) * n + ca,
            sb - ca == quotient(sb - ca) * n + d,
            k == quotient(sb - ca) + quotient((b * s) as int) - quotient((a * c) as int),
    ;
    lemma_same_remainder(s * b - c * a - r, d - r, k);
}

/// The equation that a signature is verified by holds of what signing
/// computes: with the key `A = sk * B`, the commitment `R = k * B` and the
/// response `s = k + c * sk`, the difference `s * B - c * A - R` is zero.
pub proof fn lemma_signature_equation(b: nat, sk: nat, k: nat, c: nat)
    ensures
        (add_mod(k, mul_mod(c, sk)) * b - c * mul_mod(b, sk) - mul_mod(b, k)) % (
        group_order() as int) == 0,
{
    let n = group_order() as int;
    let a = mul_mod(b, sk) as int;
    let r = mul_mod(b, k) as int;
    let m = mul_mod(c, sk) as int;
    let s = add_mod(k, m as nat) as int;
    lemma_quotient((b * sk) as int);
    lemma_quotient((b * k) as int);
    lemma_quotient((c * sk) as int);
    lemma_quotient(k + m);
    let q1 = quotient((b * sk) as int);
    let q2 = quotient((b * k) as int);
    let q3 = quotient((c * sk) as int);
    let q4 = quotient(k + m);
    let t = c * q1 + q2 - (q3 + q4) * b;
    assert(s * b - c * a - r == 0 + t * n) by (nonlinear_arith)
        requires
            b * sk == q1 * n + a,
            b * k == q2 * n + r,
            c * sk == q3 * n + m,
            k + m == q4 * n + s,
            t == c * q1 + q2 - (q3 + q4) * b,
    ;
    lemma_same_remainder(s * b - c * a - r, 0, t);
}

/// Multiplying by the basepoint commutes with adding a randomizer:
/// `(sk + r) * B == sk * B + r * B`.
pub proof fn lemma_mul_distributes(b: nat, sk: nat, r: nat)
    ensures
        mul_mod(b, add_mod(sk, r)) == add_mod(mul_mod(b, sk), mul_mod(b, r)),
{
    let n = group_order() as int;
    let u = add_mod(sk, r) as int;
    let x = mul_mod(b, sk) as int;
    let y = mul_mod(b, r) as int;
    lemma_quotient((sk + r) as int);
    lemma_quotient((b * sk) as int);
    lemma_quotient((b * r) as int);
    let q1 = quotient((sk + r) as int);
    let q2 = quotient((b * sk) as int);
    let q3 = quotient((b * r) as int);
    let t = q2 + q3 - b * q1;
    assert(b * u == (x + y) + t * n) by (nonlinear_arith)
        requires
            sk + r == q1 * n + u,
            b * sk == q2 * n + x,
            b * r == q3 * n + y,
            t == q2 + q3 - b * q1,
    ;
    lemma_same_remainder(b * u, x + y, t);
}

/// A number that has the remainder zero is a multiple of the group order, and
/// the other way round.
pub proof fn lemma_multiple(x: int, k: int)
    requires
        x == k * group_order(),
    ensures
        x % (group_order() as int) == 0,
{
    lemma_same_remainder(x, 0, k);
}

/// Two numbers with the same remainder differ by a multiple of the group
/// order: by `quotient(x) - quotient(y)` times the group order.
pub proof fn lemma_difference(x: int, y: int)
    requires
        x % (group_order() as int) == y % (group_order() as int),
    ensures
        x - y == (quotient(x) - quotient(y)) * group_order(),
{
    let n = group_order() as int;
    lemma_quotient(x);
    lemma_quotient(y);
    assert(x - y == (quotient(x) - quotient(y)) * n) by (nonlinear_arith)
        requires
            x == quotient(x) * n + x % n,
            y == quotient(y) * n + y % n,
            x % n == y % n,
    ;
}

/// One step of the batch: when an item with the blinding factor `z` is taken
/// in, the accumulator `p` of its domain, whose basepoint is `b`, goes down by
/// `z * s`, the key `a` gets the coefficient `z * c` and the element `r` the
/// coefficient `z`. The total then grows, up to a multiple of the group
/// order, by `z * (r + c * a - s * b)`.
pub proof fn lemma_batch_step(
    total: int,
    sum: int,
    p: nat,
    z: nat,
    s: nat,
    c: nat,
    a: nat,
    r: nat,
    b: nat,
)
    requires
        total % (group_order() as int) == sum % (group_order() as int),
    ensures
        (total + (sub_mod(p, mul_mod(z, s)) - p) * b + mul_mod(z, c) * a + z * r) % (
        group_order() as int) == (sum + z * (r + c * a - s * b)) % (group_order() as int),
{
    let n = group_order() as int;
    let m = mul_mod(z, s) as int;
    let p_after = sub_mod(p, m as nat) as int;
    let vc = mul_mod(z, c) as int;
    lemma_difference(total, sum);
    lemma_quotient((z * s) as int);
    lemma_quotient(p - m);
    lemma_quotient((z * c) as int);
    let k0 = quotient(total) - quotient(sum);
    let q1 = quotient((z * s) as int);
    let q2 = quotient(p - m);
    let q3 = quotient((z * c) as int);
    let k = k0 + (q1 - q2) * b - q3 * a;
    let lhs = total + (p_after - p) * b + vc * a + z * r;
    let rhs = sum + z * (r + c * a - s * b);
    let zs = (z * s) as int;
    let zc = (z * c) as int;
    let d = (q1 - q2) * n;
    assert((p_after - p) * b == d * b - zs * b) by (nonlinear_arith)
        requires
            p_after - p == d - zs,
    ;
    assert(vc * a == zc * a - (q3 * n) * a) by (nonlinear_arith)
        requires
            vc == zc - q3 * n,
    ;
    assert(z * (r + c * a - s * b) == z * r + zc * a - zs * b) by (nonlinear_arith)
        requires
            zc == z * c,
            zs == z * s,
    ;
    assert(k * n == k0 * n + d * b - (q3 * n) * a) by (nonlinear_arith)
        requires
            k == k0 + (q1 - q2) * b - q3 * a,
            d == (q1 - q2) * n,
    ;
    assert(lhs == rhs + k * n);
    lemma_same_remainder(lhs, rhs, k);
}

/// A valid signature adds a multiple of the group order to the batch: when
/// `s * b - c * a - r` is one, so is `z * (r + c * a - s * b)`, whatever the
/// blinding factor `z`.
pub proof fn lemma_valid_term(z: nat, s: nat, c: nat, a: nat, r: nat, b: nat)
    requires
        (s * b - c * a - r) % (group_order() as int) == 0,
    ensures
        (z * (r + c * a - s * b)) % (group_order() as int) == 0,
{
    let n = group_order() as int;
    let x = s * b - c * a - r;
    lemma_quotient(x);
    let k = -(z * quotient(x));
    assert(z * (r + c * a - s * b) == k * n) by (nonlinear_arith)
        requires
            s * b - c * a - r == quotient(x) * n,
            k == -(z * quotient(x)),
    ;
    lemma_multiple(z * (r + c * a - s * b), k);
}

/// The sum of two multiples of the group order is one.
pub proof fn lemma_sum_of_multiples(x: int, y: int)
    requires
        x % (group_order() as int) == 0,
        y % (group_order() as int) == 0,
    ensures
        (x + y) % (group_order() as int) == 0,
{
    let n = group_order() as int;
    lemma_quotient(x);
    lemma_quotient(y);
    assert(x + y == (quotient(x) + quotient(y)) * n) by (nonlinear_arith)
        requires
            x == quotient(x) * n,
            y == quotient(y) * n,
    ;
    lemma_multiple(x + y, quotient(x) + quotient(y));
}

} // verus!
