//! Where an expected score is too small to be seen in a rating.
//!
//! Ratings are calculated with 64-bit floating point numbers, which have 53 binary
//! digits. An expected score against a far stronger opponent is lost in them.
use vstd::arithmetic::power::pow;
use vstd::prelude::*;

verus! {

/// How much higher an opponent must be rated for the expected score to be lost in
/// rounding. `rating` is the rating that the player gets without it.
///
/// A 64-bit floating point number has 53 binary digits. The expected score, times
/// [`K_FACTOR`], is lost if it is at most half of the step from the number below
/// `rating` to `rating`, once it was rounded itself where it is taken from a score
/// of one half or 1.
pub open spec fn rounding_gap(rating: int, scored: int) -> int {
    if scored == 0 {
        if rating > 65536 {
            5058
        } else if rating > 32768 {
            5178
        } else if rating > 16384 {
            5299
        } else if rating > 8192 {
            5419
        } else if rating > 4096 {
            5539
        } else if rating > 2048 {
            5660
        } else if rating > 1024 {
            5780
        } else if rating > 512 {
            5901
        } else if rating > 256 {
            6021
        } else if rating > 128 {
            6142
        } else if rating > 64 {
            6262
        } else if rating > 32 {
            6382
        } else if rating > 16 {
            6503
        } else if rating > 8 {
            6623
        } else if rating > 4 {
            6744
        } else if rating > 2 {
            6864
        } else if rating > 1 {
            6984
        } else {
            7105
        }
    } else if scored == 16 {
        if rating > 65536 {
            5058
        } else if rating > 32768 {
            5178
        } else if rating > 16384 {
            5299
        } else if rating > 8192 {
            5419
        } else if rating > 4096 {
            5539
        } else if rating > 2048 {
            5659
        } else if rating > 1024 {
            5779
        } else if rating > 512 {
            5898
        } else if rating > 256 {
            6016
        } else if rating > 128 {
            6131
        } else if rating > 64 {
            6241
        } else if rating > 32 {
            6344
        } else if rating > 16 {
            6432
        } else {
            6623
        }
    } else {
        if rating > 65536 {
            5058
        } else if rating > 32768 {
            5178
        } else if rating > 16384 {
            5298
        } else if rating > 8192 {
            5419
        } else if rating > 4096 {
            5539
        } else if rating > 2048 {
            5659
        } else if rating > 1024 {
            5778
        } else if rating > 512 {
            5895
        } else if rating > 256 {
            6011
        } else if rating > 128 {
            6121
        } else if rating > 64 {
            6223
        } else if rating > 32 {
            6312
        } else {
            6503
        }
    }
}

/// Whether the expected score of a player makes no difference to the rating.
pub open spec fn is_lost_in_rounding(own: int, opponent: int, scored: int) -> bool {
    opponent - own >= rounding_gap(own + scored, scored)
}

/// Calculates how much higher an opponent must be rated for the expected score to
/// be lost in rounding.
pub fn compute_rounding_gap(rating: i64, scored: i64) -> (gap: i64)
    ensures
        gap == rounding_gap(rating as int, scored as int),
{
    if scored == 0 {
        if rating > 65536 {
            5058
        } else if rating > 32768 {
            5178
        } else if rating > 16384 {
            5299
        } else if rating > 8192 {
            5419
        } else if rating > 4096 {
            5539
        } else if rating > 2048 {
            5660
        } else if rating > 1024 {
            5780
        } else if rating > 512 {
            5901
        } else if rating > 256 {
            6021
        } else if rating > 128 {
            6142
        } else if rating > 64 {
            6262
        } else if rating > 32 {
            6382
        } else if rating > 16 {
            6503
        } else if rating > 8 {
            6623
        } else if rating > 4 {
            6744
        } else if rating > 2 {
            6864
        } else if rating > 1 {
            6984
        } else {
            7105
        }
    } else if scored == 16 {
        if rating > 65536 {
            5058
        } else if rating > 32768 {
            5178
        } else if rating > 16384 {
            5299
        } else if rating > 8192 {
            5419
        } else if rating > 4096 {
            5539
        } else if rating > 2048 {
            5659
        } else if rating > 1024 {
            5779
        } else if rating > 512 {
            5898
        } else if rating > 256 {
            6016
        } else if rating > 128 {
            6131
        } else if rating > 64 {
            6241
        } else if rating > 32 {
            6344
        } else if rating > 16 {
            6432
        } else {
            6623
        }
    } else {
        if rating > 65536 {
            5058
        } else if rating > 32768 {
            5178
        } else if rating > 16384 {
            5298
        } else if rating > 8192 {
            5419
        } else if rating > 4096 {
            5539
        } else if rating > 2048 {
            5659
        } else if rating > 1024 {
            5778
        } else if rating > 512 {
            5895
        } else if rating > 256 {
            6011
        } else if rating > 128 {
            6121
        } else if rating > 64 {
            6223
        } else if rating > 32 {
            6312
        } else {
            6503
        }
    }
}

/// Whether the rating is above `2^k` and at most `2^(k+1)`; for `k == -1`, whether
/// it is 1. The step from the number below such a rating to it is `2^(k-52)`.
pub open spec fn is_in_binade(rating: int, k: int) -> bool {
    if k < 0 {
        k == -1 && rating == 1
    } else {
        pow(2, k as nat) < rating <= pow(2, (k + 1) as nat)
    }
}

/// The greatest expected score that is lost, as a fraction: the numerator, and the
/// number of binary digits of the denominator.
///
/// [`K_FACTOR`](crate::elo::K_FACTOR) times an expected score is lost if it is at
/// most `2^(k-53)`, half of the step below the rating. Taken from a score of 0, an
/// expected score is exact: it is lost up to `1 / 2^(58-k)`. Taken from a score of
/// 1 or one half, it is rounded to the nearest multiple of `1 / 2^53` or
/// `1 / 2^54`, and it is lost if it is no nearer to the next greater multiple than
/// to the greatest one that is lost.
pub open spec fn lost_share(k: int, scored: int) -> (int, nat) {
    if scored == 0 {
        (1, (58 - k) as nat)
    } else if scored == 16 {
        (if k <= 3 { 1 } else { pow(2, (k - 3) as nat) + 1 }, 55)
    } else {
        (if k <= 4 { 1 } else { pow(2, (k - 4) as nat) + 1 }, 54)
    }
}

/// Whether a player's expected score is at most `c / d`.
///
/// The expected score is `a / (a + b)` with `a = 10^(own/400)` and
/// `b = 10^(opponent/400)`. That it is at most `c / d` means that
/// `(d - c) * a <= c * b`; both sides are taken to the power of 400 here.
pub open spec fn expects_share(own: nat, opponent: nat, c: int, d: int) -> bool {
    pow(d - c, 400) * pow(10, own) <= pow(c, 400) * pow(10, opponent)
}

/// Bounds of a number: `lo * 10^e` and `hi * 10^e`.
spec fn bounds(v: int, m: Mantissa) -> bool {
    m.lo * pow(10, m.e) <= v <= m.hi * pow(10, m.e)
}

struct Mantissa {
    lo: int,
    hi: int,
    e: nat,
}

spec fn mant(lo: int, hi: int, e: nat) -> Mantissa {
    Mantissa { lo, hi, e }
}

proof fn lemma_powers_of_ten()
    ensures
        pow(10, 0) == 1,
        pow(10, 1) == 10,
        pow(10, 2) == 100,
        pow(10, 3) == 1000,
        pow(10, 4) == 10000,
        pow(10, 5) == 100000,
        pow(10, 6) == 1000000,
        pow(10, 7) == 10000000,
        pow(10, 8) == 100000000,
        pow(10, 9) == 1000000000,
        pow(10, 10) == 10000000000,
        pow(10, 11) == 100000000000,
        pow(10, 12) == 1000000000000,
        pow(10, 13) == 10000000000000,
        pow(10, 14) == 100000000000000,
        pow(10, 15) == 1000000000000000,
        pow(10, 16) == 10000000000000000,
        pow(10, 17) == 100000000000000000,
        pow(10, 18) == 1000000000000000000,
        pow(10, 19) == 10000000000000000000,
{
    reveal_with_fuel(pow, 20);
}

proof fn lemma_first_power(c: int)
    ensures
        bounds(pow(c, 1), mant(c, c, 0)),
{
    vstd::arithmetic::power::lemma_pow1(c);
    vstd::arithmetic::power::lemma_pow0(10);
}

proof fn lemma_one()
    ensures
        bounds(pow(1, 400), mant(1, 1, 0)),
{
    vstd::arithmetic::power::lemma1_pow(400);
    vstd::arithmetic::power::lemma_pow0(10);
}

/// Multiplies two powers of a number within their bounds.
proof fn lemma_power(c: int, m: nat, n: nat, a: Mantissa, b: Mantissa, product: Mantissa)
    requires
        bounds(pow(c, m), a),
        bounds(pow(c, n), b),
        0 <= a.lo,
        0 <= b.lo,
        a.lo <= a.hi,
        b.lo <= b.hi,
        a.e + b.e <= product.e < a.e + b.e + 20,
        product.lo * ten((product.e - a.e - b.e) as int) <= a.lo * b.lo,
        a.hi * b.hi <= product.hi * ten((product.e - a.e - b.e) as int),
    ensures
        bounds(pow(c, m + n), product),
{
    let d = (product.e - a.e - b.e) as nat;
    lemma_ten(d);
    vstd::arithmetic::power::lemma_pow_adds(c, m, n);
    vstd::arithmetic::power::lemma_pow_adds(10, a.e, b.e);
    vstd::arithmetic::power::lemma_pow_adds(10, a.e + b.e, d);
    vstd::arithmetic::power::lemma_pow_positive(10, a.e);
    vstd::arithmetic::power::lemma_pow_positive(10, b.e);
    let x = pow(c, m);
    let y = pow(c, n);
    let p = pow(10, a.e);
    let q = pow(10, b.e);
    let t = pow(10, d);
    assert(pow(10, product.e) == p * q * t);
    lemma_product(x, y, a, b, p, q);
    let low = a.lo * b.lo;
    let high = a.hi * b.hi;
    let pq = p * q;
    assert(pq > 0) by (nonlinear_arith)
        requires
            p > 0,
            q > 0,
            pq == p * q,
    ;
    assert(product.lo * (pq * t) <= low * pq) by (nonlinear_arith)
        requires
            product.lo * t <= low,
            pq > 0,
    ;
    assert(high * pq <= product.hi * (pq * t)) by (nonlinear_arith)
        requires
            high <= product.hi * t,
            pq > 0,
    ;
}

proof fn lemma_product(x: int, y: int, a: Mantissa, b: Mantissa, p: int, q: int)
    requires
        a.lo * p <= x <= a.hi * p,
        b.lo * q <= y <= b.hi * q,
        0 <= a.lo,
        0 <= b.lo,
        p > 0,
        q > 0,
    ensures
        a.lo * b.lo * (p * q) <= x * y <= a.hi * b.hi * (p * q),
{
    let xl = a.lo * p;
    let xh = a.hi * p;
    let yl = b.lo * q;
    let yh = b.hi * q;
    assert(xl >= 0 && yl >= 0) by (nonlinear_arith)
        requires
            a.lo >= 0,
            b.lo >= 0,
            p > 0,
            q > 0,
            xl == a.lo * p,
            yl == b.lo * q,
    ;
    assert(xl * yl <= x * y <= xh * yh) by (nonlinear_arith)
        requires
            0 <= xl <= x <= xh,
            0 <= yl <= y <= yh,
    ;
    assert(xl * yl == a.lo * b.lo * (p * q)) by (nonlinear_arith)
        requires
            xl == a.lo * p,
            yl == b.lo * q,
    ;
    assert(xh * yh == a.hi * b.hi * (p * q)) by (nonlinear_arith)
        requires
            xh == a.hi * p,
            yh == b.hi * q,
    ;
}

/// A power of ten by its exponent.
spec fn ten(d: int) -> int {
    if d == 0 {
        1
    } else if d == 1 {
        10
    } else if d == 2 {
        100
    } else if d == 3 {
        1000
    } else if d == 4 {
        10000
    } else if d == 5 {
        100000
    } else if d == 6 {
        1000000
    } else if d == 7 {
        10000000
    } else if d == 8 {
        100000000
    } else if d == 9 {
        1000000000
    } else if d == 10 {
        10000000000
    } else if d == 11 {
        100000000000
    } else if d == 12 {
        1000000000000
    } else if d == 13 {
        10000000000000
    } else if d == 14 {
        100000000000000
    } else if d == 15 {
        1000000000000000
    } else if d == 16 {
        10000000000000000
    } else if d == 17 {
        100000000000000000
    } else if d == 18 {
        1000000000000000000
    } else {
        10000000000000000000
    }
}

proof fn lemma_ten(d: nat)
    requires
        d < 20,
    ensures
        pow(10, d) == ten(d as int),
{
    lemma_powers_of_ten();
}

proof fn lemma_power_grows_with_base(x: int, y: int, n: nat)
    requires
        0 <= x <= y,
    ensures
        0 <= pow(x, n) <= pow(y, n),
    decreases n,
{
    if n == 0 {
        vstd::arithmetic::power::lemma_pow0(x);
        vstd::arithmetic::power::lemma_pow0(y);
    } else {
        let m = (n - 1) as nat;
        lemma_power_grows_with_base(x, y, m);
        vstd::arithmetic::power::lemma_pow_adds(x, 1, m);
        vstd::arithmetic::power::lemma_pow_adds(y, 1, m);
        vstd::arithmetic::power::lemma_pow1(x);
        vstd::arithmetic::power::lemma_pow1(y);
        let xm = pow(x, m);
        let ym = pow(y, m);
        assert(0 <= x * xm <= y * ym) by (nonlinear_arith)
            requires
                0 <= x <= y,
                0 <= xm <= ym,
        ;
    }
}

/// A power falls by less than its exponent times the fall of its base.
proof fn lemma_power_falls_slowly(x: int, c: int, n: nat)
    requires
        0 < c <= x,
    ensures
        x * pow(x - c, n) >= (x - n * c) * pow(x, n),
    decreases n,
{
    if n == 0 {
        vstd::arithmetic::power::lemma_pow0(x);
        vstd::arithmetic::power::lemma_pow0(x - c);
        assert((x - 0 * c) * 1 == x * 1);
    } else {
        let m = (n - 1) as nat;
        lemma_power_falls_slowly(x, c, m);
        lemma_power_grows_with_base(x - c, x, m);
        vstd::arithmetic::power::lemma_pow_adds(x, 1, m);
        vstd::arithmetic::power::lemma_pow_adds(x - c, 1, m);
        vstd::arithmetic::power::lemma_pow1(x);
        vstd::arithmetic::power::lemma_pow1(x - c);
        let p = pow(x, m);
        let q = pow(x - c, m);
        let y = x - c;
        let mc = m * c;
        let nc = n * c;
        assert(nc == mc + c) by (nonlinear_arith)
            requires
                n == m + 1,
                mc == m * c,
                nc == n * c,
        ;
        assert(mc >= 0) by (nonlinear_arith)
            requires
                m >= 0,
                c > 0,
                mc == m * c,
        ;
        assert(y * (x * q) >= y * ((x - mc) * p)) by (nonlinear_arith)
            requires
                x * q >= (x - mc) * p,
                y >= 0,
        ;
        assert(y * ((x - mc) * p) >= (x - nc) * (x * p)) by (nonlinear_arith)
            requires
                y == x - c,
                nc == mc + c,
                c > 0,
                mc >= 0,
                p >= 0,
        ;
        assert(x * (y * q) == y * (x * q)) by (nonlinear_arith);
    }
}

/// Whether an opponent must be rated this much higher for the expected score to be
/// at most `c / 2^n`.
spec fn is_share_gap(n: nat, c: int, gap: int) -> bool {
    gap > 0 && crate::elo::is_ratio(pow(2, n) - c, c, (gap - 1) as nat)
}

proof fn lemma_share_gap(n: nat, c: int, gap: int, a: Mantissa, b: Mantissa, r: nat, p: int)
    requires
        gap > 0,
        0 < c,
        400_000_000_000 * c < pow(2, n),
        bounds(pow(pow(2, n), 400), a),
        bounds(pow(c, 400), b),
        0 < r <= 19,
        b.e + gap == a.e + r,
        p == ten(r - 1),
        0 < b.lo,
        0 < a.lo,
        a.hi < b.lo * (10 * p),
        1_000_000_000 * b.hi * p < a.lo * 999_999_999,
    ensures
        is_share_gap(n, c, gap),
{
    let x = pow(2, n);
    let x400 = pow(x, 400);
    let y400 = pow(x - c, 400);
    let c400 = pow(c, 400);
    lemma_ten((r - 1) as nat);
    vstd::arithmetic::power::lemma_pow1(10);
    vstd::arithmetic::power::lemma_pow_adds(10, 1, (gap - 1) as nat);
    let k = pow(10, (gap - 1) as nat);
    let ea = pow(10, a.e);
    let eb = pow(10, b.e);
    vstd::arithmetic::power::lemma_pow_positive(10, a.e);
    vstd::arithmetic::power::lemma_pow_positive(10, b.e);
    vstd::arithmetic::power::lemma_pow_positive(10, (gap - 1) as nat);
    vstd::arithmetic::power::lemma_pow_adds(10, b.e, (gap - 1) as nat);
    vstd::arithmetic::power::lemma_pow_adds(10, a.e, (r - 1) as nat);
    assert(eb * k == ea * p);
    lemma_power_grows_with_base(x - c, x, 400);
    // The power is less than that of the next point.
    assert(x400 < c400 * (10 * k)) by (nonlinear_arith)
        requires
            x400 <= a.hi * ea,
            a.hi < b.lo * (10 * p),
            b.lo * eb <= c400,
            eb * k == ea * p,
            ea > 0,
            k > 0,
    ;
    // And it is greater than that of this point, even after its fall.
    lemma_power_falls_slowly(x, c, 400);
    assert(1_000_000_000 * y400 >= 999_999_999 * x400) by (nonlinear_arith)
        requires
            x * y400 >= (x - 400 * c) * x400,
            400_000_000_000 * c < x,
            c > 0,
            x400 >= 0,
    ;
    assert(999_999_999 * x400 > 1_000_000_000 * (c400 * k)) by (nonlinear_arith)
        requires
            a.lo * ea <= x400,
            1_000_000_000 * b.hi * p < a.lo * 999_999_999,
            c400 <= b.hi * eb,
            eb * k == ea * p,
            ea > 0,
            k > 0,
    ;
}

proof fn lemma_large_powers_of_two()
    ensures
        pow(2, 42) == 4398046511104,
        pow(2, 54) == 18014398509481984,
        pow(2, 55) == 36028797018963968,
{
    reveal_with_fuel(pow, 56);
}

/// Whether the number is 1 or one more than a power of two.
spec fn is_share(c: int) -> bool {
    ||| c == 1
    ||| c == 3
    ||| c == 5
    ||| c == 9
    ||| c == 17
    ||| c == 33
    ||| c == 65
    ||| c == 129
    ||| c == 257
    ||| c == 513
    ||| c == 1025
    ||| c == 2049
    ||| c == 4097
    ||| c == 8193
}

proof fn lemma_power_of_3()
    ensures
        bounds(pow(3, 400), mant(705507879, 705507944, 182)),
{
    lemma_first_power(3);
    lemma_power(3, 1, 1, mant(3, 3, 0), mant(3, 3, 0), mant(9, 9, 0));
    lemma_power(3, 2, 1, mant(9, 9, 0), mant(3, 3, 0), mant(27, 27, 0));
    lemma_power(3, 3, 3, mant(27, 27, 0), mant(27, 27, 0), mant(729, 729, 0));
    lemma_power(3, 6, 6, mant(729, 729, 0), mant(729, 729, 0), mant(531441, 531441, 0));
    lemma_power(3, 12, 12, mant(531441, 531441, 0), mant(531441, 531441, 0), mant(282429536, 282429537, 3));
    lemma_power(3, 24, 1, mant(282429536, 282429537, 3), mant(3, 3, 0), mant(847288608, 847288611, 3));
    lemma_power(3, 25, 25, mant(847288608, 847288611, 3), mant(847288608, 847288611, 3), mant(717897985, 717897991, 15));
    lemma_power(3, 50, 50, mant(717897985, 717897991, 15), mant(717897985, 717897991, 15), mant(515377516, 515377526, 39));
    lemma_power(3, 100, 100, mant(515377516, 515377526, 39), mant(515377516, 515377526, 39), mant(265613983, 265613995, 87));
    lemma_power(3, 200, 200, mant(265613983, 265613995, 87), mant(265613983, 265613995, 87), mant(705507879, 705507944, 182));
}

proof fn lemma_power_of_5()
    ensures
        bounds(pow(5, 400), mant(387259170, 387259198, 271)),
{
    lemma_first_power(5);
    lemma_power(5, 1, 1, mant(5, 5, 0), mant(5, 5, 0), mant(25, 25, 0));
    lemma_power(5, 2, 1, mant(25, 25, 0), mant(5, 5, 0), mant(125, 125, 0));
    lemma_power(5, 3, 3, mant(125, 125, 0), mant(125, 125, 0), mant(15625, 15625, 0));
    lemma_power(5, 6, 6, mant(15625, 15625, 0), mant(15625, 15625, 0), mant(244140625, 244140625, 0));
    lemma_power(5, 12, 12, mant(244140625, 244140625, 0), mant(244140625, 244140625, 0), mant(596046447, 596046448, 8));
    lemma_power(5, 24, 1, mant(596046447, 596046448, 8), mant(5, 5, 0), mant(298023223, 298023224, 9));
    lemma_power(5, 25, 25, mant(298023223, 298023224, 9), mant(298023223, 298023224, 9), mant(888178414, 888178421, 26));
    lemma_power(5, 50, 50, mant(888178414, 888178421, 26), mant(888178414, 888178421, 26), mant(788860895, 788860908, 61));
    lemma_power(5, 100, 100, mant(788860895, 788860908, 61), mant(788860895, 788860908, 61), mant(622301511, 622301533, 131));
    lemma_power(5, 200, 200, mant(622301511, 622301533, 131), mant(622301511, 622301533, 131), mant(387259170, 387259198, 271));
}

proof fn lemma_power_of_9()
    ensures
        bounds(pow(9, 400), mant(497741367, 497741460, 373)),
{
    lemma_first_power(9);
    lemma_power(9, 1, 1, mant(9, 9, 0), mant(9, 9, 0), mant(81, 81, 0));
    lemma_power(9, 2, 1, mant(81, 81, 0), mant(9, 9, 0), mant(729, 729, 0));
    lemma_power(9, 3, 3, mant(729, 729, 0), mant(729, 729, 0), mant(531441, 531441, 0));
    lemma_power(9, 6, 6, mant(531441, 531441, 0), mant(531441, 531441, 0), mant(282429536, 282429537, 3));
    lemma_power(9, 12, 12, mant(282429536, 282429537, 3), mant(282429536, 282429537, 3), mant(797664428, 797664434, 14));
    lemma_power(9, 24, 1, mant(797664428, 797664434, 14), mant(9, 9, 0), mant(717897985, 717897991, 15));
    lemma_power(9, 25, 25, mant(717897985, 717897991, 15), mant(717897985, 717897991, 15), mant(515377516, 515377526, 39));
    lemma_power(9, 50, 50, mant(515377516, 515377526, 39), mant(515377516, 515377526, 39), mant(265613983, 265613995, 87));
    lemma_power(9, 100, 100, mant(265613983, 265613995, 87), mant(265613983, 265613995, 87), mant(705507879, 705507944, 182));
    lemma_power(9, 200, 200, mant(705507879, 705507944, 182), mant(705507879, 705507944, 182), mant(497741367, 497741460, 373));
}

proof fn lemma_power_of_17()
    ensures
        bounds(pow(17, 400), mant(151205820, 151205858, 484)),
{
    lemma_first_power(17);
    lemma_power(17, 1, 1, mant(17, 17, 0), mant(17, 17, 0), mant(289, 289, 0));
    lemma_power(17, 2, 1, mant(289, 289, 0), mant(17, 17, 0), mant(4913, 4913, 0));
    lemma_power(17, 3, 3, mant(4913, 4913, 0), mant(4913, 4913, 0), mant(24137569, 24137569, 0));
    lemma_power(17, 6, 6, mant(24137569, 24137569, 0), mant(24137569, 24137569, 0), mant(582622237, 582622238, 6));
    lemma_power(17, 12, 12, mant(582622237, 582622238, 6), mant(582622237, 582622238, 6), mant(339448671, 339448673, 21));
    lemma_power(17, 24, 1, mant(339448671, 339448673, 21), mant(17, 17, 0), mant(577062740, 577062745, 22));
    lemma_power(17, 25, 25, mant(577062740, 577062745, 22), mant(577062740, 577062745, 22), mant(333001405, 333001412, 53));
    lemma_power(17, 50, 50, mant(333001405, 333001412, 53), mant(333001405, 333001412, 53), mant(110889935, 110889941, 115));
    lemma_power(17, 100, 100, mant(110889935, 110889941, 115), mant(110889935, 110889941, 115), mant(122965776, 122965791, 238));
    lemma_power(17, 200, 200, mant(122965776, 122965791, 238), mant(122965776, 122965791, 238), mant(151205820, 151205858, 484));
}

proof fn lemma_power_of_33()
    ensures
        bounds(pow(33, 400), mant(254434343, 254434513, 599)),
{
    lemma_first_power(33);
    lemma_power(33, 1, 1, mant(33, 33, 0), mant(33, 33, 0), mant(1089, 1089, 0));
    lemma_power(33, 2, 1, mant(1089, 1089, 0), mant(33, 33, 0), mant(35937, 35937, 0));
    lemma_power(33, 3, 3, mant(35937, 35937, 0), mant(35937, 35937, 0), mant(129146796, 129146797, 1));
    lemma_power(33, 6, 6, mant(129146796, 129146797, 1), mant(129146796, 129146797, 1), mant(166788949, 166788952, 10));
    lemma_power(33, 12, 12, mant(166788949, 166788952, 10), mant(166788949, 166788952, 10), mant(278185535, 278185546, 28));
    lemma_power(33, 24, 1, mant(278185535, 278185546, 28), mant(33, 33, 0), mant(918012265, 918012302, 29));
    lemma_power(33, 25, 25, mant(918012265, 918012302, 29), mant(918012265, 918012302, 29), mant(842746518, 842746587, 67));
    lemma_power(33, 50, 50, mant(842746518, 842746587, 67), mant(842746518, 842746587, 67), mant(710221693, 710221810, 143));
    lemma_power(33, 100, 100, mant(710221693, 710221810, 143), mant(710221693, 710221810, 143), mant(504414853, 504415020, 295));
    lemma_power(33, 200, 200, mant(504414853, 504415020, 295), mant(504414853, 504415020, 295), mant(254434343, 254434513, 599));
}

proof fn lemma_power_of_65()
    ensures
        bounds(pow(65, 400), mant(146333101, 146333153, 717)),
{
    lemma_first_power(65);
    lemma_power(65, 1, 1, mant(65, 65, 0), mant(65, 65, 0), mant(4225, 4225, 0));
    lemma_power(65, 2, 1, mant(4225, 4225, 0), mant(65, 65, 0), mant(274625, 274625, 0));
    lemma_power(65, 3, 3, mant(274625, 274625, 0), mant(274625, 274625, 0), mant(754188906, 754188907, 2));
    lemma_power(65, 6, 6, mant(754188906, 754188907, 2), mant(754188906, 754188907, 2), mant(568800905, 568800908, 13));
    lemma_power(65, 12, 12, mant(568800905, 568800908, 13), mant(568800905, 568800908, 13), mant(323534469, 323534473, 35));
    lemma_power(65, 24, 1, mant(323534469, 323534473, 35), mant(65, 65, 0), mant(210297404, 210297408, 37));
    lemma_power(65, 25, 25, mant(210297404, 210297408, 37), mant(210297404, 210297408, 37), mant(442249981, 442249999, 82));
    lemma_power(65, 50, 50, mant(442249981, 442249999, 82), mant(442249981, 442249999, 82), mant(195585045, 195585062, 173));
    lemma_power(65, 100, 100, mant(195585045, 195585062, 173), mant(195585045, 195585062, 173), mant(382535098, 382535165, 354));
    lemma_power(65, 200, 200, mant(382535098, 382535165, 354), mant(382535098, 382535165, 354), mant(146333101, 146333153, 717));
}

proof fn lemma_power_of_129()
    ensures
        bounds(pow(129, 400), mant(172140899, 172140968, 836)),
{
    lemma_first_power(129);
    lemma_power(129, 1, 1, mant(129, 129, 0), mant(129, 129, 0), mant(16641, 16641, 0));
    lemma_power(129, 2, 1, mant(16641, 16641, 0), mant(129, 129, 0), mant(2146689, 2146689, 0));
    lemma_power(129, 3, 3, mant(2146689, 2146689, 0), mant(2146689, 2146689, 0), mant(460827366, 460827367, 4));
    lemma_power(129, 6, 6, mant(460827366, 460827367, 4), mant(460827366, 460827367, 4), mant(212361861, 212361863, 17));
    lemma_power(129, 12, 12, mant(212361861, 212361863, 17), mant(212361861, 212361863, 17), mant(450975600, 450975609, 42));
    lemma_power(129, 24, 1, mant(450975600, 450975609, 42), mant(129, 129, 0), mant(581758524, 581758536, 44));
    lemma_power(129, 25, 25, mant(581758524, 581758536, 44), mant(581758524, 581758536, 44), mant(338442980, 338442995, 97));
    lemma_power(129, 50, 50, mant(338442980, 338442995, 97), mant(338442980, 338442995, 97), mant(114543650, 114543661, 203));
    lemma_power(129, 100, 100, mant(114543650, 114543661, 203), mant(114543650, 114543661, 203), mant(131202477, 131202503, 414));
    lemma_power(129, 200, 200, mant(131202477, 131202503, 414), mant(131202477, 131202503, 414), mant(172140899, 172140968, 836));
}

proof fn lemma_power_of_257()
    ensures
        bounds(pow(257, 400), mant(940262753, 940263214, 955)),
{
    lemma_first_power(257);
    lemma_power(257, 1, 1, mant(257, 257, 0), mant(257, 257, 0), mant(66049, 66049, 0));
    lemma_power(257, 2, 1, mant(66049, 66049, 0), mant(257, 257, 0), mant(16974593, 16974593, 0));
    lemma_power(257, 3, 3, mant(16974593, 16974593, 0), mant(16974593, 16974593, 0), mant(288136807, 288136808, 6));
    lemma_power(257, 6, 6, mant(288136807, 288136808, 6), mant(288136807, 288136808, 6), mant(830228195, 830228202, 20));
    lemma_power(257, 12, 12, mant(830228195, 830228202, 20), mant(830228195, 830228202, 20), mant(689278855, 689278868, 49));
    lemma_power(257, 24, 1, mant(689278855, 689278868, 49), mant(257, 257, 0), mant(177144665, 177144670, 52));
    lemma_power(257, 25, 25, mant(177144665, 177144670, 52), mant(177144665, 177144670, 52), mant(313802323, 313802342, 112));
    lemma_power(257, 50, 50, mant(313802323, 313802342, 112), mant(313802323, 313802342, 112), mant(984718979, 984719099, 232));
    lemma_power(257, 100, 100, mant(984718979, 984719099, 232), mant(984718979, 984719099, 232), mant(969671467, 969671704, 473));
    lemma_power(257, 200, 200, mant(969671467, 969671704, 473), mant(969671467, 969671704, 473), mant(940262753, 940263214, 955));
}

proof fn lemma_power_of_513()
    ensures
        bounds(pow(513, 400), mant(111415578, 111415653, 1076)),
{
    lemma_first_power(513);
    lemma_power(513, 1, 1, mant(513, 513, 0), mant(513, 513, 0), mant(263169, 263169, 0));
    lemma_power(513, 2, 1, mant(263169, 263169, 0), mant(513, 513, 0), mant(135005697, 135005697, 0));
    lemma_power(513, 3, 3, mant(135005697, 135005697, 0), mant(135005697, 135005697, 0), mant(182265382, 182265383, 8));
    lemma_power(513, 6, 6, mant(182265382, 182265383, 8), mant(182265382, 182265383, 8), mant(332206694, 332206699, 24));
    lemma_power(513, 12, 12, mant(332206694, 332206699, 24), mant(332206694, 332206699, 24), mant(110361287, 110361291, 57));
    lemma_power(513, 24, 1, mant(110361287, 110361291, 57), mant(513, 513, 0), mant(566153402, 566153423, 59));
    lemma_power(513, 25, 25, mant(566153402, 566153423, 59), mant(566153402, 566153423, 59), mant(320529674, 320529699, 127));
    lemma_power(513, 50, 50, mant(320529674, 320529699, 127), mant(320529674, 320529699, 127), mant(102739271, 102739288, 263));
    lemma_power(513, 100, 100, mant(102739271, 102739288, 263), mant(102739271, 102739288, 263), mant(105553578, 105553613, 534));
    lemma_power(513, 200, 200, mant(105553578, 105553613, 534), mant(105553578, 105553613, 534), mant(111415578, 111415653, 1076));
}

proof fn lemma_power_of_1025()
    ensures
        bounds(pow(1025, 400), mant(194780581, 194781001, 1196)),
{
    lemma_first_power(1025);
    lemma_power(1025, 1, 1, mant(1025, 1025, 0), mant(1025, 1025, 0), mant(1050625, 1050625, 0));
    lemma_power(1025, 2, 1, mant(1050625, 1050625, 0), mant(1025, 1025, 0), mant(107689062, 107689063, 1));
    lemma_power(1025, 3, 3, mant(107689062, 107689063, 1), mant(107689062, 107689063, 1), mant(115969340, 115969343, 10));
    lemma_power(1025, 6, 6, mant(115969340, 115969343, 10), mant(115969340, 115969343, 10), mant(134488878, 134488886, 28));
    lemma_power(1025, 12, 12, mant(134488878, 134488886, 28), mant(134488878, 134488886, 28), mant(180872583, 180872605, 64));
    lemma_power(1025, 24, 1, mant(180872583, 180872605, 64), mant(1025, 1025, 0), mant(185394397, 185394421, 67));
    lemma_power(1025, 25, 25, mant(185394397, 185394421, 67), mant(185394397, 185394421, 67), mant(343710824, 343710914, 142));
    lemma_power(1025, 50, 50, mant(343710824, 343710914, 142), mant(343710824, 343710914, 142), mant(118137130, 118137193, 293));
    lemma_power(1025, 100, 100, mant(118137130, 118137193, 293), mant(118137130, 118137193, 293), mant(139563814, 139563964, 594));
    lemma_power(1025, 200, 200, mant(139563814, 139563964, 594), mant(139563814, 139563964, 594), mant(194780581, 194781001, 1196));
}

proof fn lemma_power_of_2049()
    ensures
        bounds(pow(2049, 400), mant(413793103, 413793270, 1316)),
{
    lemma_first_power(2049);
    lemma_power(2049, 1, 1, mant(2049, 2049, 0), mant(2049, 2049, 0), mant(4198401, 4198401, 0));
    lemma_power(2049, 2, 1, mant(4198401, 4198401, 0), mant(2049, 2049, 0), mant(860252364, 860252365, 1));
    lemma_power(2049, 3, 3, mant(860252364, 860252365, 1), mant(860252364, 860252365, 1), mant(740034129, 740034132, 11));
    lemma_power(2049, 6, 6, mant(740034129, 740034132, 11), mant(740034129, 740034132, 11), mant(547650512, 547650517, 31));
    lemma_power(2049, 12, 12, mant(547650512, 547650517, 31), mant(547650512, 547650517, 31), mant(299921083, 299921089, 71));
    lemma_power(2049, 24, 1, mant(299921083, 299921089, 71), mant(2049, 2049, 0), mant(614538299, 614538312, 74));
    lemma_power(2049, 25, 25, mant(614538299, 614538312, 74), mant(614538299, 614538312, 74), mant(377657320, 377657337, 157));
    lemma_power(2049, 50, 50, mant(377657320, 377657337, 157), mant(377657320, 377657337, 157), mant(142625051, 142625065, 323));
    lemma_power(2049, 100, 100, mant(142625051, 142625065, 323), mant(142625051, 142625065, 323), mant(203419051, 203419092, 654));
    lemma_power(2049, 200, 200, mant(203419051, 203419092, 654), mant(203419051, 203419092, 654), mant(413793103, 413793270, 1316));
}

proof fn lemma_power_of_4097()
    ensures
        bounds(pow(4097, 400), mant(969137567, 969138078, 1436)),
{
    lemma_first_power(4097);
    lemma_power(4097, 1, 1, mant(4097, 4097, 0), mant(4097, 4097, 0), mant(16785409, 16785409, 0));
    lemma_power(4097, 2, 1, mant(16785409, 16785409, 0), mant(4097, 4097, 0), mant(687698206, 687698207, 2));
    lemma_power(4097, 3, 3, mant(687698206, 687698207, 2), mant(687698206, 687698207, 2), mant(472928822, 472928824, 13));
    lemma_power(4097, 6, 6, mant(472928822, 472928824, 13), mant(472928822, 472928824, 13), mant(223661670, 223661673, 35));
    lemma_power(4097, 12, 12, mant(223661670, 223661673, 35), mant(223661670, 223661673, 35), mant(500245426, 500245440, 78));
    lemma_power(4097, 24, 1, mant(500245426, 500245440, 78), mant(4097, 4097, 0), mant(204950551, 204950557, 82));
    lemma_power(4097, 25, 25, mant(204950551, 204950557, 82), mant(204950551, 204950557, 82), mant(420047283, 420047309, 172));
    lemma_power(4097, 50, 50, mant(420047283, 420047309, 172), mant(420047283, 420047309, 172), mant(176439719, 176439742, 353));
    lemma_power(4097, 100, 100, mant(176439719, 176439742, 353), mant(176439719, 176439742, 353), mant(311309744, 311309826, 714));
    lemma_power(4097, 200, 200, mant(311309744, 311309826, 714), mant(311309744, 311309826, 714), mant(969137567, 969138078, 1436));
}

proof fn lemma_power_of_8193()
    ensures
        bounds(pow(8193, 400), mant(238331738, 238331869, 1557)),
{
    lemma_first_power(8193);
    lemma_power(8193, 1, 1, mant(8193, 8193, 0), mant(8193, 8193, 0), mant(67125249, 67125249, 0));
    lemma_power(8193, 2, 1, mant(67125249, 67125249, 0), mant(8193, 8193, 0), mant(549957165, 549957166, 3));
    lemma_power(8193, 3, 3, mant(549957165, 549957166, 3), mant(549957165, 549957166, 3), mant(302452883, 302452885, 15));
    lemma_power(8193, 6, 6, mant(302452883, 302452885, 15), mant(302452883, 302452885, 15), mant(914777464, 914777477, 38));
    lemma_power(8193, 12, 12, mant(914777464, 914777477, 38), mant(914777464, 914777477, 38), mant(836817808, 836817833, 85));
    lemma_power(8193, 24, 1, mant(836817808, 836817833, 85), mant(8193, 8193, 0), mant(685604830, 685604851, 89));
    lemma_power(8193, 25, 25, mant(685604830, 685604851, 89), mant(685604830, 685604851, 89), mant(470053982, 470054012, 187));
    lemma_power(8193, 50, 50, mant(470053982, 470054012, 187), mant(470053982, 470054012, 187), mant(220950745, 220950775, 383));
    lemma_power(8193, 100, 100, mant(220950745, 220950775, 383), mant(220950745, 220950775, 383), mant(488192317, 488192450, 774));
    lemma_power(8193, 200, 200, mant(488192317, 488192450, 774), mant(488192317, 488192450, 774), mant(238331738, 238331869, 1557));
}

proof fn lemma_power_of_2()
    ensures
        bounds(pow(2, 400), mant(258224987799, 258224987829, 109)),
{
    lemma_first_power(2);
    lemma_power(2, 1, 1, mant(2, 2, 0), mant(2, 2, 0), mant(4, 4, 0));
    lemma_power(2, 2, 1, mant(4, 4, 0), mant(2, 2, 0), mant(8, 8, 0));
    lemma_power(2, 3, 3, mant(8, 8, 0), mant(8, 8, 0), mant(64, 64, 0));
    lemma_power(2, 6, 6, mant(64, 64, 0), mant(64, 64, 0), mant(4096, 4096, 0));
    lemma_power(2, 12, 12, mant(4096, 4096, 0), mant(4096, 4096, 0), mant(16777216, 16777216, 0));
    lemma_power(2, 24, 1, mant(16777216, 16777216, 0), mant(2, 2, 0), mant(33554432, 33554432, 0));
    lemma_power(2, 25, 25, mant(33554432, 33554432, 0), mant(33554432, 33554432, 0), mant(112589990684, 112589990685, 4));
    lemma_power(2, 50, 50, mant(112589990684, 112589990685, 4), mant(112589990684, 112589990685, 4), mant(126765060022, 126765060025, 19));
    lemma_power(2, 100, 100, mant(126765060022, 126765060025, 19), mant(126765060022, 126765060025, 19), mant(160693804423, 160693804432, 49));
    lemma_power(2, 200, 200, mant(160693804423, 160693804432, 49), mant(160693804423, 160693804432, 49), mant(258224987799, 258224987829, 109));
}

/// Bounds of `(2^n)^400`.
spec fn two_bounds(n: int) -> Mantissa {
    if n == 42 {
        mant(201338650870, 201338651872, 5046)
    } else if n == 43 {
        mant(519906706643, 519906709292, 5166)
    } else if n == 44 {
        mant(134252902979, 134252903680, 5287)
    } else if n == 45 {
        mant(346674542337, 346674544188, 5407)
    } else if n == 46 {
        mant(895200294651, 895200299536, 5527)
    } else if n == 47 {
        mant(231163085163, 231163086453, 5648)
    } else if n == 48 {
        mant(596920848457, 596920851859, 5768)
    } else if n == 49 {
        mant(154139878809, 154139879707, 5889)
    } else if n == 50 {
        mant(398027683247, 398027685614, 6009)
    } else if n == 51 {
        mant(102780693650, 102780694274, 6130)
    } else if n == 52 {
        mant(265405433637, 265405435280, 6250)
    } else if n == 53 {
        mant(685343148627, 685343152950, 6370)
    } else if n == 54 {
        mant(176972726192, 176972727330, 6491)
    } else if n == 55 {
        mant(456987800616, 456987803609, 6611)
    } else if n == 56 {
        mant(118005669238, 118005670025, 6732)
    } else if n == 57 {
        mant(304720124991, 304720127060, 6852)
    } else if n == 58 {
        mant(786863505579, 786863511014, 6972)
    } else {
        mant(203187819127, 203187820555, 7093)
    }
}

proof fn lemma_two_bounds(n: nat)
    requires
        42 <= n <= 59,
    ensures
        bounds(pow(pow(2, n), 400), two_bounds(n as int)),
{
    let t = pow(2, 400);
    lemma_power_of_2();
    vstd::arithmetic::power::lemma_pow1(t);
    lemma_power(t, 1, 1, mant(258224987799, 258224987829, 109), mant(258224987799, 258224987829, 109), mant(666801443237, 666801443393, 229));
    lemma_power(t, 2, 2, mant(666801443237, 666801443393, 229), mant(666801443237, 666801443393, 229), mant(444624164702, 444624164911, 470));
    lemma_power(t, 4, 4, mant(444624164702, 444624164911, 470), mant(444624164702, 444624164911, 470), mant(197690647836, 197690648023, 952));
    lemma_power(t, 8, 8, mant(197690647836, 197690648023, 952), mant(197690647836, 197690648023, 952), mant(390815922418, 390815923158, 1915));
    lemma_power(t, 16, 16, mant(390815922418, 390815923158, 1915), mant(390815922418, 390815923158, 1915), mant(152737085215, 152737085794, 3842));
    lemma_power(t, 32, 8, mant(152737085215, 152737085794, 3842), mant(197690647836, 197690648023, 952), mant(301946933247, 301946934678, 4805));
    lemma_power(t, 40, 2, mant(301946933247, 301946934678, 4805), mant(666801443237, 666801443393, 229), mant(201338650870, 201338651872, 5046));
    lemma_power(t, 42, 1, mant(201338650870, 201338651872, 5046), mant(258224987799, 258224987829, 109), mant(519906706643, 519906709292, 5166));
    lemma_power(t, 43, 1, mant(519906706643, 519906709292, 5166), mant(258224987799, 258224987829, 109), mant(134252902979, 134252903680, 5287));
    lemma_power(t, 44, 1, mant(134252902979, 134252903680, 5287), mant(258224987799, 258224987829, 109), mant(346674542337, 346674544188, 5407));
    lemma_power(t, 45, 1, mant(346674542337, 346674544188, 5407), mant(258224987799, 258224987829, 109), mant(895200294651, 895200299536, 5527));
    lemma_power(t, 46, 1, mant(895200294651, 895200299536, 5527), mant(258224987799, 258224987829, 109), mant(231163085163, 231163086453, 5648));
    lemma_power(t, 47, 1, mant(231163085163, 231163086453, 5648), mant(258224987799, 258224987829, 109), mant(596920848457, 596920851859, 5768));
    lemma_power(t, 48, 1, mant(596920848457, 596920851859, 5768), mant(258224987799, 258224987829, 109), mant(154139878809, 154139879707, 5889));
    lemma_power(t, 49, 1, mant(154139878809, 154139879707, 5889), mant(258224987799, 258224987829, 109), mant(398027683247, 398027685614, 6009));
    lemma_power(t, 50, 1, mant(398027683247, 398027685614, 6009), mant(258224987799, 258224987829, 109), mant(102780693650, 102780694274, 6130));
    lemma_power(t, 51, 1, mant(102780693650, 102780694274, 6130), mant(258224987799, 258224987829, 109), mant(265405433637, 265405435280, 6250));
    lemma_power(t, 52, 1, mant(265405433637, 265405435280, 6250), mant(258224987799, 258224987829, 109), mant(685343148627, 685343152950, 6370));
    lemma_power(t, 53, 1, mant(685343148627, 685343152950, 6370), mant(258224987799, 258224987829, 109), mant(176972726192, 176972727330, 6491));
    lemma_power(t, 54, 1, mant(176972726192, 176972727330, 6491), mant(258224987799, 258224987829, 109), mant(456987800616, 456987803609, 6611));
    lemma_power(t, 55, 1, mant(456987800616, 456987803609, 6611), mant(258224987799, 258224987829, 109), mant(118005669238, 118005670025, 6732));
    lemma_power(t, 56, 1, mant(118005669238, 118005670025, 6732), mant(258224987799, 258224987829, 109), mant(304720124991, 304720127060, 6852));
    lemma_power(t, 57, 1, mant(304720124991, 304720127060, 6852), mant(258224987799, 258224987829, 109), mant(786863505579, 786863511014, 6972));
    lemma_power(t, 58, 1, mant(786863505579, 786863511014, 6972), mant(258224987799, 258224987829, 109), mant(203187819127, 203187820555, 7093));
    vstd::arithmetic::power::lemma_pow_multiplies(2, n, 400);
    vstd::arithmetic::power::lemma_pow_multiplies(2, 400, n);
    assert(n * 400 == 400 * n);
}

/// The share `c / 2^n` lies between the expected scores against opponents who are
/// rated this much higher, and one point less.
spec fn share_gap(n: int, c: int) -> int {
    if n == 42 {
        5058
    } else if n == 43 {
        5178
    } else if n == 44 {
        5299
    } else if n == 45 {
        5419
    } else if n == 46 {
        5539
    } else if n == 47 {
        5660
    } else if n == 48 {
        5780
    } else if n == 49 {
        5901
    } else if n == 50 {
        6021
    } else if n == 51 {
        6142
    } else if n == 52 {
        6262
    } else if n == 53 {
        6382
    } else if n == 54 {
        if c == 1 {
            6503
        } else if c == 3 {
            6312
        } else if c == 5 {
            6223
        } else if c == 9 {
            6121
        } else if c == 17 {
            6011
        } else if c == 33 {
            5895
        } else if c == 65 {
            5778
        } else if c == 129 {
            5659
        } else if c == 257 {
            5539
        } else if c == 513 {
            5419
        } else if c == 1025 {
            5298
        } else if c == 2049 {
            5178
        } else {
            5058
        }
    } else if n == 55 {
        if c == 1 {
            6623
        } else if c == 3 {
            6432
        } else if c == 5 {
            6344
        } else if c == 9 {
            6241
        } else if c == 17 {
            6131
        } else if c == 33 {
            6016
        } else if c == 65 {
            5898
        } else if c == 129 {
            5779
        } else if c == 257 {
            5659
        } else if c == 513 {
            5539
        } else if c == 1025 {
            5419
        } else if c == 2049 {
            5299
        } else if c == 4097 {
            5178
        } else {
            5058
        }
    } else if n == 56 {
        6744
    } else if n == 57 {
        6864
    } else if n == 58 {
        6984
    } else {
        7105
    }
}

proof fn lemma_share_of_one(n: nat)
    requires
        42 <= n <= 59,
    ensures
        is_share_gap(n, 1, share_gap(n as int, 1)),
{
    lemma_two_bounds(n);
    lemma_one();
    lemma_large_powers_of_two();
    vstd::arithmetic::power::lemma_pow_increases(2, 42, n);
    if n == 42 {
        lemma_share_gap(42, 1, 5058, mant(201338650870, 201338651872, 5046), mant(1, 1, 0), 12, 100000000000);
    } else if n == 43 {
        lemma_share_gap(43, 1, 5178, mant(519906706643, 519906709292, 5166), mant(1, 1, 0), 12, 100000000000);
    } else if n == 44 {
        lemma_share_gap(44, 1, 5299, mant(134252902979, 134252903680, 5287), mant(1, 1, 0), 12, 100000000000);
    } else if n == 45 {
        lemma_share_gap(45, 1, 5419, mant(346674542337, 346674544188, 5407), mant(1, 1, 0), 12, 100000000000);
    } else if n == 46 {
        lemma_share_gap(46, 1, 5539, mant(895200294651, 895200299536, 5527), mant(1, 1, 0), 12, 100000000000);
    } else if n == 47 {
        lemma_share_gap(47, 1, 5660, mant(231163085163, 231163086453, 5648), mant(1, 1, 0), 12, 100000000000);
    } else if n == 48 {
        lemma_share_gap(48, 1, 5780, mant(596920848457, 596920851859, 5768), mant(1, 1, 0), 12, 100000000000);
    } else if n == 49 {
        lemma_share_gap(49, 1, 5901, mant(154139878809, 154139879707, 5889), mant(1, 1, 0), 12, 100000000000);
    } else if n == 50 {
        lemma_share_gap(50, 1, 6021, mant(398027683247, 398027685614, 6009), mant(1, 1, 0), 12, 100000000000);
    } else if n == 51 {
        lemma_share_gap(51, 1, 6142, mant(102780693650, 102780694274, 6130), mant(1, 1, 0), 12, 100000000000);
    } else if n == 52 {
        lemma_share_gap(52, 1, 6262, mant(265405433637, 265405435280, 6250), mant(1, 1, 0), 12, 100000000000);
    } else if n == 53 {
        lemma_share_gap(53, 1, 6382, mant(685343148627, 685343152950, 6370), mant(1, 1, 0), 12, 100000000000);
    } else if n == 54 {
        lemma_share_gap(54, 1, 6503, mant(176972726192, 176972727330, 6491), mant(1, 1, 0), 12, 100000000000);
    } else if n == 55 {
        lemma_share_gap(55, 1, 6623, mant(456987800616, 456987803609, 6611), mant(1, 1, 0), 12, 100000000000);
    } else if n == 56 {
        lemma_share_gap(56, 1, 6744, mant(118005669238, 118005670025, 6732), mant(1, 1, 0), 12, 100000000000);
    } else if n == 57 {
        lemma_share_gap(57, 1, 6864, mant(304720124991, 304720127060, 6852), mant(1, 1, 0), 12, 100000000000);
    } else if n == 58 {
        lemma_share_gap(58, 1, 6984, mant(786863505579, 786863511014, 6972), mant(1, 1, 0), 12, 100000000000);
    } else if n == 59 {
        lemma_share_gap(59, 1, 7105, mant(203187819127, 203187820555, 7093), mant(1, 1, 0), 12, 100000000000);
    }
}

proof fn lemma_share_of_54(c: int)
    requires
        is_share(c),
        c <= 4097,
    ensures
        is_share_gap(54, c, share_gap(54, c)),
{
    lemma_two_bounds(54);
    lemma_large_powers_of_two();
    if c == 1 {
        lemma_one();
        lemma_share_gap(54, 1, 6503, mant(176972726192, 176972727330, 6491), mant(1, 1, 0), 12, 100000000000);
    } else if c == 3 {
        lemma_power_of_3();
        lemma_share_gap(54, 3, 6312, mant(176972726192, 176972727330, 6491), mant(705507879, 705507944, 182), 3, 100);
    } else if c == 5 {
        lemma_power_of_5();
        lemma_share_gap(54, 5, 6223, mant(176972726192, 176972727330, 6491), mant(387259170, 387259198, 271), 3, 100);
    } else if c == 9 {
        lemma_power_of_9();
        lemma_share_gap(54, 9, 6121, mant(176972726192, 176972727330, 6491), mant(497741367, 497741460, 373), 3, 100);
    } else if c == 17 {
        lemma_power_of_17();
        lemma_share_gap(54, 17, 6011, mant(176972726192, 176972727330, 6491), mant(151205820, 151205858, 484), 4, 1000);
    } else if c == 33 {
        lemma_power_of_33();
        lemma_share_gap(54, 33, 5895, mant(176972726192, 176972727330, 6491), mant(254434343, 254434513, 599), 3, 100);
    } else if c == 65 {
        lemma_power_of_65();
        lemma_share_gap(54, 65, 5778, mant(176972726192, 176972727330, 6491), mant(146333101, 146333153, 717), 4, 1000);
    } else if c == 129 {
        lemma_power_of_129();
        lemma_share_gap(54, 129, 5659, mant(176972726192, 176972727330, 6491), mant(172140899, 172140968, 836), 4, 1000);
    } else if c == 257 {
        lemma_power_of_257();
        lemma_share_gap(54, 257, 5539, mant(176972726192, 176972727330, 6491), mant(940262753, 940263214, 955), 3, 100);
    } else if c == 513 {
        lemma_power_of_513();
        lemma_share_gap(54, 513, 5419, mant(176972726192, 176972727330, 6491), mant(111415578, 111415653, 1076), 4, 1000);
    } else if c == 1025 {
        lemma_power_of_1025();
        lemma_share_gap(54, 1025, 5298, mant(176972726192, 176972727330, 6491), mant(194780581, 194781001, 1196), 3, 100);
    } else if c == 2049 {
        lemma_power_of_2049();
        lemma_share_gap(54, 2049, 5178, mant(176972726192, 176972727330, 6491), mant(413793103, 413793270, 1316), 3, 100);
    } else if c == 4097 {
        lemma_power_of_4097();
        lemma_share_gap(54, 4097, 5058, mant(176972726192, 176972727330, 6491), mant(969137567, 969138078, 1436), 3, 100);
    }
}

proof fn lemma_share_of_55(c: int)
    requires
        is_share(c),
        c <= 8193,
    ensures
        is_share_gap(55, c, share_gap(55, c)),
{
    lemma_two_bounds(55);
    lemma_large_powers_of_two();
    if c == 1 {
        lemma_one();
        lemma_share_gap(55, 1, 6623, mant(456987800616, 456987803609, 6611), mant(1, 1, 0), 12, 100000000000);
    } else if c == 3 {
        lemma_power_of_3();
        lemma_share_gap(55, 3, 6432, mant(456987800616, 456987803609, 6611), mant(705507879, 705507944, 182), 3, 100);
    } else if c == 5 {
        lemma_power_of_5();
        lemma_share_gap(55, 5, 6344, mant(456987800616, 456987803609, 6611), mant(387259170, 387259198, 271), 4, 1000);
    } else if c == 9 {
        lemma_power_of_9();
        lemma_share_gap(55, 9, 6241, mant(456987800616, 456987803609, 6611), mant(497741367, 497741460, 373), 3, 100);
    } else if c == 17 {
        lemma_power_of_17();
        lemma_share_gap(55, 17, 6131, mant(456987800616, 456987803609, 6611), mant(151205820, 151205858, 484), 4, 1000);
    } else if c == 33 {
        lemma_power_of_33();
        lemma_share_gap(55, 33, 6016, mant(456987800616, 456987803609, 6611), mant(254434343, 254434513, 599), 4, 1000);
    } else if c == 65 {
        lemma_power_of_65();
        lemma_share_gap(55, 65, 5898, mant(456987800616, 456987803609, 6611), mant(146333101, 146333153, 717), 4, 1000);
    } else if c == 129 {
        lemma_power_of_129();
        lemma_share_gap(55, 129, 5779, mant(456987800616, 456987803609, 6611), mant(172140899, 172140968, 836), 4, 1000);
    } else if c == 257 {
        lemma_power_of_257();
        lemma_share_gap(55, 257, 5659, mant(456987800616, 456987803609, 6611), mant(940262753, 940263214, 955), 3, 100);
    } else if c == 513 {
        lemma_power_of_513();
        lemma_share_gap(55, 513, 5539, mant(456987800616, 456987803609, 6611), mant(111415578, 111415653, 1076), 4, 1000);
    } else if c == 1025 {
        lemma_power_of_1025();
        lemma_share_gap(55, 1025, 5419, mant(456987800616, 456987803609, 6611), mant(194780581, 194781001, 1196), 4, 1000);
    } else if c == 2049 {
        lemma_power_of_2049();
        lemma_share_gap(55, 2049, 5299, mant(456987800616, 456987803609, 6611), mant(413793103, 413793270, 1316), 4, 1000);
    } else if c == 4097 {
        lemma_power_of_4097();
        lemma_share_gap(55, 4097, 5178, mant(456987800616, 456987803609, 6611), mant(969137567, 969138078, 1436), 3, 100);
    } else if c == 8193 {
        lemma_power_of_8193();
        lemma_share_gap(55, 8193, 5058, mant(456987800616, 456987803609, 6611), mant(238331738, 238331869, 1557), 4, 1000);
    }
}

/// For which rating an expected score is lost follows from how floating point
/// numbers are rounded: it is lost exactly if it is at most the
/// [greatest one that is lost](lost_share).
pub proof fn law_rounding_gap_follows_the_formula(
    own: nat,
    opponent: nat,
    scored: int,
    k: int,
)
    requires
        scored == 0 || scored == 16 || scored == 32,
        -1 <= k <= 16,
        is_in_binade(own + scored, k),
    ensures
        ({
            let (c, digits) = lost_share(k, scored);
            is_lost_in_rounding(own as int, opponent as int, scored) <==> expects_share(
                own,
                opponent,
                c,
                pow(2, digits),
            )
        }),
{
    let rating = own + scored;
    let (c, digits) = lost_share(k, scored);
    lemma_powers_of_two();
    if scored == 0 {
        lemma_share_of_one(digits);
    } else if scored == 16 {
        lemma_share_of_55(c);
    } else {
        lemma_share_of_54(c);
    }
    assert(rounding_gap(rating, scored) == share_gap(digits as int, c)) by {
        lemma_powers_of_two();
    }
    let gap = share_gap(digits as int, c);
    crate::elo::lemma_compare(pow(2, digits) - c, c, (gap - 1) as nat, own, opponent);
}

proof fn lemma_powers_of_two()
    ensures
        pow(2, 0) == 1,
        pow(2, 1) == 2,
        pow(2, 2) == 4,
        pow(2, 3) == 8,
        pow(2, 4) == 16,
        pow(2, 5) == 32,
        pow(2, 6) == 64,
        pow(2, 7) == 128,
        pow(2, 8) == 256,
        pow(2, 9) == 512,
        pow(2, 10) == 1024,
        pow(2, 11) == 2048,
        pow(2, 12) == 4096,
        pow(2, 13) == 8192,
        pow(2, 14) == 16384,
        pow(2, 15) == 32768,
        pow(2, 16) == 65536,
        pow(2, 17) == 131072,
{
    reveal_with_fuel(pow, 18);
}

} // verus!
