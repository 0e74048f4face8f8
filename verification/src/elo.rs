//! The rating of players after a game.
//!
//! With ratings `a` and `b`, the first player expects the score
//! `10^(a/400) / (10^(a/400) + 10^(b/400))` from a game, where a win scores 1, a
//! draw one half and a loss 0. A game changes a rating by [`K_FACTOR`] times the
//! score less the expected score, and ratings are whole numbers, rounded down. The
//! formula is meant to be evaluated in 64-bit floating point numbers; here it is
//! evaluated in whole numbers, with the same results.
use crate::elo_range::{is_sum_infinite, MAX_RATING};
use crate::elo_rounding::compute_rounding_gap;
use crate::types::GameResultType;
use vstd::arithmetic::power::pow;
use vstd::prelude::*;

verus! {

/// The most that a rating can change by a game.
pub const K_FACTOR: u32 = 32;

/// The rating below which nobody falls.
pub const ELO_FLOOR: u32 = 100;

/// Whether a player's expected score, times [`K_FACTOR`], is at most `n`.
///
/// The expected score is `a / (a + b)` with `a = 10^(own/400)` and
/// `b = 10^(opponent/400)`. That 32 times it is at most `n` means that
/// `(32 - n) * a <= n * b`; both sides are taken to the power of 400 here, which
/// makes whole numbers of them.
pub open spec fn expects_at_most(own: nat, opponent: nat, n: int) -> bool {
    pow(K_FACTOR - n, 400) * pow(10, own) <= pow(n, 400) * pow(10, opponent)
}

/// The expected score of a player, times [`K_FACTOR`] and rounded up, by the
/// number of points that the opponent is rated higher.
pub open spec fn expected_points(gap: int) -> int {
    if gap >= 597 {
        1
    } else if gap >= 471 {
        2
    } else if gap >= 395 {
        3
    } else if gap >= 339 {
        4
    } else if gap >= 293 {
        5
    } else if gap >= 255 {
        6
    } else if gap >= 222 {
        7
    } else if gap >= 191 {
        8
    } else if gap >= 163 {
        9
    } else if gap >= 137 {
        10
    } else if gap >= 113 {
        11
    } else if gap >= 89 {
        12
    } else if gap >= 66 {
        13
    } else if gap >= 44 {
        14
    } else if gap >= 22 {
        15
    } else if gap >= 0 {
        16
    } else if gap >= -21 {
        17
    } else if gap >= -43 {
        18
    } else if gap >= -65 {
        19
    } else if gap >= -88 {
        20
    } else if gap >= -112 {
        21
    } else if gap >= -136 {
        22
    } else if gap >= -162 {
        23
    } else if gap >= -190 {
        24
    } else if gap >= -221 {
        25
    } else if gap >= -254 {
        26
    } else if gap >= -292 {
        27
    } else if gap >= -338 {
        28
    } else if gap >= -394 {
        29
    } else if gap >= -470 {
        30
    } else if gap >= -596 {
        31
    } else {
        32
    }
}

/// What a player scores by the result of a game, times [`K_FACTOR`]: player A,
/// then player B.
pub open spec fn scored_points(result: GameResultType) -> (int, int) {
    match result {
        GameResultType::PlayerAWins => (32, 0),
        GameResultType::PlayerBWins => (0, 32),
        GameResultType::Draw => (16, 16),
    }
}

/// A number as a rating: no rating is below 0.
pub open spec fn as_rating(rating: int) -> int {
    if rating < 0 {
        0
    } else {
        rating
    }
}

/// Whether a player expects to score nothing at all: the opponent is beyond the end
/// of the scale, or the sum of the formula is infinite, or the expected score is
/// lost in rounding.
pub open spec fn expects_nothing(own: int, opponent: int, scored: int) -> bool {
    ||| opponent > MAX_RATING
    ||| crate::elo_range::sum_is_infinite(own, opponent)
    ||| crate::elo_rounding::is_lost_in_rounding(own, opponent, scored)
}

/// The rating of a player after a game. Who is beyond the end of the scale loses
/// the rating.
pub open spec fn new_rating(own: int, opponent: int, scored: int) -> int {
    if own > MAX_RATING {
        0
    } else if expects_nothing(own, opponent, scored) {
        as_rating(own + scored)
    } else {
        as_rating(own + scored - expected_points(opponent - own))
    }
}

fn compute_expected_points(gap: i64) -> (points: i64)
    ensures
        points == expected_points(gap as int),
        1 <= points <= 32,
{
    if gap >= 597 {
        1
    } else if gap >= 471 {
        2
    } else if gap >= 395 {
        3
    } else if gap >= 339 {
        4
    } else if gap >= 293 {
        5
    } else if gap >= 255 {
        6
    } else if gap >= 222 {
        7
    } else if gap >= 191 {
        8
    } else if gap >= 163 {
        9
    } else if gap >= 137 {
        10
    } else if gap >= 113 {
        11
    } else if gap >= 89 {
        12
    } else if gap >= 66 {
        13
    } else if gap >= 44 {
        14
    } else if gap >= 22 {
        15
    } else if gap >= 0 {
        16
    } else if gap >= -21 {
        17
    } else if gap >= -43 {
        18
    } else if gap >= -65 {
        19
    } else if gap >= -88 {
        20
    } else if gap >= -112 {
        21
    } else if gap >= -136 {
        22
    } else if gap >= -162 {
        23
    } else if gap >= -190 {
        24
    } else if gap >= -221 {
        25
    } else if gap >= -254 {
        26
    } else if gap >= -292 {
        27
    } else if gap >= -338 {
        28
    } else if gap >= -394 {
        29
    } else if gap >= -470 {
        30
    } else if gap >= -596 {
        31
    } else {
        32
    }
}

fn compute_new_rating(own: u32, opponent: u32, scored: i64) -> (rating: u32)
    requires
        0 <= scored <= 32,
    ensures
        rating == new_rating(own as int, opponent as int, scored as int),
{
    if own > MAX_RATING {
        return 0;
    }
    let gap: i64 = opponent as i64 - own as i64;
    let expected = if opponent > MAX_RATING || is_sum_infinite(own, opponent) || gap
        >= compute_rounding_gap(own as i64 + scored, scored) {
        0
    } else {
        compute_expected_points(gap)
    };
    let rating: i64 = own as i64 + scored - expected;
    if rating < 0 {
        0
    } else {
        rating as u32
    }
}

/// Calculates the ratings of player A and of player B after a game. The ratings
/// are those that the formula gives in 64-bit floating point numbers.
pub fn calc_elo(r1: u32, r2: u32, result: GameResultType) -> (ratings: (u32, u32))
    ensures
        ratings.0 == new_rating(r1 as int, r2 as int, scored_points(result).0),
        ratings.1 == new_rating(r2 as int, r1 as int, scored_points(result).1),
{
    let (s1, s2): (i64, i64) = match result {
        GameResultType::PlayerAWins => (32, 0),
        GameResultType::PlayerBWins => (0, 32),
        GameResultType::Draw => (16, 16),
    };
    (compute_new_rating(r1, r2, s1), compute_new_rating(r2, r1, s2))
}

/// The greatest whole `k` for which `10^(k/400)` is less than `(32 - n) / n`.
spec fn lead(n: int) -> int {
    if n == 1 {
        596
    } else if n == 2 {
        470
    } else if n == 3 {
        394
    } else if n == 4 {
        338
    } else if n == 5 {
        292
    } else if n == 6 {
        254
    } else if n == 7 {
        221
    } else if n == 8 {
        190
    } else if n == 9 {
        162
    } else if n == 10 {
        136
    } else if n == 11 {
        112
    } else if n == 12 {
        88
    } else if n == 13 {
        65
    } else if n == 14 {
        43
    } else {
        21
    }
}

/// Whether the ratio of the numbers lies between `10^(k/400)` and `10^((k+1)/400)`.
pub open spec fn is_ratio(a: int, b: int, k: nat) -> bool {
    pow(b, 400) * pow(10, k) < pow(a, 400) < pow(b, 400) * pow(10, k + 1)
}

spec fn sixteenth_power(x: int) -> int {
    let x2 = x * x;
    let x4 = x2 * x2;
    let x8 = x4 * x4;
    x8 * x8
}

proof fn lemma_sixteenth_power(x: int)
    ensures
        pow(x, 16) == sixteenth_power(x),
{
    vstd::arithmetic::power::lemma_pow1(x);
    vstd::arithmetic::power::lemma_pow_adds(x, 1, 1);
    vstd::arithmetic::power::lemma_pow_adds(x, 2, 2);
    vstd::arithmetic::power::lemma_pow_adds(x, 4, 4);
    vstd::arithmetic::power::lemma_pow_adds(x, 8, 8);
}

proof fn lemma_ratio(a: int, b: int, q: nat, r: nat, x: int, y: int, t: int, z: int, p: int)
    requires
        pow(a, 25) == x,
        pow(b, 25) == y,
        pow(10, q) == t,
        y * t == z,
        pow(10, r) == p,
        sixteenth_power(z) * p < sixteenth_power(x) < sixteenth_power(z) * (10 * p),
    ensures
        is_ratio(a, b, 16 * q + r),
{
    lemma_sixteenth_power(x);
    lemma_sixteenth_power(z);
    vstd::arithmetic::power::lemma_pow_multiplies(a, 25, 16);
    vstd::arithmetic::power::lemma_pow_multiplies(b, 25, 16);
    vstd::arithmetic::power::lemma_pow_multiplies(10, q, 16);
    vstd::arithmetic::power::lemma_pow_distributes(y, t, 16);
    vstd::arithmetic::power::lemma_pow1(10);
    vstd::arithmetic::power::lemma_pow_adds(10, 1, r);
    vstd::arithmetic::power::lemma_pow_adds(10, 16 * q, r);
    vstd::arithmetic::power::lemma_pow_adds(10, 16 * q, r + 1);
    let b400 = pow(b, 400);
    let tens = pow(10, 16 * q);
    assert(pow(z, 16) == b400 * tens);
    assert(b400 * tens * p == b400 * (tens * p)) by (nonlinear_arith);
    assert(b400 * tens * (10 * p) == b400 * (tens * (10 * p))) by (nonlinear_arith);
}

proof fn lemma_scaled_ratio(g: int, a: int, b: int, k: nat)
    requires
        g > 0,
        is_ratio(a, b, k),
    ensures
        is_ratio(g * a, g * b, k),
{
    vstd::arithmetic::power::lemma_pow_distributes(g, a, 400);
    vstd::arithmetic::power::lemma_pow_distributes(g, b, 400);
    vstd::arithmetic::power::lemma_pow_positive(g, 400);
    let g400 = pow(g, 400);
    let a400 = pow(a, 400);
    let b400 = pow(b, 400);
    assert(g400 * b400 * pow(10, k) < g400 * a400) by (nonlinear_arith)
        requires
            g400 > 0,
            b400 * pow(10, k) < a400,
    ;
    assert(g400 * a400 < g400 * b400 * pow(10, k + 1)) by (nonlinear_arith)
        requires
            g400 > 0,
            a400 < b400 * pow(10, k + 1),
    ;
}

proof fn lemma_lead(n: int)
    requires
        1 <= n <= 15,
    ensures
        is_ratio(32 - n, n, lead(n) as nat),
{
    if n == 1 {
        let x = 19232792489931358333837313998767870751int;
        let y = 1int;
        let t = 10000000000000000000000000000000000000int;
        assert(pow(31, 25) == x && pow(1, 25) == y) by {
            reveal_with_fuel(pow, 26);
        }
        assert(pow(10, 37) == t && pow(10, 4) == 10000) by {
            reveal_with_fuel(pow, 38);
        }
        assert(sixteenth_power(10000000000000000000000000000000000000) * 10000 < sixteenth_power(
            19232792489931358333837313998767870751,
        ) < sixteenth_power(10000000000000000000000000000000000000) * 100000) by (nonlinear_arith);
        lemma_ratio(31, 1, 37, 4, x, y, t, 10000000000000000000000000000000000000, 10000);
        lemma_scaled_ratio(1, 31, 1, 596);
    } else if n == 2 {
        let x = 252511682940423488616943359375int;
        let y = 1int;
        let t = 100000000000000000000000000000int;
        assert(pow(15, 25) == x && pow(1, 25) == y) by {
            reveal_with_fuel(pow, 26);
        }
        assert(pow(10, 29) == t && pow(10, 6) == 1000000) by {
            reveal_with_fuel(pow, 30);
        }
        assert(sixteenth_power(100000000000000000000000000000) * 1000000 < sixteenth_power(
            252511682940423488616943359375,
        ) < sixteenth_power(100000000000000000000000000000) * 10000000) by (nonlinear_arith);
        lemma_ratio(15, 1, 29, 6, x, y, t, 100000000000000000000000000000, 1000000);
        lemma_scaled_ratio(2, 15, 1, 470);
    } else if n == 3 {
        let x = 3630362123627258663193028251474330749int;
        let y = 847288609443int;
        let t = 1000000000000000000000000int;
        assert(pow(29, 25) == x && pow(3, 25) == y) by {
            reveal_with_fuel(pow, 26);
        }
        assert(pow(10, 24) == t && pow(10, 10) == 10000000000) by {
            reveal_with_fuel(pow, 25);
        }
        assert(sixteenth_power(847288609443000000000000000000000000) * 10000000000 < sixteenth_power(
            3630362123627258663193028251474330749,
        ) < sixteenth_power(847288609443000000000000000000000000) * 100000000000) by (nonlinear_arith);
        lemma_ratio(29, 3, 24, 10, x, y, t, 847288609443000000000000000000000000, 10000000000);
        lemma_scaled_ratio(1, 29, 3, 394);
    } else if n == 4 {
        let x = 1341068619663964900807int;
        let y = 1int;
        let t = 1000000000000000000000int;
        assert(pow(7, 25) == x && pow(1, 25) == y) by {
            reveal_with_fuel(pow, 26);
        }
        assert(pow(10, 21) == t && pow(10, 2) == 100) by {
            reveal_with_fuel(pow, 22);
        }
        assert(sixteenth_power(1000000000000000000000) * 100 < sixteenth_power(
            1341068619663964900807,
        ) < sixteenth_power(1000000000000000000000) * 1000) by (nonlinear_arith);
        lemma_ratio(7, 1, 21, 2, x, y, t, 1000000000000000000000, 100);
        lemma_scaled_ratio(4, 7, 1, 338);
    } else if n == 5 {
        let x = 608266787713357709119683992618861307int;
        let y = 298023223876953125int;
        let t = 1000000000000000000int;
        assert(pow(27, 25) == x && pow(5, 25) == y) by {
            reveal_with_fuel(pow, 26);
        }
        assert(pow(10, 18) == t && pow(10, 4) == 10000) by {
            reveal_with_fuel(pow, 19);
        }
        assert(sixteenth_power(298023223876953125000000000000000000) * 10000 < sixteenth_power(
            608266787713357709119683992618861307,
        ) < sixteenth_power(298023223876953125000000000000000000) * 100000) by (nonlinear_arith);
        lemma_ratio(27, 5, 18, 4, x, y, t, 298023223876953125000000000000000000, 10000);
        lemma_scaled_ratio(1, 27, 5, 292);
    } else if n == 6 {
        let x = 7056410014866816666030739693int;
        let y = 847288609443int;
        let t = 1000000000000000int;
        assert(pow(13, 25) == x && pow(3, 25) == y) by {
            reveal_with_fuel(pow, 26);
        }
        assert(pow(10, 15) == t && pow(10, 14) == 100000000000000) by {
            reveal_with_fuel(pow, 16);
        }
        assert(sixteenth_power(847288609443000000000000000) * 100000000000000 < sixteenth_power(
            7056410014866816666030739693,
        ) < sixteenth_power(847288609443000000000000000) * 1000000000000000) by (nonlinear_arith);
        lemma_ratio(13, 3, 15, 14, x, y, t, 847288609443000000000000000, 100000000000000);
        lemma_scaled_ratio(2, 13, 3, 254);
    } else if n == 7 {
        let x = 88817841970012523233890533447265625int;
        let y = 1341068619663964900807int;
        let t = 10000000000000int;
        assert(pow(25, 25) == x && pow(7, 25) == y) by {
            reveal_with_fuel(pow, 26);
        }
        assert(pow(10, 13) == t && pow(10, 13) == 10000000000000) by {
            reveal_with_fuel(pow, 14);
        }
        assert(sixteenth_power(13410686196639649008070000000000000) * 10000000000000 < sixteenth_power(
            88817841970012523233890533447265625,
        ) < sixteenth_power(13410686196639649008070000000000000) * 100000000000000) by (nonlinear_arith);
        lemma_ratio(25, 7, 13, 13, x, y, t, 13410686196639649008070000000000000, 10000000000000);
        lemma_scaled_ratio(1, 25, 7, 221);
    } else if n == 8 {
        let x = 847288609443int;
        let y = 1int;
        let t = 100000000000int;
        assert(pow(3, 25) == x && pow(1, 25) == y) by {
            reveal_with_fuel(pow, 26);
        }
        assert(pow(10, 11) == t && pow(10, 14) == 100000000000000) by {
            reveal_with_fuel(pow, 15);
        }
        assert(sixteenth_power(100000000000) * 100000000000000 < sixteenth_power(
            847288609443,
        ) < sixteenth_power(100000000000) * 1000000000000000) by (nonlinear_arith);
        lemma_ratio(3, 1, 11, 14, x, y, t, 100000000000, 100000000000000);
        lemma_scaled_ratio(8, 3, 1, 190);
    } else if n == 9 {
        let x = 11045767571919545466173812409689943int;
        let y = 717897987691852588770249int;
        let t = 10000000000int;
        assert(pow(23, 25) == x && pow(9, 25) == y) by {
            reveal_with_fuel(pow, 26);
        }
        assert(pow(10, 10) == t && pow(10, 2) == 100) by {
            reveal_with_fuel(pow, 11);
        }
        assert(sixteenth_power(7178979876918525887702490000000000) * 100 < sixteenth_power(
            11045767571919545466173812409689943,
        ) < sixteenth_power(7178979876918525887702490000000000) * 1000) by (nonlinear_arith);
        lemma_ratio(23, 9, 10, 2, x, y, t, 7178979876918525887702490000000000, 100);
        lemma_scaled_ratio(1, 23, 9, 162);
    } else if n == 10 {
        let x = 108347059433883722041830251int;
        let y = 298023223876953125int;
        let t = 100000000int;
        assert(pow(11, 25) == x && pow(5, 25) == y) by {
            reveal_with_fuel(pow, 26);
        }
        assert(pow(10, 8) == t && pow(10, 8) == 100000000) by {
            reveal_with_fuel(pow, 9);
        }
        assert(sixteenth_power(29802322387695312500000000) * 100000000 < sixteenth_power(
            108347059433883722041830251,
        ) < sixteenth_power(29802322387695312500000000) * 1000000000) by (nonlinear_arith);
        lemma_ratio(11, 5, 8, 8, x, y, t, 29802322387695312500000000, 100000000);
        lemma_scaled_ratio(2, 11, 5, 136);
    } else if n == 11 {
        let x = 1136272165922724266740722458520501int;
        let y = 108347059433883722041830251int;
        let t = 10000000int;
        assert(pow(21, 25) == x && pow(11, 25) == y) by {
            reveal_with_fuel(pow, 26);
        }
        assert(pow(10, 7) == t && pow(10, 0) == 1) by {
            reveal_with_fuel(pow, 8);
        }
        assert(sixteenth_power(1083470594338837220418302510000000) * 1 < sixteenth_power(
            1136272165922724266740722458520501,
        ) < sixteenth_power(1083470594338837220418302510000000) * 10) by (nonlinear_arith);
        lemma_ratio(21, 11, 7, 0, x, y, t, 1083470594338837220418302510000000, 1);
        lemma_scaled_ratio(1, 21, 11, 112);
    } else if n == 12 {
        let x = 298023223876953125int;
        let y = 847288609443int;
        let t = 100000int;
        assert(pow(5, 25) == x && pow(3, 25) == y) by {
            reveal_with_fuel(pow, 26);
        }
        assert(pow(10, 5) == t && pow(10, 8) == 100000000) by {
            reveal_with_fuel(pow, 9);
        }
        assert(sixteenth_power(84728860944300000) * 100000000 < sixteenth_power(
            298023223876953125,
        ) < sixteenth_power(84728860944300000) * 1000000000) by (nonlinear_arith);
        lemma_ratio(5, 3, 5, 8, x, y, t, 84728860944300000, 100000000);
        lemma_scaled_ratio(4, 5, 3, 88);
    } else if n == 13 {
        let x = 93076495688256089536609610280499int;
        let y = 7056410014866816666030739693int;
        let t = 10000int;
        assert(pow(19, 25) == x && pow(13, 25) == y) by {
            reveal_with_fuel(pow, 26);
        }
        assert(pow(10, 4) == t && pow(10, 1) == 10) by {
            reveal_with_fuel(pow, 5);
        }
        assert(sixteenth_power(70564100148668166660307396930000) * 10 < sixteenth_power(
            93076495688256089536609610280499,
        ) < sixteenth_power(70564100148668166660307396930000) * 100) by (nonlinear_arith);
        lemma_ratio(19, 13, 4, 1, x, y, t, 70564100148668166660307396930000, 10);
        lemma_scaled_ratio(1, 19, 13, 65);
    } else if n == 14 {
        let x = 717897987691852588770249int;
        let y = 1341068619663964900807int;
        let t = 100int;
        assert(pow(9, 25) == x && pow(7, 25) == y) by {
            reveal_with_fuel(pow, 26);
        }
        assert(pow(10, 2) == t && pow(10, 11) == 100000000000) by {
            reveal_with_fuel(pow, 12);
        }
        assert(sixteenth_power(134106861966396490080700) * 100000000000 < sixteenth_power(
            717897987691852588770249,
        ) < sixteenth_power(134106861966396490080700) * 1000000000000) by (nonlinear_arith);
        lemma_ratio(9, 7, 2, 11, x, y, t, 134106861966396490080700, 100000000000);
        lemma_scaled_ratio(2, 9, 7, 43);
    } else {
        let x = 5770627412348402378939569991057int;
        let y = 252511682940423488616943359375int;
        let t = 10int;
        assert(pow(17, 25) == x && pow(15, 25) == y) by {
            reveal_with_fuel(pow, 26);
        }
        assert(pow(10, 1) == t && pow(10, 5) == 100000) by {
            reveal_with_fuel(pow, 6);
        }
        assert(sixteenth_power(2525116829404234886169433593750) * 100000 < sixteenth_power(
            5770627412348402378939569991057,
        ) < sixteenth_power(2525116829404234886169433593750) * 1000000) by (nonlinear_arith);
        lemma_ratio(17, 15, 1, 5, x, y, t, 2525116829404234886169433593750, 100000);
        lemma_scaled_ratio(1, 17, 15, 21);
    }
}

/// Compares two ratings with a ratio.
pub proof fn lemma_compare(a: int, b: int, k: nat, own: nat, opponent: nat)
    requires
        b > 0,
        is_ratio(a, b, k),
    ensures
        opponent > own + k ==> pow(a, 400) * pow(10, own) < pow(b, 400) * pow(10, opponent),
        opponent <= own + k ==> pow(a, 400) * pow(10, own) > pow(b, 400) * pow(10, opponent),
{
    let a400 = pow(a, 400);
    let b400 = pow(b, 400);
    let ten_own = pow(10, own);
    let ten_opponent = pow(10, opponent);
    vstd::arithmetic::power::lemma_pow_positive(b, 400);
    vstd::arithmetic::power::lemma_pow_positive(10, own);
    if opponent > own + k {
        let high = pow(10, k + 1);
        vstd::arithmetic::power::lemma_pow_adds(10, own, k + 1);
        vstd::arithmetic::power::lemma_pow_increases(10, own + k + 1, opponent);
        assert(a400 * ten_own < b400 * ten_opponent) by (nonlinear_arith)
            requires
                a400 < b400 * high,
                ten_own > 0,
                b400 > 0,
                ten_own * high <= ten_opponent,
        ;
    } else {
        let low = pow(10, k);
        vstd::arithmetic::power::lemma_pow_adds(10, own, k);
        vstd::arithmetic::power::lemma_pow_increases(10, opponent, own + k);
        assert(a400 * ten_own > b400 * ten_opponent) by (nonlinear_arith)
            requires
                a400 > b400 * low,
                ten_own > 0,
                b400 > 0,
                ten_opponent <= ten_own * low,
        ;
    }
}

/// From which lead of the opponent on the expected score, times [`K_FACTOR`], is
/// at most `n`.
spec fn threshold(n: int) -> int {
    if n < 16 {
        lead(n) + 1
    } else if n == 16 {
        0
    } else {
        -lead(32 - n)
    }
}

proof fn lemma_threshold(own: nat, opponent: nat, n: int)
    requires
        1 <= n <= 31,
    ensures
        expects_at_most(own, opponent, n) <==> opponent - own >= threshold(n),
{
    if n < 16 {
        lemma_lead(n);
        lemma_compare(32 - n, n, lead(n) as nat, own, opponent);
    } else if n > 16 {
        lemma_lead(32 - n);
        lemma_compare(n, 32 - n, lead(32 - n) as nat, opponent, own);
    } else {
        vstd::arithmetic::power::lemma_pow_positive(16, 400);
        let p = pow(16, 400);
        let ten_own = pow(10, own);
        let ten_opponent = pow(10, opponent);
        if own <= opponent {
            vstd::arithmetic::power::lemma_pow_increases(10, own, opponent);
            assert(p * ten_own <= p * ten_opponent) by (nonlinear_arith)
                requires
                    p > 0,
                    ten_own <= ten_opponent,
            ;
        } else {
            vstd::arithmetic::power::lemma_pow_strictly_increases(10, opponent, own);
            assert(p * ten_own > p * ten_opponent) by (nonlinear_arith)
                requires
                    p > 0,
                    ten_own > ten_opponent,
            ;
        }
    }
}

proof fn lemma_expectation_is_within_bounds(own: nat, opponent: nat)
    ensures
        !expects_at_most(own, opponent, 0),
        expects_at_most(own, opponent, 32),
{
    vstd::arithmetic::power::lemma_pow_positive(32, 400);
    vstd::arithmetic::power::lemma_pow_positive(10, own);
    vstd::arithmetic::power::lemma_pow_positive(10, opponent);
    assert(pow(0, 400) == 0) by {
        vstd::arithmetic::power::lemma_pow_adds(0, 1, 399);
        vstd::arithmetic::power::lemma_pow1(0);
    }
    let p = pow(32, 400);
    let ten_own = pow(10, own);
    let ten_opponent = pow(10, opponent);
    assert(p * ten_own > 0) by (nonlinear_arith)
        requires
            p > 0,
            ten_own > 0,
    ;
    assert(p * ten_opponent > 0) by (nonlinear_arith)
        requires
            p > 0,
            ten_opponent > 0,
    ;
}

/// The points that a player is expected to score are those of the rating
/// formula: for any two ratings they are the least whole number that is not
/// below the expected score times [`K_FACTOR`].
pub proof fn law_expected_points_follow_the_formula(own: nat, opponent: nat)
    ensures
        ({
            let points = expected_points(opponent - own);
            &&& 1 <= points <= K_FACTOR
            &&& expects_at_most(own, opponent, points)
            &&& forall|fewer: int|
                0 <= fewer < points ==> !#[trigger] expects_at_most(own, opponent, fewer)
        }),
{
    let points = expected_points(opponent - own);
    lemma_expectation_is_within_bounds(own, opponent);
    if points < 32 {
        lemma_threshold(own, opponent, points);
    }
    assert forall|fewer: int| 0 <= fewer < points implies !#[trigger] expects_at_most(
        own,
        opponent,
        fewer,
    ) by {
        if fewer > 0 {
            lemma_threshold(own, opponent, fewer);
        }
    }
}

/// Whether the game takes the player no further down than to 0.
pub open spec fn stays_on_scale(own: u32, opponent: u32, scored: int) -> bool {
    ||| crate::elo_rounding::is_lost_in_rounding(own as int, opponent as int, scored)
    ||| own + scored - expected_points(opponent - own) >= 0
}

/// What one player gains in a game the other one loses, up to rounding: the two
/// ratings together lose one point, or none if they were equal or so far apart
/// that one of the expected scores was lost. This holds of players on the rating
/// scale who stay on it, as long as the sum of the formula is finite.
pub proof fn law_ratings_are_exchanged(r1: u32, r2: u32, result: GameResultType)
    requires
        r1 <= MAX_RATING,
        r2 <= MAX_RATING,
        !crate::elo_range::sum_is_infinite(r1 as int, r2 as int),
        stays_on_scale(r1, r2, scored_points(result).0),
        stays_on_scale(r2, r1, scored_points(result).1),
    ensures
        new_rating(r1 as int, r2 as int, scored_points(result).0) + new_rating(
            r2 as int,
            r1 as int,
            scored_points(result).1,
        ) == (if r1 == r2 || crate::elo_rounding::is_lost_in_rounding(
            r1 as int,
            r2 as int,
            scored_points(result).0,
        ) || crate::elo_rounding::is_lost_in_rounding(r2 as int, r1 as int, scored_points(result).1) {
            r1 + r2
        } else {
            r1 + r2 - 1
        }),
{
}

/// The result of a game when its players change seats.
pub open spec fn with_seats_changed(result: GameResultType) -> GameResultType {
    match result {
        GameResultType::PlayerAWins => GameResultType::PlayerBWins,
        GameResultType::PlayerBWins => GameResultType::PlayerAWins,
        GameResultType::Draw => GameResultType::Draw,
    }
}

/// It does not matter for a rating which of the players is player A.
pub proof fn law_seats_do_not_matter(r1: u32, r2: u32, result: GameResultType)
    ensures
        new_rating(r1 as int, r2 as int, scored_points(result).0) == new_rating(
            r1 as int,
            r2 as int,
            scored_points(with_seats_changed(result)).1,
        ),
{
}

/// A winner never loses rating and a loser never gains any, and no rating on the
/// scale changes by more than [`K_FACTOR`].
pub proof fn law_rating_follows_the_score(own: u32, opponent: u32)
    requires
        own <= MAX_RATING,
    ensures
        own <= new_rating(own as int, opponent as int, 32) <= own + K_FACTOR,
        own - K_FACTOR <= new_rating(own as int, opponent as int, 0) <= own,
        own - K_FACTOR <= new_rating(own as int, opponent as int, 16) <= own + K_FACTOR,
{
}

/// The higher the opponent is rated, the more a player gets out of a game.
pub proof fn law_stronger_opponents_are_worth_more(
    own: u32,
    weaker: u32,
    stronger: u32,
    scored: int,
)
    requires
        weaker <= stronger,
    ensures
        new_rating(own as int, weaker as int, scored) <= new_rating(
            own as int,
            stronger as int,
            scored,
        ),
{
    if crate::elo_range::sum_is_infinite(own as int, weaker as int) && stronger <= MAX_RATING {
        crate::elo_range::law_sum_grows_with_the_ratings(
            own as int,
            weaker as int,
            stronger as int,
        );
    }
}

/// A win scores 1, a draw one half and a loss 0, times 32, and what one player
/// scores the other one does not.
pub proof fn law_scores(result: GameResultType)
    ensures
        result == GameResultType::PlayerAWins ==> scored_points(result).0 == 32,
        result == GameResultType::PlayerBWins ==> scored_points(result).0 == 0,
        result == GameResultType::Draw ==> scored_points(result).0 == 16,
        scored_points(result).0 + scored_points(result).1 == 32,
{
}

/// A rating after a game is the rating before it, plus 32 times the score, less the
/// least whole number `n` that is not below 32 times the expected score, and never
/// below 0. That 32 times the expected score is at most `n` is written out here.
///
/// This holds of any two ratings that are at most 123181 and no more than 5057
/// points apart, and of any others on the scale whose sum is finite and whose
/// expected score is not lost in rounding.
pub proof fn law_rating_follows_the_formula(own: u32, opponent: u32, scored: int, n: int)
    requires
        scored == 0 || scored == 16 || scored == 32,
        ({
            ||| own <= 123181 && opponent <= 123181 && opponent - own <= 5057
            ||| {
                &&& own <= 123301 && opponent <= 123301
                &&& !crate::elo_range::sum_is_infinite(own as int, opponent as int)
                &&& !crate::elo_rounding::is_lost_in_rounding(own as int, opponent as int, scored)
            }
        }),
        0 <= n <= 32,
        pow(32 - n, 400) * pow(10, own as nat) <= pow(n, 400) * pow(10, opponent as nat),
        forall|fewer: int|
            0 <= fewer < n ==> #[trigger] pow(32 - fewer, 400) * pow(10, own as nat) > pow(
                fewer,
                400,
            ) * pow(10, opponent as nat),
    ensures
        own + scored - n >= 0 ==> new_rating(own as int, opponent as int, scored) == own + scored
            - n,
        own + scored - n < 0 ==> new_rating(own as int, opponent as int, scored) == 0,
{
    law_expected_points_follow_the_formula(own as nat, opponent as nat);
    crate::elo_range::law_sum_is_finite_below_the_end(own as int, opponent as int);
    let points = expected_points(opponent - own);
    assert(expects_at_most(own as nat, opponent as nat, points));
    assert(expects_at_most(own as nat, opponent as nat, n));
    if points < n {
        assert(pow(32 - points, 400) * pow(10, own as nat) > pow(points, 400) * pow(
            10,
            opponent as nat,
        ));
    }
    if n < points {
        assert(!expects_at_most(own as nat, opponent as nat, n));
    }
}

/// There is such a number for any two ratings: the expected score, times 32, lies
/// between 0 and 32.
pub proof fn law_formula_has_a_result(own: nat, opponent: nat) -> (n: int)
    ensures
        0 < n <= 32,
        pow(32 - n, 400) * pow(10, own) <= pow(n, 400) * pow(10, opponent),
        forall|fewer: int|
            0 <= fewer < n ==> #[trigger] pow(32 - fewer, 400) * pow(10, own) > pow(fewer, 400)
                * pow(10, opponent),
{
    law_expected_points_follow_the_formula(own, opponent);
    let n = expected_points(opponent - own);
    assert forall|fewer: int| 0 <= fewer < n implies #[trigger] pow(32 - fewer, 400) * pow(10, own)
        > pow(fewer, 400) * pow(10, opponent) by {
        assert(!expects_at_most(own, opponent, fewer));
    }
    n
}

/// Where the formula leaves the range of floating point numbers: a player beyond the
/// end of the scale falls to 0; a player on it who meets one beyond it, or with whom
/// the sum is infinite, or whose expected score is lost in rounding, gets 32 times
/// the own score in full.
pub proof fn law_rating_beyond_the_formula(own: u32, opponent: u32, scored: int)
    requires
        scored == 0 || scored == 16 || scored == 32,
    ensures
        own > 123301 ==> new_rating(own as int, opponent as int, scored) == 0,
        own <= 123301 && opponent > 123301 ==> new_rating(own as int, opponent as int, scored)
            == own + scored,
        own <= 123301 && crate::elo_range::sum_is_infinite(own as int, opponent as int)
            ==> new_rating(own as int, opponent as int, scored) == own + scored,
        own <= 123301 && crate::elo_rounding::is_lost_in_rounding(
            own as int,
            opponent as int,
            scored,
        ) ==> new_rating(own as int, opponent as int, scored) == own + scored,
{
}

} // verus!
