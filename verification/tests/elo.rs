use bottle_bid::elo::{calc_elo, ELO_FLOOR, K_FACTOR};
use bottle_bid::elo_range::{is_sum_infinite, MAX_RATING};
use bottle_bid::elo_rounding::compute_rounding_gap;
use bottle_bid::GameResultType::{Draw, PlayerAWins, PlayerBWins};

/// The rating formula in floating point.
fn by_formula(own: u32, opponent: u32, score: f64) -> u32 {
    let a = f64::powf(10.0, own as f64 / 400.0);
    let b = f64::powf(10.0, opponent as f64 / 400.0);
    (own as f64 + 32.0 * (score - a / (a + b))) as u32
}

#[test]
fn constants_of_the_rating() {
    assert_eq!(K_FACTOR, 32);
    assert_eq!(ELO_FLOOR, 100);
}

#[test]
fn equal_players_exchange_half_of_the_factor() {
    assert_eq!(calc_elo(1000, 1000, PlayerAWins), (1016, 984));
    assert_eq!(calc_elo(1000, 1000, PlayerBWins), (984, 1016));
    assert_eq!(calc_elo(1000, 1000, Draw), (1000, 1000));
}

#[test]
fn favourite_gains_little_and_outsider_much() {
    // The favourite expects 10 of 11 games.
    assert_eq!(calc_elo(1400, 1000, PlayerAWins), (1402, 997));
    assert_eq!(calc_elo(1400, 1000, PlayerBWins), (1370, 1029));
    assert_eq!(calc_elo(1400, 1000, Draw), (1386, 1013));
}

#[test]
fn ratings_do_not_fall_below_zero() {
    assert_eq!(calc_elo(0, 0, PlayerBWins), (0, 16));
    assert_eq!(calc_elo(10, 10, PlayerBWins), (0, 26));
}

#[test]
fn ratings_agree_with_the_formula() {
    let ratings: Vec<u32> = vec![0, 1, 50, 99, 100, 101, 400, 799, 1000, 1500, 2000, 2799, 3000];
    for &r1 in ratings.iter() {
        let mut r2: u32 = 0;
        while r2 <= 3000 {
            assert_eq!(
                calc_elo(r1, r2, PlayerAWins),
                (by_formula(r1, r2, 1.0), by_formula(r2, r1, 0.0))
            );
            assert_eq!(
                calc_elo(r1, r2, PlayerBWins),
                (by_formula(r1, r2, 0.0), by_formula(r2, r1, 1.0))
            );
            assert_eq!(calc_elo(r1, r2, Draw), (by_formula(r1, r2, 0.5), by_formula(r2, r1, 0.5)));
            r2 += 1;
        }
    }
}

#[test]
fn ratings_that_are_far_apart_agree_with_the_formula() {
    let mut r1: u32 = 0;
    while r1 <= 117_000 {
        let mut gap: u32 = 0;
        while r1 + gap <= 123_000 && gap <= 8000 {
            let r2 = r1 + gap;
            assert_eq!(
                calc_elo(r1, r2, PlayerAWins),
                (by_formula(r1, r2, 1.0), by_formula(r2, r1, 0.0))
            );
            assert_eq!(
                calc_elo(r1, r2, PlayerBWins),
                (by_formula(r1, r2, 0.0), by_formula(r2, r1, 1.0))
            );
            assert_eq!(calc_elo(r1, r2, Draw), (by_formula(r1, r2, 0.5), by_formula(r2, r1, 0.5)));
            gap += if gap < 5000 { 97 } else { 1 };
        }
        r1 = r1 * 2 + 1;
    }
}

#[test]
fn tiny_expectations_are_lost_in_rounding() {
    assert_eq!(calc_elo(1000, 10_000, PlayerAWins), (1032, 9968));
    assert_eq!(calc_elo(1000, 10_000, PlayerBWins), (1000, 10_000));
    assert_eq!(calc_elo(1000, 6777, PlayerAWins).0, 1031);
    assert_eq!(calc_elo(1000, 6778, PlayerAWins).0, 1032);
}

#[test]
fn ratings_are_exchanged_up_to_rounding() {
    for result in vec![PlayerAWins, PlayerBWins, Draw] {
        let equal = calc_elo(1234, 1234, result);
        assert_eq!(equal.0 + equal.1, 2468);
        let unequal = calc_elo(1300, 1200, result);
        assert_eq!(unequal.0 + unequal.1, 2499);
    }
}

#[test]
fn seats_do_not_matter() {
    assert_eq!(calc_elo(1200, 900, PlayerAWins), (1204, 895));
    assert_eq!(calc_elo(900, 1200, PlayerBWins), (895, 1204));
}

#[test]
fn stronger_opponents_are_worth_more() {
    assert_eq!(calc_elo(1000, 900, PlayerAWins).0, 1011);
    assert_eq!(calc_elo(1000, 1100, PlayerAWins).0, 1020);
    assert_eq!(calc_elo(1000, 2000, PlayerAWins).0, 1031);
}

#[test]
fn winner_never_loses_rating() {
    assert_eq!(calc_elo(3000, 100, PlayerAWins), (3000, 99));
    assert_eq!(calc_elo(5000, 100, PlayerAWins), (5000, 99));
    assert_eq!(by_formula(5000, 100, 1.0), 5000);
    assert_eq!(by_formula(100, 5000, 0.0), 99);
}

#[test]
fn rating_beyond_the_scale_is_lost() {
    assert_eq!(MAX_RATING, 123_301);
    assert_eq!(calc_elo(u32::MAX, u32::MAX, PlayerAWins), (0, 0));
    for (r1, r2) in vec![(123_302, 1000), (1000, 123_302), (u32::MAX, 0), (200_000, 200_000)] {
        assert_eq!(
            calc_elo(r1, r2, PlayerAWins),
            (by_formula(r1, r2, 1.0), by_formula(r2, r1, 0.0))
        );
        assert_eq!(calc_elo(r1, r2, Draw), (by_formula(r1, r2, 0.5), by_formula(r2, r1, 0.5)));
    }
    assert_eq!(calc_elo(1000, 123_302, PlayerBWins), (1000, 0));
    assert_eq!(calc_elo(1000, 123_302, Draw), (1016, 0));
}

#[test]
fn infinite_sum_leaves_nothing_to_expect() {
    assert_eq!(calc_elo(123_301, 123_301, PlayerAWins), (123_333, 123_301));
    assert_eq!(calc_elo(123_301, 122_385, Draw), (123_317, 122_401));
    assert!(is_sum_infinite(123_301, 122_385));
    assert!(is_sum_infinite(122_385, 123_301));
    assert!(!is_sum_infinite(123_301, 122_384));
    assert!(is_sum_infinite(123_182, 123_181));
    assert!(!is_sum_infinite(123_181, 123_181));
    assert!(!is_sum_infinite(123_302, 123_301));
}

#[test]
fn ratings_at_the_end_of_the_scale_agree_with_the_formula() {
    for r1 in 123_170..123_304 {
        for r2 in 122_370..123_304 {
            for (result, s1, s2) in vec![(PlayerAWins, 1.0, 0.0), (Draw, 0.5, 0.5), (PlayerBWins, 0.0, 1.0)] {
                assert_eq!(
                    calc_elo(r1, r2, result),
                    (by_formula(r1, r2, s1), by_formula(r2, r1, s2))
                );
            }
        }
    }
}

#[test]
fn rounding_gaps_by_size_of_the_rating() {
    assert_eq!(compute_rounding_gap(1, 0), 7105);
    assert_eq!(compute_rounding_gap(1024, 0), 5901);
    assert_eq!(compute_rounding_gap(1025, 0), 5780);
    assert_eq!(compute_rounding_gap(1032, 32), 5778);
    assert_eq!(compute_rounding_gap(1032, 16), 5779);
    assert_eq!(compute_rounding_gap(16, 16), 6623);
    assert_eq!(compute_rounding_gap(32, 32), 6503);
    assert_eq!(compute_rounding_gap(123_333, 32), 5058);
}
