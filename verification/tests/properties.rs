use std::cmp::Ordering;

use poker_combination::card::Rank;
use poker_combination::combination::Combination;
use poker_combination::kickers::compare_extra;

fn all_ranks() -> Vec<Rank> {
    vec![
        Rank::Two,
        Rank::Three,
        Rank::Four,
        Rank::Five,
        Rank::Six,
        Rank::Seven,
        Rank::Eight,
        Rank::Nine,
        Rank::Ten,
        Rank::Jack,
        Rank::Queen,
        Rank::King,
        Rank::Ace,
    ]
}

/// A spread of hands over every category, with ties, permuted kickers and
/// the wheel among them.
fn sample_hands() -> Vec<Combination> {
    let mut hands = Vec::new();
    for rank in [Rank::Two, Rank::Seven, Rank::Ace] {
        hands.push(Combination::HighCard { rank });
        hands.push(Combination::Flush { rank });
    }
    for rank in [Rank::Ace, Rank::Two, Rank::Five, Rank::Six, Rank::King] {
        hands.push(Combination::Straight { rank });
        hands.push(Combination::StraightFlush { rank });
    }
    for rank in [Rank::Two, Rank::Queen] {
        for extra in [
            [Rank::Eight, Rank::Six, Rank::Three],
            [Rank::Six, Rank::Eight, Rank::Three],
            [Rank::Three, Rank::Six, Rank::Nine],
            [Rank::Ace, Rank::Four, Rank::Four],
            [Rank::Four, Rank::Ace, Rank::Five],
        ] {
            hands.push(Combination::Pair { rank, extra });
        }
        for extra in [
            [Rank::Three, Rank::Four],
            [Rank::Four, Rank::Three],
            [Rank::Five, Rank::Three],
            [Rank::Ace, Rank::Two],
        ] {
            hands.push(Combination::ThreeOfAKind { rank, extra });
        }
        for extra in [[Rank::Three], [Rank::Jack]] {
            hands.push(Combination::FourOfAKind { rank, extra });
        }
    }
    for (low, high) in [
        (Rank::Two, Rank::Three),
        (Rank::Five, Rank::Three),
        (Rank::Two, Rank::Five),
        (Rank::Ten, Rank::Ace),
    ] {
        for extra in [[Rank::Four], [Rank::King]] {
            hands.push(Combination::TwoPairs { low, high, extra });
        }
    }
    for (two, three) in [
        (Rank::Two, Rank::Three),
        (Rank::Four, Rank::Three),
        (Rank::Two, Rank::Four),
        (Rank::Ace, Rank::Two),
    ] {
        hands.push(Combination::FullHouse { two, three });
    }
    hands
}

fn one_of_each_category() -> Vec<Combination> {
    vec![
        Combination::HighCard { rank: Rank::King },
        Combination::Pair {
            rank: Rank::Two,
            extra: [Rank::Three, Rank::Four, Rank::Five],
        },
        Combination::TwoPairs {
            low: Rank::Two,
            high: Rank::Three,
            extra: [Rank::Four],
        },
        Combination::ThreeOfAKind {
            rank: Rank::Two,
            extra: [Rank::Three, Rank::Four],
        },
        Combination::Straight { rank: Rank::Ace },
        Combination::Flush { rank: Rank::Seven },
        Combination::FullHouse {
            two: Rank::Two,
            three: Rank::Three,
        },
        Combination::FourOfAKind {
            rank: Rank::Two,
            extra: [Rank::Three],
        },
        Combination::StraightFlush { rank: Rank::Ace },
    ]
}

#[test]
fn rank_values_run_from_two_to_fourteen() {
    let values: Vec<u8> = all_ranks().into_iter().map(|r| r.value()).collect();
    assert_eq!(values, vec![2, 3, 4, 5, 6, 7, 8, 9, 10, 11, 12, 13, 14]);
}

#[test]
fn rank_order_is_ace_high() {
    let ranks = all_ranks();
    for (i, a) in ranks.iter().enumerate() {
        for (j, b) in ranks.iter().enumerate() {
            assert_eq!(a.partial_cmp(b), Some(i.cmp(&j)));
            assert_eq!(a < b, i < j);
            assert_eq!(a == b, i == j);
        }
    }
    assert!(Rank::Ace > Rank::King);
    assert!(Rank::Two < Rank::Three);
}

#[test]
fn rank_comparison_agrees_with_the_derived_order() {
    for a in all_ranks() {
        for b in all_ranks() {
            assert_eq!(a.partial_cmp(&b), Some(Ord::cmp(&a, &b)));
        }
    }
    let mut shuffled = vec![Rank::King, Rank::Two, Rank::Ace, Rank::Nine];
    shuffled.sort();
    assert_eq!(shuffled, vec![Rank::Two, Rank::Nine, Rank::King, Rank::Ace]);
}

#[test]
fn category_numbers_follow_the_precedence() {
    let categories: Vec<u8> = one_of_each_category()
        .into_iter()
        .map(|hand| hand.category())
        .collect();
    assert_eq!(categories, vec![0, 1, 2, 3, 4, 5, 6, 7, 8]);
}

#[test]
fn every_hand_ties_with_itself() {
    for x in sample_hands() {
        assert_eq!(x.cmp(&x), Ordering::Equal);
        assert_eq!(x.partial_cmp(&x), Some(Ordering::Equal));
        assert!(x == x);
    }
}

#[test]
fn swapping_the_sides_swaps_the_result() {
    let hands = sample_hands();
    for x in &hands {
        for y in &hands {
            assert_eq!(y.cmp(x), x.cmp(y).reverse());
            assert_eq!(x < y, y > x);
            assert_eq!(x == y, y == x);
        }
    }
}

#[test]
fn the_order_is_transitive() {
    let hands = sample_hands();
    for x in &hands {
        for y in &hands {
            if x.cmp(y) == Ordering::Greater {
                continue;
            }
            for z in &hands {
                if y.cmp(z) == Ordering::Greater {
                    continue;
                }
                assert_ne!(x.cmp(z), Ordering::Greater);
                if x.cmp(y) == Ordering::Less || y.cmp(z) == Ordering::Less {
                    assert_eq!(x.cmp(z), Ordering::Less);
                }
            }
        }
    }
}

#[test]
fn straights_with_the_wheel_are_transitive() {
    let mut straights = Vec::new();
    for rank in all_ranks() {
        straights.push(Combination::Straight { rank });
    }
    for x in &straights {
        for y in &straights {
            for z in &straights {
                if x.cmp(y) != Ordering::Greater && y.cmp(z) != Ordering::Greater {
                    assert_ne!(x.cmp(z), Ordering::Greater);
                }
            }
        }
    }
}

#[test]
fn category_decides_between_different_variants() {
    let hands = sample_hands();
    for x in &hands {
        for y in &hands {
            if x.category() < y.category() {
                assert_eq!(x.cmp(y), Ordering::Less);
            }
            if x.category() > y.category() {
                assert_eq!(x.cmp(y), Ordering::Greater);
            }
        }
    }
    let ladder = one_of_each_category();
    for i in 0..ladder.len() {
        for j in 0..ladder.len() {
            if i != j {
                assert_eq!(ladder[i].cmp(&ladder[j]), i.cmp(&j));
            }
        }
    }
    assert!(
        Combination::HighCard { rank: Rank::King }
            < Combination::Pair {
                rank: Rank::Two,
                extra: [Rank::Three, Rank::Four, Rank::Five]
            }
    );
}

#[test]
fn kicker_order_in_the_payload_is_ignored() {
    let x = Combination::Pair {
        rank: Rank::Two,
        extra: [Rank::Eight, Rank::Six, Rank::Three],
    };
    let permuted = Combination::Pair {
        rank: Rank::Two,
        extra: [Rank::Six, Rank::Eight, Rank::Three],
    };
    assert_eq!(x.cmp(&permuted), Ordering::Equal);
    assert_eq!(permuted.cmp(&x), Ordering::Equal);
    assert_eq!(x, permuted);
    for z in sample_hands() {
        assert_eq!(x.cmp(&z), permuted.cmp(&z));
        assert_eq!(z.cmp(&x), z.cmp(&permuted));
    }
    let trips = Combination::ThreeOfAKind {
        rank: Rank::Nine,
        extra: [Rank::Ace, Rank::Two],
    };
    let trips_permuted = Combination::ThreeOfAKind {
        rank: Rank::Nine,
        extra: [Rank::Two, Rank::Ace],
    };
    assert_eq!(trips, trips_permuted);
    for z in sample_hands() {
        assert_eq!(trips.cmp(&z), trips_permuted.cmp(&z));
    }
}

#[test]
fn kickers_are_compared_from_the_highest_down() {
    // Sorted: 9 6 3 against 8 6 3.
    let xs = [Rank::Three, Rank::Nine, Rank::Six];
    let ys = [Rank::Six, Rank::Three, Rank::Eight];
    assert_eq!(compare_extra(&xs, &ys), Ordering::Greater);
    assert_eq!(compare_extra(&ys, &xs), Ordering::Less);
    // The highest kickers tie; the second decides.
    let xs = [Rank::Ace, Rank::Four, Rank::Four];
    let ys = [Rank::Four, Rank::Ace, Rank::Five];
    assert_eq!(compare_extra(&xs, &ys), Ordering::Less);
    // The last position decides.
    let xs = [Rank::King, Rank::Queen, Rank::Two];
    let ys = [Rank::Three, Rank::King, Rank::Queen];
    assert_eq!(compare_extra(&xs, &ys), Ordering::Less);
}

#[test]
fn kickers_are_sorted_before_they_are_compared() {
    // Position by position, as stored, either reading would say otherwise.
    let xs = [Rank::King, Rank::Nine, Rank::Two];
    let ys = [Rank::Two, Rank::Eight, Rank::King];
    assert_eq!(compare_extra(&xs, &ys), Ordering::Greater);
    let xs = [Rank::Two, Rank::Three, Rank::Ace];
    let ys = [Rank::King, Rank::Queen, Rank::Jack];
    assert_eq!(compare_extra(&xs, &ys), Ordering::Greater);
    let xs = [Rank::Ace, Rank::Two];
    let ys = [Rank::Three, Rank::Ace];
    assert_eq!(compare_extra(&xs, &ys), Ordering::Less);
}

#[test]
fn kickers_of_other_lengths() {
    let none: [Rank; 0] = [];
    assert_eq!(compare_extra(&none, &none), Ordering::Equal);
    assert_eq!(compare_extra(&[Rank::Four], &[Rank::Four]), Ordering::Equal);
    assert_eq!(compare_extra(&[Rank::Four], &[Rank::Five]), Ordering::Less);
    assert_eq!(compare_extra(&[Rank::Ace], &[Rank::King]), Ordering::Greater);
    let xs = vec![Rank::Two, Rank::Two, Rank::Ten, Rank::Jack, Rank::Seven];
    let ys = vec![Rank::Jack, Rank::Two, Rank::Seven, Rank::Ten, Rank::Two];
    assert_eq!(compare_extra(&xs, &ys), Ordering::Equal);
    let zs = vec![Rank::Jack, Rank::Two, Rank::Seven, Rank::Ten, Rank::Three];
    assert_eq!(compare_extra(&xs, &zs), Ordering::Less);
    assert_eq!(compare_extra(&zs, &xs), Ordering::Greater);
}

#[test]
fn multiset_tie_break() {
    let xs = [Rank::Two, Rank::Nine, Rank::King];
    let ys = [Rank::Two, Rank::Eight, Rank::King];
    assert_eq!(compare_extra(&xs, &ys), Ordering::Greater);
    let x = Combination::Pair {
        rank: Rank::Two,
        extra: xs,
    };
    let y = Combination::Pair {
        rank: Rank::Two,
        extra: ys,
    };
    assert_eq!(x.cmp(&y), Ordering::Greater);
    assert!(x > y);
}

#[test]
fn the_wheel_is_the_lowest_straight() {
    let wheel = Combination::Straight { rank: Rank::Ace };
    assert!(wheel < Combination::Straight { rank: Rank::Two });
    assert_eq!(wheel, Combination::Straight { rank: Rank::Ace });
    assert!(wheel < Combination::Straight { rank: Rank::King });
    for rank in all_ranks() {
        if rank != Rank::Ace {
            let other = Combination::Straight { rank };
            assert_eq!(wheel.cmp(&other), Ordering::Less);
            assert_eq!(other.cmp(&wheel), Ordering::Greater);
            assert!(other > wheel);
            assert!(other != wheel);
        }
    }
}

#[test]
fn the_wheel_is_the_lowest_straight_flush() {
    let wheel = Combination::StraightFlush { rank: Rank::Ace };
    assert_eq!(wheel.cmp(&wheel), Ordering::Equal);
    for rank in all_ranks() {
        if rank != Rank::Ace {
            let other = Combination::StraightFlush { rank };
            assert_eq!(wheel.cmp(&other), Ordering::Less);
            assert_eq!(other.cmp(&wheel), Ordering::Greater);
        }
    }
    assert!(
        Combination::StraightFlush { rank: Rank::Six }
            < Combination::StraightFlush { rank: Rank::King }
    );
}

#[test]
fn straights_off_the_wheel_compare_by_rank() {
    assert!(Combination::Straight { rank: Rank::Five } < Combination::Straight { rank: Rank::Six });
    assert!(Combination::Straight { rank: Rank::King } > Combination::Straight { rank: Rank::Six });
    assert_eq!(
        Combination::Straight { rank: Rank::Ten }.cmp(&Combination::Straight { rank: Rank::Ten }),
        Ordering::Equal
    );
}

#[test]
fn flush_with_an_ace_is_the_highest_flush() {
    let ace = Combination::Flush { rank: Rank::Ace };
    for rank in all_ranks() {
        if rank != Rank::Ace {
            assert!(ace > Combination::Flush { rank });
        }
    }
}

#[test]
fn high_card_against_pair() {
    let x = Combination::HighCard { rank: Rank::Two };
    let y = Combination::Pair {
        rank: Rank::Two,
        extra: [Rank::Eight, Rank::Six, Rank::Three],
    };
    assert_eq!(x.cmp(&y), Ordering::Less);
}

#[test]
fn two_pairs_with_equal_high_pair() {
    let x = Combination::TwoPairs {
        low: Rank::Two,
        high: Rank::Three,
        extra: [Rank::Four],
    };
    let y = Combination::TwoPairs {
        low: Rank::Five,
        high: Rank::Three,
        extra: [Rank::Four],
    };
    assert_eq!(x.cmp(&y), Ordering::Less);
    assert_eq!(y.cmp(&x), Ordering::Greater);
}

#[test]
fn two_pairs_high_pair_comes_first() {
    let x = Combination::TwoPairs {
        low: Rank::Ten,
        high: Rank::Jack,
        extra: [Rank::Ace],
    };
    let y = Combination::TwoPairs {
        low: Rank::Two,
        high: Rank::Queen,
        extra: [Rank::Three],
    };
    assert_eq!(x.cmp(&y), Ordering::Less);
}

#[test]
fn full_house_with_equal_triple() {
    let x = Combination::FullHouse {
        two: Rank::Two,
        three: Rank::Three,
    };
    let y = Combination::FullHouse {
        two: Rank::Four,
        three: Rank::Three,
    };
    assert_eq!(x.cmp(&y), Ordering::Less);
    let z = Combination::FullHouse {
        two: Rank::Two,
        three: Rank::Four,
    };
    assert_eq!(y.cmp(&z), Ordering::Less);
}

#[test]
fn four_of_a_kind_with_equal_quads() {
    let x = Combination::FourOfAKind {
        rank: Rank::Two,
        extra: [Rank::Three],
    };
    let y = Combination::FourOfAKind {
        rank: Rank::Two,
        extra: [Rank::Four],
    };
    assert_eq!(x.cmp(&y), Ordering::Less);
}

#[test]
fn wheel_straight_flush_against_four_of_a_kind() {
    let x = Combination::StraightFlush { rank: Rank::Ace };
    let y = Combination::FourOfAKind {
        rank: Rank::Two,
        extra: [Rank::Three],
    };
    assert_eq!(x.cmp(&y), Ordering::Greater);
}

#[test]
fn hands_can_be_sorted_and_the_best_found() {
    let mut hands = one_of_each_category();
    hands.reverse();
    hands.sort_by(Combination::cmp);
    let categories: Vec<u8> = hands.iter().map(|hand| hand.category()).collect();
    assert_eq!(categories, vec![0, 1, 2, 3, 4, 5, 6, 7, 8]);
    let best = sample_hands().into_iter().max_by(Combination::cmp);
    assert_eq!(best, Some(Combination::StraightFlush { rank: Rank::King }));
    let worst = sample_hands().into_iter().min_by(Combination::cmp);
    assert_eq!(worst, Some(Combination::HighCard { rank: Rank::Two }));
}

#[test]
fn comparison_operators_agree_with_cmp() {
    let hands = sample_hands();
    for x in &hands {
        for y in &hands {
            let ord = x.cmp(y);
            assert_eq!(x.partial_cmp(y), Some(ord));
            assert_eq!(x < y, ord == Ordering::Less);
            assert_eq!(x <= y, ord != Ordering::Greater);
            assert_eq!(x > y, ord == Ordering::Greater);
            assert_eq!(x >= y, ord != Ordering::Less);
            assert_eq!(x == y, ord == Ordering::Equal);
        }
    }
}
