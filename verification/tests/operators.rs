use fee_units::{Amount, FeeRate, Weight};

fn rate(sat_kwu: u64) -> FeeRate {
    FeeRate::from_sat_per_kwu(sat_kwu)
}

const PAIRS: [(u64, u64); 6] =
    [(0, 0), (1, 2), (250, 750), (7, 7), (u64::MAX, 0), (u64::MAX - 9, 9)];

#[test]
fn addition_commutes() {
    for (a, b) in PAIRS {
        assert_eq!(rate(a) + rate(b), rate(b) + rate(a));
        assert_eq!(rate(a) + rate(b), rate(a + b));
    }
}

#[test]
#[allow(clippy::op_ref)]
fn references_change_nothing() {
    for (a, b) in PAIRS {
        let (low, high) = if a < b { (rate(a), rate(b)) } else { (rate(b), rate(a)) };
        let sum = low + high;
        assert_eq!(&low + high, sum);
        assert_eq!(low + &high, sum);
        assert_eq!(&low + &high, sum);
        let difference = high - low;
        assert_eq!(&high - low, difference);
        assert_eq!(high - &low, difference);
        assert_eq!(&high - &low, difference);
        assert_eq!(difference.to_sat_per_kwu(), high.to_sat_per_kwu() - low.to_sat_per_kwu());
    }
}

#[test]
fn assignment_forms_match_the_operators() {
    for (a, b) in PAIRS {
        let (low, high) = if a < b { (rate(a), rate(b)) } else { (rate(b), rate(a)) };

        let mut by_value = low;
        by_value += high;
        assert_eq!(by_value, low + high);
        let mut by_reference = low;
        by_reference += &high;
        assert_eq!(by_reference, low + high);

        let mut by_value = high;
        by_value -= low;
        assert_eq!(by_value, high - low);
        let mut by_reference = high;
        by_reference -= &low;
        assert_eq!(by_reference, high - low);
    }
}

#[test]
fn multiplication_is_symmetric_and_rounds_up() {
    assert_eq!(rate(864) * Weight::from_wu(381), Amount::from_sat(330));
    assert_eq!(Weight::from_wu(381) * rate(864), Amount::from_sat(330));
    assert_eq!(rate(1) * Weight::from_wu(1), Amount::from_sat(1));
    assert_eq!(rate(0) * Weight::from_wu(1000), Amount::from_sat(0));
    for (sat_kwu, wu) in [(0u64, 0u64), (1, 999), (250, 561), (2500, 40), (12_345, 67_890)] {
        let weight = Weight::from_wu(wu);
        assert_eq!(rate(sat_kwu) * weight, weight * rate(sat_kwu));
        assert_eq!(Some(rate(sat_kwu) * weight), rate(sat_kwu).checked_mul_by_weight(weight));
    }
}

#[test]
fn division_rounds_down() {
    assert_eq!(Amount::from_sat(329) / Weight::from_wu(381), rate(863));
    assert_eq!(Amount::from_sat(330) / Weight::from_wu(381), rate(866));
    assert_eq!(Amount::from_sat(0) / Weight::from_wu(1), rate(0));
    assert_eq!(Amount::from_sat(1) / Weight::from_wu(1000), rate(1));
    assert_eq!(Amount::from_sat(1) / Weight::from_wu(1001), rate(0));
    assert_eq!(Amount::from_sat(100) / Weight::from_wu(40), rate(2500));
}

#[test]
fn rates_are_ordered_by_value() {
    assert!(rate(1) < rate(2));
    assert!(rate(2) > rate(1));
    assert!(rate(2) <= rate(2));
    assert!(rate(2) >= rate(2));
    assert!(FeeRate::MIN() < FeeRate::BROADCAST_MIN());
    assert!(FeeRate::BROADCAST_MIN() < FeeRate::DUST());
    assert!(FeeRate::DUST() < FeeRate::MAX());
    assert_eq!(FeeRate::MIN(), FeeRate::ZERO());
    assert_ne!(rate(1), rate(2));
    for (a, b) in PAIRS {
        assert_eq!(rate(a).partial_cmp(&rate(b)), Some(a.cmp(&b)));
        assert_eq!(rate(a).cmp(&rate(b)), a.cmp(&b));
        assert_eq!(rate(a) == rate(b), a == b);
    }
    let mut rates = vec![rate(750), rate(0), rate(u64::MAX), rate(250)];
    rates.sort();
    assert_eq!(rates, vec![rate(0), rate(250), rate(750), rate(u64::MAX)]);
}

#[test]
fn sum_is_the_rate_of_the_sum() {
    let values = [1u64, 2, 3, 250, 750, 1_000_000];
    let rates: Vec<FeeRate> = values.iter().copied().map(rate).collect();
    assert_eq!(rates.iter().sum::<FeeRate>(), rate(values.iter().sum()));
    assert_eq!(rates.iter().sum::<FeeRate>(), rate(1_001_006));
    assert_eq!(rates.iter().copied().sum::<FeeRate>(), rate(1_001_006));
    assert_eq!(rates.into_iter().sum::<FeeRate>(), rate(1_001_006));

    let none: [FeeRate; 0] = [];
    assert_eq!(none.iter().sum::<FeeRate>(), FeeRate::ZERO());
    assert_eq!(none.into_iter().sum::<FeeRate>(), FeeRate::ZERO());
    assert_eq!([rate(u64::MAX)].iter().sum::<FeeRate>(), FeeRate::MAX());
    assert_eq!([rate(u64::MAX - 1), rate(0), rate(1)].into_iter().sum::<FeeRate>(), FeeRate::MAX());
}

#[test]
fn sum_is_what_repeated_addition_gives() {
    let rates = [rate(5), rate(250), rate(0), rate(750), rate(12)];
    let mut by_addition = FeeRate::ZERO();
    for r in rates {
        by_addition += r;
    }
    assert_eq!(rates.iter().sum::<FeeRate>(), by_addition);
    assert_eq!(FeeRate::checked_sum(&rates), Some(by_addition));
}

#[test]
fn checked_sum_is_absent_on_overflow() {
    assert_eq!(FeeRate::checked_sum(&[]), Some(FeeRate::ZERO()));
    assert_eq!(FeeRate::checked_sum(&[rate(1), rate(2), rate(3)]), Some(rate(6)));
    assert_eq!(FeeRate::checked_sum(&[rate(u64::MAX - 1), rate(1)]), Some(FeeRate::MAX()));
    assert_eq!(FeeRate::checked_sum(&[rate(u64::MAX), rate(1)]), None);
    assert_eq!(FeeRate::checked_sum(&[rate(1), rate(u64::MAX)]), None);
    assert_eq!(FeeRate::checked_sum(&[rate(u64::MAX), rate(1), rate(0)]), None);
    assert_eq!(FeeRate::checked_sum(&[rate(1 << 63), rate(1 << 63)]), None);
}
