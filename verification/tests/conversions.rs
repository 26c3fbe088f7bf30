use fee_units::fee_rate::{SAT_KWU_PER_SAT_VB, WEIGHT_UNITS_PER_KWU};
use fee_units::weight::WITNESS_SCALE_FACTOR;
use fee_units::{Amount, FeeRate, Weight};

const SAMPLES: [u64; 16] = [
    0,
    1,
    2,
    249,
    250,
    251,
    499,
    500,
    501,
    999,
    1000,
    123_456_789,
    u64::MAX / 250,
    u64::MAX - 249,
    u64::MAX - 1,
    u64::MAX,
];

#[test]
fn unit_constants() {
    assert_eq!(SAT_KWU_PER_SAT_VB, 250);
    assert_eq!(WEIGHT_UNITS_PER_KWU, 1000);
    assert_eq!(WITNESS_SCALE_FACTOR, 4);
}

#[test]
fn sat_per_kwu_round_trip() {
    for x in SAMPLES {
        assert_eq!(FeeRate::from_sat_per_kwu(x).to_sat_per_kwu(), x);
    }
}

#[test]
fn conversion_to_u64() {
    for x in SAMPLES {
        assert_eq!(u64::from(FeeRate::from_sat_per_kwu(x)), x);
    }
    let sat_kwu: u64 = FeeRate::from_sat_per_kwu(77).into();
    assert_eq!(sat_kwu, 77);
}

#[test]
fn from_sat_per_vb_at_the_limit() {
    let greatest = u64::MAX / 250;
    assert_eq!(
        FeeRate::from_sat_per_vb(greatest),
        Some(FeeRate::from_sat_per_kwu(greatest * 250))
    );
    assert_eq!(FeeRate::from_sat_per_vb(greatest + 1), None);
    assert_eq!(FeeRate::from_sat_per_vb(0), Some(FeeRate::ZERO()));
    assert_eq!(FeeRate::from_sat_per_vb(1), Some(FeeRate::BROADCAST_MIN()));
    assert_eq!(FeeRate::from_sat_per_vb(3), Some(FeeRate::DUST()));
    assert_eq!(
        FeeRate::from_sat_per_vb_unchecked(greatest).to_sat_per_kwu(),
        18_446_744_073_709_551_500
    );
}

#[test]
fn from_sat_per_kvb_drops_the_remainder() {
    assert_eq!(FeeRate::from_sat_per_kvb(0).to_sat_per_kwu(), 0);
    assert_eq!(FeeRate::from_sat_per_kvb(3).to_sat_per_kwu(), 0);
    assert_eq!(FeeRate::from_sat_per_kvb(4).to_sat_per_kwu(), 1);
    assert_eq!(FeeRate::from_sat_per_kvb(7).to_sat_per_kwu(), 1);
    assert_eq!(FeeRate::from_sat_per_kvb(1000).to_sat_per_kwu(), 250);
    assert_eq!(FeeRate::from_sat_per_kvb(u64::MAX).to_sat_per_kwu(), u64::MAX / 4);
}

#[test]
fn floor_is_the_greatest_whole_rate_below() {
    for x in SAMPLES {
        let floor = u128::from(FeeRate::from_sat_per_kwu(x).to_sat_per_vb_floor());
        assert!(floor * 250 <= u128::from(x));
        assert!((floor + 1) * 250 > u128::from(x));
    }
    assert_eq!(FeeRate::from_sat_per_kwu(249).to_sat_per_vb_floor(), 0);
    assert_eq!(FeeRate::from_sat_per_kwu(250).to_sat_per_vb_floor(), 1);
    assert_eq!(FeeRate::MAX().to_sat_per_vb_floor(), 73_786_976_294_838_206);
}

#[test]
fn ceil_is_the_least_whole_rate_above() {
    for x in SAMPLES {
        let ceil = u128::from(FeeRate::from_sat_per_kwu(x).to_sat_per_vb_ceil());
        assert!(ceil * 250 >= u128::from(x));
        if x > 0 {
            assert!((ceil - 1) * 250 < u128::from(x));
        }
        assert_eq!(ceil, (u128::from(x) + 249) / 250);
    }
    assert_eq!(FeeRate::ZERO().to_sat_per_vb_ceil(), 0);
    assert_eq!(FeeRate::from_sat_per_kwu(1).to_sat_per_vb_ceil(), 1);
    assert_eq!(FeeRate::from_sat_per_kwu(250).to_sat_per_vb_ceil(), 1);
    assert_eq!(FeeRate::from_sat_per_kwu(251).to_sat_per_vb_ceil(), 2);
    assert_eq!(FeeRate::DUST().to_sat_per_vb_ceil(), 3);
    assert_eq!(FeeRate::MAX().to_sat_per_vb_ceil(), 73_786_976_294_838_207);
}

#[test]
fn checked_arithmetic_at_the_limits() {
    assert_eq!(FeeRate::MAX().checked_add(0), Some(FeeRate::MAX()));
    assert_eq!(FeeRate::MAX().checked_add(1), None);
    assert_eq!(
        FeeRate::from_sat_per_kwu(u64::MAX - 5).checked_add(5),
        Some(FeeRate::MAX())
    );
    assert_eq!(FeeRate::ZERO().checked_sub(0), Some(FeeRate::ZERO()));
    assert_eq!(FeeRate::ZERO().checked_sub(1), None);
    assert_eq!(FeeRate::from_sat_per_kwu(5).checked_sub(5), Some(FeeRate::ZERO()));
    assert_eq!(FeeRate::from_sat_per_kwu(5).checked_sub(6), None);
    assert_eq!(FeeRate::MAX().checked_mul(1), Some(FeeRate::MAX()));
    assert_eq!(FeeRate::MAX().checked_mul(2), None);
    assert_eq!(FeeRate::MAX().checked_mul(0), Some(FeeRate::ZERO()));
    assert_eq!(
        FeeRate::from_sat_per_kwu(7).checked_div(2),
        Some(FeeRate::from_sat_per_kwu(3))
    );
    assert_eq!(FeeRate::ZERO().checked_div(0), None);
    assert_eq!(FeeRate::MAX().checked_div(u64::MAX), Some(FeeRate::from_sat_per_kwu(1)));
}

#[test]
fn fee_rounds_up_to_a_whole_satoshi() {
    let fee = |sat_kwu: u64, wu: u64| {
        FeeRate::from_sat_per_kwu(sat_kwu)
            .checked_mul_by_weight(Weight::from_wu(wu))
            .map(Amount::to_sat)
    };
    assert_eq!(fee(864, 381), Some(330));
    assert_eq!(fee(1000, 1), Some(1));
    assert_eq!(fee(1, 1), Some(1));
    assert_eq!(fee(1, 1000), Some(1));
    assert_eq!(fee(1, 1001), Some(2));
    assert_eq!(fee(0, 1001), Some(0));
    assert_eq!(fee(250, 0), Some(0));
    assert_eq!(fee(2000, 3), Some(6));
    for (sat_kwu, wu) in [(864u64, 381u64), (1, 1), (999, 999), (250, 561), (12_345, 67_890)] {
        let paid = u128::from(fee(sat_kwu, wu).unwrap()) * 1000;
        let owed = u128::from(sat_kwu) * u128::from(wu);
        assert!(paid >= owed);
        assert!(paid - owed < 1000);
    }
}

#[test]
fn fee_is_absent_when_the_rounding_overflows() {
    let fee = |sat_kwu: u64, wu: u64| {
        FeeRate::from_sat_per_kwu(sat_kwu)
            .checked_mul_by_weight(Weight::from_wu(wu))
            .map(Amount::to_sat)
    };
    assert_eq!(fee(u64::MAX, 1), None);
    assert_eq!(fee(u64::MAX - 998, 1), None);
    assert_eq!(fee(u64::MAX - 999, 1), Some(18_446_744_073_709_551));
    assert_eq!(fee(u64::MAX, 2), None);
    assert_eq!(fee(1 << 32, 1 << 32), None);
    assert_eq!(fee(1 << 32, (1 << 32) - 1), Some(18_446_744_069_414_585));
}

#[test]
fn fee_wu_is_checked_mul_by_weight() {
    for sat_kwu in SAMPLES {
        for wu in [0u64, 1, 381, 4_000_000, u64::MAX] {
            let rate = FeeRate::from_sat_per_kwu(sat_kwu);
            let weight = Weight::from_wu(wu);
            assert_eq!(rate.fee_wu(weight), rate.checked_mul_by_weight(weight));
        }
    }
}

#[test]
fn fee_vb_goes_through_the_weight() {
    let rate = FeeRate::from_sat_per_vb(10).unwrap();
    assert_eq!(rate.fee_vb(10), Some(Amount::from_sat(100)));
    assert_eq!(rate.fee_vb(0), Some(Amount::from_sat(0)));
    assert_eq!(FeeRate::from_sat_per_kwu(864).fee_vb(95), Some(Amount::from_sat(329)));
    assert_eq!(FeeRate::from_sat_per_kwu(865).fee_vb(95), Some(Amount::from_sat(329)));
    assert_eq!(FeeRate::from_sat_per_kwu(866).fee_vb(95), Some(Amount::from_sat(330)));
    assert_eq!(FeeRate::ZERO().fee_vb(u64::MAX / 4), Some(Amount::from_sat(0)));
    assert_eq!(FeeRate::ZERO().fee_vb(u64::MAX / 4 + 1), None);
    assert_eq!(FeeRate::MAX().fee_vb(1), None);
    for vb in [0u64, 1, 141, 1_000_000] {
        let weight = Weight::from_vb(vb).unwrap();
        assert_eq!(rate.fee_vb(vb), rate.fee_wu(weight));
    }
}

#[test]
fn weight_from_vb() {
    assert_eq!(Weight::from_vb(0), Some(Weight::from_wu(0)));
    assert_eq!(Weight::from_vb(10).map(Weight::to_wu), Some(40));
    assert_eq!(Weight::from_vb(u64::MAX / 4).map(Weight::to_wu), Some(u64::MAX - 3));
    assert_eq!(Weight::from_vb(u64::MAX / 4 + 1), None);
    assert_eq!(Weight::from_vb(u64::MAX), None);
    assert_eq!(Weight::MAX().to_wu(), u64::MAX);
    assert_eq!(Weight::from_wu(381).to_wu(), 381);
}

#[test]
fn amount_round_trip() {
    for x in SAMPLES {
        assert_eq!(Amount::from_sat(x).to_sat(), x);
    }
}
