use timelock_wallet::encoding::{i64_le_bytes, u32_le_bytes, u64_le_bytes};
use timelock_wallet::state::{ConditionType, LockCondition};

#[test]
fn u64_bytes_are_least_significant_first() {
    assert_eq!(u64_le_bytes(0), [0, 0, 0, 0, 0, 0, 0, 0]);
    assert_eq!(u64_le_bytes(1000), [0xe8, 0x03, 0, 0, 0, 0, 0, 0]);
    assert_eq!(
        u64_le_bytes(0x0102_0304_0506_0708),
        [0x08, 0x07, 0x06, 0x05, 0x04, 0x03, 0x02, 0x01]
    );
    assert_eq!(u64_le_bytes(u64::MAX), [0xff; 8]);
}

#[test]
fn u64_bytes_agree_with_std() {
    let values: [u64; 7] = [0, 1, 255, 256, 1_700_003_600, 1 << 63, u64::MAX - 1];
    for value in values {
        assert_eq!(u64_le_bytes(value), value.to_le_bytes());
    }
}

#[test]
fn i64_bytes_are_twos_complement() {
    assert_eq!(i64_le_bytes(0), [0, 0, 0, 0, 0, 0, 0, 0]);
    assert_eq!(i64_le_bytes(3600), [0x10, 0x0e, 0, 0, 0, 0, 0, 0]);
    assert_eq!(i64_le_bytes(-1), [0xff; 8]);
    assert_eq!(i64_le_bytes(-2), [0xfe, 0xff, 0xff, 0xff, 0xff, 0xff, 0xff, 0xff]);
    assert_eq!(i64_le_bytes(i64::MIN), [0, 0, 0, 0, 0, 0, 0, 0x80]);
    assert_eq!(i64_le_bytes(i64::MAX), [0xff, 0xff, 0xff, 0xff, 0xff, 0xff, 0xff, 0x7f]);
}

#[test]
fn i64_bytes_agree_with_std() {
    let values: [i64; 8] = [0, 1, -1, 1_700_003_600, -1_700_003_600, i64::MIN, i64::MIN + 1, i64::MAX];
    for value in values {
        assert_eq!(i64_le_bytes(value), value.to_le_bytes());
    }
}

#[test]
fn u32_bytes_are_least_significant_first() {
    assert_eq!(u32_le_bytes(0), [0, 0, 0, 0]);
    assert_eq!(u32_le_bytes(1), [1, 0, 0, 0]);
    assert_eq!(u32_le_bytes(0x0102_0304), [0x04, 0x03, 0x02, 0x01]);
    assert_eq!(u32_le_bytes(u32::MAX), [0xff; 4]);
    let values: [u32; 4] = [7, 256, 65_536, u32::MAX - 1];
    for value in values {
        assert_eq!(u32_le_bytes(value), value.to_le_bytes());
    }
}

#[test]
fn lock_seed_encodes_the_value_that_counts() {
    let by_time = LockCondition::by_time(1_700_003_600);
    assert_eq!(by_time.condition_type, ConditionType::ByTime);
    assert_eq!(by_time.unlock_timestamp, 1_700_003_600);
    assert_eq!(by_time.unlock_amount, 0);
    assert_eq!(by_time.lock_seed(), 1_700_003_600i64.to_le_bytes());

    let by_amount = LockCondition::by_amount(1000);
    assert_eq!(by_amount.condition_type, ConditionType::ByAmount);
    assert_eq!(by_amount.unlock_timestamp, 0);
    assert_eq!(by_amount.unlock_amount, 1000);
    assert_eq!(by_amount.lock_seed(), [0xe8, 0x03, 0, 0, 0, 0, 0, 0]);
}

#[test]
fn condition_by_time_holds_from_the_unlock_time_on() {
    let condition = LockCondition::by_time(5000);
    assert!(!condition.is_met(0, 4999));
    assert!(condition.is_met(0, 5000));
    assert!(condition.is_met(0, 5001));
    assert!(!condition.is_met(u64::MAX, i64::MIN));
}

#[test]
fn condition_by_amount_holds_from_the_target_on() {
    let condition = LockCondition::by_amount(1000);
    assert!(!condition.is_met(999, i64::MAX));
    assert!(condition.is_met(1000, 0));
    assert!(condition.is_met(1001, i64::MIN));
}
