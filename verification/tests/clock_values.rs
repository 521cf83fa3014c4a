use cinema_be::clock::{ClockError, EpochOffset, Instant, NANOS_PER_SEC};
use cinema_be::reaper::{grace_expired, GRACE_PERIOD_NANOS};
use cinema_be::room::Room;

#[test]
fn offset_after_the_epoch_counts_up() {
    let at = Instant::from_offset(EpochOffset { earlier: false, secs: 12, subsec_nanos: 500_000_000 });
    assert_eq!(at.nanos, 12_500_000_000);
    assert!(at.is_timestamp());
}

#[test]
fn offset_before_the_epoch_counts_down() {
    let at = Instant::from_offset(EpochOffset { earlier: true, secs: 1, subsec_nanos: 1 });
    assert_eq!(at.nanos, -1_000_000_001);
    assert!(!at.is_timestamp());
}

#[test]
fn largest_offset_fits() {
    let at = Instant::from_offset(EpochOffset { earlier: false, secs: u64::MAX, subsec_nanos: 999_999_999 });
    assert_eq!(at.nanos, 18_446_744_073_709_551_615_999_999_999);
    let before = Instant::from_offset(EpochOffset { earlier: true, secs: u64::MAX, subsec_nanos: u32::MAX });
    assert_eq!(before.nanos, -(18_446_744_073_709_551_615i128 * NANOS_PER_SEC + 4_294_967_295));
}

#[test]
fn from_secs_is_whole_seconds() {
    assert_eq!(Instant::from_secs(0).nanos, 0);
    assert_eq!(Instant::from_secs(3).nanos, 3_000_000_000);
    assert!(Instant::from_secs(0).is_timestamp());
}

#[test]
fn now_is_after_the_epoch_and_does_not_run_backwards() {
    let first = Instant::now();
    let second = Instant::now();
    assert!(first.is_timestamp());
    assert!(first.nanos > 1_600_000_000 * NANOS_PER_SEC);
    assert!(second.nanos >= first.nanos);
}

#[test]
fn grace_period_is_five_minutes() {
    assert_eq!(GRACE_PERIOD_NANOS, 5 * 60 * NANOS_PER_SEC);
}

#[test]
fn grace_expires_exactly_at_five_minutes() {
    let last = Instant::from_secs(1000);
    assert_eq!(grace_expired(last, Instant::from_secs(1000)), Ok(false));
    assert_eq!(grace_expired(last, Instant { nanos: 1300 * NANOS_PER_SEC - 1 }), Ok(false));
    assert_eq!(grace_expired(last, Instant::from_secs(1300)), Ok(true));
    assert_eq!(grace_expired(last, Instant::from_secs(5000)), Ok(true));
}

#[test]
fn grace_check_fails_when_the_clock_went_backwards() {
    assert_eq!(
        grace_expired(Instant::from_secs(1000), Instant { nanos: 1000 * NANOS_PER_SEC - 1 }),
        Err(ClockError::WentBackwards)
    );
}

#[test]
fn grace_check_survives_the_widest_gap() {
    assert_eq!(grace_expired(Instant { nanos: i128::MIN }, Instant { nanos: i128::MAX }), Ok(true));
    assert_eq!(
        grace_expired(Instant { nanos: i128::MAX }, Instant { nanos: i128::MIN }),
        Err(ClockError::WentBackwards)
    );
}

#[test]
fn room_may_be_deleted_only_after_grace() {
    let room = Room::new_at("ABCDE".to_string(), "alice".to_string(), Instant::from_secs(10));
    assert!(room.is_empty());
    assert_eq!(room.may_delete_at(Instant::from_secs(309)), Ok(false));
    assert_eq!(room.may_delete_at(Instant::from_secs(310)), Ok(true));
    assert_eq!(room.may_delete_at(Instant::from_secs(9)), Err(ClockError::WentBackwards));
}
