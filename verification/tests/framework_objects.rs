use wdk::status::NTSTATUS;
use wdk::wdf::timer::{stop_wait_argument, timer_call_result};
use wdk::wdf::{SpinLock, Timer};

const STATUS_INSUFFICIENT_RESOURCES: NTSTATUS = 0xC000_009A_u32 as i32;
const STATUS_INVALID_PARAMETER: NTSTATUS = 0xC000_000D_u32 as i32;

#[test]
fn spin_lock_from_success_keeps_handle() {
    let lock = SpinLock::try_new(0, 0x1000).unwrap();
    assert_eq!(lock.handle(), 0x1000);
    let lock = SpinLock::create(0x4000_0000, 0x2000).unwrap();
    assert_eq!(lock.handle(), 0x2000);
}

#[test]
fn spin_lock_from_failure_gives_status() {
    assert_eq!(
        SpinLock::try_new(STATUS_INSUFFICIENT_RESOURCES, 0x1000).unwrap_err(),
        STATUS_INSUFFICIENT_RESOURCES
    );
    assert_eq!(
        SpinLock::create(STATUS_INVALID_PARAMETER, 0).unwrap_err(),
        STATUS_INVALID_PARAMETER
    );
    // A warning is not a success either.
    assert!(SpinLock::try_new(0x8000_0005_u32 as i32, 1).is_err());
}

#[test]
fn timer_from_success_keeps_handle() {
    let timer = Timer::try_new(0, 0xABC0).unwrap();
    assert_eq!(timer.handle(), 0xABC0);
    let timer = Timer::create(0x103, 7).unwrap();
    assert_eq!(timer.handle(), 7);
}

#[test]
fn timer_from_failure_gives_status() {
    assert_eq!(Timer::try_new(-1, 0xABC0).unwrap_err(), -1);
    assert_eq!(
        Timer::create(STATUS_INSUFFICIENT_RESOURCES, 9).unwrap_err(),
        STATUS_INSUFFICIENT_RESOURCES
    );
}

#[test]
fn framework_booleans() {
    assert_eq!(stop_wait_argument(true), 1);
    assert_eq!(stop_wait_argument(false), 0);
    assert!(timer_call_result(1));
    assert!(timer_call_result(0xFF));
    assert!(!timer_call_result(0));
    for b in [true, false] {
        assert_eq!(timer_call_result(stop_wait_argument(b)), b);
    }
}

#[test]
fn create_gives_what_try_new_gives() {
    for (status, handle) in [(0, 5usize), (0x4000_0001, 6), (-1, 7), (STATUS_INVALID_PARAMETER, 8)] {
        let a = SpinLock::try_new(status, handle).map(|l| l.handle());
        let b = SpinLock::create(status, handle).map(|l| l.handle());
        assert_eq!(a, b);
        let a = Timer::try_new(status, handle).map(|t| t.handle());
        let b = Timer::create(status, handle).map(|t| t.handle());
        assert_eq!(a, b);
    }
}
