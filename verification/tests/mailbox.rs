//! Tests of the mailbox exchange protocol and shared-memory setup.

use hsem_sync::hsem::{Core, Hsem, HsemError};
use hsem_sync::mailbox::{
    init_shared_memory, lock_async, read_value, write_value, MAILBOX_PROCESS, MAILBOX_SLOT,
};
use hsem_sync::power::SharedSystem;

#[test]
fn mailbox_round_trip_returns_the_exact_value() {
    let mut sys = SharedSystem::new();
    init_shared_memory(&mut sys);
    // Core A writes under the mutex; core B reads it back exactly.
    assert_eq!(write_value(&mut sys, Core::Cm7, 0x1234), Ok(()));
    assert_eq!(read_value(&mut sys, Core::Cm4), Ok(0x1234));
    // The mutex slot was released both times.
    assert_eq!(sys.bank.is_semaphore_taken(MAILBOX_SLOT), Ok(false));
}

#[test]
fn withheld_unlock_exhausts_the_readers_retry_budget() {
    let mut sys = SharedSystem::new();
    assert_eq!(write_value(&mut sys, Core::Cm7, 77), Ok(()));
    // Core A acquires the mutex and never releases it.
    assert_eq!(
        sys.bank.lock_verified(Core::Cm7, MAILBOX_SLOT, MAILBOX_PROCESS),
        Ok(true)
    );
    // Core B's bounded retries all fail: the peer is unresponsive, and
    // the mailbox is untouched.
    assert_eq!(read_value(&mut sys, Core::Cm4), Err(HsemError::PeerUnresponsive));
    assert_eq!(write_value(&mut sys, Core::Cm4, 5), Err(HsemError::PeerUnresponsive));
    // Once the holder releases, the read completes and sees the old value.
    assert_eq!(sys.bank.release(Core::Cm7, MAILBOX_SLOT, MAILBOX_PROCESS), Ok(()));
    assert_eq!(read_value(&mut sys, Core::Cm4), Ok(77));
}

#[test]
fn writes_overwrite_the_single_value_word() {
    let mut sys = SharedSystem::new();
    assert_eq!(write_value(&mut sys, Core::Cm7, 500), Ok(()));
    assert_eq!(write_value(&mut sys, Core::Cm7, 450), Ok(()));
    assert_eq!(read_value(&mut sys, Core::Cm4), Ok(450));
    assert_eq!(write_value(&mut sys, Core::Cm4, 400), Ok(()));
    assert_eq!(read_value(&mut sys, Core::Cm7), Ok(400));
}

#[test]
fn init_zeroes_the_shared_words() {
    let mut sys = SharedSystem::new();
    assert_eq!(write_value(&mut sys, Core::Cm7, 42), Ok(()));
    assert_eq!(read_value(&mut sys, Core::Cm4), Ok(42));
    init_shared_memory(&mut sys);
    assert_eq!(read_value(&mut sys, Core::Cm4), Ok(0));
    assert!(sys.mailbox.iter().all(|&w| w == 0));
}

#[test]
fn bounded_acquisition_validates_and_reports() {
    let mut sys = SharedSystem::new();
    assert_eq!(
        lock_async(&mut sys.bank, Core::Cm7, 40, 0),
        Err(HsemError::InvalidSlotId)
    );
    assert_eq!(lock_async(&mut sys.bank, Core::Cm7, 8, 0), Ok(true));
    assert_eq!(sys.bank.is_semaphore_taken(8), Ok(true));
    // The peer cannot acquire a held slot within its budget.
    assert_eq!(lock_async(&mut sys.bank, Core::Cm4, 8, 0), Ok(false));
    assert_eq!(sys.bank.release(Core::Cm7, 8, 0), Ok(()));
    assert_eq!(lock_async(&mut sys.bank, Core::Cm4, 8, 0), Ok(true));
}
