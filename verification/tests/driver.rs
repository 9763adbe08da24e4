//! Tests of the semaphore register driver: slot-id validation, the
//! lock/query/unlock lifecycle, owner-checked clears, the one-step lock,
//! and key-scoped bulk release.

use hsem_sync::hsem::{Core, Hsem, HsemBank, HsemError, HsemNotify};

#[test]
fn invalid_slot_rejected_by_every_operation() {
    let mut bank = HsemBank::new();
    for bad in [32u8, 33, 100, 255] {
        assert_eq!(bank.take(Core::Cm7, bad, 0), Err(HsemError::InvalidSlotId));
        assert_eq!(bank.fast_take(Core::Cm7, bad), Err(HsemError::InvalidSlotId));
        assert_eq!(
            bank.lock_verified(Core::Cm7, bad, 0),
            Err(HsemError::InvalidSlotId)
        );
        assert_eq!(
            bank.release(Core::Cm7, bad, 0),
            Err(HsemError::InvalidSlotId)
        );
        assert_eq!(bank.is_semaphore_taken(bad), Err(HsemError::InvalidSlotId));
        assert_eq!(
            bank.enable_interrupt(Core::Cm7, bad as usize, true),
            Err(HsemError::InvalidSlotId)
        );
        assert_eq!(
            bank.clear_interrupt(Core::Cm7, bad as usize),
            Err(HsemError::InvalidSlotId)
        );
    }
    // No register access was performed: every slot is still free and no
    // notification state was touched.
    for sem in 0..32u8 {
        assert_eq!(bank.is_semaphore_taken(sem), Ok(false));
    }
    assert!(bank.ier_cm7.iter().all(|&b| !b));
    assert!(bank.isr_cm7.iter().all(|&b| !b));
    assert!(!bank.event_cm7);
}

#[test]
fn boundary_slot_ids() {
    let mut bank = HsemBank::new();
    assert_eq!(bank.lock_verified(Core::Cm7, 31, 1), Ok(true));
    assert_eq!(bank.is_semaphore_taken(31), Ok(true));
    assert_eq!(bank.release(Core::Cm7, 31, 1), Ok(()));
    assert_eq!(bank.is_semaphore_taken(31), Ok(false));
    assert_eq!(bank.take(Core::Cm7, 32, 0), Err(HsemError::InvalidSlotId));
}

#[test]
fn lock_query_relock_unlock_lifecycle() {
    let mut bank = HsemBank::new();
    // A verified lock on a free slot succeeds and the query sees it held.
    assert_eq!(bank.lock_verified(Core::Cm7, 3, 7), Ok(true));
    assert_eq!(bank.is_semaphore_taken(3), Ok(true));
    // A second verified lock from the same core with a different process
    // id is rejected: the re-entrant lock does not stack.
    assert_eq!(bank.lock_verified(Core::Cm7, 3, 8), Ok(false));
    assert_eq!(bank.is_semaphore_taken(3), Ok(true));
    // The original owner's unlock returns the slot to free.
    assert_eq!(bank.release(Core::Cm7, 3, 7), Ok(()));
    assert_eq!(bank.is_semaphore_taken(3), Ok(false));
}

#[test]
fn verified_lock_readback_matches_own_claim() {
    let mut bank = HsemBank::new();
    assert_eq!(bank.lock_verified(Core::Cm7, 3, 7), Ok(true));
    // The readback of a repeated attempt with identical owner fields
    // matches, so the verified lock reports success again.
    assert_eq!(bank.lock_verified(Core::Cm7, 3, 7), Ok(true));
    // The peer core's attempt does not match the readback.
    assert_eq!(bank.lock_verified(Core::Cm4, 3, 7), Ok(false));
}

#[test]
fn non_owner_unlock_leaves_slot_held() {
    let mut bank = HsemBank::new();
    assert_eq!(bank.lock_verified(Core::Cm4, 4, 2), Ok(true));
    // Wrong core, right process id.
    assert_eq!(bank.release(Core::Cm7, 4, 2), Ok(()));
    assert_eq!(bank.is_semaphore_taken(4), Ok(true));
    // Right core, wrong process id.
    assert_eq!(bank.release(Core::Cm4, 4, 3), Ok(()));
    assert_eq!(bank.is_semaphore_taken(4), Ok(true));
    // The owner's own unlock frees the slot.
    assert_eq!(bank.release(Core::Cm4, 4, 2), Ok(()));
    assert_eq!(bank.is_semaphore_taken(4), Ok(false));
}

#[test]
fn unconditional_take_is_ignored_on_a_held_slot() {
    let mut bank = HsemBank::new();
    assert_eq!(bank.lock_verified(Core::Cm7, 6, 1), Ok(true));
    // The write-only attempt reports nothing and changes nothing.
    assert_eq!(bank.take(Core::Cm4, 6, 2), Ok(()));
    assert_eq!(bank.release(Core::Cm4, 6, 2), Ok(()));
    assert_eq!(bank.is_semaphore_taken(6), Ok(true));
    assert_eq!(bank.release(Core::Cm7, 6, 1), Ok(()));
    assert_eq!(bank.is_semaphore_taken(6), Ok(false));
}

#[test]
fn fast_take_locks_only_a_free_slot() {
    let mut bank = HsemBank::new();
    assert_eq!(bank.fast_take(Core::Cm7, 9), Ok(()));
    assert_eq!(bank.is_semaphore_taken(9), Ok(true));
    assert_eq!(bank.fast_take(Core::Cm4, 9), Err(HsemError::AcquisitionFailed));
    // The one-step lock claimed the slot under process id 0.
    assert_eq!(bank.release(Core::Cm7, 9, 0), Ok(()));
    assert_eq!(bank.is_semaphore_taken(9), Ok(false));
}

#[test]
fn peek_never_acquires() {
    let mut bank = HsemBank::new();
    assert_eq!(bank.is_semaphore_taken(11), Ok(false));
    assert_eq!(bank.is_semaphore_taken(11), Ok(false));
    // Another core can still take the slot after the peeks.
    assert_eq!(bank.lock_verified(Core::Cm4, 11, 0), Ok(true));
}

#[test]
fn clear_key_round_trip() {
    let mut bank = HsemBank::new();
    assert_eq!(bank.get_clear_key(), 0);
    bank.set_clear_key(0x1234);
    assert_eq!(bank.get_clear_key(), 0x1234);
}

#[test]
fn release_all_frees_exactly_the_written_cores_slots() {
    let mut bank = HsemBank::new();
    bank.set_clear_key(0xBEEF);
    assert_eq!(bank.lock_verified(Core::Cm7, 1, 5), Ok(true));
    assert_eq!(bank.lock_verified(Core::Cm7, 2, 9), Ok(true));
    assert_eq!(bank.lock_verified(Core::Cm4, 3, 5), Ok(true));

    // A mismatched key frees nothing.
    bank.release_all(0x0001, Core::Cm7.id());
    assert_eq!(bank.is_semaphore_taken(1), Ok(true));
    assert_eq!(bank.is_semaphore_taken(2), Ok(true));
    assert_eq!(bank.is_semaphore_taken(3), Ok(true));

    // The matching key frees every slot held for the written core id,
    // regardless of the process id each was taken under.
    bank.release_all(0xBEEF, Core::Cm7.id());
    assert_eq!(bank.is_semaphore_taken(1), Ok(false));
    assert_eq!(bank.is_semaphore_taken(2), Ok(false));
    // The other core's slot is untouched.
    assert_eq!(bank.is_semaphore_taken(3), Ok(true));

    bank.release_all(0xBEEF, Core::Cm4.id());
    assert_eq!(bank.is_semaphore_taken(3), Ok(false));
}

#[test]
fn release_notifies_armed_cores_only() {
    let mut bank = HsemBank::new();
    assert_eq!(bank.enable_interrupt(Core::Cm4, 7, true), Ok(()));
    assert_eq!(bank.lock_verified(Core::Cm7, 7, 0), Ok(true));
    assert!(!bank.isr_cm4[7]);
    assert!(!bank.event_cm4);
    assert_eq!(bank.release(Core::Cm7, 7, 0), Ok(()));
    // The armed core got its pending bit and event; the other did not.
    assert!(bank.isr_cm4[7]);
    assert!(bank.event_cm4);
    assert!(!bank.isr_cm7[7]);
    assert!(!bank.event_cm7);
    // The handler clears the pending bit.
    assert_eq!(bank.clear_interrupt(Core::Cm4, 7), Ok(()));
    assert!(!bank.isr_cm4[7]);
}

#[test]
fn cooperative_wait_resumes_once_on_release() {
    let mut bank = HsemBank::new();
    assert_eq!(
        hsem_sync::hsem::wait_until_unlocked(&mut bank, Core::Cm7, 40),
        Err(HsemError::InvalidSlotId)
    );
    assert_eq!(bank.enable_interrupt(Core::Cm7, 12, true), Ok(()));
    assert_eq!(bank.lock_verified(Core::Cm4, 12, 0), Ok(true));
    // Held and no notification yet: the wait does not complete.
    assert_eq!(
        hsem_sync::hsem::wait_until_unlocked(&mut bank, Core::Cm7, 12),
        Ok(false)
    );
    assert_eq!(bank.release(Core::Cm4, 12, 0), Ok(()));
    // Free and notified: the wait completes and consumes the pending bit,
    // so a second check does not complete again.
    assert_eq!(
        hsem_sync::hsem::wait_until_unlocked(&mut bank, Core::Cm7, 12),
        Ok(true)
    );
    assert!(!bank.isr_cm7[12]);
    assert_eq!(
        hsem_sync::hsem::wait_until_unlocked(&mut bank, Core::Cm7, 12),
        Ok(false)
    );
}

#[test]
fn release_all_fires_notifications_like_an_unlock() {
    let mut bank = HsemBank::new();
    bank.set_clear_key(0x00AA);
    assert_eq!(bank.enable_interrupt(Core::Cm4, 2, true), Ok(()));
    assert_eq!(bank.lock_verified(Core::Cm7, 2, 1), Ok(true));
    bank.release_all(0x00AA, Core::Cm7.id());
    assert!(bank.isr_cm4[2]);
    assert!(bank.event_cm4);
    assert!(!bank.event_cm7);
}
