//! Tests of the stop/wake state machine and the boot rendezvous.

use hsem_sync::hsem::{Core, Hsem, HsemNotify};
use hsem_sync::power::{
    clear_pending_events, enter_stop_mode, poll_wake, DomainState, PwrDomain, SharedSystem,
    StopMode, StopOutcome,
};
use hsem_sync::rendezvous::{core1_startup, wait_for_core1, wake_core1, WAKE_SLOT};

#[test]
fn boot_rendezvous_wakes_exactly_once() {
    let mut sys = SharedSystem::new();

    // Secondary core: arm notification on the wake slot, drain, sleep.
    assert!(!wait_for_core1(&sys));
    assert_eq!(core1_startup(&mut sys), StopOutcome::Suspended);
    assert_eq!(sys.domain_state(PwrDomain::D2), DomainState::Asleep(StopMode::StopEntryWfe));
    assert!(wait_for_core1(&sys));

    // No wake source has fired yet: the wait does not complete.
    assert!(!poll_wake(&mut sys, PwrDomain::D2, Core::Cm4));

    // Primary core: acquire then release the wake slot as a pure signal.
    wake_core1(&mut sys);
    assert!(sys.bank.event_cm4);
    assert!(sys.bank.isr_cm4[WAKE_SLOT as usize]);

    // The sleep call returns exactly once.
    assert!(poll_wake(&mut sys, PwrDomain::D2, Core::Cm4));
    assert_eq!(sys.domain_state(PwrDomain::D2), DomainState::Awake);
    assert!(!sys.sleepdeep_cm4);

    // A second, independent signal on the wake slot does not cause a
    // second spurious return for the already-completed wait.
    wake_core1(&mut sys);
    assert!(!poll_wake(&mut sys, PwrDomain::D2, Core::Cm4));
    assert_eq!(sys.domain_state(PwrDomain::D2), DomainState::Awake);
}

#[test]
fn rendezvous_signal_uses_lock_then_unlock() {
    let mut sys = SharedSystem::new();
    assert_eq!(core1_startup(&mut sys), StopOutcome::Suspended);
    // The same signal written out as the two driver calls.
    assert_eq!(sys.bank.take(Core::Cm7, WAKE_SLOT, 0), Ok(()));
    assert_eq!(sys.bank.release(Core::Cm7, WAKE_SLOT, 0), Ok(()));
    assert!(poll_wake(&mut sys, PwrDomain::D2, Core::Cm4));
    assert_eq!(sys.domain_state(PwrDomain::D2), DomainState::Awake);
}

#[test]
fn non_owner_stop_request_is_a_no_op() {
    let mut sys = SharedSystem::new();
    assert_eq!(
        enter_stop_mode(&mut sys, StopMode::StopEntryWfe, PwrDomain::D2, Core::Cm7),
        StopOutcome::NotOwner
    );
    assert_eq!(sys.domain_state(PwrDomain::D2), DomainState::Awake);
    assert!(!sys.sleepdeep_cm7);
    assert_eq!(
        enter_stop_mode(&mut sys, StopMode::StopEntryWfi, PwrDomain::D1, Core::Cm4),
        StopOutcome::NotOwner
    );
    assert_eq!(sys.domain_state(PwrDomain::D1), DomainState::Awake);
}

#[test]
fn latched_event_makes_the_wait_fall_through() {
    let mut sys = SharedSystem::new();
    // An event asserted before the wait instruction executes is not lost:
    // the entry consumes it and returns at once instead of sleeping.
    sys.bank.event_cm4 = true;
    assert_eq!(
        enter_stop_mode(&mut sys, StopMode::StopEntryWfe, PwrDomain::D2, Core::Cm4),
        StopOutcome::ImmediateWake
    );
    assert_eq!(sys.domain_state(PwrDomain::D2), DomainState::Awake);
    assert!(!sys.bank.event_cm4);
    assert!(!sys.sleepdeep_cm4);
}

#[test]
fn drain_closes_the_missed_wake_race() {
    let mut sys = SharedSystem::new();
    sys.bank.event_cm4 = true;
    clear_pending_events(&mut sys.bank, Core::Cm4);
    assert!(!sys.bank.event_cm4);
    // After the drain the stale event cannot satisfy the wait.
    assert_eq!(
        enter_stop_mode(&mut sys, StopMode::StopEntryWfe, PwrDomain::D2, Core::Cm4),
        StopOutcome::Suspended
    );
}

#[test]
fn interrupt_entry_wakes_on_pending_unmasked_line() {
    let mut sys = SharedSystem::new();
    assert_eq!(sys.bank.enable_interrupt(Core::Cm4, 0, true), Ok(()));
    // A release of the armed slot leaves the notification pending.
    assert_eq!(sys.bank.take(Core::Cm7, 0, 0), Ok(()));
    assert_eq!(sys.bank.release(Core::Cm7, 0, 0), Ok(()));

    // With the line still masked the pending bit cannot complete a
    // wait-for-interrupt entry.
    let mut masked = SharedSystem::new();
    assert_eq!(masked.bank.enable_interrupt(Core::Cm4, 0, true), Ok(()));
    assert_eq!(masked.bank.take(Core::Cm7, 0, 0), Ok(()));
    assert_eq!(masked.bank.release(Core::Cm7, 0, 0), Ok(()));
    assert_eq!(
        enter_stop_mode(&mut masked, StopMode::StopEntryWfi, PwrDomain::D2, Core::Cm4),
        StopOutcome::Suspended
    );

    // Unmasked, the same state falls through at once.
    hsem_sync::hsem::unmask_interrupt(&mut sys.bank, Core::Cm4);
    assert_eq!(
        enter_stop_mode(&mut sys, StopMode::StopEntryWfi, PwrDomain::D2, Core::Cm4),
        StopOutcome::ImmediateWake
    );
}
