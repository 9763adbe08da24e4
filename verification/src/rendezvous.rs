//! The boot rendezvous: the primary core holds the secondary core in deep
//! sleep during its own initialization and releases it deterministically.
//!
//! The secondary core arms a notification on the designated wake slot,
//! drains stale events, unmasks its interrupt line and enters stop mode;
//! it stays asleep until the primary core performs an acquire-then-release
//! signal on that slot.  The unlock both satisfies the armed notification
//! and asserts the event that completes the wait.  The ordering assumption
//! — the primary core must not signal before the secondary core has armed
//! — is the caller's to preserve: the secondary core arms immediately at
//! reset, before the primary core can finish its longer initialization.

use vstd::prelude::*;

use crate::hsem::{
    Core, Hsem, HsemBank, HsemError, HsemNotify, enable_hsem_clock, enable_post, release_post,
    take_post, unmask_interrupt,
};
use crate::power::{
    DomainState, PwrDomain, SharedSystem, StopMode, StopOutcome, SysView, clear_pending_events,
    enter_stop_mode,
};

verus! {

/// The designated wake slot of the boot rendezvous.
pub const WAKE_SLOT: u8 = 0;

/// Arm the notification of `core` for slot `sem_x`: the arm step of the
/// drain/arm/sleep idiom.
pub fn hsem_activate_notification(bank: &mut HsemBank, core: Core, sem_x: usize) -> (r: Result<
    (),
    HsemError,
>)
    requires
        old(bank)@.wf(),
    ensures
        final(bank)@.wf(),
        sem_x >= 32 ==> r == Err::<(), HsemError>(HsemError::InvalidSlotId)
            && final(bank)@ == old(bank)@,
        sem_x < 32 ==> r == Ok::<(), HsemError>(())
            && final(bank)@ =~= enable_post(old(bank)@, core, sem_x as int, true),
{
    bank.enable_interrupt(core, sem_x, true)
}

/// Whether the secondary core has finished its startup and is parked in
/// deep sleep, so the primary core may proceed past the rendezvous.
pub open spec fn core1_parked(s: SysView) -> bool {
    match s.d2 {
        DomainState::Asleep(_) => true,
        _ => false,
    }
}

/// The primary core's rendezvous check: reports whether the secondary
/// core's domain has reached deep sleep.  The surrounding runtime polls
/// this under its own timeout.
pub fn wait_for_core1(sys: &SharedSystem) -> (r: bool)
    ensures
        r == core1_parked(sys@),
{
    match sys.d2 {
        DomainState::Asleep(_) => true,
        _ => false,
    }
}

/// The secondary core's startup: enable the bank's clock, arm the wake
/// notification, drain stale events, unmask the interrupt line, then enter
/// stop mode for its own domain.  Because the drain leaves the event latch
/// clear, the entry always suspends; the core then stays asleep until the
/// primary core signals the wake slot.
pub fn core1_startup(sys: &mut SharedSystem) -> (r: StopOutcome)
    requires
        old(sys)@.wf(),
        old(sys)@.d2 == DomainState::Awake,
    ensures
        final(sys)@.wf(),
        r == StopOutcome::Suspended,
        final(sys)@.d2 == DomainState::Asleep(StopMode::StopEntryWfe),
        final(sys)@.sleepdeep_cm4,
        final(sys)@.bank.clock_on,
        final(sys)@.bank.ier_cm4 =~= old(sys)@.bank.ier_cm4.update(WAKE_SLOT as int, true),
        !final(sys)@.bank.event_cm4,
        final(sys)@.bank.unmasked_cm4,
        final(sys)@.bank.slots == old(sys)@.bank.slots,
        final(sys)@.bank.ier_cm7 == old(sys)@.bank.ier_cm7,
        final(sys)@.bank.isr_cm7 == old(sys)@.bank.isr_cm7,
        final(sys)@.bank.isr_cm4 == old(sys)@.bank.isr_cm4,
        final(sys)@.bank.event_cm7 == old(sys)@.bank.event_cm7,
        final(sys)@.bank.unmasked_cm7 == old(sys)@.bank.unmasked_cm7,
        final(sys)@.bank.key == old(sys)@.bank.key,
        final(sys)@.mailbox == old(sys)@.mailbox,
        final(sys)@.d1 == old(sys)@.d1,
        final(sys)@.d3 == old(sys)@.d3,
        final(sys)@.sleepdeep_cm7 == old(sys)@.sleepdeep_cm7,
{
    enable_hsem_clock(&mut sys.bank);
    let _ = hsem_activate_notification(&mut sys.bank, Core::Cm4, WAKE_SLOT as usize);
    clear_pending_events(&mut sys.bank, Core::Cm4);
    unmask_interrupt(&mut sys.bank, Core::Cm4);
    enter_stop_mode(sys, StopMode::StopEntryWfe, PwrDomain::D2, Core::Cm4)
}

/// The primary core's signal: acquire then immediately release the wake
/// slot, acting purely as a signal rather than a durable lock.  If the
/// slot was free, the release fires the armed notifications and asserts
/// the corresponding event latches; a slot held by another owner leaves
/// everything unchanged.
pub fn wake_core1(sys: &mut SharedSystem)
    requires
        old(sys)@.wf(),
    ensures
        final(sys)@.wf(),
        final(sys)@.bank =~= release_post(
            take_post(old(sys)@.bank, Core::Cm7, WAKE_SLOT, 0),
            Core::Cm7,
            WAKE_SLOT,
            0,
        ),
        final(sys)@.mailbox == old(sys)@.mailbox,
        final(sys)@.d1 == old(sys)@.d1,
        final(sys)@.d2 == old(sys)@.d2,
        final(sys)@.d3 == old(sys)@.d3,
        final(sys)@.sleepdeep_cm7 == old(sys)@.sleepdeep_cm7,
        final(sys)@.sleepdeep_cm4 == old(sys)@.sleepdeep_cm4,
{
    let _ = sys.bank.take(Core::Cm7, WAKE_SLOT, 0);
    let _ = sys.bank.release(Core::Cm7, WAKE_SLOT, 0);
}

} // verus!
