//! The properties the layer is relied on for, stated over the
//! specification-level transitions that every operation's contract is
//! expressed in, and proved once and for all.

use vstd::prelude::*;

use crate::hsem::{
    BankView, Core, free_slot, lock_verified_ok, owned_slot, release_all_post, release_post,
    slot_freed_by, take_post, valid_slot,
};
use crate::mailbox::{
    MAILBOX_PROCESS, MAILBOX_SLOT, VALUE_INDEX, mailbox_available, read_post, write_post,
};
use crate::power::{DomainState, PwrDomain, StopMode, SysView, poll_wake_post, poll_wake_result};
use crate::rendezvous::WAKE_SLOT;

verus! {

/// A verified lock on a free slot succeeds, and an immediate query then
/// reports the slot held; a second verified lock from the same core under
/// a different process id is rejected and changes nothing; the original
/// owner's unlock returns the slot to free, visible to a final query.
pub proof fn lemma_lock_lifecycle(b: BankView, core: Core, sem_id: u8, p1: u8, p2: u8)
    requires
        b.wf(),
        valid_slot(sem_id),
        !b.slots[sem_id as int].locked,
        p1 != p2,
    ensures
        lock_verified_ok(b, core, sem_id, p1),
        take_post(b, core, sem_id, p1).slots[sem_id as int].locked,
        !lock_verified_ok(take_post(b, core, sem_id, p1), core, sem_id, p2),
        take_post(take_post(b, core, sem_id, p1), core, sem_id, p2) == take_post(
            b,
            core,
            sem_id,
            p1,
        ),
        !release_post(take_post(b, core, sem_id, p1), core, sem_id, p1).slots[
            sem_id as int
        ].locked,
{
}

/// An unlock whose written core or process fields do not match the
/// current owner leaves the held slot — indeed the whole bank —
/// unchanged: a non-owner cannot release another owner's lock.
pub proof fn lemma_unlock_mismatch(b: BankView, core: Core, sem_id: u8, process_id: u8)
    requires
        b.wf(),
        valid_slot(sem_id),
        b.slots[sem_id as int].locked,
        b.slots[sem_id as int] != owned_slot(core, process_id),
    ensures
        release_post(b, core, sem_id, process_id) == b,
        release_post(b, core, sem_id, process_id).slots[sem_id as int].locked,
{
}

/// A bulk release with the matching key frees every slot held for the
/// written core id — regardless of the per-slot owner process — and
/// leaves every other slot untouched; a mismatched key frees nothing.
pub proof fn lemma_release_all(b: BankView, key: u16, core_id: u8)
    requires
        b.wf(),
    ensures
        key == b.key ==> forall|i: int|
            0 <= i < 32 ==> release_all_post(b, key, core_id).slots[i] == (
            if slot_freed_by(b, core_id, i) {
                free_slot()
            } else {
                b.slots[i]
            }),
        key != b.key ==> release_all_post(b, key, core_id) == b,
{
}

/// The primary core's rendezvous signal on system `s`: acquire then
/// release the wake slot.
pub open spec fn signal_post(s: SysView) -> SysView {
    SysView {
        bank: release_post(
            take_post(s.bank, Core::Cm7, WAKE_SLOT, 0),
            Core::Cm7,
            WAKE_SLOT,
            0,
        ),
        ..s
    }
}

/// Once the secondary core is parked — wake notification armed, wake slot
/// free, domain asleep behind a wait-for-event — the primary core's
/// acquire-then-release signal asserts the secondary core's event latch,
/// the suspended wait completes, and it completes exactly once: a second,
/// independent signal on the same slot finds the domain awake and does not
/// complete the already-finished wait again.
pub proof fn lemma_rendezvous_wakes_once(s: SysView)
    requires
        s.wf(),
        s.d2 == DomainState::Asleep(StopMode::StopEntryWfe),
        s.bank.ier_cm4[WAKE_SLOT as int],
        !s.bank.slots[WAKE_SLOT as int].locked,
    ensures
        signal_post(s).bank.event_cm4,
        poll_wake_result(signal_post(s), PwrDomain::D2, Core::Cm4),
        poll_wake_post(signal_post(s), PwrDomain::D2, Core::Cm4).d2 == DomainState::Awake,
        !poll_wake_post(signal_post(s), PwrDomain::D2, Core::Cm4).sleepdeep_cm4,
        !poll_wake_result(
            signal_post(poll_wake_post(signal_post(s), PwrDomain::D2, Core::Cm4)),
            PwrDomain::D2,
            Core::Cm4,
        ),
{
}

/// Mailbox round trip: with the mutex slot free, a write by one core
/// stores its value and leaves the mutex free again, so a subsequent read
/// by the other core enters the critical section and finds exactly that
/// value.  If instead the writer's unlock is withheld while it holds the
/// mutex, the other core cannot enter at all — its bounded retries all
/// fail and the read reports the peer unresponsive.
pub proof fn lemma_mailbox_round_trip(s: SysView, a: Core, b: Core, value: u32)
    requires
        s.wf(),
        !s.bank.slots[MAILBOX_SLOT as int].locked,
    ensures
        mailbox_available(s, a),
        write_post(s, a, value).mailbox[VALUE_INDEX as int] == value,
        mailbox_available(write_post(s, a, value), b),
        read_post(write_post(s, a, value), b).mailbox[VALUE_INDEX as int] == value,
        a != b ==> !mailbox_available(
            (SysView { bank: take_post(s.bank, a, MAILBOX_SLOT, MAILBOX_PROCESS), ..s }),
            b,
        ),
{
}

} // verus!
