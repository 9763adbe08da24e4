//! The mailbox exchange protocol: a fixed-length array of 32-bit words in
//! the shared memory region, carrying no hardware protection of its own.
//! Its exclusivity is a software convention layered on one designated
//! semaphore slot acting as its mutex: every read or write of the words
//! happens strictly between a successful lock and the matching unlock of
//! that slot.
//!
//! Acquisition retries a bounded number of times.  An exhausted budget
//! means the peer core holds the lock without releasing it (crashed or
//! deadlocked); that is unrecoverable here and reported as
//! [`HsemError::PeerUnresponsive`] — no automatic bulk release is
//! attempted.

use vstd::prelude::*;

use crate::hsem::{
    Core, Hsem, HsemBank, HsemError, lock_verified_ok, release_post, take_post, valid_slot,
};
use crate::power::{SharedSystem, SysView};

verus! {

/// The designated semaphore slot serving as the mailbox mutex.
pub const MAILBOX_SLOT: u8 = 5;

/// The process id under which the mailbox mutex is taken.
pub const MAILBOX_PROCESS: u8 = 0;

/// How many acquisition attempts are made before the peer is declared
/// unresponsive.
pub const RETRY_BUDGET: u32 = 10;

/// Index of the word the exchange protocol carries its value in.
pub const VALUE_INDEX: usize = 0;

/// The bounded-retry acquisition used by the mailbox protocol: up to
/// [`RETRY_BUDGET`] verified-lock attempts on `sem_id`.  The suspension
/// between attempts is the surrounding runtime's business; the attempts
/// themselves leave the bank untouched until one succeeds.
pub fn lock_async(bank: &mut HsemBank, core: Core, sem_id: u8, process_id: u8) -> (r: Result<
    bool,
    HsemError,
>)
    requires
        old(bank)@.wf(),
    ensures
        final(bank)@.wf(),
        !valid_slot(sem_id) ==> r == Err::<bool, HsemError>(HsemError::InvalidSlotId)
            && final(bank)@ == old(bank)@,
        valid_slot(sem_id) ==> {
            &&& r == Ok::<bool, HsemError>(lock_verified_ok(old(bank)@, core, sem_id, process_id))
            &&& final(bank)@ =~= take_post(old(bank)@, core, sem_id, process_id)
        },
{
    if sem_id > 31 {
        return Err(HsemError::InvalidSlotId);
    }
    let mut attempt: u32 = 0;
    let mut acquired = false;
    while attempt < RETRY_BUDGET && !acquired
        invariant
            old(bank)@.wf(),
            bank@.wf(),
            valid_slot(sem_id),
            attempt <= RETRY_BUDGET,
            !acquired ==> bank@ == old(bank)@,
            attempt > 0 && !acquired ==> !lock_verified_ok(old(bank)@, core, sem_id, process_id),
            acquired ==> lock_verified_ok(old(bank)@, core, sem_id, process_id)
                && bank@ =~= take_post(old(bank)@, core, sem_id, process_id),
        decreases RETRY_BUDGET - attempt,
    {
        match bank.lock_verified(core, sem_id, process_id) {
            Ok(got) => {
                acquired = got;
            },
            Err(e) => {
                return Err(e);
            },
        }
        attempt = attempt + 1;
    }
    if !acquired {
        proof {
            assert(bank@ =~= take_post(old(bank)@, core, sem_id, process_id));
        }
    }
    Ok(acquired)
}

/// System state after a successful mailbox write: the value word updated,
/// and the mutex slot taken and released again (with the notification
/// fan-out an unlock carries).
pub open spec fn write_post(s: SysView, core: Core, value: u32) -> SysView {
    SysView {
        bank: release_post(
            take_post(s.bank, core, MAILBOX_SLOT, MAILBOX_PROCESS),
            core,
            MAILBOX_SLOT,
            MAILBOX_PROCESS,
        ),
        mailbox: s.mailbox.update(VALUE_INDEX as int, value),
        ..s
    }
}

/// System state after a successful mailbox read: the words untouched, the
/// mutex slot taken and released again.
pub open spec fn read_post(s: SysView, core: Core) -> SysView {
    SysView {
        bank: release_post(
            take_post(s.bank, core, MAILBOX_SLOT, MAILBOX_PROCESS),
            core,
            MAILBOX_SLOT,
            MAILBOX_PROCESS,
        ),
        ..s
    }
}

/// Whether `core` can enter the mailbox critical section on system `s`:
/// the verified lock of the mutex slot succeeds, which is the case exactly
/// if the slot is free or already carries this core's own claim.
pub open spec fn mailbox_available(s: SysView, core: Core) -> bool {
    lock_verified_ok(s.bank, core, MAILBOX_SLOT, MAILBOX_PROCESS)
}

/// Write `value` into the mailbox: acquire the mutex slot under the
/// bounded retry budget, store the word, release.  If the budget is
/// exhausted the peer core is holding the mutex without releasing it; the
/// operation fails fatally with [`HsemError::PeerUnresponsive`] and the
/// mailbox is untouched.
pub fn write_value(sys: &mut SharedSystem, core: Core, value: u32) -> (r: Result<(), HsemError>)
    requires
        old(sys)@.wf(),
    ensures
        final(sys)@.wf(),
        mailbox_available(old(sys)@, core) ==> r == Ok::<(), HsemError>(())
            && final(sys)@ =~= write_post(old(sys)@, core, value),
        !mailbox_available(old(sys)@, core) ==> r == Err::<(), HsemError>(
            HsemError::PeerUnresponsive,
        ) && final(sys)@ == old(sys)@,
{
    match lock_async(&mut sys.bank, core, MAILBOX_SLOT, MAILBOX_PROCESS) {
        Ok(true) => {
            sys.mailbox[VALUE_INDEX] = value;
            let _ = sys.bank.release(core, MAILBOX_SLOT, MAILBOX_PROCESS);
            Ok(())
        },
        Ok(false) => Err(HsemError::PeerUnresponsive),
        Err(e) => Err(e),
    }
}

/// Read the mailbox value: acquire the mutex slot under the bounded retry
/// budget, load the word, release.  Retry exhaustion is reported as
/// [`HsemError::PeerUnresponsive`], exactly as for a write.
pub fn read_value(sys: &mut SharedSystem, core: Core) -> (r: Result<u32, HsemError>)
    requires
        old(sys)@.wf(),
    ensures
        final(sys)@.wf(),
        mailbox_available(old(sys)@, core) ==> r == Ok::<u32, HsemError>(
            old(sys)@.mailbox[VALUE_INDEX as int],
        ) && final(sys)@ =~= read_post(old(sys)@, core),
        !mailbox_available(old(sys)@, core) ==> r == Err::<u32, HsemError>(
            HsemError::PeerUnresponsive,
        ) && final(sys)@ == old(sys)@,
{
    match lock_async(&mut sys.bank, core, MAILBOX_SLOT, MAILBOX_PROCESS) {
        Ok(true) => {
            let value = sys.mailbox[VALUE_INDEX];
            let _ = sys.bank.release(core, MAILBOX_SLOT, MAILBOX_PROCESS);
            Ok(value)
        },
        Ok(false) => Err(HsemError::PeerUnresponsive),
        Err(e) => Err(e),
    }
}

/// Zero the shared memory words before first cross-core use, as the boot
/// sequence guarantees for the region.
pub fn init_shared_memory(sys: &mut SharedSystem)
    requires
        old(sys)@.wf(),
    ensures
        final(sys)@.wf(),
        final(sys)@ =~= (SysView { mailbox: Seq::new(10, |i: int| 0u32), ..old(sys)@ }),
{
    let mut i: usize = 0;
    while i < 10
        invariant
            i <= 10,
            old(sys)@.wf(),
            sys.mailbox@.len() == 10,
            sys.bank@ == old(sys)@.bank,
            sys.d1 == old(sys)@.d1,
            sys.d2 == old(sys)@.d2,
            sys.d3 == old(sys)@.d3,
            sys.sleepdeep_cm7 == old(sys)@.sleepdeep_cm7,
            sys.sleepdeep_cm4 == old(sys)@.sleepdeep_cm4,
            forall|j: int| 0 <= j < i ==> sys.mailbox@[j] == 0u32,
        decreases 10 - i,
    {
        sys.mailbox[i] = 0;
        i = i + 1;
    }
    proof {
        assert(sys@.mailbox =~= Seq::new(10, |j: int| 0u32));
    }
}

} // verus!
