//! The hardware-semaphore (HSEM) bank: 32 independent lock slots, per-core
//! notification enable/pending bits, per-core event latches, and the global
//! clear key, together with the driver and notification operations.
//!
//! The bank is modelled as an owned value.  Every operation's effect is given
//! by a specification-level transition function over [`BankView`]; the
//! executable methods are proved to implement those transitions exactly.

use vstd::prelude::*;

verus! {

/// Errors of the synchronization layer.
///
/// Slot-id validation failures are always returned, never silently handled.
/// A failure to acquire in a polled attempt is recoverable; an exhausted
/// retry budget while waiting for the peer core is not.
#[derive(Clone, Copy, Debug, PartialEq, Eq, Structural)]
pub enum HsemError {
    /// The slot id lies outside the 32 slots the hardware exposes.
    InvalidSlotId,
    /// A polled or bounded acquisition attempt did not succeed.
    AcquisitionFailed,
    /// The bounded retry budget was exhausted while waiting for a mutex
    /// held by the peer core.
    PeerUnresponsive,
}

/// CPU core identity, immutable for the process lifetime.
#[derive(Clone, Copy, Debug, PartialEq, Eq, Hash, Structural)]
pub enum Core {
    /// Cortex-M7, the primary core.
    Cm7,
    /// Cortex-M4, the secondary core.
    Cm4,
}

impl Core {
    /// Identification byte the hardware stores in a slot's owner field.
    pub open spec fn id_spec(self) -> u8 {
        match self {
            Core::Cm7 => 3,
            Core::Cm4 => 1,
        }
    }

    /// Identification byte of this core, as the bulk-release command and the
    /// slot owner field use it.
    pub fn id(self) -> (r: u8)
        ensures
            r == self.id_spec(),
    {
        match self {
            Core::Cm7 => 3,
            Core::Cm4 => 1,
        }
    }
}

/// Hardware-visible state of one semaphore slot.  The triple is only ever
/// mutated by a single atomic register write; a free slot reads back as all
/// zeroes.
#[derive(Clone, Copy, Debug, PartialEq, Eq, Structural)]
pub struct SlotState {
    /// Whether the slot is currently held.
    pub locked: bool,
    /// Identification byte of the owning core; 0 when free.
    pub owner_core: u8,
    /// Process id the owner supplied; 0 when free.
    pub owner_process: u8,
}

/// The state a slot holds after hardware reset or a successful clear.
pub open spec fn free_slot() -> SlotState {
    SlotState { locked: false, owner_core: 0, owner_process: 0 }
}

/// The state a slot holds while `core` owns it under `process_id`.
pub open spec fn owned_slot(core: Core, process_id: u8) -> SlotState {
    SlotState { locked: true, owner_core: core.id_spec(), owner_process: process_id }
}

/// Mathematical view of the whole semaphore bank.
#[verifier::ext_equal]
pub struct BankView {
    /// The 32 lock slots.
    pub slots: Seq<SlotState>,
    /// Per-slot notification enable bits for the Cortex-M7 core.
    pub ier_cm7: Seq<bool>,
    /// Per-slot notification enable bits for the Cortex-M4 core.
    pub ier_cm4: Seq<bool>,
    /// Per-slot pending notification bits for the Cortex-M7 core.
    pub isr_cm7: Seq<bool>,
    /// Per-slot pending notification bits for the Cortex-M4 core.
    pub isr_cm4: Seq<bool>,
    /// Event latch of the Cortex-M7 core (wait-for-event wake source).
    pub event_cm7: bool,
    /// Event latch of the Cortex-M4 core.
    pub event_cm4: bool,
    /// Whether the semaphore interrupt line is unmasked for the Cortex-M7.
    pub unmasked_cm7: bool,
    /// Whether the semaphore interrupt line is unmasked for the Cortex-M4.
    pub unmasked_cm4: bool,
    /// The global clear key the bulk-release command is checked against.
    pub key: u16,
    /// Whether the peripheral clock of the bank is enabled.
    pub clock_on: bool,
}

impl BankView {
    /// Well-formedness: all register files have their hardware width, and a
    /// free slot reads back as all zeroes.
    pub open spec fn wf(self) -> bool {
        &&& self.slots.len() == 32
        &&& self.ier_cm7.len() == 32
        &&& self.ier_cm4.len() == 32
        &&& self.isr_cm7.len() == 32
        &&& self.isr_cm4.len() == 32
        &&& forall|i: int|
            0 <= i < 32 && !self.slots[i].locked ==> self.slots[i] == free_slot()
    }

    /// Notification enable bits of `core`.
    pub open spec fn ier(self, core: Core) -> Seq<bool> {
        match core {
            Core::Cm7 => self.ier_cm7,
            Core::Cm4 => self.ier_cm4,
        }
    }

    /// Pending notification bits of `core`.
    pub open spec fn isr(self, core: Core) -> Seq<bool> {
        match core {
            Core::Cm7 => self.isr_cm7,
            Core::Cm4 => self.isr_cm4,
        }
    }

    /// Event latch of `core`.
    pub open spec fn event(self, core: Core) -> bool {
        match core {
            Core::Cm7 => self.event_cm7,
            Core::Cm4 => self.event_cm4,
        }
    }

    /// Whether the semaphore interrupt line of `core` is unmasked.
    pub open spec fn unmasked(self, core: Core) -> bool {
        match core {
            Core::Cm7 => self.unmasked_cm7,
            Core::Cm4 => self.unmasked_cm4,
        }
    }

    /// The bank after hardware reset: everything free and clear.
    pub open spec fn reset() -> BankView {
        BankView {
            slots: Seq::new(32, |i: int| free_slot()),
            ier_cm7: Seq::new(32, |i: int| false),
            ier_cm4: Seq::new(32, |i: int| false),
            isr_cm7: Seq::new(32, |i: int| false),
            isr_cm4: Seq::new(32, |i: int| false),
            event_cm7: false,
            event_cm4: false,
            unmasked_cm7: false,
            unmasked_cm4: false,
            key: 0,
            clock_on: false,
        }
    }
}

/// Whether a slot id addresses one of the 32 hardware slots.
pub open spec fn valid_slot(sem_id: u8) -> bool {
    sem_id <= 31
}

/// Effect of the one-register lock write: the write is accepted only if the
/// slot was free at the instant of the write; otherwise the hardware ignores
/// it and the slot keeps its owner.
pub open spec fn take_post(b: BankView, core: Core, sem_id: u8, process_id: u8) -> BankView {
    if b.slots[sem_id as int].locked {
        b
    } else {
        BankView { slots: b.slots.update(sem_id as int, owned_slot(core, process_id)), ..b }
    }
}

/// Result of the verified lock: the lock write followed by a readback that
/// must show the caller's own core and process id.
pub open spec fn lock_verified_ok(b: BankView, core: Core, sem_id: u8, process_id: u8) -> bool {
    take_post(b, core, sem_id, process_id).slots[sem_id as int] == owned_slot(core, process_id)
}

/// Whether the one-step (read-lock) acquisition of `sem_id` succeeds on
/// bank `b`: the read locks the slot, under process id 0, exactly if the
/// slot was free.
pub open spec fn fast_take_ok(b: BankView, sem_id: u8) -> bool {
    !b.slots[sem_id as int].locked
}

/// Notification fan-out of freeing `sem_id`: each core whose enable bit for
/// the slot is set gets its pending bit set and its event latch asserted.
pub open spec fn notify_release(b: BankView, sem_id: u8) -> BankView {
    BankView {
        isr_cm7: if b.ier_cm7[sem_id as int] {
            b.isr_cm7.update(sem_id as int, true)
        } else {
            b.isr_cm7
        },
        isr_cm4: if b.ier_cm4[sem_id as int] {
            b.isr_cm4.update(sem_id as int, true)
        } else {
            b.isr_cm4
        },
        event_cm7: b.event_cm7 || b.ier_cm7[sem_id as int],
        event_cm4: b.event_cm4 || b.ier_cm4[sem_id as int],
        ..b
    }
}

/// Effect of the unlock write: the clear takes effect only if the written
/// core and process fields match the current owner; a non-owner's attempt
/// is silently ignored by the hardware.  An accepted clear notifies every
/// core whose enable bit for the slot is set.
pub open spec fn release_post(b: BankView, core: Core, sem_id: u8, process_id: u8) -> BankView {
    if b.slots[sem_id as int] == owned_slot(core, process_id) {
        notify_release(
            BankView { slots: b.slots.update(sem_id as int, free_slot()), ..b },
            sem_id,
        )
    } else {
        b
    }
}

/// Whether the bulk-release command issued for `core_id` frees slot `i` of
/// bank `b`: the slot is held and its owner field carries `core_id`,
/// regardless of the owner process.
pub open spec fn slot_freed_by(b: BankView, core_id: u8, i: int) -> bool {
    b.slots[i].locked && b.slots[i].owner_core == core_id
}

/// Effect of the bulk-release command: if the written key matches the
/// configured clear key, every slot owned by `core_id` is freed — with the
/// same notification fan-out as a single unlock — and every other slot is
/// untouched.  A mismatched key does nothing.
pub open spec fn release_all_post(b: BankView, key: u16, core_id: u8) -> BankView {
    if key == b.key {
        BankView {
            slots: Seq::new(
                32,
                |i: int| if slot_freed_by(b, core_id, i) {
                    free_slot()
                } else {
                    b.slots[i]
                },
            ),
            isr_cm7: Seq::new(
                32,
                |i: int| b.isr_cm7[i] || (slot_freed_by(b, core_id, i) && b.ier_cm7[i]),
            ),
            isr_cm4: Seq::new(
                32,
                |i: int| b.isr_cm4[i] || (slot_freed_by(b, core_id, i) && b.ier_cm4[i]),
            ),
            event_cm7: b.event_cm7 || exists|i: int|
                0 <= i < 32 && slot_freed_by(b, core_id, i) && b.ier_cm7[i],
            event_cm4: b.event_cm4 || exists|i: int|
                0 <= i < 32 && slot_freed_by(b, core_id, i) && b.ier_cm4[i],
            ..b
        }
    } else {
        b
    }
}

/// Effect of toggling the notification enable bit of `core` for one slot.
pub open spec fn enable_post(b: BankView, core: Core, sem_x: int, enable: bool) -> BankView {
    match core {
        Core::Cm7 => BankView { ier_cm7: b.ier_cm7.update(sem_x, enable), ..b },
        Core::Cm4 => BankView { ier_cm4: b.ier_cm4.update(sem_x, enable), ..b },
    }
}

/// Effect of clearing the pending notification bit of `core` for one slot,
/// as the interrupt handler must do before returning.
pub open spec fn clear_post(b: BankView, core: Core, sem_x: int) -> BankView {
    match core {
        Core::Cm7 => BankView { isr_cm7: b.isr_cm7.update(sem_x, false), ..b },
        Core::Cm4 => BankView { isr_cm4: b.isr_cm4.update(sem_x, false), ..b },
    }
}

/// Effect of draining the event latch of `core`: a self-signal followed by
/// a consuming wait, leaving the latch clear whatever it held before.
pub open spec fn drain_post(b: BankView, core: Core) -> BankView {
    match core {
        Core::Cm7 => BankView { event_cm7: false, ..b },
        Core::Cm4 => BankView { event_cm4: false, ..b },
    }
}

/// Effect of unmasking the semaphore interrupt line of `core` at the
/// interrupt controller.
pub open spec fn unmask_post(b: BankView, core: Core) -> BankView {
    match core {
        Core::Cm7 => BankView { unmasked_cm7: true, ..b },
        Core::Cm4 => BankView { unmasked_cm4: true, ..b },
    }
}

/// The owned handle over the semaphore bank registers.  All state lives in
/// the handle; the driver operations hold no buffering and no retries.
pub struct HsemBank {
    /// The 32 lock slots.
    pub slots: Vec<SlotState>,
    /// Notification enable bits of the Cortex-M7 core.
    pub ier_cm7: Vec<bool>,
    /// Notification enable bits of the Cortex-M4 core.
    pub ier_cm4: Vec<bool>,
    /// Pending notification bits of the Cortex-M7 core.
    pub isr_cm7: Vec<bool>,
    /// Pending notification bits of the Cortex-M4 core.
    pub isr_cm4: Vec<bool>,
    /// Event latch of the Cortex-M7 core.
    pub event_cm7: bool,
    /// Event latch of the Cortex-M4 core.
    pub event_cm4: bool,
    /// Whether the semaphore interrupt line is unmasked for the Cortex-M7.
    pub unmasked_cm7: bool,
    /// Whether the semaphore interrupt line is unmasked for the Cortex-M4.
    pub unmasked_cm4: bool,
    /// The global clear key.
    pub key: u16,
    /// Whether the peripheral clock of the bank is enabled.
    pub clock_on: bool,
}

impl View for HsemBank {
    type V = BankView;

    open spec fn view(&self) -> BankView {
        BankView {
            slots: self.slots@,
            ier_cm7: self.ier_cm7@,
            ier_cm4: self.ier_cm4@,
            isr_cm7: self.isr_cm7@,
            isr_cm4: self.isr_cm4@,
            event_cm7: self.event_cm7,
            event_cm4: self.event_cm4,
            unmasked_cm7: self.unmasked_cm7,
            unmasked_cm4: self.unmasked_cm4,
            key: self.key,
            clock_on: self.clock_on,
        }
    }
}

impl HsemBank {
    /// A bank in its hardware-reset state: every slot free, every
    /// notification bit clear, no event latched, the clear key zero.
    pub fn new() -> (bank: HsemBank)
        ensures
            bank@.wf(),
            bank@ =~= BankView::reset(),
    {
        let mut slots: Vec<SlotState> = Vec::new();
        let mut ier_cm7: Vec<bool> = Vec::new();
        let mut ier_cm4: Vec<bool> = Vec::new();
        let mut isr_cm7: Vec<bool> = Vec::new();
        let mut isr_cm4: Vec<bool> = Vec::new();
        let mut i: usize = 0;
        while i < 32
            invariant
                i <= 32,
                slots@ =~= Seq::new(i as nat, |j: int| free_slot()),
                ier_cm7@ =~= Seq::new(i as nat, |j: int| false),
                ier_cm4@ =~= Seq::new(i as nat, |j: int| false),
                isr_cm7@ =~= Seq::new(i as nat, |j: int| false),
                isr_cm4@ =~= Seq::new(i as nat, |j: int| false),
            decreases 32 - i,
        {
            slots.push(SlotState { locked: false, owner_core: 0, owner_process: 0 });
            ier_cm7.push(false);
            ier_cm4.push(false);
            isr_cm7.push(false);
            isr_cm4.push(false);
            i = i + 1;
        }
        HsemBank {
            slots,
            ier_cm7,
            ier_cm4,
            isr_cm7,
            isr_cm4,
            event_cm7: false,
            event_cm4: false,
            unmasked_cm7: false,
            unmasked_cm4: false,
            key: 0,
            clock_on: false,
        }
    }
}

/// The driver interface over the semaphore slots: atomic, allocation-free
/// operations that complete in one or two register accesses.  The calling
/// core's identity is passed in explicitly; the surrounding runtime obtains
/// it once from its identification register.
pub trait Hsem {
    /// The bank state this handle exposes.
    spec fn bank(&self) -> BankView;

    /// The unconditional lock write.  The hardware accepts it only if the
    /// slot was free at the instant of the write; otherwise the write is
    /// silently ignored.  There is no direct success signal: callers that
    /// need certainty must use the verified lock instead.
    fn take(&mut self, core: Core, sem_id: u8, process_id: u8) -> (r: Result<(), HsemError>)
        requires
            old(self).bank().wf(),
        ensures
            final(self).bank().wf(),
            !valid_slot(sem_id) ==> r == Err::<(), HsemError>(HsemError::InvalidSlotId)
                && final(self).bank() == old(self).bank(),
            valid_slot(sem_id) ==> r == Ok::<(), HsemError>(())
                && final(self).bank() =~= take_post(old(self).bank(), core, sem_id, process_id),
    ;

    /// The one-step lock: a single read that locks the slot under process
    /// id 0 exactly if it was free, and reports whether it did.
    fn fast_take(&mut self, core: Core, sem_id: u8) -> (r: Result<(), HsemError>)
        requires
            old(self).bank().wf(),
        ensures
            final(self).bank().wf(),
            !valid_slot(sem_id) ==> r == Err::<(), HsemError>(HsemError::InvalidSlotId)
                && final(self).bank() == old(self).bank(),
            valid_slot(sem_id) ==> {
                &&& final(self).bank() =~= take_post(old(self).bank(), core, sem_id, 0)
                &&& fast_take_ok(old(self).bank(), sem_id)
                    ==> r == Ok::<(), HsemError>(())
                &&& !fast_take_ok(old(self).bank(), sem_id)
                    ==> r == Err::<(), HsemError>(HsemError::AcquisitionFailed)
                        && final(self).bank() == old(self).bank()
            },
    ;

    /// The general-purpose, safe acquisition primitive: the unconditional
    /// lock write followed immediately by a readback.  It returns true
    /// exactly if the read-back owner fields are the caller's own.
    fn lock_verified(&mut self, core: Core, sem_id: u8, process_id: u8) -> (r: Result<
        bool,
        HsemError,
    >)
        requires
            old(self).bank().wf(),
        ensures
            final(self).bank().wf(),
            !valid_slot(sem_id) ==> r == Err::<bool, HsemError>(HsemError::InvalidSlotId)
                && final(self).bank() == old(self).bank(),
            valid_slot(sem_id) ==> {
                &&& r == Ok::<bool, HsemError>(
                    lock_verified_ok(old(self).bank(), core, sem_id, process_id),
                )
                &&& final(self).bank() =~= take_post(old(self).bank(), core, sem_id, process_id)
            },
    ;

    /// The unlock write.  The hardware enforces that the clear only takes
    /// effect if the written core and process fields match the current
    /// owner; a non-owner's attempt is silently ignored.
    fn release(&mut self, core: Core, sem_id: u8, process_id: u8) -> (r: Result<(), HsemError>)
        requires
            old(self).bank().wf(),
        ensures
            final(self).bank().wf(),
            !valid_slot(sem_id) ==> r == Err::<(), HsemError>(HsemError::InvalidSlotId)
                && final(self).bank() == old(self).bank(),
            valid_slot(sem_id) ==> r == Ok::<(), HsemError>(())
                && final(self).bank() =~= release_post(old(self).bank(), core, sem_id, process_id),
    ;

    /// The bulk-clear command, tagged with `key` and scoped to `core_id`.
    /// Intended for recovery from a core that crashed while holding locks.
    fn release_all(&mut self, key: u16, core_id: u8)
        requires
            old(self).bank().wf(),
        ensures
            final(self).bank().wf(),
            final(self).bank() =~= release_all_post(old(self).bank(), key, core_id),
    ;

    /// Read-only query of a slot's locked state; never acquires.
    fn is_semaphore_taken(&self, sem_id: u8) -> (r: Result<bool, HsemError>)
        requires
            self.bank().wf(),
        ensures
            !valid_slot(sem_id) ==> r == Err::<bool, HsemError>(HsemError::InvalidSlotId),
            valid_slot(sem_id) ==> r == Ok::<bool, HsemError>(
                self.bank().slots[sem_id as int].locked,
            ),
    ;

    /// Configure the global clear key that bulk release is checked against.
    fn set_clear_key(&mut self, key: u16)
        requires
            old(self).bank().wf(),
        ensures
            final(self).bank().wf(),
            final(self).bank() =~= (BankView { key, ..old(self).bank() }),
    ;

    /// Read the configured clear key.
    fn get_clear_key(&self) -> (r: u16)
        ensures
            r == self.bank().key,
    ;
}

impl Hsem for HsemBank {
    open spec fn bank(&self) -> BankView {
        self@
    }

    fn take(&mut self, core: Core, sem_id: u8, process_id: u8) -> (r: Result<(), HsemError>) {
        if sem_id > 31 {
            Err(HsemError::InvalidSlotId)
        } else {
            let slot = self.slots[sem_id as usize];
            if !slot.locked {
                self.slots[sem_id as usize] = SlotState {
                    locked: true,
                    owner_core: core.id(),
                    owner_process: process_id,
                };
            }
            Ok(())
        }
    }

    fn fast_take(&mut self, core: Core, sem_id: u8) -> (r: Result<(), HsemError>) {
        if sem_id > 31 {
            Err(HsemError::InvalidSlotId)
        } else {
            let slot = self.slots[sem_id as usize];
            if !slot.locked {
                self.slots[sem_id as usize] = SlotState {
                    locked: true,
                    owner_core: core.id(),
                    owner_process: 0,
                };
                Ok(())
            } else {
                Err(HsemError::AcquisitionFailed)
            }
        }
    }

    fn lock_verified(&mut self, core: Core, sem_id: u8, process_id: u8) -> (r: Result<
        bool,
        HsemError,
    >) {
        match self.take(core, sem_id, process_id) {
            Err(e) => Err(e),
            Ok(()) => {
                let slot = self.slots[sem_id as usize];
                let id = core.id();
                Ok(slot.locked && slot.owner_core == id && slot.owner_process == process_id)
            },
        }
    }

    fn release(&mut self, core: Core, sem_id: u8, process_id: u8) -> (r: Result<(), HsemError>) {
        if sem_id > 31 {
            Err(HsemError::InvalidSlotId)
        } else {
            let slot = self.slots[sem_id as usize];
            let id = core.id();
            if slot.locked && slot.owner_core == id && slot.owner_process == process_id {
                self.slots[sem_id as usize] = SlotState {
                    locked: false,
                    owner_core: 0,
                    owner_process: 0,
                };
                if self.ier_cm7[sem_id as usize] {
                    self.isr_cm7[sem_id as usize] = true;
                    self.event_cm7 = true;
                }
                if self.ier_cm4[sem_id as usize] {
                    self.isr_cm4[sem_id as usize] = true;
                    self.event_cm4 = true;
                }
            }
            Ok(())
        }
    }

    fn release_all(&mut self, key: u16, core_id: u8) {
        if key != self.key {
            return;
        }
        let mut i: usize = 0;
        while i < 32
            invariant
                i <= 32,
                old(self).bank().wf(),
                key == old(self)@.key,
                self.slots@.len() == 32,
                self.isr_cm7@.len() == 32,
                self.isr_cm4@.len() == 32,
                self.ier_cm7@ == old(self)@.ier_cm7,
                self.ier_cm4@ == old(self)@.ier_cm4,
                self.unmasked_cm7 == old(self)@.unmasked_cm7,
                self.unmasked_cm4 == old(self)@.unmasked_cm4,
                self.key == old(self)@.key,
                self.clock_on == old(self)@.clock_on,
                forall|j: int| 0 <= j < i ==> self.slots@[j] == (
                    if slot_freed_by(old(self)@, core_id, j) {
                        free_slot()
                    } else {
                        old(self)@.slots[j]
                    }
                ),
                forall|j: int| i <= j < 32 ==> self.slots@[j] == old(self)@.slots[j],
                forall|j: int| 0 <= j < i ==> self.isr_cm7@[j] == (
                    old(self)@.isr_cm7[j]
                        || (slot_freed_by(old(self)@, core_id, j) && old(self)@.ier_cm7[j])
                ),
                forall|j: int| i <= j < 32 ==> self.isr_cm7@[j] == old(self)@.isr_cm7[j],
                forall|j: int| 0 <= j < i ==> self.isr_cm4@[j] == (
                    old(self)@.isr_cm4[j]
                        || (slot_freed_by(old(self)@, core_id, j) && old(self)@.ier_cm4[j])
                ),
                forall|j: int| i <= j < 32 ==> self.isr_cm4@[j] == old(self)@.isr_cm4[j],
                self.event_cm7 == (old(self)@.event_cm7 || exists|j: int|
                    0 <= j < i && slot_freed_by(old(self)@, core_id, j) && old(self)@.ier_cm7[j]),
                self.event_cm4 == (old(self)@.event_cm4 || exists|j: int|
                    0 <= j < i && slot_freed_by(old(self)@, core_id, j) && old(self)@.ier_cm4[j]),
            decreases 32 - i,
        {
            let slot = self.slots[i];
            if slot.locked && slot.owner_core == core_id {
                self.slots[i] = SlotState { locked: false, owner_core: 0, owner_process: 0 };
                if self.ier_cm7[i] {
                    self.isr_cm7[i] = true;
                    self.event_cm7 = true;
                }
                if self.ier_cm4[i] {
                    self.isr_cm4[i] = true;
                    self.event_cm4 = true;
                }
            }
            i = i + 1;
        }
        proof {
            assert(self@ =~= release_all_post(old(self)@, key, core_id));
        }
    }

    fn is_semaphore_taken(&self, sem_id: u8) -> (r: Result<bool, HsemError>) {
        if sem_id > 31 {
            Err(HsemError::InvalidSlotId)
        } else {
            Ok(self.slots[sem_id as usize].locked)
        }
    }

    fn set_clear_key(&mut self, key: u16) {
        self.key = key;
    }

    fn get_clear_key(&self) -> (r: u16) {
        self.key
    }
}

/// Per-semaphore, per-core notification control: one enable bit and one
/// pending bit for each (core, slot) pair, held in the bank's interrupt
/// enable and clear registers.
pub trait HsemNotify: Hsem {
    /// Toggle the notification enable bit of `core_id` for slot `sem_x`.
    fn enable_interrupt(&mut self, core_id: Core, sem_x: usize, enable: bool) -> (r: Result<
        (),
        HsemError,
    >)
        requires
            old(self).bank().wf(),
        ensures
            final(self).bank().wf(),
            sem_x >= 32 ==> r == Err::<(), HsemError>(HsemError::InvalidSlotId)
                && final(self).bank() == old(self).bank(),
            sem_x < 32 ==> r == Ok::<(), HsemError>(())
                && final(self).bank() =~= enable_post(old(self).bank(), core_id, sem_x as int, enable),
    ;

    /// Clear the pending notification bit of `core_id` for slot `sem_x`.
    /// The interrupt handler must do this before returning, or the
    /// interrupt re-fires immediately.
    fn clear_interrupt(&mut self, core_id: Core, sem_x: usize) -> (r: Result<(), HsemError>)
        requires
            old(self).bank().wf(),
        ensures
            final(self).bank().wf(),
            sem_x >= 32 ==> r == Err::<(), HsemError>(HsemError::InvalidSlotId)
                && final(self).bank() == old(self).bank(),
            sem_x < 32 ==> r == Ok::<(), HsemError>(())
                && final(self).bank() =~= clear_post(old(self).bank(), core_id, sem_x as int),
    ;
}

impl HsemNotify for HsemBank {
    fn enable_interrupt(&mut self, core_id: Core, sem_x: usize, enable: bool) -> (r: Result<
        (),
        HsemError,
    >) {
        if sem_x >= 32 {
            Err(HsemError::InvalidSlotId)
        } else {
            match core_id {
                Core::Cm7 => {
                    self.ier_cm7[sem_x] = enable;
                },
                Core::Cm4 => {
                    self.ier_cm4[sem_x] = enable;
                },
            }
            Ok(())
        }
    }

    fn clear_interrupt(&mut self, core_id: Core, sem_x: usize) -> (r: Result<(), HsemError>) {
        if sem_x >= 32 {
            Err(HsemError::InvalidSlotId)
        } else {
            match core_id {
                Core::Cm7 => {
                    self.isr_cm7[sem_x] = false;
                },
                Core::Cm4 => {
                    self.isr_cm4[sem_x] = false;
                },
            }
            Ok(())
        }
    }
}

/// Whether the cooperative wait of `core` on `sem_id` completes now: the
/// slot has become free and the armed notification has fired.
pub open spec fn wait_complete_result(b: BankView, core: Core, sem_id: u8) -> bool {
    !b.slots[sem_id as int].locked && b.isr(core)[sem_id as int]
}

/// One resume check of the cooperative wait on a slot.  A task that wants
/// to suspend until the slot is free arms the notification and parks; the
/// interrupt resumes it.  This is the resume edge: it reports completion
/// when the slot is free and the notification has fired, and clears the
/// pending bit on the way out, as the interrupt handler must before
/// returning.  The suspension between checks belongs to the runtime; no
/// timeout or cancellation is supported here.
pub fn wait_until_unlocked(bank: &mut HsemBank, core: Core, sem_id: u8) -> (r: Result<
    bool,
    HsemError,
>)
    requires
        old(bank)@.wf(),
    ensures
        final(bank)@.wf(),
        !valid_slot(sem_id) ==> r == Err::<bool, HsemError>(HsemError::InvalidSlotId)
            && final(bank)@ == old(bank)@,
        valid_slot(sem_id) ==> {
            &&& r == Ok::<bool, HsemError>(wait_complete_result(old(bank)@, core, sem_id))
            &&& wait_complete_result(old(bank)@, core, sem_id) ==> final(bank)@ =~= clear_post(
                old(bank)@,
                core,
                sem_id as int,
            )
            &&& !wait_complete_result(old(bank)@, core, sem_id) ==> final(bank)@ == old(bank)@
        },
{
    if sem_id > 31 {
        return Err(HsemError::InvalidSlotId);
    }
    let locked = bank.slots[sem_id as usize].locked;
    let pending = match core {
        Core::Cm7 => bank.isr_cm7[sem_id as usize],
        Core::Cm4 => bank.isr_cm4[sem_id as usize],
    };
    if !locked && pending {
        match core {
            Core::Cm7 => {
                bank.isr_cm7[sem_id as usize] = false;
            },
            Core::Cm4 => {
                bank.isr_cm4[sem_id as usize] = false;
            },
        }
        Ok(true)
    } else {
        Ok(false)
    }
}

/// Enable the peripheral clock of the semaphore bank.  Must run on each
/// core before that core touches the bank.
pub fn enable_hsem_clock(bank: &mut HsemBank)
    requires
        old(bank)@.wf(),
    ensures
        final(bank)@.wf(),
        final(bank)@ =~= (BankView { clock_on: true, ..old(bank)@ }),
{
    bank.clock_on = true;
}

/// Unmask the semaphore interrupt line of `core` at its interrupt
/// controller, so a pending notification can complete a wait-for-interrupt
/// sleep.
pub fn unmask_interrupt(bank: &mut HsemBank, core: Core)
    requires
        old(bank)@.wf(),
    ensures
        final(bank)@.wf(),
        final(bank)@ =~= unmask_post(old(bank)@, core),
{
    match core {
        Core::Cm7 => {
            bank.unmasked_cm7 = true;
        },
        Core::Cm4 => {
            bank.unmasked_cm4 = true;
        },
    }
}

} // verus!
