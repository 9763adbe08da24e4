//! The power-domain stop/wake state machine.
//!
//! Each power domain is owned by exactly one core; only the owner's request
//! to sleep it is honored.  Entering deep sleep follows the event-latch
//! idiom: drain any stale event, arm the wake source, then wait — an event
//! asserted at any point after the drain, including before the wait
//! instruction executes, is not lost.  Because the wait itself suspends the
//! whole core, it is split here into the entry step ([`enter_stop_mode`])
//! and the resume step ([`poll_wake`]); the surrounding runtime performs the
//! actual wait between the two.

use vstd::prelude::*;

use crate::hsem::{BankView, Core, HsemBank, drain_post};

verus! {

/// An independently sleep-controllable region of the chip.
#[derive(Clone, Copy, Debug, PartialEq, Eq, Structural)]
pub enum PwrDomain {
    D1,
    D2,
    D3,
}

/// Regulator state used while in stop mode.
#[derive(Clone, Copy, Debug, PartialEq, Eq, Structural)]
pub enum PwrRegulator {
    /// Stop mode with the main regulator on.
    MainRegulator,
    /// Stop mode with the regulator in low power mode.
    LowPowerRegulator,
}

/// Which wait instruction enters stop mode.
#[derive(Clone, Copy, Debug, PartialEq, Eq, Structural)]
pub enum StopMode {
    /// Enter stop mode with a wait-for-interrupt instruction.
    StopEntryWfi,
    /// Enter stop mode with a wait-for-event instruction.
    StopEntryWfe,
}

/// State of one power domain's sleep cycle.  `Requesting` only ever exists
/// transiently inside the entry call; the stored state a peer can observe
/// is `Awake` or `Asleep`.
#[derive(Clone, Copy, Debug, PartialEq, Eq, Structural)]
pub enum DomainState {
    /// The domain runs normally.
    Awake,
    /// The owning core has begun the entry sequence.
    Requesting,
    /// The domain is in deep sleep, entered with the recorded wait mode.
    Asleep(StopMode),
}

/// Outcome of a stop-mode entry request.
#[derive(Clone, Copy, Debug, PartialEq, Eq, Structural)]
pub enum StopOutcome {
    /// The calling core does not own the domain; nothing happened.
    NotOwner,
    /// The core is suspended in deep sleep until its wake source fires.
    Suspended,
    /// A wake source was already latched, so the wait fell through at once.
    ImmediateWake,
}

/// The core that owns each domain for the purpose of entering and leaving
/// deep sleep.
pub open spec fn domain_owner(domain: PwrDomain) -> Core {
    match domain {
        PwrDomain::D1 => Core::Cm7,
        PwrDomain::D2 => Core::Cm4,
        PwrDomain::D3 => Core::Cm7,
    }
}

/// Executable owner lookup.
pub fn owner_of(domain: PwrDomain) -> (c: Core)
    ensures
        c == domain_owner(domain),
{
    match domain {
        PwrDomain::D1 => Core::Cm7,
        PwrDomain::D2 => Core::Cm4,
        PwrDomain::D3 => Core::Cm7,
    }
}

/// Whether the semaphore interrupt line of `core` is asserted: some slot
/// has its pending bit set while still enabled for that core.
pub open spec fn line_asserted(b: BankView, core: Core) -> bool {
    exists|i: int| 0 <= i < 32 && b.isr(core)[i] && b.ier(core)[i]
}

/// Whether the wait instruction of `mode` completes at once for `core`: a
/// wait-for-event completes on a latched event, a wait-for-interrupt on a
/// pending, unmasked interrupt line.
pub open spec fn wake_ready(b: BankView, core: Core, mode: StopMode) -> bool {
    match mode {
        StopMode::StopEntryWfe => b.event(core),
        StopMode::StopEntryWfi => b.unmasked(core) && line_asserted(b, core),
    }
}

/// What completing the wait consumes: a wait-for-event consumes the event
/// latch; a wait-for-interrupt leaves the pending bit for the handler.
pub open spec fn consume_wake(b: BankView, core: Core, mode: StopMode) -> BankView {
    match mode {
        StopMode::StopEntryWfe => drain_post(b, core),
        StopMode::StopEntryWfi => b,
    }
}

/// Mathematical view of the whole shared system: the semaphore bank, the
/// mailbox words in shared memory, and the per-domain and per-core power
/// state.
#[verifier::ext_equal]
pub struct SysView {
    /// The semaphore bank.
    pub bank: BankView,
    /// The mailbox words in the shared memory region.
    pub mailbox: Seq<u32>,
    /// Sleep state of domain one.
    pub d1: DomainState,
    /// Sleep state of domain two.
    pub d2: DomainState,
    /// Sleep state of domain three.
    pub d3: DomainState,
    /// Deep-sleep flag of the Cortex-M7 core.
    pub sleepdeep_cm7: bool,
    /// Deep-sleep flag of the Cortex-M4 core.
    pub sleepdeep_cm4: bool,
}

impl SysView {
    /// Well-formedness: the bank is well formed and the mailbox has its
    /// fixed length.
    pub open spec fn wf(self) -> bool {
        &&& self.bank.wf()
        &&& self.mailbox.len() == 10
    }

    /// Sleep state of `domain`.
    pub open spec fn domain(self, domain: PwrDomain) -> DomainState {
        match domain {
            PwrDomain::D1 => self.d1,
            PwrDomain::D2 => self.d2,
            PwrDomain::D3 => self.d3,
        }
    }

    /// Deep-sleep flag of `core`.
    pub open spec fn sleepdeep(self, core: Core) -> bool {
        match core {
            Core::Cm7 => self.sleepdeep_cm7,
            Core::Cm4 => self.sleepdeep_cm4,
        }
    }
}

/// `s` with the state of `domain` replaced.
pub open spec fn set_domain(s: SysView, domain: PwrDomain, v: DomainState) -> SysView {
    match domain {
        PwrDomain::D1 => SysView { d1: v, ..s },
        PwrDomain::D2 => SysView { d2: v, ..s },
        PwrDomain::D3 => SysView { d3: v, ..s },
    }
}

/// `s` with the deep-sleep flag of `core` replaced.
pub open spec fn set_sleepdeep(s: SysView, core: Core, v: bool) -> SysView {
    match core {
        Core::Cm7 => SysView { sleepdeep_cm7: v, ..s },
        Core::Cm4 => SysView { sleepdeep_cm4: v, ..s },
    }
}

/// Outcome of a stop-mode entry request on system `s`.
pub open spec fn stop_entry_result(
    s: SysView,
    mode: StopMode,
    domain: PwrDomain,
    core: Core,
) -> StopOutcome {
    if core != domain_owner(domain) {
        StopOutcome::NotOwner
    } else if wake_ready(s.bank, core, mode) {
        StopOutcome::ImmediateWake
    } else {
        StopOutcome::Suspended
    }
}

/// System state after a stop-mode entry request: a non-owner's request is
/// a no-op; an owner either falls through the wait at once (consuming the
/// latched event) or is left asleep with its deep-sleep flag set.
pub open spec fn stop_entry_post(
    s: SysView,
    mode: StopMode,
    domain: PwrDomain,
    core: Core,
) -> SysView {
    if core != domain_owner(domain) {
        s
    } else if wake_ready(s.bank, core, mode) {
        set_sleepdeep(
            set_domain(SysView { bank: consume_wake(s.bank, core, mode), ..s }, domain,
                DomainState::Awake),
            core,
            false,
        )
    } else {
        set_sleepdeep(set_domain(s, domain, DomainState::Asleep(mode)), core, true)
    }
}

/// Whether a resume attempt on `domain` by `core` succeeds on system `s`:
/// the domain is asleep, the caller owns it, and its recorded wait mode's
/// wake source is asserted.
pub open spec fn poll_wake_result(s: SysView, domain: PwrDomain, core: Core) -> bool {
    core == domain_owner(domain) && match s.domain(domain) {
        DomainState::Asleep(mode) => wake_ready(s.bank, core, mode),
        _ => false,
    }
}

/// System state after a resume attempt: on success the wait completes —
/// its wake source is consumed, the deep-sleep flag cleared and the domain
/// awake; otherwise nothing changes.
pub open spec fn poll_wake_post(s: SysView, domain: PwrDomain, core: Core) -> SysView {
    if poll_wake_result(s, domain, core) {
        match s.domain(domain) {
            DomainState::Asleep(mode) => set_sleepdeep(
                set_domain(SysView { bank: consume_wake(s.bank, core, mode), ..s }, domain,
                    DomainState::Awake),
                core,
                false,
            ),
            _ => s,
        }
    } else {
        s
    }
}

/// The single owned handle over all shared hardware: the semaphore bank,
/// the mailbox words, and the power-domain state.
pub struct SharedSystem {
    /// The semaphore bank.
    pub bank: HsemBank,
    /// The mailbox words in the shared memory region.
    pub mailbox: Vec<u32>,
    /// Sleep state of domain one.
    pub d1: DomainState,
    /// Sleep state of domain two.
    pub d2: DomainState,
    /// Sleep state of domain three.
    pub d3: DomainState,
    /// Deep-sleep flag of the Cortex-M7 core.
    pub sleepdeep_cm7: bool,
    /// Deep-sleep flag of the Cortex-M4 core.
    pub sleepdeep_cm4: bool,
}

impl View for SharedSystem {
    type V = SysView;

    open spec fn view(&self) -> SysView {
        SysView {
            bank: self.bank@,
            mailbox: self.mailbox@,
            d1: self.d1,
            d2: self.d2,
            d3: self.d3,
            sleepdeep_cm7: self.sleepdeep_cm7,
            sleepdeep_cm4: self.sleepdeep_cm4,
        }
    }
}

impl SharedSystem {
    /// The system at reset: bank reset, mailbox zeroed, every domain awake.
    pub fn new() -> (sys: SharedSystem)
        ensures
            sys@.wf(),
            sys@.bank =~= BankView::reset(),
            sys@.mailbox =~= Seq::new(10, |i: int| 0u32),
            sys@.d1 == DomainState::Awake,
            sys@.d2 == DomainState::Awake,
            sys@.d3 == DomainState::Awake,
            !sys@.sleepdeep_cm7,
            !sys@.sleepdeep_cm4,
    {
        let mut mailbox: Vec<u32> = Vec::new();
        let mut i: usize = 0;
        while i < 10
            invariant
                i <= 10,
                mailbox@ =~= Seq::new(i as nat, |j: int| 0u32),
            decreases 10 - i,
        {
            mailbox.push(0);
            i = i + 1;
        }
        SharedSystem {
            bank: HsemBank::new(),
            mailbox,
            d1: DomainState::Awake,
            d2: DomainState::Awake,
            d3: DomainState::Awake,
            sleepdeep_cm7: false,
            sleepdeep_cm4: false,
        }
    }

    /// Executable read of a domain's sleep state.
    pub fn domain_state(&self, domain: PwrDomain) -> (r: DomainState)
        ensures
            r == self@.domain(domain),
    {
        match domain {
            PwrDomain::D1 => self.d1,
            PwrDomain::D2 => self.d2,
            PwrDomain::D3 => self.d3,
        }
    }

    fn set_domain_state(&mut self, domain: PwrDomain, v: DomainState)
        ensures
            final(self)@ =~= set_domain(old(self)@, domain, v),
    {
        match domain {
            PwrDomain::D1 => {
                self.d1 = v;
            },
            PwrDomain::D2 => {
                self.d2 = v;
            },
            PwrDomain::D3 => {
                self.d3 = v;
            },
        }
    }

    fn set_sleepdeep_flag(&mut self, core: Core, v: bool)
        ensures
            final(self)@ =~= set_sleepdeep(old(self)@, core, v),
    {
        match core {
            Core::Cm7 => {
                self.sleepdeep_cm7 = v;
            },
            Core::Cm4 => {
                self.sleepdeep_cm4 = v;
            },
        }
    }
}

/// Executable check of [`line_asserted`].
fn line_asserted_now(bank: &HsemBank, core: Core) -> (r: bool)
    requires
        bank@.wf(),
    ensures
        r == line_asserted(bank@, core),
{
    let mut i: usize = 0;
    let mut found = false;
    while i < 32
        invariant
            i <= 32,
            bank@.wf(),
            found == exists|j: int| 0 <= j < i && bank@.isr(core)[j] && bank@.ier(core)[j],
        decreases 32 - i,
    {
        let pending = match core {
            Core::Cm7 => bank.isr_cm7[i],
            Core::Cm4 => bank.isr_cm4[i],
        };
        let enabled = match core {
            Core::Cm7 => bank.ier_cm7[i],
            Core::Cm4 => bank.ier_cm4[i],
        };
        let hit = pending && enabled;
        if hit {
            proof {
                assert(bank@.isr(core)[i as int] && bank@.ier(core)[i as int]);
            }
            found = true;
        }
        i = i + 1;
    }
    found
}

/// Drain any pending wake event of `core`: self-signal, then consume, so
/// that an event raised before arming cannot linger and a later one is not
/// missed.  This is the first step of the drain/arm/sleep idiom.
pub fn clear_pending_events(bank: &mut HsemBank, core: Core)
    requires
        old(bank)@.wf(),
    ensures
        final(bank)@.wf(),
        final(bank)@ =~= drain_post(old(bank)@, core),
{
    match core {
        Core::Cm7 => {
            bank.event_cm7 = false;
        },
        Core::Cm4 => {
            bank.event_cm4 = false;
        },
    }
}

/// Request deep sleep of `domain` by `core`, entering with `stop_mode`.
///
/// Only the owning core's request is honored; a non-owner's call is a
/// no-op.  An owner sets the domain's retention path and its deep-sleep
/// flag and executes the wait instruction: if the wake source is already
/// latched the wait falls through at once (consuming it); otherwise the
/// core is suspended and the domain recorded asleep.  The suspended half
/// of the cycle is completed by [`poll_wake`] when the wake source fires.
pub fn enter_stop_mode(
    sys: &mut SharedSystem,
    stop_mode: StopMode,
    domain: PwrDomain,
    core: Core,
) -> (r: StopOutcome)
    requires
        old(sys)@.wf(),
        old(sys)@.domain(domain) == DomainState::Awake,
    ensures
        final(sys)@.wf(),
        r == stop_entry_result(old(sys)@, stop_mode, domain, core),
        final(sys)@ =~= stop_entry_post(old(sys)@, stop_mode, domain, core),
{
    let owner = owner_of(domain);
    if core != owner {
        return StopOutcome::NotOwner;
    }
    transition(sys, stop_mode, domain, core)
}

/// The owner's half of the entry sequence: request, then wait.
fn transition(
    sys: &mut SharedSystem,
    stop_mode: StopMode,
    domain: PwrDomain,
    core: Core,
) -> (r: StopOutcome)
    requires
        old(sys)@.wf(),
        core == domain_owner(domain),
    ensures
        final(sys)@.wf(),
        r == stop_entry_result(old(sys)@, stop_mode, domain, core),
        final(sys)@ =~= stop_entry_post(old(sys)@, stop_mode, domain, core),
{
    sys.set_domain_state(domain, DomainState::Requesting);
    sys.set_sleepdeep_flag(core, true);
    let ready = match stop_mode {
        StopMode::StopEntryWfe => match core {
            Core::Cm7 => sys.bank.event_cm7,
            Core::Cm4 => sys.bank.event_cm4,
        },
        StopMode::StopEntryWfi => {
            let unmasked = match core {
                Core::Cm7 => sys.bank.unmasked_cm7,
                Core::Cm4 => sys.bank.unmasked_cm4,
            };
            if unmasked {
                line_asserted_now(&sys.bank, core)
            } else {
                false
            }
        },
    };
    if ready {
        match stop_mode {
            StopMode::StopEntryWfe => clear_pending_events(&mut sys.bank, core),
            StopMode::StopEntryWfi => (),
        }
        sys.set_domain_state(domain, DomainState::Awake);
        sys.set_sleepdeep_flag(core, false);
        StopOutcome::ImmediateWake
    } else {
        sys.set_domain_state(domain, DomainState::Asleep(stop_mode));
        StopOutcome::Suspended
    }
}

/// Complete a suspended wait on `domain` if its wake source has fired.
///
/// Returns true — and transitions the domain back to awake, clearing the
/// deep-sleep flag and consuming the event latch — exactly once per
/// suspension: a repeated signal after the wait has completed finds the
/// domain awake and returns false.
pub fn poll_wake(sys: &mut SharedSystem, domain: PwrDomain, core: Core) -> (r: bool)
    requires
        old(sys)@.wf(),
    ensures
        final(sys)@.wf(),
        r == poll_wake_result(old(sys)@, domain, core),
        final(sys)@ =~= poll_wake_post(old(sys)@, domain, core),
{
    let owner = owner_of(domain);
    if core != owner {
        return false;
    }
    let state = sys.domain_state(domain);
    match state {
        DomainState::Asleep(mode) => {
            let ready = match mode {
                StopMode::StopEntryWfe => match core {
                    Core::Cm7 => sys.bank.event_cm7,
                    Core::Cm4 => sys.bank.event_cm4,
                },
                StopMode::StopEntryWfi => {
                    let unmasked = match core {
                        Core::Cm7 => sys.bank.unmasked_cm7,
                        Core::Cm4 => sys.bank.unmasked_cm4,
                    };
                    if unmasked {
                        line_asserted_now(&sys.bank, core)
                    } else {
                        false
                    }
                },
            };
            if ready {
                match mode {
                    StopMode::StopEntryWfe => clear_pending_events(&mut sys.bank, core),
                    StopMode::StopEntryWfi => (),
                }
                sys.set_domain_state(domain, DomainState::Awake);
                sys.set_sleepdeep_flag(core, false);
                true
            } else {
                false
            }
        },
        _ => false,
    }
}

} // verus!
