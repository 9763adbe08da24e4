//! Synchronization primitives for a dual-core microcontroller sharing a
//! 32-slot hardware semaphore bank, a small shared-memory mailbox, and
//! per-core wake events.
//!
//! All hardware-visible state (the semaphore bank registers, the per-core
//! notification and event bits, the power-domain sleep states, and the
//! shared mailbox words) is modelled as a single owned handle that is
//! threaded explicitly through every operation.  The register semantics —
//! atomic lock writes that are silently ignored when the slot is held,
//! owner-checked clears, key-scoped bulk release, and event-latching wait
//! instructions — are captured by specification-level transition functions,
//! and every executable operation is proved to implement them.

pub mod hsem;
pub mod power;
pub mod rendezvous;
pub mod mailbox;
pub mod logger;
pub mod laws;
