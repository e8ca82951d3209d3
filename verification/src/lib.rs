//! Boot and concurrency core of a single-address-space unikernel.
//!
//! The crate holds the portable decisions of multi-core bring-up and the
//! synchronization primitives that drivers and schedulers build on. Every
//! function carries a contract that is checked by the verifier; hardware
//! access stays with the caller, which hands plain values in and takes
//! plain values back.

pub mod boot;
pub mod boot_info;
pub mod console;
pub mod context;
pub mod control_regs;
pub mod environment;
pub mod fatal;
pub mod irq;
pub mod net;
pub mod percore;
pub mod semaphore;
pub mod semaphore_laws;
pub mod smp;
pub mod spinlock;
pub mod syscalls;
