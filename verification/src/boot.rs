//! The portable part of bringing a processor up.
//!
//! The entry stub establishes a stack and the vector table and then enters
//! stage one, which checks the hand-off record and decides which way the
//! processor goes. The initialization functions return the hardware steps
//! for the caller to perform, in order, and keep the count of processors
//! that are online.

use vstd::prelude::*;
use crate::boot_info::{BootInfo, BootRecord};
use crate::control_regs::{
    enable_caching, CR0_CACHE_DISABLE, CR0_DEFINED_BITS, CR0_NOT_WRITE_THROUGH,
};

verus! {

/// Size of the stack region that is reserved for each core.
pub const KERNEL_STACK_SIZE: u64 = 32_768;

/// Bytes left unused at the top of a stack region.
pub const STACK_MARKER_SIZE: u64 = 0x10;

/// What the kernel was built with.
#[derive(Clone, Copy, Debug, PartialEq, Eq, Structural)]
pub struct Features {
    /// Several processors are supported.
    pub smp: bool,
    pub pci: bool,
    pub acpi: bool,
    pub vga: bool,
}

/// The two ways in which a processor is initialized.
#[derive(Clone, Copy, Debug, PartialEq, Eq, Structural)]
pub enum BootRole {
    BootProcessor,
    ApplicationProcessor,
}

/// Where stage one sends a processor.
#[derive(Clone, Copy, Debug, PartialEq, Eq, Structural)]
pub enum BootPath {
    /// The first processor: full bring-up of all subsystems.
    BootProcessor,
    /// A later processor: the reduced bring-up.
    ApplicationProcessor,
    /// A later processor of a kernel without support for several
    /// processors: it reports the condition and idles for good.
    HaltedIdle,
}

/// The states of the entry sequence of one processor.
#[derive(Clone, Copy, Debug, PartialEq, Eq, Structural)]
pub enum EntryState {
    ColdReset,
    StackEstablished,
    VectorsInstalled,
    Dispatched(BootRole),
    HaltedIdle,
    Aborted,
}

/// What moves the entry sequence on.
#[derive(Clone, Copy, Debug, PartialEq, Eq, Structural)]
pub enum EntryEvent {
    StackLoaded,
    VectorsLoaded,
    /// Stage one found the magic number wrong.
    RecordRejected,
    /// Stage one accepted the record and chose a path.
    RecordAccepted(BootPath),
}

/// The state that follows `state` on `event`, if the event may occur there.
pub open spec fn entry_transition(state: EntryState, event: EntryEvent) -> Option<EntryState> {
    match (state, event) {
        (EntryState::ColdReset, EntryEvent::StackLoaded) => Some(EntryState::StackEstablished),
        (EntryState::StackEstablished, EntryEvent::VectorsLoaded) => Some(
            EntryState::VectorsInstalled,
        ),
        (EntryState::VectorsInstalled, EntryEvent::RecordRejected) => Some(EntryState::Aborted),
        (EntryState::VectorsInstalled, EntryEvent::RecordAccepted(path)) => Some(
            match path {
                BootPath::BootProcessor => EntryState::Dispatched(BootRole::BootProcessor),
                BootPath::ApplicationProcessor => EntryState::Dispatched(
                    BootRole::ApplicationProcessor,
                ),
                BootPath::HaltedIdle => EntryState::HaltedIdle,
            },
        ),
        _ => None,
    }
}

/// Moves the entry sequence on by one event. `None` means that the event
/// cannot occur in this state; the sequence then stays where it is.
pub fn entry_step(state: EntryState, event: EntryEvent) -> (next: Option<EntryState>)
    ensures
        next == entry_transition(state, event),
{
    match state {
        EntryState::ColdReset => match event {
            EntryEvent::StackLoaded => Some(EntryState::StackEstablished),
            _ => None,
        },
        EntryState::StackEstablished => match event {
            EntryEvent::VectorsLoaded => Some(EntryState::VectorsInstalled),
            _ => None,
        },
        EntryState::VectorsInstalled => match event {
            EntryEvent::RecordRejected => Some(EntryState::Aborted),
            EntryEvent::RecordAccepted(path) => match path {
                BootPath::BootProcessor => Some(EntryState::Dispatched(BootRole::BootProcessor)),
                BootPath::ApplicationProcessor => Some(
                    EntryState::Dispatched(BootRole::ApplicationProcessor),
                ),
                BootPath::HaltedIdle => Some(EntryState::HaltedIdle),
            },
            _ => None,
        },
        _ => None,
    }
}

/// The stack pointer with which a core starts in the stack region of
/// `size` bytes at `base`: the top of the region less the marker. `None` if
/// the region is smaller than the marker or does not fit the address space.
pub fn initial_stack_pointer(base: u64, size: u64) -> (sp: Option<u64>)
    ensures
        sp.is_some() <==> size >= STACK_MARKER_SIZE && base + size <= u64::MAX,
        sp matches Some(p) ==> p == base + size - STACK_MARKER_SIZE && base <= p && p
            + STACK_MARKER_SIZE == base + size,
{
    if size < STACK_MARKER_SIZE {
        return None;
    }
    match base.checked_add(size) {
        Some(top) => Some(top - STACK_MARKER_SIZE),
        None => None,
    }
}

/// The path of a processor that enters stage one with the record `info`.
pub open spec fn boot_path(info: BootInfo, smp: bool) -> BootPath {
    if info.cpu_online == 0 {
        BootPath::BootProcessor
    } else if smp {
        BootPath::ApplicationProcessor
    } else {
        BootPath::HaltedIdle
    }
}

/// What stage one decided.
pub enum StageOne {
    /// The magic number is wrong: nothing of the record may be used and the
    /// processor must stop.
    Fatal,
    /// The record is valid. `cr0` is to be written to control register 0
    /// before the processor goes down `path`.
    Proceed { record: BootRecord, cr0: u64, path: BootPath },
}

/// Stage one of the entry sequence: checks the magic number of the record,
/// computes the control register value that switches the caches on, and
/// chooses the processor's path from the count of processors online.
pub fn pre_init(info: BootInfo, cr0: u64, smp: bool) -> (stage: StageOne)
    ensures
        stage is Fatal <==> !info.has_valid_magic(),
        stage matches StageOne::Proceed { record, cr0: new_cr0, path } ==> {
            &&& record@ == info
            &&& new_cr0 == cr0 & CR0_DEFINED_BITS & !(CR0_CACHE_DISABLE | CR0_NOT_WRITE_THROUGH)
            &&& path == boot_path(info, smp)
        },
{
    match BootRecord::new(info) {
        None => StageOne::Fatal,
        Some(record) => {
            let cr0 = enable_caching(cr0);
            let path = if info.cpu_online == 0 {
                BootPath::BootProcessor
            } else if smp {
                BootPath::ApplicationProcessor
            } else {
                BootPath::HaltedIdle
            };
            StageOne::Proceed { record, cr0, path }
        },
    }
}

} // verus!
