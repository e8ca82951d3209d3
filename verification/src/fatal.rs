//! What a core does when it cannot go on: it says why and stops.

use vstd::prelude::*;
use vstd::string::StringSliceAdditionalSpecFns;

verus! {

/// The errors from which a core does not recover.
#[derive(Clone, Copy, Debug, PartialEq, Eq, Structural)]
pub enum FatalError {
    /// A kernel panic, a rejected hand-off record among them.
    Panic,
    /// An allocation has failed.
    OutOfMemory,
}

/// What a processor does after it has reported a fatal error.
#[derive(Clone, Copy, Debug, PartialEq, Eq, Structural)]
pub enum FatalAction {
    /// Ask the hypervisor to shut the machine down with this exit code.
    Shutdown(i32),
    /// Halt the core for good.
    Halt,
}

/// The response to a fatal error once the diagnostic is out.
pub open spec fn spec_fatal_response(error: FatalError, run_on_hypervisor: bool) -> FatalAction {
    match error {
        FatalError::Panic => if run_on_hypervisor {
            FatalAction::Shutdown(1)
        } else {
            FatalAction::Halt
        },
        FatalError::OutOfMemory => FatalAction::Halt,
    }
}

/// The response to a fatal error once the diagnostic is out: after a panic
/// an orderly shutdown where a hypervisor offers one; in every other case a
/// halt of the core.
pub fn fatal_response(error: FatalError, run_on_hypervisor: bool) -> (action: FatalAction)
    ensures
        action == spec_fatal_response(error, run_on_hypervisor),
{
    match error {
        FatalError::Panic => if run_on_hypervisor {
            FatalAction::Shutdown(1)
        } else {
            FatalAction::Halt
        },
        FatalError::OutOfMemory => FatalAction::Halt,
    }
}

/// The decimal digits of `n`, without leading zeros.
pub open spec fn decimal_digits(n: nat) -> Seq<u8>
    decreases n,
{
    if n < 10 {
        seq![(48 + n) as u8]
    } else {
        decimal_digits(n / 10).push((48 + n % 10) as u8)
    }
}

/// Appends the decimal digits of `n` to `out`.
pub fn push_decimal(out: &mut Vec<u8>, n: u64)
    ensures
        final(out)@ == old(out)@ + decimal_digits(n as nat),
    decreases n,
{
    if n >= 10 {
        push_decimal(out, n / 10);
    }
    out.push(48 + (n % 10) as u8);
    proof {
        if n >= 10 {
            assert(out@ =~= old(out)@ + decimal_digits(n as nat));
        } else {
            assert(out@ =~= old(out)@ + decimal_digits(n as nat));
        }
    }
}

/// Where in the source a panic occurred.
pub struct PanicLocation {
    /// The name of the source file.
    pub file: Vec<u8>,
    pub line: u32,
}

/// The text that reports a panic on the core `core_id`: the core, the mark
/// of a panic, the place if it is known, the message if there is one, and
/// the end of the line.
pub open spec fn panic_text(
    core_id: u32,
    location: Option<PanicLocation>,
    message: Option<Seq<u8>>,
) -> Seq<u8> {
    "[".spec_bytes() + decimal_digits(core_id as nat) + "][!!!PANIC!!!] ".spec_bytes() + (
    match location {
        Some(place) => place.file@ + ":".spec_bytes() + decimal_digits(place.line as nat)
            + ": ".spec_bytes(),
        None => Seq::empty(),
    }) + (match message {
        Some(text) => text,
        None => Seq::empty(),
    }) + "\n".spec_bytes()
}

/// The text that reports on the core `core_id` that an allocation of
/// `size` bytes has failed.
pub open spec fn out_of_memory_text(core_id: u32, size: usize) -> Seq<u8> {
    "[".spec_bytes() + decimal_digits(core_id as nat)
        + "][!!!OOM!!!] Memory allocation of ".spec_bytes() + decimal_digits(size as nat)
        + " bytes failed\n".spec_bytes()
}

/// What a core does about a fatal error.
pub struct FatalReport {
    /// The diagnostic to write to the console.
    pub text: Vec<u8>,
    /// What to do once it is written.
    pub action: FatalAction,
}

/// Handles a panic on the core `core_id`.
pub fn panic(
    core_id: u32,
    location: Option<&PanicLocation>,
    message: Option<&[u8]>,
    run_on_hypervisor: bool,
) -> (report: FatalReport)
    ensures
        report.text@ == panic_text(
            core_id,
            match location {
                Some(place) => Some(*place),
                None => None,
            },
            match message {
                Some(text) => Some(text@),
                None => None,
            },
        ),
        report.action == spec_fatal_response(FatalError::Panic, run_on_hypervisor),
{
    let mut text: Vec<u8> = Vec::new();
    text.extend_from_slice("[".as_bytes());
    push_decimal(&mut text, core_id as u64);
    text.extend_from_slice("][!!!PANIC!!!] ".as_bytes());
    let ghost head = text@;
    let ghost place_text: Seq<u8> = match location {
        Some(place) => place.file@ + ":".spec_bytes() + decimal_digits(place.line as nat)
            + ": ".spec_bytes(),
        None => Seq::empty(),
    };
    match location {
        Some(place) => {
            text.extend_from_slice(place.file.as_slice());
            text.extend_from_slice(":".as_bytes());
            push_decimal(&mut text, place.line as u64);
            text.extend_from_slice(": ".as_bytes());
        },
        None => {},
    }
    assert(text@ =~= head + place_text);
    let ghost message_text: Seq<u8> = match message {
        Some(m) => m@,
        None => Seq::empty(),
    };
    match message {
        Some(m) => {
            text.extend_from_slice(m);
        },
        None => {},
    }
    assert(text@ =~= head + place_text + message_text);
    text.extend_from_slice("\n".as_bytes());
    assert(head =~= Seq::<u8>::empty() + "[".spec_bytes() + decimal_digits(core_id as nat)
        + "][!!!PANIC!!!] ".spec_bytes());
    assert(Seq::<u8>::empty() + "[".spec_bytes() =~= "[".spec_bytes());
    FatalReport { text, action: fatal_response(FatalError::Panic, run_on_hypervisor) }
}

/// Handles the failure of an allocation of `size` bytes on the core
/// `core_id`: there is no way on, so the core halts.
pub fn rust_oom(core_id: u32, size: usize) -> (report: FatalReport)
    ensures
        report.text@ == out_of_memory_text(core_id, size),
        report.action == FatalAction::Halt,
{
    let mut text: Vec<u8> = Vec::new();
    text.extend_from_slice("[".as_bytes());
    push_decimal(&mut text, core_id as u64);
    text.extend_from_slice("][!!!OOM!!!] Memory allocation of ".as_bytes());
    push_decimal(&mut text, size as u64);
    text.extend_from_slice(" bytes failed\n".as_bytes());
    assert(Seq::<u8>::empty() + "[".spec_bytes() =~= "[".spec_bytes());
    FatalReport { text, action: fatal_response(FatalError::OutOfMemory, false) }
}

} // verus!
