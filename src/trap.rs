//! Trap classification and the dispatch tables of core-local traps.
//!
//! Vector table entry 0 receives every exception and every core-local
//! interrupt. The entry saves the caller-saved registers into a
//! [`TrapFrame`], decodes the cause register and asks [`dispatch_trap`]
//! what to do.
use vstd::prelude::*;

verus! {

/// Registers saved during a trap: the return address and the caller-saved
/// temporary and argument registers, in the order the trap entry stores them.
#[derive(Clone, Copy, Debug, PartialEq, Eq)]
pub struct TrapFrame {
    /// Return address
    pub ra: usize,
    /// Temporary register t0
    pub t0: usize,
    /// Temporary register t1
    pub t1: usize,
    /// Temporary register t2
    pub t2: usize,
    /// Temporary register t3
    pub t3: usize,
    /// Temporary register t4
    pub t4: usize,
    /// Temporary register t5
    pub t5: usize,
    /// Temporary register t6
    pub t6: usize,
    /// Argument/return register a0
    pub a0: usize,
    /// Argument register a1
    pub a1: usize,
    /// Argument register a2
    pub a2: usize,
    /// Argument register a3
    pub a3: usize,
    /// Argument register a4
    pub a4: usize,
    /// Argument register a5
    pub a5: usize,
    /// Argument register a6
    pub a6: usize,
    /// Argument register a7
    pub a7: usize,
}

/// The per-code exception handlers an application may supply.
#[derive(Clone, Copy, Debug, PartialEq, Eq, Structural)]
pub enum Exception {
    InstructionMisaligned,
    InstructionFault,
    IllegalInstruction,
    Breakpoint,
    LoadMisaligned,
    LoadFault,
    StoreMisaligned,
    StoreFault,
    UserEnvCall,
    SupervisorEnvCall,
    MachineEnvCall,
    InstructionPageFault,
    LoadPageFault,
    StorePageFault,
}

/// The per-code core-local interrupt handlers an application may supply.
#[derive(Clone, Copy, Debug, PartialEq, Eq, Structural)]
pub enum CoreInterrupt {
    SupervisorSoft,
    MachineSoft,
    SupervisorTimer,
    MachineTimer,
    SupervisorExternal,
    MachineExternal,
}

/// Number of slots in the exception dispatch table.
pub const EXCEPTION_SLOTS: usize = 16;

/// Exception code of an illegal instruction.
pub const ILLEGAL_INSTRUCTION: usize = 2;

/// The exception dispatch table: codes 10 and 14 are reserved, as is every
/// code past the table's end.
pub open spec fn exception_slot(code: int) -> Option<Exception> {
    if code == 0 { Some(Exception::InstructionMisaligned) }
    else if code == 1 { Some(Exception::InstructionFault) }
    else if code == 2 { Some(Exception::IllegalInstruction) }
    else if code == 3 { Some(Exception::Breakpoint) }
    else if code == 4 { Some(Exception::LoadMisaligned) }
    else if code == 5 { Some(Exception::LoadFault) }
    else if code == 6 { Some(Exception::StoreMisaligned) }
    else if code == 7 { Some(Exception::StoreFault) }
    else if code == 8 { Some(Exception::UserEnvCall) }
    else if code == 9 { Some(Exception::SupervisorEnvCall) }
    else if code == 11 { Some(Exception::MachineEnvCall) }
    else if code == 12 { Some(Exception::InstructionPageFault) }
    else if code == 13 { Some(Exception::LoadPageFault) }
    else if code == 15 { Some(Exception::StorePageFault) }
    else { None }
}

/// The core interrupt dispatch table: only the software, timer and external
/// lines of the supervisor and machine levels have handlers.
pub open spec fn core_interrupt_slot(code: int) -> Option<CoreInterrupt> {
    if code == 1 { Some(CoreInterrupt::SupervisorSoft) }
    else if code == 3 { Some(CoreInterrupt::MachineSoft) }
    else if code == 5 { Some(CoreInterrupt::SupervisorTimer) }
    else if code == 7 { Some(CoreInterrupt::MachineTimer) }
    else if code == 9 { Some(CoreInterrupt::SupervisorExternal) }
    else if code == 11 { Some(CoreInterrupt::MachineExternal) }
    else { None }
}

/// Looks `code` up in the exception dispatch table.
pub fn exception_handler(code: usize) -> (r: Option<Exception>)
    ensures
        r == exception_slot(code as int),
{
    match code {
        0 => Some(Exception::InstructionMisaligned),
        1 => Some(Exception::InstructionFault),
        2 => Some(Exception::IllegalInstruction),
        3 => Some(Exception::Breakpoint),
        4 => Some(Exception::LoadMisaligned),
        5 => Some(Exception::LoadFault),
        6 => Some(Exception::StoreMisaligned),
        7 => Some(Exception::StoreFault),
        8 => Some(Exception::UserEnvCall),
        9 => Some(Exception::SupervisorEnvCall),
        11 => Some(Exception::MachineEnvCall),
        12 => Some(Exception::InstructionPageFault),
        13 => Some(Exception::LoadPageFault),
        15 => Some(Exception::StorePageFault),
        _ => None,
    }
}

/// Looks `code` up in the core interrupt dispatch table.
pub fn core_interrupt_handler(code: usize) -> (r: Option<CoreInterrupt>)
    ensures
        r == core_interrupt_slot(code as int),
{
    match code {
        1 => Some(CoreInterrupt::SupervisorSoft),
        3 => Some(CoreInterrupt::MachineSoft),
        5 => Some(CoreInterrupt::SupervisorTimer),
        7 => Some(CoreInterrupt::MachineTimer),
        9 => Some(CoreInterrupt::SupervisorExternal),
        11 => Some(CoreInterrupt::MachineExternal),
        _ => None,
    }
}

/// Mask of the code field of the cause register: every bit but the top one.
pub open spec fn cause_code_mask() -> usize {
    usize::MAX >> 1usize
}

/// Relies on riscv's `Mcause::code`: the code field is every bit of the
/// register but the top one.
#[verifier::external_body]
fn mcause_code(bits: usize) -> (r: usize)
    ensures
        r == bits & cause_code_mask(),
{
    riscv::register::mcause::Mcause::from_bits(bits).code()
}

/// Relies on riscv's `Mcause::is_exception`: a trap is an exception exactly
/// when the top bit of the register is clear.
#[verifier::external_body]
fn mcause_is_exception(bits: usize) -> (r: bool)
    ensures
        r == (bits <= cause_code_mask()),
{
    riscv::register::mcause::Mcause::from_bits(bits).is_exception()
}

/// A decoded trap cause.
#[derive(Clone, Copy, Debug, PartialEq, Eq, Structural)]
pub struct TrapCause {
    /// Whether the trap is an interrupt rather than an exception.
    pub interrupt: bool,
    /// The exception or interrupt code.
    pub code: usize,
}

impl TrapCause {
    /// Decodes the raw value of the machine cause register.
    pub fn from_bits(bits: usize) -> (r: TrapCause)
        ensures
            r.interrupt == (bits > cause_code_mask()),
            r.code == bits & cause_code_mask(),
    {
        TrapCause { interrupt: !mcause_is_exception(bits), code: mcause_code(bits) }
    }
}

/// What the trap entry does once the cause is known.
#[derive(Clone, Copy, Debug, PartialEq, Eq, Structural)]
pub enum TrapAction {
    /// A spurious illegal-instruction trap of the errata: return at once,
    /// calling no handler.
    Suppressed,
    /// Call `handler` with the trap frame if there is one, then the universal
    /// exception hook in every case.
    Exception { handler: Option<Exception> },
    /// Call this core interrupt handler, with no argument.
    Interrupt(CoreInterrupt),
    /// No handler for this interrupt code: call the default interrupt hook.
    DefaultInterrupt,
}

/// Whether a trap is the spurious illegal-instruction exception that the
/// errata fix suppresses: code 2 with a zero trap value.
pub open spec fn is_spurious(cause: TrapCause, errata_fix: bool, mtval: usize) -> bool {
    errata_fix && !cause.interrupt && cause.code == ILLEGAL_INSTRUCTION && mtval == 0
}

/// The dispatch decision for a trap.
pub open spec fn trap_action(cause: TrapCause, errata_fix: bool, mtval: usize) -> TrapAction {
    if is_spurious(cause, errata_fix, mtval) {
        TrapAction::Suppressed
    } else if !cause.interrupt {
        TrapAction::Exception { handler: exception_slot(cause.code as int) }
    } else {
        match core_interrupt_slot(cause.code as int) {
            Some(h) => TrapAction::Interrupt(h),
            None => TrapAction::DefaultInterrupt,
        }
    }
}

/// Decides how a core-local trap is handled.
///
/// `errata_fix` enables the suppression of the spurious illegal-instruction
/// exception; `mtval` is the trap value register, read only on that path.
pub fn dispatch_trap(cause: TrapCause, errata_fix: bool, mtval: usize) -> (r: TrapAction)
    ensures
        r == trap_action(cause, errata_fix, mtval),
{
    if !cause.interrupt {
        if errata_fix && cause.code == ILLEGAL_INSTRUCTION && mtval == 0 {
            return TrapAction::Suppressed;
        }
        TrapAction::Exception { handler: exception_handler(cause.code) }
    } else {
        match core_interrupt_handler(cause.code) {
            Some(h) => TrapAction::Interrupt(h),
            None => TrapAction::DefaultInterrupt,
        }
    }
}

/// Reserved exception codes have no handler: such a trap goes straight to
/// the universal exception hook.
pub proof fn lemma_reserved_exceptions_reach_universal_hook(cause: TrapCause, errata_fix: bool, mtval: usize)
    requires
        !cause.interrupt,
        cause.code == 10 || cause.code == 14 || cause.code >= EXCEPTION_SLOTS,
    ensures
        trap_action(cause, errata_fix, mtval) == (TrapAction::Exception { handler: None }),
{
}

/// Every exception that is not suppressed reaches the universal exception
/// hook, and its per-code handler is the table's entry for its code.
pub proof fn lemma_exceptions_reach_universal_hook(cause: TrapCause, errata_fix: bool, mtval: usize)
    requires
        !cause.interrupt,
        !is_spurious(cause, errata_fix, mtval),
    ensures
        trap_action(cause, errata_fix, mtval) == (TrapAction::Exception { handler: exception_slot(cause.code as int) }),
{
}

/// Interrupt codes without a table entry go to the default interrupt hook.
pub proof fn lemma_unassigned_interrupts_use_default(cause: TrapCause, errata_fix: bool, mtval: usize)
    requires
        cause.interrupt,
        core_interrupt_slot(cause.code as int) is None,
    ensures
        trap_action(cause, errata_fix, mtval) == TrapAction::DefaultInterrupt,
{
}

} // verus!
