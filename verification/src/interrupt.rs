//! Trap-frame layouts: the register sets an interrupt entry saves on the
//! stack, in push order. The privileged I/O-privilege operation edits the
//! saved flags word of such a frame.

use vstd::prelude::*;

verus! {

/// Caller-saved registers, pushed by the interrupt entry.
#[derive(Clone, Copy, Debug, Default)]
pub struct ScratchRegisters {
    pub rax: usize,
    pub rcx: usize,
    pub rdx: usize,
    pub rdi: usize,
    pub rsi: usize,
    pub r8: usize,
    pub r9: usize,
    pub r10: usize,
    pub r11: usize,
}

impl ScratchRegisters {
    /// Hook for the kernel's register-dump reporting; the frame itself
    /// carries all the state.
    pub fn dump(&self) {
    }
}

/// Callee-saved registers, pushed by the interrupt entry.
#[derive(Clone, Copy, Debug, Default)]
pub struct PreservedRegisters {
    pub rbx: usize,
    pub rbp: usize,
    pub r12: usize,
    pub r13: usize,
    pub r14: usize,
    pub r15: usize,
}

impl PreservedRegisters {
    /// Hook for the kernel's register-dump reporting.
    pub fn dump(&self) {
    }
}

/// What the hardware itself pushes on interrupt entry, including the saved
/// flags register that the I/O-privilege operation edits.
#[derive(Clone, Copy, Debug, Default)]
pub struct IretRegisters {
    pub rip: usize,
    pub cs: usize,
    pub rflags: usize,
}

impl IretRegisters {
    /// Hook for the kernel's register-dump reporting.
    pub fn dump(&self) {
    }
}

/// The full trap frame of an interrupt without an error code.
#[derive(Clone, Copy, Debug, Default)]
pub struct InterruptStack {
    pub fs: usize,
    pub preserved: PreservedRegisters,
    pub scratch: ScratchRegisters,
    pub iret: IretRegisters,
}

impl InterruptStack {
    /// Hook for the kernel's register-dump reporting.
    pub fn dump(&self) {
    }
}

/// The full trap frame of an exception that pushes an error code.
#[derive(Clone, Copy, Debug, Default)]
pub struct InterruptErrorStack {
    pub fs: usize,
    pub preserved: PreservedRegisters,
    pub scratch: ScratchRegisters,
    pub code: usize,
    pub iret: IretRegisters,
}

impl InterruptErrorStack {
    /// Hook for the kernel's register-dump reporting.
    pub fn dump(&self) {
    }
}

/// The trap frame used on the entry paths that swap the page-table root.
#[derive(Clone, Copy, Debug, Default)]
pub struct InterruptStackP {
    pub fs: usize,
    pub preserved: PreservedRegisters,
    pub scratch: ScratchRegisters,
    pub iret: IretRegisters,
}

impl InterruptStackP {
    /// Hook for the kernel's register-dump reporting.
    pub fn dump(&self) {
    }
}

/// The error-code variant of the root-swapping trap frame.
#[derive(Clone, Copy, Debug, Default)]
pub struct InterruptErrorStackP {
    pub fs: usize,
    pub preserved: PreservedRegisters,
    pub scratch: ScratchRegisters,
    pub code: usize,
    pub iret: IretRegisters,
}

impl InterruptErrorStackP {
    /// Hook for the kernel's register-dump reporting.
    pub fn dump(&self) {
    }
}

/// Politely yield the pipeline in a spin loop; a hint with no memory
/// effects, and nothing for the model to record.
pub fn pause() {
}

} // verus!
