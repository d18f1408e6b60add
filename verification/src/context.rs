//! The saved machine state of one thread of control, the FPU register-file
//! handling with its reserved-bit discipline, and the single shared lock
//! that keeps context switches atomic across processors. The naked
//! register-transfer routine of the hardware is modeled as an explicit
//! transformation of the executing processor's register state, with the
//! ordering and lock-release contract preserved exactly.

use vstd::prelude::*;

verus! {

/// The hardware-reserved, non-addressable bits of each saved x87 register
/// slot: only the 80 low bits of a slot are consumer-visible.
pub const ST_RESERVED: u128 = 0xFFFF_FFFF_FFFF_0000_0000_0000_0000_0000;

/// The saved FPU/vector register file of one context, in the layout the
/// save instruction writes.
#[derive(Clone, Copy, Debug, PartialEq)]
pub struct FloatRegisters {
    pub fcw: u16,
    pub fsw: u16,
    pub ftw: u8,
    pub _reserved: u8,
    pub fop: u16,
    pub fip: u64,
    pub fdp: u64,
    pub mxcsr: u32,
    pub mxcsr_mask: u32,
    pub st_space: [u128; 8],
    pub xmm_space: [u128; 16],
}

/// A register file with every slot cleared, as after an FPU reset.
pub open spec fn fpu_is_reset(f: FloatRegisters) -> bool {
    &&& f.fcw == 0
    &&& f.fsw == 0
    &&& f.ftw == 0
    &&& f._reserved == 0
    &&& f.fop == 0
    &&& f.fip == 0
    &&& f.fdp == 0
    &&& f.mxcsr == 0
    &&& f.mxcsr_mask == 0
    &&& forall|i: int| 0 <= i < 8 ==> f.st_space[i] == 0
    &&& forall|i: int| 0 <= i < 16 ==> f.xmm_space[i] == 0
}

impl FloatRegisters {
    /// A cleared register file.
    pub fn new() -> (r: FloatRegisters)
        ensures
            fpu_is_reset(r),
    {
        FloatRegisters {
            fcw: 0,
            fsw: 0,
            ftw: 0,
            _reserved: 0,
            fop: 0,
            fip: 0,
            fdp: 0,
            mxcsr: 0,
            mxcsr_mask: 0,
            st_space: [0u128; 8],
            xmm_space: [0u128; 16],
        }
    }
}

/// What one compare-and-exchange attempt on the switch lock does: the lock
/// ends up held either way, and the attempt wins exactly when the lock was
/// free.
pub open spec fn try_acquire_spec(held: bool) -> (bool, bool) {
    (true, !held)
}

/// The single shared flag that makes context switches atomic: a CPU must
/// win this lock before beginning a switch, and `switch_to` releases it
/// once the outgoing context's registers are safely saved — no lock can be
/// held on the stack during the switch itself.
pub struct SwitchLock {
    held: bool,
}

impl SwitchLock {
    /// Whether some processor currently holds the lock.
    pub closed spec fn spec_held(&self) -> bool {
        self.held
    }

    /// The lock starts free.
    pub fn new() -> (r: SwitchLock)
        ensures
            !r.spec_held(),
    {
        SwitchLock { held: false }
    }

    /// One atomic compare-and-exchange attempt: returns whether this
    /// processor took the lock; the lock is held afterwards either way.
    pub fn try_acquire(&mut self) -> (r: bool)
        ensures
            (final(self).spec_held(), r) == try_acquire_spec(old(self).spec_held()),
            r == !old(self).spec_held(),
            final(self).spec_held(),
    {
        if self.held {
            false
        } else {
            self.held = true;
            true
        }
    }

    /// Release the lock, allowing another processor to begin a switch.
    pub fn release(&mut self)
        ensures
            !final(self).spec_held(),
    {
        self.held = false;
    }
}

/// Switch atomicity: of two processors attempting to take the switch lock,
/// one after the other in any interleaving from any starting state, at
/// most one observes it as available — both can never win.
pub proof fn lemma_switch_lock_exclusive(held: bool)
    ensures
        !(try_acquire_spec(held).1 && try_acquire_spec(try_acquire_spec(held).0).1),
{
}

/// Bit-level facts behind the reserved-bit discipline of the saved x87
/// slots: merging keeps exactly the old reserved bits and the new visible
/// bits, and masking afterwards recovers the new visible bits.
pub proof fn lemma_st_reserved_masking()
    by (bit_vector)
    ensures
        forall|n: u128, o: u128|
            (#[trigger] ((n & !ST_RESERVED) | (o & ST_RESERVED))) & !ST_RESERVED == n
                & !ST_RESERVED,
        forall|n: u128, o: u128|
            (#[trigger] ((n & !ST_RESERVED) | (o & ST_RESERVED))) & ST_RESERVED == o
                & ST_RESERVED,
{
}

/// The registers of the executing processor as the switch primitive sees
/// them; the surrounding kernel logic never needs finer-grained access
/// than this.
pub struct CpuState {
    pub fpu: FloatRegisters,
    pub cr3: usize,
    pub rflags: usize,
    pub rbx: usize,
    pub r12: usize,
    pub r13: usize,
    pub r14: usize,
    pub r15: usize,
    pub rbp: usize,
    pub rsp: usize,
}

/// The saved execution state of one thread of control: callee-saved
/// registers, the page-table root, the FPU buffer and whether it holds a
/// loadable register file, and the words the kernel has pushed onto the
/// thread's stack.
#[derive(Clone, Debug)]
pub struct Context {
    /// Whether the FPU buffer holds a register file saved by a switch.
    pub loadable: bool,
    /// Address of the FPU save area.
    pub fx: usize,
    /// The register file stored in the FPU save area.
    pub fx_file: FloatRegisters,
    /// Page table pointer.
    pub cr3: usize,
    /// RFLAGS register.
    pub rflags: usize,
    /// RBX register.
    pub rbx: usize,
    /// R12 register.
    pub r12: usize,
    /// R13 register.
    pub r13: usize,
    /// R14 register.
    pub r14: usize,
    /// R15 register.
    pub r15: usize,
    /// Base pointer.
    pub rbp: usize,
    /// Stack pointer.
    pub rsp: usize,
    /// The words pushed onto the thread's stack at and above `rsp`, most
    /// recent last.
    pub stack: Vec<usize>,
}

impl Context {
    /// A blank context: nothing loadable, every register zero.
    pub fn new() -> (r: Context)
        ensures
            !r.loadable,
            r.fx == 0,
            r.cr3 == 0,
            r.rflags == 0,
            r.rbx == 0,
            r.r12 == 0,
            r.r13 == 0,
            r.r14 == 0,
            r.r15 == 0,
            r.rbp == 0,
            r.rsp == 0,
            fpu_is_reset(r.fx_file),
            r.stack@ == Seq::<usize>::empty(),
    {
        Context {
            loadable: false,
            fx: 0,
            fx_file: FloatRegisters::new(),
            cr3: 0,
            rflags: 0,
            rbx: 0,
            r12: 0,
            r13: 0,
            r14: 0,
            r15: 0,
            rbp: 0,
            rsp: 0,
            stack: Vec::new(),
        }
    }

    /// The physical address of this context's page-table root.
    pub fn get_page_table(&self) -> (r: usize)
        ensures
            r == self.cr3,
    {
        self.cr3
    }

    /// Point the context at its FPU save area.
    pub fn set_fx(&mut self, address: usize)
        ensures
            *final(self) == (Context { fx: address, ..*old(self) }),
    {
        self.fx = address;
    }

    /// Install the physical address of the page-table root this context
    /// runs under.
    pub fn set_page_table(&mut self, address: usize)
        ensures
            *final(self) == (Context { cr3: address, ..*old(self) }),
    {
        self.cr3 = address;
    }

    /// Install the context's stack pointer.
    pub fn set_stack(&mut self, address: usize)
        ensures
            *final(self) == (Context { rsp: address, ..*old(self) }),
    {
        self.rsp = address;
    }

    /// Read the saved register file for inspection, masking out the
    /// hardware-reserved bits of each x87 slot so a debugger never sees a
    /// previous context's reserved-bit contents. `None` until a switch has
    /// saved a file into the buffer.
    pub fn get_fx_regs(&self) -> (r: Option<FloatRegisters>)
        ensures
            !self.loadable ==> r is None,
            self.loadable ==> (r matches Some(regs) && {
                &&& regs._reserved == 0
                &&& forall|i: int|
                    0 <= i < 8 ==> regs.st_space[i] == self.fx_file.st_space[i] & !ST_RESERVED
                &&& regs.xmm_space == self.fx_file.xmm_space
                &&& regs.fcw == self.fx_file.fcw
                &&& regs.fsw == self.fx_file.fsw
                &&& regs.ftw == self.fx_file.ftw
                &&& regs.fop == self.fx_file.fop
                &&& regs.fip == self.fx_file.fip
                &&& regs.fdp == self.fx_file.fdp
                &&& regs.mxcsr == self.fx_file.mxcsr
                &&& regs.mxcsr_mask == self.fx_file.mxcsr_mask
            }),
    {
        if !self.loadable {
            return None;
        }
        let mut regs = self.fx_file;
        regs._reserved = 0;
        let mut new_st = regs.st_space;
        let mut i: usize = 0;
        while i < 8
            invariant
                0 <= i <= 8,
                forall|j: int|
                    0 <= j < i ==> new_st[j] == regs.st_space[j] & !ST_RESERVED,
                forall|j: int| i <= j < 8 ==> new_st[j] == regs.st_space[j],
                regs.st_space == self.fx_file.st_space,
            decreases 8 - i,
        {
            let masked = new_st[i] & !ST_RESERVED;
            new_st[i] = masked;
            i += 1;
        }
        regs.st_space = new_st;
        Some(regs)
    }

    /// Write a modified register file back into the buffer. The
    /// consumer-visible bits are overwritten in full; the
    /// hardware-reserved bits of each x87 slot and the reserved header
    /// byte keep exactly the values the buffer held before, so a caller
    /// can neither read nor plant garbage there. `false` (and no effect)
    /// until a switch has saved a file into the buffer.
    pub fn set_fx_regs(&mut self, new: FloatRegisters) -> (r: bool)
        ensures
            !old(self).loadable ==> r == false && *final(self) == *old(self),
            old(self).loadable ==> r && {
                &&& *final(self) == (Context { fx_file: final(self).fx_file, ..*old(self) })
                &&& final(self).fx_file._reserved == old(self).fx_file._reserved
                &&& forall|i: int|
                    0 <= i < 8 ==> final(self).fx_file.st_space[i] == (new.st_space[i]
                        & !ST_RESERVED) | (old(self).fx_file.st_space[i] & ST_RESERVED)
                &&& final(self).fx_file.xmm_space == new.xmm_space
                &&& final(self).fx_file.fcw == new.fcw
                &&& final(self).fx_file.fsw == new.fsw
                &&& final(self).fx_file.ftw == new.ftw
                &&& final(self).fx_file.fop == new.fop
                &&& final(self).fx_file.fip == new.fip
                &&& final(self).fx_file.fdp == new.fdp
                &&& final(self).fx_file.mxcsr == new.mxcsr
                &&& final(self).fx_file.mxcsr_mask == new.mxcsr_mask
            },
    {
        if !self.loadable {
            return false;
        }
        let mut merged = new;
        merged._reserved = self.fx_file._reserved;
        let mut new_st = new.st_space;
        let mut i: usize = 0;
        while i < 8
            invariant
                0 <= i <= 8,
                forall|j: int|
                    0 <= j < i ==> new_st[j] == (new.st_space[j] & !ST_RESERVED) | (
                    self.fx_file.st_space[j] & ST_RESERVED),
                forall|j: int| i <= j < 8 ==> new_st[j] == new.st_space[j],
                self == old(self),
            decreases 8 - i,
        {
            let merged_slot = (new_st[i] & !ST_RESERVED) | (self.fx_file.st_space[i]
                & ST_RESERVED);
            new_st[i] = merged_slot;
            i += 1;
        }
        merged.st_space = new_st;
        self.fx_file = merged;
        true
    }

    /// Record a pending signal delivery on the context's stack: the
    /// argument and the handler are pushed so the context resumes in the
    /// delivery trampoline — a stack-based continuation, not a separate
    /// thread.
    pub fn signal_stack(&mut self, handler: usize, sig: u8)
        requires
            old(self).rsp >= 16,
        ensures
            final(self).stack@ == old(self).stack@.push(sig as usize).push(handler),
            final(self).rsp == old(self).rsp - 16,
            *final(self) == (Context {
                stack: final(self).stack,
                rsp: final(self).rsp,
                ..*old(self)
            }),
    {
        self.push_stack(sig as usize);
        self.push_stack(handler);
    }

    /// Push one word onto the context's stack.
    pub fn push_stack(&mut self, value: usize)
        requires
            old(self).rsp >= 8,
        ensures
            final(self).stack@ == old(self).stack@.push(value),
            final(self).rsp == old(self).rsp - 8,
            *final(self) == (Context {
                stack: final(self).stack,
                rsp: final(self).rsp,
                ..*old(self)
            }),
    {
        self.rsp -= 8;
        self.stack.push(value);
    }

    /// Pop the most recently pushed word off the context's stack.
    pub fn pop_stack(&mut self) -> (r: usize)
        requires
            old(self).stack@.len() > 0,
            old(self).rsp + 8 <= usize::MAX,
        ensures
            r == old(self).stack@.last(),
            final(self).stack@ == old(self).stack@.drop_last(),
            final(self).rsp == old(self).rsp + 8,
            *final(self) == (Context {
                stack: final(self).stack,
                rsp: final(self).rsp,
                ..*old(self)
            }),
    {
        let value = self.stack.pop().unwrap();
        self.rsp += 8;
        value
    }

    /// Switch the processor to `next`: save the executing processor's FPU
    /// file and callee-saved registers into this context, restore (or
    /// reset, on first use) the incoming file, swap the page-table root
    /// only when it differs — skipping the translation-cache-invalidating
    /// reload within one address space — and only then release the shared
    /// switch lock, after the outgoing registers are safely saved and
    /// before relying on any further in-memory state.
    pub fn switch_to(&mut self, next: &mut Context, cpu: &mut CpuState, lock: &mut SwitchLock)
        requires
            old(lock).spec_held(),
        ensures
            // the outgoing context now owns the processor's register file
            final(self).loadable,
            final(self).fx_file == old(cpu).fpu,
            final(self).cr3 == old(cpu).cr3,
            final(self).rflags == old(cpu).rflags,
            final(self).rbx == old(cpu).rbx,
            final(self).r12 == old(cpu).r12,
            final(self).r13 == old(cpu).r13,
            final(self).r14 == old(cpu).r14,
            final(self).r15 == old(cpu).r15,
            final(self).rbp == old(cpu).rbp,
            final(self).rsp == old(cpu).rsp,
            final(self).fx == old(self).fx,
            final(self).stack == old(self).stack,
            // the processor now runs the incoming context
            old(next).loadable ==> final(cpu).fpu == old(next).fx_file,
            !old(next).loadable ==> fpu_is_reset(final(cpu).fpu),
            final(cpu).cr3 == old(next).cr3,
            final(cpu).rflags == old(next).rflags,
            final(cpu).rbx == old(next).rbx,
            final(cpu).r12 == old(next).r12,
            final(cpu).r13 == old(next).r13,
            final(cpu).r14 == old(next).r14,
            final(cpu).r15 == old(next).r15,
            final(cpu).rbp == old(next).rbp,
            final(cpu).rsp == old(next).rsp,
            *final(next) == *old(next),
            // the lock is free again for the next processor
            !final(lock).spec_held(),
    {
        self.fx_file = cpu.fpu;
        self.loadable = true;
        if next.loadable {
            cpu.fpu = next.fx_file;
        } else {
            cpu.fpu = FloatRegisters::new();
        }

        self.cr3 = cpu.cr3;
        if next.cr3 != self.cr3 {
            cpu.cr3 = next.cr3;
        }

        self.rflags = cpu.rflags;
        cpu.rflags = next.rflags;

        self.rbx = cpu.rbx;
        cpu.rbx = next.rbx;

        self.r12 = cpu.r12;
        cpu.r12 = next.r12;

        self.r13 = cpu.r13;
        cpu.r13 = next.r13;

        self.r14 = cpu.r14;
        cpu.r14 = next.r14;

        self.r15 = cpu.r15;
        cpu.r15 = next.r15;

        self.rsp = cpu.rsp;
        cpu.rsp = next.rsp;

        self.rbp = cpu.rbp;
        cpu.rbp = next.rbp;

        // Unset the global lock after saving registers, but before the
        // incoming context could touch further in-memory state.
        lock.release();
    }
}

/// The frame the signal-delivery trampoline finds on the stack: the
/// scratch registers it pushed, then the handler and its argument as the
/// signal path left them, then the return address back into the
/// interrupted code.
#[derive(Clone, Copy, Debug, Default)]
pub struct SignalHandlerStack {
    pub r11: usize,
    pub r10: usize,
    pub r9: usize,
    pub r8: usize,
    pub rsi: usize,
    pub rdi: usize,
    pub rdx: usize,
    pub rcx: usize,
    pub rax: usize,
    /// Address of the signal handler to invoke.
    pub handler: usize,
    /// The signal number passed to the handler.
    pub sig: usize,
    pub rip: usize,
}

/// FPU register read-back round-trips: after writing a register file into
/// a loadable context and reading it back, every consumer-visible bit of
/// every x87 slot equals what was written, while the reserved bits kept in
/// the buffer are exactly those the buffer held before the write. The
/// slot values are related here precisely as `set_fx_regs` and
/// `get_fx_regs` relate them.
pub proof fn lemma_fx_regs_round_trip(
    before: FloatRegisters,
    new: FloatRegisters,
    written: FloatRegisters,
    read: FloatRegisters,
)
    requires
        // what `set_fx_regs` stores into a buffer holding `before`
        forall|i: int|
            0 <= i < 8 ==> written.st_space[i] == (new.st_space[i] & !ST_RESERVED) | (
            before.st_space[i] & ST_RESERVED),
        // what `get_fx_regs` then hands back
        forall|i: int| 0 <= i < 8 ==> read.st_space[i] == written.st_space[i] & !ST_RESERVED,
    ensures
        forall|i: int| 0 <= i < 8 ==> read.st_space[i] == new.st_space[i] & !ST_RESERVED,
        forall|i: int|
            0 <= i < 8 ==> written.st_space[i] & ST_RESERVED == before.st_space[i] & ST_RESERVED,
{
    lemma_st_reserved_masking();
}

} // verus!
