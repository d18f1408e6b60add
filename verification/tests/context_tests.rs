use kernel_core::context::{Context, CpuState, FloatRegisters, SwitchLock, ST_RESERVED};

fn cpu_with_marker_registers() -> CpuState {
    let mut fpu = FloatRegisters::new();
    fpu.fcw = 0x037F;
    fpu.st_space[0] = 0x1234;
    CpuState {
        fpu,
        cr3: 0x1000,
        rflags: 0x202,
        rbx: 11,
        r12: 12,
        r13: 13,
        r14: 14,
        r15: 15,
        rbp: 16,
        rsp: 17,
    }
}

// Concurrent switch attempts from two simulated processors never observe
// the lock as available to both.
#[test]
fn switch_lock_exclusive_between_two_processors() {
    let mut lock = SwitchLock::new();
    let first_cpu_won = lock.try_acquire();
    let second_cpu_won = lock.try_acquire();
    assert!(first_cpu_won);
    assert!(!second_cpu_won);
    assert!(!(first_cpu_won && second_cpu_won));
    lock.release();
    assert!(lock.try_acquire());
}

#[test]
fn switch_saves_outgoing_and_restores_incoming_registers() {
    let mut lock = SwitchLock::new();
    assert!(lock.try_acquire());
    let mut prev = Context::new();
    let mut next = Context::new();
    next.loadable = true;
    next.fx_file.st_space[2] = 99;
    next.cr3 = 0x2000;
    next.rflags = 0x246;
    next.rbx = 21;
    next.r12 = 22;
    next.r13 = 23;
    next.r14 = 24;
    next.r15 = 25;
    next.rbp = 26;
    next.rsp = 27;
    let mut cpu = cpu_with_marker_registers();
    prev.switch_to(&mut next, &mut cpu, &mut lock);
    // The outgoing context owns the processor's old register file.
    assert!(prev.loadable);
    assert_eq!(prev.fx_file.fcw, 0x037F);
    assert_eq!(prev.fx_file.st_space[0], 0x1234);
    assert_eq!(prev.cr3, 0x1000);
    assert_eq!(prev.rflags, 0x202);
    assert_eq!(
        (prev.rbx, prev.r12, prev.r13, prev.r14, prev.r15, prev.rbp, prev.rsp),
        (11, 12, 13, 14, 15, 16, 17)
    );
    // The processor now runs the incoming context.
    assert_eq!(cpu.fpu.st_space[2], 99);
    assert_eq!(cpu.cr3, 0x2000);
    assert_eq!(
        (cpu.rflags, cpu.rbx, cpu.r12, cpu.r13, cpu.r14, cpu.r15, cpu.rbp, cpu.rsp),
        (0x246, 21, 22, 23, 24, 25, 26, 27)
    );
    // The lock was released by the switch itself.
    assert!(lock.try_acquire());
}

#[test]
fn switch_resets_fpu_when_incoming_file_is_not_loadable() {
    let mut lock = SwitchLock::new();
    assert!(lock.try_acquire());
    let mut prev = Context::new();
    let mut next = Context::new();
    let mut cpu = cpu_with_marker_registers();
    prev.switch_to(&mut next, &mut cpu, &mut lock);
    assert_eq!(cpu.fpu.fcw, 0);
    assert_eq!(cpu.fpu.st_space[0], 0);
}

// Writing a register file and reading it back yields identical
// consumer-visible bits, while reserved bits keep their prior contents.
#[test]
fn fx_registers_round_trip_and_preserve_reserved_bits() {
    let mut ctx = Context::new();
    ctx.loadable = true;
    ctx.fx_file._reserved = 0xAB;
    ctx.fx_file.st_space[0] = (7u128 << 112) | 0x1111;
    let mut new = FloatRegisters::new();
    new.fcw = 0x1F80;
    // The caller tries to plant garbage in the reserved bits.
    new.st_space[0] = (0xEEu128 << 112) | 0x2222;
    new.xmm_space[3] = 0xDEAD;
    assert!(ctx.set_fx_regs(new));
    // The write kept the buffer's reserved bits, not the caller's.
    assert_eq!(ctx.fx_file.st_space[0] & ST_RESERVED, 7u128 << 112);
    assert_eq!(ctx.fx_file.st_space[0] & !ST_RESERVED, 0x2222);
    assert_eq!(ctx.fx_file._reserved, 0xAB);
    let read = ctx.get_fx_regs().unwrap();
    // Read-back shows exactly the consumer-visible bits written, and no
    // reserved-bit contents at all.
    assert_eq!(read.st_space[0], 0x2222);
    assert_eq!(read.fcw, 0x1F80);
    assert_eq!(read.xmm_space[3], 0xDEAD);
    assert_eq!(read._reserved, 0);
}

#[test]
fn fx_registers_refuse_unloaded_buffer() {
    let mut ctx = Context::new();
    assert!(ctx.get_fx_regs().is_none());
    assert!(!ctx.set_fx_regs(FloatRegisters::new()));
}

#[test]
fn stack_push_and_pop_round_trip() {
    let mut ctx = Context::new();
    ctx.set_stack(0x1000);
    ctx.push_stack(42);
    ctx.push_stack(43);
    assert_eq!(ctx.rsp, 0x1000 - 16);
    assert_eq!(ctx.pop_stack(), 43);
    assert_eq!(ctx.pop_stack(), 42);
    assert_eq!(ctx.rsp, 0x1000);
}

#[test]
fn signal_stack_records_the_pending_continuation() {
    let mut ctx = Context::new();
    ctx.set_stack(0x2000);
    ctx.signal_stack(0xCAFE, 9);
    assert_eq!(ctx.rsp, 0x2000 - 16);
    assert_eq!(ctx.pop_stack(), 0xCAFE);
    assert_eq!(ctx.pop_stack(), 9);
}

#[test]
fn context_setters_update_their_fields() {
    let mut ctx = Context::new();
    ctx.set_fx(0x3000);
    ctx.set_page_table(0x4000);
    ctx.set_stack(0x5000);
    assert_eq!(ctx.fx, 0x3000);
    assert_eq!(ctx.get_page_table(), 0x4000);
    assert_eq!(ctx.rsp, 0x5000);
    assert!(!ctx.loadable);
}
