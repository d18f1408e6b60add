use kernel_core::aml::{AmlError, Sdt};
use kernel_core::idt::{
    available_irqs_iter, new_idt_reservations, Idt, IdtEntry, IDT_INTERRUPT, IDT_PRESENT,
    IDT_RING_0, IDT_RING_3,
};
use kernel_core::interrupt::{
    pause, InterruptErrorStack, InterruptErrorStackP, InterruptStack, InterruptStackP,
    IretRegisters, PreservedRegisters, ScratchRegisters,
};
use kernel_core::log::{init, Log};
use kernel_core::start::{KernelArgs, KernelArgsAp};
use kernel_core::uart::SerialPort;

#[test]
fn serial_write_translates_control_bytes() {
    let mut port = SerialPort::new(0x3F8);
    assert_eq!(port.transmitted(), &b""[..]);
    port.write(b"hi\n");
    assert_eq!(port.transmitted(), &b"hi\r\n"[..]);
    let mut erased = SerialPort::new(0x3F8);
    erased.write(&[b'a', 8, 0x7F, b'b']);
    assert_eq!(erased.transmitted(), &[b'a', 8, b' ', 8, 8, b' ', 8, b'b'][..]);
}

#[test]
fn serial_send_appends_raw_bytes() {
    let mut port = SerialPort::new(0x2F8);
    port.send(0xFF);
    port.send(0x00);
    assert_eq!(port.transmitted(), &[0xFF, 0x00][..]);
}

#[test]
fn log_keeps_the_most_recent_bytes() {
    let mut log = Log::new(4);
    log.write(b"ab");
    assert_eq!(log.read(), &b"ab"[..]);
    log.write(b"cd");
    // A bound of four keeps at most three bytes, dropping the oldest.
    assert_eq!(log.read(), &b"bcd"[..]);
    log.write(b"xyz");
    assert_eq!(log.read(), &b"xyz"[..]);
}

#[test]
fn boot_log_starts_empty_with_the_boot_size() {
    let mut log = init();
    assert_eq!(log.read(), &b""[..]);
    log.write(b"boot");
    assert_eq!(log.read(), &b"boot"[..]);
}

#[test]
fn aml_tables_are_recognized_by_signature() {
    let mut sdt = Sdt {
        signature: *b"DSDT",
        length: 36,
        revision: 2,
        checksum: 0,
        oem_id: *b"OEMIDX",
        oem_table_id: *b"TABLEIDX",
        oem_revision: 1,
        creator_id: 1,
        creator_revision: 1,
    };
    assert!(kernel_core::aml::is_aml_table(&sdt));
    sdt.signature = *b"SSDT";
    assert!(kernel_core::aml::is_aml_table(&sdt));
    sdt.signature = *b"APIC";
    assert!(!kernel_core::aml::is_aml_table(&sdt));
    sdt.signature = *b"XSDT";
    assert!(!kernel_core::aml::is_aml_table(&sdt));
    let _ = AmlError::AmlInvalidOpCode;
    let _ = AmlError::AmlFatalError(1, 2);
}

#[test]
fn idt_entry_packs_the_handler_address() {
    let mut gate = IdtEntry::new();
    gate.set_func(0x1122_3344_5566_7788);
    assert_eq!(gate.offsetl, 0x7788);
    assert_eq!(gate.offsetm, 0x5566);
    assert_eq!(gate.offseth, 0x1122_3344);
    assert_eq!(gate.selector, 8);
    assert_eq!(gate.attribute, IDT_PRESENT | IDT_RING_0 | IDT_INTERRUPT);
    gate.set_flags(IDT_PRESENT | IDT_RING_3 | IDT_INTERRUPT);
    assert_eq!(gate.attribute, 0x80 | 0x60 | 0xE);
}

#[test]
fn idt_reservations_are_one_way() {
    let mut idt = Idt::new();
    assert!(!idt.is_reserved(80));
    idt.set_reserved(80, true);
    assert!(idt.is_reserved(80));
    assert!(!idt.is_reserved(81));
    // Clearing is not supported: the bit stays.
    idt.set_reserved(80, false);
    assert!(idt.is_reserved(80));
    idt.set_reserved_mut(81, true);
    assert!(idt.is_reserved_mut(81));
}

#[test]
fn allocate_interrupt_claims_the_lowest_free_vector() {
    let mut idt = Idt::new();
    assert_eq!(idt.allocate_interrupt(), Some(50));
    assert_eq!(idt.allocate_interrupt(), Some(51));
    assert!(idt.is_reserved(50));
    let mut n = 52;
    while n <= 254 {
        idt.set_reserved(n, true);
        n += 1;
    }
    assert_eq!(idt.allocate_interrupt(), None);
}

#[test]
fn available_irqs_skip_reserved_vectors() {
    let mut idt = Idt::new();
    idt.set_reserved(32, true);
    idt.set_reserved(40, true);
    let avail = available_irqs_iter(&idt);
    assert_eq!(avail.len(), (254 - 32 + 1) - 2);
    assert_eq!(avail[0], 33);
    assert!(!avail.contains(&40));
    let reservations = new_idt_reservations();
    assert_eq!(reservations, vec![0, 0, 0, 0]);
}

#[test]
fn trap_frames_expose_their_registers() {
    let mut stack = InterruptStack::default();
    stack.scratch = ScratchRegisters { rax: 1, rcx: 2, rdx: 3, rdi: 4, rsi: 5, r8: 6, r9: 7, r10: 8, r11: 9 };
    stack.preserved = PreservedRegisters { rbx: 10, rbp: 11, r12: 12, r13: 13, r14: 14, r15: 15 };
    stack.iret = IretRegisters { rip: 0x100, cs: 8, rflags: 0x202 };
    stack.dump();
    stack.scratch.dump();
    stack.preserved.dump();
    stack.iret.dump();
    assert_eq!(stack.scratch.rax, 1);
    assert_eq!(stack.preserved.r15, 15);
    assert_eq!(stack.iret.rflags, 0x202);
    let error_stack = InterruptErrorStack { code: 13, ..Default::default() };
    error_stack.dump();
    assert_eq!(error_stack.code, 13);
    InterruptStackP::default().dump();
    InterruptErrorStackP::default().dump();
    pause();
}

#[test]
fn kernel_args_carry_the_boot_layout() {
    let args = KernelArgs {
        kernel_base: 0x10_0000,
        kernel_size: 0x20_0000,
        stack_base: 0x40_0000,
        stack_size: 0x1_0000,
        env_base: 0,
        env_size: 0,
        acpi_rsdps_base: 0,
        acpi_rsdps_size: 0,
    };
    assert_eq!(args.kernel_base + args.kernel_size, 0x30_0000);
    let ap = KernelArgsAp { cpu_id: 1, page_table: 0x5000, stack_start: 0x6000, stack_end: 0x7000 };
    assert_eq!(ap.stack_end - ap.stack_start, 0x1000);
}
