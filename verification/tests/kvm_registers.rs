use microvmi::api::{zero_extend_u32, segment_reg, CrType, EventReplyType, EventType, Registers, VmiError};
use microvmi::driver::kvm::native::{
    KvmCr, KvmEventKind, KvmEventReply, KvmMsrEntry, KvmRegs, KvmSegment, KvmSregs,
};
use microvmi::driver::kvm::convert::{
    cr_from_native, cr_to_native, event_kind_from_native, find_msr, registers_from_native,
    reply_to_native, segment_from_native, MSR_EFER, MSR_LSTAR, MSR_STAR, MSR_SYSENTER_CS,
    MSR_SYSENTER_EIP, MSR_SYSENTER_ESP,
};
use microvmi::driver::kvm::Kvm;

fn entry(index: u32, data: u64) -> KvmMsrEntry {
    KvmMsrEntry { index, data }
}

#[test]
fn rax_comes_through_unchanged() {
    let kvm = Kvm::new("some_vm", Ok(1)).unwrap();
    assert!(kvm.read_registers(0).is_ok());
    let regs = KvmRegs { rax: 0x1234, ..KvmRegs::default() };
    let Registers::X86(snapshot) = registers_from_native(&regs, &KvmSregs::default(), &Vec::new());
    assert_eq!(snapshot.rax, 0x1234);
    assert_eq!(snapshot.rbx, 0);
    assert_eq!(snapshot.rip, 0);
}

#[test]
fn a_narrow_register_is_zero_extended() {
    assert_eq!(zero_extend_u32(0x1234), 0x1234u64);
    assert_eq!(zero_extend_u32(0), 0u64);
    assert_eq!(zero_extend_u32(0x8000_0000), 0x0000_0000_8000_0000u64);
    assert_eq!(zero_extend_u32(u32::MAX), 0x0000_0000_ffff_ffffu64);
    let regs = KvmRegs { rax: zero_extend_u32(0xffff_1234), ..KvmRegs::default() };
    let Registers::X86(snapshot) = registers_from_native(&regs, &KvmSregs::default(), &Vec::new());
    assert_eq!(snapshot.rax, 0xffff_1234);
}

#[test]
fn every_register_lands_in_its_field() {
    let regs = KvmRegs {
        rax: 1,
        rbx: 2,
        rcx: 3,
        rdx: 4,
        rsi: 5,
        rdi: 6,
        rsp: 7,
        rbp: 8,
        r8: 9,
        r9: 10,
        r10: 11,
        r11: 12,
        r12: 13,
        r13: 14,
        r14: 15,
        r15: 16,
        rip: 17,
        rflags: 18,
    };
    let seg = |n: u64| KvmSegment { base: 0x1000 * n, limit: 0x10 * n as u32, selector: n as u16 };
    let sregs = KvmSregs {
        cs: seg(1),
        ds: seg(2),
        es: seg(3),
        fs: seg(4),
        gs: seg(5),
        ss: seg(6),
        tr: seg(7),
        ldt: seg(8),
        cr0: 100,
        cr2: 102,
        cr3: 103,
        cr4: 104,
        efer: 105,
        apic_base: 106,
    };
    let msrs = vec![
        entry(MSR_SYSENTER_CS, 201),
        entry(MSR_SYSENTER_ESP, 202),
        entry(MSR_SYSENTER_EIP, 203),
        entry(MSR_EFER, 204),
        entry(MSR_STAR, 205),
        entry(MSR_LSTAR, 206),
    ];
    let Registers::X86(x) = registers_from_native(&regs, &sregs, &msrs);
    let gp = [
        x.rax, x.rbx, x.rcx, x.rdx, x.rsi, x.rdi, x.rsp, x.rbp, x.r8, x.r9, x.r10, x.r11, x.r12,
        x.r13, x.r14, x.r15, x.rip, x.rflags,
    ];
    assert_eq!(gp, [1, 2, 3, 4, 5, 6, 7, 8, 9, 10, 11, 12, 13, 14, 15, 16, 17, 18]);
    assert_eq!([x.cr0, x.cr2, x.cr3, x.cr4], [100, 102, 103, 104]);
    assert_eq!([x.efer, x.apic_base], [105, 106]);
    assert_eq!(
        [x.sysenter_cs, x.sysenter_esp, x.sysenter_eip, x.msr_efer, x.msr_star, x.msr_lstar],
        [201, 202, 203, 204, 205, 206]
    );
    let segments = [x.cs, x.ds, x.es, x.fs, x.gs, x.ss, x.tr, x.ldt];
    for (i, segment) in segments.iter().enumerate() {
        let n = i as u64 + 1;
        assert_eq!(
            *segment,
            segment_reg { base: 0x1000 * n, limit: 0x10 * n as u32, selector: n as u16 }
        );
    }
}

#[test]
fn a_segment_keeps_its_widths() {
    let native = KvmSegment { base: u64::MAX, limit: u32::MAX, selector: u16::MAX };
    assert_eq!(
        segment_from_native(&native),
        segment_reg { base: u64::MAX, limit: u32::MAX, selector: u16::MAX }
    );
}

#[test]
fn the_msr_indices_are_the_architectural_ones() {
    assert_eq!(MSR_SYSENTER_CS, 0x174);
    assert_eq!(MSR_SYSENTER_ESP, 0x175);
    assert_eq!(MSR_SYSENTER_EIP, 0x176);
    assert_eq!(MSR_EFER, 0xc0000080);
    assert_eq!(MSR_STAR, 0xc0000081);
    assert_eq!(MSR_LSTAR, 0xc0000082);
}

#[test]
fn the_first_entry_for_an_msr_counts() {
    let msrs = vec![entry(0x175, 5), entry(0x174, 7), entry(0x174, 9), entry(0xc0000082, 11)];
    assert_eq!(find_msr(&msrs, 0x174), 7);
    assert_eq!(find_msr(&msrs, 0x175), 5);
    assert_eq!(find_msr(&msrs, 0xc0000082), 11);
}

#[test]
fn a_missing_msr_reads_as_zero() {
    let msrs = vec![entry(0x174, 7)];
    assert_eq!(find_msr(&msrs, 0x176), 0);
    assert_eq!(find_msr(&Vec::new(), 0x174), 0);
    let Registers::X86(x) = registers_from_native(&KvmRegs::default(), &KvmSregs::default(), &msrs);
    assert_eq!(x.sysenter_cs, 7);
    assert_eq!(x.sysenter_eip, 0);
    assert_eq!(x.msr_lstar, 0);
}

#[test]
fn control_registers_translate_both_ways() {
    assert_eq!(cr_from_native(KvmCr::Cr0), CrType::Cr0);
    assert_eq!(cr_from_native(KvmCr::Cr3), CrType::Cr3);
    assert_eq!(cr_from_native(KvmCr::Cr4), CrType::Cr4);
    assert_eq!(cr_to_native(CrType::Cr0), Some(KvmCr::Cr0));
    assert_eq!(cr_to_native(CrType::Cr2), None);
    assert_eq!(cr_to_native(CrType::Cr3), Some(KvmCr::Cr3));
    assert_eq!(cr_to_native(CrType::Cr4), Some(KvmCr::Cr4));
    for cr in [KvmCr::Cr0, KvmCr::Cr3, KvmCr::Cr4] {
        assert_eq!(cr_to_native(cr_from_native(cr)), Some(cr));
    }
}

#[test]
fn event_kinds_translate() {
    assert_eq!(
        event_kind_from_native(KvmEventKind::Cr { cr_type: KvmCr::Cr4, new: 0x2000, old: 0x20 }),
        Ok(EventType::Cr { cr_type: CrType::Cr4, new: 0x2000, old: 0x20 })
    );
    assert_eq!(event_kind_from_native(KvmEventKind::PauseVcpu), Err(VmiError::ProtocolDesync));
    assert_eq!(event_kind_from_native(KvmEventKind::Other), Err(VmiError::UnsupportedOperation));
}

#[test]
fn continue_stays_continue() {
    assert_eq!(reply_to_native(EventReplyType::Continue), KvmEventReply::Continue);
}
