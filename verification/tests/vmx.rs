use pty_core::error::SystemError;
use pty_core::vmx::{
    Invvpid, KvmX86Asm, MsrData, SegmentCacheField, VcpuSegment, VmxAsm, VmxMsrEntry, CR0_FLAGS,
    CR4_FLAGS, VMX_VPID_EXTENT_ALL_CONTEXT, VMX_VPID_EXTENT_INDIVIDUAL_ADDR,
    VMX_VPID_EXTENT_SINGLE_CONTEXT, VMX_VPID_EXTENT_SINGLE_NON_GLOBAL,
};

#[test]
fn null_selector_has_base_zero() {
    assert_eq!(KvmX86Asm::get_segment_base(&[], 0), 0);
    assert_eq!(KvmX86Asm::get_segment_base(&[u64::MAX], 0), 0);
    assert_eq!(KvmX86Asm::get_segment_base(&[u64::MAX], 3), 0);
}

#[test]
fn segment_base_is_gathered_from_the_descriptor() {
    let descriptor: u64 = 0x12cf_9a34_5678_ffff;
    let gdt = [0, 0, descriptor];
    assert_eq!(KvmX86Asm::get_segment_base(&gdt, 2 << 3), 0x1234_5678);
    assert_eq!(KvmX86Asm::get_segment_base(&gdt, (2 << 3) | 3), 0x1234_5678);
    assert_eq!(KvmX86Asm::get_segment_base(&gdt, 1 << 3), 0);
    assert_eq!(KvmX86Asm::get_segment_base(&[u64::MAX, u64::MAX], 1 << 3), 0xffff_ffff);
    assert_eq!(KvmX86Asm::get_segment_base(&[0x0000_0000_0001_0000], 4), 1);
}

#[test]
fn single_sync_skips_the_hosts_identifier() {
    assert_eq!(VmxAsm::sync_vcpu_single(0), None);
    assert_eq!(VmxAsm::sync_vcpu_single(1), Some(Invvpid { ext: 1, operand: 1 }));
    assert_eq!(VmxAsm::sync_vcpu_single(0xffff), Some(Invvpid { ext: 1, operand: 0xffff }));
}

#[test]
fn global_sync_names_every_context() {
    assert_eq!(VmxAsm::sync_vcpu_global(), Invvpid { ext: 2, operand: 0 });
    assert_eq!(
        (
            VMX_VPID_EXTENT_INDIVIDUAL_ADDR,
            VMX_VPID_EXTENT_SINGLE_CONTEXT,
            VMX_VPID_EXTENT_ALL_CONTEXT,
            VMX_VPID_EXTENT_SINGLE_NON_GLOBAL
        ),
        (0, 1, 2, 3)
    );
}

#[test]
fn invvpid_operand_holds_vpid_low_and_address_high() {
    let r = VmxAsm::invvpid(0, 0xabcd, 0x1122_3344_5566_7788);
    assert_eq!(r.ext, 0);
    assert_eq!(r.operand, 0x1122_3344_5566_7788_0000_0000_0000_abcd);
    assert_eq!(VmxAsm::invvpid(3, u16::MAX, u64::MAX).operand, (u128::from(u64::MAX) << 64) | 0xffff);
}

#[test]
fn lock_bit_is_set_on_an_unlocked_register() {
    assert_eq!(VmxAsm::vmx_set_lock_bit(0), Ok(Some(5)));
    assert_eq!(VmxAsm::vmx_set_lock_bit(0x4), Ok(Some(5)));
    assert_eq!(VmxAsm::vmx_set_lock_bit(0xff00), Ok(Some(0xff05)));
}

#[test]
fn locked_register_must_allow_vmxon() {
    assert_eq!(VmxAsm::vmx_set_lock_bit(0x1), Err(SystemError::NotPermitted));
    assert_eq!(VmxAsm::vmx_set_lock_bit(0x3), Err(SystemError::NotPermitted));
    assert_eq!(VmxAsm::vmx_set_lock_bit(0x5), Ok(None));
    assert_eq!(VmxAsm::vmx_set_lock_bit(u64::MAX), Ok(None));
}

#[test]
fn cr0_takes_the_fixed_bits_among_its_flags() {
    assert_eq!(CR0_FLAGS, 0xe005_003f);
    assert_eq!(VmxAsm::vmx_set_cr0_bits(0x11, 0x8000_0021, 0xffff_ffff), 0x8000_0031);
    assert_eq!(VmxAsm::vmx_set_cr0_bits(0x8005_003f, 0, 0x8000_0001), 0x8000_0001);
    assert_eq!(VmxAsm::vmx_set_cr0_bits(usize::MAX, u64::MAX, u64::MAX), 0xe005_003f);
    assert_eq!(VmxAsm::vmx_set_cr0_bits(0x40, 0x80, u64::MAX), 0);
    assert_eq!(VmxAsm::vmx_set_cr0_bits(0x1, 0x2, 0), 0);
}

#[test]
fn cr4_takes_the_fixed_bits_among_its_flags() {
    assert_eq!(CR4_FLAGS, 0x0077_7fff);
    assert_eq!(VmxAsm::vmx_set_cr4_bits(0x20, 0x2000, 0xffff_ffff), 0x2020);
    assert_eq!(VmxAsm::vmx_set_cr4_bits(0x2020, 0, 0x2000), 0x2000);
    assert_eq!(VmxAsm::vmx_set_cr4_bits(usize::MAX, u64::MAX, u64::MAX), 0x0077_7fff);
    assert_eq!(VmxAsm::vmx_set_cr4_bits(0x8000, 0x8_0000, u64::MAX), 0);
}

#[test]
fn records_start_zeroed() {
    let m = MsrData::default();
    assert_eq!((m.host_initiated, m.index, m.data), (false, 0, 0));
    let e = VmxMsrEntry::default();
    assert_eq!((e.index, e.reserved, e.data), (0, 0, 0));
}

#[test]
fn segment_cache_fields_are_numbered_in_order() {
    assert_eq!(SegmentCacheField::SEL.index(), 0);
    assert_eq!(SegmentCacheField::BASE.index(), 1);
    assert_eq!(SegmentCacheField::LIMIT.index(), 2);
    assert_eq!(SegmentCacheField::AR.index(), 3);
    assert_eq!(SegmentCacheField::NR.index(), 4);
    assert_ne!(VcpuSegment::ES, VcpuSegment::LDTR);
    assert_eq!(VcpuSegment::TR, VcpuSegment::TR);
}
