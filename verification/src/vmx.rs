use vstd::prelude::*;
use crate::error::SystemError;
use x86::controlregs::{Cr0, Cr4};

verus! {

/// Every bit of CR0 that names a flag.
pub const CR0_FLAGS: usize = 0xe005_003f;

/// Every bit of CR4 that names a flag.
pub const CR4_FLAGS: usize = 0x0077_7fff;

/// `IA32_FEATURE_CONTROL`: the register is locked against writes.
pub const VMX_LOCK_BIT: u64 = 0x1;

/// `IA32_FEATURE_CONTROL`: VMXON is allowed outside SMX operation.
pub const VMXON_OUTSIDE_SMX: u64 = 0x4;

/// Invalidation of the mappings of one linear address.
pub const VMX_VPID_EXTENT_INDIVIDUAL_ADDR: u64 = 0;

/// Invalidation of the mappings of one virtual processor.
pub const VMX_VPID_EXTENT_SINGLE_CONTEXT: u64 = 1;

/// Invalidation of the mappings of every virtual processor.
pub const VMX_VPID_EXTENT_ALL_CONTEXT: u64 = 2;

/// Invalidation of the mappings of one virtual processor, global ones kept.
pub const VMX_VPID_EXTENT_SINGLE_NON_GLOBAL: u64 = 3;

/// A model-specific register access of a guest or of the host.
#[derive(Debug, Clone)]
pub struct MsrData {
    pub host_initiated: bool,
    pub index: u32,
    pub data: u64,
}

impl Default for MsrData {
    fn default() -> (r: MsrData)
        ensures
            r == (MsrData { host_initiated: false, index: 0, data: 0 }),
    {
        MsrData { host_initiated: false, index: 0, data: 0 }
    }
}

/// One entry of a register area that the processor loads or stores on a
/// transition.
#[derive(Debug, Copy, Clone)]
pub struct VmxMsrEntry {
    pub index: u32,
    pub reserved: u32,
    pub data: u64,
}

impl Default for VmxMsrEntry {
    fn default() -> (r: VmxMsrEntry)
        ensures
            r == (VmxMsrEntry { index: 0, reserved: 0, data: 0 }),
    {
        VmxMsrEntry { index: 0, reserved: 0, data: 0 }
    }
}

/// The segment registers of a virtual processor.
#[derive(Debug, PartialEq, Eq, Structural, Clone, Copy)]
pub enum VcpuSegment {
    ES,
    CS,
    SS,
    DS,
    FS,
    GS,
    TR,
    LDTR,
}

/// The cached fields of a segment register; `NR` counts them.
#[derive(Debug, PartialEq, Eq, Structural, Clone, Copy)]
pub enum SegmentCacheField {
    SEL,
    BASE,
    LIMIT,
    AR,
    NR,
}

impl SegmentCacheField {
    /// The position of the field in the cache of a segment.
    pub open spec fn spec_index(self) -> usize {
        match self {
            SegmentCacheField::SEL => 0,
            SegmentCacheField::BASE => 1,
            SegmentCacheField::LIMIT => 2,
            SegmentCacheField::AR => 3,
            SegmentCacheField::NR => 4,
        }
    }

    #[verifier::when_used_as_spec(spec_index)]
    pub fn index(self) -> (r: usize)
        ensures
            r == self.spec_index(),
    {
        match self {
            SegmentCacheField::SEL => 0,
            SegmentCacheField::BASE => 1,
            SegmentCacheField::LIMIT => 2,
            SegmentCacheField::AR => 3,
            SegmentCacheField::NR => 4,
        }
    }
}

/// An `invvpid` to execute: the extent of the invalidation and the
/// instruction's 128-bit operand.
#[derive(Debug, PartialEq, Eq, Structural, Clone, Copy)]
pub struct Invvpid {
    pub ext: u64,
    pub operand: u128,
}

/// `x86::controlregs::Cr0::from_bits_truncate`, read back with `bits`: the
/// bits of the argument that name a flag of CR0, and no others.
#[verifier::external_body]
fn cr0_from_bits_truncate(bits: usize) -> (r: usize)
    ensures
        r == bits & CR0_FLAGS,
{
    Cr0::from_bits_truncate(bits).bits()
}

/// `x86::controlregs::Cr4::from_bits_truncate`, read back with `bits`: the
/// bits of the argument that name a flag of CR4, and no others.
#[verifier::external_body]
fn cr4_from_bits_truncate(bits: usize) -> (r: usize)
    ensures
        r == bits & CR4_FLAGS,
{
    Cr4::from_bits_truncate(bits).bits()
}

/// The register arithmetic of the host side of KVM.
pub struct KvmX86Asm;

impl KvmX86Asm {
    /// Whether the selector names the null descriptor of the global table.
    pub open spec fn selects_null(segment_selector: u16) -> bool {
        segment_selector & 0x0004 == 0 && segment_selector >> 3 == 0
    }

    /// The 32-bit base address that a segment descriptor holds: its bits 16
    /// to 31 are the low half, its bits 32 to 39 the next byte, its bits 56
    /// to 63 the top byte.
    pub open spec fn descriptor_base(descriptor: u64) -> u64 {
        (((descriptor & 0xFF00_0000_0000_0000) >> 32) | ((descriptor & 0x0000_00FF_0000_0000)
            >> 16) | ((descriptor & 0x0000_0000_FFFF_0000) >> 16)) & 0xFFFF_FFFF
    }

    /// The base address of the segment that `segment_selector` names in the
    /// descriptor table `gdt`; zero for the null selector. The selector must
    /// name a descriptor of the table.
    pub fn get_segment_base(gdt: &[u64], segment_selector: u16) -> (r: u64)
        requires
            Self::selects_null(segment_selector) || (segment_selector >> 3) < gdt@.len(),
        ensures
            Self::selects_null(segment_selector) ==> r == 0,
            !Self::selects_null(segment_selector) ==> r == Self::descriptor_base(
                gdt@[(segment_selector >> 3) as int],
            ),
            r <= 0xFFFF_FFFF,
    {
        let table = segment_selector & 0x0004;
        let index = (segment_selector >> 3) as usize;
        if table == 0 && index == 0 {
            return 0;
        }
        let descriptor = gdt[index];
        let base_high = (descriptor & 0xFF00_0000_0000_0000) >> 32;
        let base_mid = (descriptor & 0x0000_00FF_0000_0000) >> 16;
        let base_low = (descriptor & 0x0000_0000_FFFF_0000) >> 16;
        let segment_base = (base_high | base_mid | base_low) & 0xFFFF_FFFF;
        assert(segment_base <= 0xFFFF_FFFF) by (bit_vector)
            requires
                segment_base == (base_high | base_mid | base_low) & 0xFFFF_FFFFu64,
        ;
        segment_base
    }
}

/// The register arithmetic of VMX operation.
pub struct VmxAsm;

impl VmxAsm {
    /// The operand of `invvpid`: the processor identifier in the low 16
    /// bits, 48 bits of zero, and the linear address in the high 64 bits.
    pub open spec fn operand(vpid: u16, gva: u64) -> u128 {
        (vpid + gva * 0x1_0000_0000_0000_0000) as u128
    }

    /// Invalidates the mappings of the virtual processor `vpid`. The
    /// identifier zero is the host's own and is never invalidated.
    pub fn sync_vcpu_single(vpid: u16) -> (r: Option<Invvpid>)
        ensures
            vpid == 0 ==> r is None,
            vpid != 0 ==> r == Some(
                Invvpid { ext: VMX_VPID_EXTENT_SINGLE_CONTEXT, operand: vpid as u128 },
            ),
    {
        if vpid == 0 {
            return None;
        }
        Some(Self::invvpid(VMX_VPID_EXTENT_SINGLE_CONTEXT, vpid, 0))
    }

    /// Invalidates the mappings of every virtual processor.
    pub fn sync_vcpu_global() -> (r: Invvpid)
        ensures
            r == (Invvpid { ext: VMX_VPID_EXTENT_ALL_CONTEXT, operand: 0 }),
    {
        Self::invvpid(VMX_VPID_EXTENT_ALL_CONTEXT, 0, 0)
    }

    /// Builds the `invvpid` of the given extent for the processor `vpid` and
    /// the linear address `gva`.
    pub fn invvpid(ext: u64, vpid: u16, gva: u64) -> (r: Invvpid)
        ensures
            r == (Invvpid { ext, operand: Self::operand(vpid, gva) }),
    {
        let low: u128 = vpid as u128;
        let high: u128 = gva as u128;
        Invvpid { ext, operand: low + high * 0x1_0000_0000_0000_0000 }
    }

    /// What is to be written to `IA32_FEATURE_CONTROL`, given what it holds.
    /// An unlocked register is locked with VMXON allowed outside SMX. A
    /// locked one is left alone, and must allow VMXON outside SMX already.
    pub fn vmx_set_lock_bit(ia32_feature_control: u64) -> (r: Result<Option<u64>, SystemError>)
        ensures
            ia32_feature_control & VMX_LOCK_BIT == 0 ==> r == Ok::<Option<u64>, SystemError>(
                Some(VMXON_OUTSIDE_SMX | VMX_LOCK_BIT | ia32_feature_control),
            ),
            ia32_feature_control & VMX_LOCK_BIT != 0 && ia32_feature_control & VMXON_OUTSIDE_SMX
                == 0 ==> r == Err::<Option<u64>, SystemError>(SystemError::NotPermitted),
            ia32_feature_control & VMX_LOCK_BIT != 0 && ia32_feature_control & VMXON_OUTSIDE_SMX
                != 0 ==> r == Ok::<Option<u64>, SystemError>(None),
    {
        if (ia32_feature_control & VMX_LOCK_BIT) == 0 {
            Ok(Some(VMXON_OUTSIDE_SMX | VMX_LOCK_BIT | ia32_feature_control))
        } else if (ia32_feature_control & VMXON_OUTSIDE_SMX) == 0 {
            Err(SystemError::NotPermitted)
        } else {
            Ok(None)
        }
    }

    /// The value that a control register must take for VMX operation: of its
    /// flags `reg`, those that `fixed0` sets are set and those that `fixed1`
    /// clears are cleared; `flags` are the bits that name a flag.
    pub open spec fn fixed_bits(reg: usize, fixed0: u64, fixed1: u64, flags: usize) -> usize {
        ((reg & flags) | ((fixed0 as usize) & flags)) & ((fixed1 as usize) & flags)
    }

    /// The value to write to CR0, given what it holds and the two registers
    /// that say which of its bits VMX operation fixes.
    pub fn vmx_set_cr0_bits(cr0: usize, ia32_vmx_cr0_fixed0: u64, ia32_vmx_cr0_fixed1: u64) -> (r:
        usize)
        ensures
            r == Self::fixed_bits(cr0, ia32_vmx_cr0_fixed0, ia32_vmx_cr0_fixed1, CR0_FLAGS),
    {
        let mut cr0 = cr0_from_bits_truncate(cr0);
        cr0 |= cr0_from_bits_truncate(
            #[verifier::truncate]
            (ia32_vmx_cr0_fixed0 as usize),
        );
        cr0 &= cr0_from_bits_truncate(
            #[verifier::truncate]
            (ia32_vmx_cr0_fixed1 as usize),
        );
        cr0
    }

    /// The value to write to CR4, given what it holds and the two registers
    /// that say which of its bits VMX operation fixes.
    pub fn vmx_set_cr4_bits(cr4: usize, ia32_vmx_cr4_fixed0: u64, ia32_vmx_cr4_fixed1: u64) -> (r:
        usize)
        ensures
            r == Self::fixed_bits(cr4, ia32_vmx_cr4_fixed0, ia32_vmx_cr4_fixed1, CR4_FLAGS),
    {
        let mut cr4 = cr4_from_bits_truncate(cr4);
        cr4 |= cr4_from_bits_truncate(
            #[verifier::truncate]
            (ia32_vmx_cr4_fixed0 as usize),
        );
        cr4 &= cr4_from_bits_truncate(
            #[verifier::truncate]
            (ia32_vmx_cr4_fixed1 as usize),
        );
        cr4
    }
}

} // verus!
