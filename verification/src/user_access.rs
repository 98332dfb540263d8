use vstd::prelude::*;
use crate::error::SystemError;

verus! {

/// Whether `area` holds `size` bytes from `offset` on.
pub open spec fn user_area_holds(area: Seq<u8>, offset: int, size: int) -> bool {
    offset + size <= area.len()
}

/// The 32-bit value that four bytes hold from `offset` on, lowest byte first.
pub open spec fn user_u32(area: Seq<u8>, offset: int) -> int {
    area[offset] + area[offset + 1] * 0x100 + area[offset + 2] * 0x1_0000 + area[offset + 3]
        * 0x100_0000
}

/// The 64-bit value that eight bytes hold from `offset` on, lowest byte
/// first.
pub open spec fn user_u64(area: Seq<u8>, offset: int) -> int {
    user_u32(area, offset) + user_u32(area, offset + 4) * 0x1_0000_0000
}

/// Reads a 32-bit value out of the user's memory `area` at `offset`. An area
/// that does not hold four bytes there is a bad pointer.
pub fn read_u32_from_user(area: &[u8], offset: usize) -> (r: Result<u32, SystemError>)
    ensures
        user_area_holds(area@, offset as int, 4) ==> r is Ok && r->Ok_0 == user_u32(
            area@,
            offset as int,
        ),
        !user_area_holds(area@, offset as int, 4) ==> r == Err::<u32, SystemError>(
            SystemError::Fault,
        ),
{
    if area.len() < 4 || offset > area.len() - 4 {
        return Err(SystemError::Fault);
    }
    let b0: u32 = area[offset] as u32;
    let b1: u32 = area[offset + 1] as u32;
    let b2: u32 = area[offset + 2] as u32;
    let b3: u32 = area[offset + 3] as u32;
    Ok(b0 + b1 * 0x100 + b2 * 0x1_0000 + b3 * 0x100_0000)
}

/// Reads a 64-bit value out of the user's memory `area` at `offset`. An area
/// that does not hold eight bytes there is a bad pointer.
pub fn read_u64_from_user(area: &[u8], offset: usize) -> (r: Result<u64, SystemError>)
    ensures
        user_area_holds(area@, offset as int, 8) ==> r is Ok && r->Ok_0 == user_u64(
            area@,
            offset as int,
        ),
        !user_area_holds(area@, offset as int, 8) ==> r == Err::<u64, SystemError>(
            SystemError::Fault,
        ),
{
    if area.len() < 8 || offset > area.len() - 8 {
        return Err(SystemError::Fault);
    }
    let lo = match read_u32_from_user(area, offset) {
        Ok(v) => v,
        Err(e) => {
            return Err(e);
        },
    };
    let hi = match read_u32_from_user(area, offset + 4) {
        Ok(v) => v,
        Err(e) => {
            return Err(e);
        },
    };
    let lo64: u64 = lo as u64;
    let hi64: u64 = hi as u64;
    Ok(lo64 + hi64 * 0x1_0000_0000)
}

/// Writes a truth value into the first byte of the user's `size`-byte
/// variable at the start of `area`: one for true, zero for false. An area
/// that does not hold `size` bytes, or a variable of no bytes, is a bad
/// pointer.
pub fn copy_bool_to_user(area: &mut [u8], size: usize, value: bool) -> (r: Result<
    (),
    SystemError,
>)
    ensures
        0 < size <= old(area)@.len() ==> r == Ok::<(), SystemError>(()) && final(area)@ == old(
            area,
        )@.update(
            0,
            if value {
                1u8
            } else {
                0u8
            },
        ),
        !(0 < size <= old(area)@.len()) ==> r == Err::<(), SystemError>(SystemError::Fault)
            && final(area)@ == old(area)@,
{
    if size == 0 || area.len() < size {
        return Err(SystemError::Fault);
    }
    area[0] = if value {
        1
    } else {
        0
    };
    Ok(())
}

} // verus!
