use vstd::prelude::*;

verus! {

/// The reader of this endpoint is not draining its input.
pub const TTY_THROTTLED: u32 = 0x1;

/// The last open of this endpoint was refused.
pub const TTY_IO_ERROR: u32 = 0x2;

/// The peer of this endpoint has been closed.
pub const TTY_OTHER_CLOSED: u32 = 0x4;

/// The pair is locked: its slave cannot be opened.
pub const TTY_PTY_LOCK: u32 = 0x10000;

/// The read queue of the terminal was flushed.
pub const TIOCPKT_FLUSHREAD: u8 = 0x01;

/// The write queue of the terminal was flushed.
pub const TIOCPKT_FLUSHWRITE: u8 = 0x02;

/// Output to the terminal was stopped.
pub const TIOCPKT_STOP: u8 = 0x04;

/// Output to the terminal was restarted.
pub const TIOCPKT_START: u8 = 0x08;

/// The start and stop characters are no longer `^S` and `^Q`.
pub const TIOCPKT_NOSTOP: u8 = 0x10;

/// The start and stop characters are `^S` and `^Q`.
pub const TIOCPKT_DOSTOP: u8 = 0x20;

/// The terminal settings changed.
pub const TIOCPKT_IOCTL: u8 = 0x40;

/// The flag set of an endpoint, one bit per flag.
#[derive(Clone, Copy, Debug, PartialEq, Eq, Structural)]
pub struct TtyFlag {
    pub bits: u32,
}

impl TtyFlag {
    /// Whether every bit of `mask` is set.
    pub open spec fn has(self, mask: u32) -> bool {
        self.bits & mask == mask
    }

    /// This set with the bits of `mask` added.
    pub open spec fn with(self, mask: u32) -> TtyFlag {
        TtyFlag { bits: self.bits | mask }
    }

    /// This set with the bits of `mask` taken out.
    pub open spec fn without(self, mask: u32) -> TtyFlag {
        TtyFlag { bits: self.bits & !mask }
    }

    pub fn empty() -> (r: TtyFlag)
        ensures
            r.bits == 0,
    {
        TtyFlag { bits: 0 }
    }

    pub fn bits(&self) -> (r: u32)
        ensures
            r == self.bits,
    {
        self.bits
    }

    pub fn contains(&self, mask: u32) -> (r: bool)
        ensures
            r == self.has(mask),
    {
        self.bits & mask == mask
    }

    pub fn insert(&mut self, mask: u32)
        ensures
            *final(self) == old(self).with(mask),
    {
        self.bits = self.bits | mask;
    }

    pub fn remove(&mut self, mask: u32)
        ensures
            *final(self) == old(self).without(mask),
    {
        self.bits = self.bits & !mask;
    }
}

/// The out-of-band status of an endpoint in packet mode, one bit per
/// indicator.
#[derive(Clone, Copy, Debug, PartialEq, Eq, Structural)]
pub struct TtyPacketStatus {
    pub bits: u8,
}

impl TtyPacketStatus {
    /// Whether every bit of `mask` is set.
    pub open spec fn has(self, mask: u8) -> bool {
        self.bits & mask == mask
    }

    /// This status with the bits of `mask` added.
    pub open spec fn with(self, mask: u8) -> TtyPacketStatus {
        TtyPacketStatus { bits: self.bits | mask }
    }

    /// This status with the bits of `mask` taken out.
    pub open spec fn without(self, mask: u8) -> TtyPacketStatus {
        TtyPacketStatus { bits: self.bits & !mask }
    }

    pub fn empty() -> (r: TtyPacketStatus)
        ensures
            r.bits == 0,
    {
        TtyPacketStatus { bits: 0 }
    }

    pub fn bits(&self) -> (r: u8)
        ensures
            r == self.bits,
    {
        self.bits
    }

    pub fn contains(&self, mask: u8) -> (r: bool)
        ensures
            r == self.has(mask),
    {
        self.bits & mask == mask
    }

    pub fn insert(&mut self, mask: u8)
        ensures
            *final(self) == old(self).with(mask),
    {
        self.bits = self.bits | mask;
    }

    pub fn remove(&mut self, mask: u8)
        ensures
            *final(self) == old(self).without(mask),
    {
        self.bits = self.bits & !mask;
    }
}

/// Of a set flag: inserting a flag sets it and removing it clears it, whatever
/// else the set holds, and neither touches a flag that shares no bit with it.
pub proof fn lemma_flag_insert_remove(f: TtyFlag, mask: u32, other: u32)
    requires
        mask & other == 0,
    ensures
        f.with(mask).has(mask),
        mask != 0 ==> !f.without(mask).has(mask),
        f.with(mask).has(other) == f.has(other),
        f.without(mask).has(other) == f.has(other),
{
    let b = f.bits;
    assert((b | mask) & mask == mask) by (bit_vector);
    assert(mask != 0 ==> (b & !mask) & mask != mask) by (bit_vector);
    assert(mask & other == 0 ==> ((b | mask) & other == other) == (b & other == other))
        by (bit_vector);
    assert(mask & other == 0 ==> ((b & !mask) & other == other) == (b & other == other))
        by (bit_vector);
}

/// The same for the packet status.
pub proof fn lemma_status_insert_remove(s: TtyPacketStatus, mask: u8, other: u8)
    requires
        mask & other == 0,
    ensures
        s.with(mask).has(mask),
        mask != 0 ==> !s.without(mask).has(mask),
        s.with(mask).has(other) == s.has(other),
        s.without(mask).has(other) == s.has(other),
{
    let b = s.bits;
    assert((b | mask) & mask == mask) by (bit_vector);
    assert(mask != 0 ==> (b & !mask) & mask != mask) by (bit_vector);
    assert(mask & other == 0 ==> ((b | mask) & other == other) == (b & other == other))
        by (bit_vector);
    assert(mask & other == 0 ==> ((b & !mask) & other == other) == (b & other == other))
        by (bit_vector);
}

} // verus!
