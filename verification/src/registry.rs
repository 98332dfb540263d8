use vstd::prelude::*;
use crate::flags::TtyFlag;
use crate::termios::Termios;
use crate::tty_core::{TtyControlInfo, TtyCoreData, TtyCoreView, TtyDriverSubType, TtyHandle};

verus! {

/// How many pairs can exist at once: the size of each driver's index table.
pub const NR_UNIX98_PTY_MAX: usize = 4096;

/// What a driver is registered with.
#[derive(Clone, Copy, Debug, PartialEq, Eq)]
pub struct TtyDriverInfo {
    pub name: &'static str,
    pub major: u32,
    pub minor_start: u32,
    pub subtype: TtyDriverSubType,
    /// The line settings that a new endpoint of this driver starts with.
    pub init_termios: Termios,
    /// The driver of the other side of each pair, once the two are wired.
    pub other_pty_driver: Option<TtyDriverSubType>,
}

/// A driver: its registration and its table from index to endpoint.
#[derive(Debug)]
pub struct TtyDriver {
    pub info: TtyDriverInfo,
    pub ttys: Vec<Option<TtyCoreData>>,
}

/// The control device through which user space asks for a new pair.
#[derive(Clone, Copy, Debug, PartialEq, Eq)]
pub struct PtmxDevice {
    pub name: &'static str,
    pub major: u32,
    pub minor: u32,
}

/// The two drivers and every endpoint they own. All operations on endpoints
/// go through the registry, which resolves handles and peers by lookup.
#[derive(Debug)]
pub struct PtyRegistry {
    pub ptm: TtyDriver,
    pub pts: TtyDriver,
    pub ptmx: PtmxDevice,
}

/// A registry as a value: the registrations, and the endpoints that exist,
/// by name.
pub struct PtyRegistryView {
    pub ptm: TtyDriverInfo,
    pub pts: TtyDriverInfo,
    pub ptmx: PtmxDevice,
    pub ttys: Map<TtyHandle, TtyCoreView>,
}

impl PtyRegistryView {
    /// Whether an endpoint exists under this name.
    pub open spec fn contains(self, h: TtyHandle) -> bool {
        self.ttys.contains_key(h)
    }

    /// The endpoint under this name, if it exists.
    pub open spec fn tty(self, h: TtyHandle) -> Option<TtyCoreView> {
        if self.ttys.contains_key(h) {
            Some(self.ttys[h])
        } else {
            None
        }
    }

    /// The peer that the endpoint `h` resolves to: the endpoint it is linked
    /// with, if that one still exists.
    pub open spec fn link(self, h: TtyHandle) -> Option<TtyHandle> {
        if self.contains(h) && self.ttys[h].link is Some && self.contains(self.ttys[h].link->0) {
            self.ttys[h].link
        } else {
            None
        }
    }

    /// The registration of the driver of the given role.
    pub open spec fn driver(self, subtype: TtyDriverSubType) -> TtyDriverInfo {
        match subtype {
            TtyDriverSubType::PtyMaster => self.ptm,
            TtyDriverSubType::PtySlave => self.pts,
        }
    }

    /// This registry with the slot of `h` holding `slot`.
    pub open spec fn with_slot(self, h: TtyHandle, slot: Option<TtyCoreView>) -> PtyRegistryView {
        PtyRegistryView {
            ttys: match slot {
                Some(core) => self.ttys.insert(h, core),
                None => self.ttys.remove(h),
            },
            ..self
        }
    }

    /// This registry with the endpoint `core` under the name `h`.
    pub open spec fn with_tty(self, h: TtyHandle, core: TtyCoreView) -> PtyRegistryView {
        PtyRegistryView { ttys: self.ttys.insert(h, core), ..self }
    }

    /// The two drivers are master and slave and know each other; every
    /// endpoint stands under its own name, inside the index space, and is
    /// well formed.
    pub open spec fn wf(self) -> bool {
        &&& self.ptm.subtype == TtyDriverSubType::PtyMaster
        &&& self.pts.subtype == TtyDriverSubType::PtySlave
        &&& self.ptm.other_pty_driver == Some(TtyDriverSubType::PtySlave)
        &&& self.pts.other_pty_driver == Some(TtyDriverSubType::PtyMaster)
        &&& forall|h: TtyHandle| #[trigger]
            self.ttys.contains_key(h) ==> {
                &&& h.index < NR_UNIX98_PTY_MAX
                &&& self.ttys[h].handle() == h
                &&& self.ttys[h].wf()
            }
    }
}

impl TtyDriver {
    /// A driver with an empty table of `NR_UNIX98_PTY_MAX` slots.
    pub fn new(info: TtyDriverInfo) -> (r: TtyDriver)
        ensures
            r.info == info,
            r.ttys@.len() == NR_UNIX98_PTY_MAX,
            forall|i: int| 0 <= i < r.ttys@.len() ==> r.ttys@[i] is None,
    {
        let mut ttys: Vec<Option<TtyCoreData>> = Vec::new();
        let mut i: usize = 0;
        while i < NR_UNIX98_PTY_MAX
            invariant
                i <= NR_UNIX98_PTY_MAX,
                ttys@.len() == i,
                forall|j: int| 0 <= j < ttys@.len() ==> ttys@[j] is None,
            decreases NR_UNIX98_PTY_MAX - i,
        {
            ttys.push(None);
            i += 1;
        }
        TtyDriver { info, ttys }
    }
}

impl View for PtyRegistry {
    type V = PtyRegistryView;

    open spec fn view(&self) -> PtyRegistryView {
        PtyRegistryView {
            ptm: self.ptm.info,
            pts: self.pts.info,
            ptmx: self.ptmx,
            ttys: Map::new(|h: TtyHandle| self.slot(h) is Some, |h: TtyHandle| self.slot(h)->0@),
        }
    }
}

impl PtyRegistry {
    /// The table of the driver of the given role.
    pub open spec fn table(&self, subtype: TtyDriverSubType) -> Seq<Option<TtyCoreData>> {
        match subtype {
            TtyDriverSubType::PtyMaster => self.ptm.ttys@,
            TtyDriverSubType::PtySlave => self.pts.ttys@,
        }
    }

    /// What the table holds for `h`; nothing outside the index space.
    pub open spec fn slot(&self, h: TtyHandle) -> Option<TtyCoreData> {
        if h.index < self.table(h.subtype).len() {
            self.table(h.subtype)[h.index as int]
        } else {
            None
        }
    }

    /// Both tables span the index space, and the registry is well formed as
    /// a value.
    pub open spec fn wf(&self) -> bool {
        &&& self.ptm.ttys@.len() == NR_UNIX98_PTY_MAX
        &&& self.pts.ttys@.len() == NR_UNIX98_PTY_MAX
        &&& self@.wf()
    }

    /// Whether the slot `slot` of the index `index` in the table of
    /// `subtype` is empty or holds a well-formed endpoint of that name.
    pub open spec fn slot_ok(slot: Option<TtyCoreData>, subtype: TtyDriverSubType, index: usize)
        -> bool {
        slot is Some ==> slot->0@.handle() == (TtyHandle { subtype, index }) && slot->0@.wf()
    }

    fn check_slot(slot: &Option<TtyCoreData>, subtype: TtyDriverSubType, index: usize) -> (r:
        bool)
        ensures
            r == Self::slot_ok(*slot, subtype, index),
    {
        match slot {
            None => true,
            Some(core) => {
                let linked = match core.link {
                    Some(link) => link.subtype == subtype.other() && link.index == index,
                    None => false,
                };
                core.subtype == subtype && core.index == index && linked && core.port.buf.len()
                    <= core.port.capacity
            },
        }
    }

    /// Tests whether the registry is well formed. Every operation on a
    /// registry asks for that, and keeps it.
    pub fn is_wf(&self) -> (r: bool)
        ensures
            r == self.wf(),
    {
        if self.ptm.ttys.len() != NR_UNIX98_PTY_MAX || self.pts.ttys.len() != NR_UNIX98_PTY_MAX {
            return false;
        }
        let wired = match (self.ptm.info.other_pty_driver, self.pts.info.other_pty_driver) {
            (Some(a), Some(b)) => a == TtyDriverSubType::PtySlave && b
                == TtyDriverSubType::PtyMaster,
            _ => false,
        };
        if !wired || self.ptm.info.subtype != TtyDriverSubType::PtyMaster || self.pts.info.subtype
            != TtyDriverSubType::PtySlave {
            return false;
        }
        let mut i: usize = 0;
        while i < NR_UNIX98_PTY_MAX
            invariant
                i <= NR_UNIX98_PTY_MAX,
                self.ptm.ttys@.len() == NR_UNIX98_PTY_MAX,
                self.pts.ttys@.len() == NR_UNIX98_PTY_MAX,
                forall|j: int|
                    0 <= j < i ==> Self::slot_ok(
                        #[trigger] self.ptm.ttys@[j],
                        TtyDriverSubType::PtyMaster,
                        j as usize,
                    ),
                forall|j: int|
                    0 <= j < i ==> Self::slot_ok(
                        #[trigger] self.pts.ttys@[j],
                        TtyDriverSubType::PtySlave,
                        j as usize,
                    ),
            decreases NR_UNIX98_PTY_MAX - i,
        {
            if !Self::check_slot(&self.ptm.ttys[i], TtyDriverSubType::PtyMaster, i) {
                assert(self@.ttys.contains_key(
                    TtyHandle { subtype: TtyDriverSubType::PtyMaster, index: i },
                ));
                return false;
            }
            if !Self::check_slot(&self.pts.ttys[i], TtyDriverSubType::PtySlave, i) {
                assert(self@.ttys.contains_key(
                    TtyHandle { subtype: TtyDriverSubType::PtySlave, index: i },
                ));
                return false;
            }
            i += 1;
        }
        assert forall|h: TtyHandle| #[trigger] self@.ttys.contains_key(h) implies {
            &&& h.index < NR_UNIX98_PTY_MAX
            &&& self@.ttys[h].handle() == h
            &&& self@.ttys[h].wf()
        } by {
            match h.subtype {
                TtyDriverSubType::PtyMaster => {
                    assert(Self::slot_ok(
                        self.ptm.ttys@[h.index as int],
                        TtyDriverSubType::PtyMaster,
                        h.index,
                    ));
                },
                TtyDriverSubType::PtySlave => {
                    assert(Self::slot_ok(
                        self.pts.ttys@[h.index as int],
                        TtyDriverSubType::PtySlave,
                        h.index,
                    ));
                },
            }
        }
        true
    }

    /// Whether an endpoint exists under this name.
    pub fn contains(&self, h: TtyHandle) -> (r: bool)
        ensures
            r == self@.contains(h),
    {
        self.tty(h).is_some()
    }

    /// The endpoint under this name, if it exists.
    pub fn tty(&self, h: TtyHandle) -> (r: Option<&TtyCoreData>)
        ensures
            r is Some == self@.contains(h),
            r is Some ==> r->0@ == self@.ttys[h] && Some(*r->0) == self.slot(h),
    {
        let table = match h.subtype {
            TtyDriverSubType::PtyMaster => &self.ptm.ttys,
            TtyDriverSubType::PtySlave => &self.pts.ttys,
        };
        if h.index < table.len() {
            table[h.index].as_ref()
        } else {
            None
        }
    }

    /// The peer that the endpoint `h` resolves to, if it has one that still
    /// exists.
    pub fn link(&self, h: TtyHandle) -> (r: Option<TtyHandle>)
        ensures
            r == self@.link(h),
    {
        match self.tty(h) {
            Some(core) => match core.link {
                Some(peer) => if self.contains(peer) {
                    Some(peer)
                } else {
                    None
                },
                None => None,
            },
            None => None,
        }
    }

    /// Replaces the flag set of the endpoint `h`.
    pub fn set_flags(&mut self, h: TtyHandle, flags: TtyFlag)
        ensures
            old(self)@.contains(h) ==> final(self)@ == old(self)@.with_tty(
                h,
                TtyCoreView { flags, ..old(self)@.ttys[h] },
            ),
            !old(self)@.contains(h) ==> final(self)@ == old(self)@,
            final(self).ptm.ttys@.len() == old(self).ptm.ttys@.len(),
            final(self).pts.ttys@.len() == old(self).pts.ttys@.len(),
            old(self).wf() ==> final(self).wf(),
    {
        let table = match h.subtype {
            TtyDriverSubType::PtyMaster => &mut self.ptm.ttys,
            TtyDriverSubType::PtySlave => &mut self.pts.ttys,
        };
        if h.index < table.len() {
            match &mut table[h.index] {
                Some(core) => {
                    core.flags = flags;
                },
                None => {},
            }
        }
        proof {
            if old(self)@.contains(h) {
                assert(self@.ttys =~= old(self)@.ttys.insert(
                    h,
                    TtyCoreView { flags, ..old(self)@.ttys[h] },
                ));
            } else {
                assert(self@.ttys =~= old(self)@.ttys);
            }
        }
    }

    /// Replaces the packet-mode state of the endpoint `h`.
    pub fn set_ctrl(&mut self, h: TtyHandle, ctrl: TtyControlInfo)
        ensures
            old(self)@.contains(h) ==> final(self)@ == old(self)@.with_tty(
                h,
                TtyCoreView { ctrl, ..old(self)@.ttys[h] },
            ),
            !old(self)@.contains(h) ==> final(self)@ == old(self)@,
            final(self).ptm.ttys@.len() == old(self).ptm.ttys@.len(),
            final(self).pts.ttys@.len() == old(self).pts.ttys@.len(),
            old(self).wf() ==> final(self).wf(),
    {
        let table = match h.subtype {
            TtyDriverSubType::PtyMaster => &mut self.ptm.ttys,
            TtyDriverSubType::PtySlave => &mut self.pts.ttys,
        };
        if h.index < table.len() {
            match &mut table[h.index] {
                Some(core) => {
                    core.ctrl = ctrl;
                },
                None => {},
            }
        }
        proof {
            if old(self)@.contains(h) {
                assert(self@.ttys =~= old(self)@.ttys.insert(
                    h,
                    TtyCoreView { ctrl, ..old(self)@.ttys[h] },
                ));
            } else {
                assert(self@.ttys =~= old(self)@.ttys);
            }
        }
    }

    /// Offers the first `count` bytes of `buf` to the port of the endpoint
    /// `h` and returns how many the port took.
    pub fn receive_buf(&mut self, h: TtyHandle, buf: &[u8], count: usize) -> (r: usize)
        ensures
            old(self).wf() ==> final(self).wf(),
            final(self).ptm.ttys@.len() == old(self).ptm.ttys@.len(),
            final(self).pts.ttys@.len() == old(self).pts.ttys@.len(),
            old(self)@.contains(h) ==> {
                &&& r == old(self)@.ttys[h].port.accepted(buf@.len() as int, count as int)
                &&& final(self)@ == old(self)@.with_tty(
                    h,
                    TtyCoreView {
                        port: old(self)@.ttys[h].port.received(buf@, count as int),
                        ..old(self)@.ttys[h]
                    },
                )
            },
            !old(self)@.contains(h) ==> r == 0 && final(self)@ == old(self)@,
    {
        let table = match h.subtype {
            TtyDriverSubType::PtyMaster => &mut self.ptm.ttys,
            TtyDriverSubType::PtySlave => &mut self.pts.ttys,
        };
        let r = if h.index < table.len() {
            match &mut table[h.index] {
                Some(core) => core.port.receive_buf(buf, &[], count),
                None => 0,
            }
        } else {
            0
        };
        proof {
            if old(self)@.contains(h) {
                assert(self@.ttys =~= old(self)@.ttys.insert(
                    h,
                    TtyCoreView {
                        port: old(self)@.ttys[h].port.received(buf@, count as int),
                        ..old(self)@.ttys[h]
                    },
                ));
            } else {
                assert(self@.ttys =~= old(self)@.ttys);
            }
        }
        r
    }

    /// Takes the endpoint under this name out of its table, as its teardown
    /// does. Its peer stays, and from now on resolves to nothing.
    pub fn remove(&mut self, h: TtyHandle) -> (r: Option<TtyCoreData>)
        ensures
            final(self)@ == old(self)@.with_slot(h, None),
            final(self).ptm.ttys@.len() == old(self).ptm.ttys@.len(),
            final(self).pts.ttys@.len() == old(self).pts.ttys@.len(),
            r == old(self).slot(h),
            r is Some == old(self)@.contains(h),
            r is Some ==> r->0@ == old(self)@.ttys[h],
            old(self).wf() ==> final(self).wf(),
    {
        let table = match h.subtype {
            TtyDriverSubType::PtyMaster => &mut self.ptm.ttys,
            TtyDriverSubType::PtySlave => &mut self.pts.ttys,
        };
        let r = if h.index < table.len() {
            table[h.index].take()
        } else {
            None
        };
        assert(self@.ttys =~= old(self)@.ttys.remove(h));
        r
    }

    /// Puts `core` into the slot of its own name, in place of what was there.
    /// An endpoint whose index is outside the index space of its table is
    /// handed back.
    pub fn put(&mut self, core: TtyCoreData) -> (r: Option<TtyCoreData>)
        ensures
            final(self).ptm.ttys@.len() == old(self).ptm.ttys@.len(),
            final(self).pts.ttys@.len() == old(self).pts.ttys@.len(),
            core.index < old(self).table(core.subtype).len() ==> {
                &&& r is None
                &&& final(self)@ == old(self)@.with_tty(core@.handle(), core@)
                &&& final(self).slot(core@.handle()) == Some(core)
            },
            core.index >= old(self).table(core.subtype).len() ==> {
                &&& r == Some(core)
                &&& final(self)@ == old(self)@
            },
            old(self).wf() && core@.wf() ==> final(self).wf(),
    {
        let ghost h = core@.handle();
        let index = core.index;
        let table = match core.subtype {
            TtyDriverSubType::PtyMaster => &mut self.ptm.ttys,
            TtyDriverSubType::PtySlave => &mut self.pts.ttys,
        };
        if index < table.len() {
            table[index] = Some(core);
            assert(self@.ttys =~= old(self)@.ttys.insert(h, core@));
            None
        } else {
            assert(self@.ttys =~= old(self)@.ttys);
            Some(core)
        }
    }
}

} // verus!
