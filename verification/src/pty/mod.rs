use vstd::prelude::*;
use crate::error::SystemError;
use crate::flags::{
    TtyFlag, TtyPacketStatus, TTY_IO_ERROR, TTY_OTHER_CLOSED, TTY_PTY_LOCK, TTY_THROTTLED,
};
use crate::registry::{
    PtmxDevice, PtyRegistry, PtyRegistryView, TtyDriver, TtyDriverInfo, NR_UNIX98_PTY_MAX,
};
use crate::termios::{pty_termios, spec_pty_termios};
use crate::tty_core::{TtyControlInfo, TtyCoreData, TtyCoreView, TtyDriverSubType, TtyHandle};
use crate::user_access::{copy_bool_to_user, read_u32_from_user, user_area_holds, user_u32};

pub mod unix98pty;

verus! {

/// The major device number of the master side.
pub const UNIX98_PTY_MASTER_MAJOR: u32 = 128;

/// The major device number of the slave side.
pub const UNIX98_PTY_SLAVE_MAJOR: u32 = 136;

/// The major device number of the control device.
pub const TTYAUX_MAJOR: u32 = 5;

/// The minor device number of the control device.
pub const PTMX_MINOR: u32 = 2;

/// How many bytes the argument of a lock or packet-mode request holds.
pub const PTY_ARG_SIZE: usize = 4;

/// What both families of pseudo-terminals share.
pub struct PtyCommon;

impl PtyCommon {
    /// The registry after a pair was installed at `index` for `driver`: both
    /// slots of the index hold a fresh endpoint, each linked to the other,
    /// opened once, with its own driver's line settings and an empty port
    /// that the other side writes into.
    pub open spec fn install_state(
        v: PtyRegistryView,
        driver: TtyDriverSubType,
        index: usize,
    ) -> PtyRegistryView {
        let tty = TtyHandle { subtype: driver, index };
        let other = tty.spec_peer();
        v.with_tty(tty, TtyCoreView::installed(tty, v.driver(driver).init_termios)).with_tty(
            other,
            TtyCoreView::installed(other, v.driver(other.subtype).init_termios),
        )
    }

    /// Creates the pair of `index`: an endpoint of `driver` and its peer in
    /// the paired driver, linked to each other, each with a fresh port bound
    /// to the side that writes into it, and each opened once. A pair that
    /// stood at the index before is replaced. Fails only when the index is
    /// outside the index space, and then changes nothing.
    ///
    /// A legacy installation and a Unix98 one differ in who registers the
    /// endpoints and when. Here the table is where an endpoint lives, so both
    /// leave the same state: each endpoint in its driver's table, with its
    /// driver's line settings.
    pub fn pty_common_install(
        reg: &mut PtyRegistry,
        driver: TtyDriverSubType,
        index: usize,
        _legacy: bool,
    ) -> (r: Result<(TtyHandle, TtyHandle), SystemError>)
        requires
            old(reg).wf(),
        ensures
            final(reg).wf(),
            index < NR_UNIX98_PTY_MAX ==> {
                &&& r == Ok::<(TtyHandle, TtyHandle), SystemError>(
                    (
                        TtyHandle { subtype: driver, index },
                        TtyHandle { subtype: driver, index }.spec_peer(),
                    ),
                )
                &&& final(reg)@ == Self::install_state(old(reg)@, driver, index)
                &&& final(reg)@.link(r->Ok_0.0) == Some(r->Ok_0.1)
                &&& final(reg)@.link(r->Ok_0.1) == Some(r->Ok_0.0)
            },
            index >= NR_UNIX98_PTY_MAX ==> {
                &&& r == Err::<(TtyHandle, TtyHandle), SystemError>(SystemError::NoSuchDevice)
                &&& final(reg)@ == old(reg)@
            },
    {
        if index >= NR_UNIX98_PTY_MAX {
            return Err(SystemError::NoSuchDevice);
        }
        let tty = TtyHandle { subtype: driver, index };
        let other_tty = tty.peer();
        let (termios, o_termios) = match driver {
            TtyDriverSubType::PtyMaster => (reg.ptm.info.init_termios, reg.pts.info.init_termios),
            TtyDriverSubType::PtySlave => (reg.pts.info.init_termios, reg.ptm.info.init_termios),
        };
        let mut core = TtyCoreData::new(driver, index, termios);
        let mut o_core = TtyCoreData::new(other_tty.subtype, index, o_termios);
        core.link = Some(other_tty);
        o_core.link = Some(tty);

        core.port.setup_internal_tty(other_tty);
        o_core.port.setup_internal_tty(tty);

        core.count = core.count + 1;
        o_core.count = o_core.count + 1;

        reg.put(core);
        reg.put(o_core);
        Ok((tty, other_tty))
    }

    /// Whether opening the endpoint `h` succeeds, and if not, why. The checks
    /// come in this order: the peer must resolve; the endpoint must not have
    /// seen its peer close; the peer must not be locked; and a slave opens
    /// only while its master is open exactly once.
    pub open spec fn open_result(v: PtyRegistryView, h: TtyHandle) -> Result<(), SystemError> {
        if v.link(h) is None {
            Err(SystemError::NoSuchDevice)
        } else if v.ttys[h].flags.has(TTY_OTHER_CLOSED) {
            Err(SystemError::IOError)
        } else if v.ttys[v.link(h)->0].flags.has(TTY_PTY_LOCK) {
            Err(SystemError::IOError)
        } else if v.ttys[h].subtype == TtyDriverSubType::PtySlave && v.ttys[v.link(h)->0].count
            != 1 {
            Err(SystemError::IOError)
        } else {
            Ok(())
        }
    }

    /// The registry after the endpoint `h` was opened. An unresolved peer
    /// changes nothing. Any other refusal marks the endpoint with
    /// `TTY_IO_ERROR`. Success clears that mark, marks the endpoint
    /// throttled, and tells the peer that its other side is no longer closed.
    pub open spec fn open_state(v: PtyRegistryView, h: TtyHandle) -> PtyRegistryView {
        match Self::open_result(v, h) {
            Err(SystemError::NoSuchDevice) => v,
            Err(_) => v.with_tty(
                h,
                TtyCoreView { flags: v.ttys[h].flags.with(TTY_IO_ERROR), ..v.ttys[h] },
            ),
            Ok(_) => {
                let link = v.link(h)->0;
                v.with_tty(
                    h,
                    TtyCoreView {
                        flags: v.ttys[h].flags.without(TTY_IO_ERROR).with(TTY_THROTTLED),
                        ..v.ttys[h]
                    },
                ).with_tty(
                    link,
                    TtyCoreView {
                        flags: v.ttys[link].flags.without(TTY_OTHER_CLOSED),
                        ..v.ttys[link]
                    },
                )
            },
        }
    }

    /// Opens the endpoint `tty`.
    pub fn pty_common_open(reg: &mut PtyRegistry, tty: TtyHandle) -> (r: Result<(), SystemError>)
        requires
            old(reg).wf(),
        ensures
            final(reg).wf(),
            r == Self::open_result(old(reg)@, tty),
            final(reg)@ == Self::open_state(old(reg)@, tty),
    {
        let link = match reg.link(tty) {
            Some(link) => link,
            None => {
                return Err(SystemError::NoSuchDevice);
            },
        };
        let (flags, subtype) = match reg.tty(tty) {
            Some(core) => (core.flags, core.subtype),
            None => {
                return Err(SystemError::NoSuchDevice);
            },
        };
        let (link_flags, link_count) = match reg.tty(link) {
            Some(link_core) => (link_core.flags, link_core.count),
            None => {
                return Err(SystemError::NoSuchDevice);
            },
        };

        if flags.contains(TTY_OTHER_CLOSED) {
            let mut flags = flags;
            flags.insert(TTY_IO_ERROR);
            reg.set_flags(tty, flags);
            return Err(SystemError::IOError);
        }
        if link_flags.contains(TTY_PTY_LOCK) {
            let mut flags = flags;
            flags.insert(TTY_IO_ERROR);
            reg.set_flags(tty, flags);
            return Err(SystemError::IOError);
        }
        if subtype == TtyDriverSubType::PtySlave && link_count != 1 {
            let mut flags = flags;
            flags.insert(TTY_IO_ERROR);
            reg.set_flags(tty, flags);
            return Err(SystemError::IOError);
        }
        let mut flags = flags;
        flags.remove(TTY_IO_ERROR);
        flags.insert(TTY_THROTTLED);
        reg.set_flags(tty, flags);

        let mut link_flags = link_flags;
        link_flags.remove(TTY_OTHER_CLOSED);
        reg.set_flags(link, link_flags);
        Ok(())
    }

    /// Whether a request on the endpoint `h` with the argument `arg` can be
    /// served: the argument must be a readable four-byte variable, and the
    /// endpoint must exist.
    pub open spec fn request_result(v: PtyRegistryView, h: TtyHandle, arg: Seq<u8>) -> Result<
        (),
        SystemError,
    > {
        if !user_area_holds(arg, 0, PTY_ARG_SIZE as int) {
            Err(SystemError::Fault)
        } else if !v.contains(h) {
            Err(SystemError::NoSuchDevice)
        } else {
            Ok(())
        }
    }

    /// The registry after the lock of the endpoint `h` was set from `arg`:
    /// locked if the value is not zero, unlocked if it is.
    pub open spec fn set_lock_state(v: PtyRegistryView, h: TtyHandle, arg: Seq<u8>)
        -> PtyRegistryView {
        if Self::request_result(v, h, arg) is Err {
            v
        } else if user_u32(arg, 0) != 0 {
            v.with_tty(h, TtyCoreView { flags: v.ttys[h].flags.with(TTY_PTY_LOCK), ..v.ttys[h] })
        } else {
            v.with_tty(
                h,
                TtyCoreView { flags: v.ttys[h].flags.without(TTY_PTY_LOCK), ..v.ttys[h] },
            )
        }
    }

    /// Locks or unlocks the pair of the endpoint `tty`, as the four-byte
    /// value in `arg` says.
    pub fn pty_set_lock(reg: &mut PtyRegistry, tty: TtyHandle, arg: &[u8]) -> (r: Result<
        (),
        SystemError,
    >)
        requires
            old(reg).wf(),
        ensures
            final(reg).wf(),
            r == Self::request_result(old(reg)@, tty, arg@),
            final(reg)@ == Self::set_lock_state(old(reg)@, tty, arg@),
    {
        let value = match read_u32_from_user(arg, 0) {
            Ok(value) => value,
            Err(e) => {
                return Err(e);
            },
        };
        let mut flags: TtyFlag = match reg.tty(tty) {
            Some(core) => core.flags,
            None => {
                return Err(SystemError::NoSuchDevice);
            },
        };
        if value != 0 {
            flags.insert(TTY_PTY_LOCK);
        } else {
            flags.remove(TTY_PTY_LOCK);
        }
        reg.set_flags(tty, flags);
        Ok(())
    }

    /// Reports into `arg` whether the pair of the endpoint `tty` is locked:
    /// the first byte of the four-byte variable becomes one or zero.
    pub fn pty_get_lock(reg: &PtyRegistry, tty: TtyHandle, arg: &mut [u8]) -> (r: Result<
        (),
        SystemError,
    >)
        ensures
            r == Self::request_result(reg@, tty, old(arg)@),
            r is Ok ==> final(arg)@ == old(arg)@.update(
                0,
                if reg@.ttys[tty].flags.has(TTY_PTY_LOCK) {
                    1u8
                } else {
                    0u8
                },
            ),
            r is Err ==> final(arg)@ == old(arg)@,
    {
        if arg.len() < PTY_ARG_SIZE {
            return Err(SystemError::Fault);
        }
        let locked = match reg.tty(tty) {
            Some(core) => core.flags.contains(TTY_PTY_LOCK),
            None => {
                return Err(SystemError::NoSuchDevice);
            },
        };
        copy_bool_to_user(arg, PTY_ARG_SIZE, locked)
    }

    /// Whether packet mode of the endpoint `h` can be set from `arg`. Beyond
    /// what every request needs, switching the mode on from off needs a peer
    /// that resolves, since that peer's status is reset.
    pub open spec fn set_packet_mode_result(v: PtyRegistryView, h: TtyHandle, arg: Seq<u8>)
        -> Result<(), SystemError> {
        if Self::request_result(v, h, arg) is Err {
            Self::request_result(v, h, arg)
        } else if user_u32(arg, 0) != 0 && !v.ttys[h].ctrl.packet && v.link(h) is None {
            Err(SystemError::NoSuchDevice)
        } else {
            Ok(())
        }
    }

    /// The registry after packet mode of the endpoint `h` was set from `arg`.
    /// Switching it on from off empties the packet status of the peer;
    /// switching it on again changes nothing; switching it off touches the
    /// endpoint alone.
    pub open spec fn set_packet_mode_state(v: PtyRegistryView, h: TtyHandle, arg: Seq<u8>)
        -> PtyRegistryView {
        if Self::set_packet_mode_result(v, h, arg) is Err {
            v
        } else if user_u32(arg, 0) == 0 {
            v.with_tty(
                h,
                TtyCoreView {
                    ctrl: TtyControlInfo { packet: false, ..v.ttys[h].ctrl },
                    ..v.ttys[h]
                },
            )
        } else if v.ttys[h].ctrl.packet {
            v
        } else {
            let link = v.link(h)->0;
            v.with_tty(
                link,
                TtyCoreView {
                    ctrl: TtyControlInfo {
                        pktstatus: TtyPacketStatus { bits: 0 },
                        ..v.ttys[link].ctrl
                    },
                    ..v.ttys[link]
                },
            ).with_tty(
                h,
                TtyCoreView {
                    ctrl: TtyControlInfo { packet: true, ..v.ttys[h].ctrl },
                    ..v.ttys[h]
                },
            )
        }
    }

    /// Switches packet mode of the endpoint `tty` on or off, as the
    /// four-byte value in `arg` says.
    pub fn pty_set_packet_mode(reg: &mut PtyRegistry, tty: TtyHandle, arg: &[u8]) -> (r: Result<
        (),
        SystemError,
    >)
        requires
            old(reg).wf(),
        ensures
            final(reg).wf(),
            r == Self::set_packet_mode_result(old(reg)@, tty, arg@),
            final(reg)@ == Self::set_packet_mode_state(old(reg)@, tty, arg@),
    {
        let value = match read_u32_from_user(arg, 0) {
            Ok(value) => value,
            Err(e) => {
                return Err(e);
            },
        };
        let mut ctrl: TtyControlInfo = match reg.tty(tty) {
            Some(core) => core.ctrl,
            None => {
                return Err(SystemError::NoSuchDevice);
            },
        };
        if value != 0 {
            if !ctrl.packet {
                let link = match reg.link(tty) {
                    Some(link) => link,
                    None => {
                        return Err(SystemError::NoSuchDevice);
                    },
                };
                let mut link_ctrl: TtyControlInfo = match reg.tty(link) {
                    Some(link_core) => link_core.ctrl,
                    None => {
                        return Err(SystemError::NoSuchDevice);
                    },
                };
                link_ctrl.pktstatus = TtyPacketStatus::empty();
                reg.set_ctrl(link, link_ctrl);
                ctrl.packet = true;
                reg.set_ctrl(tty, ctrl);
            }
        } else {
            ctrl.packet = false;
            reg.set_ctrl(tty, ctrl);
        }
        Ok(())
    }

    /// Reports into `arg` whether the endpoint `tty` is in packet mode: the
    /// first byte of the four-byte variable becomes one or zero.
    pub fn pty_get_packet_mode(reg: &PtyRegistry, tty: TtyHandle, arg: &mut [u8]) -> (r: Result<
        (),
        SystemError,
    >)
        ensures
            r == Self::request_result(reg@, tty, old(arg)@),
            r is Ok ==> final(arg)@ == old(arg)@.update(
                0,
                if reg@.ttys[tty].ctrl.packet {
                    1u8
                } else {
                    0u8
                },
            ),
            r is Err ==> final(arg)@ == old(arg)@,
    {
        if arg.len() < PTY_ARG_SIZE {
            return Err(SystemError::Fault);
        }
        let packet = match reg.tty(tty) {
            Some(core) => core.ctrl.packet,
            None => {
                return Err(SystemError::NoSuchDevice);
            },
        };
        copy_bool_to_user(arg, PTY_ARG_SIZE, packet)
    }

    /// Legacy pseudo-terminals have nothing to set up.
    pub fn legacy_pty_init() -> (r: Result<(), SystemError>)
        ensures
            r == Ok::<(), SystemError>(()),
    {
        Ok(())
    }

    /// The registry as start-up leaves it: a master and a slave driver that
    /// know each other, each with the line settings of a pseudo-terminal, the
    /// control device, and no endpoint yet.
    pub open spec fn init_state() -> PtyRegistryView {
        PtyRegistryView {
            ptm: TtyDriverInfo {
                name: "ptm",
                major: UNIX98_PTY_MASTER_MAJOR,
                minor_start: 0,
                subtype: TtyDriverSubType::PtyMaster,
                init_termios: spec_pty_termios(),
                other_pty_driver: Some(TtyDriverSubType::PtySlave),
            },
            pts: TtyDriverInfo {
                name: "pts",
                major: UNIX98_PTY_SLAVE_MAJOR,
                minor_start: 0,
                subtype: TtyDriverSubType::PtySlave,
                init_termios: spec_pty_termios(),
                other_pty_driver: Some(TtyDriverSubType::PtyMaster),
            },
            ptmx: PtmxDevice { name: "ptmx", major: TTYAUX_MAJOR, minor: PTMX_MINOR },
            ttys: Map::empty(),
        }
    }

    /// Builds the two drivers of Unix98 pseudo-terminals, wires each as the
    /// other's peer, and describes the control device `ptmx` that is to be
    /// registered for them.
    pub fn unix98pty_init() -> (r: Result<PtyRegistry, SystemError>)
        ensures
            r is Ok,
            r->Ok_0.wf(),
            r->Ok_0@ == Self::init_state(),
    {
        let mut ptm_driver = TtyDriver::new(
            TtyDriverInfo {
                name: "ptm",
                major: UNIX98_PTY_MASTER_MAJOR,
                minor_start: 0,
                subtype: TtyDriverSubType::PtyMaster,
                init_termios: pty_termios(),
                other_pty_driver: None,
            },
        );
        let mut pts_driver = TtyDriver::new(
            TtyDriverInfo {
                name: "pts",
                major: UNIX98_PTY_SLAVE_MAJOR,
                minor_start: 0,
                subtype: TtyDriverSubType::PtySlave,
                init_termios: pty_termios(),
                other_pty_driver: None,
            },
        );
        ptm_driver.info.other_pty_driver = Some(pts_driver.info.subtype);
        pts_driver.info.other_pty_driver = Some(ptm_driver.info.subtype);

        let ptmx_dev = PtmxDevice { name: "ptmx", major: TTYAUX_MAJOR, minor: PTMX_MINOR };
        let reg = PtyRegistry { ptm: ptm_driver, pts: pts_driver, ptmx: ptmx_dev };
        assert(reg@.ttys =~= Map::empty());
        Ok(reg)
    }
}

/// Sets up the pseudo-terminal subsystem.
pub fn pty_init() -> (r: Result<PtyRegistry, SystemError>)
    ensures
        r is Ok,
        r->Ok_0.wf(),
        r->Ok_0@ == PtyCommon::init_state(),
{
    PtyCommon::unix98pty_init()
}

} // verus!
