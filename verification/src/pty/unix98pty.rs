use vstd::prelude::*;
use crate::error::SystemError;
use crate::flags::{TIOCPKT_FLUSHWRITE, TIOCPKT_START, TIOCPKT_STOP};
use crate::pty::PtyCommon;
use crate::registry::{PtyRegistry, PtyRegistryView};
use crate::termios::Termios;
use crate::tty_core::{
    TtyControlInfo, TtyCoreView, TtyDriverSubType, TtyHandle, TtyWakeup,
};

verus! {

/// What `write_room` reports while the endpoint is not stopped.
pub const PTY_WRITE_ROOM: usize = 8192;

/// The event mask of "there is data to read".
pub const EPOLLIN: u64 = 0x1;

/// Request: lock or unlock the pair.
pub const TIOCSPTLCK: u32 = 0x4004_5431;

/// Request: report whether the pair is locked.
pub const TIOCGPTLCK: u32 = 0x8004_5439;

/// Request: switch packet mode on or off.
pub const TIOCPKT: u32 = 0x5420;

/// Request: report whether packet mode is on.
pub const TIOCGPKT: u32 = 0x8004_5438;

/// The operations of a Unix98 pseudo-terminal driver.
#[derive(Debug)]
pub struct Unix98PtyDriverInner;

impl Unix98PtyDriverInner {
    pub fn new() -> (r: Unix98PtyDriverInner) {
        Unix98PtyDriverInner
    }

    /// Creates the pair of `index` for `driver`.
    pub fn install(&self, reg: &mut PtyRegistry, driver: TtyDriverSubType, index: usize) -> (r:
        Result<(TtyHandle, TtyHandle), SystemError>)
        requires
            old(reg).wf(),
        ensures
            final(reg).wf(),
            index < crate::registry::NR_UNIX98_PTY_MAX ==> {
                &&& r == Ok::<(TtyHandle, TtyHandle), SystemError>(
                    (
                        TtyHandle { subtype: driver, index },
                        TtyHandle { subtype: driver, index }.spec_peer(),
                    ),
                )
                &&& final(reg)@ == PtyCommon::install_state(old(reg)@, driver, index)
            },
            index >= crate::registry::NR_UNIX98_PTY_MAX ==> {
                &&& r == Err::<(TtyHandle, TtyHandle), SystemError>(SystemError::NoSuchDevice)
                &&& final(reg)@ == old(reg)@
            },
    {
        PtyCommon::pty_common_install(reg, driver, index, false)
    }

    /// Opens the endpoint `tty`.
    pub fn open(&self, reg: &mut PtyRegistry, tty: TtyHandle) -> (r: Result<(), SystemError>)
        requires
            old(reg).wf(),
        ensures
            final(reg).wf(),
            r == PtyCommon::open_result(old(reg)@, tty),
            final(reg)@ == PtyCommon::open_state(old(reg)@, tty),
    {
        PtyCommon::pty_common_open(reg, tty)
    }

    /// What a write of the first `nr` bytes of `buf` on the endpoint `h`
    /// returns. Nothing is written when nothing is asked for, or when the
    /// endpoint is stopped. Otherwise the peer must resolve, and its port
    /// says how many bytes it took.
    pub open spec fn write_result(v: PtyRegistryView, h: TtyHandle, buf: Seq<u8>, nr: usize)
        -> Result<usize, SystemError> {
        if nr == 0 {
            Ok(0)
        } else if !v.contains(h) {
            Err(SystemError::NoSuchDevice)
        } else if v.ttys[h].flow.stopped {
            Ok(0)
        } else if v.link(h) is None {
            Err(SystemError::NoSuchDevice)
        } else {
            Ok(v.ttys[v.link(h)->0].port.accepted(buf.len() as int, nr as int) as usize)
        }
    }

    /// The registry after that write: the bytes that were taken stand at the
    /// end of the peer's port, and nothing else changed.
    pub open spec fn write_state(v: PtyRegistryView, h: TtyHandle, buf: Seq<u8>, nr: usize)
        -> PtyRegistryView {
        if v.contains(h) && nr != 0 && !v.ttys[h].flow.stopped && v.link(h) is Some {
            let link = v.link(h)->0;
            v.with_tty(
                link,
                TtyCoreView { port: v.ttys[link].port.received(buf, nr as int), ..v.ttys[link] },
            )
        } else {
            v
        }
    }

    /// Forwards the first `nr` bytes of `buf` from the endpoint `tty` to its
    /// peer, and returns how many of them the peer's port took.
    pub fn write(&self, reg: &mut PtyRegistry, tty: TtyHandle, buf: &[u8], nr: usize) -> (r:
        Result<usize, SystemError>)
        requires
            old(reg).wf(),
        ensures
            final(reg).wf(),
            r == Self::write_result(old(reg)@, tty, buf@, nr),
            final(reg)@ == Self::write_state(old(reg)@, tty, buf@, nr),
    {
        if nr == 0 {
            return Ok(0);
        }
        let stopped = match reg.tty(tty) {
            Some(core) => core.flow.stopped,
            None => {
                return Err(SystemError::NoSuchDevice);
            },
        };
        if stopped {
            return Ok(0);
        }
        let to = match reg.link(tty) {
            Some(to) => to,
            None => {
                return Err(SystemError::NoSuchDevice);
            },
        };
        Ok(reg.receive_buf(to, buf, nr))
    }

    /// How many bytes a write on the endpoint `h` may hope to place: none
    /// while it is stopped or gone, else a fixed amount.
    pub open spec fn spec_write_room(v: PtyRegistryView, h: TtyHandle) -> usize {
        if !v.contains(h) || v.ttys[h].flow.stopped {
            0
        } else {
            PTY_WRITE_ROOM
        }
    }

    /// How many bytes a write on the endpoint `tty` may hope to place. What
    /// a write really places is up to the peer's port.
    pub fn write_room(&self, reg: &PtyRegistry, tty: TtyHandle) -> (r: usize)
        ensures
            r == Self::spec_write_room(reg@, tty),
    {
        match reg.tty(tty) {
            Some(core) => if core.flow.stopped {
                0
            } else {
                PTY_WRITE_ROOM
            },
            None => 0,
        }
    }

    /// The registry after the write side of the endpoint `h` was flushed:
    /// the peer's packet status says so.
    pub open spec fn flush_buffer_state(v: PtyRegistryView, h: TtyHandle) -> PtyRegistryView {
        if v.link(h) is Some {
            let link = v.link(h)->0;
            v.with_tty(
                link,
                TtyCoreView {
                    ctrl: TtyControlInfo {
                        pktstatus: v.ttys[link].ctrl.pktstatus.with(TIOCPKT_FLUSHWRITE),
                        ..v.ttys[link].ctrl
                    },
                    ..v.ttys[link]
                },
            )
        } else {
            v
        }
    }

    /// Tells the peer of the endpoint `tty` that pending output was thrown
    /// away, and asks for all of the peer's readers to be woken. Fails, and
    /// changes nothing, when the peer does not resolve.
    pub fn flush_buffer(&self, reg: &mut PtyRegistry, tty: TtyHandle) -> (r: Result<
        TtyWakeup,
        SystemError,
    >)
        requires
            old(reg).wf(),
        ensures
            final(reg).wf(),
            final(reg)@ == Self::flush_buffer_state(old(reg)@, tty),
            r == match old(reg)@.link(tty) {
                Some(link) => Ok::<TtyWakeup, SystemError>(TtyWakeup { tty: link, events: None }),
                None => Err::<TtyWakeup, SystemError>(SystemError::NoSuchDevice),
            },
    {
        let to = match reg.link(tty) {
            Some(to) => to,
            None => {
                return Err(SystemError::NoSuchDevice);
            },
        };
        let mut ctrl: TtyControlInfo = match reg.tty(to) {
            Some(to_core) => to_core.ctrl,
            None => {
                return Err(SystemError::NoSuchDevice);
            },
        };
        ctrl.pktstatus.insert(TIOCPKT_FLUSHWRITE);
        reg.set_ctrl(to, ctrl);
        Ok(TtyWakeup { tty: to, events: None })
    }

    /// What starting or stopping the flow of the endpoint `h` returns: only a
    /// slave has a flow to control, its peer must resolve, and the peer's
    /// readers are then to be woken for input.
    pub open spec fn flow_result(v: PtyRegistryView, h: TtyHandle) -> Result<
        TtyWakeup,
        SystemError,
    > {
        if h.subtype != TtyDriverSubType::PtySlave {
            Err(SystemError::NotSupported)
        } else if v.link(h) is None {
            Err(SystemError::NoSuchDevice)
        } else {
            Ok(TtyWakeup { tty: v.link(h)->0, events: Some(EPOLLIN) })
        }
    }

    /// The registry after the flow of the endpoint `h` was started: its
    /// packet status says "start" and no longer "stop".
    pub open spec fn start_state(v: PtyRegistryView, h: TtyHandle) -> PtyRegistryView {
        if Self::flow_result(v, h) is Ok {
            v.with_tty(
                h,
                TtyCoreView {
                    ctrl: TtyControlInfo {
                        pktstatus: v.ttys[h].ctrl.pktstatus.without(TIOCPKT_STOP).with(
                            TIOCPKT_START,
                        ),
                        ..v.ttys[h].ctrl
                    },
                    ..v.ttys[h]
                },
            )
        } else {
            v
        }
    }

    /// The registry after the flow of the endpoint `h` was stopped: its
    /// packet status says "stop" and no longer "start".
    pub open spec fn stop_state(v: PtyRegistryView, h: TtyHandle) -> PtyRegistryView {
        if Self::flow_result(v, h) is Ok {
            v.with_tty(
                h,
                TtyCoreView {
                    ctrl: TtyControlInfo {
                        pktstatus: v.ttys[h].ctrl.pktstatus.without(TIOCPKT_START).with(
                            TIOCPKT_STOP,
                        ),
                        ..v.ttys[h].ctrl
                    },
                    ..v.ttys[h]
                },
            )
        } else {
            v
        }
    }

    /// Starts the flow of the slave `tty`.
    pub fn start(&self, reg: &mut PtyRegistry, tty: TtyHandle) -> (r: Result<
        TtyWakeup,
        SystemError,
    >)
        requires
            old(reg).wf(),
        ensures
            final(reg).wf(),
            r == Self::flow_result(old(reg)@, tty),
            final(reg)@ == Self::start_state(old(reg)@, tty),
    {
        if tty.subtype != TtyDriverSubType::PtySlave {
            return Err(SystemError::NotSupported);
        }
        let link = match reg.link(tty) {
            Some(link) => link,
            None => {
                return Err(SystemError::NoSuchDevice);
            },
        };
        let mut ctrl: TtyControlInfo = match reg.tty(tty) {
            Some(core) => core.ctrl,
            None => {
                return Err(SystemError::NoSuchDevice);
            },
        };
        ctrl.pktstatus.remove(TIOCPKT_STOP);
        ctrl.pktstatus.insert(TIOCPKT_START);
        reg.set_ctrl(tty, ctrl);
        Ok(TtyWakeup { tty: link, events: Some(EPOLLIN) })
    }

    /// Stops the flow of the slave `tty`.
    pub fn stop(&self, reg: &mut PtyRegistry, tty: TtyHandle) -> (r: Result<
        TtyWakeup,
        SystemError,
    >)
        requires
            old(reg).wf(),
        ensures
            final(reg).wf(),
            r == Self::flow_result(old(reg)@, tty),
            final(reg)@ == Self::stop_state(old(reg)@, tty),
    {
        if tty.subtype != TtyDriverSubType::PtySlave {
            return Err(SystemError::NotSupported);
        }
        let link = match reg.link(tty) {
            Some(link) => link,
            None => {
                return Err(SystemError::NoSuchDevice);
            },
        };
        let mut ctrl: TtyControlInfo = match reg.tty(tty) {
            Some(core) => core.ctrl,
            None => {
                return Err(SystemError::NoSuchDevice);
            },
        };
        ctrl.pktstatus.remove(TIOCPKT_START);
        ctrl.pktstatus.insert(TIOCPKT_STOP);
        reg.set_ctrl(tty, ctrl);
        Ok(TtyWakeup { tty: link, events: Some(EPOLLIN) })
    }

    /// What a control request `cmd` on the endpoint `h` returns. Only a master
    /// takes control requests, and only the four that lock the pair and
    /// switch packet mode, or report on them.
    pub open spec fn ioctl_result(v: PtyRegistryView, h: TtyHandle, cmd: u32, arg: Seq<u8>)
        -> Result<(), SystemError> {
        if h.subtype != TtyDriverSubType::PtyMaster {
            Err(SystemError::NotSupported)
        } else if cmd == TIOCSPTLCK || cmd == TIOCGPTLCK || cmd == TIOCGPKT {
            PtyCommon::request_result(v, h, arg)
        } else if cmd == TIOCPKT {
            PtyCommon::set_packet_mode_result(v, h, arg)
        } else {
            Err(SystemError::InvalidArgument)
        }
    }

    /// The registry after that request.
    pub open spec fn ioctl_state(v: PtyRegistryView, h: TtyHandle, cmd: u32, arg: Seq<u8>)
        -> PtyRegistryView {
        if h.subtype != TtyDriverSubType::PtyMaster {
            v
        } else if cmd == TIOCSPTLCK {
            PtyCommon::set_lock_state(v, h, arg)
        } else if cmd == TIOCPKT {
            PtyCommon::set_packet_mode_state(v, h, arg)
        } else {
            v
        }
    }

    /// The user's variable after that request: a report sets its first byte
    /// to one or zero, and nothing else writes to it.
    pub open spec fn ioctl_arg(v: PtyRegistryView, h: TtyHandle, cmd: u32, arg: Seq<u8>) -> Seq<
        u8,
    > {
        if Self::ioctl_result(v, h, cmd, arg) is Err {
            arg
        } else if cmd == TIOCGPTLCK {
            arg.update(
                0,
                if v.ttys[h].flags.has(crate::flags::TTY_PTY_LOCK) {
                    1u8
                } else {
                    0u8
                },
            )
        } else if cmd == TIOCGPKT {
            arg.update(
                0,
                if v.ttys[h].ctrl.packet {
                    1u8
                } else {
                    0u8
                },
            )
        } else {
            arg
        }
    }

    /// Serves the control request `cmd` on the master `tty`, with the user's
    /// four-byte variable `arg`.
    pub fn ioctl(&self, reg: &mut PtyRegistry, tty: TtyHandle, cmd: u32, arg: &mut [u8]) -> (r:
        Result<(), SystemError>)
        requires
            old(reg).wf(),
        ensures
            final(reg).wf(),
            r == Self::ioctl_result(old(reg)@, tty, cmd, old(arg)@),
            final(reg)@ == Self::ioctl_state(old(reg)@, tty, cmd, old(arg)@),
            final(arg)@ == Self::ioctl_arg(old(reg)@, tty, cmd, old(arg)@),
    {
        if tty.subtype != TtyDriverSubType::PtyMaster {
            return Err(SystemError::NotSupported);
        }
        if cmd == TIOCSPTLCK {
            PtyCommon::pty_set_lock(reg, tty, arg)
        } else if cmd == TIOCGPTLCK {
            PtyCommon::pty_get_lock(reg, tty, arg)
        } else if cmd == TIOCPKT {
            PtyCommon::pty_set_packet_mode(reg, tty, arg)
        } else if cmd == TIOCGPKT {
            PtyCommon::pty_get_packet_mode(reg, tty, arg)
        } else {
            Err(SystemError::InvalidArgument)
        }
    }

    /// Changing the line settings is a request to a slave; any other
    /// endpoint refuses it.
    pub fn set_termios(&self, _reg: &PtyRegistry, tty: TtyHandle, _old_termios: Termios) -> (r:
        Result<(), SystemError>)
        requires
            tty.subtype != TtyDriverSubType::PtySlave,
        ensures
            r == Err::<(), SystemError>(SystemError::NotSupported),
    {
        Err(SystemError::NotSupported)
    }

    /// Nothing is buffered on the way to the peer, so there is nothing to
    /// flush.
    pub fn flush_chars(&self, _reg: &PtyRegistry, _tty: TtyHandle) {
    }
}

} // verus!
