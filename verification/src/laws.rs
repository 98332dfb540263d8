use vstd::prelude::*;
use crate::error::SystemError;
use crate::flags::{
    TIOCPKT_START, TIOCPKT_STOP, TTY_IO_ERROR, TTY_OTHER_CLOSED, TTY_PTY_LOCK, TTY_THROTTLED,
};
use crate::pty::unix98pty::Unix98PtyDriverInner;
use crate::pty::{PtyCommon, PTY_ARG_SIZE};
use crate::registry::{PtyRegistryView, NR_UNIX98_PTY_MAX};
use crate::tty_core::{TtyDriverSubType, TtyHandle};
use crate::user_access::{user_area_holds, user_u32};

verus! {

/// Whenever an endpoint resolves its peer, the peer resolves the endpoint,
/// and the two are a master and a slave of one index.
pub proof fn lemma_link_is_symmetric(v: PtyRegistryView, a: TtyHandle)
    requires
        v.wf(),
        v.link(a) is Some,
    ensures
        v.link(v.link(a)->0) == Some(a),
        v.link(a)->0.subtype == a.subtype.spec_other(),
        v.link(a)->0.index == a.index,
{
    let b = v.link(a)->0;
    assert(v.ttys.contains_key(a));
    assert(v.ttys.contains_key(b));
}

/// Installation yields a pair in which each side resolves to the other, and
/// leaves the registry well formed.
pub proof fn lemma_installed_pair_resolves(
    v: PtyRegistryView,
    driver: TtyDriverSubType,
    index: usize,
)
    requires
        v.wf(),
        index < NR_UNIX98_PTY_MAX,
    ensures
        ({
            let a = TtyHandle { subtype: driver, index };
            let b = a.spec_peer();
            let w = PtyCommon::install_state(v, driver, index);
            &&& w.wf()
            &&& w.link(a) == Some(b)
            &&& w.link(b) == Some(a)
            &&& w.ttys[a].count == 1
            &&& w.ttys[b].count == 1
        }),
{
}

/// With both sides of a pair present, opening the slave succeeds exactly
/// when the master is open once, the master is not locked, and the slave has
/// not seen its other side close.
pub proof fn lemma_slave_open_succeeds_iff(v: PtyRegistryView, slave: TtyHandle)
    requires
        v.wf(),
        slave.subtype == TtyDriverSubType::PtySlave,
        v.contains(slave),
        v.contains(slave.spec_peer()),
    ensures
        PtyCommon::open_result(v, slave) is Ok <==> {
            &&& v.ttys[slave.spec_peer()].count == 1
            &&& !v.ttys[slave.spec_peer()].flags.has(TTY_PTY_LOCK)
            &&& !v.ttys[slave].flags.has(TTY_OTHER_CLOSED)
        },
{
    assert(v.ttys.contains_key(slave));
}

/// A refused open leaves its mark: whenever opening fails with `IOError`,
/// the endpoint has `TTY_IO_ERROR` set afterwards. A successful open leaves
/// the endpoint without that mark and throttled, and its peer without
/// `TTY_OTHER_CLOSED`.
pub proof fn lemma_open_marks(v: PtyRegistryView, h: TtyHandle)
    requires
        v.wf(),
    ensures
        PtyCommon::open_result(v, h) == Err::<(), SystemError>(SystemError::IOError)
            ==> PtyCommon::open_state(v, h).ttys[h].flags.has(TTY_IO_ERROR),
        PtyCommon::open_result(v, h) is Ok ==> {
            &&& !PtyCommon::open_state(v, h).ttys[h].flags.has(TTY_IO_ERROR)
            &&& PtyCommon::open_state(v, h).ttys[h].flags.has(TTY_THROTTLED)
            &&& !PtyCommon::open_state(v, h).ttys[v.link(h)->0].flags.has(TTY_OTHER_CLOSED)
        },
{
    if v.link(h) is Some {
        let link = v.link(h)->0;
        assert(v.ttys.contains_key(h));
        assert(link != h);
        let f = v.ttys[h].flags.bits;
        let g = v.ttys[link].flags.bits;
        assert((f | 0x2u32) & 0x2u32 == 0x2u32) by (bit_vector);
        assert(((f & !0x2u32) | 0x1u32) & 0x2u32 != 0x2u32) by (bit_vector);
        assert(((f & !0x2u32) | 0x1u32) & 0x1u32 == 0x1u32) by (bit_vector);
        assert((g & !0x4u32) & 0x4u32 != 0x4u32) by (bit_vector);
    }
}

/// An endpoint never clears its own `TTY_OTHER_CLOSED`: whatever its open
/// does, that flag of the endpoint stays as it was.
pub proof fn lemma_open_keeps_own_other_closed(v: PtyRegistryView, h: TtyHandle)
    requires
        v.wf(),
        v.contains(h),
    ensures
        PtyCommon::open_state(v, h).contains(h),
        PtyCommon::open_state(v, h).ttys[h].flags.has(TTY_OTHER_CLOSED) == v.ttys[h].flags.has(
            TTY_OTHER_CLOSED,
        ),
{
    assert(v.ttys.contains_key(h));
    let f = v.ttys[h].flags.bits;
    assert(((f | 0x2u32) & 0x4u32 == 0x4u32) == (f & 0x4u32 == 0x4u32)) by (bit_vector);
    assert((((f & !0x2u32) | 0x1u32) & 0x4u32 == 0x4u32) == (f & 0x4u32 == 0x4u32))
        by (bit_vector);
    if v.link(h) is Some {
        assert(v.link(h)->0 != h);
    }
}

/// The pairing is never pointed elsewhere: opening an endpoint leaves every
/// endpoint in place and linked as it was.
pub proof fn lemma_open_keeps_links(v: PtyRegistryView, h: TtyHandle, g: TtyHandle)
    requires
        v.wf(),
    ensures
        PtyCommon::open_state(v, h).wf(),
        PtyCommon::open_state(v, h).contains(g) == v.contains(g),
        v.contains(g) ==> PtyCommon::open_state(v, h).ttys[g].link == v.ttys[g].link,
        PtyCommon::open_state(v, h).link(g) == v.link(g),
{
    if v.link(h) is Some {
        assert(v.ttys.contains_key(h));
        assert(v.ttys.contains_key(v.link(h)->0));
    }
    if v.contains(g) {
        assert(v.ttys.contains_key(g));
    }
}

/// A write of no bytes returns zero and changes nothing, whether or not the
/// endpoint is stopped.
pub proof fn lemma_write_of_nothing(v: PtyRegistryView, h: TtyHandle, buf: Seq<u8>)
    ensures
        Unix98PtyDriverInner::write_result(v, h, buf, 0) == Ok::<usize, SystemError>(0),
        Unix98PtyDriverInner::write_state(v, h, buf, 0) == v,
{
}

/// A write on a stopped endpoint returns zero and changes nothing, however
/// many bytes it asks for.
pub proof fn lemma_write_while_stopped(v: PtyRegistryView, h: TtyHandle, buf: Seq<u8>, nr: usize)
    requires
        v.contains(h),
        v.ttys[h].flow.stopped,
    ensures
        Unix98PtyDriverInner::write_result(v, h, buf, nr) == Ok::<usize, SystemError>(0),
        Unix98PtyDriverInner::write_state(v, h, buf, nr) == v,
{
}

/// A write never takes more than was asked for, than the buffer holds, or
/// than the peer's port has room for, and what it takes is appended to the
/// peer's port. What `write_room` reports does not depend on it.
pub proof fn lemma_write_is_bounded(v: PtyRegistryView, h: TtyHandle, buf: Seq<u8>, nr: usize)
    requires
        v.wf(),
        Unix98PtyDriverInner::write_result(v, h, buf, nr) is Ok,
    ensures
        ({
            let n = Unix98PtyDriverInner::write_result(v, h, buf, nr)->Ok_0;
            let w = Unix98PtyDriverInner::write_state(v, h, buf, nr);
            &&& n <= nr
            &&& n <= buf.len()
            &&& w.wf()
            &&& Unix98PtyDriverInner::spec_write_room(w, h) == Unix98PtyDriverInner::spec_write_room(
                v,
                h,
            )
            &&& n > 0 ==> {
                &&& v.link(h) is Some
                &&& n <= v.ttys[v.link(h)->0].port.room()
                &&& w.ttys[v.link(h)->0].port.data == v.ttys[v.link(h)->0].port.data
                    + buf.subrange(0, n as int)
            }
        }),
{
    if nr != 0 && !v.ttys[h].flow.stopped {
        assert(v.ttys.contains_key(h));
        let link = v.link(h)->0;
        assert(v.ttys.contains_key(link));
        assert(link != h);
    }
}

/// Whatever the packet status of a slave held, stopping and then starting it
/// leaves "start" set and "stop" clear, and starting and then stopping it
/// leaves "stop" set and "start" clear; no other indicator changes. If the
/// status held none but these two, it ends as exactly "start", respectively
/// exactly "stop".
pub proof fn lemma_stop_start(v: PtyRegistryView, slave: TtyHandle)
    requires
        v.wf(),
        slave.subtype == TtyDriverSubType::PtySlave,
        v.link(slave) is Some,
    ensures
        ({
            let before = v.ttys[slave].ctrl.pktstatus.bits;
            let stop_start = Unix98PtyDriverInner::start_state(
                Unix98PtyDriverInner::stop_state(v, slave),
                slave,
            ).ttys[slave].ctrl.pktstatus.bits;
            let start_stop = Unix98PtyDriverInner::stop_state(
                Unix98PtyDriverInner::start_state(v, slave),
                slave,
            ).ttys[slave].ctrl.pktstatus.bits;
            &&& stop_start == (before & !(TIOCPKT_START | TIOCPKT_STOP)) | TIOCPKT_START
            &&& start_stop == (before & !(TIOCPKT_START | TIOCPKT_STOP)) | TIOCPKT_STOP
            &&& before & !(TIOCPKT_START | TIOCPKT_STOP) == 0 ==> stop_start == TIOCPKT_START
                && start_stop == TIOCPKT_STOP
        }),
{
    let before = v.ttys[slave].ctrl.pktstatus.bits;
    let link = v.link(slave)->0;
    assert(v.ttys.contains_key(slave));
    assert(link != slave);
    let stopped = Unix98PtyDriverInner::stop_state(v, slave);
    let started = Unix98PtyDriverInner::start_state(v, slave);
    assert(stopped.link(slave) == Some(link));
    assert(started.link(slave) == Some(link));
    assert(((((before & !0x08u8) | 0x04u8) & !0x04u8) | 0x08u8) == (before & !(0x08u8 | 0x04u8))
        | 0x08u8) by (bit_vector);
    assert(((((before & !0x04u8) | 0x08u8) & !0x08u8) | 0x04u8) == (before & !(0x08u8 | 0x04u8))
        | 0x04u8) by (bit_vector);
    assert(before & !(0x08u8 | 0x04u8) == 0 ==> (before & !(0x08u8 | 0x04u8)) | 0x08u8 == 0x08u8)
        by (bit_vector);
    assert(before & !(0x08u8 | 0x04u8) == 0 ==> (before & !(0x08u8 | 0x04u8)) | 0x04u8 == 0x04u8)
        by (bit_vector);
}

/// Switching packet mode on from off empties the packet status of the peer
/// and touches nothing else of it; switching it on when it is on already
/// changes nothing at all.
pub proof fn lemma_packet_mode_toggle(v: PtyRegistryView, h: TtyHandle, arg: Seq<u8>)
    requires
        v.wf(),
        v.link(h) is Some,
        user_area_holds(arg, 0, PTY_ARG_SIZE as int),
        user_u32(arg, 0) != 0,
    ensures
        PtyCommon::set_packet_mode_result(v, h, arg) is Ok,
        ({
            let w = PtyCommon::set_packet_mode_state(v, h, arg);
            let link = v.link(h)->0;
            &&& w.ttys[h].ctrl.packet
            &&& !v.ttys[h].ctrl.packet ==> w.ttys[link].ctrl.pktstatus.bits == 0
            &&& v.ttys[h].ctrl.packet ==> w == v
        }),
{
    assert(v.ttys.contains_key(h));
    assert(v.link(h)->0 != h);
}

} // verus!
