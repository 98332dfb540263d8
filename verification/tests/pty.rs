use pty_core::error::SystemError;
use pty_core::flags::{
    TtyFlag, TtyPacketStatus, TIOCPKT_FLUSHWRITE, TIOCPKT_START, TIOCPKT_STOP, TTY_IO_ERROR,
    TTY_OTHER_CLOSED, TTY_PTY_LOCK, TTY_THROTTLED,
};
use pty_core::pty::unix98pty::{
    Unix98PtyDriverInner, EPOLLIN, PTY_WRITE_ROOM, TIOCGPKT, TIOCGPTLCK, TIOCPKT, TIOCSPTLCK,
};
use pty_core::pty::{pty_init, PtyCommon};
use pty_core::registry::{PtyRegistry, NR_UNIX98_PTY_MAX};
use pty_core::termios::{pty_termios, tty_std_termios};
use pty_core::tty_core::{TtyCoreData, TtyDriverSubType, TtyHandle, TtyWakeup};
use pty_core::tty_port::{DefaultTtyPort, TTY_PORT_BUFSIZE};

fn master(index: usize) -> TtyHandle {
    TtyHandle { subtype: TtyDriverSubType::PtyMaster, index }
}

fn slave(index: usize) -> TtyHandle {
    TtyHandle { subtype: TtyDriverSubType::PtySlave, index }
}

fn registry_with_pair(index: usize) -> PtyRegistry {
    let mut reg = PtyCommon::unix98pty_init().unwrap();
    let pair = PtyCommon::pty_common_install(&mut reg, TtyDriverSubType::PtyMaster, index, false);
    assert_eq!(pair, Ok((master(index), slave(index))));
    reg
}

fn ep(reg: &PtyRegistry, h: TtyHandle) -> &TtyCoreData {
    reg.tty(h).unwrap()
}

fn ep_mut(reg: &mut PtyRegistry, h: TtyHandle) -> &mut TtyCoreData {
    let table = match h.subtype {
        TtyDriverSubType::PtyMaster => &mut reg.ptm.ttys,
        TtyDriverSubType::PtySlave => &mut reg.pts.ttys,
    };
    table[h.index].as_mut().unwrap()
}

#[test]
fn init_builds_two_wired_drivers_and_the_control_device() {
    let reg = PtyCommon::unix98pty_init().unwrap();
    assert_eq!(reg.ptm.info.name, "ptm");
    assert_eq!(reg.pts.info.name, "pts");
    assert_eq!(reg.ptm.info.major, 128);
    assert_eq!(reg.pts.info.major, 136);
    assert_eq!(reg.ptm.info.minor_start, 0);
    assert_eq!(reg.ptm.info.subtype, TtyDriverSubType::PtyMaster);
    assert_eq!(reg.pts.info.subtype, TtyDriverSubType::PtySlave);
    assert_eq!(reg.ptm.info.other_pty_driver, Some(TtyDriverSubType::PtySlave));
    assert_eq!(reg.pts.info.other_pty_driver, Some(TtyDriverSubType::PtyMaster));
    assert_eq!(reg.ptm.ttys.len(), 4096);
    assert_eq!(reg.pts.ttys.len(), NR_UNIX98_PTY_MAX);
    assert!(reg.ptm.ttys.iter().all(|slot| slot.is_none()));
    assert!(reg.pts.ttys.iter().all(|slot| slot.is_none()));
    assert_eq!(reg.ptmx.name, "ptmx");
    assert_eq!((reg.ptmx.major, reg.ptmx.minor), (5, 2));
}

#[test]
fn init_gives_the_drivers_a_raw_eight_bit_line() {
    let reg = pty_init().unwrap();
    let term = reg.ptm.info.init_termios;
    assert_eq!(term, reg.pts.info.init_termios);
    assert_eq!(term, pty_termios());
    assert_eq!(term.input_mode, 0);
    assert_eq!(term.output_mode, 0);
    assert_eq!(term.local_mode, 0);
    assert_eq!(term.control_mode, 0xbf);
    assert_eq!(term.input_speed, 38400);
    assert_eq!(term.output_speed, 38400);
    assert_eq!(term.line, tty_std_termios().line);
    assert_ne!(tty_std_termios().local_mode, 0);
}

#[test]
fn legacy_init_does_nothing() {
    assert_eq!(PtyCommon::legacy_pty_init(), Ok(()));
}

#[test]
fn installed_pair_resolves_both_ways() {
    let reg = registry_with_pair(7);
    assert_eq!(reg.link(master(7)), Some(slave(7)));
    assert_eq!(reg.link(slave(7)), Some(master(7)));
    assert_eq!(master(7).peer(), slave(7));
    assert_eq!(slave(7).peer(), master(7));
    assert!(reg.contains(master(7)));
    assert!(!reg.contains(master(8)));
    assert_eq!(reg.link(master(8)), None);
}

#[test]
fn installed_endpoints_start_opened_once_with_empty_bound_ports() {
    let reg = registry_with_pair(0);
    for h in [master(0), slave(0)] {
        let c = ep(&reg, h);
        assert_eq!(c.handle(), h);
        assert_eq!(c.link, Some(h.peer()));
        assert_eq!(c.count, 1);
        assert_eq!(c.flags, TtyFlag { bits: 0 });
        assert!(!c.ctrl.packet);
        assert_eq!(c.ctrl.pktstatus, TtyPacketStatus { bits: 0 });
        assert!(!c.flow.stopped);
        assert_eq!(c.port.internal_tty, Some(h.peer()));
        assert!(c.port.buf.is_empty());
        assert_eq!(c.port.capacity, TTY_PORT_BUFSIZE);
        assert_eq!(c.termios, pty_termios());
    }
}

#[test]
fn install_from_the_slave_driver_gives_the_same_pair() {
    let mut reg = PtyCommon::unix98pty_init().unwrap();
    let ops = Unix98PtyDriverInner::new();
    let pair = ops.install(&mut reg, TtyDriverSubType::PtySlave, 3);
    assert_eq!(pair, Ok((slave(3), master(3))));
    assert_eq!(reg.link(master(3)), Some(slave(3)));
}

#[test]
fn install_in_legacy_mode_leaves_the_same_pair() {
    let mut reg = PtyCommon::unix98pty_init().unwrap();
    let pair = PtyCommon::pty_common_install(&mut reg, TtyDriverSubType::PtyMaster, 1, true);
    assert_eq!(pair, Ok((master(1), slave(1))));
    assert_eq!(ep(&reg, master(1)).count, 1);
    assert_eq!(ep(&reg, slave(1)).termios, reg.pts.info.init_termios);
}

#[test]
fn install_uses_each_drivers_own_line_settings() {
    let mut reg = PtyCommon::unix98pty_init().unwrap();
    reg.pts.info.init_termios.input_speed = 9600;
    PtyCommon::pty_common_install(&mut reg, TtyDriverSubType::PtyMaster, 0, false).unwrap();
    assert_eq!(ep(&reg, master(0)).termios.input_speed, 38400);
    assert_eq!(ep(&reg, slave(0)).termios.input_speed, 9600);
}

#[test]
fn install_outside_the_index_space_is_refused() {
    let mut reg = PtyCommon::unix98pty_init().unwrap();
    let r = PtyCommon::pty_common_install(&mut reg, TtyDriverSubType::PtyMaster, 4096, false);
    assert_eq!(r, Err(SystemError::NoSuchDevice));
    assert!(reg.ptm.ttys.iter().all(|slot| slot.is_none()));
    let last = PtyCommon::pty_common_install(&mut reg, TtyDriverSubType::PtyMaster, 4095, false);
    assert_eq!(last, Ok((master(4095), slave(4095))));
}

#[test]
fn install_replaces_a_pair_at_the_same_index() {
    let mut reg = registry_with_pair(0);
    ep_mut(&mut reg, master(0)).flags.insert(TTY_PTY_LOCK);
    ep_mut(&mut reg, slave(0)).count = 5;
    PtyCommon::pty_common_install(&mut reg, TtyDriverSubType::PtyMaster, 0, false).unwrap();
    assert_eq!(ep(&reg, master(0)).flags.bits(), 0);
    assert_eq!(ep(&reg, slave(0)).count, 1);
}

#[test]
fn slave_opens_right_after_installation() {
    let mut reg = registry_with_pair(0);
    let ops = Unix98PtyDriverInner::new();
    assert_eq!(ops.open(&mut reg, slave(0)), Ok(()));
    assert!(ep(&reg, slave(0)).flags.contains(TTY_THROTTLED));
    assert!(!ep(&reg, slave(0)).flags.contains(TTY_IO_ERROR));
    assert_eq!(ep(&reg, slave(0)).flags.bits(), 0x1);
    assert_eq!(ep(&reg, master(0)).flags.bits(), 0);
}

#[test]
fn slave_open_fails_while_the_master_is_locked() {
    let mut reg = registry_with_pair(0);
    let ops = Unix98PtyDriverInner::new();
    assert_eq!(ops.open(&mut reg, master(0)), Ok(()));
    assert_eq!(PtyCommon::pty_set_lock(&mut reg, master(0), &1i32.to_ne_bytes()), Ok(()));
    assert!(ep(&reg, master(0)).flags.contains(TTY_PTY_LOCK));
    assert_eq!(ops.open(&mut reg, slave(0)), Err(SystemError::IOError));
    assert!(ep(&reg, slave(0)).flags.contains(TTY_IO_ERROR));
    assert!(!ep(&reg, slave(0)).flags.contains(TTY_THROTTLED));

    assert_eq!(PtyCommon::pty_set_lock(&mut reg, master(0), &0i32.to_ne_bytes()), Ok(()));
    assert_eq!(ops.open(&mut reg, slave(0)), Ok(()));
    assert!(!ep(&reg, slave(0)).flags.contains(TTY_IO_ERROR));
    assert!(ep(&reg, slave(0)).flags.contains(TTY_THROTTLED));
}

#[test]
fn slave_open_needs_exactly_one_open_master() {
    for (count, expected) in [(0, Err(SystemError::IOError)), (1, Ok(())), (2, Err(SystemError::IOError))] {
        let mut reg = registry_with_pair(0);
        ep_mut(&mut reg, master(0)).count = count;
        assert_eq!(PtyCommon::pty_common_open(&mut reg, slave(0)), expected);
        assert_eq!(ep(&reg, slave(0)).flags.contains(TTY_IO_ERROR), expected.is_err());
    }
}

#[test]
fn master_open_does_not_look_at_the_slaves_count() {
    let mut reg = registry_with_pair(0);
    ep_mut(&mut reg, slave(0)).count = 3;
    assert_eq!(PtyCommon::pty_common_open(&mut reg, master(0)), Ok(()));
}

#[test]
fn open_fails_after_the_other_side_closed_and_keeps_the_flag() {
    let mut reg = registry_with_pair(0);
    ep_mut(&mut reg, slave(0)).flags.insert(TTY_OTHER_CLOSED);
    assert_eq!(PtyCommon::pty_common_open(&mut reg, slave(0)), Err(SystemError::IOError));
    assert_eq!(ep(&reg, slave(0)).flags.bits(), TTY_OTHER_CLOSED | TTY_IO_ERROR);
    assert_eq!(ep(&reg, master(0)).flags.bits(), 0);
}

#[test]
fn open_of_the_peer_clears_other_closed() {
    let mut reg = registry_with_pair(0);
    ep_mut(&mut reg, slave(0)).flags.insert(TTY_OTHER_CLOSED);
    ep_mut(&mut reg, master(0)).flags.insert(TTY_IO_ERROR);
    assert_eq!(PtyCommon::pty_common_open(&mut reg, master(0)), Ok(()));
    assert_eq!(ep(&reg, slave(0)).flags.bits(), 0);
    assert_eq!(ep(&reg, master(0)).flags.bits(), TTY_THROTTLED);
    assert_eq!(PtyCommon::pty_common_open(&mut reg, slave(0)), Ok(()));
}

#[test]
fn open_checks_other_closed_before_the_lock() {
    let mut reg = registry_with_pair(0);
    ep_mut(&mut reg, slave(0)).flags.insert(TTY_OTHER_CLOSED);
    ep_mut(&mut reg, master(0)).flags.insert(TTY_PTY_LOCK);
    assert_eq!(PtyCommon::pty_common_open(&mut reg, slave(0)), Err(SystemError::IOError));
    assert_eq!(ep(&reg, master(0)).flags.bits(), TTY_PTY_LOCK);
}

#[test]
fn open_without_a_peer_is_no_such_device_and_sets_nothing() {
    let mut reg = registry_with_pair(0);
    let gone = reg.remove(master(0));
    assert!(gone.is_some());
    assert_eq!(reg.link(slave(0)), None);
    assert_eq!(PtyCommon::pty_common_open(&mut reg, slave(0)), Err(SystemError::NoSuchDevice));
    assert_eq!(ep(&reg, slave(0)).flags.bits(), 0);
    assert_eq!(PtyCommon::pty_common_open(&mut reg, master(0)), Err(SystemError::NoSuchDevice));
    assert_eq!(PtyCommon::pty_common_open(&mut reg, slave(9)), Err(SystemError::NoSuchDevice));
}

#[test]
fn write_forwards_to_the_peers_port() {
    let mut reg = registry_with_pair(0);
    let ops = Unix98PtyDriverInner::new();
    assert_eq!(ops.open(&mut reg, master(0)), Ok(()));
    assert_eq!(ops.open(&mut reg, slave(0)), Ok(()));
    assert_eq!(ops.write(&mut reg, master(0), b"hello", 5), Ok(5));
    assert_eq!(ep(&reg, slave(0)).port.buf, b"hello".to_vec());
    assert!(ep(&reg, master(0)).port.buf.is_empty());
    assert_eq!(ops.write_room(&reg, master(0)), 8192);
    assert_eq!(ops.write_room(&reg, master(0)), PTY_WRITE_ROOM);

    assert_eq!(ops.write(&mut reg, slave(0), b"ok", 2), Ok(2));
    assert_eq!(ep(&reg, master(0)).port.buf, b"ok".to_vec());
    assert_eq!(ops.write(&mut reg, master(0), b" world", 6), Ok(6));
    assert_eq!(ep(&reg, slave(0)).port.buf, b"hello world".to_vec());
}

#[test]
fn write_takes_a_prefix_when_fewer_bytes_are_asked_for() {
    let mut reg = registry_with_pair(0);
    let ops = Unix98PtyDriverInner::new();
    assert_eq!(ops.write(&mut reg, master(0), b"hello", 3), Ok(3));
    assert_eq!(ep(&reg, slave(0)).port.buf, b"hel".to_vec());
}

#[test]
fn write_never_takes_more_than_the_buffer_holds() {
    let mut reg = registry_with_pair(0);
    let ops = Unix98PtyDriverInner::new();
    assert_eq!(ops.write(&mut reg, master(0), b"hello", 9), Ok(5));
    assert_eq!(ep(&reg, slave(0)).port.buf, b"hello".to_vec());
}

#[test]
fn write_of_nothing_returns_zero_whatever_the_flow_state() {
    let ops = Unix98PtyDriverInner::new();
    for stopped in [false, true] {
        let mut reg = registry_with_pair(0);
        ep_mut(&mut reg, master(0)).flow.stopped = stopped;
        assert_eq!(ops.write(&mut reg, master(0), b"hello", 0), Ok(0));
        assert!(ep(&reg, slave(0)).port.buf.is_empty());
        assert_eq!(ep(&reg, master(0)).flow.stopped, stopped);
    }
}

#[test]
fn write_of_nothing_does_not_need_a_peer() {
    let mut reg = registry_with_pair(0);
    reg.remove(slave(0));
    let ops = Unix98PtyDriverInner::new();
    assert_eq!(ops.write(&mut reg, master(0), b"hello", 0), Ok(0));
    assert_eq!(ops.write(&mut reg, slave(0), b"hello", 0), Ok(0));
    assert_eq!(ops.write(&mut reg, master(0), b"hello", 5), Err(SystemError::NoSuchDevice));
    assert_eq!(ops.write(&mut reg, slave(0), b"hello", 5), Err(SystemError::NoSuchDevice));
}

#[test]
fn write_while_stopped_returns_zero() {
    let mut reg = registry_with_pair(0);
    let ops = Unix98PtyDriverInner::new();
    ep_mut(&mut reg, master(0)).flow.stopped = true;
    for n in [1usize, 5, 4096, usize::MAX] {
        assert_eq!(ops.write(&mut reg, master(0), b"hello", n), Ok(0));
    }
    assert!(ep(&reg, slave(0)).port.buf.is_empty());
    assert_eq!(ops.write_room(&reg, master(0)), 0);
    assert_eq!(ops.write_room(&reg, slave(0)), 8192);
    assert_eq!(ops.write_room(&reg, master(1)), 0);
}

#[test]
fn write_meets_backpressure_when_the_port_is_full() {
    let mut reg = registry_with_pair(0);
    let ops = Unix98PtyDriverInner::new();
    let big = vec![0x5au8; 5000];
    assert_eq!(ops.write(&mut reg, master(0), &big, 5000), Ok(4096));
    assert_eq!(ep(&reg, slave(0)).port.buf.len(), 4096);
    assert_eq!(ops.write(&mut reg, master(0), b"x", 1), Ok(0));
    assert_eq!(ops.write_room(&reg, master(0)), 8192);

    let taken = ep_mut(&mut reg, slave(0)).port.take_data();
    assert_eq!(taken, vec![0x5au8; 4096]);
    assert_eq!(ops.write(&mut reg, master(0), b"x", 1), Ok(1));
    assert_eq!(ep(&reg, slave(0)).port.buf, b"x".to_vec());
}

#[test]
fn port_takes_what_fits() {
    let mut port = DefaultTtyPort::new();
    assert_eq!(port.room(), 4096);
    port.capacity = 4;
    assert_eq!(port.receive_buf(b"abc", &[], 3), 3);
    assert_eq!(port.room(), 1);
    assert_eq!(port.receive_buf(b"def", &[], 3), 1);
    assert_eq!(port.buf, b"abcd".to_vec());
    assert_eq!(port.receive_buf(b"g", &[], 1), 0);
    port.setup_internal_tty(master(2));
    assert_eq!(port.internal_tty, Some(master(2)));
    assert_eq!(port.take_data(), b"abcd".to_vec());
    assert_eq!(port.room(), 4);
}

#[test]
fn stop_then_start_leaves_exactly_start() {
    let mut reg = registry_with_pair(0);
    let ops = Unix98PtyDriverInner::new();
    let wake = TtyWakeup { tty: master(0), events: Some(EPOLLIN) };
    assert_eq!(ops.stop(&mut reg, slave(0)), Ok(wake));
    assert_eq!(ep(&reg, slave(0)).ctrl.pktstatus.bits(), TIOCPKT_STOP);
    assert_eq!(ops.start(&mut reg, slave(0)), Ok(wake));
    assert_eq!(ep(&reg, slave(0)).ctrl.pktstatus.bits(), TIOCPKT_START);
    assert_eq!(ep(&reg, master(0)).ctrl.pktstatus.bits(), 0);
    assert_eq!(EPOLLIN, 1);
}

#[test]
fn start_then_stop_leaves_exactly_stop() {
    let mut reg = registry_with_pair(0);
    let ops = Unix98PtyDriverInner::new();
    assert!(ops.start(&mut reg, slave(0)).is_ok());
    assert_eq!(ep(&reg, slave(0)).ctrl.pktstatus.bits(), 0x08);
    assert!(ops.stop(&mut reg, slave(0)).is_ok());
    assert_eq!(ep(&reg, slave(0)).ctrl.pktstatus.bits(), 0x04);
}

#[test]
fn start_and_stop_keep_the_other_indicators() {
    let mut reg = registry_with_pair(0);
    let ops = Unix98PtyDriverInner::new();
    assert!(ops.flush_buffer(&mut reg, master(0)).is_ok());
    assert!(ops.stop(&mut reg, slave(0)).is_ok());
    assert!(ops.start(&mut reg, slave(0)).is_ok());
    assert_eq!(ep(&reg, slave(0)).ctrl.pktstatus.bits(), TIOCPKT_FLUSHWRITE | TIOCPKT_START);
}

#[test]
fn start_and_stop_are_for_slaves_only() {
    let mut reg = registry_with_pair(0);
    let ops = Unix98PtyDriverInner::new();
    assert_eq!(ops.start(&mut reg, master(0)), Err(SystemError::NotSupported));
    assert_eq!(ops.stop(&mut reg, master(0)), Err(SystemError::NotSupported));
    assert_eq!(ep(&reg, master(0)).ctrl.pktstatus.bits(), 0);
    assert_eq!(ops.stop(&mut reg, master(5)), Err(SystemError::NotSupported));
}

#[test]
fn start_and_stop_need_a_peer_and_touch_nothing_without_one() {
    let mut reg = registry_with_pair(0);
    let ops = Unix98PtyDriverInner::new();
    reg.remove(master(0));
    assert_eq!(ops.stop(&mut reg, slave(0)), Err(SystemError::NoSuchDevice));
    assert_eq!(ops.start(&mut reg, slave(0)), Err(SystemError::NoSuchDevice));
    assert_eq!(ep(&reg, slave(0)).ctrl.pktstatus.bits(), 0);
    assert_eq!(ops.start(&mut reg, slave(1)), Err(SystemError::NoSuchDevice));
}

#[test]
fn flush_buffer_marks_the_peer_and_wakes_all_its_readers() {
    let mut reg = registry_with_pair(2);
    let ops = Unix98PtyDriverInner::new();
    assert_eq!(ops.flush_buffer(&mut reg, slave(2)), Ok(TtyWakeup { tty: master(2), events: None }));
    assert_eq!(ep(&reg, master(2)).ctrl.pktstatus.bits(), 0x02);
    assert_eq!(ep(&reg, slave(2)).ctrl.pktstatus.bits(), 0);
    reg.remove(master(2));
    assert_eq!(ops.flush_buffer(&mut reg, slave(2)), Err(SystemError::NoSuchDevice));
    ops.flush_chars(&reg, slave(2));
    assert_eq!(ep(&reg, slave(2)).ctrl.pktstatus.bits(), 0);
}

#[test]
fn packet_mode_off_to_on_resets_the_peers_status() {
    let mut reg = registry_with_pair(0);
    let ops = Unix98PtyDriverInner::new();
    assert!(ops.stop(&mut reg, slave(0)).is_ok());
    assert_eq!(ep(&reg, slave(0)).ctrl.pktstatus.bits(), TIOCPKT_STOP);
    assert_eq!(PtyCommon::pty_set_packet_mode(&mut reg, master(0), &1i32.to_ne_bytes()), Ok(()));
    assert!(ep(&reg, master(0)).ctrl.packet);
    assert_eq!(ep(&reg, slave(0)).ctrl.pktstatus.bits(), 0);
    assert!(!ep(&reg, slave(0)).ctrl.packet);
}

#[test]
fn packet_mode_on_to_on_leaves_the_peers_status() {
    let mut reg = registry_with_pair(0);
    let ops = Unix98PtyDriverInner::new();
    assert_eq!(PtyCommon::pty_set_packet_mode(&mut reg, master(0), &1i32.to_ne_bytes()), Ok(()));
    assert!(ops.stop(&mut reg, slave(0)).is_ok());
    assert_eq!(PtyCommon::pty_set_packet_mode(&mut reg, master(0), &7i32.to_ne_bytes()), Ok(()));
    assert!(ep(&reg, master(0)).ctrl.packet);
    assert_eq!(ep(&reg, slave(0)).ctrl.pktstatus.bits(), TIOCPKT_STOP);
}

#[test]
fn packet_mode_off_leaves_the_peers_status() {
    let mut reg = registry_with_pair(0);
    let ops = Unix98PtyDriverInner::new();
    assert_eq!(PtyCommon::pty_set_packet_mode(&mut reg, master(0), &1i32.to_ne_bytes()), Ok(()));
    assert!(ops.stop(&mut reg, slave(0)).is_ok());
    assert_eq!(PtyCommon::pty_set_packet_mode(&mut reg, master(0), &0i32.to_ne_bytes()), Ok(()));
    assert!(!ep(&reg, master(0)).ctrl.packet);
    assert_eq!(ep(&reg, slave(0)).ctrl.pktstatus.bits(), TIOCPKT_STOP);
}

#[test]
fn packet_mode_on_without_a_peer_is_refused() {
    let mut reg = registry_with_pair(0);
    reg.remove(slave(0));
    let on = 1i32.to_ne_bytes();
    assert_eq!(PtyCommon::pty_set_packet_mode(&mut reg, master(0), &on), Err(SystemError::NoSuchDevice));
    assert!(!ep(&reg, master(0)).ctrl.packet);
    assert_eq!(PtyCommon::pty_set_packet_mode(&mut reg, master(0), &0i32.to_ne_bytes()), Ok(()));
    ep_mut(&mut reg, master(0)).ctrl.packet = true;
    assert_eq!(PtyCommon::pty_set_packet_mode(&mut reg, master(0), &on), Ok(()));
}

#[test]
fn requests_refuse_a_short_argument_with_fault() {
    let mut reg = registry_with_pair(0);
    assert_eq!(PtyCommon::pty_set_lock(&mut reg, master(0), &[1, 0, 0]), Err(SystemError::Fault));
    assert_eq!(PtyCommon::pty_set_packet_mode(&mut reg, master(0), &[]), Err(SystemError::Fault));
    assert_eq!(ep(&reg, master(0)).flags.bits(), 0);
    let mut short = [9u8; 3];
    assert_eq!(PtyCommon::pty_get_lock(&reg, master(0), &mut short), Err(SystemError::Fault));
    assert_eq!(PtyCommon::pty_get_packet_mode(&reg, master(0), &mut short), Err(SystemError::Fault));
    assert_eq!(short, [9u8; 3]);
    assert_eq!(PtyCommon::pty_set_lock(&mut reg, master(3), &[1, 0, 0]), Err(SystemError::Fault));
}

#[test]
fn requests_on_a_missing_endpoint_are_no_such_device() {
    let mut reg = registry_with_pair(0);
    let one = 1i32.to_ne_bytes();
    let mut out = [9u8; 4];
    assert_eq!(PtyCommon::pty_set_lock(&mut reg, master(1), &one), Err(SystemError::NoSuchDevice));
    assert_eq!(PtyCommon::pty_set_packet_mode(&mut reg, master(1), &one), Err(SystemError::NoSuchDevice));
    assert_eq!(PtyCommon::pty_get_lock(&reg, master(1), &mut out), Err(SystemError::NoSuchDevice));
    assert_eq!(PtyCommon::pty_get_packet_mode(&reg, master(1), &mut out), Err(SystemError::NoSuchDevice));
    assert_eq!(out, [9u8; 4]);
}

#[test]
fn lock_is_set_by_any_nonzero_value_and_reported_in_the_first_byte() {
    let mut reg = registry_with_pair(0);
    let mut out = [9u8; 4];
    assert_eq!(PtyCommon::pty_get_lock(&reg, master(0), &mut out), Ok(()));
    assert_eq!(out, [0, 9, 9, 9]);
    assert_eq!(PtyCommon::pty_set_lock(&mut reg, master(0), &[0, 0, 1, 0]), Ok(()));
    assert_eq!(ep(&reg, master(0)).flags.bits(), 0x10000);
    assert_eq!(PtyCommon::pty_get_lock(&reg, master(0), &mut out), Ok(()));
    assert_eq!(out, [1, 9, 9, 9]);
    assert_eq!(PtyCommon::pty_set_lock(&mut reg, master(0), &(-1i32).to_ne_bytes()), Ok(()));
    assert!(ep(&reg, master(0)).flags.contains(TTY_PTY_LOCK));
    assert_eq!(PtyCommon::pty_set_lock(&mut reg, master(0), &[0, 0, 0, 0, 1]), Ok(()));
    assert!(!ep(&reg, master(0)).flags.contains(TTY_PTY_LOCK));
}

#[test]
fn packet_mode_is_reported_in_the_first_byte() {
    let mut reg = registry_with_pair(0);
    let mut out = [9u8; 6];
    assert_eq!(PtyCommon::pty_get_packet_mode(&reg, slave(0), &mut out), Ok(()));
    assert_eq!(out, [0, 9, 9, 9, 9, 9]);
    assert_eq!(PtyCommon::pty_set_packet_mode(&mut reg, slave(0), &1i32.to_ne_bytes()), Ok(()));
    assert_eq!(PtyCommon::pty_get_packet_mode(&reg, slave(0), &mut out), Ok(()));
    assert_eq!(out, [1, 9, 9, 9, 9, 9]);
}

#[test]
fn ioctl_serves_the_four_requests_of_a_master() {
    let mut reg = registry_with_pair(0);
    let ops = Unix98PtyDriverInner::new();
    let mut arg = 1i32.to_ne_bytes();
    assert_eq!(ops.ioctl(&mut reg, master(0), TIOCSPTLCK, &mut arg), Ok(()));
    assert!(ep(&reg, master(0)).flags.contains(TTY_PTY_LOCK));
    assert_eq!(arg, 1i32.to_ne_bytes());

    let mut out = [7u8; 4];
    assert_eq!(ops.ioctl(&mut reg, master(0), TIOCGPTLCK, &mut out), Ok(()));
    assert_eq!(out, [1, 7, 7, 7]);

    assert_eq!(ops.ioctl(&mut reg, master(0), TIOCGPKT, &mut out), Ok(()));
    assert_eq!(out, [0, 7, 7, 7]);
    assert_eq!(ops.ioctl(&mut reg, master(0), TIOCPKT, &mut arg), Ok(()));
    assert!(ep(&reg, master(0)).ctrl.packet);
    assert_eq!(ops.ioctl(&mut reg, master(0), TIOCGPKT, &mut out), Ok(()));
    assert_eq!(out, [1, 7, 7, 7]);
}

#[test]
fn ioctl_refuses_slaves_unknown_requests_and_bad_arguments() {
    let mut reg = registry_with_pair(0);
    let ops = Unix98PtyDriverInner::new();
    let mut arg = 1i32.to_ne_bytes();
    assert_eq!(ops.ioctl(&mut reg, slave(0), TIOCSPTLCK, &mut arg), Err(SystemError::NotSupported));
    assert_eq!(ops.ioctl(&mut reg, slave(0), 0x1234, &mut arg), Err(SystemError::NotSupported));
    assert_eq!(ops.ioctl(&mut reg, master(0), 0x1234, &mut arg), Err(SystemError::InvalidArgument));
    assert_eq!(ops.ioctl(&mut reg, master(0), TIOCSPTLCK, &mut arg[..2]), Err(SystemError::Fault));
    assert_eq!(ops.ioctl(&mut reg, master(1), TIOCPKT, &mut arg), Err(SystemError::NoSuchDevice));
    assert_eq!(ep(&reg, master(0)).flags.bits(), 0);
    assert_eq!(ep(&reg, slave(0)).flags.bits(), 0);
    assert_eq!((TIOCSPTLCK, TIOCGPTLCK, TIOCPKT, TIOCGPKT), (0x40045431, 0x80045439, 0x5420, 0x80045438));
}

#[test]
fn set_termios_is_refused_on_a_master() {
    let reg = registry_with_pair(0);
    let ops = Unix98PtyDriverInner::new();
    assert_eq!(ops.set_termios(&reg, master(0), pty_termios()), Err(SystemError::NotSupported));
}

#[test]
fn removing_an_endpoint_leaves_its_peer_unresolved() {
    let mut reg = registry_with_pair(4);
    let gone = reg.remove(slave(4)).unwrap();
    assert_eq!(gone.handle(), slave(4));
    assert!(reg.contains(master(4)));
    assert!(!reg.contains(slave(4)));
    assert_eq!(reg.link(master(4)), None);
    assert_eq!(ep(&reg, master(4)).link, Some(slave(4)));
    assert!(reg.remove(slave(4)).is_none());
    assert!(reg.remove(slave(5000)).is_none());
    assert!(reg.put(gone).is_none());
    assert_eq!(reg.link(master(4)), Some(slave(4)));
    assert!(reg.is_wf());
}

#[test]
fn an_endpoint_outside_the_index_space_is_handed_back() {
    let mut reg = registry_with_pair(0);
    let stray = TtyCoreData::new(TtyDriverSubType::PtySlave, 4096, pty_termios());
    assert_eq!(stray.count, 0);
    assert_eq!(stray.link, None);
    let back = reg.put(stray).unwrap();
    assert_eq!(back.handle(), slave(4096));
    assert!(reg.is_wf());
}

#[test]
fn well_formedness_is_kept_by_the_operations_and_can_be_tested() {
    let mut reg = PtyCommon::unix98pty_init().unwrap();
    assert!(reg.is_wf());
    let ops = Unix98PtyDriverInner::new();
    ops.install(&mut reg, TtyDriverSubType::PtyMaster, 10).unwrap();
    ops.open(&mut reg, slave(10)).unwrap();
    ops.write(&mut reg, master(10), b"abc", 3).unwrap();
    ops.stop(&mut reg, slave(10)).unwrap();
    assert!(reg.is_wf());

    ep_mut(&mut reg, slave(10)).link = None;
    assert!(!reg.is_wf());
    ep_mut(&mut reg, slave(10)).link = Some(slave(10));
    assert!(!reg.is_wf());
    ep_mut(&mut reg, slave(10)).link = Some(master(10));
    assert!(reg.is_wf());
    ep_mut(&mut reg, master(10)).index = 11;
    assert!(!reg.is_wf());
    ep_mut(&mut reg, master(10)).index = 10;
    ep_mut(&mut reg, master(10)).port.capacity = 0;
    assert!(reg.is_wf());
    ep_mut(&mut reg, slave(10)).port.capacity = 2;
    assert!(!reg.is_wf());
    ep_mut(&mut reg, slave(10)).port.capacity = 3;
    assert!(reg.is_wf());
    reg.pts.info.other_pty_driver = None;
    assert!(!reg.is_wf());
    reg.pts.info.other_pty_driver = Some(TtyDriverSubType::PtyMaster);
    reg.ptm.ttys.pop();
    assert!(!reg.is_wf());
}

#[test]
fn updates_of_a_missing_endpoint_change_nothing() {
    let mut reg = registry_with_pair(0);
    reg.set_flags(master(1), TtyFlag { bits: 7 });
    reg.set_flags(master(9999), TtyFlag { bits: 7 });
    assert_eq!(reg.receive_buf(slave(1), b"abc", 3), 0);
    assert!(reg.ptm.ttys[1].is_none());
    reg.set_flags(master(0), TtyFlag { bits: 7 });
    assert_eq!(ep(&reg, master(0)).flags.bits(), 7);
    assert_eq!(reg.receive_buf(slave(0), b"abc", 2), 2);
    assert_eq!(ep(&reg, slave(0)).port.buf, b"ab".to_vec());
    assert!(reg.is_wf());
}

#[test]
fn pairs_at_different_indices_do_not_touch_each_other() {
    let mut reg = registry_with_pair(0);
    PtyCommon::pty_common_install(&mut reg, TtyDriverSubType::PtyMaster, 1, false).unwrap();
    let ops = Unix98PtyDriverInner::new();
    assert_eq!(ops.write(&mut reg, master(1), b"one", 3), Ok(3));
    assert!(ops.stop(&mut reg, slave(1)).is_ok());
    assert_eq!(PtyCommon::pty_set_lock(&mut reg, master(1), &1i32.to_ne_bytes()), Ok(()));
    assert!(ep(&reg, slave(0)).port.buf.is_empty());
    assert_eq!(ep(&reg, slave(0)).ctrl.pktstatus.bits(), 0);
    assert_eq!(ops.open(&mut reg, slave(0)), Ok(()));
    assert_eq!(ops.open(&mut reg, slave(1)), Err(SystemError::IOError));
}

#[test]
fn flag_sets_insert_remove_and_contain() {
    let mut f = TtyFlag::empty();
    assert!(!f.contains(TTY_PTY_LOCK));
    f.insert(TTY_PTY_LOCK);
    f.insert(TTY_THROTTLED);
    assert_eq!(f.bits(), 0x10001);
    assert!(f.contains(TTY_PTY_LOCK | TTY_THROTTLED));
    assert!(!f.contains(TTY_PTY_LOCK | TTY_IO_ERROR));
    f.remove(TTY_PTY_LOCK);
    assert_eq!(f.bits(), 0x1);
    assert_eq!((TTY_THROTTLED, TTY_IO_ERROR, TTY_OTHER_CLOSED, TTY_PTY_LOCK), (1, 2, 4, 0x10000));

    let mut s = TtyPacketStatus::empty();
    s.insert(TIOCPKT_START);
    s.insert(TIOCPKT_FLUSHWRITE);
    assert!(s.contains(TIOCPKT_START));
    assert!(!s.contains(TIOCPKT_STOP));
    s.remove(TIOCPKT_START);
    assert_eq!(s.bits(), 0x02);
}

#[test]
fn errors_have_their_posix_numbers() {
    assert_eq!(SystemError::NotPermitted.to_posix_errno(), -1);
    assert_eq!(SystemError::IOError.to_posix_errno(), -5);
    assert_eq!(SystemError::Fault.to_posix_errno(), -14);
    assert_eq!(SystemError::AlreadyExists.to_posix_errno(), -17);
    assert_eq!(SystemError::NoSuchDevice.to_posix_errno(), -19);
    assert_eq!(SystemError::NotADirectory.to_posix_errno(), -20);
    assert_eq!(SystemError::InvalidArgument.to_posix_errno(), -22);
    assert_eq!(SystemError::NotSupported.to_posix_errno(), -38);
}
