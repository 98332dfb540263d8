use vstd::prelude::*;
use crate::error::SystemError;
use crate::user_access::{read_u32_from_user, read_u64_from_user, user_area_holds, user_u32, user_u64};

verus! {

/// The most events one wait may ask for.
pub const EP_MAX_EVENTS: u32 = 0x0fff_ffff;

/// How many bytes one event takes in the user's memory.
pub const USER_EVENT_SIZE: u64 = 12;

/// Operation number: register a file with the set.
pub const EPOLL_CTL_ADD: usize = 1;

/// Operation number: take a file out of the set.
pub const EPOLL_CTL_DEL: usize = 2;

/// Operation number: change the events of a registered file.
pub const EPOLL_CTL_MOD: usize = 3;

/// What `epoll_ctl` is asked to do.
#[derive(Clone, Copy, Debug, PartialEq, Eq, Structural)]
pub enum EPollCtlOption {
    EpollCtlAdd,
    EpollCtlDel,
    EpollCtlMod,
}

impl EPollCtlOption {
    /// The operation that a number names, if it names one.
    pub open spec fn spec_from_op_num(op: usize) -> Result<EPollCtlOption, SystemError> {
        if op == EPOLL_CTL_ADD {
            Ok(EPollCtlOption::EpollCtlAdd)
        } else if op == EPOLL_CTL_DEL {
            Ok(EPollCtlOption::EpollCtlDel)
        } else if op == EPOLL_CTL_MOD {
            Ok(EPollCtlOption::EpollCtlMod)
        } else {
            Err(SystemError::InvalidArgument)
        }
    }

    #[verifier::when_used_as_spec(spec_from_op_num)]
    pub fn from_op_num(op: usize) -> (r: Result<EPollCtlOption, SystemError>)
        ensures
            r == Self::spec_from_op_num(op),
    {
        if op == EPOLL_CTL_ADD {
            Ok(EPollCtlOption::EpollCtlAdd)
        } else if op == EPOLL_CTL_DEL {
            Ok(EPollCtlOption::EpollCtlDel)
        } else if op == EPOLL_CTL_MOD {
            Ok(EPollCtlOption::EpollCtlMod)
        } else {
            Err(SystemError::InvalidArgument)
        }
    }
}

/// An event mask and the word that comes back with it.
#[derive(Clone, Copy, Debug, PartialEq, Eq, Structural)]
pub struct EPollEvent {
    pub events: u32,
    pub data: u64,
}

/// A span of time in whole seconds and nanoseconds.
#[derive(Clone, Copy, Debug, PartialEq, Eq, Structural)]
pub struct TimeSpec {
    pub tv_sec: i64,
    pub tv_nsec: i64,
}

/// A checked `epoll_ctl`: what to do to which file of which set.
#[derive(Clone, Copy, Debug, PartialEq, Eq, Structural)]
pub struct EpollCtl {
    pub epfd: i32,
    pub op: EPollCtlOption,
    pub fd: i32,
    pub event: EPollEvent,
    pub nonblock: bool,
}

/// A checked `epoll_wait`: the set, how many events to hand out at most, how
/// long to wait (`None`: without limit), and how many bytes of the user's
/// memory the events may fill.
#[derive(Clone, Copy, Debug, PartialEq, Eq, Structural)]
pub struct EpollWait {
    pub epfd: i32,
    pub max_events: i32,
    pub timespec: Option<TimeSpec>,
    pub area_len: u64,
}

/// A checked `epoll_pwait`: the signals to block before waiting, if any were
/// given, and the wait itself, or why it is refused.
#[derive(Clone, Copy, Debug, PartialEq, Eq)]
pub struct EpollPwait {
    pub sigmask: Option<u64>,
    pub wait: Result<EpollWait, SystemError>,
}

/// The argument checks of the event-poll system calls. Each returns what
/// the kernel is then to carry out.
pub struct Syscall;

impl Syscall {
    /// The span of time that a timeout in milliseconds stands for: no limit
    /// if it is negative.
    pub open spec fn timeout_timespec(timeout: i32) -> Option<TimeSpec> {
        if timeout < 0 {
            None
        } else {
            Some(
                TimeSpec {
                    tv_sec: (timeout / 1000) as i64,
                    tv_nsec: (1_000_000 * (timeout % 1000)) as i64,
                },
            )
        }
    }

    /// Whether a wait may ask for `max_events` events.
    pub open spec fn max_events_ok(max_events: i32) -> bool {
        0 < max_events <= EP_MAX_EVENTS
    }

    /// What a wait with these arguments comes to.
    pub open spec fn wait_result(epfd: i32, max_events: i32, timeout: i32) -> Result<
        EpollWait,
        SystemError,
    > {
        if Self::max_events_ok(max_events) {
            Ok(
                EpollWait {
                    epfd,
                    max_events,
                    timespec: Self::timeout_timespec(timeout),
                    area_len: (USER_EVENT_SIZE * max_events) as u64,
                },
            )
        } else {
            Err(SystemError::InvalidArgument)
        }
    }

    /// Creates an event-poll set. The size is a hint of old that only must
    /// not be negative; the set is opened with no flags.
    pub fn epoll_create(max_size: i32) -> (r: Result<u32, SystemError>)
        ensures
            max_size < 0 ==> r == Err::<u32, SystemError>(SystemError::InvalidArgument),
            max_size >= 0 ==> r == Ok::<u32, SystemError>(0),
    {
        if max_size < 0 {
            return Err(SystemError::InvalidArgument);
        }
        Ok(0)
    }

    /// Creates an event-poll set with the file flags in the low 32 bits of
    /// `flag`.
    pub fn epoll_create1(flag: usize) -> (r: Result<u32, SystemError>)
        ensures
            r == Ok::<u32, SystemError>((flag as int % 0x1_0000_0000) as u32),
    {
        let wide: u64 = flag as u64;
        let low: u64 = wide & 0xffff_ffff;
        assert(low == wide % 0x1_0000_0000) by (bit_vector)
            requires
                low == wide & 0xffff_ffffu64,
        ;
        Ok(low as u32)
    }

    /// Checks a wait for at most `max_events` events of the set `epfd` with
    /// a timeout in milliseconds.
    pub fn epoll_wait(epfd: i32, max_events: i32, timeout: i32) -> (r: Result<
        EpollWait,
        SystemError,
    >)
        ensures
            r == Self::wait_result(epfd, max_events, timeout),
    {
        if max_events <= 0 || max_events as u32 > EP_MAX_EVENTS {
            return Err(SystemError::InvalidArgument);
        }
        let mut timespec: Option<TimeSpec> = None;
        if timeout == 0 {
            timespec = Some(TimeSpec { tv_sec: 0, tv_nsec: 0 });
        }
        if timeout > 0 {
            let sec: i64 = timeout as i64 / 1000;
            let nsec: i64 = 1_000_000 * (timeout as i64 % 1000);
            timespec = Some(TimeSpec { tv_sec: sec, tv_nsec: nsec });
        }
        Ok(EpollWait { epfd, max_events, timespec, area_len: USER_EVENT_SIZE * (max_events as u64) })
    }

    /// What a control request with these arguments comes to. The operation
    /// number must name an operation. Every operation but removal needs an
    /// event: a pointer that is not null, to twelve readable bytes that hold
    /// the mask and then the data word.
    pub open spec fn ctl_result(epfd: i32, op: usize, fd: i32, event: Option<Seq<u8>>) -> Result<
        EpollCtl,
        SystemError,
    > {
        match EPollCtlOption::spec_from_op_num(op) {
            Err(e) => Err(e),
            Ok(EPollCtlOption::EpollCtlDel) => Ok(
                EpollCtl {
                    epfd,
                    op: EPollCtlOption::EpollCtlDel,
                    fd,
                    event: EPollEvent { events: 0, data: 0 },
                    nonblock: false,
                },
            ),
            Ok(op) => match event {
                None => Err(SystemError::Fault),
                Some(area) => if user_area_holds(area, 0, USER_EVENT_SIZE as int) {
                    Ok(
                        EpollCtl {
                            epfd,
                            op,
                            fd,
                            event: EPollEvent {
                                events: user_u32(area, 0) as u32,
                                data: user_u64(area, 4) as u64,
                            },
                            nonblock: false,
                        },
                    )
                } else {
                    Err(SystemError::Fault)
                },
            },
        }
    }

    /// Checks a control request on the set `epfd` for the file `fd`, and
    /// reads the event out of the user's memory `event`; `None` is the null
    /// pointer.
    pub fn epoll_ctl(epfd: i32, op: usize, fd: i32, event: Option<&[u8]>) -> (r: Result<
        EpollCtl,
        SystemError,
    >)
        ensures
            r == Self::ctl_result(
                epfd,
                op,
                fd,
                match event {
                    Some(area) => Some(area@),
                    None => None,
                },
            ),
    {
        let op = match EPollCtlOption::from_op_num(op) {
            Ok(op) => op,
            Err(e) => {
                return Err(e);
            },
        };
        let mut epds = EPollEvent { events: 0, data: 0 };
        if op != EPollCtlOption::EpollCtlDel {
            let area = match event {
                Some(area) => area,
                None => {
                    return Err(SystemError::Fault);
                },
            };
            let events = match read_u32_from_user(area, 0) {
                Ok(events) => events,
                Err(e) => {
                    return Err(e);
                },
            };
            let data = match read_u64_from_user(area, 4) {
                Ok(data) => data,
                Err(e) => {
                    return Err(e);
                },
            };
            epds = EPollEvent { events, data };
        }
        Ok(EpollCtl { epfd, op, fd, event: epds, nonblock: false })
    }

    /// What a wait under a signal mask comes to. Without a mask it is the
    /// plain wait. With one, the mask must be eight readable bytes; it is
    /// blocked first, whatever becomes of the wait.
    pub open spec fn pwait_result(
        epfd: i32,
        max_events: i32,
        timeout: i32,
        sigmask: Option<Seq<u8>>,
    ) -> Result<EpollPwait, SystemError> {
        match sigmask {
            None => Ok(
                EpollPwait { sigmask: None, wait: Self::wait_result(epfd, max_events, timeout) },
            ),
            Some(area) => if user_area_holds(area, 0, 8) {
                Ok(
                    EpollPwait {
                        sigmask: Some(user_u64(area, 0) as u64),
                        wait: Self::wait_result(epfd, max_events, timeout),
                    },
                )
            } else {
                Err(SystemError::Fault)
            },
        }
    }

    /// Checks a wait that blocks the signals of `sigmask` while it waits;
    /// `None` is the null pointer, which leaves the signals alone.
    pub fn epoll_pwait(epfd: i32, max_events: i32, timespec: i32, sigmask: Option<&[u8]>) -> (r:
        Result<EpollPwait, SystemError>)
        ensures
            r == Self::pwait_result(
                epfd,
                max_events,
                timespec,
                match sigmask {
                    Some(area) => Some(area@),
                    None => None,
                },
            ),
    {
        let area = match sigmask {
            Some(area) => area,
            None => {
                return Ok(
                    EpollPwait { sigmask: None, wait: Self::epoll_wait(epfd, max_events, timespec) },
                );
            },
        };
        let mask = match read_u64_from_user(area, 0) {
            Ok(mask) => mask,
            Err(e) => {
                return Err(e);
            },
        };
        let wait_ret = Self::epoll_wait(epfd, max_events, timespec);
        Ok(EpollPwait { sigmask: Some(mask), wait: wait_ret })
    }
}

} // verus!
