use vstd::prelude::*;
use crate::flags::{TtyFlag, TtyPacketStatus};
use crate::termios::Termios;
use crate::tty_port::{DefaultTtyPort, TtyPortView, TTY_PORT_BUFSIZE};

verus! {

/// The role of an endpoint, and of the driver that owns it.
#[derive(Clone, Copy, Debug, PartialEq, Eq, Structural)]
pub enum TtyDriverSubType {
    PtyMaster,
    PtySlave,
}

impl TtyDriverSubType {
    /// The role of the other side of a pair.
    pub open spec fn spec_other(self) -> TtyDriverSubType {
        match self {
            TtyDriverSubType::PtyMaster => TtyDriverSubType::PtySlave,
            TtyDriverSubType::PtySlave => TtyDriverSubType::PtyMaster,
        }
    }

    #[verifier::when_used_as_spec(spec_other)]
    pub fn other(self) -> (r: TtyDriverSubType)
        ensures
            r == self.spec_other(),
    {
        match self {
            TtyDriverSubType::PtyMaster => TtyDriverSubType::PtySlave,
            TtyDriverSubType::PtySlave => TtyDriverSubType::PtyMaster,
        }
    }
}

/// The name of an endpoint: the driver that owns it and its index there. A
/// handle stays valid as a name when its endpoint is gone; it then resolves
/// to nothing.
#[derive(Clone, Copy, Debug, PartialEq, Eq, Structural)]
pub struct TtyHandle {
    pub subtype: TtyDriverSubType,
    pub index: usize,
}

impl TtyHandle {
    /// The name of the other side of the pair: the same index in the paired
    /// driver.
    pub open spec fn spec_peer(self) -> TtyHandle {
        TtyHandle { subtype: self.subtype.spec_other(), index: self.index }
    }

    #[verifier::when_used_as_spec(spec_peer)]
    pub fn peer(self) -> (r: TtyHandle)
        ensures
            r == self.spec_peer(),
    {
        TtyHandle { subtype: self.subtype.other(), index: self.index }
    }
}

/// A wake-up that an operation asks for: the readers waiting on the endpoint
/// `tty` are to be woken, all of them if `events` is `None`, else those that
/// wait for one of the events in the mask.
#[derive(Clone, Copy, Debug, PartialEq, Eq, Structural)]
pub struct TtyWakeup {
    pub tty: TtyHandle,
    pub events: Option<u64>,
}

/// The packet-mode state of an endpoint. `pktstatus` is read only while
/// `packet` is set.
#[derive(Clone, Copy, Debug, PartialEq, Eq, Structural)]
pub struct TtyControlInfo {
    pub packet: bool,
    pub pktstatus: TtyPacketStatus,
}

/// The flow state of an endpoint.
#[derive(Clone, Copy, Debug, PartialEq, Eq, Structural)]
pub struct TtyFlowState {
    pub stopped: bool,
}

/// One side of a pair.
#[derive(Debug)]
pub struct TtyCoreData {
    pub index: usize,
    pub subtype: TtyDriverSubType,
    /// The other side, by name. Set when the pair is installed and never
    /// pointed elsewhere.
    pub link: Option<TtyHandle>,
    pub flags: TtyFlag,
    pub ctrl: TtyControlInfo,
    pub flow: TtyFlowState,
    /// How many holders have the endpoint open.
    pub count: usize,
    pub port: DefaultTtyPort,
    pub termios: Termios,
}

/// An endpoint as a value.
pub struct TtyCoreView {
    pub index: usize,
    pub subtype: TtyDriverSubType,
    pub link: Option<TtyHandle>,
    pub flags: TtyFlag,
    pub ctrl: TtyControlInfo,
    pub flow: TtyFlowState,
    pub count: usize,
    pub port: TtyPortView,
    pub termios: Termios,
}

impl TtyCoreView {
    /// The name under which this endpoint is found.
    pub open spec fn handle(self) -> TtyHandle {
        TtyHandle { subtype: self.subtype, index: self.index }
    }

    /// An endpoint is linked to the other side of its own pair, and its port
    /// is within its bound.
    pub open spec fn wf(self) -> bool {
        &&& self.link == Some(self.handle().spec_peer())
        &&& self.port.data.len() <= self.port.capacity
    }

    /// The endpoint as installation leaves it: linked, opened once, nothing
    /// set, with an empty port that its peer writes into.
    pub open spec fn installed(handle: TtyHandle, termios: Termios) -> TtyCoreView {
        TtyCoreView {
            index: handle.index,
            subtype: handle.subtype,
            link: Some(handle.spec_peer()),
            flags: TtyFlag { bits: 0 },
            ctrl: TtyControlInfo { packet: false, pktstatus: TtyPacketStatus { bits: 0 } },
            flow: TtyFlowState { stopped: false },
            count: 1,
            port: TtyPortView {
                internal_tty: Some(handle.spec_peer()),
                data: Seq::empty(),
                capacity: TTY_PORT_BUFSIZE,
            },
            termios,
        }
    }
}

impl View for TtyCoreData {
    type V = TtyCoreView;

    open spec fn view(&self) -> TtyCoreView {
        TtyCoreView {
            index: self.index,
            subtype: self.subtype,
            link: self.link,
            flags: self.flags,
            ctrl: self.ctrl,
            flow: self.flow,
            count: self.count,
            port: self.port@,
            termios: self.termios,
        }
    }
}

impl TtyCoreData {
    /// A fresh endpoint of `subtype` at `index`: unlinked, unopened, with the
    /// given line settings and an unbound port.
    pub fn new(subtype: TtyDriverSubType, index: usize, termios: Termios) -> (r: TtyCoreData)
        ensures
            r@ == (TtyCoreView {
                link: None,
                count: 0,
                port: TtyPortView {
                    internal_tty: None,
                    data: Seq::empty(),
                    capacity: TTY_PORT_BUFSIZE,
                },
                ..TtyCoreView::installed(TtyHandle { subtype, index }, termios)
            }),
    {
        TtyCoreData {
            index,
            subtype,
            link: None,
            flags: TtyFlag::empty(),
            ctrl: TtyControlInfo { packet: false, pktstatus: TtyPacketStatus::empty() },
            flow: TtyFlowState { stopped: false },
            count: 0,
            port: DefaultTtyPort::new(),
            termios,
        }
    }

    /// The name under which this endpoint is found.
    pub fn handle(&self) -> (r: TtyHandle)
        ensures
            r == self@.handle(),
    {
        TtyHandle { subtype: self.subtype, index: self.index }
    }
}

} // verus!
