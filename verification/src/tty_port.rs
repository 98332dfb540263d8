use vstd::prelude::*;
use crate::tty_core::TtyHandle;

verus! {

/// How many bytes a port holds for its reader.
pub const TTY_PORT_BUFSIZE: usize = 4096;

/// The receive side of an endpoint: a bounded queue of the bytes that were
/// forwarded to it and that its reader has not taken yet.
#[derive(Debug)]
pub struct DefaultTtyPort {
    /// The endpoint whose writes arrive here.
    pub internal_tty: Option<TtyHandle>,
    /// The bytes waiting for the reader, oldest first.
    pub buf: Vec<u8>,
    /// The most bytes that may wait at once.
    pub capacity: usize,
}

/// A port as a value: its writer, the waiting bytes and the bound on them.
pub struct TtyPortView {
    pub internal_tty: Option<TtyHandle>,
    pub data: Seq<u8>,
    pub capacity: usize,
}

impl TtyPortView {
    /// How many more bytes the port takes.
    pub open spec fn room(self) -> int {
        if self.data.len() <= self.capacity {
            self.capacity - self.data.len()
        } else {
            0
        }
    }

    /// How many bytes the port takes of `count` requested, when the caller's
    /// buffer holds `avail`: all of them, unless the buffer or the room is
    /// smaller.
    pub open spec fn accepted(self, avail: int, count: int) -> int {
        if count <= avail && count <= self.room() {
            count
        } else if avail <= self.room() {
            avail
        } else {
            self.room()
        }
    }

    /// The port after it was offered the first `count` bytes of `bytes`.
    pub open spec fn received(self, bytes: Seq<u8>, count: int) -> TtyPortView {
        TtyPortView {
            data: self.data + bytes.subrange(0, self.accepted(bytes.len() as int, count)),
            ..self
        }
    }
}

impl View for DefaultTtyPort {
    type V = TtyPortView;

    open spec fn view(&self) -> TtyPortView {
        TtyPortView { internal_tty: self.internal_tty, data: self.buf@, capacity: self.capacity }
    }
}

impl DefaultTtyPort {
    /// A port never holds more than its capacity.
    pub open spec fn wf(&self) -> bool {
        self.buf@.len() <= self.capacity
    }

    /// An empty port of the standard size, bound to no endpoint yet.
    pub fn new() -> (r: DefaultTtyPort)
        ensures
            r.wf(),
            r@ == (TtyPortView {
                internal_tty: None,
                data: Seq::empty(),
                capacity: TTY_PORT_BUFSIZE,
            }),
    {
        DefaultTtyPort { internal_tty: None, buf: Vec::new(), capacity: TTY_PORT_BUFSIZE }
    }

    /// Binds the port to the endpoint that writes into it.
    pub fn setup_internal_tty(&mut self, tty: TtyHandle)
        ensures
            final(self)@ == (TtyPortView { internal_tty: Some(tty), ..old(self)@ }),
            old(self).wf() ==> final(self).wf(),
    {
        self.internal_tty = Some(tty);
    }

    /// How many more bytes the port takes.
    pub fn room(&self) -> (r: usize)
        ensures
            r == self@.room(),
    {
        if self.buf.len() <= self.capacity {
            self.capacity - self.buf.len()
        } else {
            0
        }
    }

    /// Offers the first `count` bytes of `buf` to the port. The port appends
    /// as many of them as it has room for and returns how many it took.
    pub fn receive_buf(&mut self, buf: &[u8], _flags: &[u8], count: usize) -> (r: usize)
        ensures
            old(self).wf() ==> final(self).wf(),
            r == old(self)@.accepted(buf@.len() as int, count as int),
            final(self)@ == old(self)@.received(buf@, count as int),
    {
        let room = self.room();
        let mut n: usize = count;
        if buf.len() < n {
            n = buf.len();
        }
        if room < n {
            n = room;
        }
        let mut i: usize = 0;
        while i < n
            invariant
                i <= n,
                n <= buf@.len(),
                self.capacity == old(self).capacity,
                self.internal_tty == old(self).internal_tty,
                n <= old(self)@.room(),
                self.buf@ == old(self).buf@ + buf@.subrange(0, i as int),
            decreases n - i,
        {
            self.buf.push(buf[i]);
            i += 1;
            assert(self.buf@ =~= old(self).buf@ + buf@.subrange(0, i as int));
        }
        n
    }

    /// Hands the waiting bytes to the reader and leaves the port empty.
    pub fn take_data(&mut self) -> (r: Vec<u8>)
        ensures
            r@ == old(self)@.data,
            final(self)@ == (TtyPortView { data: Seq::empty(), ..old(self)@ }),
            final(self).wf(),
    {
        let mut out: Vec<u8> = Vec::new();
        std::mem::swap(&mut self.buf, &mut out);
        out
    }
}

} // verus!
