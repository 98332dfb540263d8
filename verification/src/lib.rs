//! Pseudo-terminal pairs: installation, the open protocol, forwarding writes,
//! flow control and packet-mode signalling between a master and a slave
//! endpoint.
//!
//! Endpoints live in an arena, [`registry::PtyRegistry`], and are named by
//! [`tty_core::TtyHandle`]s. The peer of an endpoint is found by lookup and may
//! be absent; no endpoint owns its peer. An operation that has to wake
//! readers returns the wake-up for its caller to perform.
//!
//! Beside the pairs stand the directory of the slave nodes ([`devpts`]), the
//! argument checks of the event-poll system calls ([`event_poll`]) and the
//! register arithmetic of VMX operation ([`vmx`]). [`laws`] holds what is
//! proved of the operations taken together.

pub mod devpts;
pub mod error;
pub mod event_poll;
pub mod flags;
pub mod laws;
pub mod pty;
pub mod registry;
pub mod termios;
pub mod tty_core;
pub mod tty_port;
pub mod user_access;
pub mod vmx;
