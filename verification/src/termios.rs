use vstd::prelude::*;

verus! {

/// Control mode: the baud-rate code of 38400 baud.
pub const B38400: u32 = 0x0f;

/// Control mode: eight bits per character.
pub const CS8: u32 = 0x30;

/// Control mode: the receiver is enabled.
pub const CREAD: u32 = 0x80;

/// Control mode: hang up when the last holder closes.
pub const HUPCL: u32 = 0x400;

/// Input mode: turn a carriage return into a newline.
pub const ICRNL: u32 = 0x100;

/// Input mode: output flow control by start and stop characters.
pub const IXON: u32 = 0x400;

/// Output mode: post-process output.
pub const OPOST: u32 = 0x01;

/// Output mode: turn a newline into a carriage return and a newline.
pub const ONLCR: u32 = 0x04;

/// Local mode: generate signals from the interrupt characters.
pub const ISIG: u32 = 0x01;

/// Local mode: canonical, line-by-line input.
pub const ICANON: u32 = 0x02;

/// Local mode: echo input characters.
pub const ECHO: u32 = 0x08;

/// Local mode: the erase character erases the preceding character.
pub const ECHOE: u32 = 0x10;

/// Local mode: the kill character erases the line.
pub const ECHOK: u32 = 0x20;

/// Local mode: echo control characters as `^X`.
pub const ECHOCTL: u32 = 0x200;

/// Local mode: the kill character erases each character of the line.
pub const ECHOKE: u32 = 0x800;

/// Local mode: implementation-defined input processing.
pub const IEXTEN: u32 = 0x8000;

/// The line speed of a pseudo-terminal, in baud.
pub const PTY_SPEED: u32 = 38400;

/// The settings of a terminal line.
#[derive(Clone, Copy, Debug, PartialEq, Eq, Structural)]
pub struct Termios {
    pub input_mode: u32,
    pub output_mode: u32,
    pub control_mode: u32,
    pub local_mode: u32,
    pub line: u8,
    pub input_speed: u32,
    pub output_speed: u32,
}

/// The settings every terminal driver starts from: a cooked line at 38400 baud
/// with echo, signals and flow control.
pub open spec fn spec_tty_std_termios() -> Termios {
    Termios {
        input_mode: ICRNL | IXON,
        output_mode: OPOST | ONLCR,
        control_mode: B38400 | CS8 | CREAD | HUPCL,
        local_mode: ISIG | ICANON | ECHO | ECHOE | ECHOK | ECHOCTL | ECHOKE | IEXTEN,
        line: 0,
        input_speed: PTY_SPEED,
        output_speed: PTY_SPEED,
    }
}

/// The settings of a pseudo-terminal line: the standard ones with every input,
/// output and local mode switched off, eight bits per character and the
/// receiver enabled, at 38400 baud.
pub open spec fn spec_pty_termios() -> Termios {
    Termios {
        input_mode: 0,
        output_mode: 0,
        control_mode: B38400 | CS8 | CREAD,
        local_mode: 0,
        input_speed: PTY_SPEED,
        output_speed: PTY_SPEED,
        ..spec_tty_std_termios()
    }
}

#[verifier::when_used_as_spec(spec_tty_std_termios)]
pub fn tty_std_termios() -> (r: Termios)
    ensures
        r == spec_tty_std_termios(),
{
    Termios {
        input_mode: ICRNL | IXON,
        output_mode: OPOST | ONLCR,
        control_mode: B38400 | CS8 | CREAD | HUPCL,
        local_mode: ISIG | ICANON | ECHO | ECHOE | ECHOK | ECHOCTL | ECHOKE | IEXTEN,
        line: 0,
        input_speed: PTY_SPEED,
        output_speed: PTY_SPEED,
    }
}

#[verifier::when_used_as_spec(spec_pty_termios)]
pub fn pty_termios() -> (r: Termios)
    ensures
        r == spec_pty_termios(),
{
    let mut term = tty_std_termios();
    term.input_mode = 0;
    term.output_mode = 0;
    term.control_mode = B38400 | CS8 | CREAD;
    term.local_mode = 0;
    term.input_speed = PTY_SPEED;
    term.output_speed = PTY_SPEED;
    term
}

/// The pseudo-terminal line is an eight-bit line at 38400 baud with the
/// receiver on, and echo, canonical input, signals and flow control off.
pub proof fn lemma_pty_termios_is_raw()
    ensures
        spec_pty_termios().control_mode == 0xbf,
        spec_pty_termios().control_mode & CS8 == CS8,
        spec_pty_termios().control_mode & CREAD == CREAD,
        spec_pty_termios().control_mode & B38400 == B38400,
        spec_pty_termios().local_mode & (ECHO | ICANON | ISIG) == 0,
        spec_pty_termios().input_mode & IXON == 0,
{
    assert((0x0fu32 | 0x30u32 | 0x80u32) == 0xbfu32) by (bit_vector);
    assert(0xbfu32 & 0x30u32 == 0x30u32) by (bit_vector);
    assert(0xbfu32 & 0x80u32 == 0x80u32) by (bit_vector);
    assert(0xbfu32 & 0x0fu32 == 0x0fu32) by (bit_vector);
    assert(0u32 & (0x08u32 | 0x02u32 | 0x01u32) == 0u32) by (bit_vector);
    assert(0u32 & 0x400u32 == 0u32) by (bit_vector);
}

} // verus!
