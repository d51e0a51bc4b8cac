//! Linux-compatible terminal attributes: flag bits, ioctl command codes,
//! the `termios` and `winsize` records and their default values.
//!
//! Every number here is part of the user-space protocol and has the value
//! that Linux gives it on the generic architectures.

use vstd::prelude::*;

verus! {

/// Number of slots in the control-character table.
pub const NCCS: usize = 19;

// Input flags.
/// Signal interrupt on break.
pub const BRKINT: u32 = 0x0002;
/// Translate carriage return to newline on input.
pub const ICRNL: u32 = 0x0100;
/// Enable output flow control.
pub const IXON: u32 = 0x0400;
/// Any character restarts output.
pub const IXANY: u32 = 0x0800;
/// Beep on full input queue.
pub const IMAXBEL: u32 = 0x2000;
/// Input is UTF-8.
pub const IUTF8: u32 = 0x4000;

// Output flags.
/// Post-process output.
pub const OPOST: u32 = 0x0001;
/// Translate newline to carriage return and newline on output.
pub const ONLCR: u32 = 0x0004;

// Control flags.
/// Enable the receiver.
pub const CREAD: u32 = 0x0080;
/// Lower the modem lines on last close.
pub const HUPCL: u32 = 0x0400;
/// The fixed baud-rate and character-size bits of the default control flags.
pub const CBAUD_CSIZE_DEFAULT: u32 = 0x0077;

// Local flags.
/// Enable signals.
pub const ISIG: u32 = 0x0001;
/// Canonical mode.
pub const ICANON: u32 = 0x0002;
/// Echo input.
pub const ECHO: u32 = 0x0008;
/// Echo erase.
pub const ECHOE: u32 = 0x0010;
/// Echo newline.
pub const ECHONL: u32 = 0x0040;
/// Extended input processing.
pub const IEXTEN: u32 = 0x8000;

// ioctl command codes.
/// Get termios.
pub const TCGETS: u32 = 0x5401;
/// Set termios immediately.
pub const TCSETS: u32 = 0x5402;
/// Set termios after output has drained.
pub const TCSETSW: u32 = 0x5403;
/// Set termios after draining output and flushing input.
pub const TCSETSF: u32 = 0x5404;
/// Get termios, legacy code.
pub const TCGETA: u32 = 0x5405;
/// Get the foreground process group.
pub const TIOCGPGRP: u32 = 0x540F;
/// Set the foreground process group.
pub const TIOCSPGRP: u32 = 0x5410;
/// Get the window size.
pub const TIOCGWINSZ: u32 = 0x5413;
/// Set the window size.
pub const TIOCSWINSZ: u32 = 0x5414;

/// File-type bits of a character device in a `st_mode` word.
pub const S_IFCHR: u32 = 0x2000;

/// Default input flags.
pub const DEFAULT_IFLAG: u32 = IMAXBEL | IUTF8 | IXON | IXANY | ICRNL | BRKINT;
/// Default output flags.
pub const DEFAULT_OFLAG: u32 = OPOST | ONLCR;
/// Default control flags.
pub const DEFAULT_CFLAG: u32 = CREAD | HUPCL | CBAUD_CSIZE_DEFAULT;
/// Default local flags.
pub const DEFAULT_LFLAG: u32 = ISIG | ICANON | ECHO | ECHOE | ECHONL | IEXTEN;

/// Default foreground process group.
pub const DEFAULT_PGID: u32 = 2;
/// Default number of window rows.
pub const DEFAULT_ROWS: u16 = 24;
/// Default number of window columns.
pub const DEFAULT_COLS: u16 = 140;

/// Whether every bit of `flag` is set in `word`.
pub open spec fn has_flag(word: u32, flag: u32) -> bool {
    word & flag == flag
}

/// The default control-character table: interrupt, quit, erase, kill, eof,
/// time, min, swtch, start, stop, suspend, eol, reprint, discard, werase,
/// lnext, eol2 and two unused slots.
pub open spec fn default_control_chars() -> Seq<u8> {
    seq![
        3u8, 28u8, 127u8, 21u8, 4u8, 0u8, 1u8, 0u8, 17u8, 19u8,
        26u8, 255u8, 18u8, 15u8, 23u8, 22u8, 255u8, 0u8, 0u8,
    ]
}

/// Terminal attributes, laid out field for field as the Linux `termios`.
#[derive(Clone, Copy, Debug, PartialEq, Eq)]
pub struct Termios {
    /// Input flags.
    pub c_iflag: u32,
    /// Output flags.
    pub c_oflag: u32,
    /// Control flags.
    pub c_cflag: u32,
    /// Local flags.
    pub c_lflag: u32,
    /// Line discipline.
    pub c_line: u8,
    /// Control characters.
    pub c_cc: [u8; 19],
}

/// Terminal window dimensions, laid out as the Linux `winsize`.
#[derive(Clone, Copy, Debug, PartialEq, Eq, Structural)]
pub struct Winsize {
    /// Rows, in characters.
    pub ws_row: u16,
    /// Columns, in characters.
    pub ws_col: u16,
    /// Width, in pixels.
    pub ws_xpixel: u16,
    /// Height, in pixels.
    pub ws_ypixel: u16,
}

impl Termios {
    /// Whether the attributes are the defaults a terminal starts with.
    pub open spec fn is_default(self) -> bool {
        &&& self.c_iflag == DEFAULT_IFLAG
        &&& self.c_oflag == DEFAULT_OFLAG
        &&& self.c_cflag == DEFAULT_CFLAG
        &&& self.c_lflag == DEFAULT_LFLAG
        &&& self.c_line == 0
        &&& self.c_cc@ == default_control_chars()
    }

    /// The attributes a terminal starts with.
    pub fn new() -> (t: Termios)
        ensures
            t.is_default(),
    {
        let t = Termios {
            c_iflag: DEFAULT_IFLAG,
            c_oflag: DEFAULT_OFLAG,
            c_cflag: DEFAULT_CFLAG,
            c_lflag: DEFAULT_LFLAG,
            c_line: 0,
            c_cc: [3, 28, 127, 21, 4, 0, 1, 0, 17, 19, 26, 255, 18, 15, 23, 22, 255, 0, 0],
        };
        assert(t.c_cc@ =~= default_control_chars());
        t
    }
}

impl Winsize {
    /// Whether the dimensions are the defaults a terminal starts with.
    pub open spec fn is_default(self) -> bool {
        self == (Winsize { ws_row: DEFAULT_ROWS, ws_col: DEFAULT_COLS, ws_xpixel: 0, ws_ypixel: 0 })
    }

    /// The dimensions a terminal starts with.
    pub fn new() -> (w: Winsize)
        ensures
            w.is_default(),
    {
        Winsize { ws_row: DEFAULT_ROWS, ws_col: DEFAULT_COLS, ws_xpixel: 0, ws_ypixel: 0 }
    }
}

/// The default flag words are these numbers, and each holds the flags that
/// its definition names.
pub proof fn lemma_default_flag_values()
    ensures
        DEFAULT_IFLAG == 0x6d02,
        DEFAULT_OFLAG == 0x0005,
        DEFAULT_CFLAG == 0x04f7,
        DEFAULT_LFLAG == 0x805b,
        has_flag(DEFAULT_IFLAG, IMAXBEL),
        has_flag(DEFAULT_IFLAG, IUTF8),
        has_flag(DEFAULT_IFLAG, IXON),
        has_flag(DEFAULT_IFLAG, IXANY),
        has_flag(DEFAULT_IFLAG, ICRNL),
        has_flag(DEFAULT_IFLAG, BRKINT),
        has_flag(DEFAULT_OFLAG, OPOST),
        has_flag(DEFAULT_OFLAG, ONLCR),
        has_flag(DEFAULT_CFLAG, CREAD),
        has_flag(DEFAULT_CFLAG, HUPCL),
        has_flag(DEFAULT_CFLAG, CBAUD_CSIZE_DEFAULT),
        has_flag(DEFAULT_LFLAG, ISIG),
        has_flag(DEFAULT_LFLAG, ICANON),
        has_flag(DEFAULT_LFLAG, ECHO),
        has_flag(DEFAULT_LFLAG, ECHOE),
        has_flag(DEFAULT_LFLAG, ECHONL),
        has_flag(DEFAULT_LFLAG, IEXTEN),
{
    assert(DEFAULT_IFLAG == 0x6d02u32 && has_flag(DEFAULT_IFLAG, IMAXBEL) && has_flag(
        DEFAULT_IFLAG,
        IUTF8,
    ) && has_flag(DEFAULT_IFLAG, IXON) && has_flag(DEFAULT_IFLAG, IXANY) && has_flag(
        DEFAULT_IFLAG,
        ICRNL,
    ) && has_flag(DEFAULT_IFLAG, BRKINT)) by (bit_vector);
    assert(DEFAULT_OFLAG == 0x0005u32 && has_flag(DEFAULT_OFLAG, OPOST) && has_flag(
        DEFAULT_OFLAG,
        ONLCR,
    )) by (bit_vector);
    assert(DEFAULT_CFLAG == 0x04f7u32 && has_flag(DEFAULT_CFLAG, CREAD) && has_flag(
        DEFAULT_CFLAG,
        HUPCL,
    ) && has_flag(DEFAULT_CFLAG, CBAUD_CSIZE_DEFAULT)) by (bit_vector);
    assert(DEFAULT_LFLAG == 0x805bu32 && has_flag(DEFAULT_LFLAG, ISIG) && has_flag(
        DEFAULT_LFLAG,
        ICANON,
    ) && has_flag(DEFAULT_LFLAG, ECHO) && has_flag(DEFAULT_LFLAG, ECHOE) && has_flag(
        DEFAULT_LFLAG,
        ECHONL,
    ) && has_flag(DEFAULT_LFLAG, IEXTEN)) by (bit_vector);
}

} // verus!
