//! Terminal control state and its ioctl dispatcher.

use vstd::prelude::*;

use crate::error::IoError;
use crate::termios::{
    Termios, Winsize, DEFAULT_PGID, TCGETA, TCGETS, TCSETS, TCSETSF, TCSETSW, TIOCGPGRP,
    TIOCGWINSZ, TIOCSPGRP, TIOCSWINSZ,
};

verus! {

/// The operations that the dispatcher knows.
#[derive(Clone, Copy, Debug, PartialEq, Eq, Structural)]
pub enum IoctlOp {
    /// Copy the terminal attributes out.
    GetTermios,
    /// Overwrite the terminal attributes.
    SetTermios,
    /// Copy the foreground process group out.
    GetPgid,
    /// Overwrite the foreground process group.
    SetPgid,
    /// Copy the window size out.
    GetWinsize,
    /// Overwrite the window size.
    SetWinsize,
}

/// The record behind the argument pointer of an ioctl call, as the layer
/// that validates user memory has decoded it. An operation reads and writes
/// the record only at its own layout.
#[derive(Clone, Copy, Debug, PartialEq, Eq)]
pub enum IoctlArg {
    /// The pointer is null.
    Null,
    /// The pointer refers to terminal attributes.
    Termios(Termios),
    /// The pointer refers to a process-group id.
    Pgid(u32),
    /// The pointer refers to a window size.
    Winsize(Winsize),
}

/// The operation that a command code selects. The two get-termios codes are
/// aliases, and so are the three set-termios codes, whose drain and flush
/// variants are not told apart.
pub open spec fn spec_ioctl_op(cmd: u32) -> Option<IoctlOp> {
    if cmd == TCGETS || cmd == TCGETA {
        Some(IoctlOp::GetTermios)
    } else if cmd == TCSETS || cmd == TCSETSW || cmd == TCSETSF {
        Some(IoctlOp::SetTermios)
    } else if cmd == TIOCGPGRP {
        Some(IoctlOp::GetPgid)
    } else if cmd == TIOCSPGRP {
        Some(IoctlOp::SetPgid)
    } else if cmd == TIOCGWINSZ {
        Some(IoctlOp::GetWinsize)
    } else if cmd == TIOCSWINSZ {
        Some(IoctlOp::SetWinsize)
    } else {
        None
    }
}

/// Decodes a command code; `None` for a code that the dispatcher does not
/// know.
pub fn ioctl_op(cmd: u32) -> (op: Option<IoctlOp>)
    ensures
        op == spec_ioctl_op(cmd),
{
    if cmd == TCGETS || cmd == TCGETA {
        Some(IoctlOp::GetTermios)
    } else if cmd == TCSETS || cmd == TCSETSW || cmd == TCSETSF {
        Some(IoctlOp::SetTermios)
    } else if cmd == TIOCGPGRP {
        Some(IoctlOp::GetPgid)
    } else if cmd == TIOCSPGRP {
        Some(IoctlOp::SetPgid)
    } else if cmd == TIOCGWINSZ {
        Some(IoctlOp::GetWinsize)
    } else if cmd == TIOCSWINSZ {
        Some(IoctlOp::SetWinsize)
    } else {
        None
    }
}

/// What a terminal's control state holds.
pub struct TtyStateView {
    /// Terminal attributes.
    pub termios: Termios,
    /// Foreground process group.
    pub pgid: u32,
    /// Window size.
    pub winsize: Winsize,
}

/// What one ioctl call does.
pub struct IoctlOutcome {
    /// The value returned to the caller.
    pub result: Result<isize, IoError>,
    /// The control state after the call.
    pub state: TtyStateView,
    /// The argument record after the call.
    pub arg: IoctlArg,
}

/// A call that fails with `error` and changes nothing.
pub open spec fn ioctl_rejected(state: TtyStateView, arg: IoctlArg, error: IoError) -> IoctlOutcome {
    IoctlOutcome { result: Err(error), state, arg }
}

/// The effect of the ioctl `cmd` on `state` with the argument record `arg`.
///
/// An unknown command fails with `Unsupported`. A null argument, or a
/// record of another layout than the operation's, fails with `InvalidInput`.
/// A failed call leaves state and argument as they were. A get operation
/// copies one field of the state into the argument; a set operation
/// overwrites one field of the state from the argument; both return 0.
pub open spec fn spec_ioctl(state: TtyStateView, cmd: u32, arg: IoctlArg) -> IoctlOutcome {
    match (spec_ioctl_op(cmd), arg) {
        (None, _) => ioctl_rejected(state, arg, IoError::Unsupported),
        (Some(IoctlOp::GetTermios), IoctlArg::Termios(_)) => IoctlOutcome {
            result: Ok(0),
            state,
            arg: IoctlArg::Termios(state.termios),
        },
        (Some(IoctlOp::SetTermios), IoctlArg::Termios(t)) => IoctlOutcome {
            result: Ok(0),
            state: TtyStateView { termios: t, ..state },
            arg,
        },
        (Some(IoctlOp::GetPgid), IoctlArg::Pgid(_)) => IoctlOutcome {
            result: Ok(0),
            state,
            arg: IoctlArg::Pgid(state.pgid),
        },
        (Some(IoctlOp::SetPgid), IoctlArg::Pgid(p)) => IoctlOutcome {
            result: Ok(0),
            state: TtyStateView { pgid: p, ..state },
            arg,
        },
        (Some(IoctlOp::GetWinsize), IoctlArg::Winsize(_)) => IoctlOutcome {
            result: Ok(0),
            state,
            arg: IoctlArg::Winsize(state.winsize),
        },
        (Some(IoctlOp::SetWinsize), IoctlArg::Winsize(w)) => IoctlOutcome {
            result: Ok(0),
            state: TtyStateView { winsize: w, ..state },
            arg,
        },
        (Some(_), _) => ioctl_rejected(state, arg, IoError::InvalidInput),
    }
}

/// Control state of one tty-like node. It changes only through `ioctl`.
pub struct TtyState {
    termios: Termios,
    pgid: u32,
    winsize: Winsize,
}

impl View for TtyState {
    type V = TtyStateView;

    closed spec fn view(&self) -> TtyStateView {
        TtyStateView { termios: self.termios, pgid: self.pgid, winsize: self.winsize }
    }
}

impl TtyState {
    /// Whether the state is the one a terminal starts with: default
    /// attributes, process group 2, 24 rows of 140 columns and no pixel
    /// dimensions.
    pub open spec fn is_initial(state: TtyStateView) -> bool {
        &&& state.termios.is_default()
        &&& state.pgid == DEFAULT_PGID
        &&& state.winsize.is_default()
    }

    /// Creates the state a terminal starts with.
    pub fn new() -> (s: TtyState)
        ensures
            Self::is_initial(s@),
    {
        TtyState { termios: Termios::new(), pgid: DEFAULT_PGID, winsize: Winsize::new() }
    }

    /// The current terminal attributes.
    pub fn termios(&self) -> (t: Termios)
        ensures
            t == self@.termios,
    {
        self.termios
    }

    /// The current foreground process group.
    pub fn pgid(&self) -> (p: u32)
        ensures
            p == self@.pgid,
    {
        self.pgid
    }

    /// The current window size.
    pub fn winsize(&self) -> (w: Winsize)
        ensures
            w == self@.winsize,
    {
        self.winsize
    }

    /// Performs the ioctl `cmd` on the argument record `arg`.
    pub fn ioctl(&mut self, cmd: u32, arg: &mut IoctlArg) -> (r: Result<isize, IoError>)
        ensures
            r == spec_ioctl(old(self)@, cmd, *old(arg)).result,
            final(self)@ == spec_ioctl(old(self)@, cmd, *old(arg)).state,
            *final(arg) == spec_ioctl(old(self)@, cmd, *old(arg)).arg,
    {
        let op = match ioctl_op(cmd) {
            Some(op) => op,
            None => return Err(IoError::Unsupported),
        };
        match (op, *arg) {
            (IoctlOp::GetTermios, IoctlArg::Termios(_)) => {
                *arg = IoctlArg::Termios(self.termios);
                Ok(0)
            },
            (IoctlOp::SetTermios, IoctlArg::Termios(t)) => {
                self.termios = t;
                Ok(0)
            },
            (IoctlOp::GetPgid, IoctlArg::Pgid(_)) => {
                *arg = IoctlArg::Pgid(self.pgid);
                Ok(0)
            },
            (IoctlOp::SetPgid, IoctlArg::Pgid(p)) => {
                self.pgid = p;
                Ok(0)
            },
            (IoctlOp::GetWinsize, IoctlArg::Winsize(_)) => {
                *arg = IoctlArg::Winsize(self.winsize);
                Ok(0)
            },
            (IoctlOp::SetWinsize, IoctlArg::Winsize(w)) => {
                self.winsize = w;
                Ok(0)
            },
            _ => Err(IoError::InvalidInput),
        }
    }
}

impl Default for TtyState {
    fn default() -> (s: TtyState)
        ensures
            TtyState::is_initial(s@),
    {
        TtyState::new()
    }
}

/// Setting the terminal attributes and then getting them returns exactly
/// the attributes that were set, field for field, whichever of the aliased
/// command codes are used and whatever the state and the output record held
/// before.
pub proof fn lemma_termios_round_trip(
    state: TtyStateView,
    set_cmd: u32,
    get_cmd: u32,
    attrs: Termios,
    slot: Termios,
)
    requires
        spec_ioctl_op(set_cmd) == Some(IoctlOp::SetTermios),
        spec_ioctl_op(get_cmd) == Some(IoctlOp::GetTermios),
    ensures
        spec_ioctl(state, set_cmd, IoctlArg::Termios(attrs)).result == Ok::<isize, IoError>(0),
        spec_ioctl(
            spec_ioctl(state, set_cmd, IoctlArg::Termios(attrs)).state,
            get_cmd,
            IoctlArg::Termios(slot),
        ) == (IoctlOutcome {
            result: Ok(0),
            state: spec_ioctl(state, set_cmd, IoctlArg::Termios(attrs)).state,
            arg: IoctlArg::Termios(attrs),
        }),
{
}

/// Setting the window size and then getting it returns exactly the size
/// that was set.
pub proof fn lemma_winsize_round_trip(state: TtyStateView, size: Winsize, slot: Winsize)
    ensures
        spec_ioctl(state, TIOCSWINSZ, IoctlArg::Winsize(size)).result == Ok::<isize, IoError>(0),
        spec_ioctl(
            spec_ioctl(state, TIOCSWINSZ, IoctlArg::Winsize(size)).state,
            TIOCGWINSZ,
            IoctlArg::Winsize(slot),
        ) == (IoctlOutcome {
            result: Ok(0),
            state: spec_ioctl(state, TIOCSWINSZ, IoctlArg::Winsize(size)).state,
            arg: IoctlArg::Winsize(size),
        }),
{
}

/// Setting the foreground process group and then getting it returns exactly
/// the group that was set.
pub proof fn lemma_pgid_round_trip(state: TtyStateView, pgid: u32, slot: u32)
    ensures
        spec_ioctl(state, TIOCSPGRP, IoctlArg::Pgid(pgid)).result == Ok::<isize, IoError>(0),
        spec_ioctl(
            spec_ioctl(state, TIOCSPGRP, IoctlArg::Pgid(pgid)).state,
            TIOCGPGRP,
            IoctlArg::Pgid(slot),
        ) == (IoctlOutcome {
            result: Ok(0),
            state: spec_ioctl(state, TIOCSPGRP, IoctlArg::Pgid(pgid)).state,
            arg: IoctlArg::Pgid(pgid),
        }),
{
}

/// An ioctl with a command code other than the nine known ones fails with
/// `Unsupported` and leaves the state and the argument record as they were.
pub proof fn lemma_unknown_command_changes_nothing(state: TtyStateView, cmd: u32, arg: IoctlArg)
    requires
        cmd != TCGETS,
        cmd != TCGETA,
        cmd != TCSETS,
        cmd != TCSETSW,
        cmd != TCSETSF,
        cmd != TIOCGPGRP,
        cmd != TIOCSPGRP,
        cmd != TIOCGWINSZ,
        cmd != TIOCSWINSZ,
    ensures
        spec_ioctl(state, cmd, arg) == (IoctlOutcome {
            result: Err(IoError::Unsupported),
            state,
            arg,
        }),
{
}

/// Whatever the command and the argument: a call that fails changes
/// nothing, a call that succeeds returns 0, a get operation leaves the state
/// as it was, and a set operation changes no field but its own and leaves
/// the argument record as it was.
pub proof fn lemma_ioctl_frame(state: TtyStateView, cmd: u32, arg: IoctlArg)
    ensures
        ({
            let out = spec_ioctl(state, cmd, arg);
            &&& out.result is Err ==> out.state == state && out.arg == arg
            &&& out.result is Ok ==> out.result == Ok::<isize, IoError>(0)
            &&& spec_ioctl_op(cmd) != Some(IoctlOp::SetTermios) ==> out.state.termios
                == state.termios
            &&& spec_ioctl_op(cmd) != Some(IoctlOp::SetPgid) ==> out.state.pgid == state.pgid
            &&& spec_ioctl_op(cmd) != Some(IoctlOp::SetWinsize) ==> out.state.winsize
                == state.winsize
            &&& (spec_ioctl_op(cmd) == Some(IoctlOp::SetTermios) || spec_ioctl_op(cmd) == Some(
                IoctlOp::SetPgid,
            ) || spec_ioctl_op(cmd) == Some(IoctlOp::SetWinsize)) ==> out.arg == arg
        }),
{
}

} // verus!
