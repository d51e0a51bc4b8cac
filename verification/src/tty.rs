//! Device nodes for the console: one node type with a role, bound to the
//! virtual-filesystem node contract.

use vstd::prelude::*;

use crate::blocking::BlockedRead;
use crate::console::{console_write_bytes, RawRead, Transmit};
use crate::error::IoError;
use crate::tty_state::{spec_ioctl, IoctlArg, TtyState, TtyStateView};
use crate::vfs::{empty_node_attr, NodeAttr, NodeKind, PERM_MASK};

verus! {

/// The role of a device node. A node reads only if its role has an input
/// side and writes only if its role has an output side.
#[derive(Clone, Copy, Debug, PartialEq, Eq, Structural)]
pub enum Role {
    /// Standard input: reads only.
    Stdin,
    /// Standard output: writes only.
    Stdout,
    /// Standard error: writes only.
    Stderr,
    /// A generic terminal: reads and writes.
    GenericTty,
}

impl Role {
    /// Whether a node of this role accepts reads.
    pub open spec fn spec_can_read(self) -> bool {
        self == Role::Stdin || self == Role::GenericTty
    }

    /// Whether a node of this role accepts writes.
    pub open spec fn spec_can_write(self) -> bool {
        self != Role::Stdin
    }

    /// Whether a node of this role accepts reads.
    pub fn can_read(self) -> (b: bool)
        ensures
            b == self.spec_can_read(),
    {
        match self {
            Role::Stdin | Role::GenericTty => true,
            Role::Stdout | Role::Stderr => false,
        }
    }

    /// Whether a node of this role accepts writes.
    pub fn can_write(self) -> (b: bool)
        ensures
            b == self.spec_can_write(),
    {
        match self {
            Role::Stdin => false,
            Role::Stdout | Role::Stderr | Role::GenericTty => true,
        }
    }
}

/// Readiness of a node.
#[derive(Clone, Copy, Debug, PartialEq, Eq, Structural)]
pub struct PollState {
    /// The node can be read now.
    pub readable: bool,
    /// The node can be written now.
    pub writable: bool,
}

/// Where a poll of a node stands, which is also what its caller does next.
#[derive(Clone, Copy, Debug, PartialEq, Eq, Structural)]
pub enum PollStep {
    /// The poll is answered.
    Ready(PollState),
    /// Attempt one non-blocking fill of the node's buffered reader and
    /// report the number of bytes it obtained to `Tty::poll_filled`.
    Fill,
}

/// The readiness of a node of `role` whose buffered reader holds `buffered`
/// unconsumed bytes and whose fresh fill, attempted only if it holds none,
/// obtains `filled`. The node is readable exactly when it has an input side
/// and one of the two is not zero. It is writable exactly when it has an
/// output side, which is always ready.
pub open spec fn spec_poll(role: Role, buffered: usize, filled: usize) -> PollState {
    PollState {
        readable: role.spec_can_read() && (buffered > 0 || filled > 0),
        writable: role.spec_can_write(),
    }
}

/// The raw console under a device node: non-blocking reads and synchronous
/// writes, with no buffer of its own.
pub struct TtyRaw;

impl TtyRaw {
    /// Begins a non-blocking read into a buffer of `buf_len` bytes.
    pub fn read(&self, buf_len: usize) -> (state: RawRead)
        ensures
            state == RawRead::spec_start(buf_len),
            state.wf(),
    {
        RawRead::start(buf_len)
    }

    /// Prepares a write of `buf`: every byte goes to the transport as it
    /// is, and the full length is reported.
    pub fn write<'a>(&self, buf: &'a [u8]) -> (r: Result<Transmit<'a>, IoError>)
        ensures
            r matches Ok(t) && t.bytes@ == buf@ && t.written == buf@.len(),
    {
        Ok(console_write_bytes(buf))
    }

    /// Flushes the console, which holds nothing back: always succeeds.
    pub fn flush(&self) -> (r: Result<(), IoError>)
        ensures
            r is Ok,
    {
        Ok(())
    }
}

/// What a device node holds.
pub struct TtyView {
    /// The node's role.
    pub role: Role,
    /// The node's terminal control state.
    pub state: TtyStateView,
}

/// A console device node.
pub struct Tty {
    role: Role,
    state: TtyState,
}

impl View for Tty {
    type V = TtyView;

    closed spec fn view(&self) -> TtyView {
        TtyView { role: self.role, state: self.state@ }
    }
}

impl Tty {
    /// Creates a generic terminal node in its initial control state.
    pub fn new() -> (tty: Tty)
        ensures
            tty@.role == Role::GenericTty,
            TtyState::is_initial(tty@.state),
    {
        Tty { role: Role::GenericTty, state: TtyState::new() }
    }

    /// Creates a node of the given role in its initial control state.
    pub fn with_role(role: Role) -> (tty: Tty)
        ensures
            tty@.role == role,
            TtyState::is_initial(tty@.state),
    {
        Tty { role, state: TtyState::new() }
    }

    /// The node's role.
    pub fn role(&self) -> (role: Role)
        ensures
            role == self@.role,
    {
        self.role
    }

    /// The node's terminal control state.
    pub fn state(&self) -> (state: &TtyState)
        ensures
            state@ == self@.state,
    {
        &self.state
    }

    /// Begins a blocked read into a buffer of `buf_len` bytes.
    pub fn read_blocked(&self, buf_len: usize) -> (state: BlockedRead)
        ensures
            state == BlockedRead::spec_start(buf_len),
    {
        BlockedRead::start(buf_len)
    }

    /// The attributes of the node: a character device open to everyone.
    pub fn get_attr(&self) -> (r: Result<NodeAttr, IoError>)
        ensures
            r == Ok::<NodeAttr, IoError>(empty_node_attr(PERM_MASK, NodeKind::CharDevice)),
    {
        assert(0o777u16 & PERM_MASK == PERM_MASK) by (bit_vector);
        Ok(NodeAttr::new(0o777, NodeKind::CharDevice, 0, 0))
    }

    /// Begins a read of the node into a buffer of `buf_len` bytes. A node
    /// without an input side refuses with `PermissionDenied`; any other
    /// begins a blocked read. The offset has no meaning on a device.
    pub fn read_at(&self, offset: u64, buf_len: usize) -> (r: Result<BlockedRead, IoError>)
        ensures
            self@.role.spec_can_read() ==> r == Ok::<BlockedRead, IoError>(
                BlockedRead::spec_start(buf_len),
            ),
            !self@.role.spec_can_read() ==> r == Err::<BlockedRead, IoError>(
                IoError::PermissionDenied,
            ),
    {
        if self.role.can_read() {
            Ok(self.read_blocked(buf_len))
        } else {
            Err(IoError::PermissionDenied)
        }
    }

    /// Prepares a write of `buf` to the node. A node without an output side
    /// refuses with `PermissionDenied`; any other hands every byte to the
    /// transport as it is and reports the full length, without blocking.
    /// The offset has no meaning on a device.
    pub fn write_at<'a>(&self, offset: u64, buf: &'a [u8]) -> (r: Result<Transmit<'a>, IoError>)
        ensures
            self@.role.spec_can_write() ==> (r matches Ok(t) && t.bytes@ == buf@ && t.written
                == buf@.len()),
            !self@.role.spec_can_write() ==> (r matches Err(e) && e == IoError::PermissionDenied),
    {
        if self.role.can_write() {
            Ok(console_write_bytes(buf))
        } else {
            Err(IoError::PermissionDenied)
        }
    }

    /// Begins a poll of the node, whose buffered reader holds `buffered`
    /// unconsumed bytes. The poll is answered at once if the node has no
    /// input side or if its reader holds data; otherwise it asks for one
    /// fresh fill.
    pub fn poll(&self, buffered: usize) -> (r: Result<PollStep, IoError>)
        ensures
            r == Ok::<PollStep, IoError>(
                if self@.role.spec_can_read() && buffered == 0 {
                    PollStep::Fill
                } else {
                    PollStep::Ready(spec_poll(self@.role, buffered, 0))
                },
            ),
    {
        if !self.role.can_read() {
            Ok(PollStep::Ready(PollState { readable: false, writable: self.role.can_write() }))
        } else if buffered > 0 {
            Ok(PollStep::Ready(PollState { readable: true, writable: self.role.can_write() }))
        } else {
            Ok(PollStep::Fill)
        }
    }

    /// Answers a poll that asked for a fresh fill, which obtained `filled`
    /// bytes.
    pub fn poll_filled(&self, filled: usize) -> (r: Result<PollState, IoError>)
        ensures
            r == Ok::<PollState, IoError>(spec_poll(self@.role, 0, filled)),
    {
        Ok(
            PollState {
                readable: self.role.can_read() && filled > 0,
                writable: self.role.can_write(),
            },
        )
    }

    /// Performs an ioctl on the node's control state. The operation code is
    /// cut to its low 32 bits.
    pub fn ioctl(&mut self, op: usize, arg: &mut IoctlArg) -> (r: Result<isize, IoError>)
        ensures
            final(self)@.role == old(self)@.role,
            r == spec_ioctl(old(self)@.state, op as u32, *old(arg)).result,
            final(self)@.state == spec_ioctl(old(self)@.state, op as u32, *old(arg)).state,
            *final(arg) == spec_ioctl(old(self)@.state, op as u32, *old(arg)).arg,
    {
        self.state.ioctl(#[verifier::truncate] (op as u32), arg)
    }
}

impl Default for Tty {
    fn default() -> (tty: Tty)
        ensures
            tty@.role == Role::GenericTty,
            TtyState::is_initial(tty@.state),
    {
        Tty::new()
    }
}

/// Each role keeps to its direction: a standard-input node reads and
/// refuses writes, standard-output and standard-error nodes write and
/// refuse reads, and a generic terminal does both.
pub proof fn lemma_role_directions()
    ensures
        Role::Stdin.spec_can_read() && !Role::Stdin.spec_can_write(),
        !Role::Stdout.spec_can_read() && Role::Stdout.spec_can_write(),
        !Role::Stderr.spec_can_read() && Role::Stderr.spec_can_write(),
        Role::GenericTty.spec_can_read() && Role::GenericTty.spec_can_write(),
{
}

} // verus!
