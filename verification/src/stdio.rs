//! The standard input and output handles of a process, bound to the
//! in-process file-handle contract.

use vstd::prelude::*;

use crate::blocking::BlockedRead;
use crate::console::{console_write_bytes, Transmit};
use crate::error::IoError;
use crate::termios::S_IFCHR;
use crate::tty::PollState;

verus! {

/// Permission bits of a handle that is only read: `r--r--r--`.
pub const STDIN_PERM: u32 = 0o444;

/// Permission bits of a handle that is only written: `-w--w----`.
pub const STDOUT_PERM: u32 = 0o220;

/// The status of a file handle, as far as this layer sets it.
#[derive(Clone, Copy, Debug, PartialEq, Eq, Structural)]
pub struct Kstat {
    /// File type and permission bits.
    pub mode: u32,
}

/// A handle to the standard input of the current process.
pub struct Stdin;

/// A handle to the standard output of the current process.
pub struct Stdout;

/// Constructs a new handle to the standard input of the current process.
pub fn stdin() -> Stdin {
    Stdin
}

/// Constructs a new handle to the standard output of the current process.
pub fn stdout() -> Stdout {
    Stdout
}

impl Stdin {
    /// Begins a read that blocks until at least one byte is read, or returns
    /// at once if the buffer is empty.
    pub fn read_blocked(&self, buf_len: usize) -> (state: BlockedRead)
        ensures
            state == BlockedRead::spec_start(buf_len),
    {
        BlockedRead::start(buf_len)
    }

    /// Begins a read into a buffer of `buf_len` bytes.
    pub fn read(&self, buf_len: usize) -> (r: Result<BlockedRead, IoError>)
        ensures
            r == Ok::<BlockedRead, IoError>(BlockedRead::spec_start(buf_len)),
    {
        Ok(self.read_blocked(buf_len))
    }

    /// Standard input takes no writes: always `PermissionDenied`.
    pub fn write<'a>(&self, buf: &'a [u8]) -> (r: Result<Transmit<'a>, IoError>)
        ensures
            r matches Err(e) && e == IoError::PermissionDenied,
    {
        Err(IoError::PermissionDenied)
    }

    /// The status of the handle: a character device that everyone may read.
    pub fn stat(&self) -> (r: Result<Kstat, IoError>)
        ensures
            r == Ok::<Kstat, IoError>(Kstat { mode: S_IFCHR | STDIN_PERM }),
    {
        Ok(Kstat { mode: S_IFCHR | STDIN_PERM })
    }

    /// The handle is always reported readable and writable.
    pub fn poll(&self) -> (r: Result<PollState, IoError>)
        ensures
            r == Ok::<PollState, IoError>(PollState { readable: true, writable: true }),
    {
        Ok(PollState { readable: true, writable: true })
    }

    /// Accepts the setting and changes nothing: the transport never blocks,
    /// and blocking is made by the blocked read alone.
    pub fn set_nonblocking(&self, nonblocking: bool) -> (r: Result<(), IoError>)
        ensures
            r is Ok,
    {
        Ok(())
    }
}

impl Stdout {
    /// Standard output gives no reads: always `PermissionDenied`.
    pub fn read(&self, buf_len: usize) -> (r: Result<BlockedRead, IoError>)
        ensures
            r == Err::<BlockedRead, IoError>(IoError::PermissionDenied),
    {
        Err(IoError::PermissionDenied)
    }

    /// Prepares a write of `buf`: every byte goes to the transport as it
    /// is, and the full length is reported.
    pub fn write<'a>(&self, buf: &'a [u8]) -> (r: Result<Transmit<'a>, IoError>)
        ensures
            r matches Ok(t) && t.bytes@ == buf@ && t.written == buf@.len(),
    {
        Ok(console_write_bytes(buf))
    }

    /// Flushes the handle, which holds nothing back: always succeeds.
    pub fn flush(&self) -> (r: Result<(), IoError>)
        ensures
            r is Ok,
    {
        Ok(())
    }

    /// The status of the handle: a character device that owner and group
    /// may write.
    pub fn stat(&self) -> (r: Result<Kstat, IoError>)
        ensures
            r == Ok::<Kstat, IoError>(Kstat { mode: S_IFCHR | STDOUT_PERM }),
    {
        Ok(Kstat { mode: S_IFCHR | STDOUT_PERM })
    }

    /// The handle is always reported readable and writable.
    pub fn poll(&self) -> (r: Result<PollState, IoError>)
        ensures
            r == Ok::<PollState, IoError>(PollState { readable: true, writable: true }),
    {
        Ok(PollState { readable: true, writable: true })
    }

    /// Accepts the setting and changes nothing.
    pub fn set_nonblocking(&self, nonblocking: bool) -> (r: Result<(), IoError>)
        ensures
            r is Ok,
    {
        Ok(())
    }
}

/// The mode words of the two handles as numbers: a character device with
/// `0o444`, and one with `0o220`.
pub proof fn lemma_stat_modes()
    ensures
        S_IFCHR | STDIN_PERM == 0o20444,
        S_IFCHR | STDOUT_PERM == 0o20220,
{
    assert(S_IFCHR | STDIN_PERM == 0o20444u32) by (bit_vector);
    assert(S_IFCHR | STDOUT_PERM == 0o20220u32) by (bit_vector);
}

} // verus!
