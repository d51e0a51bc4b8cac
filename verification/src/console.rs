//! The console read and write paths above the byte transport.
//!
//! The transport itself is operated by the caller. On the read path every
//! carriage return that the transport delivers becomes a newline; the write
//! path hands bytes on as they are.

use vstd::prelude::*;

verus! {

/// Carriage return.
pub const CR: u8 = 0x0d;

/// Newline.
pub const NL: u8 = 0x0a;

/// A byte as the read path hands it on: newline for carriage return, every
/// other byte unchanged.
pub open spec fn normalize_byte(b: u8) -> u8 {
    if b == CR {
        NL
    } else {
        b
    }
}

/// The bytes `raw` with the first `len` of them normalised.
pub open spec fn normalized(raw: Seq<u8>, len: int) -> Seq<u8> {
    Seq::new(
        raw.len(),
        |i: int|
            if i < len {
                normalize_byte(raw[i])
            } else {
                raw[i]
            },
    )
}

/// The bytes of a reader's buffer `buf` after a transport read at `offset`:
/// what stood before `offset` stays, and behind it stands the transport's
/// buffer `raw` with the `len` bytes that were read normalised.
pub open spec fn delivered(buf: Seq<u8>, offset: int, raw: Seq<u8>, len: int) -> Seq<u8> {
    buf.take(offset) + normalized(raw, len)
}

/// Stores a transport read in `buf` from `offset` on.
fn store_normalized(buf: &mut [u8], offset: usize, kernel_buf: &[u8], len: usize)
    requires
        offset + kernel_buf@.len() == old(buf)@.len(),
        len <= kernel_buf@.len(),
    ensures
        final(buf)@ == delivered(old(buf)@, offset as int, kernel_buf@, len as int),
{
    let ghost before = buf@;
    let total = kernel_buf.len();
    let buf_len = buf.len();
    let mut i: usize = 0;
    while i < total
        invariant
            i <= total,
            total == kernel_buf@.len(),
            buf_len == buf@.len(),
            offset + total == buf_len,
            buf@.len() == before.len(),
            len <= total,
            forall|j: int| 0 <= j < offset ==> buf@[j] == before[j],
            forall|j: int|
                0 <= j < i ==> buf@[offset + j] == normalized(kernel_buf@, len as int)[j],
        decreases total - i,
    {
        let b = kernel_buf[i];
        if i < len && b == CR {
            buf[offset + i] = NL;
        } else {
            buf[offset + i] = b;
        }
        i += 1;
    }
    assert(buf@ =~= delivered(before, offset as int, kernel_buf@, len as int));
}

/// Completes one transport read: `kernel_buf` is the buffer that the
/// transport was given and `len` the number of bytes it reported. Copies the
/// whole of `kernel_buf` into `buf`, normalises the `len` bytes that were
/// read, and returns `len`.
pub fn console_read_bytes(buf: &mut [u8], kernel_buf: &[u8], len: usize) -> (n: usize)
    requires
        kernel_buf@.len() == old(buf)@.len(),
        len <= kernel_buf@.len(),
    ensures
        n == len,
        final(buf)@ == normalized(kernel_buf@, len as int),
{
    store_normalized(buf, 0, kernel_buf, len);
    assert(buf@ =~= normalized(kernel_buf@, len as int));
    len
}

/// What the write path hands to the transport, and the length it reports.
pub struct Transmit<'a> {
    /// The bytes to transmit.
    pub bytes: &'a [u8],
    /// The number of bytes reported as written.
    pub written: usize,
}

/// Prepares a write: the transport gets `buf` byte for byte, carriage
/// returns included, and the full length is reported as written.
pub fn console_write_bytes<'a>(buf: &'a [u8]) -> (t: Transmit<'a>)
    ensures
        t.bytes@ == buf@,
        t.written == buf@.len(),
{
    Transmit { bytes: buf, written: buf.len() }
}

/// On the read path no carriage return reaches the reader, a byte that is
/// not a carriage return arrives unchanged, and bytes past those read are
/// left alone.
pub proof fn lemma_read_path_translates_carriage_return(raw: Seq<u8>, len: int)
    requires
        0 <= len <= raw.len(),
    ensures
        normalized(raw, len).len() == raw.len(),
        forall|i: int| 0 <= i < len ==> #[trigger] normalized(raw, len)[i] != CR,
        forall|i: int| 0 <= i < len && raw[i] == CR ==> #[trigger] normalized(raw, len)[i] == NL,
        forall|i: int| 0 <= i < len && raw[i] != CR ==> #[trigger] normalized(raw, len)[i] == raw[i],
        forall|i: int| len <= i < raw.len() ==> #[trigger] normalized(raw, len)[i] == raw[i],
{
}

/// Progress of one non-blocking read of the raw console into a buffer. The
/// read asks the transport for the part of the buffer that is still free
/// until the transport delivers nothing or the buffer is full.
#[derive(Clone, Copy, Debug, PartialEq, Eq, Structural)]
pub enum RawRead {
    /// Ask the transport to fill the buffer from offset `read_len` on, and
    /// report the number of bytes it delivered.
    Fetch {
        /// Length of the reader's buffer.
        buf_len: usize,
        /// Bytes read so far.
        read_len: usize,
    },
    /// The read is over, with this many bytes in the buffer.
    Done {
        /// Bytes read in all.
        read_len: usize,
    },
}

impl RawRead {
    /// The state in which a read into a buffer of `buf_len` bytes begins.
    pub open spec fn spec_start(buf_len: usize) -> RawRead {
        if buf_len > 0 {
            RawRead::Fetch { buf_len, read_len: 0 }
        } else {
            RawRead::Done { read_len: 0 }
        }
    }

    /// Whether the state is one that a read can be in: while a fetch is due
    /// the buffer has room.
    pub open spec fn wf(self) -> bool {
        match self {
            RawRead::Fetch { buf_len, read_len } => read_len < buf_len,
            RawRead::Done { .. } => true,
        }
    }

    /// The number of bytes read so far.
    pub open spec fn spec_read_len(self) -> usize {
        match self {
            RawRead::Fetch { read_len, .. } => read_len,
            RawRead::Done { read_len } => read_len,
        }
    }

    /// Whether a transport read of `len` bytes into a buffer of `raw_len`
    /// can be stored in the reader's buffer of `buf_len` in this state: the
    /// state is for that buffer, the transport was given what was free of
    /// it, and it reports no more than it was given.
    pub open spec fn accepts(self, buf_len: nat, raw_len: nat, len: nat) -> bool {
        match self {
            RawRead::Fetch { buf_len: expected, read_len } => {
                &&& buf_len == expected
                &&& read_len + raw_len == buf_len
                &&& len <= raw_len
            },
            RawRead::Done { .. } => true,
        }
    }

    /// The state after the transport delivered `len` bytes. An empty
    /// delivery ends the read, and so does one that fills the buffer.
    pub open spec fn spec_fetched(self, len: usize) -> RawRead {
        match self {
            RawRead::Fetch { buf_len, read_len } => {
                if len == 0 {
                    RawRead::Done { read_len }
                } else if read_len + len < buf_len {
                    RawRead::Fetch { buf_len, read_len: (read_len + len) as usize }
                } else {
                    RawRead::Done { read_len: (read_len + len) as usize }
                }
            },
            RawRead::Done { .. } => self,
        }
    }

    /// Begins a read into a buffer of `buf_len` bytes.
    pub fn start(buf_len: usize) -> (state: RawRead)
        ensures
            state == Self::spec_start(buf_len),
            state.wf(),
    {
        if buf_len > 0 {
            RawRead::Fetch { buf_len, read_len: 0 }
        } else {
            RawRead::Done { read_len: 0 }
        }
    }

    /// Takes a transport read and gives the next state. `kernel_buf` is the
    /// buffer that the transport was given, as long as what was free of
    /// `buf`, and `len` the number of bytes it reported. The read is stored
    /// in `buf` behind the bytes read so far, normalised. A read that is
    /// over stores nothing.
    pub fn fetched(self, buf: &mut [u8], kernel_buf: &[u8], len: usize) -> (next: RawRead)
        requires
            self.accepts(old(buf)@.len(), kernel_buf@.len(), len as nat),
        ensures
            next == self.spec_fetched(len),
            self.wf() ==> next.wf(),
            final(buf)@ == match self {
                RawRead::Fetch { read_len, .. } => delivered(
                    old(buf)@,
                    read_len as int,
                    kernel_buf@,
                    len as int,
                ),
                RawRead::Done { .. } => old(buf)@,
            },
    {
        match self {
            RawRead::Fetch { buf_len, read_len } => {
                store_normalized(buf, read_len, kernel_buf, len);
                if len == 0 {
                    RawRead::Done { read_len }
                } else if read_len + len < buf_len {
                    RawRead::Fetch { buf_len, read_len: read_len + len }
                } else {
                    RawRead::Done { read_len: read_len + len }
                }
            },
            RawRead::Done { .. } => self,
        }
    }
}

/// A transport read adds its length to the count of a raw read, which never
/// passes the length of the buffer. The raw read goes on exactly while the
/// last transport read was not empty and the buffer has room.
pub proof fn lemma_raw_read_counts_deliveries(state: RawRead, buf_len: usize, len: usize)
    requires
        state.wf(),
        state matches RawRead::Fetch { buf_len: b, .. } && b == buf_len,
        state.spec_read_len() + len <= buf_len,
    ensures
        state.spec_fetched(len).spec_read_len() == state.spec_read_len() + len,
        state.spec_fetched(len).spec_read_len() <= buf_len,
        state.spec_fetched(len) is Fetch <==> len > 0 && state.spec_read_len() + len < buf_len,
        state.spec_fetched(len) matches RawRead::Fetch { buf_len: b, .. } ==> b == buf_len,
{
}

/// A transport read leaves the bytes read before it as they were and puts
/// behind them the bytes it read, each carriage return among them turned
/// into a newline and every other byte unchanged.
pub proof fn lemma_delivery_extends_what_was_read(
    buf: Seq<u8>,
    offset: int,
    raw: Seq<u8>,
    len: int,
)
    requires
        0 <= offset,
        0 <= len <= raw.len(),
        offset + raw.len() == buf.len(),
    ensures
        delivered(buf, offset, raw, len).len() == buf.len(),
        delivered(buf, offset, raw, len).take(offset) == buf.take(offset),
        forall|i: int|
            0 <= i < len ==> #[trigger] delivered(buf, offset, raw, len)[offset + i]
                == normalize_byte(raw[i]),
        forall|i: int|
            0 <= i < len ==> #[trigger] delivered(buf, offset, raw, len)[offset + i] != CR,
{
    assert(delivered(buf, offset, raw, len).take(offset) =~= buf.take(offset));
}

} // verus!
