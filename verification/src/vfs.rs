//! Node attributes and directory entries as this layer reports them to the
//! virtual filesystem.

use vstd::prelude::*;

verus! {

/// The kinds of node that this layer provides.
#[derive(Clone, Copy, Debug, PartialEq, Eq, Structural)]
pub enum NodeKind {
    /// Character device.
    CharDevice,
    /// Directory.
    Dir,
    /// Symbolic link.
    SymLink,
}

/// Attributes of a node.
#[derive(Clone, Copy, Debug, PartialEq, Eq, Structural)]
pub struct NodeAttr {
    /// Permission bits, at most `0o777`.
    pub perm: u16,
    /// Kind of node.
    pub kind: NodeKind,
    /// Size in bytes.
    pub size: u64,
    /// Number of 512-byte blocks.
    pub blocks: u64,
}

/// One entry of a directory listing.
#[derive(Clone, Copy, Debug, PartialEq, Eq)]
pub struct DirEntry {
    /// Name of the entry.
    pub name: &'static str,
    /// Kind of the node that the entry names.
    pub kind: NodeKind,
}

/// The nine permission bits.
pub const PERM_MASK: u16 = 0o777;

/// Default permission of a file: read and write for owner, group and others.
pub const DEFAULT_FILE_PERM: u16 = 0o666;

/// Default permission of a directory: everything for the owner, read and
/// execute for group and others.
pub const DEFAULT_DIR_PERM: u16 = 0o755;

/// Calls `axfs_vfs::VfsNodePerm::default_file` and returns the bits of the
/// permission it gives, which that crate fixes at `0o666`.
#[verifier::external_body]
pub(crate) fn default_file_perm() -> (bits: u16)
    ensures
        bits == DEFAULT_FILE_PERM,
{
    axfs_vfs::VfsNodePerm::default_file().bits()
}

/// Calls `axfs_vfs::VfsNodePerm::default_dir` and returns the bits of the
/// permission it gives, which that crate fixes at `0o755`.
#[verifier::external_body]
pub(crate) fn default_dir_perm() -> (bits: u16)
    ensures
        bits == DEFAULT_DIR_PERM,
{
    axfs_vfs::VfsNodePerm::default_dir().bits()
}

/// Calls `axfs_vfs::VfsNodePerm::from_bits_truncate` and returns the bits of
/// the permission it gives: those of `bits` that are permission bits, the
/// others dropped.
#[verifier::external_body]
pub(crate) fn perm_from_bits_truncate(bits: u16) -> (perm: u16)
    ensures
        perm == bits & PERM_MASK,
{
    axfs_vfs::VfsNodePerm::from_bits_truncate(bits).bits()
}

/// The attributes of a node of `kind` with permission `perm`, no size and no
/// blocks.
pub open spec fn empty_node_attr(perm: u16, kind: NodeKind) -> NodeAttr {
    NodeAttr { perm, kind, size: 0, blocks: 0 }
}

impl NodeAttr {
    /// Creates attributes from a mode word, of which only the permission
    /// bits are kept.
    pub fn new(mode: u16, kind: NodeKind, size: u64, blocks: u64) -> (attr: NodeAttr)
        ensures
            attr == (NodeAttr { perm: mode & PERM_MASK, kind, size, blocks }),
    {
        NodeAttr { perm: perm_from_bits_truncate(mode), kind, size, blocks }
    }
}

/// The bytes of `dst` after `src` was copied to its start, as far as it
/// fits.
pub open spec fn copied_prefix(dst: Seq<u8>, src: Seq<u8>) -> Seq<u8> {
    Seq::new(
        dst.len(),
        |i: int|
            if i < src.len() {
                src[i]
            } else {
                dst[i]
            },
    )
}

/// The number of bytes that fit when `src_len` bytes go to a buffer of
/// `dst_len`.
pub open spec fn copied_len(dst_len: nat, src_len: nat) -> nat {
    if dst_len <= src_len {
        dst_len
    } else {
        src_len
    }
}

/// Copies `src` to the start of `buf`, cut off at the capacity of `buf`, and
/// returns the number of bytes copied. A source that is longer than the
/// buffer is no error.
pub fn copy_truncated(buf: &mut [u8], src: &[u8]) -> (n: usize)
    ensures
        n == copied_len(old(buf)@.len(), src@.len()),
        final(buf)@ == copied_prefix(old(buf)@, src@),
{
    let copy_len = if buf.len() <= src.len() {
        buf.len()
    } else {
        src.len()
    };
    let ghost before = buf@;
    let mut i: usize = 0;
    while i < copy_len
        invariant
            i <= copy_len,
            copy_len <= src@.len(),
            copy_len <= buf@.len(),
            buf@.len() == before.len(),
            forall|j: int| 0 <= j < i ==> buf@[j] == src@[j],
            forall|j: int| i <= j < buf@.len() ==> buf@[j] == before[j],
        decreases copy_len - i,
    {
        buf[i] = src[i];
        i += 1;
    }
    assert(buf@ =~= copied_prefix(before, src@));
    copy_len
}

/// After a truncated copy the buffer starts with the bytes of the source
/// that fit, and holds what it held before behind them.
pub proof fn lemma_copied_prefix(dst: Seq<u8>, src: Seq<u8>)
    ensures
        copied_len(dst.len(), src.len()) <= dst.len(),
        copied_len(dst.len(), src.len()) <= src.len(),
        copied_len(dst.len(), src.len()) == dst.len() || copied_len(dst.len(), src.len())
            == src.len(),
        copied_prefix(dst, src).len() == dst.len(),
        copied_prefix(dst, src).take(copied_len(dst.len(), src.len()) as int) == src.take(
            copied_len(dst.len(), src.len()) as int,
        ),
        copied_prefix(dst, src).skip(copied_len(dst.len(), src.len()) as int) == dst.skip(
            copied_len(dst.len(), src.len()) as int,
        ),
{
    let n = copied_len(dst.len(), src.len()) as int;
    assert(copied_prefix(dst, src).take(n) =~= src.take(n));
    assert(copied_prefix(dst, src).skip(n) =~= dst.skip(n));
}

/// Two truncated copies into buffers of one capacity give the same length
/// and the same leading bytes exactly when the two sources agree as far as
/// the capacity reaches: a changed source shows in what is read, unless the
/// change lies behind the point where the copy is cut off.
pub proof fn lemma_copy_follows_source(dst: Seq<u8>, a: Seq<u8>, b: Seq<u8>)
    ensures
        ({
            let len_a = copied_len(dst.len(), a.len()) as int;
            let len_b = copied_len(dst.len(), b.len()) as int;
            (len_a == len_b && copied_prefix(dst, a).take(len_a) == copied_prefix(dst, b).take(
                len_b,
            )) <==> a.take(len_a) == b.take(len_b)
        }),
{
    let len_a = copied_len(dst.len(), a.len()) as int;
    let len_b = copied_len(dst.len(), b.len()) as int;
    lemma_copied_prefix(dst, a);
    lemma_copied_prefix(dst, b);
    if a.take(len_a) == b.take(len_b) {
        assert(a.take(len_a).len() == len_a);
        assert(b.take(len_b).len() == len_b);
    }
}

} // verus!
