//! The pseudo-nodes under `/proc/self`: the `exe` link and the `fd`
//! directory with its entries.

use vstd::prelude::*;
use vstd::string::*;
use vstd::utf8::{encode_utf8, encode_utf8_decode_utf8, is_ascii_chars_encode_utf8};

use crate::error::IoError;
use crate::vfs::{
    copied_len, copied_prefix, copy_truncated, default_dir_perm, default_file_perm,
    empty_node_attr, DirEntry, NodeAttr, NodeKind, DEFAULT_DIR_PERM, DEFAULT_FILE_PERM,
};

verus! {

/// Number of descriptors that the `fd` directory lists: 0, 1 and 2.
pub const FD_COUNT: usize = 3;

/// The name of the entry of descriptor `fd` in the `fd` directory.
pub open spec fn spec_fd_name(fd: int) -> Seq<char> {
    if fd == 0 {
        "0"@
    } else if fd == 1 {
        "1"@
    } else {
        "2"@
    }
}

/// The device path that the entry of descriptor `fd` links to, as bytes.
/// A descriptor other than 0, 1 and 2 falls back to `/dev/null`; the
/// directory never yields one.
pub open spec fn spec_fd_target(fd: int) -> Seq<u8> {
    if fd == 0 {
        "/dev/stdin".spec_bytes()
    } else if fd == 1 {
        "/dev/stdout".spec_bytes()
    } else if fd == 2 {
        "/dev/stderr".spec_bytes()
    } else {
        "/dev/null".spec_bytes()
    }
}

/// The descriptor that the name `name`, given as bytes, stands for in the
/// `fd` directory: the names are exactly `0`, `1` and `2`.
pub open spec fn spec_lookup_fd(name: Seq<u8>) -> Option<usize> {
    if name.len() == 1 && 0x30 <= name[0] <= 0x32 {
        Some((name[0] - 0x30) as usize)
    } else {
        None
    }
}

/// The number of entries that a listing from `start_idx` puts into `cap`
/// slots.
pub open spec fn spec_listed(start_idx: nat, cap: nat) -> nat {
    if start_idx >= FD_COUNT {
        0
    } else if cap <= FD_COUNT - start_idx {
        cap
    } else {
        (FD_COUNT - start_idx) as nat
    }
}

/// Whether `entry` is the listing's entry for descriptor `fd`.
pub open spec fn is_fd_entry(entry: DirEntry, fd: int) -> bool {
    entry.name@ == spec_fd_name(fd) && entry.kind == NodeKind::SymLink
}

/// The device path that descriptor `fd` links to.
pub fn fd_target(fd: usize) -> (path: &'static str)
    ensures
        path.spec_bytes() == spec_fd_target(fd as int),
{
    match fd {
        0 => "/dev/stdin",
        1 => "/dev/stdout",
        2 => "/dev/stderr",
        _ => "/dev/null",
    }
}

/// The node `/proc/self/exe`: a symbolic link to the executable of the
/// current task.
pub struct SelfExe;

impl SelfExe {
    /// The attributes of the node: a symbolic link with the default file
    /// permission.
    pub fn get_attr(&self) -> (r: Result<NodeAttr, IoError>)
        ensures
            r == Ok::<NodeAttr, IoError>(empty_node_attr(DEFAULT_FILE_PERM, NodeKind::SymLink)),
    {
        Ok(NodeAttr { perm: default_file_perm(), kind: NodeKind::SymLink, size: 0, blocks: 0 })
    }

    /// Reads the link. `target` is the resolved executable path of the
    /// current task at the time of the call. It goes to the start of `buf`,
    /// cut off at the capacity of `buf`.
    pub fn readlink(&self, target: &[u8], buf: &mut [u8]) -> (r: Result<usize, IoError>)
        ensures
            r == Ok::<usize, IoError>(copied_len(old(buf)@.len(), target@.len()) as usize),
            final(buf)@ == copied_prefix(old(buf)@, target@),
    {
        Ok(copy_truncated(buf, target))
    }

    /// The node is a symbolic link.
    pub fn is_symlink(&self) -> (b: bool)
        ensures
            b,
    {
        true
    }
}

/// The node `/proc/self/fd`: a directory with one entry for each of the
/// descriptors 0, 1 and 2.
pub struct SelfFdDir;

impl SelfFdDir {
    /// The attributes of the node: a directory with the default directory
    /// permission.
    pub fn get_attr(&self) -> (r: Result<NodeAttr, IoError>)
        ensures
            r == Ok::<NodeAttr, IoError>(empty_node_attr(DEFAULT_DIR_PERM, NodeKind::Dir)),
    {
        Ok(NodeAttr { perm: default_dir_perm(), kind: NodeKind::Dir, size: 0, blocks: 0 })
    }

    /// Lists the directory from entry `start_idx` on into the slots of
    /// `ents`, first slot first, and returns the number of slots filled.
    /// Entry `i` is the symbolic link named after descriptor `i`.
    pub fn read_dir(&self, start_idx: usize, ents: &mut [DirEntry]) -> (r: Result<usize, IoError>)
        ensures
            r == Ok::<usize, IoError>(
                spec_listed(start_idx as nat, old(ents)@.len()) as usize,
            ),
            final(ents)@.len() == old(ents)@.len(),
            forall|i: int|
                0 <= i < spec_listed(start_idx as nat, old(ents)@.len()) ==> is_fd_entry(
                    #[trigger] final(ents)@[i],
                    start_idx + i,
                ),
            forall|i: int|
                spec_listed(start_idx as nat, old(ents)@.len()) <= i < old(ents)@.len()
                    ==> #[trigger] final(ents)@[i] == old(ents)@[i],
    {
        let ghost before = ents@;
        let mut count: usize = 0;
        let mut idx: usize = 0;
        while idx < FD_COUNT
            invariant
                idx <= FD_COUNT,
                ents@.len() == before.len(),
                count <= ents@.len(),
                count == if idx <= start_idx {
                    0
                } else if ents@.len() <= idx - start_idx {
                    ents@.len() as int
                } else {
                    idx - start_idx
                },
                forall|i: int| 0 <= i < count ==> is_fd_entry(#[trigger] ents@[i], start_idx + i),
                forall|i: int| count <= i < ents@.len() ==> #[trigger] ents@[i] == before[i],
            decreases FD_COUNT - idx,
        {
            if idx >= start_idx && count < ents.len() {
                let name = match idx {
                    0 => "0",
                    1 => "1",
                    _ => "2",
                };
                ents[count] = DirEntry { name, kind: NodeKind::SymLink };
                count += 1;
            }
            idx += 1;
        }
        Ok(count)
    }

    /// Looks `name` up in the directory. Exactly the names `0`, `1` and `2`
    /// are found; any other name, numeric or not, is `NotFound`.
    pub fn lookup(&self, name: &str) -> (r: Result<SelfFdEntry, IoError>)
        ensures
            match spec_lookup_fd(name.spec_bytes()) {
                Some(fd) => r matches Ok(entry) && entry@ == fd,
                None => r matches Err(e) && e == IoError::NotFound,
            },
    {
        let bytes = name.as_bytes();
        if bytes.len() == 1 && 0x30 <= bytes[0] && bytes[0] <= 0x32 {
            Ok(SelfFdEntry { fd: (bytes[0] - 0x30) as usize })
        } else {
            Err(IoError::NotFound)
        }
    }
}

/// An entry of `/proc/self/fd`: a symbolic link to the device node of one
/// descriptor.
pub struct SelfFdEntry {
    fd: usize,
}

impl View for SelfFdEntry {
    type V = usize;

    closed spec fn view(&self) -> usize {
        self.fd
    }
}

impl SelfFdEntry {
    /// The descriptor that the entry stands for.
    pub fn fd(&self) -> (fd: usize)
        ensures
            fd == self@,
    {
        self.fd
    }

    /// The attributes of the node: a symbolic link with the default file
    /// permission.
    pub fn get_attr(&self) -> (r: Result<NodeAttr, IoError>)
        ensures
            r == Ok::<NodeAttr, IoError>(empty_node_attr(DEFAULT_FILE_PERM, NodeKind::SymLink)),
    {
        Ok(NodeAttr { perm: default_file_perm(), kind: NodeKind::SymLink, size: 0, blocks: 0 })
    }

    /// Reads the link: the device path of the entry's descriptor goes to
    /// the start of `buf`, cut off at the capacity of `buf`.
    pub fn readlink(&self, buf: &mut [u8]) -> (r: Result<usize, IoError>)
        ensures
            r == Ok::<usize, IoError>(
                copied_len(old(buf)@.len(), spec_fd_target(self@ as int).len()) as usize,
            ),
            final(buf)@ == copied_prefix(old(buf)@, spec_fd_target(self@ as int)),
    {
        let path = fd_target(self.fd);
        Ok(copy_truncated(buf, path.as_bytes()))
    }

    /// The node is a symbolic link.
    pub fn is_symlink(&self) -> (b: bool)
        ensures
            b,
    {
        true
    }
}

/// The bytes of the names `0`, `1` and `2`, and of the four device paths.
pub proof fn lemma_literal_bytes()
    ensures
        "0".spec_bytes() == seq![0x30u8],
        "1".spec_bytes() == seq![0x31u8],
        "2".spec_bytes() == seq![0x32u8],
        "/dev/stdin".spec_bytes() == seq![
            0x2fu8, 0x64u8, 0x65u8, 0x76u8, 0x2fu8, 0x73u8, 0x74u8, 0x64u8, 0x69u8, 0x6eu8,
        ],
        "/dev/stdout".spec_bytes() == seq![
            0x2fu8, 0x64u8, 0x65u8, 0x76u8, 0x2fu8, 0x73u8, 0x74u8, 0x64u8, 0x6fu8, 0x75u8, 0x74u8,
        ],
        "/dev/stderr".spec_bytes() == seq![
            0x2fu8, 0x64u8, 0x65u8, 0x76u8, 0x2fu8, 0x73u8, 0x74u8, 0x64u8, 0x65u8, 0x72u8, 0x72u8,
        ],
        "/dev/null".spec_bytes() == seq![
            0x2fu8, 0x64u8, 0x65u8, 0x76u8, 0x2fu8, 0x6eu8, 0x75u8, 0x6cu8, 0x6cu8,
        ],
{
    reveal_strlit("0");
    reveal_strlit("1");
    reveal_strlit("2");
    reveal_strlit("/dev/stdin");
    reveal_strlit("/dev/stdout");
    reveal_strlit("/dev/stderr");
    reveal_strlit("/dev/null");
    is_ascii_chars_encode_utf8("0"@);
    is_ascii_chars_encode_utf8("1"@);
    is_ascii_chars_encode_utf8("2"@);
    is_ascii_chars_encode_utf8("/dev/stdin"@);
    is_ascii_chars_encode_utf8("/dev/stdout"@);
    is_ascii_chars_encode_utf8("/dev/stderr"@);
    is_ascii_chars_encode_utf8("/dev/null"@);
    assert("0".spec_bytes() =~= seq![0x30u8]);
    assert("1".spec_bytes() =~= seq![0x31u8]);
    assert("2".spec_bytes() =~= seq![0x32u8]);
    assert("/dev/stdin".spec_bytes() =~= seq![
        0x2fu8, 0x64u8, 0x65u8, 0x76u8, 0x2fu8, 0x73u8, 0x74u8, 0x64u8, 0x69u8, 0x6eu8,
    ]);
    assert("/dev/stdout".spec_bytes() =~= seq![
        0x2fu8, 0x64u8, 0x65u8, 0x76u8, 0x2fu8, 0x73u8, 0x74u8, 0x64u8, 0x6fu8, 0x75u8, 0x74u8,
    ]);
    assert("/dev/stderr".spec_bytes() =~= seq![
        0x2fu8, 0x64u8, 0x65u8, 0x76u8, 0x2fu8, 0x73u8, 0x74u8, 0x64u8, 0x65u8, 0x72u8, 0x72u8,
    ]);
    assert("/dev/null".spec_bytes() =~= seq![
        0x2fu8, 0x64u8, 0x65u8, 0x76u8, 0x2fu8, 0x6eu8, 0x75u8, 0x6cu8, 0x6cu8,
    ]);
}

/// A lookup in the `fd` directory succeeds for the names `0`, `1` and `2`
/// and for no other name, and the entry it finds links to the device path
/// of its descriptor: `/dev/stdin`, `/dev/stdout` or `/dev/stderr`.
pub proof fn lemma_lookup_finds_std_streams(name: &str)
    ensures
        name@ == "0"@ <==> spec_lookup_fd(name.spec_bytes()) == Some(0usize),
        name@ == "1"@ <==> spec_lookup_fd(name.spec_bytes()) == Some(1usize),
        name@ == "2"@ <==> spec_lookup_fd(name.spec_bytes()) == Some(2usize),
        spec_lookup_fd(name.spec_bytes()) is None <==> !(name@ == "0"@ || name@ == "1"@ || name@
            == "2"@),
        spec_fd_target(0) == "/dev/stdin".spec_bytes(),
        spec_fd_target(1) == "/dev/stdout".spec_bytes(),
        spec_fd_target(2) == "/dev/stderr".spec_bytes(),
{
    lemma_literal_bytes();
    let bytes = name.spec_bytes();
    encode_utf8_decode_utf8(name@);
    encode_utf8_decode_utf8("0"@);
    encode_utf8_decode_utf8("1"@);
    encode_utf8_decode_utf8("2"@);
    if bytes.len() == 1 && 0x30 <= bytes[0] <= 0x32 {
        assert(bytes =~= seq![bytes[0]]);
    }
}

/// A listing of the `fd` directory never runs past the three entries, a
/// page that is large enough holds all that are left, and every name that
/// is listed is found by a lookup.
pub proof fn lemma_listing_is_complete(start: nat, cap: nat)
    ensures
        spec_listed(start, cap) <= cap,
        start <= FD_COUNT ==> start + spec_listed(start, cap) <= FD_COUNT,
        start <= FD_COUNT <= start + cap ==> start + spec_listed(start, cap) == FD_COUNT,
        start >= FD_COUNT ==> spec_listed(start, cap) == 0,
        forall|fd: int|
            0 <= fd < FD_COUNT ==> spec_lookup_fd(encode_utf8(#[trigger] spec_fd_name(fd)))
                == Some(fd as usize),
{
    lemma_literal_bytes();
}

} // verus!
