use chardev::error::IoError;
use chardev::procfs::{fd_target, SelfExe, SelfFdDir, SelfFdEntry, FD_COUNT};
use chardev::vfs::{copy_truncated, DirEntry, NodeAttr, NodeKind};

fn blank() -> DirEntry {
    DirEntry { name: "?", kind: NodeKind::CharDevice }
}

fn link(name: &'static str) -> DirEntry {
    DirEntry { name, kind: NodeKind::SymLink }
}

fn read_link(entry: &SelfFdEntry, cap: usize) -> Vec<u8> {
    let mut buf = vec![0xaau8; cap];
    let n = entry.readlink(&mut buf).unwrap();
    buf.truncate(n);
    buf
}

#[test]
fn lookup_finds_the_three_descriptors() {
    let dir = SelfFdDir;
    assert_eq!(dir.lookup("0").unwrap().fd(), 0);
    assert_eq!(dir.lookup("1").unwrap().fd(), 1);
    assert_eq!(dir.lookup("2").unwrap().fd(), 2);
}

#[test]
fn lookup_of_any_other_name_is_not_found() {
    let dir = SelfFdDir;
    for name in [
        "3", "4", "9", "10", "00", "01", "02", "+0", "+1", "-1", "", " 1", "1 ", "a", "fd", "0x1",
        "1.0", "255", "18446744073709551616", "\u{661}", "..", ".", "/",
    ] {
        assert!(matches!(dir.lookup(name), Err(IoError::NotFound)));
    }
}

#[test]
fn found_entries_link_to_the_standard_streams() {
    let dir = SelfFdDir;
    assert_eq!(read_link(&dir.lookup("0").unwrap(), 64), b"/dev/stdin");
    assert_eq!(read_link(&dir.lookup("1").unwrap(), 64), b"/dev/stdout");
    assert_eq!(read_link(&dir.lookup("2").unwrap(), 64), b"/dev/stderr");
}

#[test]
fn descriptor_targets() {
    assert_eq!(fd_target(0), "/dev/stdin");
    assert_eq!(fd_target(1), "/dev/stdout");
    assert_eq!(fd_target(2), "/dev/stderr");
    assert_eq!(fd_target(3), "/dev/null");
    assert_eq!(fd_target(usize::MAX), "/dev/null");
}

#[test]
fn entry_readlink_truncates_silently() {
    let entry = SelfFdDir.lookup("1").unwrap();
    assert_eq!(read_link(&entry, 0), b"");
    assert_eq!(read_link(&entry, 4), b"/dev");
    assert_eq!(read_link(&entry, 10), b"/dev/stdou");
    assert_eq!(read_link(&entry, 11), b"/dev/stdout");
    let mut buf = [0xaau8; 14];
    assert_eq!(entry.readlink(&mut buf), Ok(11));
    assert_eq!(&buf, b"/dev/stdout\xaa\xaa\xaa");
}

#[test]
fn entry_is_a_symlink_with_default_file_permission() {
    let entry = SelfFdDir.lookup("2").unwrap();
    assert!(entry.is_symlink());
    assert_eq!(
        entry.get_attr(),
        Ok(NodeAttr { perm: 0o666, kind: NodeKind::SymLink, size: 0, blocks: 0 })
    );
    assert_eq!(
        entry.get_attr().unwrap().perm,
        axfs_vfs::VfsNodePerm::default_file().bits()
    );
}

#[test]
fn exe_is_a_symlink_with_default_file_permission() {
    assert!(SelfExe.is_symlink());
    assert_eq!(
        SelfExe.get_attr(),
        Ok(NodeAttr { perm: 0o666, kind: NodeKind::SymLink, size: 0, blocks: 0 })
    );
}

#[test]
fn fd_dir_is_a_directory_with_default_dir_permission() {
    assert_eq!(
        SelfFdDir.get_attr(),
        Ok(NodeAttr { perm: 0o755, kind: NodeKind::Dir, size: 0, blocks: 0 })
    );
    assert_eq!(
        SelfFdDir.get_attr().unwrap().perm,
        axfs_vfs::VfsNodePerm::default_dir().bits()
    );
}

#[test]
fn exe_readlink_reflects_the_path_at_call_time() {
    let mut buf = [0u8; 32];
    let n = SelfExe.readlink(b"/bin/busybox", &mut buf).unwrap();
    assert_eq!(n, 12);
    assert_eq!(&buf[..n], b"/bin/busybox");
    let n = SelfExe.readlink(b"/usr/bin/env", &mut buf).unwrap();
    assert_eq!(&buf[..n], b"/usr/bin/env");
    let n = SelfExe.readlink(b"/sh", &mut buf).unwrap();
    assert_eq!(n, 3);
    assert_eq!(&buf[..12], b"/shr/bin/env");
}

#[test]
fn exe_readlink_truncates_silently() {
    let mut buf = [b'.'; 5];
    assert_eq!(SelfExe.readlink(b"/bin/busybox", &mut buf), Ok(5));
    assert_eq!(&buf, b"/bin/");
    let mut none: [u8; 0] = [];
    assert_eq!(SelfExe.readlink(b"/bin/busybox", &mut none), Ok(0));
    let mut buf = [b'.'; 5];
    assert_eq!(SelfExe.readlink(b"", &mut buf), Ok(0));
    assert_eq!(&buf, b".....");
}

#[test]
fn truncated_copy_keeps_the_tail_of_the_buffer() {
    let mut buf = *b"0123456789";
    assert_eq!(copy_truncated(&mut buf, b"abc"), 3);
    assert_eq!(&buf, b"abc3456789");
    assert_eq!(copy_truncated(&mut buf, b"ABCDEFGHIJKLMNOP"), 10);
    assert_eq!(&buf, b"ABCDEFGHIJ");
}

#[test]
fn listing_yields_the_three_entries() {
    assert_eq!(FD_COUNT, 3);
    let mut ents = [blank(); 8];
    assert_eq!(SelfFdDir.read_dir(0, &mut ents), Ok(3));
    assert_eq!(ents[0], link("0"));
    assert_eq!(ents[1], link("1"));
    assert_eq!(ents[2], link("2"));
    for e in &ents[3..] {
        assert_eq!(*e, blank());
    }
}

#[test]
fn listing_is_paginated_from_start_idx() {
    let mut ents = [blank(); 8];
    assert_eq!(SelfFdDir.read_dir(1, &mut ents), Ok(2));
    assert_eq!(ents[0], link("1"));
    assert_eq!(ents[1], link("2"));
    assert_eq!(ents[2], blank());
    let mut ents = [blank(); 8];
    assert_eq!(SelfFdDir.read_dir(2, &mut ents), Ok(1));
    assert_eq!(ents[0], link("2"));
    assert_eq!(ents[1], blank());
    let mut ents = [blank(); 8];
    assert_eq!(SelfFdDir.read_dir(3, &mut ents), Ok(0));
    assert_eq!(SelfFdDir.read_dir(4, &mut ents), Ok(0));
    assert_eq!(SelfFdDir.read_dir(usize::MAX, &mut ents), Ok(0));
    for e in &ents {
        assert_eq!(*e, blank());
    }
}

#[test]
fn listing_fills_no_more_than_the_slots_given() {
    let mut ents = [blank(); 2];
    assert_eq!(SelfFdDir.read_dir(0, &mut ents), Ok(2));
    assert_eq!(ents, [link("0"), link("1")]);
    let mut ents = [blank(); 1];
    assert_eq!(SelfFdDir.read_dir(1, &mut ents), Ok(1));
    assert_eq!(ents, [link("1")]);
    let mut none: [DirEntry; 0] = [];
    assert_eq!(SelfFdDir.read_dir(0, &mut none), Ok(0));
}

#[test]
fn every_listed_name_is_found() {
    let mut ents = [blank(); 3];
    let n = SelfFdDir.read_dir(0, &mut ents).unwrap();
    for (i, e) in ents[..n].iter().enumerate() {
        assert_eq!(SelfFdDir.lookup(e.name).unwrap().fd(), i);
        assert_eq!(e.kind, NodeKind::SymLink);
    }
}
