use chardev::blocking::BlockedRead;
use chardev::error::IoError;
use chardev::termios::{Termios, TCGETS, TIOCGPGRP, TIOCSPGRP};
use chardev::tty::{PollState, PollStep, Role, Tty};
use chardev::tty_state::IoctlArg;
use chardev::vfs::{NodeAttr, NodeKind};

const ROLES: [Role; 4] = [Role::Stdin, Role::Stdout, Role::Stderr, Role::GenericTty];

#[test]
fn new_tty_is_generic_and_initial() {
    let tty = Tty::new();
    assert_eq!(tty.role(), Role::GenericTty);
    assert_eq!(tty.state().termios(), Termios::new());
    assert_eq!(tty.state().pgid(), 2);
    let tty = Tty::default();
    assert_eq!(tty.role(), Role::GenericTty);
    for role in ROLES {
        let tty = Tty::with_role(role);
        assert_eq!(tty.role(), role);
        assert_eq!(tty.state().winsize().ws_col, 140);
    }
}

#[test]
fn role_directions() {
    assert!(Role::Stdin.can_read());
    assert!(!Role::Stdin.can_write());
    assert!(!Role::Stdout.can_read());
    assert!(Role::Stdout.can_write());
    assert!(!Role::Stderr.can_read());
    assert!(Role::Stderr.can_write());
    assert!(Role::GenericTty.can_read());
    assert!(Role::GenericTty.can_write());
}

#[test]
fn write_to_stdin_node_is_denied() {
    let tty = Tty::with_role(Role::Stdin);
    assert!(matches!(tty.write_at(0, b"x"), Err(IoError::PermissionDenied)));
    assert!(matches!(tty.write_at(99, b""), Err(IoError::PermissionDenied)));
}

#[test]
fn read_from_output_node_is_denied() {
    for role in [Role::Stdout, Role::Stderr] {
        let tty = Tty::with_role(role);
        assert_eq!(tty.read_at(0, 16), Err(IoError::PermissionDenied));
        assert_eq!(tty.read_at(0, 0), Err(IoError::PermissionDenied));
    }
}

#[test]
fn read_begins_a_blocked_read() {
    for role in [Role::Stdin, Role::GenericTty] {
        let tty = Tty::with_role(role);
        assert_eq!(tty.read_at(0, 16), Ok(BlockedRead::First));
        assert_eq!(tty.read_at(12345, 16), Ok(BlockedRead::First));
        assert_eq!(tty.read_at(0, 0), Ok(BlockedRead::Done(0)));
        assert_eq!(tty.read_blocked(1), BlockedRead::First);
    }
}

#[test]
fn write_hands_bytes_on_unchanged() {
    for role in [Role::Stdout, Role::Stderr, Role::GenericTty] {
        let tty = Tty::with_role(role);
        let t = tty.write_at(7, b"a\rb\n").unwrap();
        assert_eq!(t.bytes, b"a\rb\n");
        assert_eq!(t.written, 4);
    }
}

#[test]
fn tty_is_a_character_device_open_to_all() {
    for role in ROLES {
        let attr = Tty::with_role(role).get_attr().unwrap();
        assert_eq!(
            attr,
            NodeAttr { perm: 0o777, kind: NodeKind::CharDevice, size: 0, blocks: 0 }
        );
    }
}

#[test]
fn node_attr_keeps_permission_bits_only() {
    assert_eq!(NodeAttr::new(0o7777, NodeKind::Dir, 1, 2).perm, 0o777);
    assert_eq!(NodeAttr::new(0xffff, NodeKind::Dir, 1, 2).perm, 0o777);
    assert_eq!(NodeAttr::new(0o100644, NodeKind::SymLink, 1, 2).perm, 0o644);
    let attr = NodeAttr::new(0o1000, NodeKind::CharDevice, 5, 6);
    assert_eq!(attr, NodeAttr { perm: 0, kind: NodeKind::CharDevice, size: 5, blocks: 6 });
}

#[test]
fn poll_with_buffered_data_is_readable() {
    let tty = Tty::new();
    assert_eq!(
        tty.poll(3),
        Ok(PollStep::Ready(PollState { readable: true, writable: true }))
    );
    let tty = Tty::with_role(Role::Stdin);
    assert_eq!(
        tty.poll(1),
        Ok(PollStep::Ready(PollState { readable: true, writable: false }))
    );
}

#[test]
fn poll_without_buffered_data_asks_for_a_fill() {
    let tty = Tty::new();
    assert_eq!(tty.poll(0), Ok(PollStep::Fill));
    assert_eq!(tty.poll_filled(1), Ok(PollState { readable: true, writable: true }));
    assert_eq!(tty.poll_filled(0), Ok(PollState { readable: false, writable: true }));
    let tty = Tty::with_role(Role::Stdin);
    assert_eq!(tty.poll(0), Ok(PollStep::Fill));
    assert_eq!(tty.poll_filled(7), Ok(PollState { readable: true, writable: false }));
    assert_eq!(tty.poll_filled(0), Ok(PollState { readable: false, writable: false }));
}

#[test]
fn poll_of_output_node_is_writable_and_never_readable() {
    for role in [Role::Stdout, Role::Stderr] {
        let tty = Tty::with_role(role);
        let ready = PollState { readable: false, writable: true };
        assert_eq!(tty.poll(0), Ok(PollStep::Ready(ready)));
        assert_eq!(tty.poll(5), Ok(PollStep::Ready(ready)));
        assert_eq!(tty.poll_filled(5), Ok(ready));
    }
}

#[test]
fn node_with_output_side_is_always_writable() {
    for role in [Role::Stdout, Role::Stderr, Role::GenericTty] {
        let tty = Tty::with_role(role);
        for buffered in [0usize, 1, 1024] {
            match tty.poll(buffered).unwrap() {
                PollStep::Ready(state) => assert!(state.writable),
                PollStep::Fill => {
                    assert!(tty.poll_filled(0).unwrap().writable);
                    assert!(tty.poll_filled(9).unwrap().writable);
                }
            }
        }
    }
}

#[test]
fn node_ioctl_reaches_the_state() {
    let mut tty = Tty::with_role(Role::Stdout);
    assert_eq!(tty.ioctl(TIOCSPGRP as usize, &mut IoctlArg::Pgid(31)), Ok(0));
    let mut out = IoctlArg::Pgid(0);
    assert_eq!(tty.ioctl(TIOCGPGRP as usize, &mut out), Ok(0));
    assert_eq!(out, IoctlArg::Pgid(31));
    assert_eq!(tty.state().pgid(), 31);
    assert_eq!(tty.role(), Role::Stdout);
    assert_eq!(tty.ioctl(0x1234, &mut out), Err(IoError::Unsupported));
    assert_eq!(tty.ioctl(TIOCGPGRP as usize, &mut IoctlArg::Null), Err(IoError::InvalidInput));
}

#[test]
fn node_ioctl_uses_low_32_bits_of_the_code() {
    let mut tty = Tty::new();
    let wide = (7usize << 32) | TCGETS as usize;
    let mut out = IoctlArg::Termios(Termios {
        c_iflag: 0,
        c_oflag: 0,
        c_cflag: 0,
        c_lflag: 0,
        c_line: 0,
        c_cc: [0; 19],
    });
    assert_eq!(tty.ioctl(wide, &mut out), Ok(0));
    assert_eq!(out, IoctlArg::Termios(Termios::new()));
}

#[test]
fn node_attr_permission_agrees_with_the_vfs() {
    for mode in 0..=u16::MAX {
        let attr = NodeAttr::new(mode, NodeKind::CharDevice, 0, 0);
        assert_eq!(attr.perm, mode & 0o777);
        assert_eq!(attr.perm, axfs_vfs::VfsNodePerm::from_bits_truncate(mode).bits());
    }
}
