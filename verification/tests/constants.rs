use chardev::stdio::{STDIN_PERM, STDOUT_PERM};
use chardev::termios::{
    Termios, Winsize, BRKINT, CBAUD_CSIZE_DEFAULT, CREAD, DEFAULT_CFLAG, DEFAULT_COLS,
    DEFAULT_IFLAG, DEFAULT_LFLAG, DEFAULT_OFLAG, DEFAULT_PGID, DEFAULT_ROWS, ECHO, ECHOE, ECHONL,
    HUPCL, ICANON, ICRNL, IEXTEN, IMAXBEL, ISIG, IUTF8, IXANY, IXON, NCCS, ONLCR, OPOST, S_IFCHR,
    TCGETA, TCGETS, TCSETS, TCSETSF, TCSETSW, TIOCGPGRP, TIOCGWINSZ, TIOCSPGRP, TIOCSWINSZ,
};

#[test]
fn flag_bits_match_linux() {
    assert_eq!(BRKINT, linux_raw_sys::general::BRKINT);
    assert_eq!(ICRNL, linux_raw_sys::general::ICRNL);
    assert_eq!(IXON, linux_raw_sys::general::IXON);
    assert_eq!(IXANY, linux_raw_sys::general::IXANY);
    assert_eq!(IMAXBEL, linux_raw_sys::general::IMAXBEL);
    assert_eq!(IUTF8, linux_raw_sys::general::IUTF8);
    assert_eq!(OPOST, linux_raw_sys::general::OPOST);
    assert_eq!(ONLCR, linux_raw_sys::general::ONLCR);
    assert_eq!(CREAD, linux_raw_sys::general::CREAD);
    assert_eq!(HUPCL, linux_raw_sys::general::HUPCL);
    assert_eq!(ISIG, linux_raw_sys::general::ISIG);
    assert_eq!(ICANON, linux_raw_sys::general::ICANON);
    assert_eq!(ECHO, linux_raw_sys::general::ECHO);
    assert_eq!(ECHOE, linux_raw_sys::general::ECHOE);
    assert_eq!(ECHONL, linux_raw_sys::general::ECHONL);
    assert_eq!(IEXTEN, linux_raw_sys::general::IEXTEN);
    assert_eq!(S_IFCHR, linux_raw_sys::general::S_IFCHR);
    assert_eq!(CBAUD_CSIZE_DEFAULT, 0x77);
}

#[test]
fn command_codes_match_linux() {
    assert_eq!(TCGETS, linux_raw_sys::ioctl::TCGETS);
    assert_eq!(TCGETA, linux_raw_sys::ioctl::TCGETA);
    assert_eq!(TCSETS, linux_raw_sys::ioctl::TCSETS);
    assert_eq!(TCSETSW, linux_raw_sys::ioctl::TCSETSW);
    assert_eq!(TCSETSF, linux_raw_sys::ioctl::TCSETSF);
    assert_eq!(TIOCGPGRP, linux_raw_sys::ioctl::TIOCGPGRP);
    assert_eq!(TIOCSPGRP, linux_raw_sys::ioctl::TIOCSPGRP);
    assert_eq!(TIOCGWINSZ, linux_raw_sys::ioctl::TIOCGWINSZ);
    assert_eq!(TIOCSWINSZ, linux_raw_sys::ioctl::TIOCSWINSZ);
}

#[test]
fn default_flag_words_are_the_named_unions() {
    assert_eq!(DEFAULT_IFLAG, IMAXBEL | IUTF8 | IXON | IXANY | ICRNL | BRKINT);
    assert_eq!(DEFAULT_OFLAG, OPOST | ONLCR);
    assert_eq!(DEFAULT_CFLAG, CREAD | HUPCL | 0x77);
    assert_eq!(DEFAULT_LFLAG, ISIG | ICANON | ECHO | ECHOE | ECHONL | IEXTEN);
    assert_eq!(DEFAULT_IFLAG, 0x6d02);
    assert_eq!(DEFAULT_OFLAG, 0x0005);
    assert_eq!(DEFAULT_CFLAG, 0x04f7);
    assert_eq!(DEFAULT_LFLAG, 0x805b);
    assert_eq!(DEFAULT_PGID, 2);
    assert_eq!(DEFAULT_ROWS, 24);
    assert_eq!(DEFAULT_COLS, 140);
}

#[test]
fn records_have_the_linux_layout() {
    let ours = Termios::new();
    let theirs = linux_raw_sys::general::termios {
        c_iflag: ours.c_iflag,
        c_oflag: ours.c_oflag,
        c_cflag: ours.c_cflag,
        c_lflag: ours.c_lflag,
        c_line: ours.c_line,
        c_cc: ours.c_cc,
    };
    assert_eq!(theirs.c_cc.len(), NCCS);
    assert_eq!(
        std::mem::size_of::<Termios>(),
        std::mem::size_of::<linux_raw_sys::general::termios>()
    );
    let w = Winsize::new();
    let theirs = linux_raw_sys::general::winsize {
        ws_row: w.ws_row,
        ws_col: w.ws_col,
        ws_xpixel: w.ws_xpixel,
        ws_ypixel: w.ws_ypixel,
    };
    assert_eq!(theirs.ws_col, 140);
    assert_eq!(
        std::mem::size_of::<Winsize>(),
        std::mem::size_of::<linux_raw_sys::general::winsize>()
    );
}

#[test]
fn default_control_characters_by_slot() {
    let cc = Termios::new().c_cc;
    assert_eq!(cc[linux_raw_sys::general::VINTR as usize], 3);
    assert_eq!(cc[linux_raw_sys::general::VQUIT as usize], 28);
    assert_eq!(cc[linux_raw_sys::general::VERASE as usize], 127);
    assert_eq!(cc[linux_raw_sys::general::VKILL as usize], 21);
    assert_eq!(cc[linux_raw_sys::general::VEOF as usize], 4);
    assert_eq!(cc[linux_raw_sys::general::VTIME as usize], 0);
    assert_eq!(cc[linux_raw_sys::general::VMIN as usize], 1);
    assert_eq!(cc[linux_raw_sys::general::VSWTC as usize], 0);
    assert_eq!(cc[linux_raw_sys::general::VSTART as usize], 17);
    assert_eq!(cc[linux_raw_sys::general::VSTOP as usize], 19);
    assert_eq!(cc[linux_raw_sys::general::VSUSP as usize], 26);
    assert_eq!(cc[linux_raw_sys::general::VEOL as usize], 255);
    assert_eq!(cc[linux_raw_sys::general::VREPRINT as usize], 18);
    assert_eq!(cc[linux_raw_sys::general::VDISCARD as usize], 15);
    assert_eq!(cc[linux_raw_sys::general::VWERASE as usize], 23);
    assert_eq!(cc[linux_raw_sys::general::VLNEXT as usize], 22);
    assert_eq!(cc[linux_raw_sys::general::VEOL2 as usize], 255);
}

#[test]
fn handle_permissions() {
    assert_eq!(STDIN_PERM, 0o444);
    assert_eq!(STDOUT_PERM, 0o220);
}
