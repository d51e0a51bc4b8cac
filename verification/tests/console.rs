use chardev::console::{console_read_bytes, console_write_bytes, RawRead, CR, NL};
use chardev::tty::TtyRaw;

#[test]
fn carriage_return_becomes_newline_on_read() {
    let kernel_buf = *b"ls -l\rpwd\r\n";
    let mut buf = [0u8; 11];
    let n = console_read_bytes(&mut buf, &kernel_buf, 11);
    assert_eq!(n, 11);
    assert_eq!(&buf, b"ls -l\npwd\n\n");
}

#[test]
fn only_the_bytes_read_are_translated() {
    let kernel_buf = [CR, b'a', CR, CR, 0, CR];
    let mut buf = [0xffu8; 6];
    let n = console_read_bytes(&mut buf, &kernel_buf, 3);
    assert_eq!(n, 3);
    assert_eq!(buf, [NL, b'a', NL, CR, 0, CR]);
}

#[test]
fn empty_delivery_copies_the_kernel_buffer() {
    let kernel_buf = [CR, CR];
    let mut buf = [1u8, 2];
    assert_eq!(console_read_bytes(&mut buf, &kernel_buf, 0), 0);
    assert_eq!(buf, [CR, CR]);
    let mut none: [u8; 0] = [];
    assert_eq!(console_read_bytes(&mut none, &[], 0), 0);
}

#[test]
fn other_bytes_pass_the_read_path_unchanged() {
    let mut kernel_buf = [0u8; 256];
    for i in 0..256 {
        kernel_buf[i] = i as u8;
    }
    let mut buf = [0u8; 256];
    assert_eq!(console_read_bytes(&mut buf, &kernel_buf, 256), 256);
    for i in 0..256 {
        let expected = if i == 13 { 10 } else { i as u8 };
        assert_eq!(buf[i], expected);
    }
}

#[test]
fn write_path_preserves_carriage_return() {
    let data = b"line one\r\nline two\r";
    let t = console_write_bytes(data);
    assert_eq!(t.bytes, data);
    assert_eq!(t.written, data.len());
    let t = console_write_bytes(&[]);
    assert_eq!(t.bytes.len(), 0);
    assert_eq!(t.written, 0);
}

#[test]
fn raw_write_and_flush() {
    let raw = TtyRaw;
    let t = raw.write(b"\rabc").unwrap();
    assert_eq!(t.bytes, b"\rabc");
    assert_eq!(t.written, 4);
    assert_eq!(raw.flush(), Ok(()));
}

/// Runs a raw read into a buffer of `buf_len` bytes against a console
/// that delivers `deliveries` one after the other and nothing afterwards.
/// Returns the buffer, the number of bytes read and the number of
/// transport reads made.
fn raw_read(buf_len: usize, deliveries: &[&[u8]]) -> (Vec<u8>, usize, usize) {
    let mut buf = vec![0xeeu8; buf_len];
    let mut state = TtyRaw.read(buf_len);
    let mut fetches = 0;
    loop {
        match state {
            RawRead::Done { read_len } => return (buf, read_len, fetches),
            RawRead::Fetch { buf_len: total, read_len } => {
                assert_eq!(total, buf_len);
                let mut kernel_buf = vec![0u8; buf_len - read_len];
                let data: &[u8] = if fetches < deliveries.len() { deliveries[fetches] } else { &[] };
                kernel_buf[..data.len()].copy_from_slice(data);
                fetches += 1;
                state = state.fetched(&mut buf, &kernel_buf, data.len());
            }
        }
    }
}

#[test]
fn raw_read_into_empty_buffer_is_done() {
    assert_eq!(RawRead::start(0), RawRead::Done { read_len: 0 });
    assert_eq!(TtyRaw.read(0), RawRead::Done { read_len: 0 });
    assert_eq!(raw_read(0, &[b"abc"]), (vec![], 0, 0));
}

#[test]
fn raw_read_stops_on_empty_delivery() {
    let (buf, n, fetches) = raw_read(10, &[b"ab\rc", b"\r"]);
    assert_eq!(n, 5);
    assert_eq!(fetches, 3);
    assert_eq!(&buf[..n], b"ab\nc\n");
    assert_eq!(&buf[n..], [0u8; 5]);
}

#[test]
fn raw_read_steps() {
    let mut buf = [0xeeu8; 10];
    let st = TtyRaw.read(10);
    assert_eq!(st, RawRead::Fetch { buf_len: 10, read_len: 0 });
    let st = st.fetched(&mut buf, b"\rbcd\r\0\0\0\0\0", 4);
    assert_eq!(st, RawRead::Fetch { buf_len: 10, read_len: 4 });
    assert_eq!(&buf, b"\nbcd\r\0\0\0\0\0");
    let st = st.fetched(&mut buf, b"\r\r\0\0\0\0", 1);
    assert_eq!(st, RawRead::Fetch { buf_len: 10, read_len: 5 });
    assert_eq!(&buf, b"\nbcd\n\r\0\0\0\0");
    let st = st.fetched(&mut buf, b"\0\0\0\0\0", 0);
    assert_eq!(st, RawRead::Done { read_len: 5 });
    assert_eq!(&buf, b"\nbcd\n\0\0\0\0\0");
    let st = st.fetched(&mut buf, b"zzzzz", 5);
    assert_eq!(st, RawRead::Done { read_len: 5 });
    assert_eq!(&buf, b"\nbcd\n\0\0\0\0\0");
}

#[test]
fn raw_read_stops_when_buffer_is_full() {
    let (buf, n, fetches) = raw_read(8, &[b"abc", b"de\rgh", b"never"]);
    assert_eq!(n, 8);
    assert_eq!(fetches, 2);
    assert_eq!(&buf[..], b"abcde\ngh");
    let (buf, n, fetches) = raw_read(4, &[b"\r\r\r\r"]);
    assert_eq!((n, fetches), (4, 1));
    assert_eq!(&buf[..], b"\n\n\n\n");
}

#[test]
fn raw_read_of_silent_console_reads_nothing() {
    let (buf, n, fetches) = raw_read(8, &[]);
    assert_eq!((n, fetches), (0, 1));
    assert_eq!(buf, vec![0u8; 8]);
}
