use iobuffer::IoBuffer;
use std::io::{Read, Write};

#[test]
fn test_simple_buffer_usage() {
    let s1 = "This is some unexciting test data";
    let s2 = "This is some more unexciting test data";

    let mut buf = IoBuffer::new();

    let mut dest = Vec::new();
    let rc = buf.read_to_end(&mut dest).unwrap();
    assert!(rc == 0, "{}", rc);

    buf.write_all(s1.as_bytes()).unwrap();
    buf.write_all(s2.as_bytes()).unwrap();
    buf.flush().unwrap();

    let rc = buf.read_to_end(&mut dest).unwrap();
    assert!(
        rc == s1.len() + s2.len(),
        "{} != {}",
        rc,
        s1.len() + s2.len()
    );
    let s_out = String::from_utf8(dest).unwrap();
    assert!(s_out == (s1.to_string() + s2), "{}", s_out);
}

fn next_full_line(buf: &mut IoBuffer) -> Option<String> {
    buf.read_full_line(b'\n')
        .map(|x| String::from_utf8(x).unwrap())
}

#[test]
fn test_partial_lines() {
    let mut buf = IoBuffer::new();

    assert_eq!(None, next_full_line(&mut buf));

    buf.write_all("abc".as_bytes()).unwrap();
    assert_eq!(None, next_full_line(&mut buf));

    buf.write_all("d\n".as_bytes()).unwrap();
    assert_eq!(Some("abcd".to_string()), next_full_line(&mut buf));
    assert_eq!(None, next_full_line(&mut buf));

    buf.write_all("e\n\nfghi\nj".as_bytes()).unwrap();
    assert_eq!(Some("e".to_string()), next_full_line(&mut buf));
    assert_eq!(Some("".to_string()), next_full_line(&mut buf));
    assert_eq!(Some("fghi".to_string()), next_full_line(&mut buf));
    assert_eq!(None, next_full_line(&mut buf));

    buf.write_all("\n".as_bytes()).unwrap();
    assert_eq!(Some("j".to_string()), next_full_line(&mut buf));
    assert_eq!(None, next_full_line(&mut buf));
    assert_eq!(None, next_full_line(&mut buf));
}

#[test]
fn new_handle_reads_nothing_every_time() {
    let mut buf = IoBuffer::new();
    let mut out = [7u8; 4];
    for _ in 0..3 {
        assert_eq!(buf.read(&mut out).unwrap(), 0);
        assert_eq!(out, [7u8; 4]);
        assert_eq!(buf.read_full_line(b'\n'), None);
    }
}

#[test]
fn default_handle_is_empty() {
    let mut buf = IoBuffer::default();
    let mut dest = Vec::new();
    assert_eq!(buf.read_to_end(&mut dest).unwrap(), 0);
    assert!(dest.is_empty());
}

#[test]
fn write_accepts_every_byte() {
    let mut buf = IoBuffer::new();
    assert_eq!(buf.write(b"hello").unwrap(), 5);
    assert_eq!(buf.write(&[0u8; 1000]).unwrap(), 1000);
    buf.flush().unwrap();
    let mut dest = Vec::new();
    assert_eq!(buf.read_to_end(&mut dest).unwrap(), 1005);
    assert_eq!(&dest[..5], b"hello");
    assert!(dest[5..].iter().all(|b| *b == 0));
}

#[test]
fn zero_length_write_changes_nothing() {
    let mut buf = IoBuffer::new();
    assert_eq!(buf.write(b"").unwrap(), 0);
    let mut out = [0u8; 2];
    assert_eq!(buf.read(&mut out).unwrap(), 0);

    buf.write_all(b"xy").unwrap();
    assert_eq!(buf.write(b"").unwrap(), 0);
    let mut dest = Vec::new();
    assert_eq!(buf.read_to_end(&mut dest).unwrap(), 2);
    assert_eq!(dest, b"xy".to_vec());
}

#[test]
fn read_is_limited_by_the_room_given() {
    let mut buf = IoBuffer::new();
    buf.write_all(b"abcdefg").unwrap();

    let mut out = [0u8; 3];
    assert_eq!(buf.read(&mut out).unwrap(), 3);
    assert_eq!(&out, b"abc");

    let mut none: [u8; 0] = [];
    assert_eq!(buf.read(&mut none).unwrap(), 0);

    let mut wide = [b'.'; 6];
    assert_eq!(buf.read(&mut wide).unwrap(), 4);
    assert_eq!(&wide, b"defg..");

    assert_eq!(buf.read(&mut wide).unwrap(), 0);
    assert_eq!(&wide, b"defg..");
}

#[test]
fn clone_shares_buffer_and_cursor() {
    let mut writer = IoBuffer::new();
    let mut reader = writer.clone();

    writer.write_all(b"one\ntwo").unwrap();
    assert_eq!(reader.read_full_line(b'\n'), Some(b"one".to_vec()));

    // The cursor moved for the first handle too.
    let mut out = [0u8; 8];
    assert_eq!(writer.read(&mut out).unwrap(), 3);
    assert_eq!(&out[..3], b"two");
    assert_eq!(reader.read(&mut out).unwrap(), 0);

    reader.write_all(b"!").unwrap();
    assert_eq!(writer.read(&mut out).unwrap(), 1);
    assert_eq!(out[0], b'!');
}

#[test]
fn clone_outlives_the_first_handle() {
    let mut first = IoBuffer::new();
    first.write_all(b"kept").unwrap();
    let mut second = first.clone();
    drop(first);
    let mut dest = Vec::new();
    assert_eq!(second.read_to_end(&mut dest).unwrap(), 4);
    assert_eq!(dest, b"kept".to_vec());
}

#[test]
fn separate_buffers_do_not_share() {
    let mut a = IoBuffer::new();
    let mut b = IoBuffer::new();
    a.write_all(b"only a\n").unwrap();
    assert_eq!(b.read_full_line(b'\n'), None);
    assert_eq!(a.read_full_line(b'\n'), Some(b"only a".to_vec()));
}

#[test]
fn line_terminator_is_the_callers_choice() {
    let mut buf = IoBuffer::new();
    buf.write_all(b"a,b\nc,").unwrap();
    assert_eq!(buf.read_full_line(b','), Some(b"a".to_vec()));
    assert_eq!(buf.read_full_line(b','), Some(b"b\nc".to_vec()));
    assert_eq!(buf.read_full_line(b','), None);
    assert_eq!(buf.read_full_line(b'\n'), None);
}

#[test]
fn read_and_lines_share_one_cursor() {
    let mut buf = IoBuffer::new();
    buf.write_all(b"head\nbody\ntail").unwrap();
    let mut out = [0u8; 2];
    assert_eq!(buf.read(&mut out).unwrap(), 2);
    assert_eq!(&out, b"he");
    assert_eq!(buf.read_full_line(b'\n'), Some(b"ad".to_vec()));
    assert_eq!(buf.read(&mut out).unwrap(), 2);
    assert_eq!(&out, b"bo");
    assert_eq!(buf.read_full_line(b'\n'), Some(b"dy".to_vec()));
    assert_eq!(buf.read_full_line(b'\n'), None);
    let mut dest = Vec::new();
    assert_eq!(buf.read_to_end(&mut dest).unwrap(), 4);
    assert_eq!(dest, b"tail".to_vec());
}

#[test]
fn lines_yield_complete_lines_then_stop() {
    let mut buf = IoBuffer::new();
    buf.write_all(b"e\n\nfghi\nj").unwrap();
    let mut lines = buf.lines();
    assert_eq!(lines.next(), Some(b"e".to_vec()));
    assert_eq!(lines.next(), Some(Vec::new()));
    assert_eq!(lines.next(), Some(b"fghi".to_vec()));
    assert_eq!(lines.next(), None);
    assert_eq!(lines.next(), None);
}

#[test]
fn lines_see_writes_made_between_requests() {
    let mut buf = IoBuffer::new();
    let mut lines = buf.lines();
    assert_eq!(lines.next(), None);

    buf.write_all(b"abc").unwrap();
    assert_eq!(lines.next(), None);

    buf.write_all(b"d\nrest").unwrap();
    assert_eq!(lines.next(), Some(b"abcd".to_vec()));
    assert_eq!(lines.next(), None);

    // What the lines left is still there for the handle.
    let mut dest = Vec::new();
    assert_eq!(buf.read_to_end(&mut dest).unwrap(), 4);
    assert_eq!(dest, b"rest".to_vec());
}

#[test]
fn lines_split_at_newline_only() {
    assert_eq!(iobuffer::shared::NEWLINE, b'\n');
    let mut buf = IoBuffer::new();
    buf.write_all(b"a\rb\r\nc\0d\n").unwrap();
    let mut lines = buf.lines();
    assert_eq!(lines.next(), Some(b"a\rb\r".to_vec()));
    assert_eq!(lines.next(), Some(b"c\0d".to_vec()));
    assert_eq!(lines.next(), None);
}

fn sendable<T: Send + Sync + 'static>(value: T) -> T {
    value
}

#[test]
fn handles_and_line_readers_can_change_threads() {
    let mut buf = sendable(IoBuffer::new());
    let mut lines = sendable(buf.lines());
    buf.write_all(b"x\n").unwrap();
    assert_eq!(lines.next(), Some(b"x".to_vec()));
}
