use voxel_engine::wasi::{environ_sizes_get, random_get, sched_yield, stream_log_level, ConsoleBuffer};
use voxel_engine::LogLevel;

#[test]
fn console_lines_span_writes() {
    let mut console = ConsoleBuffer::new();
    let (lines, written) = console.write(&vec![b"abc\ndef".to_vec()]);
    assert_eq!(lines, vec![b"abc".to_vec()]);
    assert_eq!(written, 7);
    let (lines, written) = console.write(&vec![b"ghi\n".to_vec()]);
    assert_eq!(lines, vec![b"defghi".to_vec()]);
    assert_eq!(written, 4);
}

#[test]
fn console_joins_buffers_of_one_write() {
    let mut console = ConsoleBuffer::new();
    let bufs = vec![b"".to_vec(), b"he".to_vec(), b"llo\n\nwor".to_vec(), b"".to_vec(), b"ld\nx".to_vec()];
    let (lines, written) = console.write(&bufs);
    assert_eq!(lines, vec![b"hello".to_vec(), b"".to_vec(), b"world".to_vec()]);
    assert_eq!(written, 14);
    let (lines, written) = console.write(&vec![]);
    assert!(lines.is_empty());
    assert_eq!(written, 0);
    let (lines, _) = console.write(&vec![b"\n".to_vec()]);
    assert_eq!(lines, vec![b"x".to_vec()]);
}

#[test]
fn streams_map_to_levels() {
    assert_eq!(stream_log_level(1), Some(LogLevel::Info));
    assert_eq!(stream_log_level(2), Some(LogLevel::Error));
    assert_eq!(stream_log_level(0), None);
    assert_eq!(stream_log_level(3), None);
}

#[test]
fn stub_calls_succeed() {
    assert_eq!(sched_yield(), 0);
    assert_eq!(environ_sizes_get(), (0, 0));
    let mut buf = vec![1u8, 2, 3, 4];
    assert_eq!(random_get(&mut buf), 0);
    assert_eq!(buf, vec![0u8; 4]);
}
