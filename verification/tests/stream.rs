//! Tests for the byte source and the stream adapter's callback surface.

use jpegxr::error::WMP_ERR_FILE_IO;
use jpegxr::error::WMP_ERR_SUCCESS;
use jpegxr::ByteSource;
use jpegxr::InputStream;

#[test]
fn exact_read_advances_by_exactly_k() {
    let data: Vec<u8> = (0u8..10).collect();
    let mut stream = InputStream::new(ByteSource::new(data));
    let mut buf = vec![0u8; 4];
    assert_eq!(stream.input_stream_read(&mut buf), WMP_ERR_SUCCESS);
    assert_eq!(buf, vec![0, 1, 2, 3]);
    assert_eq!(stream.input_stream_get_pos(), (WMP_ERR_SUCCESS, 4));
    let mut rest = vec![0u8; 6];
    assert_eq!(stream.input_stream_read(&mut rest), WMP_ERR_SUCCESS);
    assert_eq!(rest, vec![4, 5, 6, 7, 8, 9]);
    assert_eq!(stream.input_stream_get_pos(), (WMP_ERR_SUCCESS, 10));
}

#[test]
fn over_read_fails_as_file_io_and_leaves_state() {
    let data: Vec<u8> = (0u8..10).collect();
    let mut stream = InputStream::new(ByteSource::new(data));
    assert_eq!(stream.input_stream_set_pos(7), WMP_ERR_SUCCESS);
    let mut buf = vec![9u8; 4];
    // Only 3 bytes remain: never a partial success.
    assert_eq!(stream.input_stream_read(&mut buf), WMP_ERR_FILE_IO);
    assert_eq!(buf, vec![9, 9, 9, 9]);
    assert_eq!(stream.input_stream_get_pos(), (WMP_ERR_SUCCESS, 7));
    // The adapter is still usable at a well-defined position.
    let mut tail = vec![0u8; 3];
    assert_eq!(stream.input_stream_read(&mut tail), WMP_ERR_SUCCESS);
    assert_eq!(tail, vec![7, 8, 9]);
}

#[test]
fn empty_read_always_succeeds() {
    let mut stream = InputStream::new(ByteSource::new(vec![]));
    let mut buf: Vec<u8> = vec![];
    assert_eq!(stream.input_stream_read(&mut buf), WMP_ERR_SUCCESS);
    let mut one = vec![0u8; 1];
    assert_eq!(stream.input_stream_read(&mut one), WMP_ERR_FILE_IO);
}

#[test]
fn seek_then_report_round_trips() {
    let mut stream = InputStream::new(ByteSource::new(vec![0u8; 32]));
    for p in [0usize, 1, 16, 31, 32, 1000] {
        assert_eq!(stream.input_stream_set_pos(p), WMP_ERR_SUCCESS);
        assert_eq!(stream.input_stream_get_pos(), (WMP_ERR_SUCCESS, p));
    }
}

#[test]
fn write_always_fails() {
    let mut stream = InputStream::new(ByteSource::new(vec![1, 2, 3]));
    let src = vec![7u8, 8];
    assert_eq!(stream.input_stream_write(&src), WMP_ERR_FILE_IO);
    // And the source is untouched.
    let mut buf = vec![0u8; 3];
    assert_eq!(stream.input_stream_read(&mut buf), WMP_ERR_SUCCESS);
    assert_eq!(buf, vec![1, 2, 3]);
}

#[test]
fn close_is_an_acknowledged_no_op() {
    let mut stream = InputStream::new(ByteSource::new(vec![5, 6]));
    assert_eq!(stream.input_stream_close(), WMP_ERR_SUCCESS);
    // The source survives the close acknowledgment.
    let mut buf = vec![0u8; 2];
    assert_eq!(stream.input_stream_read(&mut buf), WMP_ERR_SUCCESS);
    assert_eq!(buf, vec![5, 6]);
}

#[test]
fn adapter_returns_its_source() {
    let data = vec![3u8, 1, 4, 1, 5];
    let stream = InputStream::new(ByteSource::new(data.clone()));
    let source = stream.into_reader();
    assert_eq!(source.len(), 5);
    assert_eq!(source.into_inner(), data);
}

#[test]
fn source_read_exact_interface() {
    let mut source = ByteSource::new(vec![10, 20, 30]);
    source.seek(1);
    assert_eq!(source.stream_position(), 1);
    let mut buf = vec![0u8; 2];
    assert!(source.read_exact(&mut buf));
    assert_eq!(buf, vec![20, 30]);
    assert_eq!(source.stream_position(), 3);
    let mut more = vec![0u8; 1];
    assert!(!source.read_exact(&mut more));
    assert_eq!(source.stream_position(), 3);
}
