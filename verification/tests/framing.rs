use streaming_server::network::frame::{decode_length, encode_frame, encode_length, FrameReader};
use streaming_server::network::payload::frame_payload;
use streaming_server::network::server_connection::ServerConnection;

fn run_reader(stream: &[u8]) -> Vec<Vec<u8>> {
    let mut reader = FrameReader::new();
    let mut pos = 0usize;
    let mut out = Vec::new();
    loop {
        let want = reader.bytes_wanted();
        if stream.len() - pos < want {
            break;
        }
        if let Some(frame) = reader.on_bytes(&stream[pos..pos + want]) {
            out.push(frame.to_vec());
        }
        pos += want;
    }
    out
}

#[test]
fn length_header_is_big_endian() {
    assert_eq!(encode_length(0), [0, 0, 0, 0]);
    assert_eq!(encode_length(5), [0, 0, 0, 5]);
    assert_eq!(encode_length(0x0102_0304), [1, 2, 3, 4]);
    assert_eq!(encode_length(65536), [0, 1, 0, 0]);
}

#[test]
fn length_header_truncates_to_32_bits() {
    let len: u64 = 0x1_0000_0007;
    if let Ok(len) = usize::try_from(len) {
        assert_eq!(encode_length(len), [0, 0, 0, 7]);
    }
}

#[test]
fn length_header_reads_back() {
    assert_eq!(decode_length([0, 0, 0, 0]), 0);
    assert_eq!(decode_length([0, 0, 1, 0]), 256);
    assert_eq!(decode_length([0xff, 0xff, 0xff, 0xff]), 4_294_967_295);
    for n in [0usize, 1, 255, 256, 65535, 1 << 20, 16 * 1024 * 1024] {
        assert_eq!(decode_length(encode_length(n)), n);
    }
}

#[test]
fn frame_is_header_then_payload() {
    assert_eq!(encode_frame(b"abc"), vec![0, 0, 0, 3, b'a', b'b', b'c']);
    assert_eq!(encode_frame(b""), vec![0, 0, 0, 0]);
}

#[test]
fn reader_asks_for_header_then_payload() {
    let mut reader = FrameReader::new();
    assert_eq!(reader.bytes_wanted(), 4);
    assert!(reader.on_bytes(&[0, 0, 0, 2]).is_none());
    assert_eq!(reader, FrameReader::AwaitingPayload { len: 2 });
    assert_eq!(reader.bytes_wanted(), 2);
    let frame = reader.on_bytes(b"hi").expect("payload is delivered");
    assert_eq!(&frame[..], b"hi");
    assert_eq!(reader, FrameReader::AwaitingLength);
}

#[test]
fn reader_delivers_empty_frame() {
    let mut reader = FrameReader::new();
    assert!(reader.on_bytes(&[0, 0, 0, 0]).is_none());
    assert_eq!(reader.bytes_wanted(), 0);
    let frame = reader.on_bytes(&[]).expect("empty payload is delivered");
    assert!(frame.is_empty());
}

#[test]
fn reader_reads_back_written_frames() {
    let payloads: Vec<Vec<u8>> = vec![b"first".to_vec(), Vec::new(), vec![7u8; 300], b"x".to_vec()];
    let mut stream = Vec::new();
    for p in &payloads {
        stream.extend(encode_frame(p));
    }
    assert_eq!(run_reader(&stream), payloads);
}

#[test]
fn reader_drops_incomplete_trailing_frame() {
    let mut stream = encode_frame(b"done");
    stream.extend_from_slice(&[0, 0, 0, 9, 1, 2]);
    assert_eq!(run_reader(&stream), vec![b"done".to_vec()]);
}

#[test]
fn payload_copies_bytes() {
    let data = [9u8, 8, 7, 6];
    let b = frame_payload(&data);
    assert_eq!(&b[..], &data[..]);
    assert!(frame_payload(&[]).is_empty());
}

#[test]
fn sample_bytes_are_copied() {
    let b = ServerConnection::<(), (), (), ()>::frame_bytes(b"sample");
    assert_eq!(&b[..], b"sample");
}
