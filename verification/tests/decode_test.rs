use fuse::decode::Request;
use fuse::error::RequestError;

const UNIQUE: u64 = 0xAABBCCDD;

fn message(opcode: u32, nodeid: u64, body: &[u8]) -> Vec<u8> {
    let mut v: Vec<u8> = Vec::new();
    v.extend_from_slice(&((40 + body.len()) as u32).to_le_bytes());
    v.extend_from_slice(&opcode.to_le_bytes());
    v.extend_from_slice(&UNIQUE.to_le_bytes());
    v.extend_from_slice(&nodeid.to_le_bytes());
    v.extend_from_slice(&0u32.to_le_bytes());
    v.extend_from_slice(&0u32.to_le_bytes());
    v.extend_from_slice(&0u32.to_le_bytes());
    v.extend_from_slice(&0u32.to_le_bytes());
    v.extend_from_slice(body);
    v
}

fn le32(v: u32) -> [u8; 4] {
    v.to_le_bytes()
}

fn le64(v: u64) -> [u8; 8] {
    v.to_le_bytes()
}

#[test]
fn request_decoder_new() {
    let buf = message(0, 0, &[1, 2, 3, 4, 5, 6, 7, 8, 9]);
    let request = Request::new(&buf).unwrap();
    let decoder = request.decoder();
    assert_eq!(decoder.consumed(), 40u32);
}

#[test]
fn request_decoder_eof_handling() {
    let buf = message(0, 0, &[10, 20, 30, 40, 50, 60, 70, 80, 90]);
    let request = Request::new(&buf).unwrap();
    let mut decoder = request.decoder();

    // Reading right up to the end of the request is allowed.
    decoder.next_bytes(8).unwrap();
    assert_eq!(decoder.next_bytes(1), Ok(&[90u8] as &[u8]));

    // Reading past it is an error.
    assert_eq!(decoder.next_bytes(1), Err(RequestError::UnexpectedEof));
}

#[test]
fn request_decoder_sized() {
    let buf = message(0, 0, &[1, 2, 3, 4, 5, 6, 7, 8, 9]);
    let request = Request::new(&buf).unwrap();
    let mut decoder = request.decoder();

    let did_read = decoder.next_bytes(4).unwrap();
    assert_eq!(did_read, &[1, 2, 3, 4]);

    let did_read = decoder.next_bytes(4).unwrap();
    assert_eq!(did_read, &[5, 6, 7, 8]);

    assert_eq!(decoder.next_u32(), Err(RequestError::UnexpectedEof));
}

#[test]
fn frame_decoder_bytes() {
    let buf = message(0, 0, &[1, 2, 3, 4, 5, 6, 7, 8, 9]);
    let request = Request::new(&buf).unwrap();
    let mut decoder = request.decoder();

    let did_read = decoder.next_bytes(4).unwrap();
    assert_eq!(did_read, &[1, 2, 3, 4]);

    let did_read = decoder.next_bytes(4).unwrap();
    assert_eq!(did_read, &[5, 6, 7, 8]);

    assert_eq!(decoder.next_bytes(4), Err(RequestError::UnexpectedEof));
}

#[test]
fn request_too_short_is_refused() {
    let buf = [0u8; 39];
    assert_eq!(Request::new(&buf).err(), Some(RequestError::UnexpectedEof));
}

#[test]
fn request_with_id_zero_is_refused() {
    let mut buf = message(0, 0, &[]);
    for b in &mut buf[8..16] {
        *b = 0;
    }
    assert_eq!(Request::new(&buf).err(), Some(RequestError::InvalidRequestId));
}

#[test]
fn request_longer_than_buffer_is_refused() {
    let mut buf = message(0, 0, &[1, 2, 3]);
    buf.truncate(42);
    assert_eq!(Request::new(&buf).err(), Some(RequestError::UnexpectedEof));
}

#[test]
fn decoder_reads_cstr_and_node_name() {
    let buf = message(0, 0, b"abc\x00de/f\x00\x00");
    let request = Request::new(&buf).unwrap();
    let mut decoder = request.decoder();
    assert_eq!(decoder.next_cstr(), Ok(&b"abc"[..]));
    assert_eq!(
        decoder.next_node_name().err(),
        Some(RequestError::NodeNameError(fuse::error::NodeNameError::ContainsSlash))
    );
    // The empty string is refused.
    assert_eq!(decoder.next_cstr(), Err(RequestError::UnexpectedEof));
}
