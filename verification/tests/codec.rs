use engram::codec::{decode, encode, SelectResult};

fn sample() -> SelectResult {
    SelectResult { row_count: 2, columns: vec![vec![0xaa], vec![0xbb, 0xcc]] }
}

#[test]
fn encoding_is_the_documented_byte_layout() {
    let bytes = encode(&sample());
    let expected: Vec<u8> = vec![
        0, 0, 0, 2, // row count
        0, 0, 0, 2, // column count
        0, 0, 0, 1, 0xaa, // first column, length-prefixed
        0, 0, 0, 2, 0xbb, 0xcc, // second column, length-prefixed
    ];
    assert_eq!(bytes, expected);
}

#[test]
fn decode_inverts_encode() {
    let s = sample();
    let bytes = encode(&s);
    assert_eq!(decode(&bytes), Some(s));
}

#[test]
fn an_empty_result_round_trips() {
    let s = SelectResult { row_count: 0, columns: Vec::new() };
    let bytes = encode(&s);
    assert_eq!(bytes, vec![0u8; 8]);
    assert_eq!(decode(&bytes), Some(s));
}

#[test]
fn large_row_count_round_trips_through_big_endian_bytes() {
    let s = SelectResult { row_count: 0x01020304, columns: vec![Vec::new()] };
    let bytes = encode(&s);
    assert_eq!(&bytes[0..4], &[1u8, 2, 3, 4]);
    assert_eq!(decode(&bytes), Some(s));
}

#[test]
fn truncated_bytes_do_not_decode() {
    let bytes = encode(&sample());
    let shorter = bytes[..bytes.len() - 1].to_vec();
    assert_eq!(decode(&shorter), None);
    assert_eq!(decode(&Vec::new()), None);
    assert_eq!(decode(&vec![0u8; 7]), None);
}

#[test]
fn trailing_bytes_do_not_decode() {
    let mut bytes = encode(&sample());
    bytes.push(0);
    assert_eq!(decode(&bytes), None);
}

#[test]
fn a_length_prefix_past_the_end_does_not_decode() {
    // One column whose length prefix promises far more than is there.
    let bytes: Vec<u8> = vec![0, 0, 0, 1, 0, 0, 0, 1, 0xff, 0xff, 0xff, 0xff, 0x01];
    assert_eq!(decode(&bytes), None);
}

#[test]
fn a_wrong_column_count_does_not_decode() {
    let mut bytes = encode(&sample());
    bytes[7] = 3; // promises a third column that is not there
    assert_eq!(decode(&bytes), None);
}
