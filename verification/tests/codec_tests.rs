use fibonacci_script::codec::{
    decode_public_values, encode, encode_program_output, encode_public_values,
};
use fibonacci_script::errors::RunError;
use fibonacci_script::fibonacci;

fn expected_record(n: u32, a: u32, b: u32) -> Vec<u8> {
    let mut out = Vec::new();
    for x in [n, a, b] {
        out.extend_from_slice(&[0u8; 28]);
        out.extend_from_slice(&x.to_be_bytes());
    }
    out
}

#[test]
fn input_encoding_is_lossless() {
    for n in [0u32, 1, 10, 20, u32::MAX] {
        assert_eq!(encode(n).n, n);
    }
}

#[test]
fn encode_matches_fixed_layout() {
    assert_eq!(encode_public_values(10, 55, 89), expected_record(10, 55, 89));
    assert_eq!(
        encode_public_values(0x01020304, 0, u32::MAX),
        expected_record(0x01020304, 0, u32::MAX)
    );
}

#[test]
fn round_trip_reproduces_reference_values() {
    for n in [0u32, 1, 10, 20, 47, u32::MAX] {
        let (a, b) = fibonacci(n);
        let bytes = encode_program_output(n);
        let decoded = decode_public_values(&bytes).unwrap();
        assert_eq!(decoded.n, n);
        assert_eq!(decoded.a, a);
        assert_eq!(decoded.b, b);
    }
}

#[test]
fn decode_rejects_wrong_length() {
    assert_eq!(decode_public_values(&vec![]), Err(RunError::Decode));
    assert_eq!(decode_public_values(&vec![0u8; 95]), Err(RunError::Decode));
    assert_eq!(decode_public_values(&vec![0u8; 97]), Err(RunError::Decode));
}

#[test]
fn decode_rejects_nonzero_padding() {
    for bad_index in [0usize, 27, 32, 64, 91] {
        let mut bytes = encode_public_values(10, 55, 89);
        bytes[bad_index] = 1;
        assert_eq!(decode_public_values(&bytes), Err(RunError::Decode));
    }
}

#[test]
fn decode_reads_big_endian_words() {
    let bytes = expected_record(0xDEADBEEF, 7, 0x00010000);
    let decoded = decode_public_values(&bytes).unwrap();
    assert_eq!(decoded.n, 0xDEADBEEF);
    assert_eq!(decoded.a, 7);
    assert_eq!(decoded.b, 0x00010000);
}
