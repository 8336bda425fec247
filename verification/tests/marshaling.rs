// Marshaling of arguments across the boundary: NUL-terminated string
// buffers, interleaved codec parameters, and status-code translation.

use cvbind::error::{result_of_code, STS_BAD_ARG, STS_ERROR, STS_OK};
use cvbind::marshal::{c_string_bytes, decode_params, encode_params};

#[test]
fn plain_string_gains_exactly_one_terminator() {
    let out = c_string_bytes(b"main1").unwrap();
    assert_eq!(out, vec![b'm', b'a', b'i', b'n', b'1', 0]);
}

#[test]
fn empty_string_becomes_lone_terminator() {
    let out = c_string_bytes(b"").unwrap();
    assert_eq!(out, vec![0]);
}

#[test]
fn interior_nul_is_rejected_as_bad_argument() {
    let err = c_string_bytes(b"ab\0cd").unwrap_err();
    assert_eq!(err.code, STS_BAD_ARG);
    let err = c_string_bytes(b"\0").unwrap_err();
    assert_eq!(err.code, STS_BAD_ARG);
}

#[test]
fn params_interleave_identifier_then_value() {
    let pairs = vec![(1, 95), (16, 9), (64, 100)];
    let flat = encode_params(&pairs);
    assert_eq!(flat, vec![1, 95, 16, 9, 64, 100]);
}

#[test]
fn no_params_encode_to_empty_array() {
    let flat = encode_params(&Vec::new());
    assert_eq!(flat, Vec::<i32>::new());
}

#[test]
fn params_round_trip_through_the_flat_layout() {
    let pairs = vec![(1, 95), (17, 3), (18, 0)];
    let flat = encode_params(&pairs);
    assert_eq!(decode_params(&flat), Some(pairs));
}

#[test]
fn odd_length_param_array_is_malformed() {
    assert_eq!(decode_params(&vec![1, 95, 16]), None);
    assert_eq!(decode_params(&vec![7]), None);
}

#[test]
fn success_code_becomes_ok() {
    assert!(result_of_code(STS_OK, String::new()).is_ok());
}

#[test]
fn failure_codes_keep_code_and_message() {
    let e = result_of_code(STS_ERROR, String::from("native failure")).unwrap_err();
    assert_eq!(e.code, STS_ERROR);
    assert_eq!(e.message, "native failure");
    let e = result_of_code(STS_BAD_ARG, String::from("bad arg")).unwrap_err();
    assert_eq!(e.code, STS_BAD_ARG);
}
