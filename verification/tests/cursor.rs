use libwindi::cursor::{decode, encode};
use libwindi::error::SyncError;

#[test]
fn encode_is_fixed_width_hex() {
    assert_eq!(encode(0), "00000000000000000000000000000000");
    assert_eq!(encode(1), "00000000000000000000000000000001");
    assert_eq!(encode(0xdeadbeef), "000000000000000000000000deadbeef");
    assert_eq!(encode(u128::MAX), "ffffffffffffffffffffffffffffffff");
    assert_eq!(encode(16), "00000000000000000000000000000010");
}

#[test]
fn encode_matches_reference_hex_of_be_bytes() {
    let cases = [
        0u128,
        1,
        2,
        15,
        16,
        255,
        256,
        0x0102030405060708090a0b0c0d0e0f10,
        u128::MAX / 3,
        u128::MAX,
    ];
    for c in cases {
        assert_eq!(encode(c), hex::encode(&c.to_be_bytes()[..]));
    }
}

#[test]
fn round_trip_across_all_widths() {
    assert_eq!(decode(&encode(0)), Ok(0));
    assert_eq!(decode(&encode(u128::MAX)), Ok(u128::MAX));
    let mut c = 1u128;
    loop {
        assert_eq!(decode(&encode(c)), Ok(c));
        match c.checked_mul(31) {
            Some(n) => c = n + 7,
            None => break,
        }
    }
}

#[test]
fn lenient_decode_of_trimmed_encoding() {
    // encode(1) with its fifteen leading zero bytes trimmed
    assert_eq!(decode("01"), Ok(1));
    // partially trimmed forms decode to the same cursor
    assert_eq!(decode("0001"), Ok(1));
    assert_eq!(decode("000001"), Ok(1));
    assert_eq!(decode(&encode(1)), Ok(1));
    assert_eq!(decode("deadbeef"), Ok(0xdeadbeef));
}

#[test]
fn decode_of_empty_input_is_zero() {
    assert_eq!(decode(""), Ok(0));
}

#[test]
fn decode_accepts_upper_case_hex() {
    assert_eq!(decode("DeadBEEF"), Ok(0xdeadbeef));
}

#[test]
fn decode_rejects_more_than_16_bytes() {
    // 17 bytes of zero
    assert_eq!(decode(&"00".repeat(17)), Err(SyncError::MalformedCursor));
    // 18 bytes with a nonzero lead
    assert_eq!(
        decode("010000000000000000000000000000000000"),
        Err(SyncError::MalformedCursor)
    );
}

#[test]
fn decode_rejects_invalid_hex() {
    assert_eq!(decode("zz"), Err(SyncError::MalformedCursor));
    assert_eq!(decode("0g"), Err(SyncError::MalformedCursor));
    // odd-length hex names no whole byte
    assert_eq!(decode("0"), Err(SyncError::MalformedCursor));
    assert_eq!(decode("123"), Err(SyncError::MalformedCursor));
}
