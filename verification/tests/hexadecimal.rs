use sgx_verify::hexadecimal::{decode_hex_array, HexError};

#[test]
fn digits_of_either_case_are_decoded() {
    assert_eq!(decode_hex_array::<5>(b"48656c6c6f"), Ok(*b"Hello"));
    assert_eq!(
        decode_hex_array::<6>(b"00A0655100FF"),
        Ok([0x00, 0xa0, 0x65, 0x51, 0x00, 0xff])
    );
    assert_eq!(
        decode_hex_array::<6>(b"aAbBcCdDeEfF"),
        Ok([0xaa, 0xbb, 0xcc, 0xdd, 0xee, 0xff])
    );
    assert_eq!(decode_hex_array::<5>(b"0123456789"), Ok([0x01, 0x23, 0x45, 0x67, 0x89]));
    assert_eq!(decode_hex_array::<0>(b""), Ok([]));
}

#[test]
fn text_that_is_not_hexadecimal_is_not_decoded() {
    assert_eq!(decode_hex_array::<1>(b"123"), Err(HexError::NotHex));
    assert_eq!(decode_hex_array::<1>(b"0g"), Err(HexError::NotHex));
    assert_eq!(decode_hex_array::<1>(b"G0"), Err(HexError::NotHex));
    assert_eq!(decode_hex_array::<2>(b"0x12"), Err(HexError::NotHex));
    assert_eq!(decode_hex_array::<2>(b" 12 "), Err(HexError::NotHex));
    assert_eq!(decode_hex_array::<1>(b"/0"), Err(HexError::NotHex));
    assert_eq!(decode_hex_array::<1>(b":0"), Err(HexError::NotHex));
    assert_eq!(decode_hex_array::<1>(b"@0"), Err(HexError::NotHex));
    assert_eq!(decode_hex_array::<1>(b"`0"), Err(HexError::NotHex));
    assert_eq!(decode_hex_array::<1>(&[0x31, 0xff]), Err(HexError::NotHex));
}

#[test]
fn processor_family_is_six_bytes() {
    assert_eq!(decode_hex_array::<6>(b"00A065510000"), Ok([0x00, 0xa0, 0x65, 0x51, 0x00, 0x00]));
    assert_eq!(decode_hex_array::<6>(b"00A0655100"), Err(HexError::Length));
    assert_eq!(decode_hex_array::<6>(b"00A06551000000"), Err(HexError::Length));
    assert_eq!(decode_hex_array::<6>(b"00A06551000"), Err(HexError::NotHex));
    assert_eq!(decode_hex_array::<6>(b"00A06551000G"), Err(HexError::NotHex));
}

#[test]
fn arrays_of_every_width_of_the_collateral_are_decoded() {
    assert_eq!(decode_hex_array::<4>(b"FFFFFFFF"), Ok([0xff; 4]));
    assert_eq!(decode_hex_array::<16>(b"11000000000000000000000000000000"), {
        let mut expected = [0u8; 16];
        expected[0] = 0x11;
        Ok(expected)
    });
    let mrsigner = b"8C4F5775D796503E96137F77C68A829A0056AC8DED70140B081B094490C57BFF";
    let decoded = decode_hex_array::<32>(mrsigner).unwrap();
    assert_eq!(decoded[0], 0x8c);
    assert_eq!(decoded[31], 0xff);
    assert_eq!(decode_hex_array::<0>(b"00"), Err(HexError::Length));
}
