use crater_ohos::utils::hex::{decode, encode};
use crater_ohos::utils::size::Size;
use crater_ohos::Error;

#[test]
fn test_encode() {
    assert_eq!(encode(b"hello"), "68656c6c6f");
    assert_eq!(encode(b""), "");
    assert_eq!(encode(&[0xff, 0x00, 0xaa]), "ff00aa");
}

#[test]
fn test_decode() {
    assert_eq!(decode("68656c6c6f").unwrap(), b"hello");
    assert_eq!(decode("").unwrap(), b"");
    assert_eq!(decode("ff00aa").unwrap(), vec![0xff, 0x00, 0xaa]);
}

#[test]
fn test_decode_invalid() {
    assert!(decode("abc").is_err()); // odd length
    assert!(decode("zz").is_err()); // invalid hex
}

#[test]
fn test_size_to_bytes() {
    assert_eq!(Size::Bytes(100).to_bytes(), 100);
    assert_eq!(Size::Kilobytes(2).to_bytes(), 2048);
    assert_eq!(Size::Megabytes(1).to_bytes(), 1048576);
    assert_eq!(Size::Gigabytes(1).to_bytes(), 1073741824);
}

#[test]
fn test_size_from_str() {
    assert_eq!("100".parse::<Size>().unwrap(), Size::Bytes(100));
    assert_eq!("2K".parse::<Size>().unwrap(), Size::Kilobytes(2));
    assert_eq!("2k".parse::<Size>().unwrap(), Size::Kilobytes(2));
    assert_eq!("1M".parse::<Size>().unwrap(), Size::Megabytes(1));
    assert_eq!("1G".parse::<Size>().unwrap(), Size::Gigabytes(1));
}

#[test]
fn hex_round_trip_all_bytes() {
    let data: Vec<u8> = (0..=255u8).collect();
    let text = encode(&data);
    assert_eq!(text.len(), 512);
    assert_eq!(decode(&text).unwrap(), data);
}

#[test]
fn hex_decode_mixed_case_and_sign() {
    assert_eq!(decode("Ff0A").unwrap(), vec![0xff, 0x0a]);
    assert_eq!(decode("+f").unwrap(), vec![0x0f]);
    assert_eq!(decode("f+"), Err(Error::BadRequest));
    assert_eq!(decode("é"), Err(Error::BadRequest));
}

#[test]
fn size_round_trip() {
    for size in [Size::Bytes(0), Size::Kilobytes(7), Size::Megabytes(u64::MAX), Size::Gigabytes(12)] {
        assert_eq!(Size::from_str(&size.to_string()), Ok(size));
    }
    assert_eq!(Size::Megabytes(512).to_string(), "512M");
}

#[test]
fn size_parse_edges() {
    assert_eq!(Size::from_str(""), Err(Error::BadRequest));
    assert_eq!(Size::from_str("   "), Err(Error::BadRequest));
    assert_eq!(Size::from_str(" 3g \n"), Ok(Size::Gigabytes(3)));
    assert_eq!(Size::from_str("+5b"), Ok(Size::Bytes(5)));
    assert_eq!(Size::from_str("K"), Err(Error::BadRequest));
    assert_eq!(Size::from_str("1T"), Err(Error::BadRequest));
    assert_eq!(Size::from_str("18446744073709551616"), Err(Error::BadRequest));
    assert_eq!(Size::from_str("18446744073709551615"), Ok(Size::Bytes(u64::MAX)));
    assert_eq!(Size::Gigabytes(u64::MAX).checked_to_bytes(), None);
    assert_eq!(Size::Kilobytes(3).checked_to_bytes(), Some(3072));
}
