use server::utils::base64_field::{deserialize, serialize};

#[test]
fn serialize_gives_standard_padded_base64() {
    assert_eq!(serialize(&b"hello".to_vec()), "aGVsbG8=");
    assert_eq!(serialize(&Vec::new()), "");
    assert_eq!(serialize(&vec![0xfb, 0xff]), "+/8=");
    assert_eq!(serialize(&vec![1, 2, 3]), "AQID");
    assert_eq!(serialize(&b"hi".to_vec()), "aGk=");
}

#[test]
fn deserialize_reads_standard_base64() {
    assert_eq!(deserialize("aGVsbG8=").unwrap(), b"hello".to_vec());
    assert_eq!(deserialize("").unwrap(), Vec::<u8>::new());
    assert_eq!(deserialize("+/8=").unwrap(), vec![0xfb, 0xff]);
}

#[test]
fn deserialize_refuses_invalid_text() {
    assert!(deserialize("not base64!").is_err());
    assert!(deserialize("aGVsbG8").is_err());
    assert!(deserialize("-_8=").is_err());
    assert_eq!(deserialize("a").unwrap_err(), "Invalid input length: 1");
    assert_eq!(deserialize("aG!k").unwrap_err(), "Invalid symbol 33, offset 2.");
}

#[test]
fn serialize_then_deserialize_gives_back_the_bytes() {
    for len in 0..70usize {
        let bytes: Vec<u8> = (0..len).map(|i| (i * 37 + 11) as u8).collect();
        let text = serialize(&bytes);
        assert_eq!(deserialize(&text).unwrap(), bytes);
    }
}
