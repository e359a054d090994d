use riff::wire::{decode, encode, DecodeError, WireBuffer, FLAGS_NONE, HEADER_SIZE, MAGIC, VERSION};

#[test]
fn buffer_primitive() {
    let buffer = WireBuffer::new(&42i32);
    assert_eq!(buffer.len(), HEADER_SIZE + 4);

    let decoded: i32 = buffer.decode().unwrap();
    assert_eq!(decoded, 42);
}

#[test]
fn buffer_string() {
    let value = "hello world".to_string();
    let buffer = WireBuffer::new(&value);

    let decoded: String = buffer.decode().unwrap();
    assert_eq!(decoded, value);
}

#[test]
fn buffer_vec() {
    let value = vec![1i32, 2, 3, 4, 5];
    let buffer = WireBuffer::new(&value);

    let decoded: Vec<i32> = buffer.decode().unwrap();
    assert_eq!(decoded, value);
}

#[test]
fn buffer_complex() {
    let value: Vec<Option<String>> = vec![
        Some("hello".to_string()),
        None,
        Some("world".to_string()),
    ];
    let buffer = WireBuffer::new(&value);

    let decoded: Vec<Option<String>> = buffer.decode().unwrap();
    assert_eq!(decoded, value);
}

#[test]
fn buffer_validation() {
    let buffer = WireBuffer::new(&42i32);
    assert!(buffer.validate().is_ok());

    let bad_magic = vec![0, 0, 0, 0, 1, 0, 10, 0, 0, 0];
    assert!(WireBuffer::from_bytes(bad_magic).is_err());

    let bad_version = {
        let mut data = buffer.as_bytes().to_vec();
        data[4] = 99;
        data
    };
    // A buffer can only be built from bytes that pass the header check, so the
    // bad version is rejected when the bytes are taken, and when decoding them.
    assert!(WireBuffer::from_bytes(bad_version.clone()).is_err());
    assert!(decode::<i32>(&bad_version).is_err());
}

#[test]
fn buffer_header_fields() {
    let buffer = WireBuffer::new(&42i32);

    assert_eq!(buffer.version(), VERSION);
    assert_eq!(buffer.flags(), FLAGS_NONE);
    assert_eq!(buffer.total_size() as usize, buffer.len());
}

#[test]
fn encode_decode_helpers() {
    let value = vec!["hello".to_string(), "world".to_string()];
    let bytes = encode(&value);
    let decoded: Vec<String> = decode(&bytes).unwrap();
    assert_eq!(decoded, value);
}

#[test]
fn nested_vec_roundtrip() {
    let value: Vec<Vec<i32>> = vec![
        vec![1, 2, 3],
        vec![4, 5],
        vec![6, 7, 8, 9],
    ];
    let buffer = WireBuffer::new(&value);
    let decoded: Vec<Vec<i32>> = buffer.decode().unwrap();
    assert_eq!(decoded, value);
}

#[test]
fn header_layout_is_exact() {
    let bytes = encode(&7u8);
    let magic = MAGIC.to_le_bytes();
    assert_eq!(bytes, vec![magic[0], magic[1], magic[2], magic[3], VERSION, FLAGS_NONE, 11, 0, 0, 0, 7]);
}

#[test]
fn scalar_encodings_are_little_endian() {
    let buffer = WireBuffer::new(&0x0102_0304u32);
    assert_eq!(buffer.content_bytes(), &[4u8, 3, 2, 1][..]);
    let buffer = WireBuffer::new(&-2i32);
    assert_eq!(buffer.content_bytes(), &[0xfeu8, 0xff, 0xff, 0xff][..]);
    let buffer = WireBuffer::new(&-1i64);
    assert_eq!(buffer.content_bytes(), &[0xffu8; 8][..]);
    let buffer = WireBuffer::new(&0x0102_0304_0506_0708u64);
    assert_eq!(buffer.content_bytes(), &[8u8, 7, 6, 5, 4, 3, 2, 1][..]);
}

#[test]
fn string_encoding_is_length_prefixed_utf8() {
    let buffer = WireBuffer::new(&"hé".to_string());
    assert_eq!(buffer.content_bytes(), &[3u8, 0, 0, 0, b'h', 0xc3, 0xa9][..]);
    let decoded: String = buffer.decode().unwrap();
    assert_eq!(decoded, "hé");
}

#[test]
fn option_and_bool_encodings() {
    let buffer = WireBuffer::new(&Some(true));
    assert_eq!(buffer.content_bytes(), &[1u8, 1][..]);
    let buffer = WireBuffer::new(&None::<bool>);
    assert_eq!(buffer.content_bytes(), &[0u8][..]);
    let decoded: Option<bool> = WireBuffer::new(&Some(false)).decode().unwrap();
    assert_eq!(decoded, Some(false));
}

#[test]
fn too_short_is_buffer_too_small() {
    assert_eq!(WireBuffer::from_bytes(vec![0x52, 0x49]).err(), Some(DecodeError::BufferTooSmall));
    let magic = MAGIC.to_le_bytes();
    assert_eq!(
        WireBuffer::from_bytes(magic.to_vec()).err(),
        Some(DecodeError::BufferTooSmall)
    );
}

#[test]
fn bad_magic_and_version_errors() {
    assert_eq!(
        WireBuffer::from_bytes(vec![0, 0, 0, 0, 1, 0, 10, 0, 0, 0]).err(),
        Some(DecodeError::InvalidMagic)
    );
    let mut data = encode(&1u8);
    data[4] = 99;
    assert_eq!(WireBuffer::from_bytes(data).err(), Some(DecodeError::UnsupportedVersion));
}

#[test]
fn size_mismatch_fails_validation() {
    let mut data = encode(&1u8);
    data.push(0);
    let buffer = WireBuffer::from_bytes(data).unwrap();
    assert_eq!(buffer.validate(), Err(DecodeError::BufferTooSmall));
    assert_eq!(buffer.decode::<u8>(), Err(DecodeError::BufferTooSmall));
    assert_eq!(buffer.total_size(), 11);
    assert_eq!(buffer.len(), 12);
}

#[test]
fn invalid_payloads_are_rejected() {
    let mut data = encode(&true);
    data[10] = 2;
    assert_eq!(decode::<bool>(&data), Err(DecodeError::InvalidTag));

    let mut data = encode(&Some(5u8));
    data[10] = 7;
    assert_eq!(decode::<Option<u8>>(&data), Err(DecodeError::InvalidTag));

    let mut data = encode(&"ab".to_string());
    data[14] = 0xff;
    assert_eq!(decode::<String>(&data), Err(DecodeError::InvalidUtf8));

    let mut data = encode(&vec![1u32, 2]);
    data[10] = 3;
    assert_eq!(decode::<Vec<u32>>(&data), Err(DecodeError::BufferTooSmall));
}

#[test]
fn buffer_accessors() {
    let buffer = WireBuffer::new(&5u8);
    assert!(!buffer.is_empty());
    assert_eq!(buffer.as_ref(), buffer.as_bytes());
    let bytes: Vec<u8> = Vec::from(WireBuffer::new(&5u8));
    assert_eq!(bytes, buffer.into_bytes());
}

#[test]
fn different_values_have_different_frames() {
    assert_ne!(encode(&vec![1u8, 2]), encode(&vec![2u8, 1]));
    assert_ne!(encode(&Some(0u8)), encode(&None::<u8>));
    assert_ne!(encode(&"a".to_string()), encode(&"b".to_string()));
}

#[test]
fn validated_bytes_are_accepted_again() {
    let bytes = encode(&vec![Some(3i64), None]);
    let buffer = WireBuffer::from_bytes(bytes.clone()).unwrap();
    assert!(buffer.validate().is_ok());
    assert_eq!(buffer.as_bytes(), &bytes[..]);
    assert_eq!(buffer.decode::<Vec<Option<i64>>>().unwrap(), vec![Some(3i64), None]);
}

#[test]
fn truncated_frames_are_too_small() {
    let bytes = encode(&"abc".to_string());
    for n in 0..bytes.len() {
        assert_eq!(decode::<String>(&bytes[..n]), Err(DecodeError::BufferTooSmall));
    }
}
