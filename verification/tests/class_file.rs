use classfile::{decode, magic_ident, parse_classfile, parse_pool, ClassFile, ConstEntry, DecodeError};

/// A small compiled class: three constant fields, a constructor and one
/// static method. The constant pool declares size 25 and ends at offset 219;
/// `interfaces_count` ends at offset 227; fields, methods and attributes follow.
fn simple_math_class() -> Vec<u8> {
    vec![
        0xCA, 0xFE, 0xBA, 0xBE, 0x00, 0x00, 0x00, 0x34, 0x00, 0x19, 0x0A, 0x00,
        0x03, 0x00, 0x16, 0x07, 0x00, 0x17, 0x07, 0x00, 0x18, 0x01, 0x00, 0x03,
        0x42, 0x49, 0x47, 0x01, 0x00, 0x01, 0x49, 0x01, 0x00, 0x0D, 0x43, 0x6F,
        0x6E, 0x73, 0x74, 0x61, 0x6E, 0x74, 0x56, 0x61, 0x6C, 0x75, 0x65, 0x03,
        0x00, 0x01, 0x86, 0xA0, 0x01, 0x00, 0x02, 0x50, 0x49, 0x01, 0x00, 0x01,
        0x46, 0x04, 0x40, 0x49, 0x0F, 0xD0, 0x01, 0x00, 0x04, 0x4E, 0x41, 0x4D,
        0x45, 0x01, 0x00, 0x12, 0x4C, 0x6A, 0x61, 0x76, 0x61, 0x2F, 0x6C, 0x61,
        0x6E, 0x67, 0x2F, 0x53, 0x74, 0x72, 0x69, 0x6E, 0x67, 0x3B, 0x08, 0x00,
        0x17, 0x01, 0x00, 0x06, 0x3C, 0x69, 0x6E, 0x69, 0x74, 0x3E, 0x01, 0x00,
        0x03, 0x28, 0x29, 0x56, 0x01, 0x00, 0x04, 0x43, 0x6F, 0x64, 0x65, 0x01,
        0x00, 0x0F, 0x4C, 0x69, 0x6E, 0x65, 0x4E, 0x75, 0x6D, 0x62, 0x65, 0x72,
        0x54, 0x61, 0x62, 0x6C, 0x65, 0x01, 0x00, 0x03, 0x61, 0x64, 0x64, 0x01,
        0x00, 0x05, 0x28, 0x49, 0x49, 0x29, 0x49, 0x01, 0x00, 0x0A, 0x53, 0x6F,
        0x75, 0x72, 0x63, 0x65, 0x46, 0x69, 0x6C, 0x65, 0x01, 0x00, 0x0F, 0x53,
        0x69, 0x6D, 0x70, 0x6C, 0x65, 0x4D, 0x61, 0x74, 0x68, 0x2E, 0x6A, 0x61,
        0x76, 0x61, 0x0C, 0x00, 0x0E, 0x00, 0x0F, 0x01, 0x00, 0x0A, 0x53, 0x69,
        0x6D, 0x70, 0x6C, 0x65, 0x4D, 0x61, 0x74, 0x68, 0x01, 0x00, 0x10, 0x6A,
        0x61, 0x76, 0x61, 0x2F, 0x6C, 0x61, 0x6E, 0x67, 0x2F, 0x4F, 0x62, 0x6A,
        0x65, 0x63, 0x74, 0x00, 0x21, 0x00, 0x02, 0x00, 0x03, 0x00, 0x00, 0x00,
        0x03, 0x00, 0x18, 0x00, 0x04, 0x00, 0x05, 0x00, 0x01, 0x00, 0x06, 0x00,
        0x00, 0x00, 0x02, 0x00, 0x07, 0x00, 0x18, 0x00, 0x08, 0x00, 0x09, 0x00,
        0x01, 0x00, 0x06, 0x00, 0x00, 0x00, 0x02, 0x00, 0x0A, 0x00, 0x18, 0x00,
        0x0B, 0x00, 0x0C, 0x00, 0x01, 0x00, 0x06, 0x00, 0x00, 0x00, 0x02, 0x00,
        0x0D, 0x00, 0x02, 0x00, 0x01, 0x00, 0x0E, 0x00, 0x0F, 0x00, 0x01, 0x00,
        0x10, 0x00, 0x00, 0x00, 0x1D, 0x00, 0x01, 0x00, 0x01, 0x00, 0x00, 0x00,
        0x05, 0x2A, 0xB7, 0x00, 0x01, 0xB1, 0x00, 0x00, 0x00, 0x01, 0x00, 0x11,
        0x00, 0x00, 0x00, 0x06, 0x00, 0x01, 0x00, 0x00, 0x00, 0x01, 0x00, 0x09,
        0x00, 0x12, 0x00, 0x13, 0x00, 0x01, 0x00, 0x10, 0x00, 0x00, 0x00, 0x1C,
        0x00, 0x02, 0x00, 0x02, 0x00, 0x00, 0x00, 0x04, 0x1A, 0x1B, 0x60, 0xAC,
        0x00, 0x00, 0x00, 0x01, 0x00, 0x11, 0x00, 0x00, 0x00, 0x06, 0x00, 0x01,
        0x00, 0x00, 0x00, 0x06, 0x00, 0x01, 0x00, 0x14, 0x00, 0x00, 0x00, 0x02,
        0x00, 0x15,
    ]
}

const POOL_END: usize = 219;
const HEAD_END: usize = 227;

/// The class above with the tag of its seventh entry changed from 3 to 5,
/// a wide numeric kind that is not supported.
fn malformed_class() -> Vec<u8> {
    let mut bytes = simple_math_class();
    assert_eq!(bytes[47], 3);
    bytes[47] = 5;
    bytes
}

/// Marker, versions 3 and 45, an empty pool, then the four scalar fields.
fn minimal_class() -> Vec<u8> {
    vec![
        0xCA, 0xFE, 0xBA, 0xBE, 0x00, 0x03, 0x00, 0x2D, 0x00, 0x01, 0x00, 0x21, 0x00, 0x02, 0x00,
        0x03, 0x00, 0x04,
    ]
}

#[test]
fn test_valid_class() {
    let valid_class = simple_math_class();
    let res = parse_classfile(&valid_class);
    match res {
        Ok((_, c)) => {
            println!("Valid class file, version {},{} const_pool({}), this=const[{}], super=const[{}], interfaces({})", c.major_version, c.minor_version, c.const_pool_size, c.this_class, c.super_class, c.interfaces_count);
            println!("Constant pool:");
            let mut const_index = 1;
            for f in &c.const_pool {
                println!("\t[{}] = {}", const_index, f.to_string());
                const_index += 1;
            }
            assert_eq!(c.const_pool.len(), c.const_pool_size as usize - 1);
        },
        _ => panic!("Not a class file"),
    };
}

#[test]
fn test_malformed_class() {
    let malformed_class = malformed_class();
    let res = parse_classfile(&malformed_class);
    match res {
        Ok((_, _)) => panic!("The file is not valid and shouldn't be parsed"),
        _ => res,
    };
}

#[test]
fn malformed_class_reports_the_unsupported_tag() {
    assert_eq!(decode(&malformed_class()), Err(DecodeError::UnrecognizedTag));
}

#[test]
fn valid_class_fields_are_decoded() {
    let bytes = simple_math_class();
    let (rest, c) = parse_classfile(&bytes).unwrap();
    assert_eq!(c.minor_version, 0);
    assert_eq!(c.major_version, 52);
    assert_eq!(c.const_pool_size, 25);
    assert_eq!(c.const_pool.len(), 24);
    assert_eq!(c.access_flags, 0x0021);
    assert_eq!(c.this_class, 2);
    assert_eq!(c.super_class, 3);
    assert_eq!(c.interfaces_count, 0);
    assert_eq!(rest, &bytes[HEAD_END..]);
}

#[test]
fn valid_class_pool_entries_are_decoded_in_order() {
    let c = decode(&simple_math_class()).unwrap();
    let rendered: Vec<String> = c.const_pool.iter().map(|e| e.to_string()).collect();
    let expected = vec![
        "MethodRefConstant[class_index=3, name_and_type_index=22]",
        "ClassConstant[name_index=23]",
        "ClassConstant[name_index=24]",
        "Utf8Constant[utf8_string=\"BIG\"]",
        "Utf8Constant[utf8_string=\"I\"]",
        "Utf8Constant[utf8_string=\"ConstantValue\"]",
        "IntegerConstant[value=\"100000\"]",
        "Utf8Constant[utf8_string=\"PI\"]",
        "Utf8Constant[utf8_string=\"F\"]",
        "FloatConstant[bits=1078530000]",
        "Utf8Constant[utf8_string=\"NAME\"]",
        "Utf8Constant[utf8_string=\"Ljava/lang/String;\"]",
        "StringConstant[string_index=23]",
        "Utf8Constant[utf8_string=\"<init>\"]",
        "Utf8Constant[utf8_string=\"()V\"]",
        "Utf8Constant[utf8_string=\"Code\"]",
        "Utf8Constant[utf8_string=\"LineNumberTable\"]",
        "Utf8Constant[utf8_string=\"add\"]",
        "Utf8Constant[utf8_string=\"(II)I\"]",
        "Utf8Constant[utf8_string=\"SourceFile\"]",
        "Utf8Constant[utf8_string=\"SimpleMath.java\"]",
        "NameAndTypeConstant[name_index=14, descriptor_index=15]",
        "Utf8Constant[utf8_string=\"SimpleMath\"]",
        "Utf8Constant[utf8_string=\"java/lang/Object\"]",
    ];
    assert_eq!(rendered, expected);
}

#[test]
fn valid_class_float_constant_keeps_the_ieee_bits() {
    let c = decode(&simple_math_class()).unwrap();
    match &c.const_pool[9] {
        ConstEntry::Float(f) => {
            assert_eq!(f.bits, 0x40490FD0);
            assert_eq!(f32::from_bits(f.bits), 3.14159f32);
        },
        other => panic!("entry 10 is {:?}", other),
    }
}

#[test]
fn minimal_class_has_an_empty_pool() {
    let bytes = minimal_class();
    let (rest, c) = parse_classfile(&bytes).unwrap();
    assert_eq!(
        c,
        ClassFile {
            minor_version: 3,
            major_version: 45,
            const_pool_size: 1,
            const_pool: vec![],
            access_flags: 0x0021,
            this_class: 2,
            super_class: 3,
            interfaces_count: 4,
        }
    );
    assert!(rest.is_empty());
}

#[test]
fn decode_drops_the_tail() {
    let bytes = simple_math_class();
    let (_, parsed) = parse_classfile(&bytes).unwrap();
    assert_eq!(decode(&bytes), Ok(parsed));
}

#[test]
fn decoding_twice_gives_the_same_class_file() {
    let bytes = simple_math_class();
    let copy = bytes.clone();
    assert_eq!(parse_classfile(&bytes), parse_classfile(&copy));
    let bad = malformed_class();
    assert_eq!(parse_classfile(&bad), parse_classfile(&bad.clone()));
}

#[test]
fn pool_length_is_declared_size_minus_one() {
    for bytes in [simple_math_class(), minimal_class()] {
        let c = decode(&bytes).unwrap();
        assert_eq!(c.const_pool.len() + 1, c.const_pool_size as usize);
    }
}

#[test]
fn bytes_after_interfaces_count_are_not_read() {
    let bytes = simple_math_class();
    let whole = decode(&bytes).unwrap();
    // Nothing after the head is needed.
    assert_eq!(decode(&bytes[..HEAD_END]), Ok(whole.clone()));
    // Whatever follows makes no difference.
    let mut other = bytes[..HEAD_END].to_vec();
    other.extend_from_slice(&[0xFF; 40]);
    let (rest, c) = parse_classfile(&other).unwrap();
    assert_eq!(c, whole);
    assert_eq!(rest, &[0xFF; 40][..]);
}

#[test]
fn every_cut_inside_the_head_is_truncated() {
    let bytes = simple_math_class();
    for k in 0..HEAD_END {
        assert_eq!(decode(&bytes[..k]), Err(DecodeError::Truncated), "cut at {}", k);
    }
    let bytes = minimal_class();
    for k in 0..bytes.len() {
        assert_eq!(decode(&bytes[..k]), Err(DecodeError::Truncated), "cut at {}", k);
    }
}

#[test]
fn cut_in_the_middle_of_a_record_is_truncated() {
    let bytes = simple_math_class();
    // Offset 40 lies inside the text of the sixth entry.
    assert_eq!(decode(&bytes[..40]), Err(DecodeError::Truncated));
    assert!(40 < POOL_END);
}

#[test]
fn wrong_marker_is_a_mismatch() {
    let mut bytes = simple_math_class();
    bytes[3] = 0xBF;
    assert_eq!(decode(&bytes), Err(DecodeError::MarkerMismatch));
    assert_eq!(decode(&[0xCA, 0xFE, 0xBA, 0x00]), Err(DecodeError::MarkerMismatch));
    assert_eq!(decode(&[0x00, 0x00, 0x00, 0x00, 0x00, 0x00]), Err(DecodeError::MarkerMismatch));
    assert_eq!(decode(b"not a class file at all"), Err(DecodeError::MarkerMismatch));
}

#[test]
fn short_input_that_differs_from_the_marker_is_a_mismatch() {
    assert_eq!(decode(&[0x00]), Err(DecodeError::MarkerMismatch));
    assert_eq!(decode(&[0xCA, 0xFF]), Err(DecodeError::MarkerMismatch));
    assert_eq!(decode(&[0xCA, 0xFE, 0xBB]), Err(DecodeError::MarkerMismatch));
}

#[test]
fn short_input_that_agrees_with_the_marker_is_truncated() {
    assert_eq!(decode(&[]), Err(DecodeError::Truncated));
    assert_eq!(decode(&[0xCA]), Err(DecodeError::Truncated));
    assert_eq!(decode(&[0xCA, 0xFE]), Err(DecodeError::Truncated));
    assert_eq!(decode(&[0xCA, 0xFE, 0xBA]), Err(DecodeError::Truncated));
}

#[test]
fn magic_ident_returns_the_marker_and_the_tail() {
    let (rest, found) = magic_ident(&[0xCA, 0xFE, 0xBA, 0xBE, 0x01, 0x02]).unwrap();
    assert_eq!(found, &[0xCA, 0xFE, 0xBA, 0xBE][..]);
    assert_eq!(rest, &[0x01, 0x02][..]);
    assert_eq!(magic_ident(&[0xBE, 0xBA, 0xFE, 0xCA]), Err(DecodeError::MarkerMismatch));
    assert_eq!(magic_ident(&[0xCA, 0xFE]), Err(DecodeError::Truncated));
}

#[test]
fn pool_size_zero_is_rejected() {
    let mut bytes = minimal_class();
    bytes[9] = 0;
    assert_eq!(decode(&bytes), Err(DecodeError::InvalidPoolSize));
}

#[test]
fn ill_formed_text_in_the_pool_is_rejected() {
    let mut bytes = simple_math_class();
    // The first byte of the text "BIG" of the fourth entry.
    assert_eq!(bytes[24], b'B');
    bytes[24] = 0xFF;
    assert_eq!(decode(&bytes), Err(DecodeError::InvalidText));
}

#[test]
fn pool_of_no_records_uses_no_input() {
    let input = [0x05, 0x06];
    let (rest, pool) = parse_pool(&input, 0).unwrap();
    assert!(pool.is_empty());
    assert_eq!(rest, &input[..]);
}

#[test]
fn pool_records_follow_one_another() {
    let input = [7, 0x00, 0x02, 1, 0x00, 0x01, b'A', 3, 0x00, 0x00, 0x00, 0x2A, 0x99];
    let (rest, pool) = parse_pool(&input, 3).unwrap();
    let rendered: Vec<String> = pool.iter().map(|e| e.to_string()).collect();
    assert_eq!(
        rendered,
        vec![
            "ClassConstant[name_index=2]",
            "Utf8Constant[utf8_string=\"A\"]",
            "IntegerConstant[value=\"42\"]",
        ]
    );
    assert_eq!(rest, &[0x99][..]);
}

#[test]
fn pool_fails_with_the_error_of_the_first_bad_record() {
    // A class entry, then an unsupported tag, then a record cut short.
    let input = [7, 0x00, 0x02, 6, 0x00, 0x00, 7, 0x00];
    assert_eq!(parse_pool(&input, 3), Err(DecodeError::UnrecognizedTag));
    assert_eq!(parse_pool(&input, 2), Err(DecodeError::UnrecognizedTag));
    // One record decodes; asking for two more than the input holds is truncated.
    let input = [7, 0x00, 0x02, 7, 0x00];
    assert_eq!(parse_pool(&input, 2), Err(DecodeError::Truncated));
    assert_eq!(parse_pool(&input[..3], 2), Err(DecodeError::Truncated));
}
