use lazy_db::{F32Bits, F64Bits, FileWrapper, LDBError, LazyData, LazyNumType, LazyType};

fn written_void() -> Vec<u8> {
    let mut file = FileWrapper::new_writer("new_void.ld");
    LazyData::new_void(&mut file, ());
    file.into_bytes()
}

fn reopen(path: &str, bytes: Vec<u8>) -> LazyData {
    LazyData::load(FileWrapper::new_reader(path, bytes)).unwrap()
}

#[test]
fn lazy_data_new_void() {
    let bytes = written_void();
    let lazy_data = reopen("new_void.ld", bytes);
    assert_eq!(lazy_data.lazy_type, LazyType::Void);
}

#[test]
fn lazy_data_binary() {
    let og_bin = Box::new([12u8, 234, 48, 128]);
    let mut file = FileWrapper::new_writer("new_binary.ld");
    LazyData::new_binary(&mut file, og_bin.as_ref());
    let new_bin = reopen("new_binary.ld", file.into_bytes()).collect_binary().unwrap();
    assert_eq!(*og_bin, *new_bin);
}

#[test]
fn lazy_data_string() {
    let og = "Hello world!";
    let mut file = FileWrapper::new_writer("data.ld");
    LazyData::new_string(&mut file, og);
    let new = reopen("data.ld", file.into_bytes()).collect_string().unwrap();
    assert_eq!(og, new);
}

#[test]
fn lazy_data_signed() {
    let og = -1234i32;
    let mut file = FileWrapper::new_writer("data.ld");
    LazyData::new_i32(&mut file, og);
    let new = reopen("data.ld", file.into_bytes()).collect_i32().unwrap();
    assert_eq!(og, new);
}

#[test]
fn lazy_data_unsigned() {
    let og = 3908u32;
    let mut file = FileWrapper::new_writer("data.ld");
    LazyData::new_u32(&mut file, og);
    let new = reopen("data.ld", file.into_bytes()).collect_u32().unwrap();
    assert_eq!(og, new);
}

#[test]
fn lazy_data_f32() {
    let og = 123.234f32;
    let mut file = FileWrapper::new_writer("data.ld");
    LazyData::new_f32(&mut file, F32Bits(og.to_bits()));
    let new = reopen("data.ld", file.into_bytes()).collect_f32().unwrap();
    assert_eq!(og, f32::from_bits(new.0));
}

#[test]
fn lazy_data_f64() {
    let og = 123141234.1234f64;
    let mut file = FileWrapper::new_writer("data.ld");
    LazyData::new_f64(&mut file, F64Bits(og.to_bits()));
    let new = reopen("data.ld", file.into_bytes()).collect_f64().unwrap();
    assert_eq!(og, f64::from_bits(new.0));
}

#[test]
fn void_is_one_tag_byte() {
    assert_eq!(written_void(), vec![0u8]);
}

#[test]
fn signed_number_is_stored_as_twos_complement_big_endian() {
    let mut file = FileWrapper::new_writer("n");
    LazyData::new_i32(&mut file, -1234);
    assert_eq!(file.into_bytes(), vec![4u8, 0xFF, 0xFF, 0xFB, 0x2E]);
}

#[test]
fn unsigned_number_is_stored_big_endian() {
    let mut file = FileWrapper::new_writer("n");
    LazyData::new_u32(&mut file, 3908);
    assert_eq!(file.into_bytes(), vec![9u8, 0x00, 0x00, 0x0F, 0x44]);
}

#[test]
fn number_bytes_match_the_standard_big_endian_bytes() {
    let mut file = FileWrapper::new_writer("n");
    LazyData::new_i64(&mut file, -81_985_529_216_486_896);
    let mut expected = vec![5u8];
    expected.extend_from_slice(&(-81_985_529_216_486_896i64).to_be_bytes());
    assert_eq!(file.into_bytes(), expected);

    let mut file = FileWrapper::new_writer("n");
    LazyData::new_u128(&mut file, 0x0102_0304_0506_0708_090A_0B0C_0D0E_0F10);
    let mut expected = vec![11u8];
    expected.extend_from_slice(&0x0102_0304_0506_0708_090A_0B0C_0D0E_0F10u128.to_be_bytes());
    assert_eq!(file.into_bytes(), expected);

    let mut file = FileWrapper::new_writer("n");
    LazyData::new_i128(&mut file, i128::MIN + 5);
    let mut expected = vec![6u8];
    expected.extend_from_slice(&(i128::MIN + 5).to_be_bytes());
    assert_eq!(file.into_bytes(), expected);
}

#[test]
fn float_bytes_are_the_ieee_bit_pattern() {
    let mut file = FileWrapper::new_writer("n");
    LazyData::new_f32(&mut file, F32Bits(1.5f32.to_bits()));
    let mut expected = vec![12u8];
    expected.extend_from_slice(&1.5f32.to_be_bytes());
    assert_eq!(file.into_bytes(), expected);

    let mut file = FileWrapper::new_writer("n");
    LazyData::new_f64(&mut file, F64Bits((-0.1f64).to_bits()));
    let mut expected = vec![13u8];
    expected.extend_from_slice(&(-0.1f64).to_be_bytes());
    assert_eq!(file.into_bytes(), expected);
}

#[test]
fn bool_is_one_of_two_tags() {
    let mut file = FileWrapper::new_writer("b");
    LazyData::new_bool(&mut file, true);
    assert_eq!(file.into_bytes(), vec![16u8]);
    let mut file = FileWrapper::new_writer("b");
    LazyData::new_bool(&mut file, false);
    assert_eq!(file.into_bytes(), vec![17u8]);
}

#[test]
fn bool_comes_back() {
    for flag in [true, false] {
        let mut file = FileWrapper::new_writer("b");
        LazyData::new_bool(&mut file, flag);
        assert_eq!(reopen("b", file.into_bytes()).collect_bool().unwrap(), flag);
    }
}

#[test]
fn string_is_tag_then_utf8() {
    let mut file = FileWrapper::new_writer("s");
    LazyData::new_string(&mut file, "hé");
    assert_eq!(file.into_bytes(), vec![1u8, b'h', 0xC3, 0xA9]);
}

#[test]
fn link_is_tag_then_path_bytes() {
    let mut file = FileWrapper::new_writer("l");
    LazyData::new_link(&mut file, "people/Dave");
    let bytes = file.into_bytes();
    assert_eq!(bytes[0], 18u8);
    assert_eq!(&bytes[1..], b"people/Dave");
    assert_eq!(reopen("l", bytes).collect_link().unwrap(), "people/Dave");
}

#[test]
fn empty_payloads_are_valid() {
    let mut file = FileWrapper::new_writer("s");
    LazyData::new_string(&mut file, "");
    assert_eq!(reopen("s", file.into_bytes()).collect_string().unwrap(), "");

    let mut file = FileWrapper::new_writer("b");
    LazyData::new_binary(&mut file, &[]);
    assert_eq!(reopen("b", file.into_bytes()).collect_binary().unwrap(), Vec::<u8>::new());

    let mut file = FileWrapper::new_writer("l");
    LazyData::new_link(&mut file, "");
    assert_eq!(reopen("l", file.into_bytes()).collect_link().unwrap(), "");

    let mut file = FileWrapper::new_writer("a");
    LazyData::new_u16_array(&mut file, &[]);
    let bytes = file.into_bytes();
    assert_eq!(bytes, vec![15u8, 8]);
    assert_eq!(reopen("a", bytes).collect_u16_array().unwrap(), Vec::<u16>::new());
}

#[test]
fn void_comes_back() {
    assert!(reopen("v", written_void()).collect_void().is_ok());
}

#[test]
fn boundary_values_of_every_integer_type_come_back() {
    for v in [0i8, -1, i8::MIN, i8::MAX] {
        let mut file = FileWrapper::new_writer("n");
        LazyData::new_i8(&mut file, v);
        assert_eq!(reopen("n", file.into_bytes()).collect_i8().unwrap(), v);
    }
    for v in [0i16, -1, i16::MIN, i16::MAX] {
        let mut file = FileWrapper::new_writer("n");
        LazyData::new_i16(&mut file, v);
        assert_eq!(reopen("n", file.into_bytes()).collect_i16().unwrap(), v);
    }
    for v in [0i32, -1, i32::MIN, i32::MAX] {
        let mut file = FileWrapper::new_writer("n");
        LazyData::new_i32(&mut file, v);
        assert_eq!(reopen("n", file.into_bytes()).collect_i32().unwrap(), v);
    }
    for v in [0i64, -1, i64::MIN, i64::MAX] {
        let mut file = FileWrapper::new_writer("n");
        LazyData::new_i64(&mut file, v);
        assert_eq!(reopen("n", file.into_bytes()).collect_i64().unwrap(), v);
    }
    for v in [0i128, -1, i128::MIN, i128::MAX] {
        let mut file = FileWrapper::new_writer("n");
        LazyData::new_i128(&mut file, v);
        assert_eq!(reopen("n", file.into_bytes()).collect_i128().unwrap(), v);
    }
    for v in [0u8, 1, u8::MAX] {
        let mut file = FileWrapper::new_writer("n");
        LazyData::new_u8(&mut file, v);
        assert_eq!(reopen("n", file.into_bytes()).collect_u8().unwrap(), v);
    }
    for v in [0u16, 1, u16::MAX] {
        let mut file = FileWrapper::new_writer("n");
        LazyData::new_u16(&mut file, v);
        assert_eq!(reopen("n", file.into_bytes()).collect_u16().unwrap(), v);
    }
    for v in [0u32, 1, u32::MAX] {
        let mut file = FileWrapper::new_writer("n");
        LazyData::new_u32(&mut file, v);
        assert_eq!(reopen("n", file.into_bytes()).collect_u32().unwrap(), v);
    }
    for v in [0u64, 1, u64::MAX] {
        let mut file = FileWrapper::new_writer("n");
        LazyData::new_u64(&mut file, v);
        assert_eq!(reopen("n", file.into_bytes()).collect_u64().unwrap(), v);
    }
    for v in [0u128, 1, u128::MAX] {
        let mut file = FileWrapper::new_writer("n");
        LazyData::new_u128(&mut file, v);
        assert_eq!(reopen("n", file.into_bytes()).collect_u128().unwrap(), v);
    }
}

#[test]
fn floats_come_back_bit_for_bit() {
    for v in [0.0f32, -0.0, f32::INFINITY, f32::NEG_INFINITY, f32::NAN, f32::MIN, f32::MAX] {
        let mut file = FileWrapper::new_writer("n");
        LazyData::new_f32(&mut file, F32Bits(v.to_bits()));
        let back = reopen("n", file.into_bytes()).collect_f32().unwrap();
        assert_eq!(back.0, v.to_bits());
    }
    for v in [0.0f64, -0.0, f64::INFINITY, f64::NEG_INFINITY, f64::NAN, f64::MIN, f64::MAX] {
        let mut file = FileWrapper::new_writer("n");
        LazyData::new_f64(&mut file, F64Bits(v.to_bits()));
        let back = reopen("n", file.into_bytes()).collect_f64().unwrap();
        assert_eq!(back.0, v.to_bits());
    }
    let odd_nan = F32Bits(0x7FC0_1234);
    let mut file = FileWrapper::new_writer("n");
    LazyData::new_f32(&mut file, odd_nan);
    let back = reopen("n", file.into_bytes()).collect_f32().unwrap();
    assert!(f32::from_bits(back.0).is_nan());
    assert_eq!(back, odd_nan);
}

#[test]
fn arrays_of_every_type_come_back() {
    let mut file = FileWrapper::new_writer("a");
    LazyData::new_i8_array(&mut file, &[0, -1, i8::MIN, i8::MAX]);
    assert_eq!(
        reopen("a", file.into_bytes()).collect_i8_array().unwrap(),
        vec![0, -1, i8::MIN, i8::MAX]
    );
    let mut file = FileWrapper::new_writer("a");
    LazyData::new_i16_array(&mut file, &[0, -1, i16::MIN, i16::MAX]);
    assert_eq!(
        reopen("a", file.into_bytes()).collect_i16_array().unwrap(),
        vec![0, -1, i16::MIN, i16::MAX]
    );
    let mut file = FileWrapper::new_writer("a");
    LazyData::new_i32_array(&mut file, &[0, -1, i32::MIN, i32::MAX]);
    assert_eq!(
        reopen("a", file.into_bytes()).collect_i32_array().unwrap(),
        vec![0, -1, i32::MIN, i32::MAX]
    );
    let mut file = FileWrapper::new_writer("a");
    LazyData::new_i64_array(&mut file, &[0, -1, i64::MIN, i64::MAX]);
    assert_eq!(
        reopen("a", file.into_bytes()).collect_i64_array().unwrap(),
        vec![0, -1, i64::MIN, i64::MAX]
    );
    let mut file = FileWrapper::new_writer("a");
    LazyData::new_i128_array(&mut file, &[0, -1, i128::MIN, i128::MAX]);
    assert_eq!(
        reopen("a", file.into_bytes()).collect_i128_array().unwrap(),
        vec![0, -1, i128::MIN, i128::MAX]
    );
    let mut file = FileWrapper::new_writer("a");
    LazyData::new_u8_array(&mut file, &[0, 1, u8::MAX]);
    assert_eq!(reopen("a", file.into_bytes()).collect_u8_array().unwrap(), vec![0, 1, u8::MAX]);
    let mut file = FileWrapper::new_writer("a");
    LazyData::new_u16_array(&mut file, &[0, 1, u16::MAX]);
    assert_eq!(reopen("a", file.into_bytes()).collect_u16_array().unwrap(), vec![0, 1, u16::MAX]);
    let mut file = FileWrapper::new_writer("a");
    LazyData::new_u32_array(&mut file, &[0, 1, u32::MAX]);
    assert_eq!(reopen("a", file.into_bytes()).collect_u32_array().unwrap(), vec![0, 1, u32::MAX]);
    let mut file = FileWrapper::new_writer("a");
    LazyData::new_u64_array(&mut file, &[0, 1, u64::MAX]);
    assert_eq!(reopen("a", file.into_bytes()).collect_u64_array().unwrap(), vec![0, 1, u64::MAX]);
    let mut file = FileWrapper::new_writer("a");
    LazyData::new_u128_array(&mut file, &[0, 1, u128::MAX]);
    assert_eq!(reopen("a", file.into_bytes()).collect_u128_array().unwrap(), vec![0, 1, u128::MAX]);
    let floats = [F32Bits(1.5f32.to_bits()), F32Bits(f32::NAN.to_bits())];
    let mut file = FileWrapper::new_writer("a");
    LazyData::new_f32_array(&mut file, &floats);
    assert_eq!(reopen("a", file.into_bytes()).collect_f32_array().unwrap(), floats.to_vec());
    let doubles = [F64Bits(2.25f64.to_bits()), F64Bits(f64::NEG_INFINITY.to_bits())];
    let mut file = FileWrapper::new_writer("a");
    LazyData::new_f64_array(&mut file, &doubles);
    assert_eq!(reopen("a", file.into_bytes()).collect_f64_array().unwrap(), doubles.to_vec());
}

#[test]
fn array_is_two_tags_then_elements() {
    let mut file = FileWrapper::new_writer("a");
    LazyData::new_u16_array(&mut file, &[1, 0x0203]);
    assert_eq!(file.into_bytes(), vec![15u8, 8, 0, 1, 2, 3]);
    let mut file = FileWrapper::new_writer("a");
    LazyData::new_i16_array(&mut file, &[-2]);
    assert_eq!(file.into_bytes(), vec![15u8, 3, 0xFF, 0xFE]);
}

#[test]
fn array_tag_names_its_element_type() {
    let mut file = FileWrapper::new_writer("a");
    LazyData::new_u32_array(&mut file, &[7]);
    let data = reopen("a", file.into_bytes());
    assert_eq!(data.lazy_type, LazyType::Array(LazyNumType::U32));
}

#[test]
fn collecting_as_another_type_fails() {
    let mut file = FileWrapper::new_writer("age");
    LazyData::new_u8(&mut file, 21);
    let bytes = file.into_bytes();
    let error = reopen("age", bytes.clone()).collect_string().unwrap_err();
    match error {
        LDBError::IncorrectType { expected, found } => {
            assert_eq!(expected, LazyType::String);
            assert_eq!(found, LazyType::Num(LazyNumType::U8));
        }
        other => panic!("unexpected error {:?}", other),
    }
    assert!(matches!(
        reopen("age", bytes.clone()).collect_i8(),
        Err(LDBError::IncorrectType { .. })
    ));
    assert!(matches!(
        reopen("age", bytes.clone()).collect_u16(),
        Err(LDBError::IncorrectType { .. })
    ));
    assert!(matches!(
        reopen("age", bytes.clone()).collect_u8_array(),
        Err(LDBError::IncorrectType { .. })
    ));
    assert!(matches!(
        reopen("age", bytes.clone()).collect_bool(),
        Err(LDBError::IncorrectType { .. })
    ));
    assert!(matches!(
        reopen("age", bytes.clone()).collect_void(),
        Err(LDBError::IncorrectType { .. })
    ));
    assert!(matches!(
        reopen("age", bytes.clone()).collect_binary(),
        Err(LDBError::IncorrectType { .. })
    ));
    assert!(matches!(reopen("age", bytes).collect_link(), Err(LDBError::IncorrectType { .. })));
}

#[test]
fn array_of_one_type_is_no_array_of_another() {
    let mut file = FileWrapper::new_writer("a");
    LazyData::new_u8_array(&mut file, &[1, 2]);
    let bytes = file.into_bytes();
    let error = reopen("a", bytes.clone()).collect_u16_array().unwrap_err();
    match error {
        LDBError::IncorrectType { expected, found } => {
            assert_eq!(expected, LazyType::Array(LazyNumType::U16));
            assert_eq!(found, LazyType::Array(LazyNumType::U8));
        }
        other => panic!("unexpected error {:?}", other),
    }
    assert!(matches!(reopen("a", bytes).collect_u8(), Err(LDBError::IncorrectType { .. })));
}

#[test]
fn string_is_no_link() {
    let mut file = FileWrapper::new_writer("s");
    LazyData::new_string(&mut file, "x");
    assert!(matches!(
        reopen("s", file.into_bytes()).collect_link(),
        Err(LDBError::IncorrectType { .. })
    ));
}

#[test]
fn number_of_wrong_length_is_malformed() {
    let data = reopen("n", vec![9u8, 0, 0, 1]);
    match data.collect_u32().unwrap_err() {
        LDBError::InvalidPayloadLength { length, width } => {
            assert_eq!(length, 3);
            assert_eq!(width, 4);
        }
        other => panic!("unexpected error {:?}", other),
    }
    let data = reopen("n", vec![7u8, 1, 2]);
    assert!(matches!(
        data.collect_u8(),
        Err(LDBError::InvalidPayloadLength { length: 2, width: 1 })
    ));
    let data = reopen("n", vec![7u8]);
    assert!(matches!(
        data.collect_u8(),
        Err(LDBError::InvalidPayloadLength { length: 0, width: 1 })
    ));
}

#[test]
fn array_of_broken_elements_is_malformed() {
    let data = reopen("a", vec![15u8, 9, 0, 0, 0, 1, 0, 0]);
    assert!(matches!(
        data.collect_u32_array(),
        Err(LDBError::InvalidPayloadLength { length: 6, width: 4 })
    ));
}

#[test]
fn invalid_utf8_is_malformed() {
    let data = reopen("s", vec![1u8, 0xFF, 0xFE]);
    match data.collect_string().unwrap_err() {
        LDBError::InvalidUTF8String(bytes) => assert_eq!(bytes, vec![0xFF, 0xFE]),
        other => panic!("unexpected error {:?}", other),
    }
    let data = reopen("l", vec![18u8, 0xC3]);
    assert!(matches!(data.collect_link(), Err(LDBError::InvalidUTF8String(_))));
    let data = reopen("s", vec![1u8, 0xED, 0xA0, 0x80]);
    assert!(matches!(data.collect_string(), Err(LDBError::InvalidUTF8String(_))));
    let data = reopen("s", vec![1u8, 0xC0, 0x80]);
    assert!(matches!(data.collect_string(), Err(LDBError::InvalidUTF8String(_))));
}

#[test]
fn data_without_a_tag_cannot_be_opened() {
    let result = LazyData::load(FileWrapper::new_reader("e", Vec::new()));
    assert!(matches!(result, Err(LDBError::MissingLazyType)));
    let result = LazyData::load(FileWrapper::new_reader("e", vec![15u8]));
    assert!(matches!(result, Err(LDBError::MissingLazyType)));
}

#[test]
fn unknown_tag_cannot_be_opened() {
    let result = LazyData::load(FileWrapper::new_reader("e", vec![19u8, 1]));
    assert!(matches!(result, Err(LDBError::InvalidLazyType(19))));
    let result = LazyData::load(FileWrapper::new_reader("e", vec![255u8]));
    assert!(matches!(result, Err(LDBError::InvalidLazyType(255))));
    let result = LazyData::load(FileWrapper::new_reader("e", vec![15u8, 1, 0]));
    assert!(matches!(result, Err(LDBError::InvalidLazyType(1))));
    let result = LazyData::load(FileWrapper::new_reader("e", vec![15u8, 15]));
    assert!(matches!(result, Err(LDBError::InvalidLazyType(15))));
}

#[test]
fn opening_reads_the_tag_only() {
    let data = reopen("s", vec![1u8, 0xFF]);
    assert_eq!(data.lazy_type, LazyType::String);
    assert_eq!(data.wrapper.path(), "s");
    assert_eq!(data.wrapper.into_bytes(), vec![0xFF]);
}

#[test]
fn file_wrapper_reads_from_the_front_and_writes_at_the_end() {
    let mut file = FileWrapper::new_reader("f", vec![1, 2, 3]);
    file.write(&[4, 5]);
    assert_eq!(file.read(2), vec![1, 2]);
    assert_eq!(file.read(10), vec![3, 4, 5]);
    assert_eq!(file.read(1), Vec::<u8>::new());
    file.write(&[6]);
    assert_eq!(file.read_to_end(), vec![6]);
    assert_eq!(file.path(), "f");
    assert_eq!(file.into_bytes(), Vec::<u8>::new());
}

#[test]
fn writing_leaves_the_file_at_its_path() {
    let mut file = FileWrapper::new_writer("db/people/Dave/age");
    LazyData::new_u8(&mut file, 21);
    LazyData::new_string(&mut file, "x");
    LazyData::new_u16_array(&mut file, &[1]);
    assert_eq!(file.path(), "db/people/Dave/age");
}

#[test]
fn writing_twice_appends() {
    let mut file = FileWrapper::new_writer("two");
    LazyData::new_u8(&mut file, 1);
    LazyData::new_bool(&mut file, true);
    assert_eq!(file.into_bytes(), vec![7u8, 1, 16]);
}

#[test]
fn a_value_opened_on_its_head_collects_with_the_rest() {
    let mut file = FileWrapper::new_writer("a");
    LazyData::new_u16_array(&mut file, &[1, 2, 3]);
    let bytes = file.into_bytes();
    let mut data = reopen("a", bytes[..2].to_vec());
    assert_eq!(data.lazy_type, LazyType::Array(LazyNumType::U16));
    data.wrapper.write(&bytes[2..]);
    assert_eq!(data.collect_u16_array().unwrap(), vec![1, 2, 3]);

    let mut file = FileWrapper::new_writer("s");
    LazyData::new_string(&mut file, "Hello");
    let bytes = file.into_bytes();
    let mut data = reopen("s", bytes[..2].to_vec());
    assert_eq!(data.lazy_type, LazyType::String);
    data.wrapper.write(&bytes[2..]);
    assert_eq!(data.collect_string().unwrap(), "Hello");

    let mut data = reopen("v", vec![0]);
    data.wrapper.write(&[]);
    assert!(data.collect_void().is_ok());
}
