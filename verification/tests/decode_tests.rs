use huawei_solar::catalog::Quantity;
use huawei_solar::decode::{
    decode, decode_number, decode_text, words_to_bytes, DecodeError, Variant,
};
use huawei_solar::registers::{NumericKind, NumericRegister, Register, StringRegister};

fn quotient(value: &Variant) -> f64 {
    match value {
        Variant::Number { raw, gain } => *raw as f64 / *gain as f64,
        Variant::Text(_) => panic!("text where a number was expected"),
    }
}

fn numeric(q: Quantity) -> NumericRegister {
    match q.register() {
        Register::Numeric(reg) => reg,
        Register::Text(_) => panic!("text register where a numeric one was expected"),
    }
}

#[test]
fn unsigned_word_is_divided_by_gain() {
    let reg = NumericRegister::new(NumericKind::U16, 100, 1, 10, "V");
    for w in [0u16, 1, 9, 10, 2300, 0x7FFF, 0x8000, 0xFFFF] {
        let value = decode_number(&reg, &vec![w]).unwrap();
        assert_eq!(value, Variant::Number { raw: w as i64, gain: 10 });
        assert_eq!(quotient(&value), w as f64 / 10.0);
    }
}

#[test]
fn signed_word_all_ones_is_minus_one() {
    let reg = NumericRegister::new(NumericKind::I16, 100, 1, 1, "");
    let value = decode_number(&reg, &vec![0xFFFF]).unwrap();
    assert_eq!(value, Variant::Number { raw: -1, gain: 1 });
    assert_eq!(quotient(&value), -1.0);
}

#[test]
fn signed_word_edges() {
    let reg = NumericRegister::new(NumericKind::I16, 100, 1, 1, "");
    assert_eq!(decode_number(&reg, &vec![0x7FFF]).unwrap(), Variant::Number { raw: 32767, gain: 1 });
    assert_eq!(decode_number(&reg, &vec![0x8000]).unwrap(), Variant::Number { raw: -32768, gain: 1 });
    assert_eq!(decode_number(&reg, &vec![0]).unwrap(), Variant::Number { raw: 0, gain: 1 });
}

#[test]
fn signed_pair_all_ones_is_minus_one() {
    let reg = NumericRegister::new(NumericKind::I32, 100, 2, 1, "");
    let value = decode_number(&reg, &vec![0xFFFF, 0xFFFF]).unwrap();
    assert_eq!(value, Variant::Number { raw: -1, gain: 1 });
    assert_eq!(quotient(&value), -1.0);
}

#[test]
fn signed_pair_edges() {
    let reg = NumericRegister::new(NumericKind::I32, 100, 2, 1, "");
    assert_eq!(
        decode_number(&reg, &vec![0x7FFF, 0xFFFF]).unwrap(),
        Variant::Number { raw: 2147483647, gain: 1 }
    );
    assert_eq!(
        decode_number(&reg, &vec![0x8000, 0x0000]).unwrap(),
        Variant::Number { raw: -2147483648, gain: 1 }
    );
}

#[test]
fn unsigned_pair_is_assembled_high_word_first() {
    let reg = NumericRegister::new(NumericKind::U32, 100, 2, 1, "");
    let value = decode_number(&reg, &vec![0x0001, 0x86A0]).unwrap();
    assert_eq!(value, Variant::Number { raw: 100000, gain: 1 });
    assert_eq!(quotient(&value), 100000.0);
    assert_eq!(
        decode_number(&reg, &vec![0xFFFF, 0xFFFF]).unwrap(),
        Variant::Number { raw: 4294967295, gain: 1 }
    );
    assert_eq!(
        decode_number(&reg, &vec![0x1234, 0x5678]).unwrap(),
        Variant::Number { raw: 0x12345678, gain: 1 }
    );
}

#[test]
fn encoding_then_decoding_gives_the_number_back() {
    let reg32 = NumericRegister::new(NumericKind::I32, 100, 2, 1000, "A");
    for n in [0i32, 1, -1, 1000, -1000, 123456789, -123456789, i32::MAX, i32::MIN] {
        let pattern = n as u32;
        let words = vec![(pattern >> 16) as u16, (pattern & 0xFFFF) as u16];
        let value = decode_number(&reg32, &words).unwrap();
        assert_eq!(value, Variant::Number { raw: n as i64, gain: 1000 });
        assert_eq!(quotient(&value), n as f64 / 1000.0);
    }
    let reg16 = NumericRegister::new(NumericKind::I16, 100, 1, 10, "");
    for n in [0i16, 1, -1, 255, -255, i16::MAX, i16::MIN] {
        let value = decode_number(&reg16, &vec![n as u16]).unwrap();
        assert_eq!(value, Variant::Number { raw: n as i64, gain: 10 });
    }
}

#[test]
fn negative_current() {
    let reg = numeric(Quantity::GridCurrent);
    let value = decode_number(&reg, &vec![0xFFFF, 0xFC18]).unwrap();
    assert_eq!(value, Variant::Number { raw: -1000, gain: 1000 });
    assert_eq!(quotient(&value), -1.0);
    assert_eq!(reg.get_unit(), "A");
}

#[test]
fn scaled_voltage() {
    let reg = numeric(Quantity::GridVoltage);
    let value = decode_number(&reg, &vec![0x08FC]).unwrap();
    assert_eq!(value, Variant::Number { raw: 2300, gain: 10 });
    assert_eq!(quotient(&value), 230.0);
    assert_eq!(reg.get_unit(), "V");
}

#[test]
fn wrong_number_of_words_is_a_decode_error() {
    let one = NumericRegister::new(NumericKind::U16, 100, 1, 1, "");
    assert_eq!(decode_number(&one, &vec![]), Err(DecodeError::WordCount));
    assert_eq!(decode_number(&one, &vec![1, 2]), Err(DecodeError::WordCount));
    let two = NumericRegister::new(NumericKind::U32, 100, 2, 1, "");
    assert_eq!(decode_number(&two, &vec![1]), Err(DecodeError::WordCount));
    assert_eq!(decode_number(&two, &vec![1, 2, 3]), Err(DecodeError::WordCount));
    let text = StringRegister::new(100, 2);
    assert_eq!(decode_text(&text, &vec![0x4142]), Err(DecodeError::WordCount));
    assert_eq!(decode_text(&text, &vec![]), Err(DecodeError::WordCount));
}

#[test]
fn register_too_narrow_for_its_kind_is_a_decode_error() {
    let reg = NumericRegister::new(NumericKind::I32, 100, 1, 1, "");
    assert!(!reg.is_well_formed());
    assert_eq!(decode_number(&reg, &vec![7]), Err(DecodeError::WordCount));
}

#[test]
fn wider_register_yields_its_first_scalar() {
    let reg = NumericRegister::new(NumericKind::U16, 100, 3, 10, "V");
    assert_eq!(
        decode_number(&reg, &vec![2300, 2310, 2320]).unwrap(),
        Variant::Number { raw: 2300, gain: 10 }
    );
}

#[test]
fn words_become_bytes_high_byte_first() {
    assert_eq!(words_to_bytes(&vec![517, 768]), vec![2u8, 5, 3, 0]);
    assert_eq!(words_to_bytes(&vec![0xABCD]), vec![0xABu8, 0xCD]);
    assert_eq!(words_to_bytes(&vec![]), Vec::<u8>::new());
}

#[test]
fn text_is_read_in_wire_order() {
    let reg = StringRegister::new(30000, 3);
    assert_eq!(decode_text(&reg, &vec![0x5355, 0x4E32, 0x3030]).unwrap(), "SUN200");
}

#[test]
fn text_without_nul_is_unchanged() {
    let reg = StringRegister::new(30000, 2);
    assert_eq!(decode_text(&reg, &vec![0x4142, 0x4344]).unwrap(), "ABCD");
}

#[test]
fn nul_is_stripped_wherever_it_stands() {
    let reg = StringRegister::new(30000, 4);
    assert_eq!(decode_text(&reg, &vec![0x0041, 0x0000, 0x4200, 0x4300]).unwrap(), "ABC");
    assert_eq!(decode_text(&reg, &vec![0, 0, 0, 0]).unwrap(), "");
}

#[test]
fn text_of_several_bytes_per_character() {
    let reg = StringRegister::new(30000, 1);
    assert_eq!(decode_text(&reg, &vec![0xC2B0]).unwrap(), "°");
}

#[test]
fn invalid_text_is_a_decode_error() {
    let reg = StringRegister::new(30000, 1);
    assert_eq!(decode_text(&reg, &vec![0xFFFF]), Err(DecodeError::InvalidText));
    assert_eq!(decode_text(&reg, &vec![0xC200]), Err(DecodeError::InvalidText));
}

#[test]
fn decode_follows_the_kind_of_register() {
    let model = Quantity::ModelName.register();
    let mut words = vec![0x5355, 0x4E00];
    words.resize(15, 0);
    assert_eq!(decode(&model, &words), Ok(Variant::Text("SUN".to_string())));
    let zone = Quantity::TimeZone.register();
    assert_eq!(decode(&zone, &vec![0xFFC4]), Ok(Variant::Number { raw: -60, gain: 1 }));
    assert_eq!(decode(&zone, &vec![]), Err(DecodeError::WordCount));
}

#[test]
fn a_copy_means_the_same() {
    let text = Variant::Text("On-grid".to_string());
    assert_eq!(text.duplicate(), text);
    let number = Variant::Number { raw: -5, gain: 100 };
    assert_eq!(number.duplicate(), number);
}
