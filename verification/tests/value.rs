use wolf::script::value::{LuaType, LuaValue, ValueError};

fn number(d: f64) -> LuaValue {
    LuaValue::from_number(d.to_ne_bytes())
}

fn read_number(v: &LuaValue) -> Result<f64, ValueError> {
    v.as_number().map(f64::from_ne_bytes)
}

#[test]
fn new_value_is_nil_without_payload() {
    let v = LuaValue::new();
    assert_eq!(v.get_type(), LuaType::L_NIL);
    assert!(v.bytes().is_empty());
}

#[test]
fn default_value_is_nil() {
    let v = LuaValue::default();
    assert_eq!(v.get_type(), LuaType::L_NIL);
    assert!(v.bytes().is_empty());
    assert_eq!(v, LuaValue::new());
}

#[test]
fn nil_is_no_bool_number_or_string() {
    let v = LuaValue::new();
    assert_eq!(v.as_bool(), Err(ValueError::TypeMismatch));
    assert_eq!(v.as_number(), Err(ValueError::TypeMismatch));
    assert_eq!(v.as_string(), Err(ValueError::TypeMismatch));
}

#[test]
fn bool_is_one_byte_one_or_zero() {
    let t = LuaValue::from_bool(true);
    assert_eq!(t.get_type(), LuaType::L_BOOLEAN);
    assert_eq!(t.bytes(), &[1u8][..]);
    let f = LuaValue::from_bool(false);
    assert_eq!(f.get_type(), LuaType::L_BOOLEAN);
    assert_eq!(f.bytes(), &[0u8][..]);
}

#[test]
fn bool_round_trip() {
    assert_eq!(LuaValue::from_bool(true).as_bool(), Ok(true));
    assert_eq!(LuaValue::from_bool(false).as_bool(), Ok(false));
}

#[test]
fn any_non_zero_byte_reads_as_true() {
    assert_eq!(LuaValue::from_raw(LuaType::L_BOOLEAN, vec![2]).as_bool(), Ok(true));
    assert_eq!(LuaValue::from_raw(LuaType::L_BOOLEAN, vec![255]).as_bool(), Ok(true));
    assert_eq!(LuaValue::from_raw(LuaType::L_BOOLEAN, vec![0]).as_bool(), Ok(false));
}

#[test]
fn bool_of_wrong_length_is_a_mismatch() {
    assert_eq!(
        LuaValue::from_raw(LuaType::L_BOOLEAN, vec![]).as_bool(),
        Err(ValueError::TypeMismatch)
    );
    assert_eq!(
        LuaValue::from_raw(LuaType::L_BOOLEAN, vec![1, 0]).as_bool(),
        Err(ValueError::TypeMismatch)
    );
    assert_eq!(
        LuaValue::from_raw(LuaType::L_BOOLEAN, vec![1; 8]).as_bool(),
        Err(ValueError::TypeMismatch)
    );
}

#[test]
fn number_is_the_eight_bytes_of_the_double() {
    let v = number(1.0);
    assert_eq!(v.get_type(), LuaType::L_NUMBER);
    assert_eq!(v.bytes(), &0x3FF0_0000_0000_0000u64.to_ne_bytes()[..]);
    let w = number(-2.5);
    assert_eq!(w.bytes(), &0xC004_0000_0000_0000u64.to_ne_bytes()[..]);
    let raw = LuaValue::from_number([1, 2, 3, 4, 5, 6, 7, 8]);
    assert_eq!(raw.bytes(), &[1u8, 2, 3, 4, 5, 6, 7, 8][..]);
    assert_eq!(raw.as_number(), Ok([1, 2, 3, 4, 5, 6, 7, 8]));
}

#[test]
fn number_round_trip() {
    let samples: [f64; 9] = [
        0.0,
        -0.0,
        5.0,
        70.7,
        -1.5e300,
        f64::MIN_POSITIVE,
        f64::MAX,
        f64::EPSILON,
        17.7,
    ];
    for d in samples {
        let back = read_number(&number(d)).unwrap();
        assert_eq!(back.to_bits(), d.to_bits());
    }
}

#[test]
fn nan_and_infinities_round_trip_bit_for_bit() {
    let quiet = f64::NAN;
    let odd = f64::from_bits(0x7FF0_0000_0000_0001);
    let negative = f64::from_bits(0xFFF8_0000_0000_1234);
    for d in [quiet, odd, negative, f64::INFINITY, f64::NEG_INFINITY] {
        let back = read_number(&number(d)).unwrap();
        assert_eq!(back.to_bits(), d.to_bits());
    }
    assert!(read_number(&number(f64::NAN)).unwrap().is_nan());
    assert_eq!(read_number(&number(f64::INFINITY)), Ok(f64::INFINITY));
}

#[test]
fn number_of_wrong_length_is_a_mismatch() {
    assert_eq!(
        LuaValue::from_raw(LuaType::L_NUMBER, vec![0; 7]).as_number(),
        Err(ValueError::TypeMismatch)
    );
    assert_eq!(
        LuaValue::from_raw(LuaType::L_NUMBER, vec![0; 9]).as_number(),
        Err(ValueError::TypeMismatch)
    );
    assert_eq!(
        LuaValue::from_raw(LuaType::L_NUMBER, vec![]).as_number(),
        Err(ValueError::TypeMismatch)
    );
    assert_eq!(
        LuaValue::from_raw(LuaType::L_NUMBER, vec![9, 8, 7, 6, 5, 4, 3, 2]).as_number(),
        Ok([9, 8, 7, 6, 5, 4, 3, 2])
    );
}

#[test]
fn string_is_its_utf8_bytes() {
    let v = LuaValue::from_string("hello from rust");
    assert_eq!(v.get_type(), LuaType::L_STRING);
    assert_eq!(v.bytes(), "hello from rust".as_bytes());
    assert_eq!(v.bytes().len(), 15);
    let euro = LuaValue::from_string("\u{20ac}");
    assert_eq!(euro.bytes(), &[0xE2u8, 0x82, 0xAC][..]);
}

#[test]
fn empty_string_has_empty_payload() {
    let v = LuaValue::from_string("");
    assert_eq!(v.get_type(), LuaType::L_STRING);
    assert!(v.bytes().is_empty());
    assert_eq!(v.as_string(), Ok(String::new()));
}

#[test]
fn string_round_trip() {
    for s in ["hello from lua", "", "a", "gr\u{fc}\u{df}e", "\u{65e5}\u{672c}\u{8a9e}", "\u{1f30d} \u{2713}", "nul\0inside"] {
        assert_eq!(LuaValue::from_string(s).as_string(), Ok(s.to_string()));
    }
}

#[test]
fn string_from_engine_bytes_is_decoded() {
    let v = LuaValue::from_raw(LuaType::L_STRING, vec![0x68, 0x69, 0x20, 0xE2, 0x82, 0xAC]);
    assert_eq!(v.as_string(), Ok("hi \u{20ac}".to_string()));
}

#[test]
fn string_that_is_not_utf8_is_an_encoding_error() {
    assert_eq!(
        LuaValue::from_raw(LuaType::L_STRING, vec![0xFF, 0xFE]).as_string(),
        Err(ValueError::EncodingError)
    );
    assert_eq!(
        LuaValue::from_raw(LuaType::L_STRING, vec![0x61, 0xE2, 0x82]).as_string(),
        Err(ValueError::EncodingError)
    );
    // an overlong encoding and a surrogate are no UTF-8 either
    assert_eq!(
        LuaValue::from_raw(LuaType::L_STRING, vec![0xC0, 0x80]).as_string(),
        Err(ValueError::EncodingError)
    );
    assert_eq!(
        LuaValue::from_raw(LuaType::L_STRING, vec![0xED, 0xA0, 0x80]).as_string(),
        Err(ValueError::EncodingError)
    );
}

#[test]
fn tag_is_checked_before_encoding() {
    assert_eq!(
        LuaValue::from_raw(LuaType::L_NUMBER, vec![0xFF; 8]).as_string(),
        Err(ValueError::TypeMismatch)
    );
}

#[test]
fn reading_as_another_type_is_a_mismatch() {
    let b = LuaValue::from_bool(true);
    let n = number(1.0);
    let s = LuaValue::from_string("1");
    assert_eq!(b.as_number(), Err(ValueError::TypeMismatch));
    assert_eq!(b.as_string(), Err(ValueError::TypeMismatch));
    assert_eq!(n.as_bool(), Err(ValueError::TypeMismatch));
    assert_eq!(n.as_string(), Err(ValueError::TypeMismatch));
    assert_eq!(s.as_bool(), Err(ValueError::TypeMismatch));
    assert_eq!(s.as_number(), Err(ValueError::TypeMismatch));
}

#[test]
fn no_coercion_between_kinds() {
    // a string of eight bytes is no number, a number of one byte no boolean
    let eight = LuaValue::from_string("12345678");
    assert_eq!(eight.as_number(), Err(ValueError::TypeMismatch));
    let one = LuaValue::from_string("1");
    assert_eq!(one.as_bool(), Err(ValueError::TypeMismatch));
}

#[test]
fn reserved_tags_cannot_be_read() {
    for t in [
        LuaType::L_LIGHTUSERDATA,
        LuaType::L_TABLE,
        LuaType::L_FUNCTION,
        LuaType::L_USERDATA,
        LuaType::L_THREAD,
    ] {
        let one = LuaValue::from_raw(t, vec![1]);
        assert_eq!(one.get_type(), t);
        assert_eq!(one.as_bool(), Err(ValueError::TypeMismatch));
        assert_eq!(one.as_string(), Err(ValueError::TypeMismatch));
        let eight = LuaValue::from_raw(t, vec![0; 8]);
        assert_eq!(eight.as_number(), Err(ValueError::TypeMismatch));
    }
}

#[test]
fn from_raw_keeps_tag_and_payload() {
    let v = LuaValue::from_raw(LuaType::L_TABLE, vec![3, 1, 4]);
    assert_eq!(v.get_type(), LuaType::L_TABLE);
    assert_eq!(v.bytes(), &[3u8, 1, 4][..]);
}

#[test]
fn reading_leaves_the_value_as_it_was() {
    let v = LuaValue::from_raw(LuaType::L_STRING, vec![0xFF]);
    let before = v.clone();
    assert!(v.as_string().is_err());
    assert!(v.as_bool().is_err());
    assert_eq!(v, before);
}

#[test]
fn tags_have_their_codes() {
    assert_eq!(LuaType::L_NIL.code(), 0);
    assert_eq!(LuaType::L_BOOLEAN.code(), 1);
    assert_eq!(LuaType::L_LIGHTUSERDATA.code(), 2);
    assert_eq!(LuaType::L_NUMBER.code(), 3);
    assert_eq!(LuaType::L_STRING.code(), 4);
    assert_eq!(LuaType::L_TABLE.code(), 5);
    assert_eq!(LuaType::L_FUNCTION.code(), 6);
    assert_eq!(LuaType::L_USERDATA.code(), 7);
    assert_eq!(LuaType::L_THREAD.code(), 8);
}

#[test]
fn codes_round_trip() {
    for code in 0u8..=8 {
        let tag = LuaType::from_code(code).unwrap();
        assert_eq!(tag.code(), code);
    }
    assert_eq!(LuaType::from_code(3), Some(LuaType::L_NUMBER));
}

#[test]
fn codes_above_eight_are_no_tags() {
    assert_eq!(LuaType::from_code(9), None);
    assert_eq!(LuaType::from_code(255), None);
}
