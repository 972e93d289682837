use genesis_json::err::ErrKind;
use genesis_json::json::Json;
use genesis_json::path::PathMap;

fn obj(entries: Vec<(&str, Json)>) -> Vec<(String, Json)> {
    entries.into_iter().map(|(k, v)| (k.to_owned(), v)).collect()
}

fn jstr(x: &str) -> Json {
    Json::Str(x.to_owned())
}

#[test]
fn num_native_integer() {
    let o = obj(vec![("x", Json::Int(42))]);
    let m = PathMap::new(&o);
    assert_eq!(m.get_num("x").unwrap(), 42);
}

#[test]
fn num_decimal_side_field() {
    let o = obj(vec![("x_dec", jstr("42"))]);
    let m = PathMap::new(&o);
    assert_eq!(m.get_num("x").unwrap(), 42);
}

#[test]
fn num_hex_string() {
    let o = obj(vec![("x", jstr("0x2A"))]);
    let m = PathMap::new(&o);
    assert_eq!(m.get_num("x").unwrap(), 42);
}

#[test]
fn num_decimal_string() {
    let o = obj(vec![("x", jstr("42"))]);
    let m = PathMap::new(&o);
    assert_eq!(m.get_num("x").unwrap(), 42);
}

#[test]
fn num_native_wins_over_side_field() {
    let o = obj(vec![("x", Json::Int(1)), ("x_dec", jstr("2"))]);
    let m = PathMap::new(&o);
    assert_eq!(m.get_num("x").unwrap(), 1);
}

#[test]
fn num_side_field_wins_over_string() {
    let o = obj(vec![("x", jstr("3")), ("x_dec", jstr("2"))]);
    let m = PathMap::new(&o);
    assert_eq!(m.get_num("x").unwrap(), 2);
}

#[test]
fn num_negative_and_large() {
    let o = obj(vec![("a", Json::Int(-7)), ("b", jstr("-9223372036854775808")), ("c", jstr("0xFF"))]);
    let m = PathMap::new(&o);
    assert_eq!(m.get_num("a").unwrap(), -7);
    assert_eq!(m.get_num("b").unwrap(), i64::MIN);
    assert_eq!(m.get_num("c").unwrap(), 255);
}

#[test]
fn num_overflow_is_rejected() {
    let o = obj(vec![("x", jstr("9223372036854775808"))]);
    let m = PathMap::new(&o);
    let e = m.get_num("x").unwrap_err();
    assert_eq!(e.kind, ErrKind::ParseFailure);
}

#[test]
fn num_missing_is_rejected() {
    let o = obj(vec![("y", Json::Bool(true))]);
    let m = PathMap::new(&o);
    let e = m.get_num("x").unwrap_err();
    assert_eq!(e.kind, ErrKind::MissingOrInvalidNumber);
    assert_eq!(e.path, vec!["root".to_owned()]);
    assert_eq!(e.field, "x".to_owned());
}

#[test]
fn grams_rejects_hex() {
    let o = obj(vec![("x", jstr("0x2A"))]);
    let m = PathMap::new(&o);
    assert!(m.get_grams("x").is_err());
}

#[test]
fn grams_decimal_forms_agree() {
    let direct = obj(vec![("x", jstr("42"))]);
    let side = obj(vec![("x_dec", jstr("42"))]);
    let a = PathMap::new(&direct).get_grams("x").unwrap();
    let b = PathMap::new(&side).get_grams("x").unwrap();
    assert_eq!(a, 42u128);
    assert_eq!(a, b);
}

#[test]
fn grams_native_unsigned() {
    let o = obj(vec![("x", Json::UInt(18446744073709551615))]);
    let m = PathMap::new(&o);
    assert_eq!(m.get_grams("x").unwrap(), 18446744073709551615u128);
}

#[test]
fn grams_negative_is_rejected() {
    let o = obj(vec![("x", Json::Int(-1))]);
    let m = PathMap::new(&o);
    assert!(m.get_grams("x").is_err());
}

#[test]
fn grams_cap_is_enforced() {
    // One above the largest fifteen-byte amount.
    let o = obj(vec![("x", jstr("1329227995784915872903807060280344576"))]);
    let m = PathMap::new(&o);
    assert_eq!(m.get_grams("x").unwrap_err().kind, ErrKind::ParseFailure);
    let o2 = obj(vec![("x", jstr("1329227995784915872903807060280344575"))]);
    let m2 = PathMap::new(&o2);
    assert_eq!(m2.get_grams("x").unwrap(), (1u128 << 120) - 1);
}

#[test]
fn uint256_hex_forms() {
    let h = "00112233445566778899aabbccddeeff00112233445566778899AABBCCDDEEFF";
    let o = obj(vec![("h", jstr(h)), ("p", jstr(&format!("0x{}", h))), ("bad", jstr("00ff"))]);
    let m = PathMap::new(&o);
    let a = m.get_uint256("h").unwrap();
    let b = m.get_uint256("p").unwrap();
    assert_eq!(a.bytes, b.bytes);
    assert_eq!(a.bytes[0], 0x00);
    assert_eq!(a.bytes[1], 0x11);
    assert_eq!(a.bytes[31], 0xff);
    assert_eq!(m.get_uint256("bad").unwrap_err().kind, ErrKind::ParseFailure);
}

#[test]
fn base64_decodes() {
    let o = obj(vec![("b", jstr("aGVsbG8=")), ("bad", jstr("@@@@"))]);
    let m = PathMap::new(&o);
    assert_eq!(m.get_base64("b").unwrap(), b"hello".to_vec());
    assert_eq!(m.get_base64("bad").unwrap_err().kind, ErrKind::ParseFailure);
}

#[test]
fn bool_and_shape_errors() {
    let o = obj(vec![("b", Json::Bool(true)), ("n", Json::Int(3))]);
    let m = PathMap::new(&o);
    assert!(m.get_bool("b").unwrap());
    assert_eq!(m.get_bool("n").unwrap_err().kind, ErrKind::WrongType);
    assert_eq!(m.get_bool("absent").unwrap_err().kind, ErrKind::MissingField);
    assert_eq!(m.get_obj("n").unwrap_err().kind, ErrKind::WrongType);
    assert_eq!(m.get_vec("n").unwrap_err().kind, ErrKind::WrongType);
    assert_eq!(m.get_str("n").unwrap_err().kind, ErrKind::WrongType);
}

#[test]
fn narrowing_helpers_keep_values_on_failure() {
    let o = obj(vec![("x", Json::Int(300))]);
    let m = PathMap::new(&o);
    let mut a: u8 = 7;
    m.get_u8("x", &mut a);
    assert_eq!(a, 44); // 300 truncated to 8 bits
    let mut b: u16 = 9;
    m.get_u16("absent", &mut b);
    assert_eq!(b, 9);
    let mut c: u32 = 5;
    m.get_u32("x", &mut c);
    assert_eq!(c, 300);
    assert_eq!(m.get_num16("x").unwrap(), 300u16);
}

#[test]
fn cont_tracks_path() {
    let inner = Json::Obj(obj(vec![("y", Json::Int(1))]));
    let o = obj(vec![("arr", Json::Arr(vec![inner]))]);
    let m = PathMap::new(&o);
    let items = m.get_vec("arr").unwrap();
    let child = PathMap::cont(&m, "arr", &items[0]).unwrap();
    let e = child.get_num("z").unwrap_err();
    assert_eq!(e.path, vec!["root".to_owned(), "arr".to_owned()]);
    let bad = PathMap::cont(&m, "arr", &Json::Int(5)).unwrap_err();
    assert_eq!(bad.kind, ErrKind::WrongType);
}

#[test]
fn value_level_accessors() {
    assert_eq!(Json::Int(-3).as_i64(), Some(-3));
    assert_eq!(Json::UInt(u64::MAX).as_u64(), Some(u64::MAX));
    assert_eq!(Json::Int(-1).as_u64(), None);
    assert_eq!(Json::InexactNum.as_i64(), None);
    assert_eq!(Json::InexactNum.as_u64(), None);
}

#[test]
fn get_item_and_iter_expose_entries() {
    let o = obj(vec![("a", Json::Int(1)), ("b", Json::Null)]);
    let m = PathMap::new(&o);
    assert!(matches!(m.get_item("a").unwrap(), Json::Int(1)));
    assert_eq!(m.get_item("c").unwrap_err().kind, ErrKind::MissingField);
    let entries = m.iter();
    assert_eq!(entries.len(), 2);
    assert_eq!(entries[0].0, "a".to_owned());
}
