use pessimal::ident::Uuid;
use pessimal::json::{put, Json};
use pessimal::number::Number;
use pessimal::text;
use pessimal::text_map::TextMap;

#[test]
fn white_space_is_trimmed_at_both_ends() {
    for s in [
        "",
        "  ",
        " a b ",
        "\t\n\r\u{b}\u{c}x\u{85}\u{a0}",
        "\u{1680}\u{2000}\u{200a}\u{2028}\u{2029}\u{202f}\u{205f}\u{3000}y",
        "\u{200b}z\u{200b}",
    ] {
        assert_eq!(text::trim(s), s.trim());
    }
    for code in 0..0x11_0000u32 {
        if let Some(c) = char::from_u32(code) {
            assert_eq!(text::is_white_space(c), c.is_whitespace(), "{code:x}");
        }
    }
}

#[test]
fn only_ascii_letters_are_lowered() {
    assert_eq!(text::to_lower("SigNoz ÄÖ 09"), "signoz ÄÖ 09");
    assert_eq!(text::to_lower("AZaz@[`{"), "azaz@[`{");
}

#[test]
fn integers_are_written_in_decimal() {
    for n in [0, 7, 10, 99, 100, u64::MAX] {
        assert_eq!(text::numeral_of(n), format!("{n}"));
    }
    for n in [0, -1, -10, 42, i64::MAX, i64::MIN] {
        assert_eq!(text::decimal_of(n), format!("{n}"));
    }
}

#[test]
fn strings_are_ordered_as_std_orders_them() {
    let all = ["", "a", "aa", "ab", "b", "B", "é", "\u{10000}", "\u{ffff}", "a\u{0}"];
    for a in all {
        for b in all {
            assert_eq!(text::comes_before(a, b), a < b, "{a:?} {b:?}");
            assert_eq!(text::same(a, b), a == b);
            assert_eq!(text::has_prefix(a, b), a.starts_with(b));
        }
    }
}

#[test]
fn bytes_are_written_in_lowercase_hex() {
    assert_eq!(text::hex_of(&[0x00, 0x0f, 0xa5, 0xff]), "000fa5ff");
    assert_eq!(text::hex_of(&[]), "");
}

#[test]
fn splitting_keeps_empty_fields_and_joining_undoes_it() {
    for s in ["", ".", "1.2.3", "..a.", "plain"] {
        let expected: Vec<String> = s.split('.').map(str::to_owned).collect();
        assert_eq!(text::split(s, '.'), expected);
        assert_eq!(text::join_first(&expected, usize::MAX, '.'), s);
    }
    assert_eq!(text::join_first(&text::split("1.2.3", '.'), 2, '.'), "1.2");
    assert_eq!(text::join_first(&text::split("1.2.3", '.'), 0, '.'), "");
}

#[test]
fn characters_and_strings_go_both_ways() {
    let chars = text::chars_of("aé\u{10000}");
    assert_eq!(chars, vec!['a', 'é', '\u{10000}']);
    assert_eq!(text::string_of(&chars), "aé\u{10000}");
    assert_eq!(text::clone_optional(&None), None);
    assert_eq!(
        text::clone_all(&vec!["a".to_owned(), "b".to_owned()]),
        vec!["a".to_owned(), "b".to_owned()]
    );
}

#[test]
fn a_map_is_kept_in_key_order_and_holds_the_last_value() {
    let mut map = TextMap::new();
    assert!(map.is_empty());
    for (key, value) in [("m", "1"), ("z", "2"), ("a", "3"), ("m", "4")] {
        map.insert(key.to_owned(), value.to_owned());
    }
    assert!(!map.is_empty());
    let pairs: Vec<(&str, &str)> = map
        .entries()
        .iter()
        .map(|(k, v)| (k.as_str(), v.as_str()))
        .collect();
    assert_eq!(pairs, vec![("a", "3"), ("m", "4"), ("z", "2")]);
    assert_eq!(map.get("m").map(String::as_str), Some("4"));
    assert_eq!(map.get("b"), None);
    assert_eq!(map.get("zz"), None);
    assert_eq!(map.clone(), map);
}

#[test]
fn identifiers_are_read_and_written_as_uuid_does() {
    let hyphenated = "01890a5d-ac96-774b-bcce-b302099a8057";
    let id = Uuid::parse_str(hyphenated).expect("a UUID");
    assert_eq!(id.bytes[0], 0x01);
    assert_eq!(id.bytes[15], 0x57);
    assert_eq!(id.to_string(), hyphenated);
    assert_eq!(Uuid::from_bytes(id.bytes), id);
    assert_eq!(Uuid::parse_str("01890a5dac96774bbcceb302099a8057"), Ok(id));
    assert_eq!(
        Uuid::parse_str("urn:uuid:01890A5D-AC96-774B-BCCE-B302099A8057"),
        Ok(id)
    );
    assert!(Uuid::parse_str("not-a-uuid").is_err());
    assert!(Uuid::parse_str("").is_err());
}

#[test]
fn minted_identifiers_are_version_seven_and_distinct() {
    let a = Uuid::now_v7();
    let b = Uuid::now_v7();
    assert_eq!(a.bytes[6] >> 4, 7);
    assert_eq!(a.bytes[8] >> 6, 2);
    assert_ne!(a, b);
}

#[test]
fn numbers_compare_as_floats_do() {
    let values = [
        f64::NEG_INFINITY,
        f64::MIN,
        -1.5,
        -f64::MIN_POSITIVE,
        -5e-324,
        -0.0,
        0.0,
        5e-324,
        0.1,
        1.0,
        f64::MAX,
        f64::INFINITY,
        f64::NAN,
        -f64::NAN,
    ];
    for a in values {
        let x = Number::from_bits(a.to_bits());
        assert_eq!(x.is_nan(), a.is_nan());
        assert_eq!(x.is_finite(), a.is_finite());
        assert_eq!(x.is_negative(), a.is_sign_negative());
        for b in values {
            let y = Number::from_bits(b.to_bits());
            assert_eq!(x.less(y), a < b, "{a} {b}");
            assert_eq!(x.at_most(y), a <= b, "{a} {b}");
        }
    }
}

#[test]
fn documents_are_built_from_their_parts() {
    let mut fields: Vec<(String, Json)> = Vec::new();
    put(&mut fields, "a", Json::text("x"));
    put(&mut fields, "b", Json::Number(1));
    assert_eq!(
        Json::object(fields),
        Json::pair("a", Json::text("x"), "b", Json::Number(1))
    );
    assert_eq!(
        Json::wrapped("k", Json::singleton(Json::Number(2))),
        Json::Object(vec![(
            "k".to_owned(),
            Json::list(vec![Json::Number(2)])
        )])
    );
}
