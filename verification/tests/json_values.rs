use orion_ai::decimal::Decimal;
use orion_ai::json::{member_value, parse_json, set_member, JsonMember, JsonValue};

#[test]
fn documents_are_read_into_trees() {
    let value = parse_json(
        "{\"b\": [1, \"two\", null, true, {\"deep\": -3}], \"a\": 85.5, \"n\": 18446744073709551615}",
    )
    .unwrap();
    assert_eq!(value.get_u64("n"), Some(18446744073709551615));
    assert_eq!(value.get("a").unwrap().as_decimal(), Some(Decimal { thousandths: 85500 }));
    assert_eq!(value.get_u64("a"), None);
    let items = value.get("b").unwrap().as_array().unwrap();
    assert_eq!(items.len(), 5);
    assert_eq!(items[0], JsonValue::Number("1".to_string()));
    assert_eq!(items[1], JsonValue::text("two"));
    assert_eq!(items[2], JsonValue::Null);
    assert_eq!(items[3].as_bool(), Some(true));
    assert_eq!(items[4].get("deep"), Some(&JsonValue::Number("-3".to_string())));
    assert_eq!(items[4].get("deep").unwrap().as_u64(), None);
    assert_eq!(
        items[4].get("deep").unwrap().as_decimal(),
        Some(Decimal { thousandths: -3000 })
    );
    assert_eq!(value.get("missing"), None);
    assert_eq!(value.get_str("a"), None);
    assert!(parse_json("{\"a\": ").is_err());
    assert!(!parse_json("{\"a\": ").unwrap_err().is_empty());
    assert_eq!(parse_json("\"text\""), Ok(JsonValue::text("text")));
}

#[test]
fn members_are_looked_up_from_the_front() {
    let mut members = vec![JsonMember::number("a", 1), JsonMember::text("b", "x")];
    set_member(&mut members, "a", JsonValue::unsigned(2));
    set_member(&mut members, "c", JsonValue::Bool(true));
    assert_eq!(members.len(), 3);
    assert_eq!(member_value(&members, "a"), Some(&JsonValue::Number("2".to_string())));
    assert_eq!(member_value(&members, "c"), Some(&JsonValue::Bool(true)));
    assert_eq!(member_value(&members, "d"), None);
    let object = JsonValue::object(members);
    assert_eq!(object.get_u64("a"), Some(2));
    assert_eq!(object.clone(), object);
    assert_eq!(JsonValue::unsigned(0), JsonValue::Number("0".to_string()));
    assert_eq!(JsonValue::Number("+5".to_string()).as_u64(), None);
    assert_eq!(JsonValue::Number("05".to_string()).as_u64(), Some(5));
}

#[test]
fn decimals_are_read_and_written() {
    assert_eq!(Decimal::parse("85"), Some(Decimal { thousandths: 85000 }));
    assert_eq!(Decimal::parse("85.5"), Some(Decimal { thousandths: 85500 }));
    assert_eq!(Decimal::parse("0.1239"), Some(Decimal { thousandths: 123 }));
    assert_eq!(Decimal::parse("-2.05"), Some(Decimal { thousandths: -2050 }));
    assert_eq!(Decimal::parse("+7."), Some(Decimal { thousandths: 7000 }));
    assert_eq!(Decimal::parse(".5"), None);
    assert_eq!(Decimal::parse("1e3"), None);
    assert_eq!(Decimal::parse(""), None);
    assert_eq!(Decimal::parse("1.2.3"), None);
    assert_eq!(Decimal::parse("9000000000000000"), Some(Decimal { thousandths: 9000000000000000000 }));
    assert_eq!(Decimal::parse("9000000000000001"), None);
    assert_eq!(Decimal::from_whole(100), Decimal { thousandths: 100000 });
    assert!(Decimal { thousandths: 80001 }.exceeds(80));
    assert!(!Decimal { thousandths: 80000 }.exceeds(80));
    assert_eq!(Decimal { thousandths: 85000 }.to_tenths_text(), "85.0");
    assert_eq!(Decimal { thousandths: 85250 }.to_tenths_text(), "85.2");
    assert_eq!(Decimal { thousandths: 85350 }.to_tenths_text(), "85.4");
    assert_eq!(Decimal { thousandths: 85251 }.to_tenths_text(), "85.3");
    assert_eq!(Decimal { thousandths: 9999 }.to_tenths_text(), "10.0");
    assert_eq!(Decimal { thousandths: -40 }.to_tenths_text(), "-0.0");
    assert_eq!(Decimal { thousandths: i64::MIN }.to_tenths_text(), "-9223372036854775.8");
    assert_eq!(Decimal { thousandths: 85000 }.to_plain_text(), "85.0");
    assert_eq!(Decimal { thousandths: 85500 }.to_plain_text(), "85.5");
    assert_eq!(Decimal { thousandths: 85120 }.to_plain_text(), "85.12");
    assert_eq!(Decimal { thousandths: -7 }.to_plain_text(), "-0.007");
}
