use cpal_pipewire::decimal::to_decimal;
use cpal_pipewire::properties::Properties;

#[test]
fn get_returns_first_value_for_key() {
    let mut p = Properties::new();
    p.push("a".to_string(), "1".to_string());
    p.push("b".to_string(), "2".to_string());
    p.push("a".to_string(), "3".to_string());
    assert_eq!(p.get("a"), Some("1".to_string()));
    assert_eq!(p.get("b"), Some("2".to_string()));
    assert_eq!(p.get("c"), None);
}

#[test]
fn get_on_empty_properties() {
    let p = Properties::new();
    assert_eq!(p.get("media.class"), None);
}

#[test]
fn decimal_text_of_numbers() {
    assert_eq!(to_decimal(0), "0");
    assert_eq!(to_decimal(7), "7");
    assert_eq!(to_decimal(10), "10");
    assert_eq!(to_decimal(176400), "176400");
    assert_eq!(to_decimal(u32::MAX), "4294967295");
}
