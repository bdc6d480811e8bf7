use alarm_core::DataSink;
use alarm_core::Level;
use alarm_core::PlaceholderMap;
use alarm_core::timefmt::dec_string;
use alarm_core::timefmt::iso8601;
use alarm_core::timefmt::pad2_string;
use alarm_core::timefmt::pad4_string;

#[test]
fn empty_map_has_no_entries() {
    let m = PlaceholderMap::new();
    assert_eq!(m.len(), 0);
    assert!(m.get("anything").is_none());
    assert!(!m.contains_key("anything"));
}

#[test]
fn insert_and_get() {
    let mut m = PlaceholderMap::new();
    m.insert(String::from("a"), String::from("1"));
    m.insert(String::from("b"), String::from("2"));
    assert_eq!(m.len(), 2);
    assert_eq!(m.get("a").unwrap().as_str(), "1");
    assert_eq!(m.get("b").unwrap().as_str(), "2");
    assert!(m.get("c").is_none());
}

#[test]
fn insert_overwrites_existing_key() {
    let mut m = PlaceholderMap::new();
    m.insert(String::from("a"), String::from("1"));
    m.insert(String::from("a"), String::from("9"));
    assert_eq!(m.len(), 1);
    assert_eq!(m.get("a").unwrap().as_str(), "9");
}

#[test]
fn merge_is_left_biased() {
    let mut target = PlaceholderMap::new();
    target.insert(String::from("a"), String::from("1"));
    target.insert(String::from("b"), String::from("2"));
    let mut source = PlaceholderMap::new();
    source.insert(String::from("b"), String::from("9"));
    source.insert(String::from("c"), String::from("3"));
    target.merge(&source);
    assert_eq!(target.len(), 3);
    assert_eq!(target.get("a").unwrap().as_str(), "1");
    assert_eq!(target.get("b").unwrap().as_str(), "2");
    assert_eq!(target.get("c").unwrap().as_str(), "3");
    // The source is untouched.
    assert_eq!(source.len(), 2);
    assert_eq!(source.get("b").unwrap().as_str(), "9");
}

#[test]
fn pairs_reflect_contents() {
    let mut m = PlaceholderMap::new();
    m.insert(String::from("k"), String::from("v"));
    let pairs = m.pairs();
    assert_eq!(pairs.len(), 1);
    assert_eq!(pairs[0].0.as_str(), "k");
    assert_eq!(pairs[0].1.as_str(), "v");
}

#[test]
fn decimal_rendering() {
    assert_eq!(dec_string(0).as_str(), "0");
    assert_eq!(dec_string(7).as_str(), "7");
    assert_eq!(dec_string(12345).as_str(), "12345");
    assert_eq!(dec_string(u64::MAX).as_str(), "18446744073709551615");
}

#[test]
fn padded_rendering() {
    assert_eq!(pad2_string(3).as_str(), "03");
    assert_eq!(pad2_string(42).as_str(), "42");
    assert_eq!(pad4_string(3).as_str(), "0003");
    assert_eq!(pad4_string(42).as_str(), "0042");
    assert_eq!(pad4_string(999).as_str(), "0999");
    assert_eq!(pad4_string(2023).as_str(), "2023");
}

#[test]
fn iso8601_rendering() {
    assert_eq!(iso8601(0).as_str(), "1970-01-01T00:00:00Z");
    assert_eq!(iso8601(951782400).as_str(), "2000-02-29T00:00:00Z");
    assert_eq!(iso8601(1700000000).as_str(), "2023-11-14T22:13:20Z");
    // The last second of a year.
    assert_eq!(iso8601(1704067199).as_str(), "2023-12-31T23:59:59Z");
}

#[test]
fn level_formats_samples_in_decimal() {
    assert_eq!(<Level as DataSink>::format_data(&0).as_str(), "0");
    assert_eq!(<Level as DataSink>::format_data(&207).as_str(), "207");
}
