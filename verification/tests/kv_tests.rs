use chat_core::kv::{parse_kv_pair, KvError, KvPair};

#[test]
fn plain_pair_is_split_on_the_first_equals() {
    let kv = parse_kv_pair("a=b").unwrap();
    assert_eq!(kv.k, "a");
    assert_eq!(kv.v, "b");
}

#[test]
fn value_stops_at_the_second_equals() {
    let kv = parse_kv_pair("a=b=c").unwrap();
    assert_eq!(kv.k, "a");
    assert_eq!(kv.v, "b");
}

#[test]
fn missing_separator_is_rejected() {
    assert_eq!(parse_kv_pair("ab").unwrap_err(), KvError::MissingSeparator);
    assert_eq!(parse_kv_pair("").unwrap_err(), KvError::MissingSeparator);
}

#[test]
fn empty_key_and_empty_value_are_accepted() {
    let kv = parse_kv_pair("=x").unwrap();
    assert_eq!(kv.k, "");
    assert_eq!(kv.v, "x");
    let kv = parse_kv_pair("a=").unwrap();
    assert_eq!(kv.k, "a");
    assert_eq!(kv.v, "");
}

#[test]
fn from_str_and_parse_kv_pair_agree() {
    let a = KvPair::from_str("name=verus").unwrap();
    let b = parse_kv_pair("name=verus").unwrap();
    assert_eq!(a, b);
}
