use mediawiki::json::{decode, Json};

fn string(text: &str) -> Json {
    Json::String(text.to_string())
}

fn object(fields: Vec<(&str, Json)>) -> Json {
    Json::Object(fields.into_iter().map(|(k, v)| (k.to_string(), v)).collect())
}

#[test]
fn decode_reads_an_object() {
    let json = decode("{\"login\":{\"result\":\"Success\"}}").unwrap();
    let expected = object(vec![("login", object(vec![("result", string("Success"))]))]);
    assert_eq!(json, expected);
}

#[test]
fn decode_reads_every_kind_of_value() {
    let json = decode("[null, true, false, 12, -7, 1.5, \"a\\\"b\", [], {}]").unwrap();
    let expected = Json::Array(vec![
        Json::Null,
        Json::Bool(true),
        Json::Bool(false),
        Json::Number("12".to_string()),
        Json::Number("-7".to_string()),
        Json::Number("1.5".to_string()),
        string("a\"b"),
        Json::Array(vec![]),
        Json::Object(vec![]),
    ]);
    assert_eq!(json, expected);
}

#[test]
fn decode_keeps_nested_records_in_order() {
    let json = decode("{\"query\":{\"tiles\":[{\"id\":3},{\"id\":1},{\"id\":2}]}}").unwrap();
    let tiles = json.get("query").unwrap().get("tiles").unwrap().as_array().unwrap();
    let ids: Vec<Json> = tiles.iter().map(|tile| tile.get("id").unwrap().clone()).collect();
    assert_eq!(
        ids,
        vec![
            Json::Number("3".to_string()),
            Json::Number("1".to_string()),
            Json::Number("2".to_string())
        ]
    );
}

#[test]
fn decode_refuses_what_is_not_json() {
    assert!(decode("").is_err());
    assert!(decode("{").is_err());
    assert!(decode("<html></html>").is_err());
    assert!(decode("{\"a\":1} trailing").is_err());
}

#[test]
fn decode_differs_from_its_input() {
    let text = "\"abc\"";
    assert_eq!(decode(text).unwrap(), string("abc"));
    assert_ne!(decode(text).unwrap(), string(text));
}

#[test]
fn get_finds_a_field_by_name() {
    let json = object(vec![("a", string("1")), ("b", string("2"))]);
    assert_eq!(json.get("a"), Some(&string("1")));
    assert_eq!(json.get("b"), Some(&string("2")));
    assert_eq!(json.get("c"), None);
    assert_eq!(json.get(""), None);
}

#[test]
fn get_takes_the_first_of_two_fields_of_one_name() {
    let json = object(vec![("a", string("first")), ("a", string("second"))]);
    assert_eq!(json.get("a"), Some(&string("first")));
}

#[test]
fn get_on_what_is_no_object_finds_nothing() {
    assert_eq!(string("a").get("a"), None);
    assert_eq!(Json::Null.get("a"), None);
    assert_eq!(Json::Array(vec![string("a")]).get("a"), None);
}

#[test]
fn at_indexes_an_array() {
    let json = Json::Array(vec![string("x"), string("y")]);
    assert_eq!(json.at(0), Some(&string("x")));
    assert_eq!(json.at(1), Some(&string("y")));
    assert_eq!(json.at(2), None);
    assert_eq!(object(vec![("0", string("x"))]).at(0), None);
}

#[test]
fn as_str_is_for_strings_only() {
    assert_eq!(string("abc").as_str(), Some("abc"));
    assert_eq!(string("").as_str(), Some(""));
    assert_eq!(Json::Number("1".to_string()).as_str(), None);
    assert_eq!(Json::Null.as_str(), None);
}

#[test]
fn as_array_and_as_object_tell_the_two_apart() {
    let array = Json::Array(vec![Json::Null]);
    let obj = object(vec![("k", Json::Null)]);
    assert_eq!(array.as_array(), Some(&vec![Json::Null]));
    assert_eq!(array.as_object(), None);
    assert_eq!(obj.as_object(), Some(&vec![("k".to_string(), Json::Null)]));
    assert_eq!(obj.as_array(), None);
}

#[test]
fn clone_copies_the_whole_tree() {
    let json = object(vec![
        ("list", Json::Array(vec![string("a"), object(vec![("deep", Json::Bool(true))])])),
        ("n", Json::Number("42".to_string())),
    ]);
    assert_eq!(json.clone(), json);
}
