use mediawiki::{Config, Mediawiki, RequestBuilder};

fn pair(key: &str, val: &str) -> (String, String) {
    (key.to_string(), val.to_string())
}

#[test]
fn new_builder_holds_format_json() {
    let request = RequestBuilder::new();
    assert_eq!(request.args(), &vec![pair("format", "json")]);
    assert_eq!(request.value("format"), Some("json"));
    assert_eq!(request.value("action"), None);
}

#[test]
fn session_request_is_a_new_builder() {
    let session = Mediawiki::new(Config {
        useragent: "agent".to_string(),
        username: String::new(),
        password: String::new(),
        baseapi: "http://wiki.test/api.php".to_string(),
    });
    assert_eq!(session.request().args(), RequestBuilder::new().args());
}

#[test]
fn arg_adds_arguments_in_order() {
    let mut request = RequestBuilder::new();
    request.arg("action", "query").arg("meta", "tokens");
    assert_eq!(
        request.args(),
        &vec![pair("format", "json"), pair("action", "query"), pair("meta", "tokens")]
    );
}

#[test]
fn setting_a_key_twice_keeps_the_last_value() {
    let mut request = RequestBuilder::new();
    request.arg("limit", "10");
    request.arg("other", "x");
    request.arg("limit", "20");
    assert_eq!(request.value("limit"), Some("20"));
    assert_eq!(
        request.args(),
        &vec![pair("format", "json"), pair("limit", "20"), pair("other", "x")]
    );
    let keys: Vec<&str> = request.args().iter().map(|(k, _)| k.as_str()).collect();
    assert_eq!(keys.iter().filter(|k| **k == "limit").count(), 1);
}

#[test]
fn setting_a_key_twice_equals_setting_it_once() {
    let mut twice = RequestBuilder::new();
    twice.arg("a", "1").arg("a", "2");
    let mut once = RequestBuilder::new();
    once.arg("a", "2");
    assert_eq!(twice.args(), once.args());
}

#[test]
fn the_seed_can_be_overwritten() {
    let mut request = RequestBuilder::new();
    request.arg("format", "xml");
    assert_eq!(request.args(), &vec![pair("format", "xml")]);
}

#[test]
fn argo_skips_absent_values() {
    let mut request = RequestBuilder::new();
    request.argo("tsmod", None).argo("tssummary", Some("why"));
    assert_eq!(request.args(), &vec![pair("format", "json"), pair("tssummary", "why")]);
    assert_eq!(request.value("tsmod"), None);
}

#[test]
fn empty_keys_and_values_are_arguments_too() {
    let mut request = RequestBuilder::new();
    request.arg("continue", "").arg("", "nameless");
    assert_eq!(request.value("continue"), Some(""));
    assert_eq!(request.value(""), Some("nameless"));
}

#[test]
fn a_clone_is_independent() {
    let mut request = RequestBuilder::new();
    request.arg("a", "1");
    let copy = request.clone();
    request.arg("a", "2");
    assert_eq!(copy.value("a"), Some("1"));
    assert_eq!(request.value("a"), Some("2"));
}
