use prompt_sanitizer::contract::Request;
use prompt_sanitizer::wire::encode_request;

fn request() -> Request {
    Request {
        text: "say \"hi\"\n to bob@example.com".to_string(),
        mode: "fast".to_string(),
        strategy: "mask".to_string(),
        level: "high".to_string(),
        enabled_categories: vec!["email".to_string(), "phone".to_string()],
        allowlist: vec![],
        semantic_mode: "off".to_string(),
    }
}

#[test]
fn request_document_exact() {
    let doc = encode_request(&request());
    assert_eq!(
        doc,
        r#"{"text":"say \"hi\"\n to bob@example.com","mode":"fast","strategy":"mask","level":"high","enabled_categories":["email","phone"],"allowlist":[],"semantic_mode":"off"}"#
    );
}

#[test]
fn request_round_trips_through_json() {
    let mut r = request();
    r.allowlist = vec!["bob@example.com".to_string(), "ünï\tcode".to_string()];
    let doc = encode_request(&r);
    let v: serde_json::Value = serde_json::from_str(&doc).unwrap();
    let obj = v.as_object().unwrap();
    assert_eq!(obj.len(), 7);
    assert_eq!(obj["text"].as_str().unwrap(), r.text);
    assert_eq!(obj["mode"].as_str().unwrap(), r.mode);
    assert_eq!(obj["strategy"].as_str().unwrap(), r.strategy);
    assert_eq!(obj["level"].as_str().unwrap(), r.level);
    assert_eq!(obj["semantic_mode"].as_str().unwrap(), r.semantic_mode);
    let cats: Vec<String> = obj["enabled_categories"]
        .as_array()
        .unwrap()
        .iter()
        .map(|x| x.as_str().unwrap().to_string())
        .collect();
    assert_eq!(cats, r.enabled_categories);
    let allow: Vec<String> = obj["allowlist"]
        .as_array()
        .unwrap()
        .iter()
        .map(|x| x.as_str().unwrap().to_string())
        .collect();
    assert_eq!(allow, r.allowlist);
}

#[test]
fn empty_request_document() {
    let r = Request {
        text: String::new(),
        mode: String::new(),
        strategy: String::new(),
        level: String::new(),
        enabled_categories: vec![],
        allowlist: vec![],
        semantic_mode: String::new(),
    };
    assert_eq!(
        encode_request(&r),
        r#"{"text":"","mode":"","strategy":"","level":"","enabled_categories":[],"allowlist":[],"semantic_mode":""}"#
    );
}

#[test]
fn every_escape_form() {
    let r = Request {
        text: "q\"b\\\u{8}\u{c}\n\r\t\u{1}\u{1f}\u{7f}é".to_string(),
        mode: String::new(),
        strategy: String::new(),
        level: String::new(),
        enabled_categories: vec![],
        allowlist: vec![],
        semantic_mode: String::new(),
    };
    let doc = encode_request(&r);
    let expected = "{\"text\":\"q\\\"b\\\\\\b\\f\\n\\r\\t\\u0001\\u001f\u{7f}é\",\"mode\"";
    assert!(doc.starts_with(expected), "{}", doc);
}
