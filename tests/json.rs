use gluster_volume_plugin::heketi::CreateVolumeRequest;
use gluster_volume_plugin::json::decimal;

#[test]
fn decimal_text() {
    assert_eq!(decimal(0), "0");
    assert_eq!(decimal(7), "7");
    assert_eq!(decimal(10), "10");
    assert_eq!(decimal(1234567890), "1234567890");
    assert_eq!(decimal(usize::MAX), usize::MAX.to_string());
}

fn body_name(name: &str) -> String {
    let req = CreateVolumeRequest { size: 5, name: name.to_string(), durability: None };
    req.to_json()
}

#[test]
fn name_escapes_in_body() {
    assert_eq!(body_name(""), r#"{"size":5,"name":""}"#);
    assert_eq!(body_name("a\"b\\c"), r#"{"size":5,"name":"a\"b\\c"}"#);
    assert_eq!(body_name("\n\r\t\u{8}\u{c}"), r#"{"size":5,"name":"\n\r\t\b\f"}"#);
    assert_eq!(body_name("\u{1}\u{1f}"), r#"{"size":5,"name":"\u0001\u001f"}"#);
    assert_eq!(body_name("é✓"), "{\"size\":5,\"name\":\"é✓\"}");
}

#[test]
fn name_in_body_agrees_with_serde_json() {
    for s in ["plain", "quote\"", "tab\t", "\u{0}\u{7f}", "ünïcødé", "back\\slash"] {
        let expected = format!("{{\"size\":5,\"name\":{}}}", serde_json::to_string(s).unwrap());
        assert_eq!(body_name(s), expected);
    }
}
