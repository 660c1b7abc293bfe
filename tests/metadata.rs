use kismet_probes::json::probed_ssids_in;
use kismet_probes::text::normalize_device_type;
use kismet_probes::value::parse_metadata;
use kismet_probes::Json;

fn is_empty_object(j: &Json) -> bool {
    match j {
        Json::Object(m) => m.is_empty(),
        _ => false,
    }
}

#[test]
fn invalid_json_gives_empty_object() {
    assert!(is_empty_object(&parse_metadata(b"{not json")));
    assert!(is_empty_object(&parse_metadata(b"")));
    assert!(is_empty_object(&parse_metadata(&[0xff, 0xfe, 0x00])));
}

#[test]
fn valid_json_is_kept() {
    let doc = parse_metadata(br#"{"a": [1, true, null, "x"], "b": {"c": 2.5}}"#);
    let a = doc.get("a").expect("member a");
    match a {
        Json::Array(items) => {
            assert_eq!(items.len(), 4);
            assert!(matches!(&items[0], Json::Number(n) if n == "1"));
            assert!(matches!(&items[1], Json::Bool(true)));
            assert!(matches!(&items[2], Json::Null));
            assert!(matches!(&items[3], Json::Str(s) if s == "x"));
        }
        _ => panic!("member a is not an array"),
    }
    let c = doc.get("b").and_then(|b| b.get("c")).expect("member b.c");
    assert!(matches!(c, Json::Number(n) if n == "2.5"));
    assert!(doc.get("missing").is_none());
}

#[test]
fn invalid_utf8_is_replaced() {
    let doc = parse_metadata(b"{\"a\": \"x\xffy\"}");
    let a = doc.get("a").expect("member a");
    assert!(matches!(a, Json::Str(s) if s == "x\u{FFFD}y"));
}

#[test]
fn scalar_document_is_kept() {
    assert!(matches!(parse_metadata(b"42"), Json::Number(n) if n == "42"));
    assert!(matches!(parse_metadata(b" \"hi\" "), Json::Str(s) if s == "hi"));
}

#[test]
fn empty_metadata_has_no_probes() {
    let doc = parse_metadata(b"{}");
    assert!(probed_ssids_in(&doc).is_empty());
    assert!(probed_ssids_in(&Json::empty_object()).is_empty());
}

#[test]
fn probes_skip_empty_names() {
    let doc = parse_metadata(
        br#"{"device-info": {"probed-ssid-map": {"0": {"ssid": "HomeNet"}, "1": {"ssid": ""}, "2": {"ssid": "CafeWifi"}}}}"#,
    );
    assert_eq!(probed_ssids_in(&doc), vec!["HomeNet".to_string(), "CafeWifi".to_string()]);
}

#[test]
fn device_info_not_object_has_no_probes() {
    let doc = parse_metadata(br#"{"device-info": "not-an-object"}"#);
    assert!(probed_ssids_in(&doc).is_empty());
}

#[test]
fn probe_map_not_object_has_no_probes() {
    let doc = parse_metadata(br#"{"device-info": {"probed-ssid-map": [{"ssid": "A"}]}}"#);
    assert!(probed_ssids_in(&doc).is_empty());
    let doc = parse_metadata(br#"[1, 2]"#);
    assert!(probed_ssids_in(&doc).is_empty());
}

#[test]
fn probe_entries_of_wrong_shape_are_skipped() {
    let doc = parse_metadata(
        br#"{"device-info": {"probed-ssid-map": {"a": {"ssid": 7}, "b": "x", "c": {"other": "y"}, "d": {"ssid": "Net"}}}}"#,
    );
    assert_eq!(probed_ssids_in(&doc), vec!["Net".to_string()]);
}

#[test]
fn normalize_strips_space_and_one_quote_layer() {
    assert_eq!(normalize_device_type("  'Wi-Fi AP'  "), "Wi-Fi AP");
    assert_eq!(normalize_device_type("Wi-Fi AP"), "Wi-Fi AP");
    assert_eq!(normalize_device_type("''x''"), "'x'");
    assert_eq!(normalize_device_type("'it's'"), "it's");
    assert_eq!(normalize_device_type("\t\n "), "");
    assert_eq!(normalize_device_type("'"), "");
    assert_eq!(normalize_device_type(""), "");
}

#[test]
fn normalize_is_idempotent_on_bare_results() {
    for s in ["  'Wi-Fi AP'  ", "Wi-Fi Client", "'Wi-Fi Bridged'", "\u{3000}abc\u{A0}"] {
        let once = normalize_device_type(s);
        assert_eq!(normalize_device_type(&once), once);
    }
}
