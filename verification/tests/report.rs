use rumqtt_quic::report::{svg_name, Print};

#[test]
fn svg_name_replaces_extension() {
    assert_eq!(svg_name("rumqttc.pb"), "rumqttc.svg");
}

#[test]
fn svg_name_replaces_every_occurrence() {
    assert_eq!(svg_name("a.pb.pb"), "a.svg.svg");
    assert_eq!(svg_name("x.pb/y.pb"), "x.svg/y.svg");
}

#[test]
fn svg_name_without_extension_is_unchanged() {
    assert_eq!(svg_name("profile"), "profile");
    assert_eq!(svg_name(""), "");
    assert_eq!(svg_name(".p"), ".p");
    assert_eq!(svg_name("pb"), "pb");
}

#[test]
fn svg_name_matches_left_to_right() {
    assert_eq!(svg_name("..pbb"), "..svgb");
    assert_eq!(svg_name(".pbpb"), ".svgpb");
    assert_eq!(svg_name("..pb"), "..svg");
}

#[test]
fn svg_name_agrees_with_str_replace() {
    for name in ["bench.pb", "é.pb", "a.pbc.pb", ".pb", "no ext", "p.b.pb.."] {
        assert_eq!(svg_name(name), name.replace(".pb", ".svg"));
    }
}

#[test]
fn svg_name_is_idempotent() {
    for name in ["bench.pb", "..pbb", ".pb.pb", "plain"] {
        let once = svg_name(name);
        assert_eq!(svg_name(&once), once);
        assert!(!once.contains(".pb"));
    }
}

#[test]
fn print_holds_its_fields() {
    let p = Print { id: "client-1".to_string(), messages: 1000, payload_size: 100, throughput: 5000 };
    assert_eq!(p.id, "client-1");
    assert_eq!(p.messages, 1000);
    assert_eq!(p.payload_size, 100);
    assert_eq!(p.throughput, 5000);
}
