use dirwatch::FsEvent;
use dirwatch::FsEventKind;
use dirwatch::Timestamp;
use dirwatch::convert_event;
use dirwatch::encode_at;

fn event(kind: FsEventKind, paths: &[&str]) -> FsEvent {
    FsEvent { kind, paths: paths.iter().map(|p| p.to_string()).collect() }
}

#[test]
fn create_event_exact_wire_form() {
    let e = encode_at(
        event(FsEventKind::Create, &["/tmp/a/x.txt"]),
        Timestamp { secs: 1700000000, nanos: 123456789 },
    );
    assert_eq!(
        e.serialize(),
        "{\"event\":{\"kind\":\"create\",\"paths\":[\"/tmp/a/x.txt\"]},\"timestamp\":1700000000.123456789}"
    );
}

#[test]
fn every_kind_has_its_label() {
    let cases = [
        (FsEventKind::Create, "create"),
        (FsEventKind::Modify, "modify"),
        (FsEventKind::Remove, "remove"),
        (FsEventKind::Rename, "rename"),
        (FsEventKind::Other, "other"),
    ];
    for (kind, label) in cases {
        let e = encode_at(event(kind, &[]), Timestamp { secs: 2, nanos: 0 });
        let expected = format!(
            "{{\"event\":{{\"kind\":\"{}\",\"paths\":[]}},\"timestamp\":2.000000000}}",
            label
        );
        assert_eq!(e.serialize(), expected);
    }
}

#[test]
fn multiple_paths_are_comma_separated() {
    let e = encode_at(
        event(FsEventKind::Rename, &["/tmp/a/old", "/tmp/a/new"]),
        Timestamp { secs: 3, nanos: 500000000 },
    );
    assert_eq!(
        e.serialize(),
        "{\"event\":{\"kind\":\"rename\",\"paths\":[\"/tmp/a/old\",\"/tmp/a/new\"]},\"timestamp\":3.500000000}"
    );
}

#[test]
fn paths_are_escaped_for_json() {
    let e = encode_at(
        event(FsEventKind::Other, &["a\"b\\c\nd"]),
        Timestamp { secs: 1, nanos: 1 },
    );
    assert_eq!(
        e.serialize(),
        "{\"event\":{\"kind\":\"other\",\"paths\":[\"a\\\"b\\\\c\\nd\"]},\"timestamp\":1.000000001}"
    );
}

#[test]
fn control_characters_use_unicode_escapes() {
    let e = encode_at(
        event(FsEventKind::Other, &["\u{1}tab\there\u{1f}"]),
        Timestamp { secs: 0, nanos: 0 },
    );
    assert_eq!(
        e.serialize(),
        "{\"event\":{\"kind\":\"other\",\"paths\":[\"\\u0001tab\\there\\u001f\"]},\"timestamp\":0.000000000}"
    );
}

#[test]
fn path_escaping_matches_reference_encoder() {
    let tricky = [
        "plain",
        "q\"uote",
        "back\\slash",
        "new\nline",
        "ctl\u{1}",
        "tab\tand\rreturn",
        "\u{8}\u{c}",
        "unicode \u{b5} and \u{1f4a1}",
    ];
    for p in tricky {
        let e = encode_at(event(FsEventKind::Other, &[p]), Timestamp { secs: 0, nanos: 0 });
        let expected = format!(
            "{{\"event\":{{\"kind\":\"other\",\"paths\":[{}]}},\"timestamp\":0.000000000}}",
            serde_json::to_string(p).unwrap()
        );
        assert_eq!(e.serialize(), expected);
    }
}

#[test]
fn timestamp_is_zero_padded_to_nine_fractional_digits() {
    let e = encode_at(event(FsEventKind::Modify, &[]), Timestamp { secs: 0, nanos: 5 });
    assert_eq!(
        e.serialize(),
        "{\"event\":{\"kind\":\"modify\",\"paths\":[]},\"timestamp\":0.000000005}"
    );
    let e = encode_at(
        event(FsEventKind::Modify, &[]),
        Timestamp { secs: 18446744073709551615, nanos: 999999999 },
    );
    assert_eq!(
        e.serialize(),
        "{\"event\":{\"kind\":\"modify\",\"paths\":[]},\"timestamp\":18446744073709551615.999999999}"
    );
}

#[test]
fn convert_event_keeps_notification_and_bounds_nanos() {
    let n = convert_event(event(FsEventKind::Create, &["/tmp/a/x.txt"]));
    assert_eq!(n.event.kind, FsEventKind::Create);
    assert_eq!(n.event.paths, vec![String::from("/tmp/a/x.txt")]);
    assert!(n.timestamp.nanos < 1_000_000_000);
}
