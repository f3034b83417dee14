use cervine::Cow;

// A container travels as its bare view and comes back owned.

fn to_wire(cow: &Cow<String, str>) -> String {
    serde_json::to_string(cow.as_view()).unwrap()
}

fn from_wire(wire: &str) -> Result<Cow<'static, String, str>, serde_json::Error> {
    serde_json::from_str::<String>(wire).map(Cow::Owned)
}

#[test]
fn the_wire_form_carries_no_variant() {
    let text = String::from("on the wire");
    let owned: Cow<String, str> = Cow::Owned(text.clone());
    let borrowed: Cow<String, str> = Cow::Borrowed(&text);
    assert_eq!(to_wire(&owned), "\"on the wire\"");
    assert_eq!(to_wire(&borrowed), "\"on the wire\"");
    assert_eq!(to_wire(&owned), serde_json::to_string("on the wire").unwrap());
}

#[test]
fn round_trip_gives_an_owned_container_with_the_same_view() {
    let text = String::from("round trip");
    let sources: [Cow<String, str>; 2] = [Cow::Owned(text.clone()), Cow::Borrowed(&text)];
    for source in &sources {
        let back = from_wire(&to_wire(source)).unwrap();
        assert!(back.is_owned());
        assert_eq!(back.as_view(), source.as_view());
        assert!(back == *source.as_view());
    }
}

#[test]
fn reading_in_place_refills_either_variant() {
    let text = String::from("before");
    let mut targets: [Cow<String, str>; 2] = [Cow::Owned(text.clone()), Cow::Borrowed(&text)];
    for target in targets.iter_mut() {
        let outcome = target.refill(
            "\"after\"",
            |wire, payload| serde_json::from_str::<String>(wire).map(|fresh| *payload = fresh),
            |wire| serde_json::from_str::<String>(wire),
        );
        assert!(outcome.is_ok());
        assert!(target.is_owned());
        assert_eq!(target.as_view(), "after");
    }
}

#[test]
fn a_malformed_wire_form_builds_no_container() {
    assert!(from_wire("not json").is_err());
    let text = String::from("kept");
    let mut target: Cow<String, str> = Cow::Borrowed(&text);
    let outcome = target.refill(
        "not json",
        |wire, payload| serde_json::from_str::<String>(wire).map(|fresh| *payload = fresh),
        |wire| serde_json::from_str::<String>(wire),
    );
    assert!(outcome.is_err());
    assert!(target.is_borrowed());
    assert_eq!(target.as_view(), "kept");
}
