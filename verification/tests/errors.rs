use opendeck::error::{decimal_text, Error, Invalid, LoadError, SaveError, Unresolved};
use opendeck::json::{array_document, failure_document};

#[test]
fn decimal_text_of_numbers() {
    assert_eq!(decimal_text(0), "0");
    assert_eq!(decimal_text(7), "7");
    assert_eq!(decimal_text(10), "10");
    assert_eq!(decimal_text(255), "255");
    assert_eq!(decimal_text(65025), "65025");
    assert_eq!(decimal_text(1234567890), "1234567890");
    assert_eq!(decimal_text(usize::MAX), usize::MAX.to_string());
}

#[test]
fn description_of_a_failed_device_load() {
    let error = Error::Load {
        device: "dev-1".to_owned(),
        profile: None,
        error: LoadError {
            location: "devices/dev-1.json".to_owned(),
            cause: "expected value at line 1 column 1".to_owned(),
        },
    };
    assert_eq!(
        error.description(),
        "failed to load the document of device dev-1 from devices/dev-1.json: expected value at line 1 column 1"
    );
}

#[test]
fn description_of_a_failed_profile_load() {
    let error = Error::Load {
        device: "dev-1".to_owned(),
        profile: Some("night".to_owned()),
        error: LoadError {
            location: "profiles/dev-1/night.json".to_owned(),
            cause: "permission denied".to_owned(),
        },
    };
    assert_eq!(
        error.description(),
        "failed to load the document of profile night of device dev-1 from profiles/dev-1/night.json: permission denied"
    );
}

#[test]
fn description_of_a_failed_save() {
    let error = Error::Save(SaveError {
        location: "devices/dev-1.json".to_owned(),
        cause: "no space left on device".to_owned(),
    });
    assert_eq!(
        error.description(),
        "failed to save the document at devices/dev-1.json: no space left on device"
    );
}

#[test]
fn description_of_unresolved_identifiers() {
    assert_eq!(
        Error::Resolution(Unresolved::Device("dev-7".to_owned())).description(),
        "unknown device dev-7"
    );
    assert_eq!(
        Error::Resolution(Unresolved::Position { position: 15, length: 15 }).description(),
        "position 15 is outside a grid of 15 positions"
    );
    assert_eq!(
        Error::Resolution(Unresolved::Position { position: 200, length: 0 }).description(),
        "position 200 is outside a grid of 0 positions"
    );
}

#[test]
fn description_of_invalid_states() {
    assert_eq!(Error::InvalidState(Invalid::NoStates).description(), "the action has no states");
    assert_eq!(
        Error::InvalidState(Invalid::Unbound(3)).description(),
        "nothing is bound at position 3"
    );
}

#[test]
fn failure_document_quotes_the_description() {
    assert_eq!(failure_document("plain"), "{\"description\":\"plain\"}");
    assert_eq!(failure_document(""), "{\"description\":\"\"}");
    assert_eq!(
        failure_document("tab\there \\ \"quoted\" \u{1}"),
        "{\"description\":\"tab\\there \\\\ \\\"quoted\\\" \\u0001\"}"
    );
    let parsed: serde_json::Value = serde_json::from_str(&failure_document("a\nb")).unwrap();
    assert_eq!(parsed["description"], serde_json::Value::String("a\nb".to_owned()));
}

#[test]
fn array_document_matches_serde_json() {
    let cases: Vec<Vec<String>> = vec![
        vec![],
        vec!["".to_owned()],
        vec!["a".to_owned(), "b".to_owned()],
        vec!["x,y".to_owned(), "[\"]".to_owned(), "\u{2028}\u{1f600}".to_owned(), "\\".to_owned()],
    ];
    for items in cases {
        assert_eq!(array_document(&items), serde_json::to_string(&items).unwrap());
    }
    assert_eq!(array_document(&vec!["a".to_owned(), "b".to_owned()]), "[\"a\",\"b\"]");
}
