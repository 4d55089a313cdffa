use imageprocessing::error::{ErrorKind, EventDefect, PipelineError};
use imageprocessing::notification::{
    extract_key_src, locate, plus_to_space, EventRecord, InboundEvent,
};

fn single(key: Option<&str>, bucket: Option<&str>) -> InboundEvent {
    InboundEvent {
        records: vec![EventRecord {
            bucket: bucket.map(String::from),
            key: key.map(String::from),
        }],
    }
}

fn defect_of(event: &InboundEvent) -> EventDefect {
    match extract_key_src(event) {
        Err(PipelineError::MalformedEvent { defect }) => defect,
        other => panic!("expected a malformed event, got {:?}", other),
    }
}

#[test]
fn plain_key_is_kept() {
    let found = extract_key_src(&single(Some("cat.png"), Some("photos")));
    assert_eq!(found, Ok(("cat.png".to_string(), "photos".to_string())));
}

#[test]
fn plus_stands_for_space() {
    let found = extract_key_src(&single(Some("a+b.png"), Some("photos")));
    assert_eq!(found, Ok(("a b.png".to_string(), "photos".to_string())));
}

#[test]
fn percent_escapes_are_resolved() {
    let found = extract_key_src(&single(Some("a%20b%2Fc.jpg"), Some("photos")));
    assert_eq!(found, Ok(("a b/c.jpg".to_string(), "photos".to_string())));
}

#[test]
fn escaped_plus_stays_a_plus() {
    // Turning `+` into a space after the escapes were resolved would give "a b.png".
    let found = extract_key_src(&single(Some("a%2Bb.png"), Some("photos")));
    assert_eq!(found, Ok(("a+b.png".to_string(), "photos".to_string())));
}

#[test]
fn escaped_percent_stays_a_percent() {
    let found = extract_key_src(&single(Some("100%25+sure.png"), Some("photos")));
    assert_eq!(found, Ok(("100% sure.png".to_string(), "photos".to_string())));
}

#[test]
fn stray_percent_signs_are_kept() {
    let found = extract_key_src(&single(Some("100%.png"), Some("photos")));
    assert_eq!(found, Ok(("100%.png".to_string(), "photos".to_string())));
    let found = extract_key_src(&single(Some("a%zzb%2"), Some("photos")));
    assert_eq!(found, Ok(("a%zzb%2".to_string(), "photos".to_string())));
}

#[test]
fn multibyte_escapes_are_joined() {
    let found = extract_key_src(&single(Some("caf%C3%A9.png"), Some("photos")));
    assert_eq!(found, Ok(("caf\u{e9}.png".to_string(), "photos".to_string())));
}

#[test]
fn encoded_keys_round_trip() {
    let keys = [
        "cat.png",
        "my photo.png",
        "a+b.png",
        "100%.png",
        "dir/sub dir/a+b %25.jpg",
        "caf\u{e9} \u{1f47e}.png",
        "",
    ];
    for key in keys.iter() {
        let encoded = urlencoding::encode(key);
        let found = extract_key_src(&single(Some(&encoded), Some("photos")));
        assert_eq!(found, Ok((key.to_string(), "photos".to_string())));
    }
}

#[test]
fn keys_with_plus_for_space_round_trip() {
    let keys = ["my photo.png", "a+b c.png", "100% of it.png", " + % "];
    for key in keys.iter() {
        let delivered = urlencoding::encode(key).replace("%20", "+");
        assert!(!delivered.contains(' '));
        let found = extract_key_src(&single(Some(&delivered), Some("photos")));
        assert_eq!(found, Ok((key.to_string(), "photos".to_string())));
    }
}

#[test]
fn bucket_name_is_not_decoded() {
    let found = extract_key_src(&single(Some("cat.png"), Some("my+bucket%20x")));
    assert_eq!(found, Ok(("cat.png".to_string(), "my+bucket%20x".to_string())));
}

#[test]
fn no_records_is_malformed() {
    let event = InboundEvent { records: vec![] };
    assert_eq!(defect_of(&event), EventDefect::NoRecords);
    assert_eq!(extract_key_src(&event).unwrap_err().kind(), ErrorKind::MalformedEvent);
}

#[test]
fn missing_key_is_malformed() {
    assert_eq!(defect_of(&single(None, Some("photos"))), EventDefect::MissingKey);
}

#[test]
fn missing_bucket_is_malformed() {
    assert_eq!(defect_of(&single(Some("cat.png"), None)), EventDefect::MissingBucket);
}

#[test]
fn undecodable_key_is_malformed() {
    // %FF is not the start of any UTF-8 sequence.
    assert_eq!(defect_of(&single(Some("%FF.png"), Some("photos"))), EventDefect::UndecodableKey);
}

#[test]
fn missing_key_is_reported_before_missing_bucket() {
    assert_eq!(defect_of(&single(None, None)), EventDefect::MissingKey);
}

#[test]
fn undecodable_key_is_reported_before_missing_bucket() {
    assert_eq!(defect_of(&single(Some("%C3+"), None)), EventDefect::UndecodableKey);
}

#[test]
fn only_the_first_record_is_consulted() {
    let event = InboundEvent {
        records: vec![
            EventRecord { bucket: Some("first".to_string()), key: Some("one.png".to_string()) },
            EventRecord { bucket: Some("second".to_string()), key: Some("two.png".to_string()) },
        ],
    };
    assert_eq!(extract_key_src(&event), Ok(("one.png".to_string(), "first".to_string())));

    let event = InboundEvent {
        records: vec![
            EventRecord { bucket: None, key: Some("one.png".to_string()) },
            EventRecord { bucket: Some("second".to_string()), key: Some("two.png".to_string()) },
        ],
    };
    assert_eq!(defect_of(&event), EventDefect::MissingBucket);
}

#[test]
fn plus_to_space_touches_nothing_else() {
    assert_eq!(plus_to_space(""), "");
    assert_eq!(plus_to_space("+"), " ");
    assert_eq!(plus_to_space("a+b++c"), "a b  c");
    assert_eq!(plus_to_space("a%2Bb c"), "a%2Bb c");
    assert_eq!(plus_to_space("\u{e9}+\u{1f47e}+"), "\u{e9} \u{1f47e} ");
}

#[test]
fn locate_pairs_key_and_bucket() {
    let bucket = Some("photos".to_string());
    assert_eq!(
        locate(Some("a b.png".to_string()), &bucket),
        Ok(("a b.png".to_string(), "photos".to_string()))
    );
    assert_eq!(
        locate(None, &bucket),
        Err(PipelineError::MalformedEvent { defect: EventDefect::UndecodableKey })
    );
    assert_eq!(
        locate(Some("a b.png".to_string()), &None),
        Err(PipelineError::MalformedEvent { defect: EventDefect::MissingBucket })
    );
    assert_eq!(
        locate(None, &None),
        Err(PipelineError::MalformedEvent { defect: EventDefect::UndecodableKey })
    );
}
