use icc_stream::IccProfile;
use icc_stream::IccProfileType;
use icc_stream::icc_profile::profile_parameters;
use lopdf::Object;

fn encoded_stream(profile: IccProfile) -> lopdf::Stream {
    let objects = profile.into_obj();
    assert_eq!(objects.len(), 1);
    match objects.into_iter().next().unwrap() {
        Object::Stream(stream) => stream,
        other => panic!("expected a stream object, got {:?}", other),
    }
}

#[test]
fn parameter_table_matches() {
    assert_eq!(profile_parameters(&IccProfileType::Cmyk), (4, "DeviceCMYK"));
    assert_eq!(profile_parameters(&IccProfileType::Rgb), (3, "DeviceRGB"));
    assert_eq!(
        profile_parameters(&IccProfileType::Grayscale),
        (1, "DeviceGray")
    );
}

#[test]
fn component_count_entry() {
    let cases = vec![
        (IccProfileType::Cmyk, 4i64),
        (IccProfileType::Rgb, 3i64),
        (IccProfileType::Grayscale, 1i64),
    ];
    for (profile_type, expected) in cases {
        let stream = encoded_stream(IccProfile::new(vec![1, 2, 3], profile_type));
        assert_eq!(stream.dict.get(b"N").unwrap(), &Object::Integer(expected));
    }
}

#[test]
fn length_matches_buffer() {
    let stream = encoded_stream(IccProfile::new(vec![7; 300], IccProfileType::Rgb));
    assert_eq!(stream.dict.get(b"Length").unwrap(), &Object::Integer(300));
    assert_eq!(stream.content, vec![7; 300]);
}

#[test]
fn empty_buffer_has_length_zero() {
    let stream = encoded_stream(IccProfile::new(Vec::new(), IccProfileType::Cmyk));
    assert_eq!(stream.dict.get(b"Length").unwrap(), &Object::Integer(0));
    assert!(stream.content.is_empty());
}

#[test]
fn alternate_absent_when_flag_off() {
    let profile = IccProfile::new(vec![1], IccProfileType::Cmyk).with_alternate_profile(false);
    let stream = encoded_stream(profile);
    assert!(!stream.dict.has(b"Alternate"));
}

#[test]
fn alternate_name_per_type() {
    let cases = vec![
        (IccProfileType::Cmyk, &b"DeviceCMYK"[..]),
        (IccProfileType::Rgb, &b"DeviceRGB"[..]),
        (IccProfileType::Grayscale, &b"DeviceGray"[..]),
    ];
    for (profile_type, expected) in cases {
        let profile = IccProfile::new(vec![1], profile_type).with_alternate_profile(true);
        let stream = encoded_stream(profile);
        assert_eq!(
            stream.dict.get(b"Alternate").unwrap(),
            &Object::Name(expected.to_vec())
        );
    }
}

#[test]
fn range_absent_when_flag_off() {
    let profile = IccProfile::new(vec![1], IccProfileType::Rgb).with_range(false);
    let stream = encoded_stream(profile);
    assert!(!stream.dict.has(b"Range"));
}

#[test]
fn range_is_fixed_eight_entries_for_every_type() {
    let cases = vec![
        IccProfileType::Cmyk,
        IccProfileType::Rgb,
        IccProfileType::Grayscale,
    ];
    for profile_type in cases {
        let profile = IccProfile::new(vec![1], profile_type).with_range(true);
        let stream = encoded_stream(profile);
        let range = match stream.dict.get(b"Range").unwrap() {
            Object::Array(entries) => entries.clone(),
            other => panic!("expected an array, got {:?}", other),
        };
        assert_eq!(range.len(), 8);
        for pair in range.chunks(2) {
            assert_eq!(pair[0], Object::Real(0.0));
            assert_eq!(pair[1], Object::Real(1.0));
        }
    }
}

#[test]
fn cmyk_full_round_trip() {
    let profile = IccProfile::new(vec![0xDE, 0xAD, 0xBE, 0xEF], IccProfileType::Cmyk)
        .with_alternate_profile(true)
        .with_range(true);
    let stream = encoded_stream(profile);

    assert_eq!(stream.dict.len(), 4);
    assert_eq!(stream.dict.get(b"N").unwrap(), &Object::Integer(4));
    assert_eq!(stream.dict.get(b"Length").unwrap(), &Object::Integer(4));
    assert_eq!(
        stream.dict.get(b"Alternate").unwrap(),
        &Object::Name(b"DeviceCMYK".to_vec())
    );
    let expected_range: Vec<Object> = vec![
        Object::Real(0.0),
        Object::Real(1.0),
        Object::Real(0.0),
        Object::Real(1.0),
        Object::Real(0.0),
        Object::Real(1.0),
        Object::Real(0.0),
        Object::Real(1.0),
    ];
    assert_eq!(
        stream.dict.get(b"Range").unwrap(),
        &Object::Array(expected_range)
    );
    assert_eq!(stream.content, vec![0xDE, 0xAD, 0xBE, 0xEF]);
}

#[test]
fn grayscale_minimal_dictionary() {
    let profile = IccProfile::new(vec![9; 10], IccProfileType::Grayscale)
        .with_alternate_profile(false)
        .with_range(false);
    let stream = encoded_stream(profile);

    assert_eq!(stream.dict.len(), 2);
    assert_eq!(stream.dict.get(b"N").unwrap(), &Object::Integer(1));
    assert_eq!(stream.dict.get(b"Length").unwrap(), &Object::Integer(10));
    assert!(!stream.dict.has(b"Alternate"));
    assert!(!stream.dict.has(b"Range"));
}

#[test]
fn grayscale_default_flags() {
    let stream = encoded_stream(IccProfile::new(vec![9; 10], IccProfileType::Grayscale));

    assert_eq!(stream.dict.get(b"N").unwrap(), &Object::Integer(1));
    assert_eq!(stream.dict.get(b"Length").unwrap(), &Object::Integer(10));
    assert_eq!(
        stream.dict.get(b"Alternate").unwrap(),
        &Object::Name(b"DeviceGray".to_vec())
    );
    assert!(!stream.dict.has(b"Range"));
}

#[test]
fn builder_flags_are_recorded() {
    let profile = IccProfile::new(vec![1], IccProfileType::Rgb);
    assert!(profile.has_alternate);
    assert!(!profile.has_range);

    let profile = profile.with_alternate_profile(false).with_range(true);
    assert!(!profile.has_alternate);
    assert!(profile.has_range);
}

#[test]
fn encoding_is_idempotent() {
    let profile = IccProfile::new(vec![0xDE, 0xAD, 0xBE, 0xEF], IccProfileType::Cmyk)
        .with_alternate_profile(true)
        .with_range(true);
    let first = profile.clone().into_obj();
    let second = profile.into_obj();
    assert_eq!(first, second);

    let third = IccProfile::new(vec![5, 6], IccProfileType::Rgb).into_obj();
    let fourth = IccProfile::new(vec![5, 6], IccProfileType::Rgb).into_obj();
    assert_eq!(third, fourth);
}
