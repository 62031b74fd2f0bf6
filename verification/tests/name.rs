use trust_dns::error::DecodeError;
use trust_dns::name::Name;

#[test]
fn emit_lowercases_and_frames_labels() {
    let name = Name::new().label("WwW").label("Example").label("COM");
    let wire = name.emit_canonical();
    let mut expected: Vec<u8> = Vec::new();
    expected.push(3);
    expected.extend_from_slice(b"www");
    expected.push(7);
    expected.extend_from_slice(b"example");
    expected.push(3);
    expected.extend_from_slice(b"com");
    expected.push(0);
    assert_eq!(wire, expected);
}

#[test]
fn root_name_is_one_zero_byte() {
    assert_eq!(Name::new().emit_canonical(), vec![0u8]);
}

#[test]
fn parse_splits_on_dots() {
    let name = Name::parse("a.b.c", Some(&Name::new())).unwrap();
    assert_eq!(name.label_count(), 3);
    let wire = name.emit_canonical();
    assert_eq!(wire, vec![1, b'a', 1, b'b', 1, b'c', 0]);
}

#[test]
fn parse_appends_origin_unless_absolute() {
    let origin = Name::new().label("example").label("com");
    let relative = Name::parse("www", Some(&origin)).unwrap();
    assert_eq!(relative.label_count(), 3);
    let absolute = Name::parse("www.", Some(&origin)).unwrap();
    assert_eq!(absolute.label_count(), 1);
    let root = Name::parse(".", Some(&origin)).unwrap();
    assert_eq!(root.label_count(), 0);
    let empty = Name::parse("", Some(&origin)).unwrap();
    assert_eq!(empty.label_count(), 2);
}

#[test]
fn parse_keeps_wildcard_labels_literal() {
    let name = Name::parse("*.w.example", Some(&Name::new())).unwrap();
    let wire = name.emit_canonical();
    assert_eq!(
        wire,
        vec![1, b'*', 1, b'w', 7, b'e', b'x', b'a', b'm', b'p', b'l', b'e', 0],
    );
}

#[test]
fn parse_rejects_empty_and_oversized_labels() {
    assert!(matches!(
        Name::parse("a..b", Some(&Name::new())),
        Err(DecodeError::InvalidLabel)
    ));
    assert!(matches!(
        Name::parse(".a", Some(&Name::new())),
        Err(DecodeError::InvalidLabel)
    ));
    let long = "x".repeat(64);
    assert!(matches!(
        Name::parse(&long, Some(&Name::new())),
        Err(DecodeError::InvalidLabel)
    ));
    let just_fits = "x".repeat(63);
    assert!(Name::parse(&just_fits, Some(&Name::new())).is_ok());
}
