use trust_dns::error::DecodeError;
use trust_dns::name::Name;
use trust_dns::nsec3::Nsec3HashAlgorithm;

#[test]
fn test_hash() {
    let name = Name::new().label("www").label("example").label("com");
    let salt: Vec<u8> = vec![1, 2, 3, 4];

    assert_eq!(Nsec3HashAlgorithm::SHA1.hash(&salt, &name, 0).len(), 20);
    assert_eq!(Nsec3HashAlgorithm::SHA1.hash(&salt, &name, 1).len(), 20);
    assert_eq!(Nsec3HashAlgorithm::SHA1.hash(&salt, &name, 3).len(), 20);
}

fn hash_with_base32(name: &str) -> String {
    // NSEC3PARAM 1 0 12 aabbccdd
    let known_name = Name::parse(name, Some(&Name::new())).unwrap();
    let known_salt = [0xAAu8, 0xBBu8, 0xCCu8, 0xDDu8];
    let hash = Nsec3HashAlgorithm::SHA1.hash(&known_salt, &known_name, 12);
    data_encoding::BASE32HEX.encode(&hash).to_lowercase()
}

#[test]
fn test_known_hashes() {
    // H(example)       = 0p9mhaveqvm6t7vbl5lop2u3t2rp3tom
    assert_eq!(hash_with_base32("example"), "0p9mhaveqvm6t7vbl5lop2u3t2rp3tom");

    // H(a.example)     = 35mthgpgcu1qg68fab165klnsnk3dpvl
    assert_eq!(hash_with_base32("a.example"), "35mthgpgcu1qg68fab165klnsnk3dpvl");

    // H(ai.example)    = gjeqe526plbf1g8mklp59enfd789njgi
    assert_eq!(hash_with_base32("ai.example"), "gjeqe526plbf1g8mklp59enfd789njgi");

    // H(ns1.example)   = 2t7b4g4vsa5smi47k61mv5bv1a22bojr
    assert_eq!(hash_with_base32("ns1.example"), "2t7b4g4vsa5smi47k61mv5bv1a22bojr");

    // H(ns2.example)   = q04jkcevqvmu85r014c7dkba38o0ji5r
    assert_eq!(hash_with_base32("ns2.example"), "q04jkcevqvmu85r014c7dkba38o0ji5r");

    // H(w.example)     = k8udemvp1j2f7eg6jebps17vp3n8i58h
    assert_eq!(hash_with_base32("w.example"), "k8udemvp1j2f7eg6jebps17vp3n8i58h");

    // H(*.w.example)   = r53bq7cc2uvmubfu5ocmm6pers9tk9en
    assert_eq!(hash_with_base32("*.w.example"), "r53bq7cc2uvmubfu5ocmm6pers9tk9en");

    // H(x.w.example)   = b4um86eghhds6nea196smvmlo4ors995
    assert_eq!(hash_with_base32("x.w.example"), "b4um86eghhds6nea196smvmlo4ors995");

    // H(y.w.example)   = ji6neoaepv8b5o6k4ev33abha8ht9fgc
    assert_eq!(hash_with_base32("y.w.example"), "ji6neoaepv8b5o6k4ev33abha8ht9fgc");

    // H(x.y.w.example) = 2vptu5timamqttgl4luu9kg21e0aor3s
    assert_eq!(hash_with_base32("x.y.w.example"), "2vptu5timamqttgl4luu9kg21e0aor3s");

    // H(xx.example)    = t644ebqk9bibcna874givr6joj62mlhv
    assert_eq!(hash_with_base32("xx.example"), "t644ebqk9bibcna874givr6joj62mlhv");
}

#[test]
fn uppercase_owner_names_hash_like_lowercase_ones() {
    let lower = Name::new().label("example");
    let upper = Name::new().label("EXAMPLE");
    let salt = [0xAAu8, 0xBBu8, 0xCCu8, 0xDDu8];
    assert_eq!(
        Nsec3HashAlgorithm::SHA1.hash(&salt, &lower, 12),
        Nsec3HashAlgorithm::SHA1.hash(&salt, &upper, 12),
    );
    assert_eq!(
        data_encoding::BASE32HEX.encode(&Nsec3HashAlgorithm::SHA1.hash(&salt, &upper, 12))
            .to_lowercase(),
        "0p9mhaveqvm6t7vbl5lop2u3t2rp3tom",
    );
}

#[test]
fn from_u8_accepts_only_sha1() {
    assert_eq!(Nsec3HashAlgorithm::from_u8(1), Ok(Nsec3HashAlgorithm::SHA1));
    assert_eq!(
        Nsec3HashAlgorithm::from_u8(0),
        Err(DecodeError::UnknownAlgorithmTypeValue(0)),
    );
    assert_eq!(
        Nsec3HashAlgorithm::from_u8(2),
        Err(DecodeError::UnknownAlgorithmTypeValue(2)),
    );
    assert_eq!(
        Nsec3HashAlgorithm::from_u8(255),
        Err(DecodeError::UnknownAlgorithmTypeValue(255)),
    );
}

#[test]
fn algorithm_code_round_trip() {
    assert_eq!(u8::from(Nsec3HashAlgorithm::SHA1), 1);
    assert_eq!(
        Nsec3HashAlgorithm::from_u8(u8::from(Nsec3HashAlgorithm::SHA1)),
        Ok(Nsec3HashAlgorithm::SHA1),
    );
}
