use backend::signature::{comes_before, sign, to_hex, SignatureParams};

fn params(pairs: &[(&str, &str)]) -> SignatureParams {
    let mut p = SignatureParams::new();
    for (name, value) in pairs {
        p.insert(name, value);
    }
    p
}

#[test]
fn signature_of_two_parameters() {
    let p = params(&[("folder", "p"), ("timestamp", "100")]);
    assert_eq!(sign(&p, "secret"), "43cfb594bf19b3a6b7350138252f347c8bfb9a60");
}

#[test]
fn signature_does_not_depend_on_insertion_order() {
    let one = params(&[("folder", "p"), ("timestamp", "100")]);
    let two = params(&[("timestamp", "100"), ("folder", "p")]);
    assert_eq!(sign(&one, "secret"), sign(&two, "secret"));
    assert_eq!(sign(&two, "secret"), "43cfb594bf19b3a6b7350138252f347c8bfb9a60");
}

#[test]
fn signing_twice_gives_the_same() {
    let p = params(&[("timestamp", "1700000000"), ("folder", "profile_pictures")]);
    assert_eq!(sign(&p, "shh"), sign(&p, "shh"));
}

#[test]
fn changed_value_changes_the_signature() {
    let one = params(&[("folder", "p"), ("timestamp", "100")]);
    let two = params(&[("folder", "q"), ("timestamp", "100")]);
    assert_ne!(sign(&one, "secret"), sign(&two, "secret"));
    assert_eq!(sign(&two, "secret"), "687e3560165a423e22dd69d6158c1c9fec8cc00f");
}

#[test]
fn changed_secret_changes_the_signature() {
    let p = params(&[("folder", "p"), ("timestamp", "100")]);
    assert_eq!(sign(&p, "secret2"), "eb1119d5b8810c85f19d67893a9721947be2f4d8");
}

#[test]
fn key_and_signature_are_not_signed() {
    let with = params(&[("timestamp", "100"), ("api_key", "K"), ("signature", "S")]);
    let without = params(&[("timestamp", "100")]);
    assert_eq!(sign(&with, "secret"), "599d8c73bb9f42ca4f251af0ac5ccebff5251b64");
    assert_eq!(sign(&with, "secret"), sign(&without, "secret"));
}

#[test]
fn no_parameters_signs_the_secret_alone() {
    assert_eq!(sign(&SignatureParams::new(), "secret"), "e5e9fa1ba31ecd1ae84f75caaa474f3a663f05f4");
    assert_eq!(sign(&SignatureParams::new(), ""), "da39a3ee5e6b4b0d3255bfef95601890afd80709");
}

#[test]
fn names_are_ordered_by_their_bytes() {
    let p = params(&[("b", "1"), ("a", "2"), ("ab", "3"), ("B", "4"), ("é", "5"), ("z", "6")]);
    // B=4&a=2&ab=3&b=1&z=6&é=5
    assert_eq!(sign(&p, "k"), "f1d993dd5e82e28a85efd4ac19f181fda19d27d4");
}

#[test]
fn inserting_a_name_again_replaces_its_value() {
    let replaced = params(&[("folder", "x"), ("timestamp", "100"), ("folder", "p")]);
    assert_eq!(sign(&replaced, "secret"), "43cfb594bf19b3a6b7350138252f347c8bfb9a60");
}

#[test]
fn upload_parameters_sign_as_the_service_expects() {
    let p = params(&[
        ("timestamp", "1700000000"),
        ("folder", "profile_pictures"),
        ("transformation", "c_fill,w_300,h_300,f_auto,q_auto"),
        ("public_id", "user_7"),
    ]);
    assert_eq!(sign(&p, "shh"), "5434703c5a3460ba5c18d5aa45a200f0a90aa87c");
}

#[test]
fn signature_is_forty_lower_case_hex_digits() {
    for p in [params(&[]), params(&[("a", "b")]), params(&[("timestamp", "100"), ("folder", "p")])] {
        let s = sign(&p, "c");
        assert_eq!(s.len(), 40);
        assert_eq!(s.chars().count(), 40);
        assert!(s.chars().all(|c| c.is_ascii_digit() || ('a'..='f').contains(&c)));
    }
}

#[test]
fn hex_of_bytes() {
    assert_eq!(to_hex(&[]), "");
    assert_eq!(to_hex(&[0x00, 0x0f, 0xa0, 0xff, 0x12]), "000fa0ff12");
}

#[test]
fn order_of_names_is_the_order_of_strings() {
    let names = ["", "a", "A", "ab", "b", "timestamp", "folder", "é", "z", "zz", "\u{10000}", "\u{ffff}"];
    for a in names {
        for b in names {
            assert_eq!(comes_before(a, b), a < b, "{:?} before {:?}", a, b);
        }
    }
}
