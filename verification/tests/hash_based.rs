use uuidland::hash_based::{build_hash_input, hash_based_uuid, v3, v5};
use uuidland::uuid::Uuid;
use uuidland::wellknown;

#[test]
fn hash_based_test_v3_output() {
    let v3 = v3(b"barfoo", Some(wellknown::ns_x500()));
    assert_eq!(v3.to_string_hex(), "838ae739-5539-3a99-a67b-8e291e001842");
}

#[test]
fn hash_based_test_v5_output() {
    let v5 = v5(b"foobar", Some(wellknown::ns_dns()));
    assert_eq!(v5.to_string_hex(), "a050b517-6677-5119-9a77-2d26bbf30507");
}

#[test]
fn name_based_known_vectors() {
    assert_eq!(
        v3(b"www.example.com", Some(wellknown::ns_dns())).to_string_hex(),
        "5df41881-3aed-3515-88a7-2f4a814cf09e"
    );
    assert_eq!(
        v5(b"https://example.com/", Some(wellknown::ns_url())).to_string_hex(),
        "dd2c1780-811a-5296-81c5-178a0ef488bc"
    );
    assert_eq!(
        v3(b"", Some(wellknown::nil())).to_string_hex(),
        "4ae71336-e44b-39bf-b9d2-752e234818a5"
    );
    assert_eq!(
        v5(b"", Some(wellknown::nil())).to_string_hex(),
        "e129f27c-5103-5c5c-844b-cdf0a15e160d"
    );
}

#[test]
fn name_based_is_deterministic() {
    let namespace = Uuid::parse("3f177ecc-9c78-4e9b-b142-1a8aea0e5624").unwrap();
    assert_eq!(v3(b"foo", Some(namespace)), v3(b"foo", Some(namespace)));
    assert_eq!(v5(b"foo", Some(namespace)), v5(b"foo", Some(namespace)));
    assert_ne!(v3(b"foo", Some(namespace)), v3(b"bar", Some(namespace)));
    assert_ne!(v5(b"foo", Some(namespace)), v5(b"foo", Some(wellknown::ns_dns())));
    assert_ne!(v3(b"foo", Some(namespace)), v5(b"foo", Some(namespace)));
}

#[test]
fn name_based_without_namespace_draws_one() {
    let first = v3(b"foo", None);
    let second = v3(b"foo", None);
    assert_ne!(first, second);
    assert_eq!((first.value() >> 76) & 0xf, 3);
    assert_eq!((first.value() >> 62) & 0x3, 0b10);
    let third = v5(b"foo", None);
    assert_eq!((third.value() >> 76) & 0xf, 5);
    assert_eq!((third.value() >> 62) & 0x3, 0b10);
}

#[test]
fn hash_input_is_namespace_then_name() {
    let input = build_hash_input(&wellknown::ns_dns(), b"ab");
    assert_eq!(
        input,
        vec![
            0x6b, 0xa7, 0xb8, 0x10, 0x9d, 0xad, 0x11, 0xd1, 0x80, 0xb4, 0x00, 0xc0, 0x4f, 0xd4,
            0x30, 0xc8, b'a', b'b'
        ]
    );
    assert_eq!(build_hash_input(&wellknown::nil(), b""), vec![0u8; 16]);
}

#[test]
fn hash_based_uuid_takes_the_first_sixteen_octets() {
    // The SHA-1 digest of "abc".
    let digest: [u8; 20] = [
        0xa9, 0x99, 0x3e, 0x36, 0x47, 0x06, 0x81, 0x6a, 0xba, 0x3e, 0x25, 0x71, 0x78, 0x50, 0xc2,
        0x6c, 0x9c, 0xd0, 0xd8, 0x9d,
    ];
    assert_eq!(
        hash_based_uuid(&digest, 5).to_string_hex(),
        "a9993e36-4706-516a-ba3e-25717850c26c"
    );
    // The MD5 digest of "abc".
    let digest: [u8; 16] = [
        0x90, 0x01, 0x50, 0x98, 0x3c, 0xd2, 0x4f, 0xb0, 0xd6, 0x96, 0x3f, 0x7d, 0x28, 0xe1, 0x7f,
        0x72,
    ];
    assert_eq!(
        hash_based_uuid(&digest, 3).to_string_hex(),
        "90015098-3cd2-3fb0-9696-3f7d28e17f72"
    );
}
