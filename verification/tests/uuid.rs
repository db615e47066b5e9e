use uuidland::gen;
use uuidland::uuid::Uuid;
use uuidland::wellknown;

#[test]
fn test_version_bits() {
    let extver = move |uuid: Uuid| (uuid.0.to_be_bytes()[6] & 0xf0) >> 4;

    // Version 3
    assert_eq!(extver(gen::v3(b"some_random_name", None)), 0x3);
    assert_eq!(
        extver(gen::v3(b"some_random_name", Some(wellknown::ns_url()))),
        0x3
    );

    // Version 4
    assert_eq!(extver(gen::v4()), 0x4);

    // Version 5
    assert_eq!(extver(gen::v5(b"another_random_name", None)), 0x5);
    assert_eq!(
        extver(gen::v5(b"yet_another_random_name", Some(wellknown::ns_oid()))),
        0x5
    );
}

#[test]
fn test_format() {
    let uuid = Uuid::from_value(339909213143343215632204095398962575718);

    assert_eq!(uuid.to_string_hex(), "ffb82219-2be8-4961-8c83-2163e1b4b966");
    assert_eq!(format!("{}", uuid.to_string_hex()), "ffb82219-2be8-4961-8c83-2163e1b4b966");
    assert_eq!(
        uuid.to_string_hex_joined(),
        "ffb822192be849618c832163e1b4b966"
    );
}

#[test]
fn test_parse() {
    let uuid = gen::v4();

    assert_eq!(uuid, uuid.to_string_hex().try_into().unwrap());
    assert_eq!(uuid, uuid.to_string_hex_joined().try_into().unwrap());
    assert_eq!(uuid, Uuid::from_value(uuid.value()));
}

#[test]
fn uuid_test_v3_output() {
    let v3 = gen::v3(b"barfoo", Some(wellknown::ns_x500()));
    assert_eq!(v3.to_string_hex(), "838ae739-5539-3a99-a67b-8e291e001842");
}

#[test]
fn uuid_test_v5_output() {
    let v5 = gen::v5(b"foobar", Some(wellknown::ns_dns()));
    assert_eq!(v5.to_string_hex(), "a050b517-6677-5119-9a77-2d26bbf30507");
}

#[test]
fn text_round_trip_on_chosen_values() {
    let values: [u128; 6] = [
        0,
        1,
        u128::MAX,
        0x0123456789abcdef_fedcba9876543210,
        0x8000_0000_0000_0000_0000_0000_0000_0000,
        339909213143343215632204095398962575718,
    ];
    for value in values {
        let uuid = Uuid::from_value(value);
        assert_eq!(Uuid::parse(&uuid.to_string_hex()), Ok(uuid));
        assert_eq!(Uuid::parse(&uuid.to_string_hex_joined()), Ok(uuid));
    }
}

#[test]
fn text_of_extreme_values() {
    assert_eq!(
        Uuid::from_value(0).to_string_hex(),
        "00000000-0000-0000-0000-000000000000"
    );
    assert_eq!(
        Uuid::from_value(u128::MAX).to_string_hex(),
        "ffffffff-ffff-ffff-ffff-ffffffffffff"
    );
    assert_eq!(
        Uuid::from_value(0x0123456789abcdef_fedcba9876543210).to_string_hex(),
        "01234567-89ab-cdef-fedc-ba9876543210"
    );
    assert_eq!(
        Uuid::from_value(0x0123456789abcdef_fedcba9876543210).to_string_hex_joined(),
        "0123456789abcdeffedcba9876543210"
    );
}

#[test]
fn parse_accepts_every_canonical_form() {
    let expected = Ok(Uuid::from_value(0xffb822192be849618c832163e1b4b966));
    assert_eq!(Uuid::parse("ffb82219-2be8-4961-8c83-2163e1b4b966"), expected);
    assert_eq!(Uuid::parse("ffb822192be849618c832163e1b4b966"), expected);
    assert_eq!(Uuid::parse("FFB82219-2BE8-4961-8C83-2163E1B4B966"), expected);
    assert_eq!(Uuid::parse("FfB822192bE849618c832163E1b4B966"), expected);
    assert_eq!(Uuid::parse("0xffb822192be849618c832163e1b4b966"), expected);
    assert_eq!(Uuid::parse("0Xffb822192be849618c832163e1b4b966"), expected);
    assert_eq!(Uuid::parse("0xffb82219-2be8-4961-8c83-2163e1b4b966"), expected);
    assert_eq!(Uuid::parse("0XFFB82219-2BE8-4961-8C83-2163E1B4B966"), expected);
}

#[test]
fn parse_counts_dashes_by_digits_read() {
    let expected = Ok(Uuid::from_value(0xffb822192be849618c832163e1b4b966));
    // Some of the four dashes only.
    assert_eq!(Uuid::parse("ffb82219-2be849618c832163e1b4b966"), expected);
    assert_eq!(Uuid::parse("ffb822192be8-49618c832163e1b4b966"), expected);
    assert_eq!(Uuid::parse("ffb822192be84961-8c83-2163e1b4b966"), expected);
    assert_eq!(Uuid::parse("ffb822192be849618c83-2163e1b4b966"), expected);
    // More than one dash at a place where one may stand.
    assert_eq!(Uuid::parse("ffb82219--2be8-4961-8c83-2163e1b4b966"), Err(()));
    assert_eq!(Uuid::parse("ffb82219-2be8-4961-8c83--2163e1b4b966"), Err(()));
    assert_eq!(Uuid::parse("ffb822192be849618c83---2163e1b4b966"), Err(()));
    // A dash elsewhere.
    assert_eq!(Uuid::parse("-ffb822192be849618c832163e1b4b966"), Err(()));
    assert_eq!(Uuid::parse("ffb8221-92be8-4961-8c83-2163e1b4b966"), Err(()));
    assert_eq!(Uuid::parse("ffb82219-2be8-4961-8c83-2163-e1b4b966"), Err(()));
    assert_eq!(Uuid::parse("ffb822192be849618c832163-e1b4b966"), Err(()));
}

#[test]
fn parse_rejects_what_is_no_identifier() {
    assert_eq!(Uuid::parse(""), Err(()));
    assert_eq!(Uuid::parse("0x"), Err(()));
    assert_eq!(Uuid::parse("ffb82219-2be8-4961-8c83-2163e1b4b96"), Err(()));
    assert_eq!(Uuid::parse("ffb822192be849618c832163e1b4b96"), Err(()));
    assert_eq!(Uuid::parse("ffb82219-2be8-4961-8c83-2163e1b4b96g"), Err(()));
    assert_eq!(Uuid::parse("ffb82219 2be8-4961-8c83-2163e1b4b966"), Err(()));
    assert_eq!(Uuid::parse(" ffb82219-2be8-4961-8c83-2163e1b4b966"), Err(()));
    assert_eq!(Uuid::parse("{ffb82219-2be8-4961-8c83-2163e1b4b966}"), Err(()));
    assert_eq!(Uuid::parse("0x0xffb822192be849618c832163e1b4b966"), Err(()));
    assert_eq!(Uuid::parse("xffb822192be849618c832163e1b4b966"), Err(()));
    assert_eq!(Uuid::parse("ffb82219-2be8-4961-8c83-2163e1b4b9é6"), Err(()));
}

#[test]
fn parse_rejects_what_follows_the_last_digit() {
    assert_eq!(Uuid::parse("ffb822192be849618c832163e1b4b966zz"), Err(()));
    assert_eq!(Uuid::parse("ffb82219-2be8-4961-8c83-2163e1b4b966ff"), Err(()));
    assert_eq!(Uuid::parse("ffb822192be849618c832163e1b4b9660"), Err(()));
    assert_eq!(Uuid::parse("ffb822192be849618c832163e1b4b966 and more"), Err(()));
    assert_eq!(Uuid::parse("ffb82219-2be8-4961-8c83-2163e1b4b966 "), Err(()));
    assert_eq!(Uuid::parse("ffb82219-2be8-4961-8c83-2163e1b4b966-"), Err(()));
    assert_eq!(Uuid::parse("0xffb822192be849618c832163e1b4b966\n"), Err(()));
    assert_eq!(
        Uuid::parse("ffb82219-2be8-4961-8c83-2163e1b4b966ffb82219-2be8-4961-8c83-2163e1b4b966"),
        Err(())
    );
}

#[test]
fn parse_reads_a_leading_zero_that_is_no_prefix() {
    assert_eq!(
        Uuid::parse("0a000000-0000-0000-0000-000000000001"),
        Ok(Uuid::from_value(0x0a000000_0000_0000_0000_000000000001))
    );
    assert_eq!(
        Uuid::parse("00000000000000000000000000000000"),
        Ok(wellknown::nil())
    );
}

#[test]
fn try_from_reads_as_parse_does() {
    let uuid: Result<Uuid, ()> = "6ba7b810-9dad-11d1-80b4-00c04fd430c8".try_into();
    assert_eq!(uuid, Ok(wellknown::ns_dns()));
    let uuid: Result<Uuid, ()> = String::from("6ba7b8109dad11d180b400c04fd430c8").try_into();
    assert_eq!(uuid, Ok(wellknown::ns_dns()));
    let uuid: Result<Uuid, ()> = "6ba7b810".try_into();
    assert_eq!(uuid, Err(()));
}

#[test]
fn from_octets_stamps_version_and_variant() {
    let uuid = Uuid::from_octets([0u8; 16], 4);
    assert_eq!(uuid.value(), 0x00000000_0000_4000_8000_000000000000);
    let uuid = Uuid::from_octets([0xffu8; 16], 1);
    assert_eq!(uuid.value(), 0xffffffff_ffff_1fff_bfff_ffffffffffff);
    let uuid = Uuid::from_octets(
        [
            0x00, 0x11, 0x22, 0x33, 0x44, 0x55, 0x66, 0x77, 0x88, 0x99, 0xaa, 0xbb, 0xcc, 0xdd,
            0xee, 0xff,
        ],
        5,
    );
    assert_eq!(uuid.to_string_hex(), "00112233-4455-5677-8899-aabbccddeeff");
}

#[test]
fn from_octets_uses_the_low_nibble_of_the_version() {
    assert_eq!(
        Uuid::from_octets([0u8; 16], 0x13),
        Uuid::from_octets([0u8; 16], 0x03)
    );
    assert_eq!(
        Uuid::from_octets([0u8; 16], 0xff).value(),
        0x00000000_0000_f000_8000_000000000000
    );
}

#[test]
fn to_octets_is_big_endian() {
    let uuid = Uuid::from_value(0x00112233_4455_6677_8899_aabbccddeeff);
    assert_eq!(
        uuid.to_octets(),
        [
            0x00, 0x11, 0x22, 0x33, 0x44, 0x55, 0x66, 0x77, 0x88, 0x99, 0xaa, 0xbb, 0xcc, 0xdd,
            0xee, 0xff
        ]
    );
    assert_eq!(uuid.to_octets(), uuid.value().to_be_bytes());
}

#[test]
fn v4_has_version_and_variant() {
    for _ in 0..64 {
        let uuid = gen::v4();
        assert_eq!((uuid.value() >> 76) & 0xf, 4);
        assert_eq!((uuid.value() >> 62) & 0x3, 0b10);
    }
}

#[test]
fn v4_draws_afresh() {
    assert_ne!(gen::v4(), gen::v4());
}

#[test]
fn wellknown_identifiers() {
    assert_eq!(wellknown::nil().value(), 0);
    assert_eq!(
        wellknown::ns_dns().value(),
        143098242404177361603877621312831893704
    );
    assert_eq!(
        wellknown::ns_url().value(),
        143098242483405524118141958906375844040
    );
    assert_eq!(
        wellknown::ns_oid().value(),
        143098242562633686632406296499919794376
    );
    assert_eq!(
        wellknown::ns_x500().value(),
        143098242721090011660934971687007695048
    );
    assert_eq!(
        wellknown::ns_dns().to_string_hex(),
        "6ba7b810-9dad-11d1-80b4-00c04fd430c8"
    );
}
