use matchbox::id::VmId;
use matchbox::text::push_hex_pair;

#[test]
fn hyphenated_text_matches_uuid() {
    let value: u128 = 0xa1a2a3a4b1b2c1c2d1d2d3d4d5d6d7d8;
    let id = VmId::from_u128(value);
    assert_eq!(id.to_text(), "a1a2a3a4-b1b2-c1c2-d1d2-d3d4d5d6d7d8");
    assert_eq!(id.to_text(), uuid::Uuid::from_u128(value).to_string());
}

#[test]
fn hyphenated_text_of_extremes() {
    assert_eq!(VmId::from_u128(0).to_text(), "00000000-0000-0000-0000-000000000000");
    assert_eq!(VmId::from_u128(u128::MAX).to_text(), "ffffffff-ffff-ffff-ffff-ffffffffffff");
    assert_eq!(VmId::from_u128(0x0f).to_text(), "00000000-0000-0000-0000-00000000000f");
}

#[test]
fn hyphenated_text_matches_uuid_for_random_ids() {
    for _ in 0..64 {
        let uuid = uuid::Uuid::new_v4();
        let id = VmId::from_u128(uuid.as_u128());
        assert_eq!(id.to_text(), uuid.to_string());
        assert_eq!(id.to_text().len(), 36);
        assert!(!id.to_text().contains(' '));
    }
}

#[test]
fn push_text_appends() {
    let id = VmId::from_u128(1);
    let mut out = String::from("x=");
    id.push_text(&mut out);
    assert_eq!(out, "x=00000000-0000-0000-0000-000000000001");
}

#[test]
fn byte_at_counts_from_the_most_significant_byte() {
    let uuid = uuid::Uuid::from_u128(0x000102030405060708090a0b0c0d0e0f);
    let id = VmId::from_u128(uuid.as_u128());
    for i in 0..16 {
        assert_eq!(id.byte_at(i), i as u8);
        assert_eq!(id.byte_at(i), uuid.as_bytes()[i]);
    }
}

#[test]
fn guest_mac_uses_first_four_bytes() {
    let id = VmId::from_u128(0x0123_45ab_cdef_0000_0000_0000_0000_0000);
    assert_eq!(id.guest_mac(), "AA:FC:01:23:45:ab");
    assert_eq!(VmId::from_u128(0).guest_mac(), "AA:FC:00:00:00:00");
    assert_eq!(VmId::from_u128(u128::MAX).guest_mac(), "AA:FC:ff:ff:ff:ff");
}

#[test]
fn guest_mac_matches_formatting_of_uuid_bytes() {
    for _ in 0..32 {
        let uuid = uuid::Uuid::new_v4();
        let bytes = uuid.as_bytes();
        let expected = format!("AA:FC:{:02x}:{:02x}:{:02x}:{:02x}", bytes[0], bytes[1], bytes[2], bytes[3]);
        assert_eq!(VmId::from_u128(uuid.as_u128()).guest_mac(), expected);
    }
}

#[test]
fn derived_names() {
    let id = VmId::from_u128(0xa1a2a3a4b1b2c1c2d1d2d3d4d5d6d7d8);
    assert_eq!(id.namespace_name(), "fc-a1a2a3a4-b1b2-c1c2-d1d2-d3d4d5d6d7d8");
    assert_eq!(id.tap_name(), "fc-tapa1a2a3a4-b1b2-c1c2-d1d2-d3d4d5d6d7d8");
    assert_eq!(id.data_directory(), "/tmp/vm/a1a2a3a4-b1b2-c1c2-d1d2-d3d4d5d6d7d8");
}

#[test]
fn number_round_trips() {
    assert_eq!(VmId::from_u128(42).as_u128(), 42);
    assert_eq!(VmId::from_u128(42), VmId { value: 42 });
}

#[test]
fn random_ids_are_version_four_and_differ() {
    let a = VmId::random();
    let b = VmId::random();
    assert_ne!(a, b);
    assert_eq!(uuid::Uuid::from_u128(a.as_u128()).get_version_num(), 4);
}

#[test]
fn random_ids_have_the_form_of_random_identifiers() {
    for _ in 0..256 {
        let id = VmId::random();
        assert_eq!((id.value >> 76) & 0xf, 4);
        assert_eq!((id.value >> 62) & 0x3, 2);
        assert_eq!(id.byte_at(6) >> 4, 4);
        assert_eq!(id.byte_at(8) & 0xc0, 0x80);
        let uuid = uuid::Uuid::from_u128(id.as_u128());
        assert_eq!(uuid.get_version_num(), 4);
        assert_eq!(uuid.get_variant(), uuid::Variant::RFC4122);
        assert_eq!(id.to_text().as_bytes()[14], b'4');
    }
}

#[test]
fn hex_pair_is_lower_case_and_padded() {
    let mut out = String::new();
    push_hex_pair(&mut out, 0x0a);
    push_hex_pair(&mut out, 0xff);
    push_hex_pair(&mut out, 0x00);
    push_hex_pair(&mut out, 0x9c);
    assert_eq!(out, "0aff009c");
}
