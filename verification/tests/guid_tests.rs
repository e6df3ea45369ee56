use fortify::guid::{generate_guid, generate_guid_v7_at, GuidVersion};
use uuid::Uuid;

#[test]
fn test_guid_v4() {
    let guid = generate_guid(GuidVersion::V4);
    assert!(Uuid::parse_str(&guid).is_ok());
    let uuid = Uuid::parse_str(&guid).unwrap();
    assert_eq!(uuid.get_version(), Some(uuid::Version::Random));
}

#[test]
fn test_guid_v7() {
    let guid = generate_guid(GuidVersion::V7);
    assert!(Uuid::parse_str(&guid).is_ok());
}

fn assert_canonical(guid: &str) {
    assert_eq!(guid.len(), 36);
    for (i, c) in guid.chars().enumerate() {
        if i == 8 || i == 13 || i == 18 || i == 23 {
            assert_eq!(c, '-');
        } else {
            assert!(c.is_ascii_hexdigit() && !c.is_ascii_uppercase());
        }
    }
}

#[test]
fn v4_guid_is_canonical_with_version_and_variant_nibbles() {
    let guid = generate_guid(GuidVersion::V4);
    assert_canonical(&guid);
    assert_eq!(guid.as_bytes()[14], b'4');
    assert!(matches!(guid.as_bytes()[19], b'8' | b'9' | b'a' | b'b'));
}

#[test]
fn v7_guid_is_canonical_with_version_nibble() {
    let guid = generate_guid(GuidVersion::V7);
    assert_canonical(&guid);
    assert_eq!(guid.as_bytes()[14], b'7');
}

#[test]
fn v7_guid_renders_its_timestamp_in_the_leading_digits() {
    let guid = generate_guid_v7_at(0, 0);
    assert_canonical(&guid);
    assert_eq!(&guid[0..13], "00000000-0000");
    // one second after the epoch: 1000 milliseconds, 0x3e8
    let guid = generate_guid_v7_at(1, 0);
    assert_eq!(&guid[0..13], "00000000-03e8");
    // the millisecond part of the timestamp shows up too
    let guid = generate_guid_v7_at(1, 500_000_000);
    assert_eq!(&guid[0..13], "00000000-05dc");
}

#[test]
fn v7_guids_at_increasing_timestamps_do_not_decrease() {
    let earlier = generate_guid_v7_at(1_700_000_000, 0);
    let later = generate_guid_v7_at(1_700_000_000, 999_000_000);
    assert!(earlier[0..13] <= later[0..13]);
    let much_later = generate_guid_v7_at(1_800_000_000, 123_000_000);
    assert!(later[0..13] < much_later[0..13]);
}
