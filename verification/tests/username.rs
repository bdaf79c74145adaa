use fallout_equestria_tactics::common::{Username, LENGTH_PREFIX_BYTES};

fn name(s: &str) -> Username {
    Username(s.to_string())
}

#[test]
fn user_data_starts_with_the_length_then_the_name() {
    let data = name("fartbag").to_netcode_user_data();
    assert_eq!(data.len(), 256);
    assert_eq!(&data[0..8], &[7, 0, 0, 0, 0, 0, 0, 0]);
    assert_eq!(&data[8..15], "fartbag".as_bytes());
    assert!(data[15..].iter().all(|b| *b == 0));
}

#[test]
fn user_data_length_prefix_is_eight_bytes() {
    assert_eq!(LENGTH_PREFIX_BYTES, 8);
}

#[test]
fn user_data_round_trip() {
    let data = name("Littlepip").to_netcode_user_data();
    assert_eq!(Username::from_user_data(&data), Some(name("Littlepip")));
}

#[test]
fn user_data_round_trip_of_the_empty_name() {
    let data = name("").to_netcode_user_data();
    assert!(data.iter().all(|b| *b == 0));
    assert_eq!(Username::from_user_data(&data), Some(name("")));
}

#[test]
fn user_data_counts_bytes_not_characters() {
    let data = name("Zo\u{eb}").to_netcode_user_data();
    assert_eq!(data[0], 4);
    assert_eq!(Username::from_user_data(&data), Some(name("Zo\u{eb}")));
}

#[test]
fn user_data_takes_a_name_that_just_fits() {
    let long = "x".repeat(248);
    let data = name(&long).to_netcode_user_data();
    assert_eq!(data[0], 248);
    assert_eq!(data[255], b'x');
    assert_eq!(Username::from_user_data(&data), Some(name(&long)));
}

#[test]
fn user_data_has_room_for_248_bytes() {
    assert!(name("").fits_user_data());
    assert!(name("fartbag").fits_user_data());
    assert!(name(&"x".repeat(248)).fits_user_data());
    assert!(!name(&"x".repeat(249)).fits_user_data());
    assert!(!name(&"x".repeat(1000)).fits_user_data());
    // 124 characters of two bytes each fit, 125 do not.
    assert!(name(&"\u{eb}".repeat(124)).fits_user_data());
    assert!(!name(&"\u{eb}".repeat(125)).fits_user_data());
}

#[test]
fn from_user_data_cuts_an_overlong_length_down() {
    let mut data = [b'a'; 256];
    data[0..8].copy_from_slice(&1000u64.to_le_bytes());
    assert_eq!(Username::from_user_data(&data), Some(name(&"a".repeat(248))));
    data[0..8].copy_from_slice(&u64::MAX.to_le_bytes());
    assert_eq!(Username::from_user_data(&data), Some(name(&"a".repeat(248))));
}

#[test]
fn from_user_data_reads_every_byte_of_the_length() {
    let mut data = [b'a'; 256];
    // 3 + 256 * 0 would be a name of three bytes; the second byte makes it 259.
    data[0..8].copy_from_slice(&[3, 1, 0, 0, 0, 0, 0, 0]);
    assert_eq!(Username::from_user_data(&data), Some(name(&"a".repeat(248))));
    data[0..8].copy_from_slice(&[3, 0, 0, 0, 0, 0, 0, 1]);
    assert_eq!(Username::from_user_data(&data), Some(name(&"a".repeat(248))));
    data[0..8].copy_from_slice(&[3, 0, 0, 0, 0, 0, 0, 0]);
    assert_eq!(Username::from_user_data(&data), Some(name("aaa")));
}

#[test]
fn from_user_data_ignores_what_follows_the_name() {
    let mut data = [0xffu8; 256];
    data[0..8].copy_from_slice(&2u64.to_le_bytes());
    data[8] = b'o';
    data[9] = b'k';
    assert_eq!(Username::from_user_data(&data), Some(name("ok")));
}

#[test]
fn from_user_data_rejects_bytes_that_are_not_utf8() {
    let mut data = [0u8; 256];
    data[0..8].copy_from_slice(&2u64.to_le_bytes());
    data[8] = 0xc3;
    data[9] = 0x28;
    assert_eq!(Username::from_user_data(&data), None);
    // A name cut in the middle of a character is not well-formed either.
    data[0..8].copy_from_slice(&1u64.to_le_bytes());
    data[9] = 0xab;
    assert_eq!(Username::from_user_data(&data), None);
}
