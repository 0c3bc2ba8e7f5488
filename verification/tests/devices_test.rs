use soundcore_control::devices::{
    device_profiles, find_matching_descriptor, matches_known_profile, ConnectionDescriptor,
};
use soundcore_control::mac::MacAddress;

fn descriptor(name: &str, mac: &str) -> ConnectionDescriptor {
    ConnectionDescriptor { name: name.to_owned(), mac_address: MacAddress::parse(mac).unwrap() }
}

#[test]
fn matches_by_name_case_insensitively() {
    let profiles = device_profiles();
    let profile = &profiles[0];
    let descriptors = vec![descriptor("SOUNDCORE LIBERTY 4 PRO", "AA:BB:CC:DD:EE:FF")];

    let found = find_matching_descriptor(&descriptors, profile, None);

    assert_eq!(found, Some(descriptors[0].clone()));
}

#[test]
fn ignores_name_when_mac_is_configured() {
    let profiles = device_profiles();
    let profile = &profiles[0];
    let configured_mac = MacAddress::parse("11:22:33:44:55:66").unwrap();
    let descriptors = vec![
        descriptor("soundcore Liberty 4 Pro", "AA:BB:CC:DD:EE:FF"),
        descriptor("some other name", "11:22:33:44:55:66"),
    ];

    let found = find_matching_descriptor(&descriptors, profile, Some(configured_mac));

    assert_eq!(found, Some(descriptors[1].clone()));
}

#[test]
fn returns_none_when_nothing_matches() {
    let profiles = device_profiles();
    let profile = &profiles[0];
    let descriptors = vec![descriptor("unrelated device", "AA:BB:CC:DD:EE:FF")];

    assert_eq!(find_matching_descriptor(&descriptors, profile, None), None);
}

#[test]
fn recognizes_every_registered_profile_name() {
    for profile in device_profiles().iter() {
        assert!(matches_known_profile(&profile.bluetooth_name));
        assert!(matches_known_profile(&profile.bluetooth_name.to_uppercase()));
    }
    assert!(!matches_known_profile("totally unrelated device"));
}

#[test]
fn loads_icons_for_entries_that_declare_one() {
    let profiles = device_profiles();
    let liberty = profiles
        .iter()
        .find(|profile| profile.display_name == "Liberty 4 Pro")
        .unwrap();
    assert!(liberty.icon.is_some());

    let p20i = profiles.iter().find(|profile| profile.display_name == "P20i").unwrap();
    assert!(p20i.icon.is_none());
}
