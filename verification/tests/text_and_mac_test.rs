use soundcore_control::device::{parse_configured_mac, ConfigError};
use soundcore_control::mac::MacAddress;
use soundcore_control::text::{chars_of, decimal_text, eq_ignore_ascii_case, text_eq};

#[test]
fn compares_names_ignoring_ascii_case_only() {
    assert!(eq_ignore_ascii_case("Soundcore Liberty", "SOUNDCORE liberty"));
    assert!(!eq_ignore_ascii_case("soundcore", "soundcore "));
    assert!(!eq_ignore_ascii_case("É", "é"));
    assert!(text_eq("abc", "abc"));
    assert!(!text_eq("abc", "abC"));
}

#[test]
fn renders_decimal_numbers() {
    assert_eq!(decimal_text(0), "0");
    assert_eq!(decimal_text(7), "7");
    assert_eq!(decimal_text(100), "100");
    assert_eq!(decimal_text(65535), "65535");
    assert_eq!(chars_of("a/b"), vec!['a', '/', 'b']);
}

#[test]
fn parses_and_renders_mac_addresses() {
    let address = MacAddress::parse("ab:0d:ef:12:34:56").unwrap();
    assert_eq!(address.octets, [0xAB, 0x0D, 0xEF, 0x12, 0x34, 0x56]);
    assert_eq!(address.to_text(), "AB:0D:EF:12:34:56");
    assert!(MacAddress::parse("not an address").is_none());
    assert!(address.same_as(&MacAddress::parse("AB-0D-EF-12-34-56").unwrap()));
    assert!(!address.same_as(&MacAddress::parse("AB:0D:EF:12:34:57").unwrap()));
}

#[test]
fn reads_the_configured_mac_address() {
    assert_eq!(parse_configured_mac(None), Ok(None));
    assert_eq!(
        parse_configured_mac(Some("11:22:33:44:55:66")),
        Ok(Some(MacAddress { octets: [0x11, 0x22, 0x33, 0x44, 0x55, 0x66] }))
    );
    let error = parse_configured_mac(Some("11:22")).unwrap_err();
    assert_eq!(error, ConfigError::InvalidMac { value: "11:22".into() });
    assert_eq!(error.message(), "invalid SOUNDCORE_CONTROL_MAC value: 11:22");
}

#[test]
fn mac_text_grammar() {
    let octets = [0xAA, 0xBB, 0xCC, 0xDD, 0xEE, 0xFF];
    for accepted in [
        "AABBCCDDEEFF",
        ":AA:BB:CC:DD:EE:FF",
        "AA.BBCC.DDEE.FF",
        "aa-bb-cc-dd-ee-ff",
        "AaBb:Cc:dD:eE:fF",
    ] {
        assert_eq!(MacAddress::parse(accepted).map(|a| a.octets), Some(octets), "{accepted}");
    }
    for rejected in [
        "AA:BB-CC:DD:EE:FF",
        "AA:BB:CC:DD:EE:FF:",
        "AA::BB:CC:DD:EE:FF",
        "A:ABB:CC:DD:EE:FF",
        "AA:BB:CC:DD:EE",
        "AA:BB:CC:DD:EE:FF:00",
        "AA:BB:CC:DD:EE:FG",
        "AA BB CC DD EE FF",
        "",
    ] {
        assert!(MacAddress::parse(rejected).is_none(), "{rejected}");
    }
}
