use netavark_proxy::mac::{canonical_mac, format_mac, parse_mac, validate_mac};

#[test]
fn validate_accepts_colon_and_hyphen_forms() {
    assert!(validate_mac("00:00:5e:00:53:af"));
    assert!(validate_mac("00-00-5E-00-53-AF"));
    assert!(validate_mac("11:22:33:44:55:66"));
}

#[test]
fn validate_rejects_malformed_text() {
    assert!(!validate_mac("not-a-mac"));
    assert!(!validate_mac(""));
    assert!(!validate_mac("00:00:5e:00:53"));
    assert!(!validate_mac("00:00:5e:00:53:af:01:02"));
    assert!(!validate_mac("00:00-5e:00:53:af"));
    assert!(!validate_mac("00:00:5g:00:53:af"));
    assert!(!validate_mac("0000.5e00.53af"));
    assert!(!validate_mac("00:00:5e:00:53:af "));
}

#[test]
fn parse_gives_octets() {
    assert_eq!(parse_mac("00:00:5e:00:53:af"), Some(vec![0x00, 0x00, 0x5e, 0x00, 0x53, 0xaf]));
    assert_eq!(parse_mac("FF-ee-01-10-9a-B0"), Some(vec![0xff, 0xee, 0x01, 0x10, 0x9a, 0xb0]));
    assert_eq!(parse_mac("not-a-mac"), None);
}

#[test]
fn format_is_lower_case_with_colons() {
    assert_eq!(format_mac(&vec![0x00, 0x00, 0x5e, 0x00, 0x53, 0xaf]), "00:00:5e:00:53:af");
    assert_eq!(format_mac(&vec![0xff, 0x0a, 0xb0, 1, 2, 3]), "ff:0a:b0:01:02:03");
}

#[test]
fn canonical_round_trip() {
    assert_eq!(canonical_mac("00-00-5E-00-53-AF"), Some("00:00:5e:00:53:af".to_string()));
    assert_eq!(canonical_mac("00:00:5e:00:53:af"), Some("00:00:5e:00:53:af".to_string()));
    assert_eq!(canonical_mac("AA:BB:CC:DD:EE:FF"), Some("aa:bb:cc:dd:ee:ff".to_string()));
    assert_eq!(canonical_mac("zz:bb:cc:dd:ee:ff"), None);
    for text in ["01:23:45:67:89:ab", "CD-EF-01-23-45-67"] {
        let octets = parse_mac(text).unwrap();
        assert_eq!(format_mac(&octets), canonical_mac(text).unwrap());
    }
}
