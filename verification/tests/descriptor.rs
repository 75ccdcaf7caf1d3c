use firmware_descriptor::{
    BinaryFirmware, FatalEnvelopeError, Firmware, FirmwareEdition, FirmwareVersion,
    ParseFirmwareEditionError, ParseFirmwareVersionError, ResultResponse,
};

#[test]
fn version_parse_simple() {
    let v = FirmwareVersion::parse("1.2.3").unwrap();
    assert_eq!(v, FirmwareVersion { major: 1, minor: 2, patch: 3 });
    assert_eq!(v.to_display_string(), "1.2.3");
}

#[test]
fn version_parse_leading_zero_quirk_minor() {
    // a two-character token starting with '0' yields the second
    // character's code point, not its digit value
    let v = FirmwareVersion::parse("1.05.1").unwrap();
    assert_eq!(v, FirmwareVersion { major: 1, minor: 53, patch: 1 });
    assert_eq!(v.to_display_string(), "1.53.1");
}

#[test]
fn version_parse_leading_zero_quirk_major() {
    let v = FirmwareVersion::parse("05.1.1").unwrap();
    assert_eq!(v, FirmwareVersion { major: 53, minor: 1, patch: 1 });
}

#[test]
fn version_parse_two_digit_tokens() {
    let v = FirmwareVersion::parse("10.99.25").unwrap();
    assert_eq!(v, FirmwareVersion { major: 10, minor: 99, patch: 25 });
    assert_eq!(v.to_display_string(), "10.99.25");
}

#[test]
fn version_parse_trims_whitespace() {
    let v = FirmwareVersion::parse("  1.2.3\t").unwrap();
    assert_eq!(v, FirmwareVersion { major: 1, minor: 2, patch: 3 });
}

#[test]
fn version_parse_wrong_part_count() {
    assert_eq!(
        FirmwareVersion::parse("1.2"),
        Err(ParseFirmwareVersionError::UnmatchedSubversionError)
    );
    assert_eq!(
        FirmwareVersion::parse("1.2.3.4"),
        Err(ParseFirmwareVersionError::UnmatchedSubversionError)
    );
    assert_eq!(
        FirmwareVersion::parse(""),
        Err(ParseFirmwareVersionError::UnmatchedSubversionError)
    );
}

#[test]
fn version_parse_invalid_token() {
    assert_eq!(
        FirmwareVersion::parse("1.2.abc"),
        Err(ParseFirmwareVersionError::InvalidSubversionFormatError)
    );
    assert_eq!(
        FirmwareVersion::parse("1..3"),
        Err(ParseFirmwareVersionError::InvalidSubversionFormatError)
    );
    assert_eq!(
        FirmwareVersion::parse("255.0.0"),
        Err(ParseFirmwareVersionError::InvalidSubversionFormatError)
    );
}

#[test]
fn version_subversion_tokens() {
    assert_eq!(FirmwareVersion::parse_subversion("7"), Some(7));
    assert_eq!(FirmwareVersion::parse_subversion("42"), Some(42));
    assert_eq!(FirmwareVersion::parse_subversion("05"), Some(53));
    assert_eq!(FirmwareVersion::parse_subversion("00"), Some(48));
    assert_eq!(FirmwareVersion::parse_subversion("0x"), None);
    assert_eq!(FirmwareVersion::parse_subversion("x1"), None);
    assert_eq!(FirmwareVersion::parse_subversion("123"), None);
    assert_eq!(FirmwareVersion::parse_subversion(""), None);
}

#[test]
fn edition_parse_variants() {
    assert_eq!(FirmwareEdition::from_str("Premium"), Ok(FirmwareEdition::Premium));
    assert_eq!(FirmwareEdition::from_str("PREMIUM"), Ok(FirmwareEdition::Premium));
    assert_eq!(FirmwareEdition::from_str("Standard"), Ok(FirmwareEdition::Standard));
    assert_eq!(FirmwareEdition::from_str("STANDARD"), Ok(FirmwareEdition::Standard));
    assert_eq!(FirmwareEdition::from_str("Plus"), Ok(FirmwareEdition::Plus));
    assert_eq!(FirmwareEdition::from_str("PLUS"), Ok(FirmwareEdition::Plus));
    assert_eq!(
        FirmwareEdition::from_str("premium"),
        Err(ParseFirmwareEditionError::ParseEditionError)
    );
    assert_eq!(
        FirmwareEdition::from_str(""),
        Err(ParseFirmwareEditionError::ParseEditionError)
    );
}

#[test]
fn edition_display_canonical_uppercase() {
    assert_eq!(
        FirmwareEdition::from_str("Premium").unwrap().to_display_string(),
        "PREMIUM"
    );
    assert_eq!(
        FirmwareEdition::from_str("PREMIUM").unwrap().to_display_string(),
        "PREMIUM"
    );
    assert_eq!(FirmwareEdition::Standard.to_display_string(), "STANDARD");
    assert_eq!(FirmwareEdition::Plus.to_display_string(), "PLUS");
}

#[test]
fn firmware_assemble_valid() {
    let f = Firmware::from(
        "SN1".to_string(),
        2048,
        "2015-05-15T00:00:00Z".to_string(),
        "Premium".to_string(),
        "1.2.3".to_string(),
    )
    .unwrap();
    assert_eq!(f.serial_number().as_str(), "SN1");
    assert_eq!(*f.size(), 2048);
    assert_eq!(*f.compile_time(), 1431648000);
    assert_eq!(*f.edition(), FirmwareEdition::Premium);
    assert_eq!(*f.version(), FirmwareVersion { major: 1, minor: 2, patch: 3 });
}

#[test]
fn firmware_display_line() {
    let f = Firmware::from(
        "SN1".to_string(),
        2048,
        "2015-05-15T00:00:00Z".to_string(),
        "Premium".to_string(),
        "1.2.3".to_string(),
    )
    .unwrap();
    assert_eq!(
        f.to_display_string(),
        "Serial Number: SN1  Size(KB): 2    Compile Time: 2015-05-15 00:00:00 UTC    \
         Version: 1.2.3    Edition: PREMIUM"
    );
}

#[test]
fn firmware_assemble_offset_converted_to_utc() {
    let f = Firmware::from(
        "SN1".to_string(),
        1,
        "2015-05-15T02:00:00+02:00".to_string(),
        "Plus".to_string(),
        "1.0.0".to_string(),
    )
    .unwrap();
    assert_eq!(*f.compile_time(), 1431648000);
}

#[test]
fn firmware_assemble_empty_serial_fails() {
    let r = Firmware::from(
        "".to_string(),
        2048,
        "2015-05-15T00:00:00Z".to_string(),
        "Premium".to_string(),
        "1.2.3".to_string(),
    );
    assert!(r.is_none());
}

#[test]
fn firmware_assemble_invalid_fields_fail() {
    let ok_serial = "SN1".to_string();
    assert!(Firmware::from(
        ok_serial.clone(),
        0,
        "2015-05-15T00:00:00Z".to_string(),
        "Premium".to_string(),
        "1.2.3".to_string(),
    )
    .is_none());
    assert!(Firmware::from(
        ok_serial.clone(),
        2048,
        "not a timestamp".to_string(),
        "Premium".to_string(),
        "1.2.3".to_string(),
    )
    .is_none());
    assert!(Firmware::from(
        ok_serial.clone(),
        2048,
        "2015-05-15T00:00:00Z".to_string(),
        "premium".to_string(),
        "1.2.3".to_string(),
    )
    .is_none());
    assert!(Firmware::from(
        ok_serial,
        2048,
        "2015-05-15T00:00:00Z".to_string(),
        "Premium".to_string(),
        "1.2".to_string(),
    )
    .is_none());
}

#[test]
fn record_sorts_most_recent_first() {
    let older = BinaryFirmware::new(100, "a".to_string());
    let newer = BinaryFirmware::new(200, "b".to_string());
    let mut records = vec![older.clone(), newer.clone()];
    records.sort_by(|x, y| x.partial_cmp(y).unwrap());
    assert_eq!(records[0], newer);
    assert_eq!(records[1], older);
}

#[test]
fn record_ties_and_equality() {
    let a = BinaryFirmware::new(100, "a".to_string());
    let b = BinaryFirmware::new(100, "b".to_string());
    assert_eq!(a.partial_cmp(&b), Some(std::cmp::Ordering::Equal));
    assert!(a != b);
    let a2 = BinaryFirmware::new(100, "a".to_string());
    assert!(a == a2);
}

#[test]
fn record_snapshot_takes_serial() {
    let f = Firmware::from(
        "SN9".to_string(),
        1,
        "2015-05-15T00:00:00Z".to_string(),
        "Standard".to_string(),
        "1.0.0".to_string(),
    )
    .unwrap();
    let r = BinaryFirmware::from_firmware(&f);
    assert_eq!(r.serial_number().as_str(), "SN9");
}

#[test]
fn envelope_success_with_data() {
    let env = ResultResponse::new("{\"status\":true,\"data\":{\"x\":1}}".to_string()).unwrap();
    assert!(env.is_ok());
    assert!(!env.is_failed());
    assert_eq!(env.get_data(), "{\"x\":1}");
    assert_eq!(env.get_message(), "");
}

#[test]
fn envelope_failure_with_message() {
    let env = ResultResponse::new("{\"status\":false,\"message\":\"bad\"}".to_string()).unwrap();
    assert!(env.is_failed());
    assert!(!env.is_ok());
    assert_eq!(env.get_message(), "bad");
    assert_eq!(env.get_data(), "");
}

#[test]
fn envelope_empty_text_is_fatal() {
    assert_eq!(
        ResultResponse::new("".to_string()).unwrap_err(),
        FatalEnvelopeError::EmptyResponse
    );
}

#[test]
fn envelope_invalid_json_is_fatal() {
    assert_eq!(
        ResultResponse::new("not json".to_string()).unwrap_err(),
        FatalEnvelopeError::InvalidJson
    );
}

#[test]
fn envelope_missing_status_is_fatal() {
    assert_eq!(
        ResultResponse::new("{\"message\":\"x\"}".to_string()).unwrap_err(),
        FatalEnvelopeError::MissingStatus
    );
    assert_eq!(
        ResultResponse::new("{\"status\":1}".to_string()).unwrap_err(),
        FatalEnvelopeError::MissingStatus
    );
    assert_eq!(
        ResultResponse::new("[1,2]".to_string()).unwrap_err(),
        FatalEnvelopeError::MissingStatus
    );
}

#[test]
fn envelope_non_object_data_is_empty() {
    let env = ResultResponse::new("{\"status\":true,\"data\":[1]}".to_string()).unwrap();
    assert_eq!(env.get_data(), "");
    let env = ResultResponse::new("{\"status\":true}".to_string()).unwrap();
    assert_eq!(env.get_data(), "");
}

#[test]
fn envelope_non_string_message_defaults_empty() {
    let env = ResultResponse::new("{\"status\":false,\"message\":7}".to_string()).unwrap();
    assert_eq!(env.get_message(), "");
}

#[test]
fn envelope_if_failed_dispatch() {
    let failed = ResultResponse::new("{\"status\":false,\"message\":\"bad\"}".to_string()).unwrap();
    let mut seen = String::new();
    failed.if_failed(|m: &str| seen.push_str(m), None::<fn()>);
    assert_eq!(seen, "bad");

    let ok = ResultResponse::new("{\"status\":true}".to_string()).unwrap();
    let mut consumed = false;
    let mut fallback = false;
    ok.if_failed(|_m: &str| consumed = true, Some(|| fallback = true));
    assert!(!consumed);
    assert!(fallback);
}

#[test]
fn from_str_trait_delegates() {
    let v: FirmwareVersion = "1.2.3".parse().unwrap();
    assert_eq!(v, FirmwareVersion { major: 1, minor: 2, patch: 3 });
    let e: FirmwareEdition = "Plus".parse().unwrap();
    assert_eq!(e, FirmwareEdition::Plus);
    assert!("1.2".parse::<FirmwareVersion>().is_err());
    assert!("plus".parse::<FirmwareEdition>().is_err());
}

#[test]
fn defaults() {
    assert_eq!(FirmwareEdition::default(), FirmwareEdition::Standard);
    assert_eq!(
        FirmwareVersion::default(),
        FirmwareVersion { major: 0, minor: 0, patch: 0 }
    );
    let f = Firmware::default();
    assert_eq!(f.serial_number().as_str(), "");
    assert_eq!(*f.size(), 0);
    let r = BinaryFirmware::default();
    assert_eq!(*r.timestamp(), 0);
    assert_eq!(r.serial_number().as_str(), "");
}
