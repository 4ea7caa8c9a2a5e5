use fan_service::temp::{parse_temperature, parse_unsigned, reading_from, TempError};

#[test]
fn report_of_the_sensor() {
    assert_eq!(parse_temperature("45678\n"), Ok(45678));
    assert_eq!(parse_temperature("0\n"), Ok(0));
    assert_eq!(parse_temperature("4294967295"), Ok(u32::MAX));
}

#[test]
fn number_is_the_first_run_of_digits() {
    assert_eq!(parse_temperature("temp=45678 millidegrees"), Ok(45678));
    assert_eq!(parse_temperature("12 34"), Ok(12));
    assert_eq!(parse_temperature("-500"), Ok(500));
    assert_eq!(parse_temperature("3.5"), Ok(3));
    assert_eq!(parse_temperature("a007b8"), Ok(7));
}

#[test]
fn report_without_digits() {
    assert_eq!(parse_temperature(""), Err(TempError::NoNumber));
    assert_eq!(parse_temperature("\n"), Err(TempError::NoNumber));
    assert_eq!(parse_temperature("no reading"), Err(TempError::NoNumber));
}

#[test]
fn only_ascii_digits_count() {
    // Arabic-Indic digits are no match
    assert_eq!(parse_temperature("\u{0664}\u{0665}"), Err(TempError::NoNumber));
    assert_eq!(parse_temperature("\u{0664}7\u{0665}"), Ok(7));
}

#[test]
fn number_beyond_32_bits() {
    assert_eq!(parse_temperature("4294967296"), Err(TempError::NotANumber));
    assert_eq!(parse_temperature("99999999999999999999999"), Err(TempError::NotANumber));
    assert_eq!(parse_temperature("00000000000000000000042"), Ok(42));
}

#[test]
fn reading_from_what_was_found() {
    assert_eq!(reading_from(None), Err(TempError::NoNumber));
    assert_eq!(reading_from(Some("45678")), Ok(45678));
    assert_eq!(reading_from(Some("+45678")), Ok(45678));
    assert_eq!(reading_from(Some("")), Err(TempError::NotANumber));
    assert_eq!(reading_from(Some("45x")), Err(TempError::NotANumber));
    assert_eq!(reading_from(Some("4294967296")), Err(TempError::NotANumber));
}

#[test]
fn unsigned_numbers() {
    assert_eq!(parse_unsigned("0"), Some(0));
    assert_eq!(parse_unsigned("007"), Some(7));
    assert_eq!(parse_unsigned("+7"), Some(7));
    assert_eq!(parse_unsigned("4294967295"), Some(4294967295));
    assert_eq!(parse_unsigned("4294967296"), None);
    assert_eq!(parse_unsigned("42949672950"), None);
    assert_eq!(parse_unsigned(""), None);
    assert_eq!(parse_unsigned("+"), None);
    assert_eq!(parse_unsigned("-"), None);
    assert_eq!(parse_unsigned("-7"), None);
    assert_eq!(parse_unsigned("++7"), None);
    assert_eq!(parse_unsigned("7+"), None);
    assert_eq!(parse_unsigned(" 7"), None);
    assert_eq!(parse_unsigned("7 "), None);
    assert_eq!(parse_unsigned("7a"), None);
    assert_eq!(parse_unsigned("\u{0667}"), None);
    assert_eq!(parse_unsigned("99999999999999999999x"), None);
}

#[test]
fn unsigned_numbers_are_read_as_the_standard_library_reads_them() {
    let texts = [
        "", "+", "-", "0", "+0", "-0", "1", "+1", "12345", "4294967295", "4294967296",
        "+4294967295", "000000000000", "18446744073709551616", "1_000", "1e3", "0x10", " 1",
        "1 ", "+-1", "\u{ff11}", "9999999999",
    ];
    for text in texts {
        assert_eq!(parse_unsigned(text), text.parse::<u32>().ok(), "{:?}", text);
    }
}

#[test]
fn temperature_error_messages() {
    assert_eq!(TempError::NoNumber.message(), "Regex failed");
    assert_eq!(TempError::NotANumber.message(), "Cannot convert result to int");
}
