use pcr_sim::file_processor::MeasurementFileProcessor;

fn padded(hex: &str) -> String {
    format!("{:0>64}", hex)
}

#[test]
fn new_processor_is_empty() {
    let p = MeasurementFileProcessor::new();
    assert!(p.get_file_path().is_none());
    assert!(p.get_file_content().is_empty());
    assert!(p.get_parsed_measurements().is_empty());
    assert!(p.get_error().is_none());
}

#[test]
fn validate_hex_accepts_and_pads() {
    let p = MeasurementFileProcessor::new();
    assert_eq!(p.validate_hex("deadbeef").unwrap(), padded("deadbeef"));
    assert_eq!(p.validate_hex("0").unwrap(), padded("0"));
    assert_eq!(p.validate_hex("de ad be ef").unwrap(), padded("deadbeef"));
    assert_eq!(p.validate_hex("").unwrap(), "0".repeat(64));
    let full = "ab".repeat(32);
    assert_eq!(p.validate_hex(&full).unwrap(), full);
}

#[test]
fn validate_hex_rejects_too_long() {
    let p = MeasurementFileProcessor::new();
    let too_long = "a".repeat(65);
    assert_eq!(
        p.validate_hex(&too_long).unwrap_err(),
        "Measurement must be at most 64 hex characters"
    );
}

#[test]
fn validate_hex_rejects_non_hex() {
    let p = MeasurementFileProcessor::new();
    assert_eq!(p.validate_hex("xyz").unwrap_err(), "Invalid hex characters");
    assert_eq!(p.validate_hex("12g4").unwrap_err(), "Invalid hex characters");
    assert_eq!(p.validate_hex("12\t34").unwrap_err(), "Invalid hex characters");
}

#[test]
fn parse_lines_keeps_only_qualifying_lines() {
    let mut p = MeasurementFileProcessor::new();
    let lines: Vec<String> = vec![
        "# comment".to_string(),
        "".to_string(),
        "deadbeef".to_string(),
        "zzzz".to_string(),
        "   ".to_string(),
    ];
    p.load_content("measurements.txt".to_string(), lines);
    assert_eq!(p.get_parsed_measurements(), &[padded("deadbeef")]);
    assert_eq!(p.get_file_path().unwrap(), "measurements.txt");
    assert!(p.get_error().is_none());
    assert_eq!(p.get_file_content().len(), 5);
}

#[test]
fn parse_lines_handles_spaces_and_trim() {
    let mut p = MeasurementFileProcessor::new();
    let lines: Vec<String> = vec![
        "  de ad be ef  ".to_string(),
        "0102".to_string(),
        "# 0304".to_string(),
        "too long ".to_string() + &"a".repeat(70),
        "0a0b0c".to_string(),
    ];
    p.load_content("m.txt".to_string(), lines);
    assert_eq!(
        p.get_parsed_measurements(),
        &[padded("deadbeef"), padded("0102"), padded("0a0b0c")]
    );
}

#[test]
fn parse_lines_drops_overlong_hex() {
    let mut p = MeasurementFileProcessor::new();
    let lines: Vec<String> = vec!["a".repeat(65), "bb".to_string()];
    p.load_content("m.txt".to_string(), lines);
    assert_eq!(p.get_parsed_measurements(), &[padded("bb")]);
}

#[test]
fn file_with_no_qualifying_lines_yields_empty_result() {
    let mut p = MeasurementFileProcessor::new();
    let lines: Vec<String> = vec!["# only".to_string(), "not hex".to_string()];
    p.load_content("m.txt".to_string(), lines);
    assert!(p.get_parsed_measurements().is_empty());
    assert!(p.get_error().is_none());
}

#[test]
fn record_read_error_keeps_message_and_clears_content() {
    let mut p = MeasurementFileProcessor::new();
    p.load_content("ok.txt".to_string(), vec!["aa".to_string()]);
    assert_eq!(p.get_parsed_measurements().len(), 1);

    p.record_read_error("Error reading file: denied".to_string());
    assert_eq!(p.get_error().unwrap(), "Error reading file: denied");
    assert!(p.get_file_content().is_empty());
    assert!(p.get_parsed_measurements().is_empty());
    assert_eq!(p.get_file_path().unwrap(), "ok.txt");
}

#[test]
fn parse_lines_trims_tabs_but_rejects_embedded_tabs() {
    let mut p = MeasurementFileProcessor::new();
    let lines: Vec<String> = vec![
        "\tdeadbeef\t".to_string(),  // trimmed away: qualifies
        "de\tad".to_string(),        // embedded tab survives space removal: dropped
    ];
    p.load_content("m.txt".to_string(), lines);
    assert_eq!(p.get_parsed_measurements(), &[padded("deadbeef")]);
}

#[test]
fn reparsing_is_stable() {
    let mut p = MeasurementFileProcessor::new();
    p.load_content("m.txt".to_string(), vec!["cafe".to_string(), "??".to_string()]);
    let first = p.get_parsed_measurements().to_vec();
    p.parse_measurements();
    assert_eq!(p.get_parsed_measurements(), &first[..]);
}
