use uds_rs::{
    compose_clear_diagnostic_information_request, parse_clear_diagnostic_information_response,
    UdsError, UdsResponse, CLEAR_DIAGNOSTIC_INFORMATION_SID,
};

#[test]
fn test_compose_clear_all_dtcs_request() {
    let result = compose_clear_diagnostic_information_request(0xFF_FF_FF);
    assert_eq!(vec![CLEAR_DIAGNOSTIC_INFORMATION_SID, 0xFF, 0xFF, 0xFF], result);
}

#[test]
fn clear_diagnostic_information_test_parse_positive_response() {
    let result = parse_clear_diagnostic_information_response(&[0x54]);
    assert_eq!(Ok(UdsResponse::ClearDiagnosticInformation), result);
}

#[test]
fn test_parse_sid_mismatch() {
    let raw_response = vec![0x7F];
    let result = parse_clear_diagnostic_information_response(&raw_response);
    assert_eq!(
        Err(UdsError::SidMismatch {
            expected: 0x54,
            received: 0x7F,
            raw_message: raw_response,
        }),
        result
    );
}

#[test]
fn compose_clear_group_is_big_endian_low_24_bits() {
    assert_eq!(
        vec![0x14, 0x12, 0x34, 0x56],
        compose_clear_diagnostic_information_request(0x0012_3456)
    );
    assert_eq!(
        compose_clear_diagnostic_information_request(0x0012_3456),
        compose_clear_diagnostic_information_request(0xAB12_3456)
    );
}

#[test]
fn parse_clear_empty_response() {
    assert_eq!(
        Err(UdsError::ResponseEmpty),
        parse_clear_diagnostic_information_response(&[])
    );
}

#[test]
fn parse_clear_ignores_trailing_bytes() {
    assert_eq!(
        Ok(UdsResponse::ClearDiagnosticInformation),
        parse_clear_diagnostic_information_response(&[0x54, 0x01, 0x02])
    );
}
