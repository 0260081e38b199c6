use uds_rs::{
    compose_diagnostic_session_control_request, parse_diagnostic_session_control_response,
    DataFormat, DiagnosticSessionControlResponse, UdsError, UdsResponse,
    DIAGNOSTIC_SESSION_CONTROL_SID,
};

#[test]
fn test_compose_extended_diagnostic_session_request() {
    let result = compose_diagnostic_session_control_request(0x03);
    assert_eq!(vec![DIAGNOSTIC_SESSION_CONTROL_SID, 0x03], result);
}

#[test]
fn test_parse_positive_response_with_timing_parameters() {
    let raw_response = vec![0x50, 0x03, 0x00, 0x32, 0x01, 0xF4];
    let result = parse_diagnostic_session_control_response(&raw_response);
    assert_eq!(
        Ok(UdsResponse::DiagnosticSessionControl(DataFormat::Parsed(
            DiagnosticSessionControlResponse {
                session: 0x03,
                p2: 0x0032,
                p2_star: 0x01F4,
            },
        ))),
        result
    );
}

#[test]
fn test_parse_invalid_length() {
    let raw_response = vec![0x50, 0x03, 0x00];
    let result = parse_diagnostic_session_control_response(&raw_response);
    assert_eq!(
        Err(UdsError::InvalidLength {
            raw_message: raw_response
        }),
        result
    );
}

#[test]
fn parse_session_control_timing_is_big_endian() {
    let result = parse_diagnostic_session_control_response(&[0x50, 0x01, 0xFF, 0xFE, 0x12, 0x34]);
    assert_eq!(
        Ok(UdsResponse::DiagnosticSessionControl(DataFormat::Parsed(
            DiagnosticSessionControlResponse {
                session: 0x01,
                p2: 0xFFFE,
                p2_star: 0x1234,
            },
        ))),
        result
    );
}

#[test]
fn parse_session_control_sid_mismatch_and_empty() {
    assert_eq!(
        Err(UdsError::SidMismatch {
            expected: 0x50,
            received: 0x51,
            raw_message: vec![0x51, 0x03],
        }),
        parse_diagnostic_session_control_response(&[0x51, 0x03])
    );
    assert_eq!(
        Err(UdsError::ResponseEmpty),
        parse_diagnostic_session_control_response(&[])
    );
}
