use uds_rs::{
    compose_write_data_by_identifier_request, parse_write_data_by_identifier_response, DataFormat,
    UdsError, UdsResponse, WriteDataByIdentifierResponse, WRITE_DATA_BY_IDENTIFIER_SID,
};

#[test]
fn test_compose_write_vin_did_request() {
    let result = compose_write_data_by_identifier_request(0xF190, b"TESTVIN123456789");
    let expected = [
        vec![WRITE_DATA_BY_IDENTIFIER_SID, 0xF1, 0x90],
        b"TESTVIN123456789".to_vec(),
    ]
    .concat();
    assert_eq!(expected, result);
}

#[test]
fn write_data_by_identifier_test_parse_positive_response() {
    let raw_response = vec![0x6E, 0xF1, 0x90];
    let result = parse_write_data_by_identifier_response(&raw_response);
    assert_eq!(
        Ok(UdsResponse::WriteDataByIdentifier(DataFormat::Parsed(
            WriteDataByIdentifierResponse {
                data_identifier: 0xF190,
            },
        ))),
        result
    );
}

#[test]
fn test_parse_response_too_short() {
    let raw_response = vec![0x6E, 0xF1];
    let result = parse_write_data_by_identifier_response(&raw_response);
    assert_eq!(
        Err(UdsError::InvalidLength {
            raw_message: raw_response
        }),
        result
    );
}

#[test]
fn compose_write_with_empty_record() {
    assert_eq!(
        vec![0x2E, 0x00, 0x01],
        compose_write_data_by_identifier_request(0x0001, &[])
    );
}

#[test]
fn parse_write_echo_of_request_identifier() {
    let request = compose_write_data_by_identifier_request(0x1234, &[0xAA, 0xBB]);
    let response = vec![request[0] + 0x40, request[1], request[2]];
    assert_eq!(
        Ok(UdsResponse::WriteDataByIdentifier(DataFormat::Parsed(
            WriteDataByIdentifierResponse {
                data_identifier: 0x1234,
            },
        ))),
        parse_write_data_by_identifier_response(&response)
    );
}

#[test]
fn parse_write_sid_mismatch() {
    assert_eq!(
        Err(UdsError::SidMismatch {
            expected: 0x6E,
            received: 0x6F,
            raw_message: vec![0x6F, 0x00, 0x01],
        }),
        parse_write_data_by_identifier_response(&[0x6F, 0x00, 0x01])
    );
}
