use uds_rs::{
    compose_ecu_reset_request, parse_ecu_reset_response, DataFormat, EcuResetResponse, ResetType,
    UdsError, UdsResponse, ECU_RESET_SID,
};

#[test]
fn test_compose_key_off_on_reset_request() {
    let result = compose_ecu_reset_request(ResetType::KeyOffOnReset);
    assert_eq!(vec![ECU_RESET_SID, 0x02], result);
}

#[test]
fn test_parse_enable_rapid_power_shutdown_response() {
    let raw_response = vec![0x51, 0x04, 0x0A];
    let result = parse_ecu_reset_response(&raw_response);
    assert_eq!(
        Ok(UdsResponse::EcuReset(DataFormat::Parsed(EcuResetResponse {
            reset_type: ResetType::EnableRapidPowerShutDown,
            power_down_time: Some(0x0A),
        }))),
        result
    );
}

#[test]
fn test_parse_unknown_reset_type() {
    let raw_response = vec![0x51, 0xFF];
    let result = parse_ecu_reset_response(&raw_response);
    assert_eq!(
        Err(UdsError::ResponseIncorrect {
            raw_message: raw_response,
        }),
        result
    );
}

#[test]
fn reset_type_bytes_round_trip() {
    let all = [
        ResetType::HardReset,
        ResetType::KeyOffOnReset,
        ResetType::SoftReset,
        ResetType::EnableRapidPowerShutDown,
        ResetType::DisableRapidPowerShutDown,
    ];
    for (i, t) in all.iter().enumerate() {
        let byte = u8::from(*t);
        assert_eq!(i as u8 + 1, byte);
        assert_eq!(Ok(*t), ResetType::try_from_primitive(byte));
    }
    assert_eq!(Err(0), ResetType::try_from_primitive(0));
    assert_eq!(Err(6), ResetType::try_from_primitive(6));
}

#[test]
fn parse_rapid_power_shutdown_without_time_is_too_short() {
    let raw_response = vec![0x51, 0x04];
    assert_eq!(
        Err(UdsError::InvalidLength {
            raw_message: raw_response.clone(),
        }),
        parse_ecu_reset_response(&raw_response)
    );
}

#[test]
fn parse_reset_without_type_is_too_short() {
    assert_eq!(
        Err(UdsError::InvalidLength {
            raw_message: vec![0x51],
        }),
        parse_ecu_reset_response(&[0x51])
    );
}

#[test]
fn parse_reset_echo_of_request() {
    let request = compose_ecu_reset_request(ResetType::HardReset);
    let response = vec![request[0] + 0x40, request[1]];
    assert_eq!(
        Ok(UdsResponse::EcuReset(DataFormat::Parsed(EcuResetResponse {
            reset_type: ResetType::HardReset,
            power_down_time: None,
        }))),
        parse_ecu_reset_response(&response)
    );
}
