use std::collections::VecDeque;

use uds_rs::{
    compose_clear_diagnostic_information_request, compose_diagnostic_session_control_request,
    compose_ecu_reset_request, parse_clear_diagnostic_information_response,
    parse_diagnostic_session_control_response, parse_ecu_reset_response, parse_for_error,
    DataFormat, DiagnosticSessionControlResponse, EcuResetResponse, Exchange, ExchangeAction,
    NegativeResponseCode, NrcData, ResetType, UdsCommunicationError, UdsError, UdsResponse,
    NEGATIVE_RESPONSE_SID, RESPONSE_PENDING_TIMEOUT_MS,
};

/// A transport that records what is sent and answers from a queue; an empty
/// queue answers with a general error. `timed_out` answers every follow-up
/// receive with "no response in time".
struct MockTransport {
    sent_packets: Vec<Vec<u8>>,
    responses: VecDeque<Vec<u8>>,
    timed_out: bool,
    follow_up_limits: Vec<u64>,
}

impl MockTransport {
    fn new(responses: Vec<Vec<u8>>) -> Self {
        MockTransport {
            sent_packets: Vec::new(),
            responses: responses.into_iter().collect(),
            timed_out: false,
            follow_up_limits: Vec::new(),
        }
    }

    fn receive(&mut self) -> Result<Vec<u8>, UdsCommunicationError> {
        self.responses
            .pop_front()
            .ok_or(UdsCommunicationError::GeneralError)
    }

    /// Performs what the exchange asks for until it finishes.
    fn send_and_receive(&mut self, request: Vec<u8>) -> Result<Vec<u8>, UdsError> {
        let (mut exchange, mut action) = Exchange::open(request)?;
        loop {
            action = match action {
                ExchangeAction::Send(bytes) => {
                    self.sent_packets.push(bytes);
                    exchange.on_sent(Ok(()))
                }
                ExchangeAction::Receive => {
                    let received = self.receive();
                    assert!(!exchange.retry_would_overflow(&received));
                    exchange.on_response(received)
                }
                ExchangeAction::ReceiveFollowUp { timeout_ms } => {
                    self.follow_up_limits.push(timeout_ms);
                    if self.timed_out {
                        exchange.on_follow_up(None)
                    } else {
                        let received = self.receive();
                        exchange.on_follow_up(Some(received))
                    }
                }
                ExchangeAction::Finish(result) => return result,
            }
        }
    }
}

#[test]
fn test_parse_for_error_wrong_nrc() {
    let raw_response = vec![NEGATIVE_RESPONSE_SID, 0x11, 0xff];
    let expected = UdsError::UnknownNRC {
        rejected_sid: 0x11,
        unknown_nrc: 0xff,
    };
    let result = parse_for_error(&raw_response);
    assert_eq!(Err(expected), result);
}

#[test]
fn test_parse_for_error_positive_response_passthrough() {
    assert_eq!(Ok(()), parse_for_error(&[0x50, 0x03]));
}

#[test]
fn test_parse_for_error_empty_response() {
    assert_eq!(Err(UdsError::ResponseEmpty), parse_for_error(&[]));
}

#[test]
fn test_parse_for_error_negative_response_missing_sid() {
    assert_eq!(
        Err(UdsError::ResponseEmpty),
        parse_for_error(&[NEGATIVE_RESPONSE_SID])
    );
}

#[test]
fn test_parse_for_error_negative_response_missing_nrc() {
    assert_eq!(
        Err(UdsError::ResponseEmpty),
        parse_for_error(&[NEGATIVE_RESPONSE_SID, 0x10])
    );
}

#[test]
fn parse_for_error_known_nrc() {
    assert_eq!(
        Err(UdsError::NRC {
            nrc: NrcData {
                rejected_sid: 0x22,
                nrc: NegativeResponseCode::RequestOutOfRange,
            }
        }),
        parse_for_error(&[NEGATIVE_RESPONSE_SID, 0x22, 0x31])
    );
}

#[test]
fn negative_response_codes_round_trip() {
    for byte in 0..=255u8 {
        if let Ok(code) = NegativeResponseCode::try_from_primitive(byte) {
            assert_eq!(byte, code.code());
        } else {
            assert_eq!(Err(byte), NegativeResponseCode::try_from_primitive(byte));
        }
    }
    assert_eq!(0x21, NegativeResponseCode::BusyRepeatRequest.code());
    assert_eq!(
        0x78,
        NegativeResponseCode::RequestCorrectlyReceivedResponsePending.code()
    );
    assert_eq!(0x22, NegativeResponseCode::ConditionsNotCorrect.code());
}

#[test]
fn test_client_can_be_tested_with_mock_transport() {
    let mut transport = MockTransport::new(vec![vec![0x51, 0x03]]);
    let result = transport
        .send_and_receive(compose_ecu_reset_request(ResetType::SoftReset))
        .and_then(|raw| parse_ecu_reset_response(&raw));
    assert_eq!(
        Ok(UdsResponse::EcuReset(DataFormat::Parsed(EcuResetResponse {
            reset_type: ResetType::SoftReset,
            power_down_time: None,
        }))),
        result
    );
    assert_eq!(vec![vec![0x11, 0x03]], transport.sent_packets);
}

#[test]
fn test_busy_repeat_request_retries_send() {
    let mut transport = MockTransport::new(vec![
        vec![
            NEGATIVE_RESPONSE_SID,
            0x11,
            NegativeResponseCode::BusyRepeatRequest.code(),
        ],
        vec![0x51, 0x03],
    ]);
    let result = transport
        .send_and_receive(compose_ecu_reset_request(ResetType::SoftReset))
        .and_then(|raw| parse_ecu_reset_response(&raw));
    assert_eq!(
        Ok(UdsResponse::EcuReset(DataFormat::Parsed(EcuResetResponse {
            reset_type: ResetType::SoftReset,
            power_down_time: None,
        }))),
        result
    );
    assert_eq!(
        vec![vec![0x11, 0x03], vec![0x11, 0x03]],
        transport.sent_packets
    );
}

#[test]
fn test_readme_style_clear_diagnostic_information_flow() {
    let mut transport = MockTransport::new(vec![vec![0x54]]);
    let result = transport
        .send_and_receive(compose_clear_diagnostic_information_request(0xFF_FF_FF))
        .and_then(|raw| parse_clear_diagnostic_information_response(&raw));
    assert_eq!(Ok(UdsResponse::ClearDiagnosticInformation), result);
    assert_eq!(vec![vec![0x14, 0xFF, 0xFF, 0xFF]], transport.sent_packets);
}

#[test]
fn test_diagnostic_session_control_extended_session_flow() {
    let mut transport = MockTransport::new(vec![vec![0x50, 0x03, 0x00, 0x32, 0x01, 0xF4]]);
    let result = transport
        .send_and_receive(compose_diagnostic_session_control_request(0x03))
        .and_then(|raw| parse_diagnostic_session_control_response(&raw));
    assert_eq!(
        Ok(UdsResponse::DiagnosticSessionControl(DataFormat::Parsed(
            DiagnosticSessionControlResponse {
                session: 0x03,
                p2: 0x0032,
                p2_star: 0x01F4,
            },
        ))),
        result
    );
    assert_eq!(vec![vec![0x10, 0x03]], transport.sent_packets);
}

#[test]
fn test_request_empty_is_rejected_before_transport_use() {
    let mut transport = MockTransport::new(Vec::new());
    let result = transport.send_and_receive(Vec::new());
    assert_eq!(Err(UdsError::RequestEmpty), result);
    assert!(transport.sent_packets.is_empty());
}

#[test]
fn test_negative_response_with_wrong_rejected_sid_returns_sid_mismatch() {
    let mut transport = MockTransport::new(vec![vec![
        NEGATIVE_RESPONSE_SID,
        0x22,
        NegativeResponseCode::ConditionsNotCorrect.code(),
    ]]);
    let result = transport
        .send_and_receive(compose_ecu_reset_request(ResetType::SoftReset))
        .and_then(|raw| parse_ecu_reset_response(&raw));
    assert_eq!(
        Err(UdsError::SidMismatch {
            expected: 0x11,
            received: 0x22,
            raw_message: vec![
                NEGATIVE_RESPONSE_SID,
                0x22,
                NegativeResponseCode::ConditionsNotCorrect.code(),
            ],
        }),
        result
    );
}

#[test]
fn test_response_pending_waits_for_follow_up_response() {
    let mut transport = MockTransport::new(vec![
        vec![
            NEGATIVE_RESPONSE_SID,
            0x10,
            NegativeResponseCode::RequestCorrectlyReceivedResponsePending.code(),
        ],
        vec![0x50, 0x03, 0x00, 0x32, 0x01, 0xF4],
    ]);
    let result = transport
        .send_and_receive(compose_diagnostic_session_control_request(0x03))
        .and_then(|raw| parse_diagnostic_session_control_response(&raw));
    assert_eq!(
        Ok(UdsResponse::DiagnosticSessionControl(DataFormat::Parsed(
            DiagnosticSessionControlResponse {
                session: 0x03,
                p2: 0x0032,
                p2_star: 0x01F4,
            },
        ))),
        result
    );
    assert_eq!(vec![vec![0x10, 0x03]], transport.sent_packets);
    assert_eq!(vec![RESPONSE_PENDING_TIMEOUT_MS], transport.follow_up_limits);
    assert_eq!(2500, RESPONSE_PENDING_TIMEOUT_MS);
}

#[test]
fn response_pending_timeout_ends_with_pending_nrc() {
    let mut transport = MockTransport::new(vec![vec![
        NEGATIVE_RESPONSE_SID,
        0x10,
        NegativeResponseCode::RequestCorrectlyReceivedResponsePending.code(),
    ]]);
    transport.timed_out = true;
    let result = transport.send_and_receive(vec![0x10, 0x03]);
    assert_eq!(
        Err(UdsError::NRC {
            nrc: NrcData {
                rejected_sid: 0x10,
                nrc: NegativeResponseCode::RequestCorrectlyReceivedResponsePending,
            }
        }),
        result
    );
}

#[test]
fn follow_up_after_pending_is_returned_unchecked() {
    let second_negative = vec![
        NEGATIVE_RESPONSE_SID,
        0x10,
        NegativeResponseCode::ConditionsNotCorrect.code(),
    ];
    let mut transport = MockTransport::new(vec![
        vec![
            NEGATIVE_RESPONSE_SID,
            0x10,
            NegativeResponseCode::RequestCorrectlyReceivedResponsePending.code(),
        ],
        second_negative.clone(),
    ]);
    assert_eq!(
        Ok(second_negative),
        transport.send_and_receive(vec![0x10, 0x03])
    );
}

#[test]
fn other_negative_response_ends_exchange() {
    let mut transport = MockTransport::new(vec![vec![NEGATIVE_RESPONSE_SID, 0x10, 0x12]]);
    assert_eq!(
        Err(UdsError::NRC {
            nrc: NrcData {
                rejected_sid: 0x10,
                nrc: NegativeResponseCode::SubFunctionNotSupported,
            }
        }),
        transport.send_and_receive(vec![0x10, 0x03])
    );
}

#[test]
fn transport_failures_become_communication_errors() {
    let mut transport = MockTransport::new(Vec::new());
    assert_eq!(
        Err(UdsError::CommunicationError {
            error: UdsCommunicationError::GeneralError
        }),
        transport.send_and_receive(vec![0x10, 0x03])
    );
    let (exchange, _) = Exchange::open(vec![0x10, 0x03]).unwrap();
    assert_eq!(
        ExchangeAction::Finish(Err(UdsError::CommunicationError {
            error: UdsCommunicationError::SocketCanIOError
        })),
        exchange.on_sent(Err(UdsCommunicationError::SocketCanIOError))
    );
    assert_eq!(
        UdsError::CommunicationError {
            error: UdsCommunicationError::StdIOError
        },
        UdsError::from(UdsCommunicationError::StdIOError)
    );
}

#[test]
fn busy_replies_count_down_the_retry_counter() {
    let busy = vec![
        NEGATIVE_RESPONSE_SID,
        0x11,
        NegativeResponseCode::BusyRepeatRequest.code(),
    ];
    let (mut exchange, _) = Exchange::open(vec![0x11, 0x01]).unwrap();
    assert_eq!(0, exchange.retry_counter());
    for n in 1..=3 {
        let action = exchange.on_response(Ok(busy.clone()));
        assert_eq!(ExchangeAction::Send(vec![0x11, 0x01]), action);
        assert_eq!(-n, exchange.retry_counter());
        assert_eq!(&[0x11, 0x01], exchange.request());
    }
}

#[test]
fn malformed_negative_response_ends_exchange() {
    let mut transport = MockTransport::new(vec![vec![NEGATIVE_RESPONSE_SID, 0x10]]);
    assert_eq!(
        Err(UdsError::ResponseEmpty),
        transport.send_and_receive(vec![0x10, 0x03])
    );
}
