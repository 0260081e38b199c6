//! Unified Diagnostic Services (ISO 14229-1) client logic: request framing,
//! response parsing and the request/response exchange with a server, each
//! stated against a byte-level model and proved.
//!
//! Each service is three steps: a compose function frames the request, the
//! [`Exchange`] state machine drives sending it and receiving the raw
//! response (the caller performs the transport operations it asks for), and
//! a parse function turns the raw response into a [`UdsResponse`].
pub mod clear_diagnostic_information;
pub mod communication;
pub mod definitions;
pub mod diagnostic_session_control;
pub mod ecu_reset;
pub mod error;
pub mod exchange;
pub mod response;
pub mod write_data_by_identifier;

pub use clear_diagnostic_information::{
    compose_clear_diagnostic_information_request, parse_clear_diagnostic_information_response,
    CLEAR_DIAGNOSTIC_INFORMATION_SID,
};
pub use communication::{FlowControlConfig, IsoTpConfig, LinkLayerConfig, UdsSocketOptions};
pub use definitions::{NegativeResponseCode, NEGATIVE_RESPONSE_SID, SEND_RECEIVE_SID_OFFSET};
pub use diagnostic_session_control::{
    compose_diagnostic_session_control_request, parse_diagnostic_session_control_response,
    DiagnosticSessionControlResponse, DIAGNOSTIC_SESSION_CONTROL_SID,
};
pub use ecu_reset::{
    compose_ecu_reset_request, parse_ecu_reset_response, EcuResetResponse, ResetType,
    ECU_RESET_SID,
};
pub use error::{NrcData, UdsCommunicationError, UdsError};
pub use exchange::{parse_for_error, Exchange, ExchangeAction, RESPONSE_PENDING_TIMEOUT_MS};
pub use response::{DataFormat, EcuResponseResult, UdsResponse};
pub use write_data_by_identifier::{
    compose_write_data_by_identifier_request, parse_write_data_by_identifier_response,
    WriteDataByIdentifierResponse, WRITE_DATA_BY_IDENTIFIER_SID,
};
