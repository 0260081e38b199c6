//! Constants and code tables shared by all services.
use vstd::prelude::*;

verus! {

/// Offset added to a request's service identifier in the positive response.
pub const SEND_RECEIVE_SID_OFFSET: u8 = 0x40;

/// Service identifier that opens every negative response.
pub const NEGATIVE_RESPONSE_SID: u8 = 0x7F;

/// Negative response codes defined by ISO 14229-1:2013.
#[derive(Debug, Clone, Copy, PartialEq, Eq, Structural)]
pub enum NegativeResponseCode {
    GeneralReject,
    ServiceNotSupported,
    SubFunctionNotSupported,
    IncorrectMessageLengthOrInvalidFormat,
    ResponseTooLong,
    BusyRepeatRequest,
    ConditionsNotCorrect,
    RequestSequenceError,
    NoResponseFromSubnetComponent,
    FailurePreventsExecutionOfRequestedAction,
    RequestOutOfRange,
    SecurityAccessDenied,
    InvalidKey,
    ExceedNumberOfAttempts,
    RequiredTimeDelayNotExpired,
    UploadDownloadNotAccepted,
    TransferDataSuspended,
    GeneralProgrammingFailure,
    WrongBlockSequenceCounter,
    RequestCorrectlyReceivedResponsePending,
    SubFunctionNotSupportedInActiveSession,
    ServiceNotSupportedInActiveSession,
    RpmTooHigh,
    RpmTooLow,
    EngineIsRunning,
    EngineIsNotRunning,
    EngineRunTimeTooLow,
    TemperatureTooHigh,
    TemperatureTooLow,
    VehicleSpeedTooHigh,
    VehicleSpeedTooLow,
    ThrottlePedalTooHigh,
    ThrottlePedalTooLow,
    TransmissionRangeNotInNeutral,
    TransmissionRangeNotInGear,
    BrakeSwitchNotClosed,
    ShifterLeverNotInPark,
    TorqueConverterClutchLocked,
    VoltageTooHigh,
    VoltageTooLow,
}

impl NegativeResponseCode {
    /// The byte that encodes this code on the wire.
    pub open spec fn spec_code(self) -> u8 {
        match self {
            NegativeResponseCode::GeneralReject => 0x10,
            NegativeResponseCode::ServiceNotSupported => 0x11,
            NegativeResponseCode::SubFunctionNotSupported => 0x12,
            NegativeResponseCode::IncorrectMessageLengthOrInvalidFormat => 0x13,
            NegativeResponseCode::ResponseTooLong => 0x14,
            NegativeResponseCode::BusyRepeatRequest => 0x21,
            NegativeResponseCode::ConditionsNotCorrect => 0x22,
            NegativeResponseCode::RequestSequenceError => 0x24,
            NegativeResponseCode::NoResponseFromSubnetComponent => 0x25,
            NegativeResponseCode::FailurePreventsExecutionOfRequestedAction => 0x26,
            NegativeResponseCode::RequestOutOfRange => 0x31,
            NegativeResponseCode::SecurityAccessDenied => 0x33,
            NegativeResponseCode::InvalidKey => 0x35,
            NegativeResponseCode::ExceedNumberOfAttempts => 0x36,
            NegativeResponseCode::RequiredTimeDelayNotExpired => 0x37,
            NegativeResponseCode::UploadDownloadNotAccepted => 0x70,
            NegativeResponseCode::TransferDataSuspended => 0x71,
            NegativeResponseCode::GeneralProgrammingFailure => 0x72,
            NegativeResponseCode::WrongBlockSequenceCounter => 0x73,
            NegativeResponseCode::RequestCorrectlyReceivedResponsePending => 0x78,
            NegativeResponseCode::SubFunctionNotSupportedInActiveSession => 0x7E,
            NegativeResponseCode::ServiceNotSupportedInActiveSession => 0x7F,
            NegativeResponseCode::RpmTooHigh => 0x81,
            NegativeResponseCode::RpmTooLow => 0x82,
            NegativeResponseCode::EngineIsRunning => 0x83,
            NegativeResponseCode::EngineIsNotRunning => 0x84,
            NegativeResponseCode::EngineRunTimeTooLow => 0x85,
            NegativeResponseCode::TemperatureTooHigh => 0x86,
            NegativeResponseCode::TemperatureTooLow => 0x87,
            NegativeResponseCode::VehicleSpeedTooHigh => 0x88,
            NegativeResponseCode::VehicleSpeedTooLow => 0x89,
            NegativeResponseCode::ThrottlePedalTooHigh => 0x8A,
            NegativeResponseCode::ThrottlePedalTooLow => 0x8B,
            NegativeResponseCode::TransmissionRangeNotInNeutral => 0x8C,
            NegativeResponseCode::TransmissionRangeNotInGear => 0x8D,
            NegativeResponseCode::BrakeSwitchNotClosed => 0x8F,
            NegativeResponseCode::ShifterLeverNotInPark => 0x90,
            NegativeResponseCode::TorqueConverterClutchLocked => 0x91,
            NegativeResponseCode::VoltageTooHigh => 0x92,
            NegativeResponseCode::VoltageTooLow => 0x93,
        }
    }

    /// The byte that encodes this code on the wire.
    pub fn code(self) -> (r: u8)
        ensures
            r == self.spec_code(),
    {
        match self {
            NegativeResponseCode::GeneralReject => 0x10,
            NegativeResponseCode::ServiceNotSupported => 0x11,
            NegativeResponseCode::SubFunctionNotSupported => 0x12,
            NegativeResponseCode::IncorrectMessageLengthOrInvalidFormat => 0x13,
            NegativeResponseCode::ResponseTooLong => 0x14,
            NegativeResponseCode::BusyRepeatRequest => 0x21,
            NegativeResponseCode::ConditionsNotCorrect => 0x22,
            NegativeResponseCode::RequestSequenceError => 0x24,
            NegativeResponseCode::NoResponseFromSubnetComponent => 0x25,
            NegativeResponseCode::FailurePreventsExecutionOfRequestedAction => 0x26,
            NegativeResponseCode::RequestOutOfRange => 0x31,
            NegativeResponseCode::SecurityAccessDenied => 0x33,
            NegativeResponseCode::InvalidKey => 0x35,
            NegativeResponseCode::ExceedNumberOfAttempts => 0x36,
            NegativeResponseCode::RequiredTimeDelayNotExpired => 0x37,
            NegativeResponseCode::UploadDownloadNotAccepted => 0x70,
            NegativeResponseCode::TransferDataSuspended => 0x71,
            NegativeResponseCode::GeneralProgrammingFailure => 0x72,
            NegativeResponseCode::WrongBlockSequenceCounter => 0x73,
            NegativeResponseCode::RequestCorrectlyReceivedResponsePending => 0x78,
            NegativeResponseCode::SubFunctionNotSupportedInActiveSession => 0x7E,
            NegativeResponseCode::ServiceNotSupportedInActiveSession => 0x7F,
            NegativeResponseCode::RpmTooHigh => 0x81,
            NegativeResponseCode::RpmTooLow => 0x82,
            NegativeResponseCode::EngineIsRunning => 0x83,
            NegativeResponseCode::EngineIsNotRunning => 0x84,
            NegativeResponseCode::EngineRunTimeTooLow => 0x85,
            NegativeResponseCode::TemperatureTooHigh => 0x86,
            NegativeResponseCode::TemperatureTooLow => 0x87,
            NegativeResponseCode::VehicleSpeedTooHigh => 0x88,
            NegativeResponseCode::VehicleSpeedTooLow => 0x89,
            NegativeResponseCode::ThrottlePedalTooHigh => 0x8A,
            NegativeResponseCode::ThrottlePedalTooLow => 0x8B,
            NegativeResponseCode::TransmissionRangeNotInNeutral => 0x8C,
            NegativeResponseCode::TransmissionRangeNotInGear => 0x8D,
            NegativeResponseCode::BrakeSwitchNotClosed => 0x8F,
            NegativeResponseCode::ShifterLeverNotInPark => 0x90,
            NegativeResponseCode::TorqueConverterClutchLocked => 0x91,
            NegativeResponseCode::VoltageTooHigh => 0x92,
            NegativeResponseCode::VoltageTooLow => 0x93,
        }
    }

    /// The code that `number` encodes, if it encodes one.
    pub open spec fn spec_from_code(number: u8) -> Option<NegativeResponseCode> {
        match number {
            0x10 => Some(NegativeResponseCode::GeneralReject),
            0x11 => Some(NegativeResponseCode::ServiceNotSupported),
            0x12 => Some(NegativeResponseCode::SubFunctionNotSupported),
            0x13 => Some(NegativeResponseCode::IncorrectMessageLengthOrInvalidFormat),
            0x14 => Some(NegativeResponseCode::ResponseTooLong),
            0x21 => Some(NegativeResponseCode::BusyRepeatRequest),
            0x22 => Some(NegativeResponseCode::ConditionsNotCorrect),
            0x24 => Some(NegativeResponseCode::RequestSequenceError),
            0x25 => Some(NegativeResponseCode::NoResponseFromSubnetComponent),
            0x26 => Some(NegativeResponseCode::FailurePreventsExecutionOfRequestedAction),
            0x31 => Some(NegativeResponseCode::RequestOutOfRange),
            0x33 => Some(NegativeResponseCode::SecurityAccessDenied),
            0x35 => Some(NegativeResponseCode::InvalidKey),
            0x36 => Some(NegativeResponseCode::ExceedNumberOfAttempts),
            0x37 => Some(NegativeResponseCode::RequiredTimeDelayNotExpired),
            0x70 => Some(NegativeResponseCode::UploadDownloadNotAccepted),
            0x71 => Some(NegativeResponseCode::TransferDataSuspended),
            0x72 => Some(NegativeResponseCode::GeneralProgrammingFailure),
            0x73 => Some(NegativeResponseCode::WrongBlockSequenceCounter),
            0x78 => Some(NegativeResponseCode::RequestCorrectlyReceivedResponsePending),
            0x7E => Some(NegativeResponseCode::SubFunctionNotSupportedInActiveSession),
            0x7F => Some(NegativeResponseCode::ServiceNotSupportedInActiveSession),
            0x81 => Some(NegativeResponseCode::RpmTooHigh),
            0x82 => Some(NegativeResponseCode::RpmTooLow),
            0x83 => Some(NegativeResponseCode::EngineIsRunning),
            0x84 => Some(NegativeResponseCode::EngineIsNotRunning),
            0x85 => Some(NegativeResponseCode::EngineRunTimeTooLow),
            0x86 => Some(NegativeResponseCode::TemperatureTooHigh),
            0x87 => Some(NegativeResponseCode::TemperatureTooLow),
            0x88 => Some(NegativeResponseCode::VehicleSpeedTooHigh),
            0x89 => Some(NegativeResponseCode::VehicleSpeedTooLow),
            0x8A => Some(NegativeResponseCode::ThrottlePedalTooHigh),
            0x8B => Some(NegativeResponseCode::ThrottlePedalTooLow),
            0x8C => Some(NegativeResponseCode::TransmissionRangeNotInNeutral),
            0x8D => Some(NegativeResponseCode::TransmissionRangeNotInGear),
            0x8F => Some(NegativeResponseCode::BrakeSwitchNotClosed),
            0x90 => Some(NegativeResponseCode::ShifterLeverNotInPark),
            0x91 => Some(NegativeResponseCode::TorqueConverterClutchLocked),
            0x92 => Some(NegativeResponseCode::VoltageTooHigh),
            0x93 => Some(NegativeResponseCode::VoltageTooLow),
            _ => None,
        }
    }

    /// Decodes a negative response code; a byte that encodes none is handed back.
    pub fn try_from_primitive(number: u8) -> (r: Result<NegativeResponseCode, u8>)
        ensures
            match Self::spec_from_code(number) {
                Some(c) => r == Ok::<NegativeResponseCode, u8>(c),
                None => r == Err::<NegativeResponseCode, u8>(number),
            },
    {
        match number {
            0x10 => Ok(NegativeResponseCode::GeneralReject),
            0x11 => Ok(NegativeResponseCode::ServiceNotSupported),
            0x12 => Ok(NegativeResponseCode::SubFunctionNotSupported),
            0x13 => Ok(NegativeResponseCode::IncorrectMessageLengthOrInvalidFormat),
            0x14 => Ok(NegativeResponseCode::ResponseTooLong),
            0x21 => Ok(NegativeResponseCode::BusyRepeatRequest),
            0x22 => Ok(NegativeResponseCode::ConditionsNotCorrect),
            0x24 => Ok(NegativeResponseCode::RequestSequenceError),
            0x25 => Ok(NegativeResponseCode::NoResponseFromSubnetComponent),
            0x26 => Ok(NegativeResponseCode::FailurePreventsExecutionOfRequestedAction),
            0x31 => Ok(NegativeResponseCode::RequestOutOfRange),
            0x33 => Ok(NegativeResponseCode::SecurityAccessDenied),
            0x35 => Ok(NegativeResponseCode::InvalidKey),
            0x36 => Ok(NegativeResponseCode::ExceedNumberOfAttempts),
            0x37 => Ok(NegativeResponseCode::RequiredTimeDelayNotExpired),
            0x70 => Ok(NegativeResponseCode::UploadDownloadNotAccepted),
            0x71 => Ok(NegativeResponseCode::TransferDataSuspended),
            0x72 => Ok(NegativeResponseCode::GeneralProgrammingFailure),
            0x73 => Ok(NegativeResponseCode::WrongBlockSequenceCounter),
            0x78 => Ok(NegativeResponseCode::RequestCorrectlyReceivedResponsePending),
            0x7E => Ok(NegativeResponseCode::SubFunctionNotSupportedInActiveSession),
            0x7F => Ok(NegativeResponseCode::ServiceNotSupportedInActiveSession),
            0x81 => Ok(NegativeResponseCode::RpmTooHigh),
            0x82 => Ok(NegativeResponseCode::RpmTooLow),
            0x83 => Ok(NegativeResponseCode::EngineIsRunning),
            0x84 => Ok(NegativeResponseCode::EngineIsNotRunning),
            0x85 => Ok(NegativeResponseCode::EngineRunTimeTooLow),
            0x86 => Ok(NegativeResponseCode::TemperatureTooHigh),
            0x87 => Ok(NegativeResponseCode::TemperatureTooLow),
            0x88 => Ok(NegativeResponseCode::VehicleSpeedTooHigh),
            0x89 => Ok(NegativeResponseCode::VehicleSpeedTooLow),
            0x8A => Ok(NegativeResponseCode::ThrottlePedalTooHigh),
            0x8B => Ok(NegativeResponseCode::ThrottlePedalTooLow),
            0x8C => Ok(NegativeResponseCode::TransmissionRangeNotInNeutral),
            0x8D => Ok(NegativeResponseCode::TransmissionRangeNotInGear),
            0x8F => Ok(NegativeResponseCode::BrakeSwitchNotClosed),
            0x90 => Ok(NegativeResponseCode::ShifterLeverNotInPark),
            0x91 => Ok(NegativeResponseCode::TorqueConverterClutchLocked),
            0x92 => Ok(NegativeResponseCode::VoltageTooHigh),
            0x93 => Ok(NegativeResponseCode::VoltageTooLow),
            _ => Err(number),
        }
    }
}

/// Decoding the byte of a code gives that code back.
pub proof fn lemma_nrc_code_round_trip(c: NegativeResponseCode)
    ensures
        NegativeResponseCode::spec_from_code(c.spec_code()) == Some(c),
{
}

/// A byte that decodes to a code is the byte that code encodes to.
pub proof fn lemma_nrc_decode_round_trip(number: u8)
    ensures
        NegativeResponseCode::spec_from_code(number) matches Some(c) ==> c.spec_code() == number,
{
}

} // verus!
