//! EcuReset (0x11) service: request framing and response parsing.
use vstd::prelude::*;
use vstd::slice::slice_to_vec;

use crate::definitions::SEND_RECEIVE_SID_OFFSET;
use crate::error::{result_view, UdsError, UdsErrorView};
use crate::response::{
    DataFormat, DataFormatView, EcuResponseResult, ResponseResultView, UdsResponse,
    UdsResponseView,
};

verus! {

/// Service identifier of EcuReset.
pub const ECU_RESET_SID: u8 = 0x11;

/// Kinds of reset that EcuReset can request.
#[derive(Debug, Clone, Copy, PartialEq, Eq, Structural)]
pub enum ResetType {
    HardReset,
    KeyOffOnReset,
    SoftReset,
    EnableRapidPowerShutDown,
    DisableRapidPowerShutDown,
}

impl ResetType {
    /// The byte that encodes this reset type on the wire.
    pub open spec fn spec_byte(self) -> u8 {
        match self {
            ResetType::HardReset => 1,
            ResetType::KeyOffOnReset => 2,
            ResetType::SoftReset => 3,
            ResetType::EnableRapidPowerShutDown => 4,
            ResetType::DisableRapidPowerShutDown => 5,
        }
    }

    /// The reset type that `number` encodes, if it encodes one.
    pub open spec fn spec_from_byte(number: u8) -> Option<ResetType> {
        match number {
            1 => Some(ResetType::HardReset),
            2 => Some(ResetType::KeyOffOnReset),
            3 => Some(ResetType::SoftReset),
            4 => Some(ResetType::EnableRapidPowerShutDown),
            5 => Some(ResetType::DisableRapidPowerShutDown),
            _ => None,
        }
    }

    /// Decodes a reset type; a byte that encodes none is handed back.
    pub fn try_from_primitive(number: u8) -> (r: Result<ResetType, u8>)
        ensures
            match Self::spec_from_byte(number) {
                Some(t) => r == Ok::<ResetType, u8>(t),
                None => r == Err::<ResetType, u8>(number),
            },
    {
        match number {
            1 => Ok(ResetType::HardReset),
            2 => Ok(ResetType::KeyOffOnReset),
            3 => Ok(ResetType::SoftReset),
            4 => Ok(ResetType::EnableRapidPowerShutDown),
            5 => Ok(ResetType::DisableRapidPowerShutDown),
            _ => Err(number),
        }
    }
}

impl From<ResetType> for u8 {
    fn from(reset_type: ResetType) -> (r: u8) {
        match reset_type {
            ResetType::HardReset => 1,
            ResetType::KeyOffOnReset => 2,
            ResetType::SoftReset => 3,
            ResetType::EnableRapidPowerShutDown => 4,
            ResetType::DisableRapidPowerShutDown => 5,
        }
    }
}

impl vstd::std_specs::convert::FromSpecImpl<ResetType> for u8 {
    open spec fn obeys_from_spec() -> bool {
        true
    }

    open spec fn from_spec(reset_type: ResetType) -> u8 {
        reset_type.spec_byte()
    }
}

/// Positive response of EcuReset.
#[derive(Debug, Clone, Copy, PartialEq, Eq, Structural)]
pub struct EcuResetResponse {
    pub reset_type: ResetType,
    pub power_down_time: Option<u8>,
}

/// The request that asks for a reset of the given type.
pub open spec fn spec_ecu_reset_request(reset_type: ResetType) -> Seq<u8> {
    seq![ECU_RESET_SID, reset_type.spec_byte()]
}

/// What a raw EcuReset response means: its service identifier, the echoed
/// reset type and, after the reset type that enables rapid power shut down,
/// the power down time.
pub open spec fn spec_ecu_reset_response(raw: Seq<u8>) -> ResponseResultView {
    if raw.len() == 0 {
        Err(UdsErrorView::ResponseEmpty)
    } else if raw[0] != ECU_RESET_SID + SEND_RECEIVE_SID_OFFSET {
        Err(
            UdsErrorView::SidMismatch {
                expected: (ECU_RESET_SID + SEND_RECEIVE_SID_OFFSET) as u8,
                received: raw[0],
                raw_message: raw,
            },
        )
    } else if raw.len() < 2 {
        Err(UdsErrorView::InvalidLength { raw_message: raw })
    } else {
        match ResetType::spec_from_byte(raw[1]) {
            None => Err(UdsErrorView::ResponseIncorrect { raw_message: raw }),
            Some(reset_type) => if reset_type == ResetType::EnableRapidPowerShutDown {
                if raw.len() < 3 {
                    Err(UdsErrorView::InvalidLength { raw_message: raw })
                } else {
                    Ok(
                        UdsResponseView::EcuReset(
                            DataFormatView::Parsed(
                                EcuResetResponse { reset_type, power_down_time: Some(raw[2]) },
                            ),
                        ),
                    )
                }
            } else {
                Ok(
                    UdsResponseView::EcuReset(
                        DataFormatView::Parsed(EcuResetResponse { reset_type, power_down_time: None }),
                    ),
                )
            },
        }
    }
}

/// Whether a response is one that the wire format can carry: the power down
/// time comes with the reset type that enables rapid power shut down, and
/// only with it.
pub open spec fn spec_ecu_reset_response_wf(response: EcuResetResponse) -> bool {
    response.power_down_time is Some <==> response.reset_type
        == ResetType::EnableRapidPowerShutDown
}

/// The bytes of a positive EcuReset response.
pub open spec fn spec_ecu_reset_positive_response(response: EcuResetResponse) -> Seq<u8> {
    let head = seq![
        (ECU_RESET_SID + SEND_RECEIVE_SID_OFFSET) as u8,
        response.reset_type.spec_byte(),
    ];
    match response.power_down_time {
        Some(time) => head.push(time),
        None => head,
    }
}

/// Decoding the byte of a reset type gives that reset type back.
pub proof fn lemma_reset_type_round_trip(reset_type: ResetType)
    ensures
        ResetType::spec_from_byte(reset_type.spec_byte()) == Some(reset_type),
{
}

/// A byte that decodes to a reset type is the byte that reset type encodes to.
pub proof fn lemma_reset_type_decode_round_trip(number: u8)
    ensures
        ResetType::spec_from_byte(number) matches Some(t) ==> t.spec_byte() == number,
{
}

/// A positive EcuReset response parses back to the response it encodes.
pub proof fn lemma_ecu_reset_response_round_trip(response: EcuResetResponse)
    requires
        spec_ecu_reset_response_wf(response),
    ensures
        spec_ecu_reset_response(spec_ecu_reset_positive_response(response)) == Ok::<
            UdsResponseView,
            UdsErrorView,
        >(UdsResponseView::EcuReset(DataFormatView::Parsed(response))),
{
}

/// What parses as a positive EcuReset response is a well-formed response's
/// encoding, followed by bytes that are ignored.
pub proof fn lemma_ecu_reset_response_prefix(raw: Seq<u8>)
    ensures
        spec_ecu_reset_response(raw) matches Ok(UdsResponseView::EcuReset(
            DataFormatView::Parsed(response),
        )) ==> {
            let bytes = spec_ecu_reset_positive_response(response);
            &&& spec_ecu_reset_response_wf(response)
            &&& bytes.len() <= raw.len()
            &&& raw.take(bytes.len() as int) == bytes
        },
{
    if let Ok(UdsResponseView::EcuReset(DataFormatView::Parsed(response))) =
        spec_ecu_reset_response(raw) {
        let bytes = spec_ecu_reset_positive_response(response);
        assert(raw.take(bytes.len() as int) =~= bytes);
    }
}

/// The response to any EcuReset request opens with the request's service
/// identifier plus the positive response offset.
pub proof fn lemma_ecu_reset_response_sid(reset_type: ResetType, raw: Seq<u8>)
    ensures
        spec_ecu_reset_response(raw) is Ok ==> raw[0] == spec_ecu_reset_request(reset_type)[0]
            + SEND_RECEIVE_SID_OFFSET,
{
}

/// An EcuReset response opening with 0x51 parses when its second byte decodes
/// to a reset type: to that reset type, with the third byte as power down
/// time exactly for the reset type that enables rapid power shut down; a
/// second byte that decodes to none makes the response incorrect; a response
/// cut short is too short, an empty one is empty, and one opening otherwise is
/// a service identifier mismatch that holds the whole response.
pub proof fn lemma_ecu_reset_response_bytes(raw: Seq<u8>)
    ensures
        spec_ecu_reset_response(raw) matches Ok(UdsResponseView::EcuReset(DataFormatView::Parsed(response)))
            ==> raw.len() >= 2 && raw[0] == 0x51 && response.reset_type.spec_byte() == raw[1] && (
        response.power_down_time is Some <==> raw[1] == 4) && (response.power_down_time matches Some(
            t,
        ) ==> raw.len() >= 3 && t == raw[2]),
        raw.len() >= 2 && raw[0] == 0x51 && ResetType::spec_from_byte(raw[1]) is Some && (raw[1] != 4
            || raw.len() >= 3) ==> spec_ecu_reset_response(raw) is Ok,
        raw.len() >= 2 && raw[0] == 0x51 && ResetType::spec_from_byte(raw[1]) is None
            ==> spec_ecu_reset_response(raw) == Err::<UdsResponseView, UdsErrorView>(
            UdsErrorView::ResponseIncorrect { raw_message: raw },
        ),
        (raw.len() == 1 && raw[0] == 0x51) || (raw.len() == 2 && raw[0] == 0x51 && raw[1] == 4)
            ==> spec_ecu_reset_response(raw) == Err::<UdsResponseView, UdsErrorView>(
            UdsErrorView::InvalidLength { raw_message: raw },
        ),
        raw.len() == 0 ==> spec_ecu_reset_response(raw) == Err::<UdsResponseView, UdsErrorView>(
            UdsErrorView::ResponseEmpty,
        ),
        raw.len() > 0 && raw[0] != 0x51 ==> spec_ecu_reset_response(raw) == Err::<
            UdsResponseView,
            UdsErrorView,
        >(UdsErrorView::SidMismatch { expected: 0x51, received: raw[0], raw_message: raw }),
{
    if raw.len() >= 2 {
        lemma_reset_type_decode_round_trip(raw[1]);
    }
}

/// An EcuReset request is two bytes: the service identifier 0x11 and a byte
/// that decodes to the requested reset type; a positive response that echoes
/// that byte parses to the requested reset type.
pub proof fn lemma_ecu_reset_request_bytes(reset_type: ResetType, power_down_time: u8)
    ensures
        ({
            let request = spec_ecu_reset_request(reset_type);
            &&& request.len() == 2
            &&& request[0] == 0x11
            &&& ResetType::spec_from_byte(request[1]) == Some(reset_type)
            &&& spec_ecu_reset_response(seq![0x51u8, request[1], power_down_time]) matches Ok(
                UdsResponseView::EcuReset(DataFormatView::Parsed(response)),
            ) && response.reset_type == reset_type
        }),
{
    lemma_reset_type_round_trip(reset_type);
}

/// Frames an EcuReset request.
pub fn compose_ecu_reset_request(reset_type: ResetType) -> (r: Vec<u8>)
    ensures
        r@ == spec_ecu_reset_request(reset_type),
        r@.len() == 2,
        r@[0] == 0x11,
        ResetType::spec_from_byte(r@[1]) == Some(reset_type),
{
    proof {
        lemma_ecu_reset_request_bytes(reset_type, 0);
    }
    let r = vec![ECU_RESET_SID, u8::from(reset_type)];
    assert(r@ =~= spec_ecu_reset_request(reset_type));
    r
}

/// Parses a raw EcuReset response.
pub fn parse_ecu_reset_response(raw_response: &[u8]) -> (r: EcuResponseResult)
    ensures
        result_view(r) == spec_ecu_reset_response(raw_response@),
{
    if raw_response.len() == 0 {
        return Err(UdsError::ResponseEmpty);
    }
    let sid = raw_response[0];
    if sid != ECU_RESET_SID + SEND_RECEIVE_SID_OFFSET {
        return Err(
            UdsError::SidMismatch {
                expected: ECU_RESET_SID + SEND_RECEIVE_SID_OFFSET,
                received: sid,
                raw_message: slice_to_vec(raw_response),
            },
        );
    }
    if raw_response.len() < 2 {
        return Err(UdsError::InvalidLength { raw_message: slice_to_vec(raw_response) });
    }
    let reset_type = match ResetType::try_from_primitive(raw_response[1]) {
        Ok(t) => t,
        Err(_) => {
            return Err(UdsError::ResponseIncorrect { raw_message: slice_to_vec(raw_response) });
        },
    };
    let mut power_down_time = None;
    if reset_type == ResetType::EnableRapidPowerShutDown {
        if raw_response.len() < 3 {
            return Err(UdsError::InvalidLength { raw_message: slice_to_vec(raw_response) });
        }
        power_down_time = Some(raw_response[2]);
    }
    Ok(UdsResponse::EcuReset(DataFormat::Parsed(EcuResetResponse { reset_type, power_down_time })))
}

} // verus!
