//! DiagnosticSessionControl (0x10) service: request framing and response parsing.
use vstd::prelude::*;
use vstd::slice::slice_to_vec;

use crate::definitions::SEND_RECEIVE_SID_OFFSET;
use crate::error::{result_view, UdsError, UdsErrorView};
use crate::response::{
    DataFormat, DataFormatView, EcuResponseResult, ResponseResultView, UdsResponse,
    UdsResponseView,
};

verus! {

/// Service identifier of DiagnosticSessionControl.
pub const DIAGNOSTIC_SESSION_CONTROL_SID: u8 = 0x10;

/// Positive response of DiagnosticSessionControl: the session entered and its
/// timing parameters P2 and P2*.
#[derive(Debug, Clone, Copy, PartialEq, Eq, Structural)]
pub struct DiagnosticSessionControlResponse {
    pub session: u8,
    pub p2: u16,
    pub p2_star: u16,
}

/// The request that asks for the session `session_id`.
pub open spec fn spec_diagnostic_session_control_request(session_id: u8) -> Seq<u8> {
    seq![DIAGNOSTIC_SESSION_CONTROL_SID, session_id]
}

/// What a raw DiagnosticSessionControl response means: its service identifier,
/// the session byte and two big-endian 16-bit timing parameters.
pub open spec fn spec_diagnostic_session_control_response(raw: Seq<u8>) -> ResponseResultView {
    if raw.len() == 0 {
        Err(UdsErrorView::ResponseEmpty)
    } else if raw[0] != DIAGNOSTIC_SESSION_CONTROL_SID + SEND_RECEIVE_SID_OFFSET {
        Err(
            UdsErrorView::SidMismatch {
                expected: (DIAGNOSTIC_SESSION_CONTROL_SID + SEND_RECEIVE_SID_OFFSET) as u8,
                received: raw[0],
                raw_message: raw,
            },
        )
    } else if raw.len() < 6 {
        Err(UdsErrorView::InvalidLength { raw_message: raw })
    } else {
        Ok(
            UdsResponseView::DiagnosticSessionControl(
                DataFormatView::Parsed(
                    DiagnosticSessionControlResponse {
                        session: raw[1],
                        p2: (raw[2] * 256 + raw[3]) as u16,
                        p2_star: (raw[4] * 256 + raw[5]) as u16,
                    },
                ),
            ),
        )
    }
}

/// The bytes of a positive DiagnosticSessionControl response.
pub open spec fn spec_diagnostic_session_control_positive_response(
    response: DiagnosticSessionControlResponse,
) -> Seq<u8> {
    seq![
        (DIAGNOSTIC_SESSION_CONTROL_SID + SEND_RECEIVE_SID_OFFSET) as u8,
        response.session,
        (response.p2 / 256) as u8,
        (response.p2 % 256) as u8,
        (response.p2_star / 256) as u8,
        (response.p2_star % 256) as u8,
    ]
}

/// A positive DiagnosticSessionControl response parses back to the response
/// it encodes.
pub proof fn lemma_diagnostic_session_control_response_round_trip(
    response: DiagnosticSessionControlResponse,
)
    ensures
        spec_diagnostic_session_control_response(
            spec_diagnostic_session_control_positive_response(response),
        ) == Ok::<UdsResponseView, UdsErrorView>(
            UdsResponseView::DiagnosticSessionControl(DataFormatView::Parsed(response)),
        ),
{
}

/// What parses as a positive DiagnosticSessionControl response is a
/// response's encoding, followed by bytes that are ignored.
pub proof fn lemma_diagnostic_session_control_response_prefix(raw: Seq<u8>)
    ensures
        spec_diagnostic_session_control_response(raw) matches Ok(
            UdsResponseView::DiagnosticSessionControl(DataFormatView::Parsed(response)),
        ) ==> raw.take(6) == spec_diagnostic_session_control_positive_response(response),
{
    if let Ok(UdsResponseView::DiagnosticSessionControl(DataFormatView::Parsed(response))) =
        spec_diagnostic_session_control_response(raw) {
        assert(raw.take(6) =~= spec_diagnostic_session_control_positive_response(response));
    }
}

/// A positive response that echoes the request's session parses to that
/// session, whatever timing parameters follow.
pub proof fn lemma_diagnostic_session_control_echo(session_id: u8, timing: Seq<u8>)
    requires
        timing.len() >= 4,
    ensures
        ({
            let request = spec_diagnostic_session_control_request(session_id);
            let raw = seq![(request[0] + SEND_RECEIVE_SID_OFFSET) as u8] + request.skip(1)
                + timing;
            spec_diagnostic_session_control_response(raw) matches Ok(
                UdsResponseView::DiagnosticSessionControl(DataFormatView::Parsed(response)),
            ) && response.session == session_id
        }),
{
}

/// The response to any DiagnosticSessionControl request opens with the
/// request's service identifier plus the positive response offset.
pub proof fn lemma_diagnostic_session_control_response_sid(session_id: u8, raw: Seq<u8>)
    ensures
        spec_diagnostic_session_control_response(raw) is Ok ==> raw[0]
            == spec_diagnostic_session_control_request(session_id)[0] + SEND_RECEIVE_SID_OFFSET,
{
}

/// A DiagnosticSessionControl response of at least six bytes opening with
/// 0x50 parses to its second byte as the session and the next two pairs of
/// bytes, most significant first, as P2 and P2*; a shorter one opening with
/// 0x50 is too short, an empty one is empty, and one opening otherwise is a
/// service identifier mismatch that holds the whole response.
pub proof fn lemma_diagnostic_session_control_response_bytes(raw: Seq<u8>)
    ensures
        raw.len() >= 6 && raw[0] == 0x50 ==> (spec_diagnostic_session_control_response(raw) matches Ok(
            UdsResponseView::DiagnosticSessionControl(DataFormatView::Parsed(response)),
        ) && response.session == raw[1] && response.p2 == raw[2] * 256 + raw[3] && response.p2_star
            == raw[4] * 256 + raw[5]),
        spec_diagnostic_session_control_response(raw) is Ok ==> raw.len() >= 6 && raw[0] == 0x50,
        0 < raw.len() < 6 && raw[0] == 0x50 ==> spec_diagnostic_session_control_response(raw)
            == Err::<UdsResponseView, UdsErrorView>(
            UdsErrorView::InvalidLength { raw_message: raw },
        ),
        raw.len() == 0 ==> spec_diagnostic_session_control_response(raw) == Err::<
            UdsResponseView,
            UdsErrorView,
        >(UdsErrorView::ResponseEmpty),
        raw.len() > 0 && raw[0] != 0x50 ==> spec_diagnostic_session_control_response(raw) == Err::<
            UdsResponseView,
            UdsErrorView,
        >(UdsErrorView::SidMismatch { expected: 0x50, received: raw[0], raw_message: raw }),
{
}

/// A DiagnosticSessionControl request is exactly two bytes: the service
/// identifier 0x10 and the requested session.
pub proof fn lemma_diagnostic_session_control_request_bytes(session_id: u8)
    ensures
        ({
            let request = spec_diagnostic_session_control_request(session_id);
            &&& request.len() == 2
            &&& request[0] == 0x10
            &&& request[1] == session_id
        }),
{
}

/// Frames a DiagnosticSessionControl request.
pub fn compose_diagnostic_session_control_request(session_id: u8) -> (r: Vec<u8>)
    ensures
        r@ == spec_diagnostic_session_control_request(session_id),
        r@.len() == 2,
        r@[0] == 0x10,
        r@[1] == session_id,
{
    proof {
        lemma_diagnostic_session_control_request_bytes(session_id);
    }
    let r = vec![DIAGNOSTIC_SESSION_CONTROL_SID, session_id];
    assert(r@ =~= spec_diagnostic_session_control_request(session_id));
    r
}

/// Parses a raw DiagnosticSessionControl response.
pub fn parse_diagnostic_session_control_response(raw_response: &[u8]) -> (r: EcuResponseResult)
    ensures
        result_view(r) == spec_diagnostic_session_control_response(raw_response@),
{
    if raw_response.len() == 0 {
        return Err(UdsError::ResponseEmpty);
    }
    let sid = raw_response[0];
    if sid != DIAGNOSTIC_SESSION_CONTROL_SID + SEND_RECEIVE_SID_OFFSET {
        return Err(
            UdsError::SidMismatch {
                expected: DIAGNOSTIC_SESSION_CONTROL_SID + SEND_RECEIVE_SID_OFFSET,
                received: sid,
                raw_message: slice_to_vec(raw_response),
            },
        );
    }
    if raw_response.len() < 6 {
        return Err(UdsError::InvalidLength { raw_message: slice_to_vec(raw_response) });
    }
    let session = raw_response[1];
    let p2 = (raw_response[2] as u16) * 256 + raw_response[3] as u16;
    let p2_star = (raw_response[4] as u16) * 256 + raw_response[5] as u16;
    Ok(
        UdsResponse::DiagnosticSessionControl(
            DataFormat::Parsed(DiagnosticSessionControlResponse { session, p2, p2_star }),
        ),
    )
}

} // verus!
