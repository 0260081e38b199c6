//! ClearDiagnosticInformation (0x14) service: request framing and response parsing.
use vstd::prelude::*;
use vstd::slice::slice_to_vec;

use crate::definitions::SEND_RECEIVE_SID_OFFSET;
use crate::error::{result_view, UdsError, UdsErrorView};
use crate::response::{EcuResponseResult, ResponseResultView, UdsResponse, UdsResponseView};

verus! {

/// Service identifier of ClearDiagnosticInformation.
pub const CLEAR_DIAGNOSTIC_INFORMATION_SID: u8 = 0x14;

/// The three bytes of the low 24 bits of `value`, most significant first.
pub open spec fn spec_u24_be(value: u32) -> Seq<u8> {
    seq![
        ((value / 0x10000) % 0x100) as u8,
        ((value / 0x100) % 0x100) as u8,
        (value % 0x100) as u8,
    ]
}

/// The request that clears the DTC group `group_of_dtc`; only its low 24 bits
/// go on the wire.
pub open spec fn spec_clear_diagnostic_information_request(group_of_dtc: u32) -> Seq<u8> {
    seq![CLEAR_DIAGNOSTIC_INFORMATION_SID] + spec_u24_be(group_of_dtc)
}

/// What a raw ClearDiagnosticInformation response means: only its service
/// identifier is read.
pub open spec fn spec_clear_diagnostic_information_response(raw: Seq<u8>) -> ResponseResultView {
    if raw.len() == 0 {
        Err(UdsErrorView::ResponseEmpty)
    } else if raw[0] != CLEAR_DIAGNOSTIC_INFORMATION_SID + SEND_RECEIVE_SID_OFFSET {
        Err(
            UdsErrorView::SidMismatch {
                expected: (CLEAR_DIAGNOSTIC_INFORMATION_SID + SEND_RECEIVE_SID_OFFSET) as u8,
                received: raw[0],
                raw_message: raw,
            },
        )
    } else {
        Ok(UdsResponseView::ClearDiagnosticInformation)
    }
}

/// The three bytes of a DTC group, read back as a big-endian number, are the
/// group's low 24 bits; groups that agree in those bits give the same request.
pub proof fn lemma_clear_diagnostic_information_group_bytes(group_of_dtc: u32, other: u32)
    ensures
        ({
            let request = spec_clear_diagnostic_information_request(group_of_dtc);
            &&& request.len() == 4
            &&& request[0] == 0x14
            &&& request[1] * 0x10000 + request[2] * 0x100 + request[3] == group_of_dtc % 0x1000000
        }),
        group_of_dtc % 0x1000000 == other % 0x1000000 ==> spec_clear_diagnostic_information_request(
            group_of_dtc,
        ) == spec_clear_diagnostic_information_request(other),
{
    let g = group_of_dtc as int;
    assert(((g / 0x10000) % 0x100) * 0x10000 + ((g / 0x100) % 0x100) * 0x100 + g % 0x100
        == g % 0x1000000) by (nonlinear_arith)
        requires
            0 <= g,
    ;
    if group_of_dtc % 0x1000000 == other % 0x1000000 {
        let o = other as int;
        assert((g / 0x10000) % 0x100 == (o / 0x10000) % 0x100 && (g / 0x100) % 0x100 == (o
            / 0x100) % 0x100 && g % 0x100 == o % 0x100) by (nonlinear_arith)
            requires
                0 <= g,
                0 <= o,
                g % 0x1000000 == o % 0x1000000,
        ;
        assert(spec_clear_diagnostic_information_request(group_of_dtc)
            =~= spec_clear_diagnostic_information_request(other));
    }
}

/// The response to any ClearDiagnosticInformation request opens with the
/// request's service identifier plus the positive response offset.
pub proof fn lemma_clear_diagnostic_information_response_sid(group_of_dtc: u32, raw: Seq<u8>)
    ensures
        spec_clear_diagnostic_information_response(raw) is Ok ==> raw[0]
            == spec_clear_diagnostic_information_request(group_of_dtc)[0]
            + SEND_RECEIVE_SID_OFFSET,
{
}

/// A ClearDiagnosticInformation response is accepted exactly when it opens
/// with 0x54; an empty one is reported as empty and any other as a service
/// identifier mismatch that holds the whole response.
pub proof fn lemma_clear_diagnostic_information_response_bytes(raw: Seq<u8>)
    ensures
        spec_clear_diagnostic_information_response(raw) is Ok <==> raw.len() > 0 && raw[0] == 0x54,
        raw.len() == 0 ==> spec_clear_diagnostic_information_response(raw) == Err::<
            UdsResponseView,
            UdsErrorView,
        >(UdsErrorView::ResponseEmpty),
        raw.len() > 0 && raw[0] != 0x54 ==> spec_clear_diagnostic_information_response(raw) == Err::<
            UdsResponseView,
            UdsErrorView,
        >(UdsErrorView::SidMismatch { expected: 0x54, received: raw[0], raw_message: raw }),
        spec_clear_diagnostic_information_response(raw) is Ok ==> spec_clear_diagnostic_information_response(
            raw,
        ) == Ok::<UdsResponseView, UdsErrorView>(UdsResponseView::ClearDiagnosticInformation),
{
}

/// Frames a ClearDiagnosticInformation request.
pub fn compose_clear_diagnostic_information_request(group_of_dtc: u32) -> (r: Vec<u8>)
    ensures
        r@ == spec_clear_diagnostic_information_request(group_of_dtc),
        r@.len() == 4,
        r@[0] == 0x14,
        r@[1] * 0x10000 + r@[2] * 0x100 + r@[3] == group_of_dtc % 0x1000000,
{
    proof {
        lemma_clear_diagnostic_information_group_bytes(group_of_dtc, group_of_dtc);
    }
    let r = vec![
        CLEAR_DIAGNOSTIC_INFORMATION_SID,
        ((group_of_dtc / 0x10000) % 0x100) as u8,
        ((group_of_dtc / 0x100) % 0x100) as u8,
        (group_of_dtc % 0x100) as u8,
    ];
    assert(r@ =~= spec_clear_diagnostic_information_request(group_of_dtc));
    r
}

/// Parses a raw ClearDiagnosticInformation response.
pub fn parse_clear_diagnostic_information_response(raw_response: &[u8]) -> (r: EcuResponseResult)
    ensures
        result_view(r) == spec_clear_diagnostic_information_response(raw_response@),
{
    if raw_response.len() == 0 {
        return Err(UdsError::ResponseEmpty);
    }
    let sid = raw_response[0];
    if sid != CLEAR_DIAGNOSTIC_INFORMATION_SID + SEND_RECEIVE_SID_OFFSET {
        return Err(
            UdsError::SidMismatch {
                expected: CLEAR_DIAGNOSTIC_INFORMATION_SID + SEND_RECEIVE_SID_OFFSET,
                received: sid,
                raw_message: slice_to_vec(raw_response),
            },
        );
    }
    Ok(UdsResponse::ClearDiagnosticInformation)
}

} // verus!
