//! WriteDataByIdentifier (0x2E) service: request framing and response parsing.
use vstd::prelude::*;
use vstd::slice::slice_to_vec;

use crate::definitions::SEND_RECEIVE_SID_OFFSET;
use crate::error::{result_view, UdsError, UdsErrorView};
use crate::response::{
    DataFormat, DataFormatView, EcuResponseResult, ResponseResultView, UdsResponse,
    UdsResponseView,
};

verus! {

/// Service identifier of WriteDataByIdentifier.
pub const WRITE_DATA_BY_IDENTIFIER_SID: u8 = 0x2E;

/// Positive response of WriteDataByIdentifier: the data identifier written.
#[derive(Debug, Clone, Copy, PartialEq, Eq, Structural)]
pub struct WriteDataByIdentifierResponse {
    pub data_identifier: u16,
}

/// The two bytes of a 16-bit value, most significant first.
pub open spec fn spec_u16_be(value: u16) -> Seq<u8> {
    seq![(value / 256) as u8, (value % 256) as u8]
}

/// The request that writes `data_record` under `data_identifier`.
pub open spec fn spec_write_data_by_identifier_request(
    data_identifier: u16,
    data_record: Seq<u8>,
) -> Seq<u8> {
    seq![WRITE_DATA_BY_IDENTIFIER_SID] + spec_u16_be(data_identifier) + data_record
}

/// What a raw WriteDataByIdentifier response means: its service identifier and
/// the big-endian data identifier that was written.
pub open spec fn spec_write_data_by_identifier_response(raw: Seq<u8>) -> ResponseResultView {
    if raw.len() == 0 {
        Err(UdsErrorView::ResponseEmpty)
    } else if raw[0] != WRITE_DATA_BY_IDENTIFIER_SID + SEND_RECEIVE_SID_OFFSET {
        Err(
            UdsErrorView::SidMismatch {
                expected: (WRITE_DATA_BY_IDENTIFIER_SID + SEND_RECEIVE_SID_OFFSET) as u8,
                received: raw[0],
                raw_message: raw,
            },
        )
    } else if raw.len() < 3 {
        Err(UdsErrorView::InvalidLength { raw_message: raw })
    } else {
        Ok(
            UdsResponseView::WriteDataByIdentifier(
                DataFormatView::Parsed(
                    WriteDataByIdentifierResponse { data_identifier: (raw[1] * 256 + raw[2]) as u16 },
                ),
            ),
        )
    }
}

/// The bytes of a positive WriteDataByIdentifier response.
pub open spec fn spec_write_data_by_identifier_positive_response(
    response: WriteDataByIdentifierResponse,
) -> Seq<u8> {
    seq![(WRITE_DATA_BY_IDENTIFIER_SID + SEND_RECEIVE_SID_OFFSET) as u8] + spec_u16_be(
        response.data_identifier,
    )
}

/// A positive WriteDataByIdentifier response parses back to the response it
/// encodes.
pub proof fn lemma_write_data_by_identifier_response_round_trip(
    response: WriteDataByIdentifierResponse,
)
    ensures
        spec_write_data_by_identifier_response(
            spec_write_data_by_identifier_positive_response(response),
        ) == Ok::<UdsResponseView, UdsErrorView>(
            UdsResponseView::WriteDataByIdentifier(DataFormatView::Parsed(response)),
        ),
{
}

/// What parses as a positive WriteDataByIdentifier response is a response's
/// encoding, followed by bytes that are ignored.
pub proof fn lemma_write_data_by_identifier_response_prefix(raw: Seq<u8>)
    ensures
        spec_write_data_by_identifier_response(raw) matches Ok(
            UdsResponseView::WriteDataByIdentifier(DataFormatView::Parsed(response)),
        ) ==> raw.take(3) == spec_write_data_by_identifier_positive_response(response),
{
    if let Ok(UdsResponseView::WriteDataByIdentifier(DataFormatView::Parsed(response))) =
        spec_write_data_by_identifier_response(raw) {
        assert(raw.take(3) =~= spec_write_data_by_identifier_positive_response(response));
    }
}

/// A positive response that echoes the identifier of a request parses to the
/// identifier that was written.
pub proof fn lemma_write_data_by_identifier_echo(data_identifier: u16, data_record: Seq<u8>)
    ensures
        ({
            let request = spec_write_data_by_identifier_request(data_identifier, data_record);
            let raw = seq![(request[0] + SEND_RECEIVE_SID_OFFSET) as u8] + request.subrange(1, 3);
            spec_write_data_by_identifier_response(raw) == Ok::<UdsResponseView, UdsErrorView>(
                UdsResponseView::WriteDataByIdentifier(
                    DataFormatView::Parsed(WriteDataByIdentifierResponse { data_identifier }),
                ),
            )
        }),
{
    let request = spec_write_data_by_identifier_request(data_identifier, data_record);
    let raw = seq![(request[0] + SEND_RECEIVE_SID_OFFSET) as u8] + request.subrange(1, 3);
    assert(raw =~= spec_write_data_by_identifier_positive_response(
        WriteDataByIdentifierResponse { data_identifier },
    ));
}

/// The response to any WriteDataByIdentifier request opens with the
/// request's service identifier plus the positive response offset.
pub proof fn lemma_write_data_by_identifier_response_sid(
    data_identifier: u16,
    data_record: Seq<u8>,
    raw: Seq<u8>,
)
    ensures
        spec_write_data_by_identifier_response(raw) is Ok ==> raw[0]
            == spec_write_data_by_identifier_request(data_identifier, data_record)[0]
            + SEND_RECEIVE_SID_OFFSET,
{
}

/// A WriteDataByIdentifier response of at least three bytes opening with 0x6E
/// parses to the data identifier in its next two bytes, most significant
/// first; a shorter one opening with 0x6E is too short, an empty one is empty,
/// and one opening otherwise is a service identifier mismatch that holds the
/// whole response.
pub proof fn lemma_write_data_by_identifier_response_bytes(raw: Seq<u8>)
    ensures
        raw.len() >= 3 && raw[0] == 0x6E ==> (spec_write_data_by_identifier_response(raw) matches Ok(
            UdsResponseView::WriteDataByIdentifier(DataFormatView::Parsed(response)),
        ) && response.data_identifier == raw[1] * 256 + raw[2]),
        spec_write_data_by_identifier_response(raw) is Ok ==> raw.len() >= 3 && raw[0] == 0x6E,
        0 < raw.len() < 3 && raw[0] == 0x6E ==> spec_write_data_by_identifier_response(raw)
            == Err::<UdsResponseView, UdsErrorView>(
            UdsErrorView::InvalidLength { raw_message: raw },
        ),
        raw.len() == 0 ==> spec_write_data_by_identifier_response(raw) == Err::<
            UdsResponseView,
            UdsErrorView,
        >(UdsErrorView::ResponseEmpty),
        raw.len() > 0 && raw[0] != 0x6E ==> spec_write_data_by_identifier_response(raw) == Err::<
            UdsResponseView,
            UdsErrorView,
        >(UdsErrorView::SidMismatch { expected: 0x6E, received: raw[0], raw_message: raw }),
{
}

/// A WriteDataByIdentifier request is the service identifier 0x2E, the data
/// identifier in two bytes most significant first, and then the whole data
/// record, whatever its length.
pub proof fn lemma_write_data_by_identifier_request_bytes(data_identifier: u16, data_record: Seq<u8>)
    ensures
        ({
            let request = spec_write_data_by_identifier_request(data_identifier, data_record);
            &&& request.len() == 3 + data_record.len()
            &&& request[0] == 0x2E
            &&& request[1] * 256 + request[2] == data_identifier
            &&& request.skip(3) == data_record
        }),
{
    let request = spec_write_data_by_identifier_request(data_identifier, data_record);
    assert(request.skip(3) =~= data_record);
}

/// Frames a WriteDataByIdentifier request.
pub fn compose_write_data_by_identifier_request(data_identifier: u16, data_record: &[u8]) -> (r:
    Vec<u8>)
    ensures
        r@ == spec_write_data_by_identifier_request(data_identifier, data_record@),
        r@.len() == 3 + data_record@.len(),
        r@[0] == 0x2E,
        r@[1] * 256 + r@[2] == data_identifier,
        r@.skip(3) == data_record@,
{
    proof {
        lemma_write_data_by_identifier_request_bytes(data_identifier, data_record@);
    }
    let mut r = vec![
        WRITE_DATA_BY_IDENTIFIER_SID,
        (data_identifier / 256) as u8,
        (data_identifier % 256) as u8,
    ];
    r.extend_from_slice(data_record);
    assert(r@ =~= spec_write_data_by_identifier_request(data_identifier, data_record@));
    r
}

/// Parses a raw WriteDataByIdentifier response.
pub fn parse_write_data_by_identifier_response(raw_response: &[u8]) -> (r: EcuResponseResult)
    ensures
        result_view(r) == spec_write_data_by_identifier_response(raw_response@),
{
    if raw_response.len() == 0 {
        return Err(UdsError::ResponseEmpty);
    }
    let sid = raw_response[0];
    if sid != WRITE_DATA_BY_IDENTIFIER_SID + SEND_RECEIVE_SID_OFFSET {
        return Err(
            UdsError::SidMismatch {
                expected: WRITE_DATA_BY_IDENTIFIER_SID + SEND_RECEIVE_SID_OFFSET,
                received: sid,
                raw_message: slice_to_vec(raw_response),
            },
        );
    }
    if raw_response.len() < 3 {
        return Err(UdsError::InvalidLength { raw_message: slice_to_vec(raw_response) });
    }
    let data_identifier = (raw_response[1] as u16) * 256 + raw_response[2] as u16;
    Ok(
        UdsResponse::WriteDataByIdentifier(
            DataFormat::Parsed(WriteDataByIdentifierResponse { data_identifier }),
        ),
    )
}

} // verus!
