//! The request/response exchange with a server, as a state machine.
//!
//! The library decides; the caller performs the transport work. An exchange
//! starts with [`Exchange::open`]; each [`ExchangeAction`] names the transport
//! operation to perform next and the handler that takes its outcome:
//! `Send` goes to [`Exchange::on_sent`], `Receive` to [`Exchange::on_response`],
//! `ReceiveFollowUp` to [`Exchange::on_follow_up`]; `Finish` ends the exchange.
use vstd::prelude::*;

use crate::definitions::{NegativeResponseCode, NEGATIVE_RESPONSE_SID};
use crate::error::{result_view, NrcData, UdsCommunicationError, UdsError, UdsErrorView};

verus! {

/// How long a server that answered "response pending" is waited for, in milliseconds.
pub const RESPONSE_PENDING_TIMEOUT_MS: u64 = 2500;

/// What a raw response says about failure: a response that does not open with
/// the negative response identifier passes; a negative response yields its
/// rejected service identifier and code.
pub open spec fn spec_parse_for_error(raw: Seq<u8>) -> Result<(), UdsErrorView> {
    if raw.len() == 0 {
        Err(UdsErrorView::ResponseEmpty)
    } else if raw[0] != NEGATIVE_RESPONSE_SID {
        Ok(())
    } else if raw.len() < 3 {
        Err(UdsErrorView::ResponseEmpty)
    } else {
        match NegativeResponseCode::spec_from_code(raw[2]) {
            Some(nrc) => Err(UdsErrorView::NRC { nrc: NrcData { rejected_sid: raw[1], nrc } }),
            None => Err(UdsErrorView::UnknownNRC { rejected_sid: raw[1], unknown_nrc: raw[2] }),
        }
    }
}

/// What checking a response for failure finds, in terms of its bytes: a
/// response that does not open with 0x7F passes; a negative response
/// `[0x7F, s, b, ..]` whose byte `b` is a known code yields that rejected
/// service identifier `s` and the code that encodes to `b`; and a negative
/// response code is only ever reported for such bytes.
pub proof fn lemma_parse_for_error_bytes(raw: Seq<u8>)
    ensures
        raw.len() > 0 && raw[0] != 0x7F ==> spec_parse_for_error(raw) is Ok,
        spec_parse_for_error(raw) is Ok ==> raw.len() > 0 && raw[0] != 0x7F,
        raw.len() >= 3 && raw[0] == 0x7F && NegativeResponseCode::spec_from_code(raw[2]) is Some
            ==> (spec_parse_for_error(raw) matches Err(UdsErrorView::NRC { nrc }) && nrc.rejected_sid
            == raw[1] && nrc.nrc.spec_code() == raw[2]),
        spec_parse_for_error(raw) matches Err(UdsErrorView::NRC { nrc }) ==> raw.len() >= 3
            && raw[0] == 0x7F && raw[1] == nrc.rejected_sid && raw[2] == nrc.nrc.spec_code(),
{
    if raw.len() >= 3 {
        crate::definitions::lemma_nrc_decode_round_trip(raw[2]);
    }
}

/// Checks a raw response for a negative response.
pub fn parse_for_error(raw_response: &[u8]) -> (r: Result<(), UdsError>)
    ensures
        result_view(r) == spec_parse_for_error(raw_response@),
        raw_response@.len() >= 3 && raw_response@[0] == 0x7F && NegativeResponseCode::spec_from_code(
            raw_response@[2],
        ) is Some ==> (r matches Err(UdsError::NRC { nrc }) && nrc.rejected_sid == raw_response@[1]
            && nrc.nrc.spec_code() == raw_response@[2]),
{
    proof {
        lemma_parse_for_error_bytes(raw_response@);
    }
    if raw_response.len() == 0 {
        return Err(UdsError::ResponseEmpty);
    }
    if raw_response[0] != NEGATIVE_RESPONSE_SID {
        return Ok(());
    }
    if raw_response.len() < 3 {
        return Err(UdsError::ResponseEmpty);
    }
    let rejected_sid = raw_response[1];
    match NegativeResponseCode::try_from_primitive(raw_response[2]) {
        Ok(nrc) => Err(UdsError::NRC { nrc: NrcData { rejected_sid, nrc } }),
        Err(unknown_nrc) => Err(UdsError::UnknownNRC { rejected_sid, unknown_nrc }),
    }
}

/// The next transport operation of an exchange, or its end.
#[derive(Debug, PartialEq)]
pub enum ExchangeAction {
    /// Send these bytes; hand the outcome to [`Exchange::on_sent`].
    Send(Vec<u8>),
    /// Receive one response; hand it to [`Exchange::on_response`].
    Receive,
    /// Receive one response within `timeout_ms` milliseconds; hand it, or
    /// `None` where the time ran out, to [`Exchange::on_follow_up`].
    ReceiveFollowUp { timeout_ms: u64 },
    /// The exchange is over: the raw positive response, or the error.
    Finish(Result<Vec<u8>, UdsError>),
}

/// Mathematical model of an [`ExchangeAction`].
pub enum ExchangeActionView {
    Send(Seq<u8>),
    Receive,
    ReceiveFollowUp { timeout_ms: u64 },
    Finish(Result<Seq<u8>, UdsErrorView>),
}

impl View for ExchangeAction {
    type V = ExchangeActionView;

    open spec fn view(&self) -> ExchangeActionView {
        match self {
            ExchangeAction::Send(bytes) => ExchangeActionView::Send(bytes@),
            ExchangeAction::Receive => ExchangeActionView::Receive,
            ExchangeAction::ReceiveFollowUp { timeout_ms } => ExchangeActionView::ReceiveFollowUp {
                timeout_ms: *timeout_ms,
            },
            ExchangeAction::Finish(r) => ExchangeActionView::Finish(result_view(*r)),
        }
    }
}

/// The model of what a receive with a time limit yields.
pub open spec fn follow_up_view(received: Option<Result<Vec<u8>, UdsCommunicationError>>) -> Option<
    Result<Seq<u8>, UdsCommunicationError>,
> {
    match received {
        Some(r) => Some(result_view(r)),
        None => None,
    }
}

/// What follows the outcome of sending the request.
pub open spec fn spec_sent_step(sent: Result<(), UdsCommunicationError>) -> ExchangeActionView {
    match sent {
        Ok(()) => ExchangeActionView::Receive,
        Err(error) => ExchangeActionView::Finish(Err(UdsErrorView::CommunicationError { error })),
    }
}

/// Whether `received` is a negative response "busy, repeat request" to `request`.
pub open spec fn spec_is_busy_repeat(
    request: Seq<u8>,
    received: Result<Seq<u8>, UdsCommunicationError>,
) -> bool {
    &&& received is Ok
    &&& spec_parse_for_error(received->Ok_0) == Err::<(), UdsErrorView>(
        UdsErrorView::NRC {
            nrc: NrcData {
                rejected_sid: request[0],
                nrc: NegativeResponseCode::BusyRepeatRequest,
            },
        },
    )
}

/// What follows a received response, and the retry counter after it: a
/// positive response ends the exchange with it; a negative response to
/// another service is a mismatch; "busy, repeat request" counts down the
/// retry counter and sends the request again unless the counter reached zero;
/// "response pending" waits for a follow-up; any other negative response, or a
/// malformed one, ends the exchange with that error.
pub open spec fn spec_response_step(
    request: Seq<u8>,
    retry_counter: i32,
    received: Result<Seq<u8>, UdsCommunicationError>,
) -> (i32, ExchangeActionView) {
    match received {
        Err(error) => (
            retry_counter,
            ExchangeActionView::Finish(Err(UdsErrorView::CommunicationError { error })),
        ),
        Ok(raw) => match spec_parse_for_error(raw) {
            Ok(()) => (retry_counter, ExchangeActionView::Finish(Ok(raw))),
            Err(UdsErrorView::NRC { nrc }) => if nrc.rejected_sid != request[0] {
                (
                    retry_counter,
                    ExchangeActionView::Finish(
                        Err(
                            UdsErrorView::SidMismatch {
                                expected: request[0],
                                received: nrc.rejected_sid,
                                raw_message: raw,
                            },
                        ),
                    ),
                )
            } else if nrc.nrc == NegativeResponseCode::BusyRepeatRequest {
                let counter = (retry_counter - 1) as i32;
                if counter == 0 {
                    (counter, ExchangeActionView::Finish(Err(UdsErrorView::NRC { nrc })))
                } else {
                    (counter, ExchangeActionView::Send(request))
                }
            } else if nrc.nrc == NegativeResponseCode::RequestCorrectlyReceivedResponsePending {
                (
                    retry_counter,
                    ExchangeActionView::ReceiveFollowUp { timeout_ms: RESPONSE_PENDING_TIMEOUT_MS },
                )
            } else {
                (retry_counter, ExchangeActionView::Finish(Err(UdsErrorView::NRC { nrc })))
            },
            Err(error) => (retry_counter, ExchangeActionView::Finish(Err(error))),
        },
    }
}

/// What follows the follow-up to a "response pending": it ends the exchange
/// as it came, unchecked; where none came in time, the exchange ends with the
/// "response pending" negative response.
pub open spec fn spec_follow_up_step(
    request: Seq<u8>,
    received: Option<Result<Seq<u8>, UdsCommunicationError>>,
) -> ExchangeActionView {
    match received {
        None => ExchangeActionView::Finish(
            Err(
                UdsErrorView::NRC {
                    nrc: NrcData {
                        rejected_sid: request[0],
                        nrc: NegativeResponseCode::RequestCorrectlyReceivedResponsePending,
                    },
                },
            ),
        ),
        Some(Ok(raw)) => ExchangeActionView::Finish(Ok(raw)),
        Some(Err(error)) => ExchangeActionView::Finish(
            Err(UdsErrorView::CommunicationError { error }),
        ),
    }
}

/// After a received response, the exchange sends again exactly when the
/// response is "busy, repeat request" to this request and the counted-down
/// retry counter is not zero; what it sends is the request itself.
pub proof fn lemma_resend_only_on_busy(
    request: Seq<u8>,
    retry_counter: i32,
    received: Result<Seq<u8>, UdsCommunicationError>,
)
    requires
        request.len() > 0,
        retry_counter > i32::MIN,
    ensures
        spec_response_step(request, retry_counter, received).1 is Send <==> spec_is_busy_repeat(
            request,
            received,
        ) && retry_counter - 1 != 0,
        spec_response_step(request, retry_counter, received).1 matches ExchangeActionView::Send(
            bytes,
        ) ==> bytes == request,
{
}

/// The retry counter changes only on "busy, repeat request", and then by one down.
pub proof fn lemma_retry_counter_counts_busy_replies(
    request: Seq<u8>,
    retry_counter: i32,
    received: Result<Seq<u8>, UdsCommunicationError>,
)
    requires
        request.len() > 0,
        retry_counter > i32::MIN,
    ensures
        spec_response_step(request, retry_counter, received).0 == if spec_is_busy_repeat(
            request,
            received,
        ) {
            retry_counter - 1
        } else {
            retry_counter as int
        },
{
}

/// A response that does not open with the negative response identifier ends
/// the exchange with that response, as received; and an exchange that ends
/// with a received response ends with such a one.
pub proof fn lemma_positive_response_passes(
    request: Seq<u8>,
    retry_counter: i32,
    raw: Seq<u8>,
)
    requires
        request.len() > 0,
    ensures
        raw.len() > 0 && raw[0] != NEGATIVE_RESPONSE_SID ==> spec_response_step(
            request,
            retry_counter,
            Ok(raw),
        ) == (retry_counter, ExchangeActionView::Finish(Ok(raw))),
        spec_response_step(request, retry_counter, Ok(raw)).1 matches ExchangeActionView::Finish(
            Ok(bytes),
        ) ==> bytes == raw && raw.len() > 0 && raw[0] != NEGATIVE_RESPONSE_SID,
{
}

/// A negative response that rejects another service than the request's ends
/// the exchange with a service identifier mismatch that holds the response.
pub proof fn lemma_foreign_rejection_is_mismatch(
    request: Seq<u8>,
    retry_counter: i32,
    rejected_sid: u8,
    nrc: NegativeResponseCode,
)
    requires
        request.len() > 0,
        rejected_sid != request[0],
    ensures
        ({
            let raw = seq![NEGATIVE_RESPONSE_SID, rejected_sid, nrc.spec_code()];
            spec_response_step(request, retry_counter, Ok(raw)) == (
                retry_counter,
                ExchangeActionView::Finish(
                    Err(
                        UdsErrorView::SidMismatch {
                            expected: request[0],
                            received: rejected_sid,
                            raw_message: raw,
                        },
                    ),
                ),
            )
        }),
{
    crate::definitions::lemma_nrc_code_round_trip(nrc);
}

/// "Response pending" to this request is followed by a receive with the
/// pending time limit, and whatever comes then ends the exchange unchecked.
pub proof fn lemma_pending_waits_for_follow_up(
    request: Seq<u8>,
    retry_counter: i32,
    follow_up: Seq<u8>,
)
    requires
        request.len() > 0,
    ensures
        ({
            let raw = seq![
                NEGATIVE_RESPONSE_SID,
                request[0],
                NegativeResponseCode::RequestCorrectlyReceivedResponsePending.spec_code(),
            ];
            spec_response_step(request, retry_counter, Ok(raw)) == (
                retry_counter,
                ExchangeActionView::ReceiveFollowUp { timeout_ms: RESPONSE_PENDING_TIMEOUT_MS },
            )
        }),
        spec_follow_up_step(request, Some(Ok(follow_up))) == ExchangeActionView::Finish(
            Ok::<Seq<u8>, UdsErrorView>(follow_up),
        ),
{
}

/// The sends that follow the replies an exchange receives, in order, where
/// every send succeeds: each reply is taken by the response step, and the run
/// goes on while the step sends again.
pub open spec fn spec_resends(
    request: Seq<u8>,
    retry_counter: i32,
    replies: Seq<Result<Seq<u8>, UdsCommunicationError>>,
) -> Seq<Seq<u8>>
    decreases replies.len(),
{
    if replies.len() == 0 {
        Seq::empty()
    } else {
        let (counter, action) = spec_response_step(request, retry_counter, replies[0]);
        match action {
            ExchangeActionView::Send(bytes) => seq![bytes] + spec_resends(
                request,
                counter,
                replies.drop_first(),
            ),
            _ => Seq::empty(),
        }
    }
}

/// All that an exchange sends over a run: the request from [`Exchange::open`],
/// then the re-sends that follow its replies.
pub open spec fn spec_exchange_sends(
    request: Seq<u8>,
    replies: Seq<Result<Seq<u8>, UdsCommunicationError>>,
) -> Seq<Seq<u8>> {
    seq![request] + spec_resends(request, 0, replies)
}

proof fn lemma_resends_from(
    request: Seq<u8>,
    retry_counter: i32,
    replies: Seq<Result<Seq<u8>, UdsCommunicationError>>,
)
    requires
        request.len() > 0,
        retry_counter <= 0,
        retry_counter - replies.len() >= i32::MIN,
    ensures
        ({
            let sends = spec_resends(request, retry_counter, replies);
            &&& sends.len() <= replies.len()
            &&& forall|i: int| 0 <= i < sends.len() ==> #[trigger] sends[i] == request
            &&& forall|i: int| 0 <= i < sends.len() ==> spec_is_busy_repeat(request, #[trigger] replies[i])
            &&& sends.len() < replies.len() ==> !spec_is_busy_repeat(request, replies[sends.len() as int])
        }),
    decreases replies.len(),
{
    if replies.len() > 0 {
        lemma_resend_only_on_busy(request, retry_counter, replies[0]);
        let (counter, action) = spec_response_step(request, retry_counter, replies[0]);
        if action is Send {
            lemma_retry_counter_counts_busy_replies(request, retry_counter, replies[0]);
            let rest = replies.drop_first();
            lemma_resends_from(request, counter, rest);
            let sends = spec_resends(request, retry_counter, replies);
            let tail = spec_resends(request, counter, rest);
            assert(sends == seq![request] + tail);
            assert forall|i: int| 0 <= i < sends.len() implies spec_is_busy_repeat(
                request,
                #[trigger] replies[i],
            ) by {
                if i > 0 {
                    assert(replies[i] == rest[i - 1]);
                    assert(tail[i - 1] == sends[i]);
                }
            }
            if sends.len() < replies.len() {
                assert(replies[sends.len() as int] == rest[tail.len() as int]);
            }
        }
    }
}

/// Over a whole exchange whose sends succeed, every send is the request, and
/// the exchange sends once plus once for each "busy, repeat request" reply:
/// the re-sends answer exactly the replies that open the run with busy
/// replies, and the first other reply ends the re-sending. Sending and the
/// follow-up to "response pending" never lead to a send.
pub proof fn lemma_exchange_sends(
    request: Seq<u8>,
    replies: Seq<Result<Seq<u8>, UdsCommunicationError>>,
)
    requires
        request.len() > 0,
        replies.len() <= i32::MAX,
    ensures
        ({
            let sends = spec_exchange_sends(request, replies);
            let busy = (sends.len() - 1) as int;
            &&& 1 <= sends.len() <= replies.len() + 1
            &&& forall|i: int| 0 <= i < sends.len() ==> #[trigger] sends[i] == request
            &&& forall|i: int| 0 <= i < busy ==> spec_is_busy_repeat(request, #[trigger] replies[i])
            &&& busy < replies.len() ==> !spec_is_busy_repeat(request, replies[busy])
        }),
        forall|sent: Result<(), UdsCommunicationError>| !(#[trigger] spec_sent_step(sent) is Send),
        forall|received: Option<Result<Seq<u8>, UdsCommunicationError>>|
            !(#[trigger] spec_follow_up_step(request, received) is Send),
{
    lemma_resends_from(request, 0, replies);
    let sends = spec_exchange_sends(request, replies);
    let tail = spec_resends(request, 0, replies);
    assert forall|i: int| 0 <= i < sends.len() implies #[trigger] sends[i] == request by {
        if i > 0 {
            assert(sends[i] == tail[i - 1]);
        }
    }
    assert forall|i: int| 0 <= i < sends.len() - 1 implies spec_is_busy_repeat(
        request,
        #[trigger] replies[i],
    ) by {
        assert(tail[i] == tail[i]);
    }
}

/// How a received negative response to this request steps the exchange, in
/// terms of its bytes `[0x7F, request[0], b, ..]`: `b == 0x21` ("busy, repeat
/// request") counts down and sends the request again; `b == 0x78` ("response
/// pending") waits for a follow-up with the pending time limit; any other known
/// code ends the exchange with that code, the counter unchanged. A follow-up is
/// waited for after such a "response pending" reply only.
pub proof fn lemma_negative_reply_step(request: Seq<u8>, retry_counter: i32, raw: Seq<u8>)
    requires
        request.len() > 0,
        i32::MIN < retry_counter <= 0,
    ensures
        raw.len() >= 3 && raw[0] == 0x7F && raw[1] == request[0] && raw[2] == 0x21 ==> spec_response_step(
            request,
            retry_counter,
            Ok(raw),
        ) == ((retry_counter - 1) as i32, ExchangeActionView::Send(request)),
        raw.len() >= 3 && raw[0] == 0x7F && raw[1] == request[0] && raw[2] == 0x78 ==> spec_response_step(
            request,
            retry_counter,
            Ok(raw),
        ) == (retry_counter, ExchangeActionView::ReceiveFollowUp { timeout_ms: 2500 }),
        raw.len() >= 3 && raw[0] == 0x7F && raw[1] == request[0] && raw[2] != 0x21 && raw[2] != 0x78
            && NegativeResponseCode::spec_from_code(raw[2]) is Some ==> (spec_response_step(
            request,
            retry_counter,
            Ok(raw),
        ) matches (counter, ExchangeActionView::Finish(Err(UdsErrorView::NRC { nrc }))) && counter
            == retry_counter && nrc.rejected_sid == request[0] && nrc.nrc.spec_code() == raw[2]),
        spec_response_step(request, retry_counter, Ok(raw)).1 is ReceiveFollowUp ==> raw.len() >= 3
            && raw[0] == 0x7F && raw[1] == request[0] && raw[2] == 0x78,
{
    lemma_parse_for_error_bytes(raw);
    if raw.len() >= 3 {
        crate::definitions::lemma_nrc_decode_round_trip(raw[2]);
    }
}

/// After a send: success leads to receiving a response; a transport failure
/// ends the exchange with that failure. After the follow-up to "response
/// pending": no reply in time ends the exchange with the "response pending"
/// negative response (code 0x78) to the request's service; a received reply
/// ends it with that reply; a transport failure ends it with that failure.
pub proof fn lemma_send_and_follow_up_outcomes(
    request: Seq<u8>,
    error: UdsCommunicationError,
    follow_up: Seq<u8>,
)
    requires
        request.len() > 0,
    ensures
        spec_sent_step(Ok(())) == ExchangeActionView::Receive,
        spec_sent_step(Err(error)) == ExchangeActionView::Finish(
            Err::<Seq<u8>, UdsErrorView>(UdsErrorView::CommunicationError { error }),
        ),
        spec_follow_up_step(request, None) matches ExchangeActionView::Finish(
            Err(UdsErrorView::NRC { nrc }),
        ) && nrc.rejected_sid == request[0] && nrc.nrc.spec_code() == 0x78,
        spec_follow_up_step(request, Some(Ok(follow_up))) == ExchangeActionView::Finish(
            Ok::<Seq<u8>, UdsErrorView>(follow_up),
        ),
        spec_follow_up_step(request, Some(Err(error))) == ExchangeActionView::Finish(
            Err::<Seq<u8>, UdsErrorView>(UdsErrorView::CommunicationError { error }),
        ),
{
}

/// One request/response exchange: the request and its retry counter.
pub struct Exchange {
    request: Vec<u8>,
    retry_counter: i32,
}

impl Exchange {
    /// The request is never empty, and the retry counter starts at zero and
    /// only counts down.
    #[verifier::type_invariant]
    spec fn well_formed(self) -> bool {
        &&& self.request@.len() > 0
        &&& self.retry_counter <= 0
    }

    /// The request of this exchange.
    pub closed spec fn spec_request(&self) -> Seq<u8> {
        self.request@
    }

    /// The retry counter of this exchange.
    pub closed spec fn spec_retry_counter(&self) -> i32 {
        self.retry_counter
    }

    /// Starts an exchange: an empty request is refused before any transport
    /// use; otherwise the first action sends the request.
    pub fn open(request: Vec<u8>) -> (r: Result<(Exchange, ExchangeAction), UdsError>)
        ensures
            request@.len() == 0 <==> r is Err,
            r matches Err(e) ==> e@ == UdsErrorView::RequestEmpty,
            r matches Ok((exchange, action)) ==> {
                &&& exchange.spec_request() == request@
                &&& exchange.spec_retry_counter() == 0
                &&& action@ == ExchangeActionView::Send(request@)
            },
    {
        if request.len() == 0 {
            return Err(UdsError::RequestEmpty);
        }
        let action = ExchangeAction::Send(request.clone());
        assert(action@ == ExchangeActionView::Send(request@));
        Ok((Exchange { request, retry_counter: 0 }, action))
    }

    /// The request of this exchange.
    pub fn request(&self) -> (r: &[u8])
        ensures
            r@ == self.spec_request(),
            r@.len() > 0,
    {
        proof {
            use_type_invariant(self);
        }
        self.request.as_slice()
    }

    /// The retry counter of this exchange.
    pub fn retry_counter(&self) -> (r: i32)
        ensures
            r == self.spec_retry_counter(),
            r <= 0,
    {
        proof {
            use_type_invariant(self);
        }
        self.retry_counter
    }

    /// Takes the outcome of a `Send`.
    pub fn on_sent(&self, sent: Result<(), UdsCommunicationError>) -> (r: ExchangeAction)
        ensures
            r@ == spec_sent_step(sent),
    {
        match sent {
            Ok(()) => ExchangeAction::Receive,
            Err(error) => ExchangeAction::Finish(Err(UdsError::CommunicationError { error })),
        }
    }

    /// Whether counting down for `received` would take the retry counter
    /// below its least value.
    pub fn retry_would_overflow(&self, received: &Result<Vec<u8>, UdsCommunicationError>) -> (r:
        bool)
        ensures
            r == (self.spec_retry_counter() == i32::MIN && spec_is_busy_repeat(
                self.spec_request(),
                result_view(*received),
            )),
    {
        proof {
            use_type_invariant(self);
        }
        if self.retry_counter != i32::MIN {
            return false;
        }
        match received {
            Err(_) => false,
            Ok(raw) => match parse_for_error(raw.as_slice()) {
                Err(UdsError::NRC { nrc }) => nrc.rejected_sid == self.request[0] && nrc.nrc
                    == NegativeResponseCode::BusyRepeatRequest,
                _ => false,
            },
        }
    }

    /// Takes the outcome of a `Receive`.
    pub fn on_response(&mut self, received: Result<Vec<u8>, UdsCommunicationError>) -> (r:
        ExchangeAction)
        requires
            !(old(self).spec_retry_counter() == i32::MIN && spec_is_busy_repeat(
                old(self).spec_request(),
                result_view(received),
            )),
        ensures
            final(self).spec_request() == old(self).spec_request(),
            final(self).spec_retry_counter() <= 0,
            spec_is_busy_repeat(old(self).spec_request(), result_view(received)) ==> r@
                == ExchangeActionView::Send(old(self).spec_request()),
            (final(self).spec_retry_counter(), r@) == spec_response_step(
                old(self).spec_request(),
                old(self).spec_retry_counter(),
                result_view(received),
            ),
            r@ is ReceiveFollowUp ==> (received matches Ok(raw) && raw@.len() >= 3 && raw@[0] == 0x7F
                && raw@[1] == old(self).spec_request()[0] && raw@[2] == 0x78),
            received matches Ok(raw) ==> (raw@.len() >= 3 && raw@[0] == 0x7F && raw@[1] == old(
                self,
            ).spec_request()[0] && raw@[2] != 0x21 && raw@[2] != 0x78
                && NegativeResponseCode::spec_from_code(raw@[2]) is Some ==> (r matches ExchangeAction::Finish(
                Err(UdsError::NRC { nrc }),
            ) && nrc.rejected_sid == old(self).spec_request()[0] && nrc.nrc.spec_code() == raw@[2]
                && final(self).spec_retry_counter() == old(self).spec_retry_counter())),
    {
        proof {
            use_type_invariant(&*self);
            if let Ok(raw) = result_view(received) {
                if old(self).spec_retry_counter() > i32::MIN {
                    lemma_negative_reply_step(self.request@, self.retry_counter, raw);
                } else {
                    lemma_parse_for_error_bytes(raw);
                    if raw.len() >= 3 {
                        crate::definitions::lemma_nrc_decode_round_trip(raw[2]);
                    }
                }
            }
        }
        let raw = match received {
            Err(error) => {
                return ExchangeAction::Finish(Err(UdsError::CommunicationError { error }));
            },
            Ok(raw) => raw,
        };
        match parse_for_error(raw.as_slice()) {
            Ok(()) => ExchangeAction::Finish(Ok(raw)),
            Err(UdsError::NRC { nrc }) => {
                let sid = self.request[0];
                if nrc.rejected_sid != sid {
                    ExchangeAction::Finish(
                        Err(
                            UdsError::SidMismatch {
                                expected: sid,
                                received: nrc.rejected_sid,
                                raw_message: raw,
                            },
                        ),
                    )
                } else if nrc.nrc == NegativeResponseCode::BusyRepeatRequest {
                    self.retry_counter = self.retry_counter - 1;
                    if self.retry_counter == 0 {
                        ExchangeAction::Finish(Err(UdsError::NRC { nrc }))
                    } else {
                        let request = self.request.clone();
                        assert(request@ =~= self.request@);
                        ExchangeAction::Send(request)
                    }
                } else if nrc.nrc == NegativeResponseCode::RequestCorrectlyReceivedResponsePending {
                    ExchangeAction::ReceiveFollowUp { timeout_ms: RESPONSE_PENDING_TIMEOUT_MS }
                } else {
                    ExchangeAction::Finish(Err(UdsError::NRC { nrc }))
                }
            },
            Err(error) => ExchangeAction::Finish(Err(error)),
        }
    }

    /// Takes the outcome of a `ReceiveFollowUp`: the response, or `None` where
    /// the time ran out.
    pub fn on_follow_up(&self, received: Option<Result<Vec<u8>, UdsCommunicationError>>) -> (r:
        ExchangeAction)
        ensures
            r@ == spec_follow_up_step(self.spec_request(), follow_up_view(received)),
    {
        proof {
            use_type_invariant(self);
        }
        match received {
            None => ExchangeAction::Finish(
                Err(
                    UdsError::NRC {
                        nrc: NrcData {
                            rejected_sid: self.request[0],
                            nrc: NegativeResponseCode::RequestCorrectlyReceivedResponsePending,
                        },
                    },
                ),
            ),
            Some(Ok(raw)) => ExchangeAction::Finish(Ok(raw)),
            Some(Err(error)) => ExchangeAction::Finish(
                Err(UdsError::CommunicationError { error }),
            ),
        }
    }
}

} // verus!
