//! Errors and negative responses, with their byte-level models.
use vstd::prelude::*;

use crate::definitions::NegativeResponseCode;

verus! {

/// Failures of the transport underneath the diagnostic services.
#[derive(Debug, Clone, Copy, PartialEq, Eq, Structural)]
pub enum UdsCommunicationError {
    FailedToFindCanDevice,
    SocketCanIOError,
    StdIOError,
    GeneralError,
    NotImplementedError,
    SocketCreationError,
}

/// Rejected service identifier and negative response code of a negative response.
#[derive(Debug, Clone, Copy, PartialEq, Eq, Structural)]
pub struct NrcData {
    pub rejected_sid: u8,
    pub nrc: NegativeResponseCode,
}

/// Possible errors and negative responses.
#[allow(inconsistent_fields)]
#[derive(Debug, Clone, PartialEq)]
pub enum UdsError {
    SidMismatch { expected: u8, received: u8, raw_message: Vec<u8> },
    DidMismatch { expected: u16, received: u16, raw_message: Vec<u8> },
    InvalidLength { raw_message: Vec<u8> },
    NRC { nrc: NrcData },
    UnknownNRC { rejected_sid: u8, unknown_nrc: u8 },
    ResponseEmpty,
    UnsupportedSubfunction { unsupported_subfunction: u8 },
    InvalidArgument,
    ResponseIncorrect { raw_message: Vec<u8> },
    NotImplemented,
    RequestEmpty,
    CommunicationError { error: UdsCommunicationError },
}

/// Mathematical model of a [`UdsError`]: each message as the sequence of its bytes.
#[allow(inconsistent_fields)]
pub enum UdsErrorView {
    SidMismatch { expected: u8, received: u8, raw_message: Seq<u8> },
    DidMismatch { expected: u16, received: u16, raw_message: Seq<u8> },
    InvalidLength { raw_message: Seq<u8> },
    NRC { nrc: NrcData },
    UnknownNRC { rejected_sid: u8, unknown_nrc: u8 },
    ResponseEmpty,
    UnsupportedSubfunction { unsupported_subfunction: u8 },
    InvalidArgument,
    ResponseIncorrect { raw_message: Seq<u8> },
    NotImplemented,
    RequestEmpty,
    CommunicationError { error: UdsCommunicationError },
}

impl View for UdsError {
    type V = UdsErrorView;

    open spec fn view(&self) -> UdsErrorView {
        match self {
            UdsError::SidMismatch { expected, received, raw_message } => UdsErrorView::SidMismatch {
                expected: *expected,
                received: *received,
                raw_message: raw_message@,
            },
            UdsError::DidMismatch { expected, received, raw_message } => UdsErrorView::DidMismatch {
                expected: *expected,
                received: *received,
                raw_message: raw_message@,
            },
            UdsError::InvalidLength { raw_message } => UdsErrorView::InvalidLength {
                raw_message: raw_message@,
            },
            UdsError::NRC { nrc } => UdsErrorView::NRC { nrc: *nrc },
            UdsError::UnknownNRC { rejected_sid, unknown_nrc } => UdsErrorView::UnknownNRC {
                rejected_sid: *rejected_sid,
                unknown_nrc: *unknown_nrc,
            },
            UdsError::ResponseEmpty => UdsErrorView::ResponseEmpty,
            UdsError::UnsupportedSubfunction { unsupported_subfunction } =>
                UdsErrorView::UnsupportedSubfunction {
                unsupported_subfunction: *unsupported_subfunction,
            },
            UdsError::InvalidArgument => UdsErrorView::InvalidArgument,
            UdsError::ResponseIncorrect { raw_message } => UdsErrorView::ResponseIncorrect {
                raw_message: raw_message@,
            },
            UdsError::NotImplemented => UdsErrorView::NotImplemented,
            UdsError::RequestEmpty => UdsErrorView::RequestEmpty,
            UdsError::CommunicationError { error } => UdsErrorView::CommunicationError {
                error: *error,
            },
        }
    }
}

impl View for UdsCommunicationError {
    type V = UdsCommunicationError;

    open spec fn view(&self) -> UdsCommunicationError {
        *self
    }
}

/// The model of a result whose both sides have a view.
pub open spec fn result_view<T: View, E: View>(r: Result<T, E>) -> Result<T::V, E::V> {
    match r {
        Ok(t) => Ok(t@),
        Err(e) => Err(e@),
    }
}

impl From<UdsCommunicationError> for UdsError {
    fn from(error: UdsCommunicationError) -> (r: UdsError) {
        UdsError::CommunicationError { error }
    }
}

impl vstd::std_specs::convert::FromSpecImpl<UdsCommunicationError> for UdsError {
    open spec fn obeys_from_spec() -> bool {
        true
    }

    open spec fn from_spec(error: UdsCommunicationError) -> UdsError {
        UdsError::CommunicationError { error }
    }
}

} // verus!
