//! Responses of the services, with their byte-level models.
use vstd::prelude::*;

use crate::diagnostic_session_control::DiagnosticSessionControlResponse;
use crate::ecu_reset::EcuResetResponse;
use crate::error::{UdsError, UdsErrorView};
use crate::write_data_by_identifier::WriteDataByIdentifierResponse;

verus! {

/// What a service call yields: a positive response or the error that came instead.
pub type EcuResponseResult = Result<UdsResponse, UdsError>;

/// Positive responses of all services. The data format says whether the
/// received data could be parsed into the service's response struct.
#[derive(Debug, Clone, PartialEq)]
pub enum UdsResponse {
    EcuReset(DataFormat<EcuResetResponse>),
    ClearDiagnosticInformation,
    WriteDataByIdentifier(DataFormat<WriteDataByIdentifierResponse>),
    DiagnosticSessionControl(DataFormat<DiagnosticSessionControlResponse>),
}

/// A parsed response struct, or, where parsing was not possible, all received
/// data without the first byte (the service identifier, which the
/// [`UdsResponse`] variant encodes).
#[derive(Debug, Clone, PartialEq)]
pub enum DataFormat<T> {
    Parsed(T),
    Raw(Vec<u8>),
}

/// Mathematical model of a [`DataFormat`].
pub enum DataFormatView<T> {
    Parsed(T),
    Raw(Seq<u8>),
}

/// Mathematical model of a [`UdsResponse`].
pub enum UdsResponseView {
    EcuReset(DataFormatView<EcuResetResponse>),
    ClearDiagnosticInformation,
    WriteDataByIdentifier(DataFormatView<WriteDataByIdentifierResponse>),
    DiagnosticSessionControl(DataFormatView<DiagnosticSessionControlResponse>),
}

impl<T: Copy> View for DataFormat<T> {
    type V = DataFormatView<T>;

    open spec fn view(&self) -> DataFormatView<T> {
        match self {
            DataFormat::Parsed(t) => DataFormatView::Parsed(*t),
            DataFormat::Raw(bytes) => DataFormatView::Raw(bytes@),
        }
    }
}

impl View for UdsResponse {
    type V = UdsResponseView;

    open spec fn view(&self) -> UdsResponseView {
        match self {
            UdsResponse::EcuReset(d) => UdsResponseView::EcuReset(d@),
            UdsResponse::ClearDiagnosticInformation => UdsResponseView::ClearDiagnosticInformation,
            UdsResponse::WriteDataByIdentifier(d) => UdsResponseView::WriteDataByIdentifier(d@),
            UdsResponse::DiagnosticSessionControl(d) => UdsResponseView::DiagnosticSessionControl(
                d@,
            ),
        }
    }
}

/// The model of a service result.
pub type ResponseResultView = Result<UdsResponseView, UdsErrorView>;

} // verus!
