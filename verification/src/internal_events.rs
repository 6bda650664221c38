//! Structured error reports for the observability layer.
//!
//! Each report carries a stable taxonomy — an error code, an error type and
//! the pipeline stage it arose in — plus a dropped-event count where one
//! applies. Emitting a report is fire-and-forget: it never blocks or aborts
//! the ingestion loop; rendering and counting happen outside.

use vstd::prelude::*;
use vstd::string::StringExecFns;

verus! {

/// Stable error-type taxonomy tag.
#[derive(Clone, Copy, Debug, PartialEq, Eq, Structural)]
pub enum ErrorType {
    /// A request to an external service failed.
    RequestFailed,
    /// A parser rejected its input.
    ParserFailed,
    /// Reading from the upstream source failed.
    ReaderFailed,
    /// An acknowledgment could not be delivered.
    AcknowledgmentFailed,
}

/// Stable pipeline-stage taxonomy tag.
#[derive(Clone, Copy, Debug, PartialEq, Eq, Structural)]
pub enum ErrorStage {
    /// While receiving from the upstream source.
    Receiving,
    /// While processing records inside the pipeline.
    Processing,
    /// While sending to a downstream consumer.
    Sending,
}

/// Stable error-code taxonomy tag.
#[derive(Clone, Copy, Debug, PartialEq, Eq, Structural)]
pub enum ErrorCode {
    /// Reading a message from the broker failed.
    ReadingMessage,
    /// Acknowledging a message to the broker failed.
    AcknowledgeMessage,
    /// Negatively acknowledging a message to the broker failed.
    NegativeAcknowledgeMessage,
    /// Extracting message properties failed.
    ExtractingProperty,
}

/// One structured report, ready for the external metrics and logging
/// pipeline.
#[derive(Debug)]
pub struct EventReport {
    /// Human-readable reason.
    pub message: String,
    /// The underlying error's own text, where one exists.
    pub error: Option<String>,
    /// Error code tag, where the taxonomy assigns one.
    pub code: Option<ErrorCode>,
    /// Error type tag.
    pub error_type: ErrorType,
    /// Pipeline stage tag.
    pub stage: ErrorStage,
    /// Number of events dropped because of this error; zero when none were.
    pub dropped_events: usize,
}

/// Mathematical model of an `EventReport`.
#[verifier::ext_equal]
pub ghost struct EventReportModel {
    pub message: Seq<char>,
    pub error: Option<Seq<char>>,
    pub code: Option<ErrorCode>,
    pub error_type: ErrorType,
    pub stage: ErrorStage,
    pub dropped_events: usize,
}

impl View for EventReport {
    type V = EventReportModel;

    open spec fn view(&self) -> EventReportModel {
        EventReportModel {
            message: self.message@,
            error: match self.error {
                Some(ref e) => Some(e@),
                None => None,
            },
            code: self.code,
            error_type: self.error_type,
            stage: self.stage,
            dropped_events: self.dropped_events,
        }
    }
}

/// A batch could not be sent to the broker: events were dropped
/// unintentionally.
#[derive(Debug)]
pub struct PulsarSendingError {
    /// Number of events dropped with the failed request.
    pub count: usize,
    /// The underlying error's text.
    pub error: String,
}

impl PulsarSendingError {
    /// The structured report this error emits.
    pub fn emit(self) -> (r: EventReport)
        ensures
            r@.message == "A Pulsar sink generated an error."@,
            r@.error == Some(self.error@),
            r@.code is None,
            r@.error_type == ErrorType::RequestFailed,
            r@.stage == ErrorStage::Sending,
            r@.dropped_events == self.count,
    {
        EventReport {
            message: String::from_str("A Pulsar sink generated an error."),
            error: Some(self.error),
            code: None,
            error_type: ErrorType::RequestFailed,
            stage: ErrorStage::Sending,
            dropped_events: self.count,
        }
    }
}

/// A message's properties could not be read as a map of strings to bytes.
#[derive(Debug)]
pub struct PulsarPropertyExtractionError {
    /// The field whose properties were being extracted.
    pub property_field: String,
}

impl PulsarPropertyExtractionError {
    /// The structured report this error emits.
    pub fn emit(self) -> (r: EventReport)
        ensures
            r@.message == "Failed to extract properties. Value should be a map of String -> Bytes."@,
            r@.error == Some(self.property_field@),
            r@.code == Some(ErrorCode::ExtractingProperty),
            r@.error_type == ErrorType::ParserFailed,
            r@.stage == ErrorStage::Processing,
            r@.dropped_events == 0,
    {
        EventReport {
            message: String::from_str(
                "Failed to extract properties. Value should be a map of String -> Bytes.",
            ),
            error: Some(self.property_field),
            code: Some(ErrorCode::ExtractingProperty),
            error_type: ErrorType::ParserFailed,
            stage: ErrorStage::Processing,
            dropped_events: 0,
        }
    }
}

/// Which broker interaction an ingestion-side error came from.
#[derive(Clone, Copy, Debug, PartialEq, Eq, Structural)]
pub enum PulsarErrorEventType {
    /// Reading the next message failed.
    ReadError,
    /// Acknowledging a message failed.
    AckError,
    /// Negatively acknowledging a message failed.
    NAckError,
}

/// An ingestion-side broker error, with the broker client's own message.
#[derive(Debug)]
pub struct PulsarErrorEventData {
    /// The broker client's error text.
    pub msg: String,
    /// Which interaction failed.
    pub error_type: PulsarErrorEventType,
}

/// Registered handle that turns ingestion-side broker errors into reports
/// under the stable taxonomy.
#[derive(Debug)]
pub struct PulsarErrorEvent {}

impl PulsarErrorEvent {
    /// A fresh handle.
    pub fn new() -> (r: PulsarErrorEvent) {
        PulsarErrorEvent {  }
    }

    /// The structured report one ingestion-side broker error emits: a read
    /// failure is a reader error, an acknowledge or negative-acknowledge
    /// failure an acknowledgment error, each under its own code, all at the
    /// receiving stage.
    pub fn emit(&self, error: PulsarErrorEventData) -> (r: EventReport)
        ensures
            error.error_type == PulsarErrorEventType::ReadError ==> {
                &&& r@.message == "Failed to read message."@
                &&& r@.code == Some(ErrorCode::ReadingMessage)
                &&& r@.error_type == ErrorType::ReaderFailed
            },
            error.error_type == PulsarErrorEventType::AckError ==> {
                &&& r@.message == "Failed to acknowledge message."@
                &&& r@.code == Some(ErrorCode::AcknowledgeMessage)
                &&& r@.error_type == ErrorType::AcknowledgmentFailed
            },
            error.error_type == PulsarErrorEventType::NAckError ==> {
                &&& r@.message == "Failed to negatively acknowledge message."@
                &&& r@.code == Some(ErrorCode::NegativeAcknowledgeMessage)
                &&& r@.error_type == ErrorType::AcknowledgmentFailed
            },
            r@.error == Some(error.msg@),
            r@.stage == ErrorStage::Receiving,
            r@.dropped_events == 0,
    {
        match error.error_type {
            PulsarErrorEventType::ReadError => EventReport {
                message: String::from_str("Failed to read message."),
                error: Some(error.msg),
                code: Some(ErrorCode::ReadingMessage),
                error_type: ErrorType::ReaderFailed,
                stage: ErrorStage::Receiving,
                dropped_events: 0,
            },
            PulsarErrorEventType::AckError => EventReport {
                message: String::from_str("Failed to acknowledge message."),
                error: Some(error.msg),
                code: Some(ErrorCode::AcknowledgeMessage),
                error_type: ErrorType::AcknowledgmentFailed,
                stage: ErrorStage::Receiving,
                dropped_events: 0,
            },
            PulsarErrorEventType::NAckError => EventReport {
                message: String::from_str("Failed to negatively acknowledge message."),
                error: Some(error.msg),
                code: Some(ErrorCode::NegativeAcknowledgeMessage),
                error_type: ErrorType::AcknowledgmentFailed,
                stage: ErrorStage::Receiving,
                dropped_events: 0,
            },
        }
    }
}

} // verus!
