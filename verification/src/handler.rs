//! The handler capability: a closed set of variants, selected at
//! construction time, each turning one received publication into a request
//! for its collaborator. The reporting variant builds a test-result report;
//! the relaying variant republishes the payload downstream. The collaborator
//! calls themselves (network, republish) are performed outside this core;
//! each variant states exactly what it asks of them and how it wraps their
//! failures.

use vstd::prelude::*;
use vstd::string::StringExecFns;

use crate::error::MessageTesterError;
use crate::message::{clone_bytes, OutboundMessage, QoS, ReceivedMessage, ReportRequest, TestResult,
    TestType};

verus! {

/// The fixed logical source tag identifying the receive side of the test
/// harness, attached to every reported result.
pub open spec fn receive_source_spec() -> Seq<char> {
    "receive"@
}

/// Returns the fixed receive-side source tag.
pub fn receive_source() -> (r: String)
    ensures
        r@ == receive_source_spec(),
{
    String::from_str("receive")
}

/// Handler variant that reports each received publication as a test result
/// to the reporting collaborator. The tracking and batch identifiers are
/// captured at construction and immutable for the handler's lifetime.
#[derive(Debug, PartialEq, Eq)]
pub struct ReportResultMessageHandler {
    pub tracking_id: String,
    pub batch_id: String,
}

impl ReportResultMessageHandler {
    /// Captures the immutable reporting configuration.
    pub fn new(tracking_id: String, batch_id: String) -> (r: Self)
        ensures
            r.tracking_id == tracking_id,
            r.batch_id == batch_id,
    {
        Self { tracking_id, batch_id }
    }

    /// What the handler asks of the reporting collaborator for a publication
    /// whose parsed sequence number is `sequence_number`, at wall-clock time
    /// `created_at`: a result carrying the configured identifiers, the
    /// sequence number, and the time, under the fixed source and test-type
    /// tags.
    pub open spec fn request_spec(self, sequence_number: u64, created_at: i64, r: ReportRequest) -> bool {
        &&& r.source@ == receive_source_spec()
        &&& r.result.tracking_id@ == self.tracking_id@
        &&& r.result.batch_id@ == self.batch_id@
        &&& r.result.sequence_number == sequence_number
        &&& r.result.created_at == created_at
        &&& r.test_type == TestType::Messages
        &&& r.created_at == created_at
    }

    /// Builds the report request for one publication. The sequence number
    /// comes from the external payload parser, the creation time from the
    /// wall clock; the dispatch task supplies both.
    pub fn handle(&self, sequence_number: u64, created_at: i64) -> (r: ReportRequest)
        ensures
            self.request_spec(sequence_number, created_at, r),
    {
        let result = TestResult {
            tracking_id: self.tracking_id.clone(),
            batch_id: self.batch_id.clone(),
            sequence_number,
            created_at,
        };
        ReportRequest { source: receive_source(), result, test_type: TestType::Messages, created_at }
    }
}

/// Handler variant that republishes each received publication's payload to a
/// fixed downstream topic. The topic is captured at construction and
/// immutable for the handler's lifetime.
#[derive(Debug, PartialEq, Eq)]
pub struct RelayingMessageHandler {
    pub topic: String,
}

impl RelayingMessageHandler {
    /// Captures the fixed downstream topic.
    pub fn new(topic: String) -> (r: Self)
        ensures
            r.topic == topic,
    {
        Self { topic }
    }

    /// What the handler asks of the publish collaborator: the configured
    /// topic, exactly-once delivery, the retain flag set, and the inbound
    /// payload byte for byte.
    pub open spec fn relays(self, payload: Seq<u8>, out: OutboundMessage) -> bool {
        &&& out.topic@ == self.topic@
        &&& out.qos == QoS::ExactlyOnce
        &&& out.retain == true
        &&& out.payload@ == payload
    }

    /// Builds the outbound publication for one received publication: only
    /// the destination topic and the delivery qualifiers change; the payload
    /// is passed through unchanged.
    pub fn handle(&self, publication: &ReceivedMessage) -> (out: OutboundMessage)
        ensures
            self.relays(publication.payload@, out),
    {
        OutboundMessage {
            topic: self.topic.clone(),
            qos: QoS::ExactlyOnce,
            retain: true,
            payload: clone_bytes(&publication.payload),
        }
    }
}

/// The closed set of handler variants behind one interface, selected at
/// construction time. The dispatch loop owns exactly one of these.
#[derive(Debug, PartialEq, Eq)]
pub enum MessageHandler {
    ReportResult(ReportResultMessageHandler),
    Relaying(RelayingMessageHandler),
}

/// What a handler asks its collaborator to do for one publication.
#[derive(Debug, PartialEq, Eq)]
pub enum HandlerAction {
    /// Invoke the reporting collaborator with this request.
    Report(ReportRequest),
    /// Invoke the publish collaborator with this publication.
    Publish(OutboundMessage),
}

impl MessageHandler {
    /// The action each variant produces for publication `publication`, given
    /// its parsed sequence number and the wall-clock time.
    pub open spec fn action_spec(
        self,
        publication: ReceivedMessage,
        sequence_number: u64,
        created_at: i64,
        a: HandlerAction,
    ) -> bool {
        match self {
            MessageHandler::ReportResult(h) => {
                &&& a matches HandlerAction::Report(r)
                &&& h.request_spec(sequence_number, created_at, r)
            },
            MessageHandler::Relaying(h) => {
                &&& a matches HandlerAction::Publish(out)
                &&& h.relays(publication.payload@, out)
            },
        }
    }

    /// Handles one received publication: builds the request this variant
    /// makes of its collaborator.
    pub fn handle(&self, publication: &ReceivedMessage, sequence_number: u64, created_at: i64) -> (a:
        HandlerAction)
        ensures
            self.action_spec(*publication, sequence_number, created_at, a),
    {
        match self {
            MessageHandler::ReportResult(h) => HandlerAction::Report(
                h.handle(sequence_number, created_at),
            ),
            MessageHandler::Relaying(h) => HandlerAction::Publish(h.handle(publication)),
        }
    }

    /// How each variant wraps a collaborator failure: the reporting variant
    /// as a report-result error, the relaying variant as a publish error, the
    /// cause verbatim in both.
    pub open spec fn wrap_spec(self, cause: String) -> MessageTesterError {
        match self {
            MessageHandler::ReportResult(_) => MessageTesterError::ReportResult(cause),
            MessageHandler::Relaying(_) => MessageTesterError::Publish(cause),
        }
    }

    /// Wraps a collaborator failure as this variant's error.
    pub fn wrap_failure(&self, cause: String) -> (e: MessageTesterError)
        ensures
            e == self.wrap_spec(cause),
    {
        match self {
            MessageHandler::ReportResult(_) => MessageTesterError::ReportResult(cause),
            MessageHandler::Relaying(_) => MessageTesterError::Publish(cause),
        }
    }

    /// Applies the collaborator's outcome to finish one handler invocation:
    /// success passes through; a failure is wrapped as this variant's error
    /// and, in the dispatch loop, ends the run.
    pub fn complete(&self, outcome: Result<(), String>) -> (r: Result<(), MessageTesterError>)
        ensures
            outcome is Ok ==> r is Ok,
            outcome matches Err(c) ==> r == Result::<(), MessageTesterError>::Err(self.wrap_spec(c)),
    {
        match outcome {
            Ok(()) => Ok(()),
            Err(cause) => Err(self.wrap_failure(cause)),
        }
    }
}

} // verus!
