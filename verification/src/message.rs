//! The data model of the pipeline: publications as they arrive from the MQTT
//! client, publications as the relaying handler republishes them, and the
//! test-result record the reporting handler builds.

use vstd::prelude::*;

verus! {

/// MQTT delivery-guarantee level of a publication.
#[derive(Clone, Copy, Debug, PartialEq, Eq, Structural)]
pub enum QoS {
    AtMostOnce,
    AtLeastOnce,
    ExactlyOnce,
}

/// A publication as delivered by the MQTT client: topic, payload, and
/// delivery metadata that the pipeline passes through unchanged.
#[derive(Clone, Debug, PartialEq, Eq)]
pub struct ReceivedMessage {
    pub topic: String,
    pub payload: Vec<u8>,
    pub qos: QoS,
    pub retain: bool,
}

/// A publication the relaying handler asks its publish collaborator to send
/// downstream.
#[derive(Debug, PartialEq, Eq)]
pub struct OutboundMessage {
    pub topic: String,
    pub qos: QoS,
    pub retain: bool,
    pub payload: Vec<u8>,
}

/// One test outcome, as handed to the reporting collaborator. The tracking
/// and batch identifiers are configuration; the sequence number and creation
/// time are per-invocation.
#[derive(Debug, PartialEq, Eq)]
pub struct TestResult {
    pub tracking_id: String,
    pub batch_id: String,
    pub sequence_number: u64,
    pub created_at: i64,
}

/// The kind of test a reported result belongs to.
#[derive(Clone, Copy, Debug, PartialEq, Eq, Structural)]
pub enum TestType {
    Messages,
}

/// Everything the reporting handler hands to the reporting collaborator in
/// one report call.
#[derive(Debug, PartialEq, Eq)]
pub struct ReportRequest {
    pub source: String,
    pub result: TestResult,
    pub test_type: TestType,
    pub created_at: i64,
}

/// Copies a byte payload; the copy holds exactly the bytes copied from.
pub fn clone_bytes(v: &Vec<u8>) -> (r: Vec<u8>)
    ensures
        r@ == v@,
{
    let mut r: Vec<u8> = Vec::new();
    let mut i: usize = 0;
    while i < v.len()
        invariant
            i <= v@.len(),
            r@.len() == i,
            forall|j: int| 0 <= j < i ==> r@[j] == v@[j],
        decreases v@.len() - i,
    {
        r.push(v[i]);
        i = i + 1;
    }
    proof {
        assert(r@ =~= v@);
    }
    r
}

} // verus!
