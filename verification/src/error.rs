//! Why the dispatch loop stopped. Every error is fatal to the loop: there is
//! no retry or partial recovery, and the only clean exit is an explicit
//! shutdown signal.

use vstd::prelude::*;

verus! {

/// The terminal failures of the dispatch loop. Collaborator failures carry
/// the collaborator's rendered cause verbatim.
#[derive(Debug, PartialEq, Eq)]
pub enum MessageTesterError {
    /// The inbound queue's sender side was dropped entirely while the queue
    /// was empty: no publication will ever arrive again.
    ListenForIncomingPublications,
    /// The shutdown channel's sender side was dropped entirely without a
    /// signal ever being sent.
    ListenForShutdown,
    /// The reporting collaborator failed while reporting a test result.
    ReportResult(String),
    /// The publish collaborator failed while relaying a publication.
    Publish(String),
}

} // verus!
