//! The dispatch loop: a single consumer multiplexing an unbounded inbound
//! FIFO queue of publications against a bounded (capacity one) shutdown
//! signal, with one owned handler. This module is the loop's state machine:
//! the queue, the two channels' sender-side liveness, the pending signal, and
//! the run protocol with its fixed-priority select. The suspendable task that
//! awaits the real channels lives outside the verified core; it takes every
//! decision through this module, one observed event at a time via
//! [`next_step`], and the handler's work through [`MessageHandler`].

use vstd::prelude::*;

use crate::error::MessageTesterError;
use crate::handler::{HandlerAction, MessageHandler};
use crate::message::ReceivedMessage;

verus! {

/// What the outside world supplies for one handler invocation: the sequence
/// number the external parser extracted from the publication, the wall-clock
/// time of the invocation, and the collaborator's response to the handler's
/// request.
#[derive(Debug, PartialEq, Eq)]
pub struct HandlerEnv {
    pub sequence_number: u64,
    pub created_at: i64,
    pub outcome: Result<(), String>,
}

/// Holds when every one of the first `n` supplied collaborator outcomes is a
/// success, so that no handler invocation among them fails the loop.
pub open spec fn all_outcomes_ok(envs: Seq<HandlerEnv>, n: int) -> bool {
    forall|i: int| 0 <= i < n ==> (#[trigger] envs[i]).outcome is Ok
}

/// One event the dispatch loop's select can observe: under the fixed
/// priority, a ready publication is observed before anything else, and the
/// shutdown channel is looked at only when the inbound queue has nothing.
#[derive(Debug, PartialEq, Eq)]
pub enum ChannelEvent {
    /// A publication was ready on the inbound queue.
    Received(ReceivedMessage),
    /// The inbound queue's sender side is gone and the queue is empty.
    InboundClosed,
    /// The shutdown signal fired.
    ShutdownSignal,
    /// The shutdown channel's sender side is gone without a signal.
    ShutdownClosed,
}

/// What the dispatch loop does with one observed event.
#[derive(Debug, PartialEq, Eq)]
pub enum LoopStep {
    /// Invoke the handler on this publication, then poll again.
    Dispatch(ReceivedMessage),
    /// The loop is over: a clean exit on a shutdown signal, a failure on a
    /// closed channel.
    Stop(Result<(), MessageTesterError>),
}

/// The loop's decision for each observable event: a publication is handled, a
/// shutdown signal is the one clean exit, and either channel found closed is
/// an unexpected failure of its own kind.
pub open spec fn step_spec(event: ChannelEvent, s: LoopStep) -> bool {
    match event {
        ChannelEvent::Received(publication) => s == LoopStep::Dispatch(publication),
        ChannelEvent::InboundClosed => s == LoopStep::Stop(
            Err(MessageTesterError::ListenForIncomingPublications),
        ),
        ChannelEvent::ShutdownSignal => s == LoopStep::Stop(Ok(())),
        ChannelEvent::ShutdownClosed => s == LoopStep::Stop(
            Err(MessageTesterError::ListenForShutdown),
        ),
    }
}

/// Decides one iteration of the dispatch loop from the event its select
/// observed. The task that awaits the real channels calls this for every
/// event, so the loop's decisions all stand here, verified.
pub fn next_step(event: ChannelEvent) -> (s: LoopStep)
    ensures
        step_spec(event, s),
{
    match event {
        ChannelEvent::Received(publication) => LoopStep::Dispatch(publication),
        ChannelEvent::InboundClosed => LoopStep::Stop(
            Err(MessageTesterError::ListenForIncomingPublications),
        ),
        ChannelEvent::ShutdownSignal => LoopStep::Stop(Ok(())),
        ChannelEvent::ShutdownClosed => LoopStep::Stop(
            Err(MessageTesterError::ListenForShutdown),
        ),
    }
}

/// The dispatch loop's state: the publications queued and not yet dispatched
/// (front first), whether any producer sender is still alive, whether a
/// shutdown signal is pending, whether any shutdown sender is still alive,
/// and the one handler the loop owns.
#[derive(Debug, PartialEq, Eq)]
pub struct MessageChannel {
    pub queue: Vec<ReceivedMessage>,
    pub producers_open: bool,
    pub shutdown_pending: bool,
    pub shutdown_open: bool,
    pub message_handler: MessageHandler,
}

/// How one run of the dispatch loop ended.
#[derive(Debug, PartialEq, Eq)]
pub enum RunEnd {
    /// An explicit shutdown signal was observed: the only clean exit.
    Shutdown,
    /// The loop stopped on its first error; no error is recovered from.
    Failed(MessageTesterError),
    /// Queue drained, no signal pending, both sender sides alive: the loop
    /// suspends waiting for more input and resumes from the carried state.
    Waiting(MessageChannel),
}

/// Everything one run of the dispatch loop did: how it ended, which
/// publications it handed to the handler (in enqueue order), and the request
/// the handler built for each of them.
#[derive(Debug, PartialEq, Eq)]
pub struct RunReport {
    pub end: RunEnd,
    pub handled: Vec<ReceivedMessage>,
    pub actions: Vec<HandlerAction>,
}

impl MessageChannel {
    /// Creates the loop in its initial state: empty queue, both sender sides
    /// alive, no signal pending, owning the given handler.
    pub fn new(message_handler: MessageHandler) -> (r: Self)
        ensures
            r.queue@.len() == 0,
            r.producers_open,
            !r.shutdown_pending,
            r.shutdown_open,
            r.message_handler == message_handler,
    {
        MessageChannel {
            queue: Vec::new(),
            producers_open: true,
            shutdown_pending: false,
            shutdown_open: true,
            message_handler,
        }
    }

    /// A producer's send: enqueues one received publication at the back of
    /// the queue. The queue is unbounded, so a send never blocks or fails
    /// while a producer sender is alive.
    pub fn send(&mut self, publication: ReceivedMessage)
        requires
            old(self).producers_open,
        ensures
            final(self).queue@ == old(self).queue@.push(publication),
            final(self).producers_open == old(self).producers_open,
            final(self).shutdown_pending == old(self).shutdown_pending,
            final(self).shutdown_open == old(self).shutdown_open,
            final(self).message_handler == old(self).message_handler,
    {
        self.queue.push(publication);
    }

    /// A shutdown handle's signal. Idempotent in effect: after the call a
    /// signal is pending, and signalling when one is already pending changes
    /// nothing.
    pub fn signal_shutdown(&mut self)
        requires
            old(self).shutdown_open,
        ensures
            final(self).shutdown_pending,
            final(self).queue == old(self).queue,
            final(self).producers_open == old(self).producers_open,
            final(self).shutdown_open == old(self).shutdown_open,
            final(self).message_handler == old(self).message_handler,
            old(self).shutdown_pending ==> *final(self) == *old(self),
    {
        self.shutdown_pending = true;
    }

    /// Models dropping every producer sender: no publication will ever be
    /// enqueued again. What is already queued stays queued.
    pub fn close_producers(&mut self)
        ensures
            !final(self).producers_open,
            final(self).queue == old(self).queue,
            final(self).shutdown_pending == old(self).shutdown_pending,
            final(self).shutdown_open == old(self).shutdown_open,
            final(self).message_handler == old(self).message_handler,
    {
        self.producers_open = false;
    }

    /// Models dropping every shutdown sender. A signal already pending stays
    /// pending and is still observed.
    pub fn close_shutdown(&mut self)
        ensures
            !final(self).shutdown_open,
            final(self).queue == old(self).queue,
            final(self).producers_open == old(self).producers_open,
            final(self).shutdown_pending == old(self).shutdown_pending,
            final(self).message_handler == old(self).message_handler,
    {
        self.shutdown_open = false;
    }

    /// Where the run ends once the queue has been drained without a handler
    /// failure, decided by the state of the two channels in the same fixed
    /// order the select polls them: a closed inbound queue is an error even
    /// if a shutdown signal is pending, a pending signal is the clean exit,
    /// a closed shutdown channel without a signal is an error, and otherwise
    /// the loop waits, its state unchanged but for the drained queue.
    pub open spec fn drained_end_spec(self, end: RunEnd) -> bool {
        if !self.producers_open {
            end == RunEnd::Failed(MessageTesterError::ListenForIncomingPublications)
        } else if self.shutdown_pending {
            end == RunEnd::Shutdown
        } else if !self.shutdown_open {
            end == RunEnd::Failed(MessageTesterError::ListenForShutdown)
        } else {
            &&& end matches RunEnd::Waiting(ch)
            &&& ch.queue@.len() == 0
            &&& ch.producers_open
            &&& !ch.shutdown_pending
            &&& ch.shutdown_open
            &&& ch.message_handler == self.message_handler
        }
    }

    /// Runs the dispatch loop to a terminal state over the publications
    /// queued now, consuming the loop. `envs` supplies, front first, what the
    /// outside world contributes to each handler invocation; one entry is
    /// consumed per dispatched publication.
    ///
    /// The loop races its two sources in a fixed, deterministic priority
    /// order, not fairly: a queued publication is always dispatched before
    /// the shutdown signal is even looked at, so a steady stream of
    /// publications delays a pending shutdown indefinitely. That is a
    /// deliberate, compatibility-bearing choice of the protocol.
    ///
    /// The contract pins the run down exactly, and states the loop's laws:
    /// with no failure every queued publication is handled in enqueue order
    /// and the channels decide the end; the first collaborator failure stops
    /// the loop at that publication with the handler's wrapped error; one
    /// pending shutdown signal with an empty queue exits cleanly with no
    /// handler call; queued publications are handled before a pending signal
    /// is observed; a closed inbound queue or a closed shutdown channel,
    /// found empty-handed, is an unexpected failure of its own kind.
    #[verifier::loop_isolation(false)]
    pub fn run(self, envs: Vec<HandlerEnv>) -> (r: RunReport)
        requires
            envs@.len() >= self.queue@.len(),
        ensures
            r.handled@.len() <= self.queue@.len(),
            forall|i: int| 0 <= i < r.handled@.len() ==> r.handled@[i] == self.queue@[i],
            r.actions@.len() == r.handled@.len(),
            forall|i: int| 0 <= i < r.handled@.len() ==> self.message_handler.action_spec(
                self.queue@[i],
                envs@[i].sequence_number,
                envs@[i].created_at,
                #[trigger] r.actions@[i],
            ),
            all_outcomes_ok(envs@, self.queue@.len() as int) ==> {
                &&& r.handled@.len() == self.queue@.len()
                &&& self.drained_end_spec(r.end)
            },
            !all_outcomes_ok(envs@, self.queue@.len() as int) ==> {
                let k = r.handled@.len() - 1;
                &&& 1 <= r.handled@.len() <= self.queue@.len()
                &&& all_outcomes_ok(envs@, k)
                &&& envs@[k].outcome matches Err(cause)
                &&& r.end == RunEnd::Failed(self.message_handler.wrap_spec(cause))
            },
            (all_outcomes_ok(envs@, self.queue@.len() as int) && self.producers_open
                && !self.shutdown_pending && self.shutdown_open) ==> {
                &&& r.handled@ =~= self.queue@
                &&& r.end is Waiting
            },
            (self.queue@.len() == 0 && self.producers_open && self.shutdown_pending) ==> {
                &&& r.end == RunEnd::Shutdown
                &&& r.handled@.len() == 0
            },
            (all_outcomes_ok(envs@, self.queue@.len() as int) && self.producers_open
                && self.shutdown_pending) ==> {
                &&& r.handled@ =~= self.queue@
                &&& r.end == RunEnd::Shutdown
            },
            (self.queue@.len() == 0 && !self.producers_open) ==> r.end == RunEnd::Failed(
                MessageTesterError::ListenForIncomingPublications,
            ),
            (self.queue@.len() == 0 && self.producers_open && !self.shutdown_pending
                && !self.shutdown_open) ==> r.end == RunEnd::Failed(
                MessageTesterError::ListenForShutdown,
            ),
    {
        let ghost c0 = self;
        let ghost q0 = self.queue@;
        let ghost es0 = envs@;
        let mut this = self;
        let mut envs = envs;
        let mut handled: Vec<ReceivedMessage> = Vec::new();
        let mut actions: Vec<HandlerAction> = Vec::new();
        let mut i: usize = 0;
        while this.queue.len() > 0
            invariant
                i <= q0.len(),
                es0.len() >= q0.len(),
                handled@.len() == i,
                actions@.len() == i,
                this.queue@ == q0.skip(i as int),
                envs@ == es0.skip(i as int),
                this.producers_open == c0.producers_open,
                this.shutdown_pending == c0.shutdown_pending,
                this.shutdown_open == c0.shutdown_open,
                this.message_handler == c0.message_handler,
                forall|j: int| 0 <= j < i ==> handled@[j] == q0[j],
                forall|j: int| 0 <= j < i ==> (#[trigger] es0[j]).outcome is Ok,
                forall|j: int| 0 <= j < i ==> c0.message_handler.action_spec(
                    q0[j],
                    es0[j].sequence_number,
                    es0[j].created_at,
                    #[trigger] actions@[j],
                ),
            decreases this.queue@.len(),
        {
            let publication = this.queue.remove(0);
            let env = envs.remove(0);
            proof {
                assert(q0.skip(i as int).remove(0) =~= q0.skip(i as int + 1));
                assert(es0.skip(i as int).remove(0) =~= es0.skip(i as int + 1));
            }
            let action = this.message_handler.handle(
                &publication,
                env.sequence_number,
                env.created_at,
            );
            actions.push(action);
            handled.push(publication);
            match env.outcome {
                Ok(()) => {},
                Err(cause) => {
                    let e = this.message_handler.wrap_failure(cause);
                    return RunReport { end: RunEnd::Failed(e), handled, actions };
                },
            }
            i = handled.len();
        }
        proof {
            assert(handled@ =~= q0);
        }
        if !this.producers_open {
            RunReport {
                end: RunEnd::Failed(MessageTesterError::ListenForIncomingPublications),
                handled,
                actions,
            }
        } else if this.shutdown_pending {
            RunReport { end: RunEnd::Shutdown, handled, actions }
        } else if !this.shutdown_open {
            RunReport {
                end: RunEnd::Failed(MessageTesterError::ListenForShutdown),
                handled,
                actions,
            }
        } else {
            RunReport { end: RunEnd::Waiting(this), handled, actions }
        }
    }
}

} // verus!
