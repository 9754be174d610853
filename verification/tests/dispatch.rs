//! The dispatch loop's run protocol: fixed-priority select over the inbound
//! queue and the shutdown signal, first-error termination, and the channel
//! failure modes.

use message_channel::channel::{next_step, ChannelEvent, HandlerEnv, LoopStep, MessageChannel,
    RunEnd};
use message_channel::error::MessageTesterError;
use message_channel::handler::{MessageHandler, RelayingMessageHandler, ReportResultMessageHandler};
use message_channel::message::{QoS, ReceivedMessage};

fn relay_channel(topic: &str) -> MessageChannel {
    MessageChannel::new(MessageHandler::Relaying(RelayingMessageHandler::new(topic.to_string())))
}

fn report_channel(tracking_id: &str, batch_id: &str) -> MessageChannel {
    MessageChannel::new(MessageHandler::ReportResult(ReportResultMessageHandler::new(
        tracking_id.to_string(),
        batch_id.to_string(),
    )))
}

fn msg(topic: &str, payload: Vec<u8>) -> ReceivedMessage {
    ReceivedMessage { topic: topic.to_string(), payload, qos: QoS::AtLeastOnce, retain: false }
}

fn ok_env(sequence_number: u64) -> HandlerEnv {
    HandlerEnv { sequence_number, created_at: 1_000, outcome: Ok(()) }
}

#[test]
fn handles_every_queued_message_in_order_then_waits() {
    let mut ch = relay_channel("out/topic");
    let messages: Vec<ReceivedMessage> =
        (0..5u8).map(|i| msg(&format!("in/{i}"), vec![i])).collect();
    for m in &messages {
        ch.send(m.clone());
    }
    let envs: Vec<HandlerEnv> = (0..5u64).map(ok_env).collect();
    let r = ch.run(envs);
    assert_eq!(r.handled, messages);
    assert_eq!(r.actions.len(), 5);
    assert!(matches!(r.end, RunEnd::Waiting(_)));
}

#[test]
fn resumes_from_the_waiting_state() {
    let mut ch = relay_channel("out/topic");
    ch.send(msg("in/a", vec![1]));
    let r = ch.run(vec![ok_env(1)]);
    let mut resumed = match r.end {
        RunEnd::Waiting(ch) => ch,
        other => panic!("expected a waiting loop, got {other:?}"),
    };
    resumed.send(msg("in/b", vec![2]));
    resumed.signal_shutdown();
    let r2 = resumed.run(vec![ok_env(2)]);
    assert_eq!(r2.handled, vec![msg("in/b", vec![2])]);
    assert_eq!(r2.end, RunEnd::Shutdown);
}

#[test]
fn one_shutdown_signal_with_empty_queue_exits_cleanly() {
    let mut ch = report_channel("t1", "b1");
    ch.signal_shutdown();
    let r = ch.run(vec![]);
    assert_eq!(r.end, RunEnd::Shutdown);
    assert!(r.handled.is_empty());
    assert!(r.actions.is_empty());
}

#[test]
fn repeated_shutdown_signals_have_the_effect_of_one() {
    let mut ch = report_channel("t1", "b1");
    ch.signal_shutdown();
    ch.signal_shutdown();
    ch.signal_shutdown();
    let r = ch.run(vec![]);
    assert_eq!(r.end, RunEnd::Shutdown);
    assert!(r.handled.is_empty());
}

#[test]
fn queued_message_is_handled_before_a_pending_shutdown_is_observed() {
    let mut ch = relay_channel("out/topic");
    ch.send(msg("in/a", vec![9]));
    ch.signal_shutdown();
    let r = ch.run(vec![ok_env(1)]);
    assert_eq!(r.handled, vec![msg("in/a", vec![9])]);
    assert_eq!(r.end, RunEnd::Shutdown);
}

#[test]
fn dropped_producers_with_empty_queue_fail_the_run() {
    let mut ch = relay_channel("out/topic");
    ch.close_producers();
    let r = ch.run(vec![]);
    assert_eq!(r.end, RunEnd::Failed(MessageTesterError::ListenForIncomingPublications));
    assert!(r.handled.is_empty());
}

#[test]
fn dropped_producers_still_drain_what_was_queued_first() {
    let mut ch = relay_channel("out/topic");
    ch.send(msg("in/a", vec![1]));
    ch.send(msg("in/b", vec![2]));
    ch.close_producers();
    let r = ch.run(vec![ok_env(1), ok_env(2)]);
    assert_eq!(r.handled, vec![msg("in/a", vec![1]), msg("in/b", vec![2])]);
    assert_eq!(r.end, RunEnd::Failed(MessageTesterError::ListenForIncomingPublications));
}

#[test]
fn dropped_shutdown_senders_without_a_signal_fail_the_run() {
    let mut ch = relay_channel("out/topic");
    ch.close_shutdown();
    let r = ch.run(vec![]);
    assert_eq!(r.end, RunEnd::Failed(MessageTesterError::ListenForShutdown));
    assert!(r.handled.is_empty());
}

#[test]
fn first_collaborator_failure_stops_the_loop_without_draining() {
    let mut ch = report_channel("t1", "b1");
    for i in 0..4u8 {
        ch.send(msg(&format!("in/{i}"), vec![i]));
    }
    let envs = vec![
        ok_env(1),
        HandlerEnv { sequence_number: 2, created_at: 1_000, outcome: Err("boom".to_string()) },
        ok_env(3),
        ok_env(4),
    ];
    let r = ch.run(envs);
    assert_eq!(r.handled.len(), 2);
    assert_eq!(r.handled[1], msg("in/1", vec![1]));
    assert_eq!(r.end, RunEnd::Failed(MessageTesterError::ReportResult("boom".to_string())));
}

#[test]
fn relaying_collaborator_failure_is_wrapped_as_a_publish_error() {
    let mut ch = relay_channel("out/topic");
    ch.send(msg("in/a", vec![1]));
    let envs = vec![HandlerEnv {
        sequence_number: 1,
        created_at: 1_000,
        outcome: Err("broken pipe".to_string()),
    }];
    let r = ch.run(envs);
    assert_eq!(r.end, RunEnd::Failed(MessageTesterError::Publish("broken pipe".to_string())));
}

#[test]
fn each_observed_event_decides_the_protocols_step() {
    let m = msg("in/a", vec![1]);
    assert_eq!(next_step(ChannelEvent::Received(m.clone())), LoopStep::Dispatch(m));
    assert_eq!(
        next_step(ChannelEvent::InboundClosed),
        LoopStep::Stop(Err(MessageTesterError::ListenForIncomingPublications))
    );
    assert_eq!(next_step(ChannelEvent::ShutdownSignal), LoopStep::Stop(Ok(())));
    assert_eq!(
        next_step(ChannelEvent::ShutdownClosed),
        LoopStep::Stop(Err(MessageTesterError::ListenForShutdown))
    );
}

#[test]
fn a_fresh_channel_waits_for_input() {
    let ch = relay_channel("out/topic");
    let r = ch.run(vec![]);
    assert!(matches!(r.end, RunEnd::Waiting(_)));
    assert!(r.handled.is_empty());
}
