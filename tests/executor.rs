use std::sync::Arc;
use std::time::Duration;

use erdos_exec::condition::ConditionContext;
use erdos_exec::config::OperatorConfig;
use erdos_exec::deadline::{Deadline, DeadlineEvent, SetupContext, TimestampDeadline};
use erdos_exec::event::{Callback, OperatorEvent, OperatorType, DATA_PRIORITY, FLOW_WATERMARK_PRIORITY};
use erdos_exec::helper::OperatorExecutorHelper;
use erdos_exec::lifecycle::{Lifecycle, LifecycleAction, LifecycleInput, Phase};
use erdos_exec::message::Message;
use erdos_exec::notification::{EventNotification, WorkerNotification};
use erdos_exec::one_in_one_out::OneInOneOutExecutor;
use erdos_exec::one_in_two_out::{OneInTwoOutMessageProcessor, ParallelOneInTwoOutMessageProcessor};
use erdos_exec::processor::{OneInMessageProcessorT, TwoInMessage};
use erdos_exec::sink::SinkMessageProcessor;
use erdos_exec::timer::DeadlineReceiver;
use erdos_exec::timestamp::Timestamp;
use erdos_exec::two_in_one_out::TwoInOneOutMessageProcessor;
use erdos_exec::watermark::WatermarkMerger;

fn ts(t: u64) -> Timestamp {
    Timestamp::new(vec![t])
}

fn config(flow: bool) -> OperatorConfig {
    OperatorConfig::new(7, 1, String::from("op"), flow)
}

fn data(t: u64, x: u64) -> Arc<Message<u64>> {
    Arc::new(Message::new_message(ts(t), x))
}

fn watermark(t: u64) -> Arc<Message<u64>> {
    Arc::new(Message::new_watermark(ts(t)))
}

fn no_deadlines() -> SetupContext {
    SetupContext::new(vec![1])
}

/// Plays an identity operator on one output for the given events, in order.
fn run_identity(events: &[OperatorEvent<Arc<Message<u64>>>], out: &mut Vec<Message<u64>>) {
    for ev in events {
        match &ev.callback {
            Callback::Data { message, .. } => {
                let x = *message.data().unwrap();
                out.push(Message::new_message(ev.timestamp.clone(), x));
            }
            Callback::Watermark { flow_watermarks, .. } => {
                if *flow_watermarks {
                    out.push(Message::new_watermark(ev.timestamp.clone()));
                }
            }
        }
    }
}

fn is_data(m: &Message<u64>, t: u64, x: u64) -> bool {
    match m {
        Message::TimestampedData(tt, y) => tt.same_as(&ts(t)) && *y == x,
        _ => false,
    }
}

fn is_watermark_at(m: &Message<u64>, t: &Timestamp) -> bool {
    match m {
        Message::Watermark(tt) => tt.same_as(t),
        _ => false,
    }
}

fn receive_deadline(rx: &DeadlineReceiver, wait_ms: u64) -> Option<DeadlineEvent> {
    let runtime = tokio::runtime::Builder::new_current_thread().enable_time().build().unwrap();
    runtime.block_on(async {
        tokio::time::timeout(Duration::from_millis(wait_ms), rx.receiver.receive())
            .await
            .ok()
            .flatten()
    })
}

#[test]
fn timestamp_order_and_min() {
    let bottom = Timestamp::Bottom;
    let top = Timestamp::Top;
    let a = Timestamp::new(vec![1, 2]);
    let b = Timestamp::new(vec![1, 3]);
    let c = Timestamp::new(vec![1]);
    assert!(bottom.less_than(&a));
    assert!(a.less_than(&top));
    assert!(bottom.less_than(&top));
    assert!(a.less_than(&b));
    assert!(!b.less_than(&a));
    assert!(c.less_than(&a));
    assert!(!a.less_than(&a));
    assert!(!top.less_than(&top));
    assert!(a.same_as(&Timestamp::new(vec![1, 2])));
    assert!(!a.same_as(&b));
    assert!(Timestamp::min_of(&b, &a).same_as(&a));
    assert!(Timestamp::min_of(&top, &bottom).same_as(&bottom));
    assert!(top.is_top());
    assert!(!a.is_top());
}

#[test]
fn message_accessors() {
    let d = Message::new_message(ts(3), 11u64);
    let w: Message<u64> = Message::new_watermark(ts(4));
    assert_eq!(d.data(), Some(&11));
    assert!(!d.is_watermark());
    assert!(d.timestamp().same_as(&ts(3)));
    assert_eq!(w.data(), None);
    assert!(w.is_watermark());
    assert!(w.timestamp().same_as(&ts(4)));
}

#[test]
fn arm_deadlines_selects_constrained_and_started() {
    let (exec, _rx) = OneInOneOutExecutor::new(config(true), 1, 100);
    let mut setup = SetupContext::new(vec![1]);
    setup.add_deadline(Deadline::TimestampDeadline(TimestampDeadline::new(vec![1])));
    setup.add_deadline(Deadline::TimestampDeadline(TimestampDeadline::new(vec![2])));
    setup.add_deadline(Deadline::TimestampDeadline(TimestampDeadline::new(vec![1, 2])));
    setup.add_deadline(Deadline::TimestampDeadline(TimestampDeadline::new(vec![1])));
    let started = vec![true, true, true, false];
    let durations = vec![50, 60, 70, 80];
    let armed = OneInMessageProcessorT::<u64>::arm_deadlines(&exec, &setup, 1, &ts(5), &started, &durations);
    assert_eq!(armed.len(), 2);
    assert_eq!(armed[0].deadline_index, 0);
    assert_eq!(armed[0].duration_ms, 50);
    assert_eq!(armed[1].deadline_index, 2);
    assert_eq!(armed[1].duration_ms, 70);
    assert!(armed.iter().all(|e| e.stream_id == 1 && e.timestamp.same_as(&ts(5))));
}

#[test]
fn pass_through_one_in_one_out() {
    let (mut exec, _rx) = OneInOneOutExecutor::new(config(true), 1, 100);
    let mut helper = exec.take_helper().unwrap();
    let setup = no_deadlines();
    let mut out: Vec<Message<u64>> = Vec::new();
    for msg in [data(1, 7), watermark(1), data(2, 9), watermark(2)] {
        let batch = helper.process_stream_message(&mut exec, &setup, 1, msg, &vec![], &vec![]);
        assert_eq!(batch.notification, EventNotification::AddedEvents(7));
        run_identity(&batch.events, &mut out);
    }
    exec.return_helper(helper);
    if exec.cleanup(false) {
        out.push(Message::new_watermark(Timestamp::Top));
    }
    assert_eq!(out.len(), 5);
    assert!(is_data(&out[0], 1, 7));
    assert!(is_watermark_at(&out[1], &ts(1)));
    assert!(is_data(&out[2], 2, 9));
    assert!(is_watermark_at(&out[3], &ts(2)));
    assert!(is_watermark_at(&out[4], &Timestamp::Top));
}

#[test]
fn one_in_one_out_event_shapes() {
    let (mut exec, _rx) = OneInOneOutExecutor::new(config(true), 1, 100);
    let d = exec.message_cb_event(data(3, 1));
    assert!(!d.is_watermark);
    assert_eq!(d.priority, DATA_PRIORITY);
    assert!(d.write_ids.is_empty());
    assert_eq!(d.operator_type, OperatorType::ReadOnly);
    let w = OneInMessageProcessorT::<u64>::watermark_cb_event(&mut exec, &ts(3));
    assert!(w.is_watermark);
    assert_eq!(w.priority, FLOW_WATERMARK_PRIORITY);
    assert_eq!(w.write_ids, vec![100]);
    let (mut quiet, _rx2) = OneInOneOutExecutor::new(config(false), 1, 100);
    let w2 = OneInMessageProcessorT::<u64>::watermark_cb_event(&mut quiet, &ts(3));
    assert_eq!(w2.priority, DATA_PRIORITY);
    assert_eq!(w2.write_ids, vec![100]);
    assert!(matches!(w2.callback, Callback::Watermark { flow_watermarks: false, .. }));
}

#[test]
fn data_priority_not_above_watermark() {
    for flow in [true, false] {
        let (mut exec, _rx) = OneInOneOutExecutor::new(config(flow), 1, 100);
        let d = exec.message_cb_event(data(4, 1));
        let w = OneInMessageProcessorT::<u64>::watermark_cb_event(&mut exec, &ts(4));
        assert!(d.priority <= w.priority);
    }
}

#[test]
fn watermark_merge_two_inputs() {
    let helper = OperatorExecutorHelper::new(7).0;
    let processor = TwoInOneOutMessageProcessor::new(config(true), 100);
    let mut merger = WatermarkMerger::new();
    let inputs: Vec<TwoInMessage<u64, u64>> = vec![
        TwoInMessage::Left(watermark(1)),
        TwoInMessage::Left(watermark(3)),
        TwoInMessage::Right(watermark(2)),
        TwoInMessage::Right(watermark(4)),
    ];
    let mut emitted: Vec<Timestamp> = Vec::new();
    for msg in inputs {
        let batch = helper.process_two_streams_message(&processor, &mut merger, msg);
        for ev in batch.events {
            assert!(ev.is_watermark);
            assert_eq!(ev.priority, FLOW_WATERMARK_PRIORITY);
            emitted.push(ev.timestamp);
        }
    }
    emitted.push(Timestamp::Top);
    assert_eq!(emitted.len(), 3);
    assert!(emitted[0].same_as(&ts(2)));
    assert!(emitted[1].same_as(&ts(3)));
    assert!(emitted[2].is_top());
}

#[test]
fn merged_watermark_strictly_increases() {
    let mut merger = WatermarkMerger::new();
    let steps = [(true, 1), (false, 2), (true, 3), (false, 4), (true, 5), (false, 3), (true, 2)];
    let mut emitted: Vec<Timestamp> = Vec::new();
    for (left, t) in steps {
        if let Some(m) = merger.on_watermark(left, ts(t)) {
            emitted.push(m);
        }
    }
    assert_eq!(emitted.len(), 4);
    assert!(emitted[0].same_as(&ts(1)));
    assert!(emitted[1].same_as(&ts(2)));
    assert!(emitted[2].same_as(&ts(3)));
    assert!(emitted[3].same_as(&ts(4)));
    for i in 1..emitted.len() {
        assert!(emitted[i - 1].less_than(&emitted[i]));
    }
    assert!(merger.merged().same_as(&ts(4)));
}

#[test]
fn non_advancing_watermark_gives_no_event() {
    let helper = OperatorExecutorHelper::new(7).0;
    let processor = TwoInOneOutMessageProcessor::new(config(true), 100);
    let mut merger = WatermarkMerger::new();
    let b = helper.process_two_streams_message(&processor, &mut merger, TwoInMessage::<u64, u64>::Left(watermark(5)));
    assert!(b.events.is_empty());
    let b = helper.process_two_streams_message(&processor, &mut merger, TwoInMessage::<u64, u64>::Right(watermark(5)));
    assert_eq!(b.events.len(), 1);
    let b = helper.process_two_streams_message(&processor, &mut merger, TwoInMessage::<u64, u64>::Right(watermark(5)));
    assert!(b.events.is_empty());
    let b = helper.process_two_streams_message(&processor, &mut merger, TwoInMessage::<u64, u64>::Left(watermark(4)));
    assert!(b.events.is_empty());
    assert!(merger.merged().same_as(&ts(5)));
}

#[test]
fn two_input_data_gives_stateless_and_stateful_events() {
    let helper = OperatorExecutorHelper::new(7).0;
    let processor = TwoInOneOutMessageProcessor::new(config(false), 100);
    let mut merger = WatermarkMerger::new();
    let b = helper.process_two_streams_message(&processor, &mut merger, TwoInMessage::<u64, u64>::Right(data(2, 42)));
    assert_eq!(b.events.len(), 2);
    for (ev, stateful) in b.events.iter().zip([false, true]) {
        assert!(ev.timestamp.same_as(&ts(2)));
        match &ev.callback {
            Callback::Data { message: TwoInMessage::Right(m), stateful: s } => {
                assert_eq!(*s, stateful);
                assert_eq!(m.data(), Some(&42));
            }
            _ => panic!("expected a right data callback"),
        }
    }
    assert_eq!(b.events[0].write_ids, Vec::<u64>::new());
    assert_eq!(b.events[1].write_ids, vec![100]);
    assert_eq!(b.events[1].operator_type, OperatorType::Sequential);
}

#[test]
fn duplicate_deadline_arms_once() {
    let (mut helper, _rx) = OperatorExecutorHelper::new(7);
    let ev = DeadlineEvent::new(1, ts(1), 10_000, 0);
    helper.manage_deadlines(vec![ev.clone(), ev.clone()]);
    assert_eq!(helper.num_active_deadlines(), 1);
    helper.manage_deadlines(vec![ev.clone()]);
    assert_eq!(helper.num_active_deadlines(), 1);
    assert!(helper.has_active_deadline(1, &ts(1)));
    helper.manage_deadlines(vec![DeadlineEvent::new(1, ts(2), 10_000, 0), DeadlineEvent::new(2, ts(1), 10_000, 0)]);
    assert_eq!(helper.num_active_deadlines(), 3);
}

fn deadline_setup() -> SetupContext {
    let mut setup = SetupContext::new(vec![1]);
    setup.add_deadline(Deadline::TimestampDeadline(TimestampDeadline::new(vec![1])));
    setup
}

#[test]
fn deadline_miss_invokes_handler() {
    let (mut exec, rx) = OneInOneOutExecutor::new(config(true), 1, 100);
    let mut helper = exec.take_helper().unwrap();
    let setup = deadline_setup();
    helper.process_stream_message(&mut exec, &setup, 1, data(1, 5), &vec![true], &vec![50]);
    assert!(helper.has_active_deadline(1, &ts(1)));
    let fired = receive_deadline(&rx, 2000).expect("the deadline fires");
    assert_eq!(fired.stream_id, 1);
    assert!(fired.timestamp.same_as(&ts(1)));
    // Only one datum was emitted at timestamp 1: the end condition is unmet.
    let mut emitted = ConditionContext::new();
    emitted.record(&Message::new_message(ts(1), 5u64));
    let end_held = emitted.data_count(&fired.timestamp) >= 2;
    let outcome = helper.process_deadline::<u64, _>(&exec, &fired, end_held);
    assert!(outcome.invoke_handler);
    assert!(outcome.key_found);
    assert!(!helper.has_active_deadline(1, &ts(1)));
    assert!(receive_deadline(&rx, 200).is_none());
}

#[test]
fn deadline_met_skips_handler() {
    let (mut exec, rx) = OneInOneOutExecutor::new(config(true), 1, 100);
    let mut helper = exec.take_helper().unwrap();
    let setup = deadline_setup();
    helper.process_stream_message(&mut exec, &setup, 1, data(1, 5), &vec![true], &vec![50]);
    // The start condition no longer holds for the second datum.
    helper.process_stream_message(&mut exec, &setup, 1, data(1, 6), &vec![false], &vec![50]);
    assert_eq!(helper.num_active_deadlines(), 1);
    // The operator forwarded both data downstream.
    let mut emitted = ConditionContext::new();
    emitted.record(&Message::new_message(ts(1), 5u64));
    emitted.record(&Message::new_message(ts(1), 6u64));
    let fired = receive_deadline(&rx, 2000).expect("the deadline fires");
    let end_held = emitted.data_count(&fired.timestamp) >= 2;
    let outcome = helper.process_deadline::<u64, _>(&exec, &fired, end_held);
    assert!(!outcome.invoke_handler);
    assert!(outcome.key_found);
    assert_eq!(helper.num_active_deadlines(), 0);
}

#[test]
fn unknown_deadline_key_is_reported() {
    let (mut helper, _rx) = OperatorExecutorHelper::new(7);
    let processor = SinkMessageProcessor::new(config(false), None);
    let outcome = helper.process_deadline::<u64, _>(&processor, &DeadlineEvent::new(3, ts(9), 1, 0), false);
    assert!(!outcome.key_found);
    assert!(!outcome.invoke_handler);
}

#[test]
fn one_in_two_out_flows_watermarks() {
    let (mut helper, _rx) = OperatorExecutorHelper::new(7);
    let mut processor = OneInTwoOutMessageProcessor::new(config(true), 100);
    let setup = no_deadlines();
    let mut left: Vec<Message<u64>> = Vec::new();
    let mut right: Vec<Message<u64>> = Vec::new();
    for msg in [data(1, 10), watermark(1)] {
        let batch = helper.process_stream_message(&mut processor, &setup, 1, msg, &vec![], &vec![]);
        for ev in &batch.events {
            match &ev.callback {
                Callback::Data { message, .. } => {
                    assert_eq!(ev.operator_type, OperatorType::Sequential);
                    left.push(Message::new_message(ev.timestamp.clone(), message.data().unwrap() * 2));
                }
                Callback::Watermark { flow_watermarks, commit_state } => {
                    assert!(*commit_state);
                    if *flow_watermarks {
                        left.push(Message::new_watermark(ev.timestamp.clone()));
                        right.push(Message::new_watermark(ev.timestamp.clone()));
                    }
                }
            }
        }
    }
    let (send_left, send_right) = processor.cleanup(false, false);
    if send_left {
        left.push(Message::new_watermark(Timestamp::Top));
    }
    if send_right {
        right.push(Message::new_watermark(Timestamp::Top));
    }
    assert_eq!(left.len(), 3);
    assert!(is_data(&left[0], 1, 20));
    assert!(is_watermark_at(&left[1], &ts(1)));
    assert!(is_watermark_at(&left[2], &Timestamp::Top));
    assert_eq!(right.len(), 2);
    assert!(is_watermark_at(&right[0], &ts(1)));
    assert!(is_watermark_at(&right[1], &Timestamp::Top));
}

#[test]
fn parallel_processor_tags_events_parallel() {
    let mut processor = ParallelOneInTwoOutMessageProcessor::new(config(false), 100);
    let d = processor.message_cb_event(data(1, 1));
    assert_eq!(d.operator_type, OperatorType::Parallel);
    let w = OneInMessageProcessorT::<u64>::watermark_cb_event(&mut processor, &ts(1));
    assert_eq!(w.operator_type, OperatorType::Parallel);
    assert_eq!(w.priority, DATA_PRIORITY);
    assert!(matches!(w.callback, Callback::Watermark { flow_watermarks: false, commit_state: true }));
}

#[test]
fn cleanup_skips_closed_outputs() {
    let processor = ParallelOneInTwoOutMessageProcessor::new(config(true), 100);
    assert_eq!(processor.cleanup(true, false), (false, true));
    assert_eq!(processor.cleanup(false, true), (true, false));
    assert_eq!(processor.cleanup(true, true), (false, false));
    let (exec, _rx) = OneInOneOutExecutor::new(config(true), 1, 100);
    assert!(!exec.cleanup(true));
    assert!(exec.cleanup(false));
}

#[test]
fn sink_never_flows_watermarks() {
    let mut sink = SinkMessageProcessor::new(config(true), Some(100));
    let w = OneInMessageProcessorT::<u64>::watermark_cb_event(&mut sink, &ts(2));
    assert_eq!(w.priority, DATA_PRIORITY);
    assert!(matches!(w.callback, Callback::Watermark { flow_watermarks: false, .. }));
    assert_eq!(w.write_ids, vec![100]);
    let mut stateless = SinkMessageProcessor::new(config(true), None);
    let w = OneInMessageProcessorT::<u64>::watermark_cb_event(&mut stateless, &ts(2));
    assert!(w.write_ids.is_empty());
}

#[test]
fn empty_input_lifecycle() {
    let (mut exec, _rx) = OneInOneOutExecutor::new(config(true), 1, 100);
    let inputs = [
        LifecycleInput::Start,
        LifecycleInput::Synchronized,
        LifecycleInput::SetupDone,
        LifecycleInput::RunDone,
        LifecycleInput::StreamsEnded,
        LifecycleInput::Destroyed,
        LifecycleInput::CleanedUp,
    ];
    let actions: Vec<LifecycleAction> = inputs.iter().map(|i| exec.step(*i)).collect();
    assert_eq!(
        actions,
        vec![
            LifecycleAction::Synchronize,
            LifecycleAction::Setup,
            LifecycleAction::Run,
            LifecycleAction::ProcessStreams,
            LifecycleAction::Destroy,
            LifecycleAction::SendTopWatermarks,
            LifecycleAction::NotifyWorker(WorkerNotification::DestroyedOperator(7)),
        ]
    );
}

#[test]
fn shutdown_during_processing() {
    let (mut exec, _rx) = OneInOneOutExecutor::new(config(true), 1, 100);
    for i in [LifecycleInput::Start, LifecycleInput::Synchronized, LifecycleInput::SetupDone] {
        exec.step(i);
    }
    assert_eq!(exec.step(LifecycleInput::RunDone), LifecycleAction::ProcessStreams);
    let mut helper = exec.take_helper().unwrap();
    let batch = helper.process_stream_message(&mut exec, &no_deadlines(), 1, data(1, 3), &vec![], &vec![]);
    assert_eq!(batch.events.len(), 1);
    assert_eq!(exec.step(LifecycleInput::Shutdown), LifecycleAction::Destroy);
    // The stream ending afterwards, or a second shutdown, destroys nothing more.
    assert_eq!(exec.step(LifecycleInput::StreamsEnded), LifecycleAction::Nothing);
    assert_eq!(exec.step(LifecycleInput::Shutdown), LifecycleAction::Nothing);
    exec.return_helper(helper);
    assert_eq!(exec.step(LifecycleInput::Destroyed), LifecycleAction::SendTopWatermarks);
    assert_eq!(
        exec.step(LifecycleInput::CleanedUp),
        LifecycleAction::NotifyWorker(WorkerNotification::DestroyedOperator(7))
    );
    assert_eq!(exec.step(LifecycleInput::Destroyed), LifecycleAction::Nothing);
}

#[test]
fn source_lifecycle_skips_loop() {
    let mut lc = Lifecycle::new(3, false);
    assert_eq!(lc.step(LifecycleInput::Start), LifecycleAction::Synchronize);
    assert_eq!(lc.step(LifecycleInput::Synchronized), LifecycleAction::Setup);
    assert_eq!(lc.step(LifecycleInput::SetupDone), LifecycleAction::Run);
    assert_eq!(lc.step(LifecycleInput::RunDone), LifecycleAction::Destroy);
    assert_eq!(lc.phase(), Phase::Destroy);
}

#[test]
fn shutdown_during_synchronize_aborts_startup() {
    let mut lc = Lifecycle::new(3, true);
    lc.step(LifecycleInput::Start);
    assert_eq!(lc.step(LifecycleInput::WorkerChannelError), LifecycleAction::Destroy);
    assert_eq!(lc.step(LifecycleInput::Synchronized), LifecycleAction::Nothing);
    assert_eq!(lc.phase(), Phase::Destroy);
}

#[test]
fn condition_context_counts_per_timestamp() {
    let mut ctx = ConditionContext::new();
    assert_eq!(ctx.data_count(&ts(1)), 0);
    ctx.record(&Message::new_message(ts(1), 1u64));
    ctx.record(&Message::new_message(ts(1), 2u64));
    ctx.record(&Message::new_message(ts(2), 3u64));
    ctx.record(&Message::<u64>::new_watermark(ts(1)));
    assert_eq!(ctx.data_count(&ts(1)), 2);
    assert_eq!(ctx.watermark_count(&ts(1)), 1);
    assert_eq!(ctx.data_count(&ts(2)), 1);
    assert_eq!(ctx.watermark_count(&ts(2)), 0);
    assert_eq!(ctx.data_count(&Timestamp::Top), 0);
    ctx.record(&Message::<u64>::new_watermark(Timestamp::Top));
    assert_eq!(ctx.watermark_count(&Timestamp::Top), 1);
    assert_eq!(ctx.data_count(&ts(1)), 2);
}

#[test]
fn duplicate_deadline_fires_once_with_its_duration() {
    let (mut helper, rx) = OperatorExecutorHelper::new(7);
    let ev = DeadlineEvent::new(1, ts(1), 40, 0);
    helper.manage_deadlines(vec![ev.clone(), ev.clone()]);
    helper.manage_deadlines(vec![ev.clone()]);
    let fired = receive_deadline(&rx, 2000).expect("one timer fires");
    assert_eq!(fired.duration_ms, 40);
    assert!(fired.timestamp.same_as(&ts(1)));
    assert!(receive_deadline(&rx, 300).is_none());
}

#[test]
fn notifier_down_still_destroys_and_cleans_up() {
    let mut lc = Lifecycle::new(3, true);
    for i in [LifecycleInput::Start, LifecycleInput::Synchronized, LifecycleInput::SetupDone] {
        lc.step(i);
    }
    assert_eq!(lc.step(LifecycleInput::RunDone), LifecycleAction::ProcessStreams);
    assert_eq!(lc.step(LifecycleInput::NotifierDown), LifecycleAction::Destroy);
    assert_eq!(lc.step(LifecycleInput::Destroyed), LifecycleAction::SendTopWatermarks);
    assert_eq!(
        lc.step(LifecycleInput::CleanedUp),
        LifecycleAction::NotifyWorker(WorkerNotification::DestroyedOperator(3))
    );
}
