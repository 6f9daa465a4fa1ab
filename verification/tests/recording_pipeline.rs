use flock::attitude::AttitudeCell;
use flock::attitude::AttitudeSample;
use flock::frames::FrameChannel;
use flock::frames::FramePoll;
use flock::frames::PixelFrame;
use flock::recorder::PumpEvent;
use flock::recorder::RecorderState;
use flock::recorder::RecordingWorker;
use flock::recorder::ShutdownStep;
use flock::recorder::NOMINAL_FRAMES_PER_SECOND;
use flock::server::handle_message;
use flock::server::InboundMessage;
use flock::server::MessageOutcome;

fn frame(width: u32, height: u32, fill: u8) -> PixelFrame {
    let data = vec![fill; (width as usize) * (height as usize) * 4];
    PixelFrame::new(width, height, data).unwrap()
}

#[test]
fn pixel_frame_checks_buffer_length() {
    let ok = PixelFrame::new(2, 2, vec![0u8; 16]);
    assert!(ok.is_ok());
    let bad = PixelFrame::new(2, 2, vec![7u8; 15]);
    match bad {
        Err(data) => assert_eq!(data, vec![7u8; 15]),
        Ok(_) => panic!("a short buffer must be refused"),
    }
}

#[test]
fn send_backpressure_returns_the_frame() {
    let mut ch = FrameChannel::new(1);
    assert!(ch.send(frame(2, 2, 1)).is_ok());
    match ch.send(frame(2, 2, 9)) {
        Err(refused) => assert_eq!(refused.data, vec![9u8; 16]),
        Ok(()) => panic!("a full channel must refuse the frame"),
    }
    assert_eq!(ch.queued(), 1);
}

#[test]
fn send_after_close_is_refused() {
    let mut ch = FrameChannel::new(4);
    ch.close();
    assert!(ch.is_closed());
    match ch.send(frame(2, 2, 3)) {
        Err(refused) => assert_eq!(refused.data, vec![3u8; 16]),
        Ok(()) => panic!("a closed channel must refuse the frame"),
    }
    ch.close();
    assert!(ch.is_closed());
}

#[test]
fn recv_distinguishes_waiting_from_end_of_stream() {
    let mut ch = FrameChannel::new(2);
    assert!(matches!(ch.recv(), FramePoll::Empty));
    ch.send(frame(1, 1, 5)).unwrap();
    ch.close();
    match ch.recv() {
        FramePoll::Received(f) => assert_eq!(f.data, vec![5u8; 4]),
        _ => panic!("the queued frame must still come out after close"),
    }
    assert!(matches!(ch.recv(), FramePoll::Disconnected));
}

#[test]
fn frames_cross_in_order_with_consecutive_ticks() {
    let mut ch = FrameChannel::new(8);
    for fill in 0u8..5u8 {
        ch.send(frame(2, 3, fill)).unwrap();
    }
    let mut worker = RecordingWorker::new(2, 3);
    worker.launch_succeeded();
    let outs = worker.pump_available(&mut ch);
    assert_eq!(outs.len(), 5);
    for (i, out) in outs.iter().enumerate() {
        assert_eq!(out.frame.data, vec![i as u8; 24]);
        assert_eq!(out.timestamp_ticks, i as u64);
    }
    assert_eq!(ch.queued(), 0);
    assert_eq!(worker.current_state(), RecorderState::Streaming);
    assert_eq!(worker.frames_delivered(), 5);
    assert_eq!(NOMINAL_FRAMES_PER_SECOND, 10);
}

#[test]
fn close_drains_queued_frames_then_shutdown_once() {
    let mut ch = FrameChannel::new(8);
    for fill in 1u8..4u8 {
        ch.send(frame(2, 2, fill)).unwrap();
    }
    ch.close();

    let mut worker = RecordingWorker::new(2, 2);
    worker.launch_succeeded();
    let outs = worker.pump_available(&mut ch);
    assert_eq!(outs.len(), 3);
    for (i, out) in outs.iter().enumerate() {
        assert_eq!(out.frame.data, vec![(i + 1) as u8; 16]);
    }
    assert_eq!(worker.current_state(), RecorderState::Draining);

    let steps = worker.shutdown();
    assert_eq!(
        steps,
        vec![ShutdownStep::CloseInput, ShutdownStep::SignalTerminate, ShutdownStep::AwaitExit],
    );
    assert_eq!(worker.current_state(), RecorderState::Stopped);
    assert_eq!(worker.frames_delivered(), 3);

    let again = worker.shutdown();
    assert!(again.is_empty());
    assert_eq!(worker.current_state(), RecorderState::Stopped);
    assert_eq!(worker.frames_delivered(), 3);
}

#[test]
fn poll_frame_waits_while_producer_is_active() {
    let mut ch = FrameChannel::new(2);
    let mut worker = RecordingWorker::new(2, 2);
    worker.launch_succeeded();
    assert!(matches!(worker.poll_frame(&mut ch), PumpEvent::NoFrameYet));
    assert_eq!(worker.current_state(), RecorderState::Streaming);
    ch.send(frame(2, 2, 8)).unwrap();
    match worker.poll_frame(&mut ch) {
        PumpEvent::Delivered(out) => {
            assert_eq!(out.frame.data, vec![8u8; 16]);
            assert_eq!(out.timestamp_ticks, 0);
        },
        _ => panic!("a queued frame must be delivered"),
    }
    ch.close();
    assert!(matches!(worker.poll_frame(&mut ch), PumpEvent::InputExhausted));
    assert_eq!(worker.current_state(), RecorderState::Draining);
}

#[test]
fn interleaved_sends_and_polls_keep_fifo_order() {
    let mut ch = FrameChannel::new(4);
    let mut worker = RecordingWorker::new(1, 1);
    worker.launch_succeeded();

    ch.send(frame(1, 1, 10)).unwrap();
    ch.send(frame(1, 1, 20)).unwrap();
    match worker.poll_frame(&mut ch) {
        PumpEvent::Delivered(out) => assert_eq!(out.frame.data, vec![10u8; 4]),
        _ => panic!("oldest frame first"),
    }
    ch.send(frame(1, 1, 30)).unwrap();
    match worker.poll_frame(&mut ch) {
        PumpEvent::Delivered(out) => assert_eq!(out.frame.data, vec![20u8; 4]),
        _ => panic!("queue order is send order"),
    }
    match worker.poll_frame(&mut ch) {
        PumpEvent::Delivered(out) => {
            assert_eq!(out.frame.data, vec![30u8; 4]);
            assert_eq!(out.timestamp_ticks, 2);
        },
        _ => panic!("no frame may be lost"),
    }
    assert!(matches!(worker.poll_frame(&mut ch), PumpEvent::NoFrameYet));
}

#[test]
fn launch_failure_is_reported_and_ingestion_continues() {
    let mut worker = RecordingWorker::new(1920, 1080);
    assert_eq!(worker.current_state(), RecorderState::Starting);
    worker.launch_failed();
    assert_eq!(worker.current_state(), RecorderState::Stopped);
    assert!(worker.launch_failure_reported());
    assert!(!worker.stream_failure_reported());
    assert!(worker.shutdown().is_empty());

    let mut cell = AttitudeCell::new(AttitudeSample {
        heading: "0".to_string(),
        pitch: "0".to_string(),
        roll: "0".to_string(),
    });
    cell.set_connected(true);
    let body = InboundMessage::Text("{\"heading\":1,\"pitch\":2,\"roll\":3}".to_string());
    assert_eq!(handle_message(&mut cell, &body), MessageOutcome::Stored);
    assert_eq!(cell.read().heading, "1");
    assert!(cell.is_connected());
}

#[test]
fn write_failure_aborts_streaming_to_terminating() {
    let mut worker = RecordingWorker::new(4, 4);
    worker.launch_succeeded();
    worker.write_failed();
    assert_eq!(worker.current_state(), RecorderState::Terminating);
    assert!(worker.stream_failure_reported());
    let steps = worker.shutdown();
    assert_eq!(steps.len(), 3);
    assert_eq!(worker.current_state(), RecorderState::Stopped);
}
