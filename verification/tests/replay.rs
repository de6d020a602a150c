use frame_sampler::error::{FatalError, FrameError};
use frame_sampler::session::{Action, Controller, Event, FrameOutcome, Phase, Summary};
use frame_sampler::trace::replay;

/// One packet of the video stream that yields `frames` frames, with the
/// answers a caller gives when every frame is sampled and `outcome` becomes of
/// each.
fn packet_events(frames: usize, elapsed_nanos: u128, outcome: FrameOutcome) -> Vec<Event> {
    let mut events = vec![Event::Packet { stream_index: 0 }, Event::FeedAccepted];
    for _ in 0..frames {
        events.push(Event::FrameDecoded { pts: Some(40) });
        events.push(Event::FrameHandled { outcome });
    }
    events.push(Event::DecoderDry);
    events.push(Event::Clock { elapsed_nanos });
    events
}

#[test]
fn replay_of_nothing_asks_for_nothing() {
    let mut controller = Controller::new(3, 10).unwrap();
    let before = controller.state();
    assert_eq!(replay(&mut controller, &[]), Vec::<Action>::new());
    assert_eq!(controller.state(), before);
}

#[test]
fn replay_answers_as_the_steps_do() {
    let mut events = vec![Event::SourceReady { video_stream: 0 }];
    events.extend(packet_events(3, 4, FrameOutcome::Recorded));
    events.extend(packet_events(0, 6, FrameOutcome::Recorded));
    events.push(Event::Packet { stream_index: 9 });
    events.push(Event::Clock { elapsed_nanos: 12 });
    events.push(Event::Closed);
    events.push(Event::Closed);

    let mut stepped = Controller::new(1, 10).unwrap();
    let expected: Vec<Action> = events.iter().map(|e| stepped.step(*e)).collect();

    let mut replayed = Controller::new(1, 10).unwrap();
    let actions = replay(&mut replayed, &events);
    assert_eq!(actions, expected);
    assert_eq!(replayed.state(), stepped.state());
    assert_eq!(replayed.phase(), Phase::Terminated);
    assert_eq!(
        actions[actions.len() - 2],
        Action::Report {
            summary: Summary { frames_decoded: 3, elapsed_nanos: 12, budget_triggered: true }
        }
    );
    assert_eq!(actions[actions.len() - 1], Action::Rejected);
}

#[test]
fn replay_samples_the_multiples_of_the_stride() {
    let mut events = vec![
        Event::SourceReady { video_stream: 0 },
        Event::Packet { stream_index: 0 },
        Event::FeedAccepted,
    ];
    for _ in 0..1000 {
        events.push(Event::FrameDecoded { pts: None });
        events.push(Event::FrameHandled { outcome: FrameOutcome::Recorded });
    }
    for interval in [1u32, 4, 7, 250, 1001] {
        let mut controller = Controller::new(interval, 10).unwrap();
        let actions = replay(&mut controller, &events);
        let ordinals: Vec<u128> = actions
            .iter()
            .filter_map(|a| match a {
                Action::ProcessFrame { ordinal, .. } => Some(*ordinal),
                _ => None,
            })
            .collect();
        let frames = controller.frames_decoded();
        let expected: Vec<u128> = (1..=frames).filter(|c| c % (interval as u128) == 0).collect();
        assert_eq!(ordinals, expected);
    }
}

#[test]
fn runs_that_differ_in_outcomes_alone_are_the_same() {
    let mut calm = vec![Event::SourceReady { video_stream: 0 }];
    let mut troubled = calm.clone();
    for (i, failure) in [
        FrameError::ConversionFailed,
        FrameError::EncodeFailed,
        FrameError::IOWriteFailed,
        FrameError::InsertFailed,
    ]
    .into_iter()
    .enumerate()
    {
        calm.extend(packet_events(2 + i, i as u128, FrameOutcome::Recorded));
        troubled.extend(packet_events(2 + i, i as u128, FrameOutcome::Failed(failure)));
    }
    let mut first = Controller::new(1, 100).unwrap();
    let mut second = Controller::new(1, 100).unwrap();
    assert_eq!(replay(&mut first, &calm), replay(&mut second, &troubled));
    assert_eq!(first.state(), second.state());
    assert_eq!(first.frames_decoded(), 2 + 3 + 4 + 5);
}

#[test]
fn nothing_is_read_once_the_budget_is_reached() {
    let mut events = vec![Event::SourceReady { video_stream: 0 }];
    events.extend(packet_events(1, 99, FrameOutcome::Recorded));
    events.extend(packet_events(1, 100, FrameOutcome::Recorded));
    let before_stop = events.len();
    events.extend(packet_events(5, 101, FrameOutcome::Recorded));
    events.push(Event::EndOfStream { elapsed_nanos: 500 });
    let mut controller = Controller::new(1, 100).unwrap();
    let actions = replay(&mut controller, &events);
    assert_eq!(actions[before_stop - 1], Action::Close);
    for action in &actions[before_stop..] {
        assert_eq!(*action, Action::Rejected);
    }
    assert_eq!(controller.frames_decoded(), 2);
    assert_eq!(controller.summary().elapsed_nanos, 100);
    assert!(controller.summary().budget_triggered);
    assert_eq!(controller.phase(), Phase::Draining);
}

#[test]
fn failed_setup_processes_nothing() {
    let mut events = vec![Event::SourceFailed { error: FatalError::NoVideoStream }];
    events.extend(packet_events(3, 1, FrameOutcome::Recorded));
    let mut controller = Controller::new(1, 100).unwrap();
    let actions = replay(&mut controller, &events);
    assert_eq!(actions[0], Action::Abort { error: FatalError::NoVideoStream });
    for action in &actions[1..] {
        assert_eq!(*action, Action::Rejected);
    }
    assert_eq!(controller.frames_decoded(), 0);
    assert_eq!(controller.phase(), Phase::Terminated);
}
