//! The session controller: a state machine that is told what happened and
//! answers what to do next. Its caller opens the stream, reads packets, runs
//! the decoder and reads the clock; the controller counts frames, applies the
//! sampling gate and enforces the wall-clock budget.

use vstd::prelude::*;
use crate::error::{FatalError, FrameError};
use crate::sampler::{is_selected, selected};

verus! {

/// The four phases of a session.
#[derive(Clone, Copy, Debug, PartialEq, Eq, Structural)]
pub enum Phase {
    /// The source is being opened and the decoder set up.
    Initializing,
    /// Packets are read and frames decoded.
    Streaming,
    /// No further packet is read; the session winds down.
    Draining,
    /// The session is over and its summary is final.
    Terminated,
}

/// What the controller is waiting to be told.
#[derive(Clone, Copy, Debug, PartialEq, Eq, Structural)]
pub enum Awaiting {
    /// Whether the source could be opened.
    Source,
    /// The next packet, or the end of the stream.
    Packet,
    /// Whether the decoder took the packet.
    Feed,
    /// The next decoded frame, or that the decoder has none.
    Frame,
    /// What became of the sampled frame.
    Handling,
    /// The elapsed time.
    Clock,
    /// That the source and the decoder are released.
    Close,
    /// Nothing: the session is over.
    Nothing,
}

/// Why a session ended.
#[derive(Clone, Copy, Debug, PartialEq, Eq, Structural)]
pub enum Ending {
    /// The wall-clock budget was used up.
    Budget,
    /// The source had no more packets.
    EndOfStream,
    /// The session could not start.
    Fatal(FatalError),
}

/// What became of one sampled frame.
#[derive(Clone, Copy, Debug, PartialEq, Eq, Structural)]
pub enum FrameOutcome {
    /// The image was written and its row stored.
    Recorded,
    /// The frame's output was given up.
    Failed(FrameError),
}

/// What the caller reports to the controller.
#[derive(Clone, Copy, Debug, PartialEq, Eq)]
pub enum Event {
    /// The source is open, `video_stream` is the index of the stream chosen,
    /// and the decoder and the converter are set up.
    SourceReady { video_stream: usize },
    /// The session could not be set up.
    SourceFailed { error: FatalError },
    /// A packet of the stream with index `stream_index` was read.
    Packet { stream_index: usize },
    /// The source has no more packets; `elapsed_nanos` have passed since the
    /// start.
    EndOfStream { elapsed_nanos: u128 },
    /// The decoder took the packet.
    FeedAccepted,
    /// The decoder refused the packet.
    FeedRejected,
    /// The decoder gave out a frame with this timestamp, if it has one.
    FrameDecoded { pts: Option<i64> },
    /// The decoder has no further frame for this packet.
    DecoderDry,
    /// The sampled frame has been dealt with.
    FrameHandled { outcome: FrameOutcome },
    /// `elapsed_nanos` have passed since the start.
    Clock { elapsed_nanos: u128 },
    /// The source and the decoder are released.
    Closed,
}

/// The final counters of a session.
#[derive(Clone, Copy, Debug, PartialEq, Eq)]
pub struct Summary {
    /// The number of frames decoded.
    pub frames_decoded: u128,
    /// The time that had passed when the session stopped reading.
    pub elapsed_nanos: u128,
    /// Whether the budget ended the session.
    pub budget_triggered: bool,
}

/// What the controller asks of its caller.
#[derive(Clone, Copy, Debug, PartialEq, Eq)]
pub enum Action {
    /// Read the next packet from the source.
    ReadPacket,
    /// Hand the packet just read to the decoder.
    FeedDecoder,
    /// Ask the decoder for its next frame.
    ReceiveFrame,
    /// Convert, write and record the frame just decoded, which has this
    /// ordinal and this timestamp (zero where the decoder gave none).
    ProcessFrame { ordinal: u128, pts: i64 },
    /// Read the clock.
    ReadClock,
    /// Release the source and the decoder.
    Close,
    /// The session is over: report its counters.
    Report { summary: Summary },
    /// The session could not start: give up with this error.
    Abort { error: FatalError },
    /// The event does not answer what was asked; nothing has changed.
    Rejected,
}

/// Everything the controller knows.
#[derive(Clone, Copy, Debug, PartialEq, Eq)]
pub struct State {
    pub awaiting: Awaiting,
    /// The sampling stride.
    pub interval: u32,
    /// The wall-clock budget.
    pub budget_nanos: u128,
    /// The index of the video stream, once the source is open.
    pub video_stream: usize,
    /// The number of frames decoded so far; the ordinal of the last one.
    pub frames_decoded: u128,
    /// The reading of the clock that stopped the session.
    pub elapsed_nanos: u128,
    /// Why the session ended, once it has.
    pub ending: Option<Ending>,
}

/// The phase that a controller waiting for `awaiting` is in.
pub open spec fn phase_of(awaiting: Awaiting) -> Phase {
    match awaiting {
        Awaiting::Source => Phase::Initializing,
        Awaiting::Close => Phase::Draining,
        Awaiting::Nothing => Phase::Terminated,
        _ => Phase::Streaming,
    }
}

/// The state of a session that is about to open its source.
pub open spec fn fresh(interval: u32, budget_nanos: u128) -> State {
    State {
        awaiting: Awaiting::Source,
        interval,
        budget_nanos,
        video_stream: 0,
        frames_decoded: 0,
        elapsed_nanos: 0,
        ending: None,
    }
}

/// The states a controller can be in: the stride is at least one, no frame
/// is counted before the source is open, a session has an ending exactly when
/// it reads no more, and one that the budget ended ran for at least the budget.
pub open spec fn consistent(s: State) -> bool {
    &&& s.interval >= 1
    &&& s.awaiting == Awaiting::Source ==> s.frames_decoded == 0
    &&& s.ending is Some <==> (s.awaiting == Awaiting::Close || s.awaiting == Awaiting::Nothing)
    &&& s.ending == Some(Ending::Budget) ==> s.elapsed_nanos >= s.budget_nanos
    &&& s.ending matches Some(Ending::Fatal(_)) ==> s.awaiting == Awaiting::Nothing
        && s.frames_decoded == 0
}

/// The counters of a state.
pub open spec fn summary_of(s: State) -> Summary {
    Summary {
        frames_decoded: s.frames_decoded,
        elapsed_nanos: s.elapsed_nanos,
        budget_triggered: s.ending == Some(Ending::Budget),
    }
}

/// The state in which the session has stopped reading for the reason
/// `ending`, at `elapsed_nanos`.
pub open spec fn stopped(s: State, ending: Ending, elapsed_nanos: u128) -> State {
    State { awaiting: Awaiting::Close, elapsed_nanos, ending: Some(ending), ..s }
}

/// One transition: the state after `event`, and what is asked next.
///
/// An event that does not answer what the controller last asked for is
/// rejected and changes nothing. So is a decoded frame once the counter has
/// reached the largest ordinal it can hold.
pub open spec fn step_spec(s: State, event: Event) -> (State, Action) {
    match (s.awaiting, event) {
        (Awaiting::Source, Event::SourceReady { video_stream }) => (
            State { awaiting: Awaiting::Packet, video_stream, ..s },
            Action::ReadPacket,
        ),
        (Awaiting::Source, Event::SourceFailed { error }) => (
            State { awaiting: Awaiting::Nothing, ending: Some(Ending::Fatal(error)), ..s },
            Action::Abort { error },
        ),
        (Awaiting::Packet, Event::Packet { stream_index }) => if stream_index == s.video_stream {
            (State { awaiting: Awaiting::Feed, ..s }, Action::FeedDecoder)
        } else {
            (State { awaiting: Awaiting::Clock, ..s }, Action::ReadClock)
        },
        (Awaiting::Packet, Event::EndOfStream { elapsed_nanos }) => (
            stopped(s, Ending::EndOfStream, elapsed_nanos),
            Action::Close,
        ),
        (Awaiting::Feed, Event::FeedAccepted) => (
            State { awaiting: Awaiting::Frame, ..s },
            Action::ReceiveFrame,
        ),
        (Awaiting::Feed, Event::FeedRejected) => (
            State { awaiting: Awaiting::Clock, ..s },
            Action::ReadClock,
        ),
        (Awaiting::Frame, Event::FrameDecoded { pts }) => if s.frames_decoded == u128::MAX {
            (s, Action::Rejected)
        } else {
            let ordinal = (s.frames_decoded + 1) as u128;
            if selected(ordinal as nat, s.interval as nat) {
                (
                    State { awaiting: Awaiting::Handling, frames_decoded: ordinal, ..s },
                    Action::ProcessFrame {
                        ordinal,
                        pts: match pts {
                            Some(p) => p,
                            None => 0,
                        },
                    },
                )
            } else {
                (State { frames_decoded: ordinal, ..s }, Action::ReceiveFrame)
            }
        },
        (Awaiting::Frame, Event::DecoderDry) => (
            State { awaiting: Awaiting::Clock, ..s },
            Action::ReadClock,
        ),
        (Awaiting::Handling, Event::FrameHandled { outcome }) => (
            State { awaiting: Awaiting::Frame, ..s },
            Action::ReceiveFrame,
        ),
        (Awaiting::Clock, Event::Clock { elapsed_nanos }) => if elapsed_nanos >= s.budget_nanos {
            (stopped(s, Ending::Budget, elapsed_nanos), Action::Close)
        } else {
            (State { awaiting: Awaiting::Packet, ..s }, Action::ReadPacket)
        },
        (Awaiting::Close, Event::Closed) => (
            State { awaiting: Awaiting::Nothing, ..s },
            Action::Report { summary: summary_of(s) },
        ),
        _ => (s, Action::Rejected),
    }
}

/// The controller of one session.
pub struct Controller {
    state: State,
}

impl View for Controller {
    type V = State;

    closed spec fn view(&self) -> State {
        self.state
    }
}

impl Controller {
    /// What every controller satisfies.
    pub open spec fn wf(&self) -> bool {
        consistent(self@)
    }

    /// A controller for a session that samples every `interval`-th frame and
    /// runs for `budget_nanos` at most. A stride of zero is refused here,
    /// before anything is opened or read.
    pub fn new(interval: u32, budget_nanos: u128) -> (made: Result<Controller, FatalError>)
        ensures
            match made {
                Ok(controller) => interval >= 1 && controller@ == fresh(interval, budget_nanos)
                    && controller.wf(),
                Err(error) => interval == 0 && error == FatalError::InvalidInterval,
            },
    {
        if interval == 0 {
            Err(FatalError::InvalidInterval)
        } else {
            Ok(
                Controller {
                    state: State {
                        awaiting: Awaiting::Source,
                        interval,
                        budget_nanos,
                        video_stream: 0,
                        frames_decoded: 0,
                        elapsed_nanos: 0,
                        ending: None,
                    },
                },
            )
        }
    }

    /// Takes in `event` and answers what to do next.
    pub fn step(&mut self, event: Event) -> (action: Action)
        requires
            old(self).wf(),
        ensures
            final(self).wf(),
            (final(self)@, action) == step_spec(old(self)@, event),
    {
        let s: State = self.state;
        match (s.awaiting, event) {
            (Awaiting::Source, Event::SourceReady { video_stream }) => {
                self.state.awaiting = Awaiting::Packet;
                self.state.video_stream = video_stream;
                Action::ReadPacket
            },
            (Awaiting::Source, Event::SourceFailed { error }) => {
                self.state.awaiting = Awaiting::Nothing;
                self.state.ending = Some(Ending::Fatal(error));
                Action::Abort { error }
            },
            (Awaiting::Packet, Event::Packet { stream_index }) => {
                if stream_index == s.video_stream {
                    self.state.awaiting = Awaiting::Feed;
                    Action::FeedDecoder
                } else {
                    self.state.awaiting = Awaiting::Clock;
                    Action::ReadClock
                }
            },
            (Awaiting::Packet, Event::EndOfStream { elapsed_nanos }) => {
                self.state.awaiting = Awaiting::Close;
                self.state.elapsed_nanos = elapsed_nanos;
                self.state.ending = Some(Ending::EndOfStream);
                Action::Close
            },
            (Awaiting::Feed, Event::FeedAccepted) => {
                self.state.awaiting = Awaiting::Frame;
                Action::ReceiveFrame
            },
            (Awaiting::Feed, Event::FeedRejected) => {
                self.state.awaiting = Awaiting::Clock;
                Action::ReadClock
            },
            (Awaiting::Frame, Event::FrameDecoded { pts }) => {
                if s.frames_decoded == u128::MAX {
                    Action::Rejected
                } else {
                    let ordinal: u128 = s.frames_decoded + 1;
                    self.state.frames_decoded = ordinal;
                    if is_selected(ordinal, s.interval) {
                        self.state.awaiting = Awaiting::Handling;
                        let pts: i64 = match pts {
                            Some(p) => p,
                            None => 0,
                        };
                        Action::ProcessFrame { ordinal, pts }
                    } else {
                        Action::ReceiveFrame
                    }
                }
            },
            (Awaiting::Frame, Event::DecoderDry) => {
                self.state.awaiting = Awaiting::Clock;
                Action::ReadClock
            },
            (Awaiting::Handling, Event::FrameHandled { outcome }) => {
                self.state.awaiting = Awaiting::Frame;
                Action::ReceiveFrame
            },
            (Awaiting::Clock, Event::Clock { elapsed_nanos }) => {
                if elapsed_nanos >= s.budget_nanos {
                    self.state.awaiting = Awaiting::Close;
                    self.state.elapsed_nanos = elapsed_nanos;
                    self.state.ending = Some(Ending::Budget);
                    Action::Close
                } else {
                    self.state.awaiting = Awaiting::Packet;
                    Action::ReadPacket
                }
            },
            (Awaiting::Close, Event::Closed) => {
                self.state.awaiting = Awaiting::Nothing;
                Action::Report {
                    summary: Summary {
                        frames_decoded: s.frames_decoded,
                        elapsed_nanos: s.elapsed_nanos,
                        budget_triggered: matches!(s.ending, Some(Ending::Budget)),
                    },
                }
            },
            _ => Action::Rejected,
        }
    }

    /// The phase the session is in.
    pub fn phase(&self) -> (phase: Phase)
        ensures
            phase == phase_of(self@.awaiting),
    {
        match self.state.awaiting {
            Awaiting::Source => Phase::Initializing,
            Awaiting::Close => Phase::Draining,
            Awaiting::Nothing => Phase::Terminated,
            _ => Phase::Streaming,
        }
    }

    /// A copy of the state.
    pub fn state(&self) -> (state: State)
        ensures
            state == self@,
    {
        self.state
    }

    /// The number of frames decoded so far.
    pub fn frames_decoded(&self) -> (frames: u128)
        ensures
            frames == self@.frames_decoded,
    {
        self.state.frames_decoded
    }

    /// The counters as they stand.
    pub fn summary(&self) -> (summary: Summary)
        ensures
            summary == summary_of(self@),
    {
        Summary {
            frames_decoded: self.state.frames_decoded,
            elapsed_nanos: self.state.elapsed_nanos,
            budget_triggered: matches!(self.state.ending, Some(Ending::Budget)),
        }
    }
}

} // verus!
