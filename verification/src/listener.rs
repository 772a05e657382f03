//! The hub's shared-memory listener as a state machine: what to do on each
//! look for the game's telemetry block, and on each frame while streaming.
//! The caller performs the returned directive (log, publish, pause, release
//! the mapping) and reports what it found next.

use vstd::prelude::*;
use crate::frame::FrameRead;

verus! {

/// A progress line is logged once every this many published frames.
pub const PULSE_EVERY: u32 = 60;
/// The pause after publishing a mock frame.
pub const MOCK_PAUSE_MS: u64 = 33;
/// The pause before looking for the block again after a failed look.
pub const RETRY_PAUSE_MS: u64 = 1000;
/// The pause between two published frames.
pub const FRAME_PAUSE_MS: u64 = 33;

/// The radio's pause between two mock frames.
pub const MOCK_TICK_MS: u64 = 100;

/// What the listener remembers between looks and frames.
#[derive(Clone, Copy, Debug, PartialEq, Eq, Structural)]
pub struct Listener {
    /// The last look found the block with the SDK publishing.
    pub connected: bool,
    /// "SDK not sending" has been logged since the last fresh connection.
    pub waiting_reported: bool,
    /// Frames published since the last progress line (or since streaming
    /// began).
    pub frames: u32,
}

/// What a look for the block found.
#[derive(Clone, Copy, Debug, PartialEq, Eq, Structural)]
pub enum LinkEvent {
    /// Mock telemetry is switched on.
    MockRequested,
    /// The named mapping does not exist.
    MappingAbsent,
    /// The mapping exists but could not be viewed.
    ViewRefused,
    /// The block is mapped and readable.
    ViewMapped,
}

/// What to do after a look.
#[derive(Clone, Copy, Debug, PartialEq, Eq, Structural)]
pub enum LinkDirective {
    /// Publish a mock frame, pause, and look again.
    PublishMock { pause_ms: u64 },
    /// Log the loss of the connection (with the OS error) if asked, pause,
    /// and look again.
    AwaitGame { report_lost: bool, pause_ms: u64 },
    /// Release the mapping handle, pause, and look again.
    ReleaseAndAwait { pause_ms: u64 },
    /// Log the fresh connection if asked, then stream frames.
    Stream { report_connected: bool },
}

/// What one frame look found while streaming.
#[derive(Clone, Copy, Debug, PartialEq, Eq, Structural)]
pub enum StreamEvent {
    /// Mock telemetry is switched on.
    MockRequested,
    /// The SDK is not publishing.
    SdkIdle,
    /// A frame is available.
    Frame,
}

/// What to do after a frame look.
#[derive(Clone, Copy, Debug, PartialEq, Eq, Structural)]
pub enum StreamDirective {
    /// Log "SDK not sending" if asked, release the view and the mapping, and
    /// go back to looking for the block.
    Stop { report_waiting: bool },
    /// Log a progress line if asked, publish the frame, pause, and read the
    /// next one.
    Publish { report_pulse: bool, pause_ms: u64 },
}

impl Listener {
    /// The frame counter stays below the progress period.
    pub open spec fn wf(self) -> bool {
        self.frames < PULSE_EVERY
    }
}

/// The listener's state and directive after a look.
pub open spec fn link_next(s: Listener, e: LinkEvent) -> (Listener, LinkDirective) {
    match e {
        LinkEvent::MockRequested => (s, LinkDirective::PublishMock { pause_ms: MOCK_PAUSE_MS as u64 }),
        LinkEvent::MappingAbsent => (
            Listener { connected: false, ..s },
            LinkDirective::AwaitGame { report_lost: s.connected, pause_ms: RETRY_PAUSE_MS as u64 },
        ),
        LinkEvent::ViewRefused => (s, LinkDirective::ReleaseAndAwait { pause_ms: RETRY_PAUSE_MS as u64 }),
        LinkEvent::ViewMapped => (
            Listener {
                connected: true,
                waiting_reported: if s.connected { s.waiting_reported } else { false },
                frames: 0,
            },
            LinkDirective::Stream { report_connected: !s.connected },
        ),
    }
}

/// The listener's state and directive after a frame look.
pub open spec fn stream_next(s: Listener, e: StreamEvent) -> (Listener, StreamDirective) {
    match e {
        StreamEvent::MockRequested => (s, StreamDirective::Stop { report_waiting: false }),
        StreamEvent::SdkIdle => (
            Listener { connected: false, waiting_reported: true, ..s },
            StreamDirective::Stop { report_waiting: !s.waiting_reported },
        ),
        StreamEvent::Frame => {
            let pulse = s.frames + 1 >= PULSE_EVERY;
            (
                Listener { frames: if pulse { 0 } else { (s.frames + 1) as u32 }, ..s },
                StreamDirective::Publish { report_pulse: pulse, pause_ms: FRAME_PAUSE_MS as u64 },
            )
        },
    }
}

/// How a frame look is read: a block too short to hold the fields counts as
/// one whose SDK is not publishing.
pub open spec fn stream_event_of(read: FrameRead) -> StreamEvent {
    match read {
        FrameRead::Live(_) => StreamEvent::Frame,
        _ => StreamEvent::SdkIdle,
    }
}

/// How a frame look is read.
pub fn stream_event(read: &FrameRead) -> (e: StreamEvent)
    ensures
        e == stream_event_of(*read),
{
    match read {
        FrameRead::Live(_) => StreamEvent::Frame,
        _ => StreamEvent::SdkIdle,
    }
}

impl Listener {
    /// The listener when the service starts: not connected, nothing
    /// reported, no frames counted.
    pub fn new() -> (s: Listener)
        ensures
            s.wf(),
            !s.connected,
            !s.waiting_reported,
            s.frames == 0,
    {
        Listener { connected: false, waiting_reported: false, frames: 0 }
    }

    /// Takes in what a look for the block found.
    pub fn on_link(&mut self, e: LinkEvent) -> (d: LinkDirective)
        requires
            old(self).wf(),
        ensures
            final(self).wf(),
            (*final(self), d) == link_next(*old(self), e),
    {
        match e {
            LinkEvent::MockRequested => LinkDirective::PublishMock { pause_ms: MOCK_PAUSE_MS },
            LinkEvent::MappingAbsent => {
                let report_lost = self.connected;
                self.connected = false;
                LinkDirective::AwaitGame { report_lost, pause_ms: RETRY_PAUSE_MS }
            },
            LinkEvent::ViewRefused => LinkDirective::ReleaseAndAwait { pause_ms: RETRY_PAUSE_MS },
            LinkEvent::ViewMapped => {
                let report_connected = !self.connected;
                if !self.connected {
                    self.connected = true;
                    self.waiting_reported = false;
                }
                self.frames = 0;
                LinkDirective::Stream { report_connected }
            },
        }
    }

    /// Takes in what a frame look found while streaming.
    pub fn on_stream(&mut self, e: StreamEvent) -> (d: StreamDirective)
        requires
            old(self).wf(),
        ensures
            final(self).wf(),
            (*final(self), d) == stream_next(*old(self), e),
    {
        match e {
            StreamEvent::MockRequested => StreamDirective::Stop { report_waiting: false },
            StreamEvent::SdkIdle => {
                let report_waiting = !self.waiting_reported;
                self.waiting_reported = true;
                self.connected = false;
                StreamDirective::Stop { report_waiting }
            },
            StreamEvent::Frame => {
                let next = self.frames + 1;
                let pulse = next >= PULSE_EVERY;
                self.frames = if pulse { 0 } else { next };
                StreamDirective::Publish { report_pulse: pulse, pause_ms: FRAME_PAUSE_MS }
            },
        }
    }
}

/// Mock requests never change what the listener remembers.
pub proof fn mock_requests_leave_state_alone(s: Listener)
    ensures
        link_next(s, LinkEvent::MockRequested).0 == s,
        stream_next(s, StreamEvent::MockRequested).0 == s,
{
}

/// A lost connection is reported once: only when the previous look had the
/// block connected, so two failed looks in a row report at most once.
pub proof fn lost_connection_reported_once(s: Listener)
    ensures
        link_next(s, LinkEvent::MappingAbsent).1 == (LinkDirective::AwaitGame {
            report_lost: s.connected,
            pause_ms: RETRY_PAUSE_MS as u64,
        }),
        link_next(link_next(s, LinkEvent::MappingAbsent).0, LinkEvent::MappingAbsent).1
            == (LinkDirective::AwaitGame { report_lost: false, pause_ms: RETRY_PAUSE_MS as u64 }),
{
}

/// A connection is reported once: a second mapped look in a row does not
/// report it again, and streaming always starts with a fresh frame count.
pub proof fn connection_reported_once(s: Listener)
    ensures
        link_next(s, LinkEvent::ViewMapped).1 == (LinkDirective::Stream {
            report_connected: !s.connected,
        }),
        link_next(link_next(s, LinkEvent::ViewMapped).0, LinkEvent::ViewMapped).1
            == (LinkDirective::Stream { report_connected: false }),
        link_next(s, LinkEvent::ViewMapped).0.frames == 0,
{
}

/// "SDK not sending" is reported at most once until a fresh connection:
/// after it, further idle looks stay quiet, and only a mapped look that
/// starts from a lost connection clears it.
pub proof fn waiting_reported_once(s: Listener, e: LinkEvent)
    ensures
        ({
            let after = stream_next(s, StreamEvent::SdkIdle).0;
            &&& after.waiting_reported
            &&& !after.connected
            &&& stream_next(after, StreamEvent::SdkIdle).1 == (StreamDirective::Stop {
                report_waiting: false,
            })
            &&& (link_next(after, e).0.waiting_reported == (e != LinkEvent::ViewMapped))
            &&& (e == LinkEvent::ViewMapped ==> link_next(after, e).1 == (LinkDirective::Stream {
                report_connected: true,
            }))
        }),
{
}

/// The listener after `n` frames in a row.
pub open spec fn after_frames(s: Listener, n: nat) -> Listener
    decreases n,
{
    if n == 0 {
        s
    } else {
        stream_next(after_frames(s, (n - 1) as nat), StreamEvent::Frame).0
    }
}

/// Streaming from a fresh count, the progress line is due exactly on every
/// sixtieth frame: after `n` frames the count is `n` modulo the period, and
/// frame number `n + 1` reports progress just when `n + 1` is a multiple of
/// the period.
pub proof fn pulse_every_period(s: Listener, n: nat)
    requires
        s.frames == 0,
    ensures
        after_frames(s, n).frames == n % (PULSE_EVERY as nat),
        stream_next(after_frames(s, n), StreamEvent::Frame).1 == (StreamDirective::Publish {
            report_pulse: (n + 1) % (PULSE_EVERY as nat) == 0,
            pause_ms: FRAME_PAUSE_MS as u64,
        }),
    decreases n,
{
    if n > 0 {
        pulse_every_period(s, (n - 1) as nat);
    }
}

/// Every step keeps the frame count below the period.
pub proof fn steps_keep_count_bounded(s: Listener, l: LinkEvent, f: StreamEvent)
    requires
        s.wf(),
    ensures
        link_next(s, l).0.wf(),
        stream_next(s, f).0.wf(),
{
}

/// Whether mock telemetry is switched on.
pub struct MockSwitch {
    pub active: bool,
}

impl MockSwitch {
    /// Mock telemetry starts switched off.
    pub fn new() -> (m: MockSwitch)
        ensures
            !m.active,
    {
        MockSwitch { active: false }
    }

    /// Flips the switch and returns its new position.
    pub fn toggle(&mut self) -> (now_active: bool)
        ensures
            *final(self) == toggled(*old(self)),
            now_active == final(self).active,
    {
        self.active = !self.active;
        self.active
    }
}

/// The switch after one flip.
pub open spec fn toggled(m: MockSwitch) -> MockSwitch {
    MockSwitch { active: !m.active }
}

/// Flipping the switch always changes it, and flipping it twice puts it
/// back where it was.
pub proof fn toggle_twice_restores(m: MockSwitch)
    ensures
        toggled(m).active != m.active,
        toggled(toggled(m)) == m,
{
}

/// What each look leads to, from any state: mock telemetry is published at
/// the streaming rate; a missing or unviewable block is retried after a
/// second (an unviewable one with its handle released); a mapped block is
/// streamed. While streaming, mock telemetry or an idle SDK ends the stream
/// and a frame is published at about 30 frames a second, with a progress
/// line about every two seconds.
pub proof fn looks_lead_to_their_directives(s: Listener)
    ensures
        link_next(s, LinkEvent::MockRequested).1 == (LinkDirective::PublishMock {
            pause_ms: FRAME_PAUSE_MS as u64,
        }),
        (link_next(s, LinkEvent::MappingAbsent).1 matches LinkDirective::AwaitGame { pause_ms, .. }
            && pause_ms == 1000),
        link_next(s, LinkEvent::ViewRefused).1 == (LinkDirective::ReleaseAndAwait {
            pause_ms: 1000,
        }),
        (link_next(s, LinkEvent::ViewMapped).1 is Stream),
        link_next(s, LinkEvent::MappingAbsent).0 == (Listener { connected: false, ..s }),
        link_next(s, LinkEvent::ViewRefused).0 == s,
        link_next(s, LinkEvent::ViewMapped).0.connected,
        (stream_next(s, StreamEvent::MockRequested).1 is Stop),
        (stream_next(s, StreamEvent::SdkIdle).1 is Stop),
        !stream_next(s, StreamEvent::SdkIdle).0.connected,
        (stream_next(s, StreamEvent::Frame).1 matches StreamDirective::Publish { pause_ms, .. }
            && pause_ms == FRAME_PAUSE_MS),
        stream_next(s, StreamEvent::Frame).0.connected == s.connected,
        stream_next(s, StreamEvent::Frame).0.waiting_reported == s.waiting_reported,
        1000u64 / FRAME_PAUSE_MS == 30,
        1900 <= PULSE_EVERY * FRAME_PAUSE_MS <= 2100,
{
}

} // verus!
