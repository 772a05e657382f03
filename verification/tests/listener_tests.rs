use simnation::frame::{read_frame, FrameRead, FRAME_LEN};
use simnation::listener::{
    stream_event, LinkDirective, LinkEvent, Listener, MockSwitch, StreamDirective, StreamEvent,
    FRAME_PAUSE_MS, MOCK_PAUSE_MS, RETRY_PAUSE_MS,
};

#[test]
fn mock_switch_toggles() {
    let mut m = MockSwitch::new();
    assert!(!m.active);
    assert!(m.toggle());
    assert!(m.active);
    assert!(!m.toggle());
    assert!(!m.active);
}

#[test]
fn listener_connects_and_reports_once() {
    let mut l = Listener::new();
    assert_eq!(
        l.on_link(LinkEvent::MappingAbsent),
        LinkDirective::AwaitGame { report_lost: false, pause_ms: RETRY_PAUSE_MS }
    );
    assert_eq!(l.on_link(LinkEvent::ViewMapped), LinkDirective::Stream { report_connected: true });
    assert!(l.connected);
    assert_eq!(l.on_link(LinkEvent::ViewMapped), LinkDirective::Stream { report_connected: false });
    assert_eq!(
        l.on_link(LinkEvent::MappingAbsent),
        LinkDirective::AwaitGame { report_lost: true, pause_ms: 1000 }
    );
    assert_eq!(
        l.on_link(LinkEvent::MappingAbsent),
        LinkDirective::AwaitGame { report_lost: false, pause_ms: 1000 }
    );
}

#[test]
fn listener_mock_and_refused_views() {
    let mut l = Listener::new();
    assert_eq!(l.on_link(LinkEvent::MockRequested), LinkDirective::PublishMock { pause_ms: 33 });
    assert_eq!(MOCK_PAUSE_MS, 33);
    assert_eq!(
        l.on_link(LinkEvent::ViewRefused),
        LinkDirective::ReleaseAndAwait { pause_ms: 1000 }
    );
    assert_eq!(l, Listener::new());
    l.on_link(LinkEvent::ViewMapped);
    assert_eq!(
        l.on_stream(StreamEvent::MockRequested),
        StreamDirective::Stop { report_waiting: false }
    );
    assert!(l.connected);
}

#[test]
fn listener_pulses_every_sixty_frames() {
    let mut l = Listener::new();
    l.on_link(LinkEvent::ViewMapped);
    for i in 1..=180u32 {
        let d = l.on_stream(StreamEvent::Frame);
        assert_eq!(
            d,
            StreamDirective::Publish { report_pulse: i % 60 == 0, pause_ms: FRAME_PAUSE_MS }
        );
    }
    assert_eq!(l.frames, 0);
}

#[test]
fn listener_reports_idle_sdk_once() {
    let mut l = Listener::new();
    l.on_link(LinkEvent::ViewMapped);
    assert_eq!(l.on_stream(StreamEvent::SdkIdle), StreamDirective::Stop { report_waiting: true });
    assert!(!l.connected);
    assert_eq!(l.on_link(LinkEvent::MappingAbsent), LinkDirective::AwaitGame {
        report_lost: false,
        pause_ms: 1000
    });
    assert_eq!(l.on_link(LinkEvent::ViewMapped), LinkDirective::Stream { report_connected: true });
    assert_eq!(l.on_stream(StreamEvent::SdkIdle), StreamDirective::Stop { report_waiting: true });
    l.on_link(LinkEvent::ViewRefused);
    assert_eq!(l.on_stream(StreamEvent::SdkIdle), StreamDirective::Stop { report_waiting: false });
}

#[test]
fn listener_counter_restarts_on_each_mapping() {
    let mut l = Listener::new();
    l.on_link(LinkEvent::ViewMapped);
    for _ in 0..59 {
        l.on_stream(StreamEvent::Frame);
    }
    assert_eq!(l.frames, 59);
    l.on_stream(StreamEvent::MockRequested);
    l.on_link(LinkEvent::ViewMapped);
    assert_eq!(l.frames, 0);
}

#[test]
fn stream_events_from_frame_reads() {
    let idle = vec![0u8; FRAME_LEN];
    let mut live = vec![0u8; FRAME_LEN];
    live[0] = 1;
    assert_eq!(stream_event(&read_frame(&idle)), StreamEvent::SdkIdle);
    assert_eq!(stream_event(&read_frame(&live)), StreamEvent::Frame);
    assert_eq!(stream_event(&FrameRead::TooShort), StreamEvent::SdkIdle);
}
