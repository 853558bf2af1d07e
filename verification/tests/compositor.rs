use ion_channel::compositor::capabilities::{detect_best_mode, is_input_only_possible, CapabilityProvider};
use ion_channel::compositor::capture::tier::{CaptureTier, EnvironmentInfo, TierSelector};
use ion_channel::compositor::eis::{
    connect_to_eis, eis_socket_candidates, find_eis_socket, get_eis_capabilities, is_eis_available,
    EisCapabilities, EisError,
};
use ion_channel::compositor::rate_limiter::{RateLimiter, RateLimiterConfig};
use ion_channel::compositor::service::RemoteDesktopService;
use ion_channel::compositor::virtual_input::{
    MockVirtualInputSink, VirtualInput, VirtualInputEvent, VirtualInputSink,
};
use ion_channel::time::{Duration, Instant, MonotonicClock};
use ion_channel::types::device::DeviceType;
use ion_channel::types::error::{Error, InputError, SessionError};
use ion_channel::types::event::{Axis, ButtonState, Coord, InputEvent, KeyState};
use ion_channel::types::mode::RemoteDesktopMode;
use ion_channel::types::session::SessionId;

fn coord(v: f64) -> Coord {
    Coord::from_bits(v.to_bits())
}

fn at_ms(ms: u64) -> Instant {
    Instant::from_nanos(ms * 1_000_000)
}

fn selector(wayland: bool) -> TierSelector {
    TierSelector::with_env(EnvironmentInfo {
        is_vm: false,
        has_drm: false,
        wayland_display: if wayland { Some("wayland-0".to_string()) } else { None },
        has_runtime_dir: true,
        gpu_vendor: None,
    })
}

fn limiter(max: u32, burst: u32, window_secs: u64) -> RateLimiter {
    RateLimiter::new(RateLimiterConfig {
        max_events_per_sec: max,
        burst_limit: burst,
        window: Duration::from_secs(window_secs),
    })
}

#[test]
fn rate_limiter_allows_normal_traffic() {
    let mut l = limiter(100, 10, 1);
    let session = SessionId::new("/test/1");
    for i in 0..10 {
        assert!(l.check_at(&session, at_ms(1)).is_ok(), "event {i} should be allowed");
    }
}

#[test]
fn rate_limiter_blocks_burst() {
    let mut l = limiter(1000, 5, 60);
    let session = SessionId::new("/test/burst");
    for i in 0..5 {
        assert!(l.check_at(&session, at_ms(1)).is_ok(), "event {} should be allowed", i + 1);
    }
    let result = l.check_at(&session, at_ms(1));
    assert!(matches!(
        result,
        Err(Error::Input(InputError::RateLimitExceeded { events_per_sec: 5, max: 5 }))
    ));
}

#[test]
fn rate_limiter_per_session() {
    let mut l = limiter(100, 5, 60);
    let s1 = SessionId::new("/test/1");
    let s2 = SessionId::new("/test/2");
    for _ in 0..5 {
        l.check_at(&s1, at_ms(1)).unwrap();
    }
    assert!(l.check_at(&s1, at_ms(1)).is_err());
    assert!(l.check_at(&s2, at_ms(1)).is_ok());
}

#[test]
fn rate_limiter_cleanup() {
    let mut l = RateLimiter::with_defaults();
    let session = SessionId::new("/test/cleanup");
    l.check_at(&session, at_ms(1)).unwrap();
    assert_eq!(l.session_count(), 1);
    l.remove_session(&session);
    assert_eq!(l.session_count(), 0);
}

#[test]
fn burst_resets_after_a_tenth_of_the_window() {
    let mut l = limiter(1000, 2, 1);
    let s = SessionId::new("/s");
    assert!(l.check_at(&s, at_ms(0)).is_ok());
    assert!(l.check_at(&s, at_ms(0)).is_ok());
    assert!(l.check_at(&s, at_ms(50)).is_err());
    assert!(l.check_at(&s, at_ms(101)).is_ok());
}

#[test]
fn rate_limit_refuses_over_max_rate() {
    let mut l = limiter(3, 100, 1);
    let s = SessionId::new("/s");
    for _ in 0..3 {
        assert!(l.check_at(&s, at_ms(10)).is_ok());
    }
    assert_eq!(l.current_rate(&s), 3);
    assert!(matches!(
        l.check_at(&s, at_ms(10)),
        Err(Error::Input(InputError::RateLimitExceeded { events_per_sec: 3, max: 3 }))
    ));
    // Events older than the window no longer count.
    assert!(l.check_at(&s, at_ms(1_200)).is_ok());
}

#[test]
fn accepted_events_never_exceed_burst() {
    let mut l = limiter(1_000_000, 7, 1);
    let s = SessionId::new("/flood");
    let allowed = (0..1000).filter(|_| l.check_at(&s, at_ms(5)).is_ok()).count();
    assert_eq!(allowed, 7);
}

#[test]
fn rate_limiter_configs() {
    let p = RateLimiterConfig::permissive();
    assert_eq!((p.max_events_per_sec, p.burst_limit), (10_000, 1000));
    let s = RateLimiterConfig::strict();
    assert_eq!((s.max_events_per_sec, s.burst_limit), (500, 50));
    let d = RateLimiterConfig::default();
    assert_eq!((d.max_events_per_sec, d.burst_limit, d.window), (1000, 100, Duration::from_secs(1)));
}

#[test]
fn test_eis_not_available() {
    assert!(matches!(connect_to_eis(false), Err(EisError::ServerNotRunning)));
    let found = connect_to_eis(true);
    assert!(found.is_err());
    assert!(found.unwrap_err().message().starts_with("EIS not available: COSMIC EIS server"));
}

#[test]
fn test_eis_capabilities() {
    let caps = get_eis_capabilities();
    assert!(caps.pointer);
    assert!(caps.keyboard);
    assert!(!caps.touch);
    assert_eq!(caps, EisCapabilities::default());
}

#[test]
fn eis_socket_search() {
    let c = eis_socket_candidates("/run/user/1000");
    assert_eq!(c, vec!["/run/user/1000/eis-0".to_string(), "/run/user/1000/cosmic-eis".to_string()]);
    assert_eq!(find_eis_socket(&c, &vec![false, true]), Some(1));
    assert_eq!(find_eis_socket(&c, &vec![true, true]), Some(0));
    assert_eq!(find_eis_socket(&c, &vec![false, false]), None);
    assert!(is_eis_available(&vec![false, true]));
    assert!(!is_eis_available(&vec![false, false]));
}

#[test]
fn capability_provider_probes() {
    let mut provider = CapabilityProvider::new(selector(true));
    assert!(!provider.is_probed());
    provider.probe();
    assert!(provider.is_probed());
    let mode = provider.best_mode();
    assert!(mode.has_input());
}

#[test]
fn capability_summary() {
    let mut provider = CapabilityProvider::new(selector(true));
    provider.probe();
    let summary = provider.summary();
    assert!(summary.contains("Capture:"));
    assert!(summary.contains("Input:"));
    assert!(summary.contains("Mode:"));
}

#[test]
fn detect_best_mode_works() {
    assert_eq!(detect_best_mode(selector(true)), RemoteDesktopMode::Full);
    assert_eq!(detect_best_mode(selector(false)), RemoteDesktopMode::InputOnly);
    assert!(is_input_only_possible(selector(false)));
}

#[test]
fn provider_capture_tier_after_probe() {
    let mut provider = CapabilityProvider::new(selector(true));
    assert_eq!(provider.capture_tier(), None);
    provider.probe();
    assert_eq!(provider.capture_tier(), Some(CaptureTier::Shm));
    assert!(provider.input_available());
}

#[test]
fn virtual_input_event_new() {
    let event = VirtualInputEvent::new(SessionId::new("/session/1"), InputEvent::pointer_motion(coord(1.0), coord(2.0)), &mut MonotonicClock::start());
    assert_eq!(event.session_id.as_str(), "/session/1");
    assert!(event.event.is_pointer());
}

#[test]
fn virtual_input_event_age() {
    let event = VirtualInputEvent::new_at(SessionId::new("/test"), InputEvent::TouchUp { slot: 0 }, at_ms(10));
    assert!(event.age_at(at_ms(20)) >= Duration::from_millis(10));
}

#[test]
fn virtual_input_event_clone() {
    let event = VirtualInputEvent::new(SessionId::new("/test"), InputEvent::pointer_motion(coord(1.0), coord(2.0)), &mut MonotonicClock::start());
    let cloned = event.clone();
    assert_eq!(event.session_id, cloned.session_id);
    assert_eq!(event.event, cloned.event);
}

#[test]
fn virtual_input_event_debug() {
    let event = VirtualInputEvent::new(SessionId::new("/test"), InputEvent::pointer_motion(coord(1.0), coord(2.0)), &mut MonotonicClock::start());
    let debug = format!("{:?}", event);
    assert!(debug.contains("VirtualInputEvent"));
}

#[test]
fn virtual_input_new_custom_buffer() {
    let mut handler = VirtualInput::new(10);
    for i in 0..10 {
        let e = VirtualInputEvent::new(SessionId::new(&format!("/test/{}", i)), InputEvent::pointer_motion(coord(i as f64), coord(0.0)), &mut MonotonicClock::start());
        assert!(handler.try_submit(e).is_ok());
    }
    let overflow = VirtualInputEvent::new(SessionId::new("/test/x"), InputEvent::TouchUp { slot: 1 }, &mut MonotonicClock::start());
    assert!(handler.try_submit(overflow).is_err());
    let mut sink = MockVirtualInputSink::new();
    let count = handler.process_pending(&mut sink);
    assert_eq!(count, 10);
}

#[test]
fn virtual_input_try_recv_empty() {
    let mut handler = VirtualInput::with_defaults();
    assert!(handler.try_recv().is_none());
}

#[test]
fn virtual_input_try_recv_with_event() {
    let mut handler = VirtualInput::with_defaults();
    handler
        .try_submit(VirtualInputEvent::new(SessionId::new("/test"), InputEvent::pointer_motion(coord(1.0), coord(2.0)), &mut MonotonicClock::start()))
        .unwrap();
    let event = handler.try_recv();
    assert!(event.is_some());
    assert!(event.unwrap().event.is_pointer());
}

#[test]
fn virtual_input_time_since_last_event() {
    let mut handler = VirtualInput::with_defaults();
    assert!(handler.time_since_last_event_at(at_ms(0)).is_none());
    handler
        .try_submit(VirtualInputEvent::new(SessionId::new("/test"), InputEvent::TouchUp { slot: 2 }, &mut MonotonicClock::start()))
        .unwrap();
    let mut sink = MockVirtualInputSink::new();
    handler.process_pending_at(&mut sink, at_ms(100));
    assert_eq!(handler.time_since_last_event_at(at_ms(130)), Some(Duration::from_millis(30)));
    assert_eq!(handler.events_processed(), 1);
}

#[test]
fn virtual_input_process_all_event_types() {
    let mut handler = VirtualInput::with_defaults();
    let mut sink = MockVirtualInputSink::new();
    let events = vec![
        InputEvent::PointerMotion { dx: coord(1.0), dy: coord(2.0) },
        InputEvent::PointerMotionAbsolute { stream: 0, x: coord(100.0), y: coord(200.0) },
        InputEvent::PointerButton { button: 1, state: ButtonState::Pressed },
        InputEvent::PointerAxis { dx: coord(0.0), dy: coord(-10.0) },
        InputEvent::PointerAxisDiscrete { axis: Axis::Vertical, steps: -1 },
        InputEvent::KeyboardKeycode { keycode: 30, state: KeyState::Pressed },
        InputEvent::KeyboardKeysym { keysym: 0x61, state: KeyState::Pressed },
        InputEvent::TouchDown { stream: 0, slot: 0, x: coord(10.0), y: coord(20.0) },
        InputEvent::TouchMotion { stream: 0, slot: 0, x: coord(15.0), y: coord(25.0) },
        InputEvent::TouchUp { slot: 0 },
    ];
    for event in events.iter() {
        handler.try_submit(VirtualInputEvent::new(SessionId::new("/test"), *event, &mut MonotonicClock::start())).unwrap();
    }
    let count = handler.process_pending(&mut sink);
    assert_eq!(count, 10);
    assert_eq!(sink.events.len(), 10);
    assert_eq!(sink.events, events);
}

#[test]
fn virtual_input_basic_flow() {
    let mut handler = VirtualInput::with_defaults();
    let mut sink = MockVirtualInputSink::new();
    handler
        .try_submit(VirtualInputEvent::new(SessionId::new("/test/1"), InputEvent::pointer_motion(coord(10.0), coord(5.0)), &mut MonotonicClock::start()))
        .unwrap();
    handler
        .try_submit(VirtualInputEvent::new(SessionId::new("/test/1"), InputEvent::left_click(true), &mut MonotonicClock::start()))
        .unwrap();
    let count = handler.process_pending(&mut sink);
    assert_eq!(count, 2);
    assert_eq!(handler.events_processed(), 2);
    assert!(sink.events[0].is_pointer());
    assert!(matches!(sink.events[1], InputEvent::PointerButton { state: ButtonState::Pressed, .. }));
}

#[test]
fn mock_sink_new() {
    let sink = MockVirtualInputSink::new();
    assert!(sink.events.is_empty());
}

#[test]
fn mock_sink_inject_all_types() {
    let mut sink = MockVirtualInputSink::new();
    sink.inject_pointer_motion(coord(1.0), coord(2.0));
    sink.inject_pointer_motion_absolute(0, coord(100.0), coord(200.0));
    sink.inject_pointer_button(1, ButtonState::Pressed);
    sink.inject_pointer_axis(coord(0.0), coord(-10.0));
    sink.inject_pointer_axis_discrete(Axis::Vertical, -1);
    sink.inject_keyboard_keycode(30, KeyState::Pressed);
    sink.inject_keyboard_keysym(0x61, KeyState::Released);
    sink.inject_touch_down(0, 0, coord(10.0), coord(20.0));
    sink.inject_touch_motion(0, 0, coord(15.0), coord(25.0));
    sink.inject_touch_up(0);
    assert_eq!(sink.events.len(), 10);
}

fn service() -> RemoteDesktopService {
    RemoteDesktopService::new(RateLimiter::new(RateLimiterConfig::permissive()))
}

#[test]
fn service_session_lifecycle() {
    let mut s = service();
    s.register_session("/test/session/1", DeviceType::desktop_standard());
    assert_eq!(s.active_session_count(), 1);
    s.register_session("/test/session/1", DeviceType::desktop_standard());
    assert_eq!(s.active_session_count(), 1);
    s.unregister_session("/test/session/1");
    assert_eq!(s.active_session_count(), 0);
    assert_eq!(s.version(), 1);
}

#[test]
fn service_validates_devices() {
    let mut s = service();
    s.register_session("/test/kbd", DeviceType::keyboard());
    assert!(s.validate_session("/test/kbd", true, false, false).is_ok());
    let r = s.validate_session("/test/kbd", false, true, false);
    assert!(matches!(r, Err(Error::Input(InputError::DeviceNotAuthorized(d))) if d == "pointer"));
}

#[test]
fn service_rejects_unknown_session() {
    let s = service();
    let r = s.validate_session("/unknown/session", true, false, false);
    assert!(matches!(r, Err(Error::Session(SessionError::NotFound(p))) if p == "/unknown/session"));
}

#[test]
fn service_queues_injected_events() {
    let mut s = service();
    s.register_session("/s", DeviceType::all_devices());
    s.inject_pointer_button("/s", 0x110, 1, at_ms(1)).unwrap();
    s.inject_keyboard_keycode("/s", 30, 0, at_ms(2)).unwrap();
    let first = s.recv_event().unwrap();
    assert_eq!(first.session_id.as_str(), "/s");
    assert_eq!(first.event, InputEvent::PointerButton { button: 0x110, state: ButtonState::Pressed });
    assert_eq!(first.timestamp, at_ms(1));
    let second = s.recv_event().unwrap();
    assert_eq!(second.event, InputEvent::KeyboardKeycode { keycode: 30, state: KeyState::Released });
    assert!(s.recv_event().is_none());
}

#[test]
fn service_refuses_ungranted_device_without_queueing() {
    let mut s = service();
    s.register_session("/s", DeviceType::pointer());
    let r = s.inject_touch_up("/s", 1, at_ms(1));
    assert!(matches!(r, Err(Error::Input(InputError::DeviceNotAuthorized(d))) if d == "touchscreen"));
    assert!(s.recv_event().is_none());
}

#[test]
fn service_reports_closed_channel() {
    let mut s = service();
    s.register_session("/s", DeviceType::all_devices());
    s.close_event_channel();
    let r = s.inject_pointer_axis_discrete("/s", 1, 3, at_ms(1));
    assert!(matches!(r, Err(Error::ChannelClosed)));
}

#[test]
fn service_applies_rate_limit() {
    let mut s = RemoteDesktopService::new(limiter(1000, 2, 1));
    s.register_session("/s", DeviceType::all_devices());
    assert!(s.inject_touch_up("/s", 0, at_ms(1)).is_ok());
    assert!(s.inject_touch_up("/s", 0, at_ms(1)).is_ok());
    assert!(matches!(
        s.inject_touch_up("/s", 0, at_ms(1)),
        Err(Error::Input(InputError::RateLimitExceeded { .. }))
    ));
}

#[test]
fn capability_report_lines() {
    let mut provider = CapabilityProvider::new(selector(true));
    assert_eq!(provider.log_report(), Err("Capabilities not probed".to_string()));
    provider.probe();
    let lines = provider.log_report().unwrap();
    assert_eq!(lines.len(), 7);
    assert_eq!(lines[0], "┌─────────────────────────────────────────┐");
    assert_eq!(lines[3], "│ Capture Tier: Shared Memory            │");
    assert_eq!(lines[4], "│ Input:        Available                │");
    assert_eq!(lines[5], "│ Session Mode: Full Control             │");
    assert_eq!(lines[3], format!("│ Capture Tier: {:24} │", "Shared Memory"));
}

fn assert_send_sync<T: Send + Sync>() {}

#[test]
fn provider_is_send_sync() {
    assert_send_sync::<CapabilityProvider>();
}

#[test]
fn service_is_send_sync() {
    assert_send_sync::<RemoteDesktopService>();
}

#[test]
fn rate_limiter_is_send_sync() {
    assert_send_sync::<RateLimiter>();
}

#[test]
fn rate_limiter_thread_safe() {
    assert_send_sync::<RateLimiter>();
}

#[test]
fn virtual_input_is_send_sync() {
    fn assert_send<T: Send>() {}
    fn assert_sync<T: Sync>() {}

    assert_send::<VirtualInput>();
    assert_send::<VirtualInputEvent>();
    assert_sync::<VirtualInputEvent>();
}

#[test]
fn window_never_holds_more_than_the_rate() {
    // 10 events per second over one second: whatever the spacing, the
    // window never holds more than 10 events.
    let mut l = limiter(10, 1_000, 1);
    let s = SessionId::new("/steady");
    let mut accepted = 0;
    for i in 0..200u64 {
        if l.check_at(&s, at_ms(i * 3)).is_ok() {
            accepted += 1;
        }
        assert!(l.current_rate(&s) <= 10);
    }
    // 600 ms of traffic fits in one window.
    assert_eq!(accepted, 10);
}

#[test]
fn refused_check_records_nothing() {
    let mut l = limiter(2, 100, 1);
    let s = SessionId::new("/r");
    l.check_at(&s, at_ms(1)).unwrap();
    l.check_at(&s, at_ms(2)).unwrap();
    let before = l.current_rate(&s);
    assert!(l.check_at(&s, at_ms(3)).is_err());
    assert!(l.check_at(&s, at_ms(4)).is_err());
    assert_eq!(l.current_rate(&s), before);
}

#[test]
fn clock_check_tracks_session() {
    let mut l = RateLimiter::with_defaults();
    let s = SessionId::new("/clock");
    assert!(l.check(&s).is_ok());
    assert_eq!(l.session_count(), 1);
}

#[test]
fn virtual_input_time_since_last_event_by_clock() {
    let mut handler = VirtualInput::with_defaults();
    assert!(handler.time_since_last_event().is_none());
    handler
        .try_submit(VirtualInputEvent::new(SessionId::new("/clock"), InputEvent::TouchUp { slot: 0 }, &mut MonotonicClock::start()))
        .unwrap();
    let mut sink = MockVirtualInputSink::new();
    handler.process_pending(&mut sink);
    assert!(handler.time_since_last_event().is_some());
}

#[test]
fn burst_admits_exactly_the_first_within_a_tenth() {
    // Burst 5 at 1000 events/s over 1 s: checks spread over 100 ms (a
    // tenth of the window) let exactly the first five through.
    let mut l = limiter(1000, 5, 1);
    let s = SessionId::new("/burst");
    let other = SessionId::new("/other");
    for i in 0..11u64 {
        let r = l.check_at(&s, at_ms(1_000 + i * 10));
        if i < 5 {
            assert!(r.is_ok(), "check {} should pass", i);
        } else {
            assert!(matches!(
                r,
                Err(Error::Input(InputError::RateLimitExceeded { events_per_sec: 5, max: 5 }))
            ));
        }
    }
    assert!(l.check_at(&other, at_ms(1_100)).is_ok());
}

#[test]
fn probed_provider_always_offers_input() {
    for wayland in [false, true] {
        let mut provider = CapabilityProvider::new(selector(wayland));
        assert!(!provider.input_available());
        assert_eq!(provider.capture_tier(), None);
        provider.probe();
        assert!(provider.input_available());
        assert!(provider.best_mode().has_input());
        if let Some(t) = provider.capture_tier() {
            assert!(t.has_capture());
        }
    }
}

#[test]
fn burst_by_clock_refuses_sixth() {
    let mut l = limiter(1000, 5, 1);
    let s = SessionId::new("/clock-burst");
    for _ in 0..5 {
        assert!(l.check(&s).is_ok());
    }
    assert!(matches!(
        l.check(&s),
        Err(Error::Input(InputError::RateLimitExceeded { events_per_sec: 5, max: 5 }))
    ));
    assert!(l.check(&SessionId::new("/other-clock")).is_ok());
}

#[test]
fn virtual_input_event_age_by_clock() {
    let mut clock = MonotonicClock::start();
    let event = VirtualInputEvent::new(SessionId::new("/age"), InputEvent::TouchUp { slot: 0 }, &mut clock);
    let a1 = event.age(&mut clock);
    let a2 = event.age(&mut clock);
    assert!(a1 <= a2);
}

#[test]
fn service_steady_stream_is_refused_by_rate() {
    // 3 events per second over one second, burst large: a steady stream of
    // events 10 ms apart is refused from the fourth on, each counted once.
    let mut s = RemoteDesktopService::new(limiter(3, 100, 1));
    s.register_session("/s", DeviceType::all_devices());
    for i in 0..3u64 {
        assert!(s.inject_touch_up("/s", 0, at_ms(i * 10)).is_ok());
    }
    assert!(matches!(
        s.inject_touch_up("/s", 0, at_ms(30)),
        Err(Error::Input(InputError::RateLimitExceeded { events_per_sec: 3, max: 3 }))
    ));
    assert!(matches!(
        s.inject_touch_up("/s", 0, at_ms(40)),
        Err(Error::Input(InputError::RateLimitExceeded { events_per_sec: 3, max: 3 }))
    ));
}

#[test]
fn service_unregister_forgets_rate_history() {
    let mut s = RemoteDesktopService::new(limiter(1000, 1, 1));
    s.register_session("/s", DeviceType::all_devices());
    assert!(s.inject_touch_up("/s", 0, at_ms(1)).is_ok());
    assert!(s.inject_touch_up("/s", 0, at_ms(2)).is_err());
    s.unregister_session("/s");
    s.register_session("/s", DeviceType::all_devices());
    assert!(s.inject_touch_up("/s", 0, at_ms(3)).is_ok());
}
