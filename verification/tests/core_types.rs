use ion_channel::types::device::DeviceType;
use ion_channel::types::error::{Error, InputError, PortalError, SessionError};
use ion_channel::types::event::{ButtonState, Coord, InputEvent, KeyState};
use ion_channel::types::mode::{CaptureTierInfo, RemoteDesktopMode, SessionCapabilities};
use ion_channel::types::session::{EventQueue, SessionHandle, SessionId, SessionState};
use ion_channel::time::MonotonicClock;

fn coord(v: f64) -> Coord {
    Coord::from_bits(v.to_bits())
}

fn assert_send_sync<T: Send + Sync>() {}

#[test]
fn device_type_bits() {
    assert_eq!(DeviceType::keyboard().bits(), 1);
    assert_eq!(DeviceType::pointer().bits(), 2);
    assert_eq!(DeviceType::touchscreen().bits(), 4);
}

#[test]
fn device_type_from_u32() {
    let devices = DeviceType::from(3u32);
    assert!(devices.has_keyboard());
    assert!(devices.has_pointer());
    assert!(!devices.has_touchscreen());
}

#[test]
fn device_type_from_u32_all() {
    let devices = DeviceType::from(7u32);
    assert!(devices.has_keyboard());
    assert!(devices.has_pointer());
    assert!(devices.has_touchscreen());
}

#[test]
fn device_type_from_u32_truncate() {
    let devices = DeviceType::from(0xFFu32);
    assert_eq!(devices.bits(), 7);
}

#[test]
fn device_type_to_u32() {
    let bits: u32 = DeviceType::desktop_standard().into();
    assert_eq!(bits, 3);
}

#[test]
fn device_type_display() {
    assert_eq!(DeviceType::desktop_standard().description(), "keyboard, pointer");
    assert_eq!(DeviceType::empty().description(), "none");
}

#[test]
fn device_type_display_all() {
    assert_eq!(DeviceType::all_devices().description(), "keyboard, pointer, touchscreen");
}

#[test]
fn device_type_display_single() {
    assert_eq!(DeviceType::keyboard().description(), "keyboard");
    assert_eq!(DeviceType::pointer().description(), "pointer");
    assert_eq!(DeviceType::touchscreen().description(), "touchscreen");
}

#[test]
fn device_type_default() {
    let default = DeviceType::default();
    assert_eq!(default, DeviceType::desktop_standard());
    assert!(default.has_keyboard());
    assert!(default.has_pointer());
    assert!(!default.has_touchscreen());
}

#[test]
fn device_type_desktop_standard() {
    let devices = DeviceType::desktop_standard();
    assert!(devices.has_keyboard());
    assert!(devices.has_pointer());
    assert!(!devices.has_touchscreen());
    assert_eq!(devices.bits(), 3);
}

#[test]
fn device_type_all_devices() {
    let devices = DeviceType::all_devices();
    assert!(devices.has_keyboard());
    assert!(devices.has_pointer());
    assert!(devices.has_touchscreen());
    assert_eq!(devices.bits(), 7);
}

#[test]
fn device_type_union() {
    let devices = DeviceType::keyboard() | DeviceType::touchscreen();
    assert!(devices.has_keyboard());
    assert!(!devices.has_pointer());
    assert!(devices.has_touchscreen());
}

#[test]
fn device_type_intersection() {
    let a = DeviceType::desktop_standard();
    let b = DeviceType::pointer() | DeviceType::touchscreen();
    let intersection = a & b;
    assert!(!intersection.has_keyboard());
    assert!(intersection.has_pointer());
    assert!(!intersection.has_touchscreen());
}

#[test]
fn device_type_contains() {
    let devices = DeviceType::all_devices();
    assert!(devices.contains(DeviceType::keyboard()));
    assert!(devices.contains(DeviceType::pointer()));
    assert!(devices.contains(DeviceType::touchscreen()));
    assert!(devices.contains(DeviceType::desktop_standard()));
}

#[test]
fn device_type_is_empty() {
    assert!(DeviceType::empty().is_empty());
    assert!(!DeviceType::keyboard().is_empty());
}

#[test]
fn device_type_clone_eq() {
    let a = DeviceType::desktop_standard();
    let b = a;
    assert_eq!(a, b);
}

#[test]
fn device_type_debug() {
    let devices = DeviceType::desktop_standard();
    let debug = format!("{devices:?}");
    assert!(debug.contains("KEYBOARD") || debug.contains("DeviceType"));
}

#[test]
fn device_type_is_send_sync() {
    assert_send_sync::<DeviceType>();
}

#[test]
fn device_bits_roundtrip_for_every_set() {
    for bits in 0u32..8 {
        let d = DeviceType::from_bits_truncate(bits);
        assert_eq!(d.bits(), bits);
        assert_eq!(DeviceType::from(d.bits()), d);
    }
}

#[test]
fn mode_capabilities() {
    assert!(RemoteDesktopMode::Full.has_capture());
    assert!(RemoteDesktopMode::Full.has_input());
    assert!(RemoteDesktopMode::ViewOnly.has_capture());
    assert!(!RemoteDesktopMode::ViewOnly.has_input());
    assert!(!RemoteDesktopMode::InputOnly.has_capture());
    assert!(RemoteDesktopMode::InputOnly.has_input());
    assert!(!RemoteDesktopMode::Inactive.has_capture());
    assert!(!RemoteDesktopMode::Inactive.has_input());
}

#[test]
fn mode_is_active() {
    assert!(RemoteDesktopMode::Full.is_active());
    assert!(RemoteDesktopMode::ViewOnly.is_active());
    assert!(RemoteDesktopMode::InputOnly.is_active());
    assert!(!RemoteDesktopMode::Inactive.is_active());
}

#[test]
fn mode_name() {
    assert_eq!(RemoteDesktopMode::Inactive.name(), "None");
    assert_eq!(RemoteDesktopMode::ViewOnly.name(), "View Only");
    assert_eq!(RemoteDesktopMode::InputOnly.name(), "Input Only");
    assert_eq!(RemoteDesktopMode::Full.name(), "Full Control");
}

#[test]
fn mode_from_capabilities() {
    assert_eq!(RemoteDesktopMode::from_capabilities(true, true), RemoteDesktopMode::Full);
    assert_eq!(RemoteDesktopMode::from_capabilities(true, false), RemoteDesktopMode::ViewOnly);
    assert_eq!(RemoteDesktopMode::from_capabilities(false, true), RemoteDesktopMode::InputOnly);
    assert_eq!(RemoteDesktopMode::from_capabilities(false, false), RemoteDesktopMode::Inactive);
}

#[test]
fn mode_roundtrip() {
    for mode in [
        RemoteDesktopMode::Inactive,
        RemoteDesktopMode::ViewOnly,
        RemoteDesktopMode::InputOnly,
        RemoteDesktopMode::Full,
    ] {
        let value: u32 = mode.into();
        let restored = RemoteDesktopMode::from(value);
        assert_eq!(mode, restored);
    }
}

#[test]
fn mode_from_invalid_u32() {
    assert_eq!(RemoteDesktopMode::from(99u32), RemoteDesktopMode::Inactive);
    assert_eq!(RemoteDesktopMode::from(255u32), RemoteDesktopMode::Inactive);
}

#[test]
fn mode_repr_values() {
    assert_eq!(RemoteDesktopMode::Inactive as u32, 0);
    assert_eq!(RemoteDesktopMode::ViewOnly as u32, 1);
    assert_eq!(RemoteDesktopMode::InputOnly as u32, 2);
    assert_eq!(RemoteDesktopMode::Full as u32, 3);
    assert_eq!(RemoteDesktopMode::Full.to_u32(), 3);
}

#[test]
fn session_capabilities_modes() {
    assert_eq!(SessionCapabilities::full().best_mode(), RemoteDesktopMode::Full);
    assert_eq!(SessionCapabilities::input_only().best_mode(), RemoteDesktopMode::InputOnly);
    assert_eq!(SessionCapabilities::view_only().best_mode(), RemoteDesktopMode::ViewOnly);
    assert_eq!(SessionCapabilities::none().best_mode(), RemoteDesktopMode::Inactive);
}

#[test]
fn session_capabilities_full() {
    let caps = SessionCapabilities::full();
    assert!(caps.capture_available);
    assert!(caps.input_available);
    assert!(caps.capture_tier.is_none());
}

#[test]
fn session_capabilities_input_only() {
    let caps = SessionCapabilities::input_only();
    assert!(!caps.capture_available);
    assert!(caps.input_available);
}

#[test]
fn session_capabilities_view_only() {
    let caps = SessionCapabilities::view_only();
    assert!(caps.capture_available);
    assert!(!caps.input_available);
}

#[test]
fn session_capabilities_none() {
    let caps = SessionCapabilities::none();
    assert!(!caps.capture_available);
    assert!(!caps.input_available);
}

#[test]
fn capture_tier_info_debug() {
    assert!(!format!("{:?}", CaptureTierInfo::Dmabuf).is_empty());
    assert!(!format!("{:?}", CaptureTierInfo::Shm).is_empty());
    assert!(!format!("{:?}", CaptureTierInfo::Cpu).is_empty());
}

#[test]
fn session_capabilities_with_tier() {
    let caps = SessionCapabilities {
        capture_available: true,
        input_available: true,
        capture_tier: Some(CaptureTierInfo::Dmabuf),
    };
    assert_eq!(caps.best_mode(), RemoteDesktopMode::Full);
    assert_eq!(caps.capture_tier, Some(CaptureTierInfo::Dmabuf));
}

#[test]
fn mode_display() {
    assert_eq!(RemoteDesktopMode::Full.name(), "Full Control");
    assert_eq!(RemoteDesktopMode::InputOnly.name(), "Input Only");
    assert_eq!(RemoteDesktopMode::ViewOnly.name(), "View Only");
    assert_eq!(RemoteDesktopMode::Inactive.name(), "None");
}

#[test]
fn mode_is_send_sync() {
    assert_send_sync::<RemoteDesktopMode>();
    assert_send_sync::<SessionCapabilities>();
    assert_send_sync::<CaptureTierInfo>();
}

#[test]
fn mode_clone_eq() {
    let mode = RemoteDesktopMode::Full;
    let cloned = mode;
    assert_eq!(mode, cloned);
    let caps = SessionCapabilities::full();
    let caps_cloned = caps;
    assert_eq!(caps, caps_cloned);
}

#[test]
fn key_state_from_bool() {
    assert_eq!(KeyState::from(true), KeyState::Pressed);
    assert_eq!(KeyState::from(false), KeyState::Released);
}

#[test]
fn button_state_from_u32() {
    assert_eq!(ButtonState::from(0u32), ButtonState::Released);
    assert_eq!(ButtonState::from(1u32), ButtonState::Pressed);
    assert_eq!(ButtonState::from(42u32), ButtonState::Pressed);
}

#[test]
fn event_constructors() {
    let motion = InputEvent::pointer_motion(coord(10.0), coord(-5.0));
    assert!(motion.is_pointer());
    assert!(!motion.is_keyboard());
    let key = InputEvent::key(28, KeyState::Pressed);
    assert!(key.is_keyboard());
    assert!(!key.is_pointer());
}

#[test]
fn event_is_send_sync() {
    assert_send_sync::<InputEvent>();
}

#[test]
fn left_click_uses_left_button() {
    let press = InputEvent::left_click(true);
    assert_eq!(press, InputEvent::PointerButton { button: 0x110, state: ButtonState::Pressed });
    let release = InputEvent::left_click(false);
    assert_eq!(release, InputEvent::PointerButton { button: 0x110, state: ButtonState::Released });
}

#[test]
fn every_event_has_one_device_class() {
    let events = [
        InputEvent::pointer_motion(coord(1.0), coord(2.0)),
        InputEvent::key(1, KeyState::Released),
        InputEvent::TouchUp { slot: 3 },
    ];
    for e in events {
        let classes = [e.is_keyboard(), e.is_pointer(), e.is_touch()];
        assert_eq!(classes.iter().filter(|c| **c).count(), 1);
    }
    assert_eq!(InputEvent::TouchUp { slot: 3 }.variant_name(), "TouchUp");
}

#[test]
fn error_display() {
    let err = Error::Session(SessionError::NotFound("test-session".into()));
    assert!(err.message().contains("test-session"));
}

#[test]
fn session_error_not_found() {
    let err = SessionError::NotFound("my-session".into());
    assert!(err.message().contains("my-session"));
    assert!(err.message().contains("not found"));
}

#[test]
fn session_error_already_exists() {
    let err = SessionError::AlreadyExists("dup-session".into());
    assert!(err.message().contains("dup-session"));
    assert!(err.message().contains("already exists"));
}

#[test]
fn session_error_unauthorized() {
    let err = SessionError::Unauthorized;
    assert!(err.message().contains("not authorized"));
}

#[test]
fn session_error_closed() {
    let err = SessionError::Closed;
    assert!(err.message().contains("closed"));
}

#[test]
fn session_error_invalid_state() {
    let err = SessionError::InvalidState { expected: SessionState::Active, actual: SessionState::Created };
    assert!(err.message().contains("Active"));
    assert!(err.message().contains("Created"));
}

#[test]
fn input_error_device_not_available() {
    let err = InputError::DeviceNotAvailable("keyboard".into());
    assert!(err.message().contains("keyboard"));
    assert!(err.message().contains("not available"));
}

#[test]
fn input_error_device_not_authorized() {
    let err = InputError::DeviceNotAuthorized("pointer".into());
    assert!(err.message().contains("pointer"));
    assert!(err.message().contains("not authorized"));
}

#[test]
fn input_error_rate_limit() {
    let err = InputError::RateLimitExceeded { events_per_sec: 1500, max: 1000 };
    assert!(err.message().contains("1500"));
    assert!(err.message().contains("1000"));
    assert_eq!(err.message(), "rate limit exceeded: 1500 events/sec (max: 1000)");
}

#[test]
fn input_error_stream_not_found() {
    let err = InputError::StreamNotFound(42);
    assert!(err.message().contains("42"));
}

#[test]
fn portal_error_connection() {
    let err = PortalError::Connection("timeout".into());
    assert!(err.message().contains("timeout"));
    assert!(err.message().contains("connection"));
}

#[test]
fn portal_error_method_call() {
    let err = PortalError::MethodCall("CreateSession failed".into());
    assert!(err.message().contains("CreateSession"));
}

#[test]
fn portal_error_response() {
    let err = PortalError::Response("invalid request".into());
    assert!(err.message().contains("invalid request"));
}

#[test]
fn portal_error_cancelled() {
    let err = PortalError::Cancelled;
    assert!(err.message().contains("cancelled"));
}

#[test]
fn portal_error_permission_denied() {
    let err = PortalError::PermissionDenied;
    assert!(err.message().contains("permission denied"));
}

#[test]
fn error_from_session_error() {
    let session_err = SessionError::NotFound("test".into());
    let err: Error = session_err.into();
    assert!(matches!(err, Error::Session(_)));
}

#[test]
fn error_from_input_error() {
    let input_err = InputError::DeviceNotAvailable("keyboard".into());
    let err: Error = input_err.into();
    assert!(matches!(err, Error::Input(_)));
}

#[test]
fn error_from_portal_error() {
    let portal_err = PortalError::Cancelled;
    let err: Error = portal_err.into();
    assert!(matches!(err, Error::Portal(_)));
}

#[test]
fn error_channel_closed() {
    let err = Error::ChannelClosed;
    assert!(err.message().contains("channel"));
}

#[test]
fn error_internal() {
    let err = Error::Internal("something went wrong".into());
    assert!(err.message().contains("something went wrong"));
}

#[test]
fn error_debug() {
    let err = Error::ChannelClosed;
    assert!(!format!("{err:?}").is_empty());
}

#[test]
fn error_is_send_sync() {
    assert_send_sync::<Error>();
    assert_send_sync::<SessionError>();
    assert_send_sync::<InputError>();
    assert_send_sync::<PortalError>();
}

#[test]
fn session_lifecycle_only_moves_forward() {
    let mut clock = MonotonicClock::start();
    let mut s = SessionHandle::new(SessionId::new("/s/life"), "app".to_string(), EventQueue::new(), &mut clock);
    assert_eq!(s.state(), SessionState::Created);
    assert!(s.start().is_err());
    assert_eq!(s.state(), SessionState::Created);
    assert!(s.send_event(InputEvent::PointerButton { button: 1, state: ButtonState::Pressed }).is_err());
    s.select_devices(DeviceType::pointer()).unwrap();
    assert_eq!(s.state(), SessionState::DevicesSelected);
    assert!(s.select_devices(DeviceType::keyboard()).is_err());
    s.start().unwrap();
    assert_eq!(s.state(), SessionState::Active);
    assert!(s.send_event(InputEvent::PointerButton { button: 1, state: ButtonState::Pressed }).is_ok());
    s.close();
    assert_eq!(s.state(), SessionState::Closed);
    assert!(s.select_devices(DeviceType::keyboard()).is_err());
    assert!(s.start().is_err());
    assert_eq!(s.state(), SessionState::Closed);
    assert_eq!(s.event_count(), 1);
}

#[test]
fn session_uptime_by_clock() {
    let mut clock = MonotonicClock::start();
    let s = SessionHandle::new(SessionId::new("/s/up"), "app".to_string(), EventQueue::new(), &mut clock);
    let u1 = s.uptime(&mut clock);
    let u2 = s.uptime(&mut clock);
    assert!(u1 <= u2);
}
