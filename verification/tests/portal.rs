use ion_channel::portal::consent::{
    consent_from_reply, default_consent_timeout, AutoApproveProvider, CliConsentProvider,
    ConsentProvider, ConsentReply, ConsentRequest, ConsentResult,
};
use ion_channel::portal::portal_core::{PortalCore, SelectDevicesRequest, StartSessionRequest};
use ion_channel::portal::response::ResponseCode;
use ion_channel::portal::session_manager::{SessionManager, SessionManagerConfig};
use ion_channel::time::Duration;
use ion_channel::types::device::DeviceType;
use ion_channel::types::error::{Error, InputError, SessionError};
use ion_channel::types::event::{Coord, InputEvent, KeyState};
use ion_channel::types::mode::RemoteDesktopMode;
use ion_channel::types::session::{SessionId, SessionState};

fn assert_send_sync<T: Send + Sync>() {}

fn test_request() -> ConsentRequest {
    ConsentRequest {
        session_id: SessionId::new("/test/session"),
        app_id: "com.example.test".to_string(),
        device_types: DeviceType::keyboard() | DeviceType::pointer(),
        include_screen_capture: true,
        parent_window: None,
    }
}

fn new_core() -> PortalCore {
    PortalCore::new(SessionManager::new(SessionManagerConfig::default()))
}

fn core_with_mode(mode: RemoteDesktopMode) -> PortalCore {
    PortalCore::with_mode(SessionManager::new(SessionManagerConfig::default()), mode)
}

#[test]
fn consent_result_display() {
    assert_eq!(ConsentResult::Granted.name(), "granted");
    assert_eq!(ConsentResult::Denied.name(), "denied");
    assert_eq!(ConsentResult::Cancelled.name(), "cancelled");
    assert_eq!(ConsentResult::Timeout.name(), "timeout");
}

#[test]
fn consent_result_is_granted() {
    assert!(ConsentResult::Granted.is_granted());
    assert!(!ConsentResult::Denied.is_granted());
    assert!(!ConsentResult::Cancelled.is_granted());
    assert!(!ConsentResult::Timeout.is_granted());
}

#[test]
fn consent_request_display() {
    let req = test_request();
    let s = req.description();
    assert!(s.contains("com.example.test"));
    assert!(s.contains("devices="));
    assert_eq!(s, "ConsentRequest(app=com.example.test, devices=keyboard, pointer, capture=true)");
}

#[test]
fn auto_approve_instant() {
    let provider = AutoApproveProvider::instant();
    assert_eq!(provider.request_consent(&test_request(), Duration::from_secs(10)), ConsentResult::Granted);
}

#[test]
fn auto_approve_with_delay() {
    let provider = AutoApproveProvider::new(Duration::from_millis(50), false);
    assert_eq!(provider.delay, Duration::from_millis(50));
    assert_eq!(provider.request_consent(&test_request(), Duration::from_secs(10)), ConsentResult::Granted);
}

#[test]
fn cli_consent_defaults_to_deny() {
    let provider = CliConsentProvider::default();
    assert_eq!(provider.request_consent(&test_request(), Duration::from_secs(1)), ConsentResult::Denied);
}

#[test]
fn channel_consent_timeout() {
    assert_eq!(consent_from_reply(ConsentReply::TimedOut), ConsentResult::Timeout);
    assert_eq!(consent_from_reply(ConsentReply::ChannelClosed), ConsentResult::Denied);
    assert_eq!(consent_from_reply(ConsentReply::SendFailed), ConsentResult::Denied);
}

#[test]
fn channel_consent_response() {
    assert_eq!(consent_from_reply(ConsentReply::Answer(ConsentResult::Granted)), ConsentResult::Granted);
    assert_eq!(consent_from_reply(ConsentReply::Answer(ConsentResult::Cancelled)), ConsentResult::Cancelled);
    assert_eq!(default_consent_timeout(), Duration::from_secs(30));
}

#[test]
fn consent_provider_is_send_sync() {
    assert_send_sync::<AutoApproveProvider>();
    assert_send_sync::<CliConsentProvider>();
}

#[test]
fn core_defaults_to_full_mode() {
    assert_eq!(new_core().session_mode(), RemoteDesktopMode::Full);
}

#[test]
fn core_with_mode_sets_mode() {
    assert_eq!(core_with_mode(RemoteDesktopMode::InputOnly).session_mode(), RemoteDesktopMode::InputOnly);
}

#[test]
fn core_set_session_mode_updates() {
    let mut c = new_core();
    c.set_session_mode(RemoteDesktopMode::ViewOnly);
    assert_eq!(c.session_mode(), RemoteDesktopMode::ViewOnly);
}

#[test]
fn core_available_device_types() {
    assert_eq!(new_core().available_device_types(), 3);
}

#[test]
fn core_version() {
    assert_eq!(new_core().version(), 2);
}

#[test]
fn core_is_send_sync() {
    assert_send_sync::<PortalCore>();
}

#[test]
fn all_modes_have_correct_capabilities() {
    let modes = [
        (RemoteDesktopMode::Full, true, true),
        (RemoteDesktopMode::ViewOnly, true, false),
        (RemoteDesktopMode::InputOnly, false, true),
        (RemoteDesktopMode::Inactive, false, false),
    ];
    for (mode, expected_capture, expected_input) in modes {
        assert_eq!(mode.has_capture(), expected_capture, "mode={:?}", mode);
        assert_eq!(mode.has_input(), expected_input, "mode={:?}", mode);
    }
}

#[test]
fn create_session_success() {
    let mut c = new_core();
    let response = c.create_session("/test/session/1".to_string(), "test-app".to_string()).unwrap();
    assert_eq!(response.session_id, "/test/session/1");
    assert_eq!(c.session_manager().session_count(), 1);
}

#[test]
fn create_session_duplicate_fails() {
    let mut c = new_core();
    c.create_session("/test/dup".to_string(), "app".to_string()).unwrap();
    let result = c.create_session("/test/dup".to_string(), "app".to_string());
    assert!(result.is_err());
    assert_eq!(c.session_manager().session_count(), 1);
}

#[test]
fn select_devices_success() {
    let mut c = new_core();
    c.create_session("/test/sel".to_string(), "app".to_string()).unwrap();
    let request = SelectDevicesRequest { session_id: "/test/sel".to_string(), device_types: Some(DeviceType::keyboard().bits()) };
    assert!(c.select_devices(request).is_ok());
}

#[test]
fn select_devices_session_not_found() {
    let mut c = new_core();
    let request = SelectDevicesRequest { session_id: "/nonexistent".to_string(), device_types: None };
    assert!(c.select_devices(request).is_err());
}

#[test]
fn start_session_success() {
    let mut c = new_core();
    c.create_session("/test/start".to_string(), "app".to_string()).unwrap();
    c.select_devices(SelectDevicesRequest { session_id: "/test/start".to_string(), device_types: Some(DeviceType::all().bits()) })
        .unwrap();
    let response = c.start_session(StartSessionRequest { session_id: "/test/start".to_string(), parent_window: None }).unwrap();
    assert_eq!(response.session_mode, RemoteDesktopMode::Full);
    assert!(response.capture_available);
    assert!(response.input_available);
    assert_eq!(response.devices, DeviceType::all().bits());
}

#[test]
fn start_session_reports_mode() {
    let mut c = core_with_mode(RemoteDesktopMode::InputOnly);
    c.create_session("/test/mode".to_string(), "app".to_string()).unwrap();
    c.select_devices(SelectDevicesRequest { session_id: "/test/mode".to_string(), device_types: None }).unwrap();
    let response = c.start_session(StartSessionRequest { session_id: "/test/mode".to_string(), parent_window: None }).unwrap();
    assert_eq!(response.session_mode, RemoteDesktopMode::InputOnly);
    assert!(!response.capture_available);
    assert!(response.input_available);
    assert_eq!(response.devices, 3);
}

#[test]
fn start_before_select_is_refused() {
    let mut c = new_core();
    c.create_session("/early".to_string(), "app".to_string()).unwrap();
    let r = c.start_session(StartSessionRequest { session_id: "/early".to_string(), parent_window: None });
    assert!(matches!(
        r,
        Err(Error::Session(SessionError::InvalidState { expected: SessionState::DevicesSelected, actual: SessionState::Created }))
    ));
}

#[test]
fn notify_forwards_only_authorised_events() {
    let mut c = new_core();
    c.create_session("/s".to_string(), "app".to_string()).unwrap();
    c.select_devices(SelectDevicesRequest { session_id: "/s".to_string(), device_types: Some(DeviceType::keyboard().bits()) }).unwrap();
    c.start_session(StartSessionRequest { session_id: "/s".to_string(), parent_window: None }).unwrap();
    assert!(c.notify_keyboard_keycode("/s", 30, KeyState::Pressed).is_ok());
    let r = c.notify_pointer_motion("/s", Coord::from_bits(1.0f64.to_bits()), Coord::from_bits(0.0f64.to_bits()));
    assert!(matches!(r, Err(Error::Input(InputError::DeviceNotAuthorized(d))) if d == "pointer"));
    let (id, event) = c.recv_compositor_event().unwrap();
    assert_eq!(id.as_str(), "/s");
    assert_eq!(event, InputEvent::KeyboardKeycode { keycode: 30, state: KeyState::Pressed });
    assert!(c.recv_compositor_event().is_none());
}

#[test]
fn sessions_are_isolated() {
    let mut m = SessionManager::new(SessionManagerConfig::default());
    m.create_session(SessionId::new("/a"), "a".to_string()).unwrap();
    m.create_session(SessionId::new("/b"), "b".to_string()).unwrap();
    m.select_devices("/a", DeviceType::all_devices()).unwrap();
    m.start_session("/a").unwrap();
    assert!(m.send_event("/a", InputEvent::TouchUp { slot: 0 }).is_ok());
    assert!(m.send_event("/b", InputEvent::TouchUp { slot: 0 }).is_err());
    assert_eq!(m.get_session_by_path("/a").unwrap().event_count(), 1);
    assert_eq!(m.get_session_by_path("/b").unwrap().event_count(), 0);
}

#[test]
fn session_manager_limits_sessions() {
    let mut m = SessionManager::new(SessionManagerConfig { max_sessions: 2, event_buffer_size: 8 });
    assert!(m.create_session(SessionId::new("/1"), "x".to_string()).is_ok());
    assert!(m.create_session(SessionId::new("/2"), "x".to_string()).is_ok());
    assert!(m.create_session(SessionId::new("/3"), "x".to_string()).is_err());
    assert!(m.close_session(&SessionId::new("/1")));
    assert!(!m.close_session(&SessionId::new("/1")));
    assert_eq!(m.session_count(), 1);
    m.close_all();
    assert_eq!(m.session_count(), 0);
}

#[test]
fn response_codes_have_correct_values() {
    assert_eq!(ResponseCode::Success as u32, 0);
    assert_eq!(ResponseCode::Cancelled as u32, 1);
    assert_eq!(ResponseCode::Other as u32, 2);
    assert_eq!(ResponseCode::Other.as_u32(), 2);
}

#[test]
fn response_codes_are_comparable() {
    assert_eq!(ResponseCode::Success, ResponseCode::Success);
    assert_ne!(ResponseCode::Success, ResponseCode::Cancelled);
}

#[test]
fn response_code_for_results() {
    let ok: Result<(), Error> = Ok(());
    assert_eq!(ResponseCode::for_result(&ok), ResponseCode::Success);
    let err: Result<(), Error> = Err(Error::ChannelClosed);
    assert_eq!(ResponseCode::for_result(&err), ResponseCode::Other);
}

#[test]
fn session_manager_is_send_sync() {
    assert_send_sync::<SessionManager>();
}

#[test]
fn session_handle_is_send_sync() {
    assert_send_sync::<ion_channel::types::session::SessionHandle>();
    assert_send_sync::<ion_channel::types::session::SessionId>();
}

#[test]
fn portal_is_send_sync() {
    assert_send_sync::<PortalCore>();
}

#[test]
fn portal_new_defaults_to_full_mode() {
    let portal = new_core();
    assert_eq!(portal.session_mode(), RemoteDesktopMode::Full);
}

#[test]
fn portal_with_mode_sets_mode() {
    let portal = core_with_mode(RemoteDesktopMode::InputOnly);
    assert_eq!(portal.session_mode(), RemoteDesktopMode::InputOnly);
}

#[test]
fn portal_set_session_mode_updates_mode() {
    let mut portal = new_core();
    assert_eq!(portal.session_mode(), RemoteDesktopMode::Full);

    portal.set_session_mode(RemoteDesktopMode::ViewOnly);
    assert_eq!(portal.session_mode(), RemoteDesktopMode::ViewOnly);

    portal.set_session_mode(RemoteDesktopMode::Inactive);
    assert_eq!(portal.session_mode(), RemoteDesktopMode::Inactive);
}

#[test]
fn all_remote_desktop_modes() {
    let modes = [
        RemoteDesktopMode::Full,
        RemoteDesktopMode::ViewOnly,
        RemoteDesktopMode::InputOnly,
        RemoteDesktopMode::Inactive,
    ];

    for mode in modes {
        let portal = core_with_mode(mode);
        assert_eq!(portal.session_mode(), mode);
    }
}

#[test]
fn create_session_returns_the_new_handle() {
    let mut m = SessionManager::new(SessionManagerConfig::default());
    let h = m.create_session(SessionId::new("/h"), "app".to_string()).unwrap();
    assert_eq!(h.id().as_str(), "/h");
    assert_eq!(h.app_id(), "app");
    assert_eq!(h.state(), SessionState::Created);
}

#[test]
fn refusals_name_their_cause() {
    let mut m = SessionManager::new(SessionManagerConfig::default());
    m.create_session(SessionId::new("/r"), "app".to_string()).unwrap();
    assert!(matches!(
        m.send_event("/r", InputEvent::TouchUp { slot: 0 }),
        Err(Error::Session(SessionError::InvalidState {
            expected: SessionState::Active,
            actual: SessionState::Created
        }))
    ));
    m.select_devices("/r", DeviceType::keyboard()).unwrap();
    m.start_session("/r").unwrap();
    assert!(matches!(
        m.send_event("/r", InputEvent::TouchUp { slot: 0 }),
        Err(Error::Input(InputError::DeviceNotAuthorized(d))) if d == "touchscreen"
    ));

    let mut c = new_core();
    c.create_session("/p".to_string(), "app".to_string()).unwrap();
    assert!(matches!(
        c.create_session("/p".to_string(), "app".to_string()),
        Err(Error::Session(SessionError::AlreadyExists(id))) if id == "/p"
    ));
    let start = c.start_session(StartSessionRequest { session_id: "/p".to_string(), parent_window: None });
    assert!(matches!(
        start,
        Err(Error::Session(SessionError::InvalidState {
            expected: SessionState::DevicesSelected,
            actual: SessionState::Created
        }))
    ));
}
