use ion_channel::backend::compositor::{
    display_server_from_env, BackendError, BackendFactory, CompositorBackend, DisplayServerType,
    MockBackend,
};
use ion_channel::backend::cosmic::{
    cosmic_comp_service_name, is_cosmic_session, CosmicBackend, CosmicConnectOutcome,
    CosmicProvider,
};
use ion_channel::backend::registry::{
    capabilities_to_list, BackendRegistry, Capability, ProviderInfo,
};
use ion_channel::backend::select::{select_backend, BackendChoice};
use ion_channel::backend::wayland::{
    detect_compositor_name, probe_protocols, DesktopEnv, VirtualKeyboardManager,
    VirtualPointerManager, WaylandBackend, WaylandConnection, WaylandProvider,
};
use ion_channel::types::event::{ButtonState, Coord, InputEvent, KeyState};
use ion_channel::types::session::SessionId;

fn coord(v: f64) -> Coord {
    Coord::from_bits(v.to_bits())
}

fn env(wayland: bool, cosmic: bool, sway: bool, desktop: Option<&str>) -> DesktopEnv {
    DesktopEnv {
        wayland_display: wayland,
        display: false,
        cosmic_session: cosmic,
        swaysock: sway,
        xdg_current_desktop: desktop.map(|d| d.to_string()),
    }
}

fn key_a() -> InputEvent {
    InputEvent::KeyboardKeycode {
        keycode: 30,
        state: KeyState::Pressed,
    }
}

// ---------------------------------------------------------------- COSMIC

#[test]
fn lib_test_cosmic_backend_creation() {
    let backend = CosmicBackend::new();
    assert!(!backend.connected());
}

#[test]
fn lib_test_cosmic_backend_capabilities() {
    let backend = CosmicBackend::new();
    let caps = backend.capabilities();

    assert_eq!(caps.backend_name, "COSMIC (Wayland)");
    assert_eq!(caps.display_server_type, DisplayServerType::Wayland);

    assert!(!caps.can_inject_keyboard);
    assert!(!caps.can_inject_pointer);
    assert!(!caps.can_capture_screen);
}

#[test]
fn cosmic_session_detection() {
    assert!(is_cosmic_session(&env(true, true, false, None)));
    assert!(is_cosmic_session(&env(true, false, false, Some("COSMIC"))));
    assert!(!is_cosmic_session(&env(true, false, false, Some("GNOME"))));
    assert_eq!(cosmic_comp_service_name(), "com.system76.cosmic.Comp");
    let b = CosmicBackend::default();
    assert!(b.is_available(&env(true, true, false, None)));
    assert!(!b.is_available(&env(false, true, false, None)));
}

#[test]
fn cosmic_connection_outcomes() {
    let mut b = CosmicBackend::new();
    match b.record_connection(CosmicConnectOutcome::BusFailed("no bus".to_string())) {
        Err(BackendError::ConnectionFailed(m)) => assert_eq!(m, "D-Bus connection failed: no bus"),
        _ => panic!("expected a connection failure"),
    }
    assert!(!b.connected());
    match b.record_connection(CosmicConnectOutcome::ProxyFailed("x".to_string())) {
        Err(BackendError::ConnectionFailed(m)) => assert_eq!(m, "Failed to create proxy: x"),
        _ => panic!("expected a proxy failure"),
    }
    let session = SessionId::new("/s/1");
    assert!(matches!(
        b.inject_input(key_a()),
        Err(BackendError::ConnectionFailed(_))
    ));
    assert!(b
        .record_connection(CosmicConnectOutcome::Connected {
            service_available: false
        })
        .is_ok());
    assert!(b.connected());
    match b.inject_input(key_a()) {
        Err(BackendError::InputInjectionFailed(m)) => assert_eq!(
            m,
            "cosmic-comp D-Bus service not available (not yet implemented in cosmic-comp)"
        ),
        _ => panic!("expected an injection failure"),
    }
    assert!(matches!(
        b.start_capture(&session),
        Err(BackendError::CaptureFailed(_))
    ));
    assert!(!b.capabilities().can_inject_keyboard);

    let mut ok = CosmicBackend::new();
    ok.record_connection(CosmicConnectOutcome::Connected {
        service_available: true,
    })
    .unwrap();
    assert!(ok.inject_input(key_a()).is_ok());
    let caps = ok.capabilities();
    assert!(caps.can_inject_keyboard && caps.can_inject_pointer && !caps.can_capture_screen);
}

#[test]
fn cosmic_provider_info() {
    let p = CosmicProvider;
    assert_eq!(p.id(), "cosmic");
    assert_eq!(p.name(), "COSMIC (Wayland)");
    let info = p.info();
    assert_eq!(info.capabilities.len(), 1);
    assert!(info.capabilities[0].same_as(&Capability::DisplayServer(DisplayServerType::Wayland)));
    assert!(p.is_available(&env(false, true, false, None)));
}

// ---------------------------------------------------------------- Wayland

#[test]
fn test_wayland_backend_creation() {
    let backend = WaylandBackend::new(env(false, false, false, None));
    assert!(!backend.connected());
}

#[test]
fn test_default_capabilities() {
    let backend = WaylandBackend::new(env(false, false, false, None));
    let caps = backend.capabilities();

    assert_eq!(caps.display_server_type, DisplayServerType::Wayland);
    assert!(caps.backend_name.contains("Wayland"));
}

#[test]
fn test_virtual_keyboard_creation() {
    let manager = VirtualKeyboardManager::new();
    assert!(!manager.is_available());
}

#[test]
fn test_virtual_pointer_creation() {
    let manager = VirtualPointerManager::new();
    assert!(!manager.is_available());
}

#[test]
fn wayland_compositor_detection() {
    assert_eq!(detect_compositor_name(&env(true, true, true, Some("X"))), "COSMIC");
    assert_eq!(detect_compositor_name(&env(true, false, true, Some("X"))), "Sway");
    assert_eq!(detect_compositor_name(&env(true, false, false, Some("KDE"))), "KDE");
    assert_eq!(detect_compositor_name(&env(true, false, false, None)), "Wayland");
    assert_eq!(probe_protocols(&env(true, false, false, Some("river"))), (true, true, true));
    assert_eq!(probe_protocols(&env(true, false, false, Some("GNOME"))), (false, false, false));
}

#[test]
fn wayland_connection() {
    match WaylandConnection::connect(&env(false, false, false, None)) {
        Err(m) => assert_eq!(m, "WAYLAND_DISPLAY not set"),
        Ok(_) => panic!("expected no display"),
    }
    let c = WaylandConnection::connect(&env(true, false, true, None)).unwrap();
    assert_eq!(c.compositor_name(), "Sway");
    assert!(c.has_virtual_pointer() && c.has_virtual_keyboard() && c.has_screencopy());
}

#[test]
fn wayland_backend_connect_and_inject() {
    let mut none = WaylandBackend::new(env(false, false, false, None));
    assert!(!none.is_available());
    match none.connect() {
        Err(BackendError::ConnectionFailed(m)) => {
            assert_eq!(m, "Wayland connection failed: WAYLAND_DISPLAY not set")
        }
        _ => panic!("expected a connection failure"),
    }
    match none.inject_input(key_a()) {
        Err(BackendError::ConnectionFailed(m)) => assert_eq!(m, "Not connected to compositor"),
        _ => panic!("expected not connected"),
    }

    let mut gnome = WaylandBackend::new(env(true, false, false, Some("GNOME")));
    assert!(gnome.connect().is_ok());
    assert!(gnome.connected());
    let caps = gnome.capabilities();
    assert_eq!(caps.backend_name, "Wayland (GNOME)");
    assert!(!caps.can_inject_keyboard);
    match gnome.inject_input(key_a()) {
        Err(BackendError::InputInjectionFailed(m)) => {
            assert_eq!(m, "Virtual keyboard protocol not available")
        }
        _ => panic!("expected keyboard failure"),
    }
    let motion = InputEvent::PointerMotion {
        dx: coord(10.0),
        dy: coord(20.0),
    };
    match gnome.inject_input(motion) {
        Err(BackendError::InputInjectionFailed(m)) => {
            assert_eq!(m, "Virtual pointer protocol not available")
        }
        _ => panic!("expected pointer failure"),
    }
    let session = SessionId::new("/s/1");
    match gnome.start_capture(&session) {
        Err(BackendError::CaptureFailed(m)) => assert_eq!(m, "Screencopy protocol not available"),
        _ => panic!("expected capture failure"),
    }

    let mut sway = WaylandBackend::new(env(true, false, true, None));
    sway.connect().unwrap();
    assert!(sway.connect().is_ok());
    assert!(sway.inject_input(key_a()).is_ok());
    assert_eq!(sway.start_capture(&session).unwrap().session_id.as_str(), "/s/1");
    assert_eq!(sway.capabilities().backend_name, "Wayland (Sway)");
}

#[test]
fn wayland_provider_info() {
    let p = WaylandProvider;
    assert_eq!(p.id(), "wayland");
    assert_eq!(p.name(), "Wayland (Generic)");
    assert!(p.is_available(&env(true, false, false, None)));
    assert!(!p.is_available(&env(false, false, false, None)));
    assert_eq!(p.info().capabilities.len(), 1);
}

#[test]
fn virtual_managers_accept_requests() {
    let k = VirtualKeyboardManager::default();
    assert!(k.key(30, KeyState::Pressed, 0).is_ok());
    assert!(k.modifiers(0, 0, 0, 0).is_ok());
    let p = VirtualPointerManager::default();
    assert!(p.button(0x110, ButtonState::Pressed, 0).is_ok());
    assert!(p.axis_discrete(0, 1, 0).is_ok());
    assert!(p.motion(coord(1.5), coord(-2.0), 0).is_ok());
    assert!(p.motion_absolute(coord(10.0), coord(20.0), 1920, 1080, 0).is_ok());
    assert!(p.axis(coord(0.0), coord(3.0), 0).is_ok());
}

// ---------------------------------------------------------------- selection

#[test]
fn backend_selection() {
    assert_eq!(select_backend(&env(true, true, false, None)), Some(BackendChoice::Cosmic));
    assert_eq!(select_backend(&env(true, false, false, None)), Some(BackendChoice::Wayland));
    assert_eq!(select_backend(&env(false, true, false, None)), None);
}

// ---------------------------------------------------------------- core backend

#[test]
fn test_display_server_detection() {
    assert_eq!(display_server_from_env(true, true), DisplayServerType::Wayland);
    assert_eq!(display_server_from_env(false, true), DisplayServerType::X11);
    assert_eq!(display_server_from_env(false, false), DisplayServerType::Unknown);
}

#[test]
fn mock_backend_injection() {
    let mut backend = MockBackend::new();
    assert!(backend.is_available());
    assert!(backend.connect().is_ok());
    backend.inject_input(key_a()).unwrap();
    backend
        .inject_input(InputEvent::PointerMotion {
            dx: coord(10.0),
            dy: coord(20.0),
        })
        .unwrap();
    backend
        .inject_input(InputEvent::PointerButton {
            button: 1,
            state: ButtonState::Pressed,
        })
        .unwrap();
    let events = backend.received_events();
    assert_eq!(events.len(), 3);
    assert!(matches!(events[0], InputEvent::KeyboardKeycode { .. }));
    backend.clear_events();
    assert!(backend.received_events().is_empty());
}

#[test]
fn mock_backend_capabilities_and_capture() {
    let backend = BackendFactory::create_best_available();
    assert!(backend.is_available());
    let caps = backend.capabilities();
    assert!(caps.can_inject_keyboard);
    assert!(caps.can_inject_pointer);
    assert!(caps.can_capture_screen);
    assert_eq!(caps.display_server_type, DisplayServerType::Virtual);
    assert_eq!(caps.backend_name, "Mock (testing)");
    let s = SessionId::new("/x");
    assert_eq!(backend.start_capture(&s).unwrap().session_id.as_str(), "/x");
    let d = MockBackend::default();
    assert!(d.received_events().is_empty());
}

#[test]
fn backend_error_messages() {
    assert_eq!(
        BackendError::NotAvailable("x".to_string()).message(),
        "Backend not available: x"
    );
    assert_eq!(
        BackendError::ConnectionFailed("x".to_string()).message(),
        "Failed to connect to compositor: x"
    );
    assert_eq!(
        BackendError::InputInjectionFailed("x".to_string()).message(),
        "Failed to inject input: x"
    );
    assert_eq!(
        BackendError::CaptureFailed("x".to_string()).message(),
        "Failed to capture screen: x"
    );
    assert_eq!(
        BackendError::InvalidSession("x".to_string()).message(),
        "Invalid session: x"
    );
    assert_eq!(BackendError::Other("x".to_string()).message(), "Backend error: x");
}

// ---------------------------------------------------------------- registry

fn provider(id: &str, caps: Vec<Capability>) -> ProviderInfo {
    ProviderInfo {
        id: id.to_string(),
        name: id.to_uppercase(),
        capabilities: caps,
    }
}

#[test]
fn registry_find_by_capability() {
    let mut r = BackendRegistry::default();
    assert_eq!(r.len(), 0);
    r.register(provider("a", vec![Capability::InjectKeyboard]));
    r.register(provider(
        "b",
        vec![Capability::CaptureScreen, Capability::Custom("x".to_string())],
    ));
    r.register(provider("c", vec![Capability::InjectKeyboard, Capability::CaptureScreen]));
    assert_eq!(r.len(), 3);
    assert_eq!(r.provider(1).id, "b");
    assert_eq!(r.find_by_capability(&Capability::InjectKeyboard), vec![0, 2]);
    assert_eq!(r.find_by_capability(&Capability::CaptureScreen), vec![1, 2]);
    assert_eq!(r.find_by_capability(&Capability::Custom("x".to_string())), vec![1]);
    assert!(r.find_by_capability(&Capability::InjectPointer).is_empty());
}

#[test]
fn registry_best_and_available() {
    let mut r = BackendRegistry::new();
    r.register(provider("a", vec![]));
    r.register(provider("b", vec![]));
    r.register(provider("c", vec![]));
    assert_eq!(r.find_best(&vec![false, true, true]), Some(1));
    assert_eq!(r.find_best(&vec![false, false, false]), None);
    assert_eq!(r.find_available(&vec![true, false, true]), vec![0, 2]);
}

#[test]
fn registry_query_capabilities_last_registration_wins() {
    let mut r = BackendRegistry::new();
    r.register(provider("a", vec![Capability::InjectKeyboard]));
    r.register(provider("b", vec![]));
    r.register(provider("a", vec![Capability::CaptureScreen, Capability::InjectPointer]));
    let q = r.query_capabilities();
    assert_eq!(q.len(), 2);
    let a = q.iter().find(|(id, _)| id == "a").unwrap();
    assert_eq!(a.1.len(), 2);
    assert!(a.1[0].same_as(&Capability::CaptureScreen));
    let b = q.iter().find(|(id, _)| id == "b").unwrap();
    assert!(b.1.is_empty());
}

#[test]
fn capabilities_listed_in_order() {
    let caps = MockBackend::new().capabilities();
    let list = capabilities_to_list(&caps);
    assert_eq!(list.len(), 4);
    assert!(list[0].same_as(&Capability::DisplayServer(DisplayServerType::Virtual)));
    assert!(list[1].same_as(&Capability::InjectKeyboard));
    assert!(list[2].same_as(&Capability::InjectPointer));
    assert!(list[3].same_as(&Capability::CaptureScreen));
    assert!(!list[3].same_as(&list[2].duplicate()));
}
