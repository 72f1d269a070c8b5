use std::sync::{Arc, Mutex};

use window_managers::backend::{
    connect_backend, connect_selected, spec_for_backend, BackendSpec, Platform,
    UnsupportedWindowManagerSpec, WindowManagerSpec, WmBackend,
};
use window_managers::capability::{
    plan_resize, plan_tear_out, validate_declared_capabilities, CapabilitySupport,
    DirectionalCapability, PrimitiveWindowManagerCapabilities, WindowManagerCapabilities,
    WindowManagerCapabilityDescriptor,
};
use window_managers::error::WmError;
use window_managers::niri::{
    compose_tear_out, focused_window, resize_request, windows, NiriAdapter, NiriSpec, NiriWindow,
    TearOut,
};
use window_managers::process::ProcessId;
use window_managers::session::{
    ConfiguredWindowManager, FocusedWindowRecord, ResizeIntent, ResizeKind, WindowCycleProvider,
    WindowCycleRequest, WindowManagerFeatures, WindowManagerSession, WindowRecord,
};
use window_managers::topology::Direction;

struct InvalidComposedCapabilities;

impl WindowManagerCapabilityDescriptor for InvalidComposedCapabilities {
    fn name() -> &'static str {
        "invalid"
    }

    fn capabilities() -> WindowManagerCapabilities {
        WindowManagerCapabilities {
            primitives: PrimitiveWindowManagerCapabilities {
                tear_out_right: true,
                move_column: false,
                consume_into_column_and_move: false,
                set_window_width: true,
                set_window_height: true,
            },
            tear_out: DirectionalCapability {
                west: CapabilitySupport::Composed,
                east: CapabilitySupport::Native,
                north: CapabilitySupport::Unsupported,
                south: CapabilitySupport::Unsupported,
            },
            resize: DirectionalCapability::uniform(CapabilitySupport::Unsupported),
        }
    }
}

struct YabaiAdapter;

impl WindowManagerCapabilityDescriptor for YabaiAdapter {
    fn name() -> &'static str {
        "yabai"
    }

    fn capabilities() -> WindowManagerCapabilities {
        WindowManagerCapabilities {
            primitives: PrimitiveWindowManagerCapabilities {
                tear_out_right: false,
                move_column: false,
                consume_into_column_and_move: false,
                set_window_width: true,
                set_window_height: true,
            },
            tear_out: DirectionalCapability::uniform(CapabilitySupport::Unsupported),
            resize: DirectionalCapability::uniform(CapabilitySupport::Native),
        }
    }
}

#[test]
fn declared_capabilities_fail_validation_when_composed_primitives_missing() {
    let error = validate_declared_capabilities::<InvalidComposedCapabilities>()
        .expect_err("invalid composed capabilities should fail validation");
    assert!(error.message().contains("invalid capabilities for adapter"));
    assert!(error.cause().is_some());
}

#[test]
fn niri_capabilities_are_valid() {
    validate_declared_capabilities::<NiriAdapter>()
        .expect("niri capability descriptor should be valid");
}

#[test]
fn yabai_capabilities_are_valid() {
    validate_declared_capabilities::<YabaiAdapter>()
        .expect("yabai capability descriptor should be valid");
}

#[test]
fn tear_out_and_resize_plans_resolve_native_composed_and_unsupported() {
    let capabilities = NiriAdapter::capabilities();
    assert_eq!(
        plan_tear_out(capabilities, Direction::East),
        CapabilitySupport::Native
    );
    assert_eq!(
        plan_tear_out(capabilities, Direction::North),
        CapabilitySupport::Composed
    );
    assert_eq!(
        plan_resize(capabilities, Direction::West),
        CapabilitySupport::Native
    );
}

#[test]
fn configured_window_manager_delegates_to_object_safe_core() {
    let (mut wm, calls) = fake_configured_wm(WindowManagerFeatures::default());
    assert_eq!(wm.adapter_name(), "fake");
    assert_eq!(wm.focused_window().unwrap().id, 42);
    wm.focus_direction(Direction::West).unwrap();
    assert_eq!(*calls.lock().unwrap(), vec!["focus_direction:west"]);
}

#[test]
fn configured_window_manager_exposes_optional_capabilities_independently() {
    let mut features = WindowManagerFeatures::default();
    features.window_cycle = Some(Box::new(FakeCycleProvider));
    let (mut wm, _) = fake_configured_wm(features);
    assert!(wm.window_cycle().is_some());
    assert!(wm.domain_factory().is_none());
    assert!(wm.tear_out_composer().is_none());
    assert!(wm.tear_out_composer_mut().is_none());
    let request = WindowCycleRequest {
        app_id: None,
        title: None,
        spawn: None,
        new: false,
        summon: false,
    };
    assert!(wm
        .window_cycle_mut()
        .unwrap()
        .focus_or_cycle(&request)
        .is_ok());
}

#[test]
fn configured_window_manager_hands_every_request_on() {
    let (mut wm, calls) = fake_configured_wm(WindowManagerFeatures::default());
    assert_eq!(wm.capabilities(), WindowManagerCapabilities::none());
    assert!(wm.windows().unwrap().is_empty());
    wm.move_direction(Direction::South).unwrap();
    wm.resize_with_intent(ResizeIntent::new(Direction::East, ResizeKind::Grow, 5))
        .unwrap();
    wm.spawn(vec!["foot".to_string()]).unwrap();
    wm.focus_window_by_id(3).unwrap();
    assert!(wm.close_window_by_id(4).is_err());
    assert_eq!(
        *calls.lock().unwrap(),
        vec![
            "move_direction:south",
            "resize:east:5",
            "spawn:foot",
            "focus:3",
            "close:4"
        ]
    );
    assert_eq!(wm.adapter_name(), "fake");
    assert_eq!(wm.capabilities(), WindowManagerCapabilities::none());
}

#[test]
fn built_in_connectors_are_typed_as_configured_window_managers() {
    let spec_is_built_in = |backend: WmBackend, platform: Platform| {
        matches!(
            spec_for_backend(backend, platform, "test"),
            BackendSpec::BuiltIn(found) if found == backend
        )
    };
    assert!(spec_is_built_in(WmBackend::Niri, Platform::Linux));
    assert!(spec_is_built_in(WmBackend::I3, Platform::Linux));
    assert!(spec_is_built_in(WmBackend::Paneru, Platform::Macos));
    assert!(spec_is_built_in(WmBackend::Yabai, Platform::Macos));
    assert!(!spec_is_built_in(WmBackend::Niri, Platform::Macos));
    assert!(!spec_is_built_in(WmBackend::I3, Platform::Other));
    assert!(!spec_is_built_in(WmBackend::Paneru, Platform::Linux));
    assert!(!spec_is_built_in(WmBackend::Yabai, Platform::Other));
    let _ = connect_selected::<FailingSpec>
        as fn(
            WmBackend,
            Platform,
            &'static str,
            &FailingSpec,
        ) -> Result<ConfiguredWindowManager, WmError>;
}

#[test]
fn connect_selected_reports_configured_backend_failure_without_fallback() {
    let err = match connect_backend(WmBackend::Niri, &failing_spec(WmBackend::Niri)) {
        Ok(_) => panic!("configured backend should fail without fallback"),
        Err(err) => err,
    };
    assert!(err.message().contains("niri"));
    assert!(!err.message().contains("i3"));
    assert_eq!(err.cause().unwrap(), "niri connection failed");
}

#[test]
fn failing_spec_uses_requested_backend() {
    let spec = failing_spec(WmBackend::Yabai);

    assert_eq!(spec.backend(), WmBackend::Yabai);
    assert_eq!(spec.name(), "yabai");
}

#[test]
fn yabai_tear_out_and_resize_plans() {
    let capabilities = YabaiAdapter::capabilities();
    // Yabai doesn't support tear-out
    assert_eq!(
        plan_tear_out(capabilities, Direction::East),
        CapabilitySupport::Unsupported
    );
    // Yabai has native resize
    assert_eq!(
        plan_resize(capabilities, Direction::West),
        CapabilitySupport::Native
    );
}

#[test]
fn mismatched_specifications_are_refused() {
    let err = connect_backend(WmBackend::I3, &failing_spec(WmBackend::Niri))
        .err()
        .unwrap();
    assert_eq!(
        err.message(),
        "wm backend 'i3' resolved to mismatched spec 'niri'"
    );
    assert!(err.cause().is_none());
}

#[test]
fn missing_backends_are_named() {
    let spec = UnsupportedWindowManagerSpec {
        backend: WmBackend::Yabai,
        name: "yabai",
        os: "linux",
    };
    assert_eq!(spec.backend(), WmBackend::Yabai);
    assert_eq!(spec.name(), "yabai");
    let err = spec.connect().err().unwrap();
    assert_eq!(err.message(), "wm backend 'yabai' is not supported on linux");

    let err = connect_selected(
        WmBackend::Paneru,
        Platform::Linux,
        "linux",
        &failing_spec(WmBackend::Niri),
    )
    .err()
    .unwrap();
    assert_eq!(err.message(), "failed to connect configured wm 'paneru'");
    assert_eq!(
        err.cause().unwrap(),
        "wm backend 'paneru' is not supported on linux"
    );

    let err = connect_selected(
        WmBackend::Niri,
        Platform::Linux,
        "linux",
        &failing_spec(WmBackend::Niri),
    )
    .err()
    .unwrap();
    assert_eq!(err.message(), "failed to connect configured wm 'niri'");
}

#[test]
fn connecting_hands_the_window_manager_out() {
    let mut wm = connect_backend(WmBackend::I3, &WorkingSpec).ok().unwrap();
    assert_eq!(wm.focused_window().unwrap().id, 42);
}

#[test]
fn niri_windows_become_records() {
    let window = NiriWindow {
        id: 9,
        app_id: Some("foot".to_string()),
        title: None,
        pid: Some(77),
        is_focused: true,
        pos_in_scrolling_layout: Some((4, 2)),
    };
    let record = focused_window(&window);
    assert_eq!(record.id, 9);
    assert_eq!(record.pid, ProcessId::new(77));
    assert_eq!(record.original_tile_index, 2);
    let floating = NiriWindow {
        id: 10,
        app_id: None,
        title: Some("float".to_string()),
        pid: Some(-1),
        is_focused: false,
        pos_in_scrolling_layout: None,
    };
    let records = windows(&vec![window, floating]);
    assert_eq!(records[0].app_id.as_deref(), Some("foot"));
    assert!(records[0].is_focused);
    assert_eq!(records[1].pid, None);
    assert_eq!(records[1].original_tile_index, 1);
}

#[test]
fn niri_tears_windows_out() {
    NiriAdapter::connect(Ok(())).unwrap();
    let refused = WmError::Adapter("niri: connection refused".to_string());
    assert_eq!(
        NiriAdapter::connect(Err(refused)).unwrap_err().message(),
        "niri: connection refused"
    );
    assert_eq!(NiriSpec.backend(), WmBackend::Niri);
    assert_eq!(NiriSpec.name(), "niri");
    assert_eq!(
        compose_tear_out(Direction::West, 3),
        TearOut::MoveColumn(Direction::West)
    );
    assert_eq!(
        compose_tear_out(Direction::South, 3),
        TearOut::ConsumeIntoColumnAndMove(Direction::South, 3)
    );
    let request = resize_request(ResizeIntent::new(Direction::North, ResizeKind::Shrink, -8));
    assert_eq!(request.amount, 8);
    assert!(!request.grow);
    assert_eq!(request.direction, Direction::North);
}

fn fake_configured_wm(
    features: WindowManagerFeatures,
) -> (ConfiguredWindowManager, Arc<Mutex<Vec<String>>>) {
    let calls = Arc::new(Mutex::new(Vec::new()));
    let session = FakeSession {
        calls: calls.clone(),
    };
    (
        ConfiguredWindowManager::new(Box::new(session), features),
        calls,
    )
}

struct FakeSession {
    calls: Arc<Mutex<Vec<String>>>,
}

impl FakeSession {
    fn push_call(&self, call: String) {
        self.calls
            .lock()
            .expect("calls mutex should not be poisoned")
            .push(call);
    }
}

impl WindowManagerSession for FakeSession {
    fn adapter_name(&self) -> &'static str {
        "fake"
    }

    fn capabilities(&self) -> WindowManagerCapabilities {
        WindowManagerCapabilities::none()
    }

    fn focused_window(&mut self) -> Result<FocusedWindowRecord, WmError> {
        Ok(FocusedWindowRecord {
            id: 42,
            app_id: Some("fake-app".to_string()),
            title: Some("fake-title".to_string()),
            pid: None,
            original_tile_index: 1,
        })
    }

    fn windows(&mut self) -> Result<Vec<WindowRecord>, WmError> {
        Ok(Vec::new())
    }

    fn focus_direction(&mut self, direction: Direction) -> Result<(), WmError> {
        self.push_call(format!("focus_direction:{}", direction.name()));
        Ok(())
    }

    fn move_direction(&mut self, direction: Direction) -> Result<(), WmError> {
        self.push_call(format!("move_direction:{}", direction.name()));
        Ok(())
    }

    fn resize_with_intent(&mut self, intent: ResizeIntent) -> Result<(), WmError> {
        self.push_call(format!("resize:{}:{}", intent.direction.name(), intent.step));
        Ok(())
    }

    fn spawn(&mut self, command: Vec<String>) -> Result<(), WmError> {
        self.push_call(format!("spawn:{}", command.join(" ")));
        Ok(())
    }

    fn focus_window_by_id(&mut self, id: u64) -> Result<(), WmError> {
        self.push_call(format!("focus:{id}"));
        Ok(())
    }

    fn close_window_by_id(&mut self, id: u64) -> Result<(), WmError> {
        self.push_call(format!("close:{id}"));
        Err(WmError::Adapter("cannot close".to_string()))
    }
}

struct FakeCycleProvider;

impl WindowCycleProvider for FakeCycleProvider {
    fn focus_or_cycle(&mut self, _request: &WindowCycleRequest) -> Result<(), WmError> {
        Ok(())
    }
}

fn failing_spec(backend: WmBackend) -> FailingSpec {
    FailingSpec { backend }
}

struct FailingSpec {
    backend: WmBackend,
}

impl WindowManagerSpec for FailingSpec {
    fn backend(&self) -> WmBackend {
        self.backend
    }

    fn name(&self) -> &'static str {
        self.backend.as_str()
    }

    fn connect(&self) -> Result<ConfiguredWindowManager, WmError> {
        Err(WmError::Adapter(format!("{} connection failed", self.name())))
    }
}

struct WorkingSpec;

impl WindowManagerSpec for WorkingSpec {
    fn backend(&self) -> WmBackend {
        WmBackend::I3
    }

    fn name(&self) -> &'static str {
        "i3"
    }

    fn connect(&self) -> Result<ConfiguredWindowManager, WmError> {
        Ok(fake_configured_wm(WindowManagerFeatures::default()).0)
    }
}
