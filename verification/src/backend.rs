//! Choosing a window manager and connecting to it.
use crate::error::WmError;
use crate::session::ConfiguredWindowManager;
use vstd::prelude::*;

verus! {

/// The window managers that can be selected.
#[derive(Debug, Clone, Copy, PartialEq, Eq, Structural)]
pub enum WmBackend {
    Niri,
    I3,
    Hyprland,
    Mangowc,
    Paneru,
    Yabai,
    MacosNative,
}

/// The name by which a backend is selected.
pub open spec fn backend_text(backend: WmBackend) -> Seq<char> {
    match backend {
        WmBackend::Niri => "niri"@,
        WmBackend::I3 => "i3"@,
        WmBackend::Hyprland => "hyprland"@,
        WmBackend::Mangowc => "mangowc"@,
        WmBackend::Paneru => "paneru"@,
        WmBackend::Yabai => "yabai"@,
        WmBackend::MacosNative => "macos_native"@,
    }
}

impl WmBackend {
    /// Names the backend.
    pub fn as_str(self) -> (result: &'static str)
        ensures
            result@ == backend_text(self),
    {
        match self {
            WmBackend::Niri => "niri",
            WmBackend::I3 => "i3",
            WmBackend::Hyprland => "hyprland",
            WmBackend::Mangowc => "mangowc",
            WmBackend::Paneru => "paneru",
            WmBackend::Yabai => "yabai",
            WmBackend::MacosNative => "macos_native",
        }
    }
}

/// The operating systems that the adapters are written for.
#[derive(Debug, Clone, Copy, PartialEq, Eq, Structural)]
pub enum Platform {
    Linux,
    Macos,
    Other,
}

/// Which backends exist on a platform.
pub open spec fn exists_on(backend: WmBackend, platform: Platform) -> bool {
    match backend {
        WmBackend::Niri | WmBackend::I3 | WmBackend::Hyprland | WmBackend::Mangowc => platform
            == Platform::Linux,
        WmBackend::Paneru | WmBackend::Yabai | WmBackend::MacosNative => platform
            == Platform::Macos,
    }
}

/// A way to connect to a window manager.
pub trait WindowManagerSpec: Sync {
    /// The backend that it connects to.
    open spec fn serves(&self) -> WmBackend {
        arbitrary()
    }

    /// The name of the adapter.
    open spec fn label(&self) -> Seq<char> {
        arbitrary()
    }

    /// An attempt to connect may end like this.
    open spec fn may_connect_as(&self, outcome: Result<ConfiguredWindowManager, WmError>) -> bool {
        arbitrary()
    }

    fn backend(&self) -> (result: WmBackend)
        ensures
            result == self.serves(),
    ;

    fn name(&self) -> (result: &'static str)
        ensures
            result@ == self.label(),
    ;

    fn connect(&self) -> (result: Result<ConfiguredWindowManager, WmError>)
        ensures
            self.may_connect_as(result),
    ;
}

/// Stands in for a backend that does not exist on this system.
pub struct UnsupportedWindowManagerSpec {
    pub backend: WmBackend,
    pub name: &'static str,
    pub os: &'static str,
}

impl WindowManagerSpec for UnsupportedWindowManagerSpec {
    open spec fn serves(&self) -> WmBackend {
        self.backend
    }

    open spec fn label(&self) -> Seq<char> {
        self.name@
    }

    open spec fn may_connect_as(&self, outcome: Result<ConfiguredWindowManager, WmError>) -> bool {
        outcome == Err::<ConfiguredWindowManager, WmError>(
            WmError::BackendUnsupported { name: self.name, os: self.os },
        )
    }

    fn backend(&self) -> (result: WmBackend) {
        self.backend
    }

    fn name(&self) -> (result: &'static str) {
        self.name
    }

    fn connect(&self) -> (result: Result<ConfiguredWindowManager, WmError>) {
        Err(WmError::BackendUnsupported { name: self.name, os: self.os })
    }
}

/// Where to connect for a backend.
pub enum BackendSpec {
    /// The adapter of this backend, which exists on this system.
    BuiltIn(WmBackend),
    /// Nowhere.
    Unsupported(UnsupportedWindowManagerSpec),
}

/// Decides where to connect for a backend on a platform that calls itself `os`.
pub fn spec_for_backend(backend: WmBackend, platform: Platform, os: &'static str) -> (result:
    BackendSpec)
    ensures
        match result {
            BackendSpec::BuiltIn(found) => exists_on(backend, platform) && found == backend,
            BackendSpec::Unsupported(spec) => !exists_on(backend, platform) && spec.backend
                == backend && spec.name@ == backend_text(backend) && spec.os == os,
        },
{
    let built_in: bool = match backend {
        WmBackend::Niri | WmBackend::I3 | WmBackend::Hyprland | WmBackend::Mangowc => platform
            == Platform::Linux,
        WmBackend::Paneru | WmBackend::Yabai | WmBackend::MacosNative => platform
            == Platform::Macos,
    };
    if built_in {
        BackendSpec::BuiltIn(backend)
    } else {
        BackendSpec::Unsupported(
            UnsupportedWindowManagerSpec { backend, name: backend.as_str(), os },
        )
    }
}

/// `result` is what connecting to `backend` through `spec` comes to: a specification of another
/// backend is refused, and whatever else happens is what the specification does, a failure being
/// reported under its name. No other backend is tried.
pub open spec fn is_connection<S: WindowManagerSpec + ?Sized>(
    backend: WmBackend,
    spec: &S,
    result: Result<ConfiguredWindowManager, WmError>,
) -> bool {
    if spec.serves() != backend {
        result matches Err(WmError::BackendMismatch { backend: named, spec: name }) && named@
            == backend_text(backend) && name@ == spec.label()
    } else {
        match result {
            Ok(_) => spec.may_connect_as(result),
            Err(error) => error matches WmError::ConnectFailed { name, cause } && name@
                == spec.label() && spec.may_connect_as(Err(*cause)),
        }
    }
}

/// Connects to a backend through a specification.
pub fn connect_backend<S: WindowManagerSpec + ?Sized>(backend: WmBackend, spec: &S) -> (result:
    Result<ConfiguredWindowManager, WmError>)
    ensures
        is_connection(backend, spec, result),
{
    if spec.backend() != backend {
        return Err(WmError::BackendMismatch { backend: backend.as_str(), spec: spec.name() });
    }
    match spec.connect() {
        Ok(manager) => Ok(manager),
        Err(cause) => Err(WmError::ConnectFailed { name: spec.name(), cause: Box::new(cause) }),
    }
}

/// Connects to the selected backend: through `built_in`, the specification of its adapter, where
/// it exists on this system.
pub fn connect_selected<S: WindowManagerSpec + ?Sized>(
    backend: WmBackend,
    platform: Platform,
    os: &'static str,
    built_in: &S,
) -> (result: Result<ConfiguredWindowManager, WmError>)
    ensures
        if exists_on(backend, platform) {
            is_connection(backend, built_in, result)
        } else {
            result matches Err(WmError::ConnectFailed { name, cause }) && name@ == backend_text(
                backend,
            ) && (*cause matches WmError::BackendUnsupported { name: missing, os: system } && missing@
                == backend_text(backend) && system == os)
        },
{
    match spec_for_backend(backend, platform, os) {
        BackendSpec::BuiltIn(_) => connect_backend(backend, built_in),
        BackendSpec::Unsupported(spec) => connect_backend(backend, &spec),
    }
}

/// niri, i3, Hyprland and mangowc exist on Linux only, and paneru, yabai and the native backend on
/// macOS only; anywhere else nothing exists.
pub proof fn backends_exist_on_their_own_platform(
    backend: WmBackend,
    platform: Platform,
    os: &'static str,
    spec: BackendSpec,
)
    requires
        call_ensures(spec_for_backend, (backend, platform, os), spec),
    ensures
        spec is BuiltIn <==> if backend is Niri || backend is I3 || backend is Hyprland || backend
            is Mangowc {
            platform is Linux
        } else {
            platform is Macos
        },
        spec matches BackendSpec::BuiltIn(found) ==> found == backend,
        spec matches BackendSpec::Unsupported(spec) ==> spec.backend == backend && spec.os == os,
        spec is BuiltIn <==> exists_on(backend, platform),
{
}

/// Backends go by their own names, and no two by the same.
pub proof fn backends_go_by_their_names(backend: WmBackend, name: &'static str)
    requires
        call_ensures(WmBackend::as_str, (backend,), name),
    ensures
        backend is Niri ==> name@ == "niri"@,
        backend is I3 ==> name@ == "i3"@,
        backend is Hyprland ==> name@ == "hyprland"@,
        backend is Mangowc ==> name@ == "mangowc"@,
        backend is Paneru ==> name@ == "paneru"@,
        backend is Yabai ==> name@ == "yabai"@,
        backend is MacosNative ==> name@ == "macos_native"@,
        name@ == backend_text(backend),
{
}

/// Connecting to a backend that does not exist on the system fails and says which one is missing
/// there; no other is tried. Through the specification of another backend nothing is connected to.
pub proof fn missing_backends_are_not_replaced<S: WindowManagerSpec>(
    backend: WmBackend,
    platform: Platform,
    os: &'static str,
    spec: S,
    result: Result<ConfiguredWindowManager, WmError>,
)
    requires
        call_ensures(connect_selected::<S>, (backend, platform, os, &spec), result),
    ensures
        result is Ok ==> exists_on(backend, platform) && spec.serves() == backend
            && spec.may_connect_as(result),
        !exists_on(backend, platform) ==> (result matches Err(
            WmError::ConnectFailed { name, cause },
        ) && name@ == backend_text(backend) && (*cause matches WmError::BackendUnsupported {
            name: missing,
            os: system,
        } && missing@ == backend_text(backend) && system == os)),
        exists_on(backend, platform) && spec.serves() != backend ==> (result matches Err(
            WmError::BackendMismatch { backend: named, spec: other },
        ) && named@ == backend_text(backend) && other@ == spec.label()),
        exists_on(backend, platform) && spec.serves() == backend && result is Err ==> (
        result matches Err(WmError::ConnectFailed { name, cause }) && name@ == spec.label()
            && spec.may_connect_as(Err(*cause))),
{
}

/// A connection is made only through the specification that serves the backend: that of another one is
/// named in the error, and what it fails with is kept as the cause.
pub proof fn connections_go_through_their_own_specification<S: WindowManagerSpec>(
    backend: WmBackend,
    spec: S,
    result: Result<ConfiguredWindowManager, WmError>,
)
    requires
        call_ensures(connect_backend::<S>, (backend, &spec), result),
    ensures
        result is Ok ==> spec.serves() == backend && spec.may_connect_as(result),
        spec.serves() != backend ==> (result matches Err(
            WmError::BackendMismatch { backend: named, spec: other },
        ) && named@ == backend_text(backend) && other@ == spec.label()),
        spec.serves() == backend && result is Err ==> (result matches Err(
            WmError::ConnectFailed { name, cause },
        ) && name@ == spec.label() && spec.may_connect_as(Err(*cause))),
{
}

} // verus!
