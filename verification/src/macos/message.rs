//! Errors of the macOS backend as text.
use crate::macos::types;
use crate::macos::types::{
    outer_direction_from_native, DesktopError, MacosNativeConnectError, MacosNativeOperationError,
    MacosNativeProbeError, NativeDirection,
};
use crate::text;
use crate::topology;
use vstd::prelude::*;
use vstd::string::*;

verus! {

fn with_text(before: &str, inner: &str, after: &str) -> (result: String)
    ensures
        result@ == before@ + inner@ + after@,
{
    let mut text: String = before.to_owned();
    text.append(inner);
    text.append(after);
    text
}

fn prefixed(before: &str, inner: &str) -> (result: String)
    ensures
        result@ == before@ + inner@,
{
    let mut text: String = before.to_owned();
    text.append(inner);
    text
}

fn with_id(before: &str, id: u64, after: &str) -> (result: String)
    ensures
        result@ == before@ + text::written(id as nat, 10) + after@,
{
    with_text(before, text::write_number(id, 10).as_str(), after)
}

/// The text of an error that keeps the backend from being used.
pub open spec fn connect_text(error: MacosNativeConnectError) -> Seq<char> {
    match error {
        MacosNativeConnectError::MissingRequiredSymbol(symbol) =>
            "required macOS private symbol is unavailable: "@ + symbol@,
        MacosNativeConnectError::MissingAccessibilityPermission =>
            "Accessibility permission is required for macOS native support"@,
        MacosNativeConnectError::MissingTopologyPrecondition(what) =>
            "macOS native topology precondition is unavailable: "@ + what@,
    }
}

impl MacosNativeConnectError {
    /// Renders the error as text.
    pub fn message(&self) -> (result: String)
        ensures
            result@ == connect_text(*self),
    {
        match self {
            MacosNativeConnectError::MissingRequiredSymbol(symbol) => prefixed(
                "required macOS private symbol is unavailable: ",
                symbol,
            ),
            MacosNativeConnectError::MissingAccessibilityPermission =>
                "Accessibility permission is required for macOS native support".to_owned(),
            MacosNativeConnectError::MissingTopologyPrecondition(what) => prefixed(
                "macOS native topology precondition is unavailable: ",
                what,
            ),
        }
    }
}

/// The text of an error that keeps the desktop from being inspected.
pub open spec fn probe_text(error: MacosNativeProbeError) -> Seq<char> {
    match error {
        MacosNativeProbeError::MissingTopology(what) =>
            "macOS native topology query is unavailable: "@ + what@,
        MacosNativeProbeError::MissingFocusedWindow =>
            "no focused window was found for any active Space"@,
    }
}

impl MacosNativeProbeError {
    /// Renders the error as text.
    pub fn message(&self) -> (result: String)
        ensures
            result@ == probe_text(*self),
    {
        match self {
            MacosNativeProbeError::MissingTopology(what) => prefixed(
                "macOS native topology query is unavailable: ",
                what,
            ),
            MacosNativeProbeError::MissingFocusedWindow =>
                "no focused window was found for any active Space".to_owned(),
        }
    }
}

/// The text of an error that made an operation fail.
pub open spec fn operation_text(error: MacosNativeOperationError) -> Seq<char> {
    match error {
        MacosNativeOperationError::Probe(probe) => probe_text(probe),
        MacosNativeOperationError::MissingSpace(id) => "macOS native space "@ + text::written(
            id as nat,
            10,
        ) + " was not found in the current topology"@,
        MacosNativeOperationError::MissingWindow(id) => "macOS native window "@ + text::written(
            id as nat,
            10,
        ) + " was not found in the current topology"@,
        MacosNativeOperationError::MissingWindowFrame(id) => "macOS native window "@
            + text::written(id as nat, 10) + " has no frame"@,
        MacosNativeOperationError::MissingWindowPid(id) => "macOS native window "@ + text::written(
            id as nat,
            10,
        ) + " does not expose an owner pid"@,
        MacosNativeOperationError::UnsupportedStageManagerSpace(id) =>
            "macOS native Stage Manager space "@ + text::written(id as nat, 10)
            + " is intentionally unsupported"@,
        MacosNativeOperationError::NoDirectionalFocusTarget(direction) =>
            "macos_native: no window to focus "@ + topology::direction_text(
            types::outer_direction(direction),
        ),
        MacosNativeOperationError::NoDirectionalMoveTarget(direction) =>
            "macos_native: no window to move "@ + topology::direction_text(
            types::outer_direction(direction),
        ),
        MacosNativeOperationError::CallFailed(call) => "macOS native operation failed: "@ + call@
           ,
    }
}

impl MacosNativeOperationError {
    /// Renders the error as text.
    pub fn message(&self) -> (result: String)
        ensures
            result@ == operation_text(*self),
    {
        match self {
            MacosNativeOperationError::Probe(probe) => probe.message(),
            MacosNativeOperationError::MissingSpace(id) => with_id(
                "macOS native space ",
                *id,
                " was not found in the current topology",
            ),
            MacosNativeOperationError::MissingWindow(id) => with_id(
                "macOS native window ",
                *id,
                " was not found in the current topology",
            ),
            MacosNativeOperationError::MissingWindowFrame(id) => with_id(
                "macOS native window ",
                *id,
                " has no frame",
            ),
            MacosNativeOperationError::MissingWindowPid(id) => with_id(
                "macOS native window ",
                *id,
                " does not expose an owner pid",
            ),
            MacosNativeOperationError::UnsupportedStageManagerSpace(id) => with_id(
                "macOS native Stage Manager space ",
                *id,
                " is intentionally unsupported",
            ),
            MacosNativeOperationError::NoDirectionalFocusTarget(direction) => prefixed(
                "macos_native: no window to focus ",
                outer_direction_from_native(*direction).name(),
            ),
            MacosNativeOperationError::NoDirectionalMoveTarget(direction) => prefixed(
                "macos_native: no window to move ",
                outer_direction_from_native(*direction).name(),
            ),
            MacosNativeOperationError::CallFailed(call) => prefixed(
                "macOS native operation failed: ",
                call,
            ),
        }
    }
}

/// The text of an error of a session.
pub open spec fn desktop_text(error: DesktopError) -> Seq<char> {
    match error {
        DesktopError::NoFocusedWindow => "no focused window"@,
        DesktopError::Probe(probe) => probe_text(probe),
        DesktopError::Operation(operation) => operation_text(operation),
    }
}

impl DesktopError {
    /// Renders the error as text.
    pub fn message(&self) -> (result: String)
        ensures
            result@ == desktop_text(*self),
    {
        match self {
            DesktopError::NoFocusedWindow => "no focused window".to_owned(),
            DesktopError::Probe(probe) => probe.message(),
            DesktopError::Operation(operation) => operation.message(),
        }
    }
}

/// Every error that keeps the backend from being used or the desktop from being inspected says so, and
/// names what is missing.
pub proof fn missing_things_are_named(
    connect: MacosNativeConnectError,
    probe: MacosNativeProbeError,
    connect_message: String,
    probe_message: String,
)
    requires
        call_ensures(MacosNativeConnectError::message, (&connect,), connect_message),
        call_ensures(MacosNativeProbeError::message, (&probe,), probe_message),
    ensures
        connect matches MacosNativeConnectError::MissingRequiredSymbol(symbol) ==> connect_message@
            == "required macOS private symbol is unavailable: "@ + symbol@,
        connect is MissingAccessibilityPermission ==> connect_message@
            == "Accessibility permission is required for macOS native support"@,
        connect matches MacosNativeConnectError::MissingTopologyPrecondition(what)
            ==> connect_message@ == "macOS native topology precondition is unavailable: "@ + what@,
        probe matches MacosNativeProbeError::MissingTopology(what) ==> probe_message@
            == "macOS native topology query is unavailable: "@ + what@,
        probe is MissingFocusedWindow ==> probe_message@
            == "no focused window was found for any active Space"@,
        probe_message@ == probe_text(probe),
{
}

/// Every failed operation names the space, the window, the direction or the call that it failed with,
/// and a failed inspection reads the same wherever it is reported.
pub proof fn failures_name_what_they_concern(
    error: MacosNativeOperationError,
    probe: MacosNativeProbeError,
    desktop: DesktopError,
    message: String,
    probe_message: String,
    desktop_message: String,
)
    requires
        call_ensures(MacosNativeOperationError::message, (&error,), message),
        call_ensures(MacosNativeProbeError::message, (&probe,), probe_message),
        call_ensures(DesktopError::message, (&desktop,), desktop_message),
    ensures
        error == MacosNativeOperationError::Probe(probe) ==> message@ == probe_message@,
        error matches MacosNativeOperationError::MissingSpace(id) ==> message@
            == "macOS native space "@ + text::written(id as nat, 10)
            + " was not found in the current topology"@,
        error matches MacosNativeOperationError::MissingWindow(id) ==> message@
            == "macOS native window "@ + text::written(id as nat, 10)
            + " was not found in the current topology"@,
        error matches MacosNativeOperationError::MissingWindowFrame(id) ==> message@
            == "macOS native window "@ + text::written(id as nat, 10) + " has no frame"@,
        error matches MacosNativeOperationError::MissingWindowPid(id) ==> message@
            == "macOS native window "@ + text::written(id as nat, 10)
            + " does not expose an owner pid"@,
        error matches MacosNativeOperationError::UnsupportedStageManagerSpace(id) ==> message@
            == "macOS native Stage Manager space "@ + text::written(id as nat, 10)
            + " is intentionally unsupported"@,
        error == MacosNativeOperationError::NoDirectionalFocusTarget(NativeDirection::West)
            ==> message@ == "macos_native: no window to focus "@ + "west"@,
        error == MacosNativeOperationError::NoDirectionalFocusTarget(NativeDirection::East)
            ==> message@ == "macos_native: no window to focus "@ + "east"@,
        error == MacosNativeOperationError::NoDirectionalFocusTarget(NativeDirection::North)
            ==> message@ == "macos_native: no window to focus "@ + "north"@,
        error == MacosNativeOperationError::NoDirectionalFocusTarget(NativeDirection::South)
            ==> message@ == "macos_native: no window to focus "@ + "south"@,
        error == MacosNativeOperationError::NoDirectionalMoveTarget(NativeDirection::West)
            ==> message@ == "macos_native: no window to move "@ + "west"@,
        error == MacosNativeOperationError::NoDirectionalMoveTarget(NativeDirection::East)
            ==> message@ == "macos_native: no window to move "@ + "east"@,
        error == MacosNativeOperationError::NoDirectionalMoveTarget(NativeDirection::North)
            ==> message@ == "macos_native: no window to move "@ + "north"@,
        error == MacosNativeOperationError::NoDirectionalMoveTarget(NativeDirection::South)
            ==> message@ == "macos_native: no window to move "@ + "south"@,
        error matches MacosNativeOperationError::CallFailed(call) ==> message@
            == "macOS native operation failed: "@ + call@,
        desktop is NoFocusedWindow ==> desktop_message@ == "no focused window"@,
        desktop == DesktopError::Probe(probe) ==> desktop_message@ == probe_message@,
        desktop == DesktopError::Operation(error) ==> desktop_message@ == message@,
{
}

} // verus!
