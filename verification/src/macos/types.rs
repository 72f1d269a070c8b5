//! Plain values that describe a macOS desktop: spaces, windows and the errors of the backend.
use crate::topology::{Direction, Rect};
use std::collections::HashMap;
use std::collections::HashSet;
use vstd::prelude::*;

verus! {

/// A direction as the native backend understands it.
#[derive(Clone, Copy, Debug, PartialEq, Eq, Structural)]
pub enum NativeDirection {
    West,
    East,
    North,
    South,
}

/// A window frame as the native backend reports it.
#[derive(Clone, Copy, Debug, PartialEq, Eq, Structural)]
pub struct NativeBounds {
    pub x: i32,
    pub y: i32,
    pub width: i32,
    pub height: i32,
}

/// What a space is used for.
#[derive(Clone, Copy, Debug, PartialEq, Eq, Structural)]
pub enum SpaceKind {
    Desktop,
    Fullscreen,
    SplitView,
    System,
    StageManagerOpaque,
}

/// One space of the desktop.
#[derive(Clone, Copy, Debug, PartialEq, Eq, Structural)]
pub struct NativeSpaceSnapshot {
    pub id: u64,
    pub display_index: usize,
    pub active: bool,
    pub kind: SpaceKind,
}

/// One window of the desktop.
#[derive(Debug, PartialEq, Eq)]
pub struct NativeWindowSnapshot {
    pub id: u64,
    pub pid: Option<u32>,
    pub app_id: Option<String>,
    pub title: Option<String>,
    pub bounds: Option<NativeBounds>,
    pub level: i32,
    pub space_id: u64,
    pub order_index: Option<usize>,
}

impl Clone for NativeWindowSnapshot {
    fn clone(&self) -> (copy: Self)
        ensures
            copy == *self,
    {
        NativeWindowSnapshot {
            id: self.id,
            pid: self.pid,
            app_id: self.app_id.clone(),
            title: self.title.clone(),
            bounds: self.bounds,
            level: self.level,
            space_id: self.space_id,
            order_index: self.order_index,
        }
    }
}

/// The whole desktop at one moment.
#[derive(Debug, PartialEq, Eq)]
pub struct NativeDesktopSnapshot {
    pub spaces: Vec<NativeSpaceSnapshot>,
    pub active_space_ids: HashSet<u64>,
    pub windows: Vec<NativeWindowSnapshot>,
    pub focused_window_id: Option<u64>,
}

/// Where a focus target was last seen, for when the window itself has gone stale.
#[derive(Clone, Copy, Debug, PartialEq, Eq, Structural)]
pub struct ActiveSpaceFocusTargetHint {
    pub space_id: u64,
    pub bounds: NativeBounds,
}

/// A space as the window server lists it.
#[derive(Debug, PartialEq, Eq)]
pub struct RawSpaceRecord {
    pub managed_space_id: u64,
    pub display_index: usize,
    pub space_type: i32,
    pub tile_spaces: Vec<u64>,
    pub has_tile_layout_manager: bool,
    pub stage_manager_managed: bool,
}

/// A window as the window server describes it.
#[derive(Debug, PartialEq, Eq)]
pub struct RawWindow {
    pub id: u64,
    pub pid: Option<u32>,
    pub app_id: Option<String>,
    pub title: Option<String>,
    pub level: i32,
    pub visible_index: Option<usize>,
    pub frame: Option<NativeBounds>,
}

impl Clone for RawWindow {
    fn clone(&self) -> (copy: Self)
        ensures
            copy == *self,
    {
        RawWindow {
            id: self.id,
            pid: self.pid,
            app_id: self.app_id.clone(),
            title: self.title.clone(),
            level: self.level,
            visible_index: self.visible_index,
            frame: self.frame,
        }
    }
}

/// Everything the window server says about spaces and windows at one moment.
#[derive(Debug, PartialEq, Eq)]
pub struct RawTopologySnapshot {
    pub spaces: Vec<RawSpaceRecord>,
    pub active_space_ids: HashSet<u64>,
    pub active_space_windows: HashMap<u64, Vec<RawWindow>>,
    pub inactive_space_window_ids: HashMap<u64, Vec<u64>>,
    pub focused_window_id: Option<u64>,
}

/// One window placed in its space.
#[derive(Debug, PartialEq, Eq)]
pub struct WindowSnapshot {
    pub id: u64,
    pub pid: Option<u32>,
    pub app_id: Option<String>,
    pub title: Option<String>,
    pub space_id: u64,
    pub order_index: Option<usize>,
}

/// Why the backend cannot be used at all.
#[derive(Debug, Clone, Copy, PartialEq, Eq)]
pub enum MacosNativeConnectError {
    MissingRequiredSymbol(&'static str),
    MissingAccessibilityPermission,
    MissingTopologyPrecondition(&'static str),
}

/// Why the desktop could not be inspected.
#[derive(Debug, Clone, Copy, PartialEq, Eq)]
pub enum MacosNativeProbeError {
    MissingTopology(&'static str),
    MissingFocusedWindow,
}

/// Why an operation on the desktop failed.
#[derive(Debug, Clone, Copy, PartialEq, Eq)]
pub enum MacosNativeOperationError {
    Probe(MacosNativeProbeError),
    MissingSpace(u64),
    MissingWindow(u64),
    MissingWindowFrame(u64),
    MissingWindowPid(u64),
    UnsupportedStageManagerSpace(u64),
    NoDirectionalFocusTarget(NativeDirection),
    NoDirectionalMoveTarget(NativeDirection),
    CallFailed(&'static str),
}

/// Why a request to the desktop session failed.
#[derive(Debug, Clone, Copy, PartialEq, Eq)]
pub enum DesktopError {
    NoFocusedWindow,
    Probe(MacosNativeProbeError),
    Operation(MacosNativeOperationError),
}

/// What a failed inspection means for a session: without a focus there is simply no window.
pub open spec fn probe_failure(error: MacosNativeProbeError) -> DesktopError {
    match error {
        MacosNativeProbeError::MissingFocusedWindow => DesktopError::NoFocusedWindow,
        MacosNativeProbeError::MissingTopology(_) => DesktopError::Probe(error),
    }
}

/// Restates a failed inspection for a session.
pub fn map_probe_error(error: MacosNativeProbeError) -> (result: DesktopError)
    ensures
        result == probe_failure(error),
{
    match error {
        MacosNativeProbeError::MissingFocusedWindow => DesktopError::NoFocusedWindow,
        MacosNativeProbeError::MissingTopology(_) => DesktopError::Probe(error),
    }
}

/// The native direction that stands for `direction`.
pub open spec fn native_direction(direction: Direction) -> NativeDirection {
    match direction {
        Direction::West => NativeDirection::West,
        Direction::East => NativeDirection::East,
        Direction::North => NativeDirection::North,
        Direction::South => NativeDirection::South,
    }
}

/// The direction that `direction` stands for.
pub open spec fn outer_direction(direction: NativeDirection) -> Direction {
    match direction {
        NativeDirection::West => Direction::West,
        NativeDirection::East => Direction::East,
        NativeDirection::North => Direction::North,
        NativeDirection::South => Direction::South,
    }
}

/// The rectangle that `bounds` covers.
pub open spec fn rect_of(bounds: NativeBounds) -> Rect {
    Rect { x: bounds.x, y: bounds.y, w: bounds.width, h: bounds.height }
}

/// The bounds that cover `rect`.
pub open spec fn bounds_of(rect: Rect) -> NativeBounds {
    NativeBounds { x: rect.x, y: rect.y, width: rect.w, height: rect.h }
}

/// Names the native direction for `direction`.
pub fn native_direction_from_outer(direction: Direction) -> (result: NativeDirection)
    ensures
        result == native_direction(direction),
{
    match direction {
        Direction::West => NativeDirection::West,
        Direction::East => NativeDirection::East,
        Direction::North => NativeDirection::North,
        Direction::South => NativeDirection::South,
    }
}

/// Names the direction that a native direction stands for.
pub fn outer_direction_from_native(direction: NativeDirection) -> (result: Direction)
    ensures
        result == outer_direction(direction),
{
    match direction {
        NativeDirection::West => Direction::West,
        NativeDirection::East => Direction::East,
        NativeDirection::North => Direction::North,
        NativeDirection::South => Direction::South,
    }
}

/// Restates a rectangle as native bounds.
pub fn native_bounds_from_outer(rect: Rect) -> (result: NativeBounds)
    ensures
        result == bounds_of(rect),
{
    NativeBounds { x: rect.x, y: rect.y, width: rect.w, height: rect.h }
}

/// Restates native bounds as a rectangle.
pub fn rect_from_native(bounds: NativeBounds) -> (result: Rect)
    ensures
        result == rect_of(bounds),
{
    Rect { x: bounds.x, y: bounds.y, w: bounds.width, h: bounds.height }
}

/// Crossing between the two descriptions of directions and frames loses nothing.
pub proof fn native_and_outer_geometry_agree(direction: Direction, bounds: NativeBounds, rect: Rect)
    ensures
        outer_direction(native_direction(direction)) == direction,
        bounds_of(rect_of(bounds)) == bounds,
        rect_of(bounds_of(rect)) == rect,
{
}

/// The two kinds of directions stand for each other by their names.
pub proof fn directions_stand_for_their_namesakes(
    outer: Direction,
    native: NativeDirection,
    forth: NativeDirection,
    back: Direction,
)
    requires
        call_ensures(native_direction_from_outer, (outer,), forth),
        call_ensures(outer_direction_from_native, (native,), back),
    ensures
        outer is West <==> forth is West,
        outer is East <==> forth is East,
        outer is North <==> forth is North,
        outer is South <==> forth is South,
        native is West <==> back is West,
        native is East <==> back is East,
        native is North <==> back is North,
        native is South <==> back is South,
        forth == native_direction(outer),
        back == outer_direction(native),
{
}

/// A frame and its rectangle have the same corner and the same extent.
pub proof fn frames_keep_their_corner_and_extent(
    bounds: NativeBounds,
    rect: Rect,
    covered: Rect,
    covering: NativeBounds,
)
    requires
        call_ensures(rect_from_native, (bounds,), covered),
        call_ensures(native_bounds_from_outer, (rect,), covering),
    ensures
        covered.x == bounds.x && covered.y == bounds.y,
        covered.w == bounds.width && covered.h == bounds.height,
        covering.x == rect.x && covering.y == rect.y,
        covering.width == rect.w && covering.height == rect.h,
        covered == rect_of(bounds),
        covering == bounds_of(rect),
{
}

/// Only a missing focus is restated; any other failed inspection is passed on as it is.
pub proof fn failed_inspections_are_passed_on(error: MacosNativeProbeError, restated: DesktopError)
    requires
        call_ensures(map_probe_error, (error,), restated),
    ensures
        error is MissingFocusedWindow <==> restated is NoFocusedWindow,
        error !is MissingFocusedWindow ==> restated == DesktopError::Probe(error),
{
}

} // verus!
