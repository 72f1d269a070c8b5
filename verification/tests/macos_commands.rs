use std::collections::{HashMap, HashSet, VecDeque};

use window_managers::macos::outer::{
    focus_rects, outer_adjacent_space_in_direction, outer_best_window_in_space,
    outer_same_space_focus_target, outer_topology_from_native_snapshot,
    resolved_outer_focused_window, OuterMacosSpace, OuterMacosTopology, OuterMacosWindow,
};
use window_managers::macos::property_list::{PropertyEntry, PropertyValue};
use window_managers::macos::raw_topology::{
    ensure_supported_target_space, focused_window_from_topology,
    native_desktop_snapshot_from_topology, space_id_for_window, DESKTOP_SPACE_TYPE,
    FULLSCREEN_SPACE_TYPE,
};
use window_managers::macos::same_space_focus::{
    focus_same_space_target_in_snapshot, FocusAction, FocusReply,
};
use window_managers::macos::scan::{space_snapshots_from_topology, ScanStep, TopologyScan};
use window_managers::macos::session::{
    close_refusal, focus_direction, move_direction, resize_refusal, spawn_parts, CommandAction,
    CommandReply, DirectionalCommand, MacosNativeAdapter,
};
use window_managers::macos::space_switch::{
    switch_space_in_snapshot, SwitchAction, SwitchReply,
};
use window_managers::macos::types::{
    DesktopError, MacosNativeConnectError, MacosNativeOperationError, MacosNativeProbeError,
    NativeBounds,
    NativeDesktopSnapshot, NativeDirection, NativeSpaceSnapshot, NativeWindowSnapshot,
    RawSpaceRecord, RawTopologySnapshot, RawWindow, SpaceKind,
};
use window_managers::macos::window_focus::{
    focus_window_by_id, WindowFocusAction, WindowFocusReply,
};
use window_managers::session::FloatingFocusMode;
use window_managers::topology::{DirectedRect, Direction, Rect};

fn bounds(x: i32, y: i32, width: i32, height: i32) -> NativeBounds {
    NativeBounds {
        x,
        y,
        width,
        height,
    }
}

fn raw(
    id: u64,
    visible_index: Option<usize>,
    pid: u32,
    app_id: &str,
    title: &str,
    frame: NativeBounds,
) -> RawWindow {
    RawWindow {
        id,
        pid: Some(pid),
        app_id: Some(app_id.to_string()),
        title: Some(title.to_string()),
        level: 0,
        visible_index,
        frame: Some(frame),
    }
}

fn raw_space_on_display(id: u64, display_index: usize, tile_spaces: &[u64]) -> RawSpaceRecord {
    RawSpaceRecord {
        managed_space_id: id,
        display_index,
        space_type: DESKTOP_SPACE_TYPE,
        tile_spaces: tile_spaces.to_vec(),
        has_tile_layout_manager: !tile_spaces.is_empty(),
        stage_manager_managed: false,
    }
}

fn raw_desktop_space(id: u64) -> RawSpaceRecord {
    raw_space_on_display(id, 0, &[])
}

fn raw_split_space(id: u64, tile_spaces: &[u64]) -> RawSpaceRecord {
    raw_space_on_display(id, 0, tile_spaces)
}

fn space(id: u64, active: bool, kind: SpaceKind) -> NativeSpaceSnapshot {
    NativeSpaceSnapshot {
        id,
        display_index: 0,
        active,
        kind,
    }
}

fn window(
    id: u64,
    pid: u32,
    app_id: &str,
    title: &str,
    frame: NativeBounds,
    space_id: u64,
    order_index: usize,
) -> NativeWindowSnapshot {
    NativeWindowSnapshot {
        id,
        pid: Some(pid),
        app_id: Some(app_id.to_string()),
        title: Some(title.to_string()),
        bounds: Some(frame),
        level: 0,
        space_id,
        order_index: Some(order_index),
    }
}

fn overlay(window: NativeWindowSnapshot) -> NativeWindowSnapshot {
    NativeWindowSnapshot {
        level: 25,
        ..window
    }
}

fn desktop(
    spaces: Vec<NativeSpaceSnapshot>,
    windows: Vec<NativeWindowSnapshot>,
    focused_window_id: Option<u64>,
) -> NativeDesktopSnapshot {
    let active_space_ids = spaces
        .iter()
        .filter(|space| space.active)
        .map(|space| space.id)
        .collect();
    NativeDesktopSnapshot {
        spaces,
        active_space_ids,
        windows,
        focused_window_id,
    }
}

/// The window whose centre is nearest among those whose centre lies towards `direction`.
fn closest(rects: &[DirectedRect], source: u64, direction: Direction) -> Option<u64> {
    let center = |rect: Rect| (2 * rect.x + rect.w, 2 * rect.y + rect.h);
    let from = center(rects.iter().find(|rect| rect.id == source)?.rect);
    rects
        .iter()
        .filter(|rect| rect.id != source)
        .filter(|rect| {
            let to = center(rect.rect);
            match direction {
                Direction::West => to.0 < from.0,
                Direction::East => to.0 > from.0,
                Direction::North => to.1 < from.1,
                Direction::South => to.1 > from.1,
            }
        })
        .min_by_key(|rect| {
            let to = center(rect.rect);
            (to.0 - from.0).pow(2) + (to.1 - from.1).pow(2)
        })
        .map(|rect| rect.id)
}

fn native_name(direction: NativeDirection) -> &'static str {
    match direction {
        NativeDirection::West => "west",
        NativeDirection::East => "east",
        NativeDirection::North => "north",
        NativeDirection::South => "south",
    }
}

/// Spaces and windows that change as spaces are switched.
struct Live {
    spaces: fn() -> Vec<RawSpaceRecord>,
    current_space_id: u64,
    /// The spaces that other displays show.
    other_active_space_ids: Vec<u64>,
    windows: HashMap<u64, Vec<RawWindow>>,
    switched_windows: HashMap<u64, Vec<RawWindow>>,
    hidden_window_ids: HashMap<u64, Vec<u64>>,
    /// The focus before any switch.
    focused_window_id: Option<u64>,
    /// What the current space shows once it was inspected after a switch.
    drifted_windows: Option<Vec<RawWindow>>,
    inspections: usize,
}

impl Live {
    fn shown(&self) -> Vec<RawWindow> {
        self.switched_windows
            .get(&self.current_space_id)
            .or_else(|| self.windows.get(&self.current_space_id))
            .cloned()
            .unwrap_or_default()
    }

    fn active_space_ids(&self) -> HashSet<u64> {
        let mut ids = HashSet::from([self.current_space_id]);
        ids.extend(&self.other_active_space_ids);
        ids
    }

    /// The windows of all spaces that are shown.
    fn all_shown(&self) -> HashMap<u64, Vec<RawWindow>> {
        let mut shown: HashMap<u64, Vec<RawWindow>> = self
            .other_active_space_ids
            .iter()
            .map(|id| (*id, self.windows.get(id).cloned().unwrap_or_default()))
            .collect();
        shown.insert(self.current_space_id, self.shown());
        shown
    }

    fn inspect(&mut self) -> NativeDesktopSnapshot {
        self.inspections += 1;
        let shown = self.shown();
        let focused_window_id = if self.inspections == 1 {
            self.focused_window_id
        } else {
            shown.first().map(|window| window.id)
        };
        let topology = RawTopologySnapshot {
            spaces: (self.spaces)(),
            active_space_ids: self.active_space_ids(),
            active_space_windows: self.all_shown(),
            inactive_space_window_ids: self
                .hidden_window_ids
                .iter()
                .filter(|(id, _)| **id != self.current_space_id)
                .map(|(id, windows)| (*id, windows.clone()))
                .collect(),
            focused_window_id,
        };
        if self.inspections == 2 {
            if let Some(windows) = self.drifted_windows.take() {
                self.switched_windows.insert(self.current_space_id, windows);
            }
        }
        native_desktop_snapshot_from_topology(&topology)
    }
}

enum Source {
    Snapshots(VecDeque<NativeDesktopSnapshot>),
    Live(Live),
}

/// What the shortcut to an adjacent space does.
enum Hotkey {
    /// There is none: spaces are switched to directly.
    Unused,
    Works,
    LandsOn(u64),
}

/// A desktop that records what is done to it.
struct Desk {
    source: Source,
    calls: Vec<String>,
    /// Whether each choice of a window went by the focus strategy.
    strategic_choices: Vec<bool>,
    probes: usize,
    records_probes: bool,
    stubs_switches: bool,
    stubs_same_space: bool,
    tells_pids_apart: bool,
    focusable: Option<HashSet<(u64, u32)>>,
    generic_focus_works: bool,
    ax_window_ids: HashMap<u32, Vec<u64>>,
    records_ax: bool,
    hotkey: Hotkey,
    direct_switch_works: bool,
}

impl Desk {
    fn new(source: Source) -> Self {
        Desk {
            source,
            calls: Vec::new(),
            strategic_choices: Vec::new(),
            probes: 0,
            records_probes: false,
            stubs_switches: false,
            stubs_same_space: false,
            tells_pids_apart: false,
            focusable: None,
            generic_focus_works: true,
            ax_window_ids: HashMap::new(),
            records_ax: false,
            hotkey: Hotkey::Unused,
            direct_switch_works: true,
        }
    }

    fn recording(snapshots: Vec<NativeDesktopSnapshot>) -> Self {
        Desk {
            records_probes: true,
            stubs_switches: true,
            tells_pids_apart: true,
            records_ax: true,
            ..Desk::new(Source::Snapshots(VecDeque::from(snapshots)))
        }
    }

    fn of_topology(topology: &RawTopologySnapshot) -> Self {
        Desk::new(Source::Snapshots(VecDeque::from([
            native_desktop_snapshot_from_topology(topology),
        ])))
    }

    fn live(
        spaces: fn() -> Vec<RawSpaceRecord>,
        current_space_id: u64,
        windows: Vec<RawWindow>,
        focused_window_id: u64,
        hidden_window_ids: Vec<(u64, Vec<u64>)>,
        switched_windows: Vec<(u64, Vec<RawWindow>)>,
    ) -> Self {
        Desk::new(Source::Live(Live {
            spaces,
            current_space_id,
            other_active_space_ids: Vec::new(),
            windows: HashMap::from([(current_space_id, windows)]),
            switched_windows: HashMap::from_iter(switched_windows),
            hidden_window_ids: HashMap::from_iter(hidden_window_ids),
            focused_window_id: Some(focused_window_id),
            drifted_windows: None,
            inspections: 0,
        }))
    }

    fn spaces(&mut self) -> &mut Live {
        match &mut self.source {
            Source::Live(live) => live,
            Source::Snapshots(_) => panic!("this desktop has no spaces to switch"),
        }
    }

    fn desktop_snapshot(&mut self) -> Result<NativeDesktopSnapshot, MacosNativeProbeError> {
        self.probes += 1;
        if self.records_probes {
            self.calls.push("desktop_snapshot".to_string());
        }
        match &mut self.source {
            Source::Live(live) => Ok(live.inspect()),
            Source::Snapshots(snapshots) => snapshots
                .pop_front()
                .ok_or(MacosNativeProbeError::MissingTopology("desktop_snapshot")),
        }
    }

    fn switch_space(&mut self, space_id: u64) -> Result<(), MacosNativeOperationError> {
        self.calls.push(format!("switch_space:{space_id}"));
        if !self.direct_switch_works {
            return Err(MacosNativeOperationError::CallFailed(
                "direct_switch_for_adjacent_space",
            ));
        }
        self.spaces().current_space_id = space_id;
        Ok(())
    }

    fn switch_adjacent_space(
        &mut self,
        direction: NativeDirection,
        space_id: u64,
    ) -> Result<(), MacosNativeOperationError> {
        match self.hotkey {
            Hotkey::Unused => self.switch_space(space_id),
            Hotkey::Works => {
                self.spaces().current_space_id = space_id;
                Ok(())
            }
            Hotkey::LandsOn(other) => {
                self.calls.push(format!(
                    "switch_adjacent_space:{}:{space_id}",
                    native_name(direction)
                ));
                self.spaces().current_space_id = other;
                Ok(())
            }
        }
    }

    fn focus_window(&mut self, id: u64) -> Result<(), MacosNativeOperationError> {
        self.calls.push(format!("focus_window:{id}"));
        if self.generic_focus_works {
            Ok(())
        } else {
            Err(MacosNativeOperationError::MissingWindow(id))
        }
    }

    fn focus_window_with_known_pid(
        &mut self,
        id: u64,
        pid: u32,
    ) -> Result<(), MacosNativeOperationError> {
        if !self.tells_pids_apart {
            return self.focus_window(id);
        }
        self.calls
            .push(format!("focus_window_with_known_pid:{id}:{pid}"));
        match &self.focusable {
            Some(targets) if !targets.contains(&(id, pid)) => {
                Err(MacosNativeOperationError::MissingWindow(id))
            }
            _ => Ok(()),
        }
    }

    fn switch_in(
        &mut self,
        snapshot: &NativeDesktopSnapshot,
        space_id: u64,
        adjacent: NativeDirection,
    ) -> Result<(), MacosNativeOperationError> {
        if self.stubs_switches {
            self.calls.push(format!(
                "switch_space_in_snapshot:{space_id}:{}",
                native_name(adjacent)
            ));
            return Ok(());
        }
        let Some((mut switch, mut action)) =
            switch_space_in_snapshot(snapshot, space_id, Some(adjacent))?
        else {
            return Ok(());
        };
        let mut polls = 0;
        loop {
            let reply = match action {
                SwitchAction::SwitchSpace(id) => SwitchReply::Switched(self.switch_space(id)),
                SwitchAction::SwitchAdjacentSpace(direction, id) => {
                    SwitchReply::Switched(self.switch_adjacent_space(direction, id))
                }
                SwitchAction::StartDeadline => {
                    polls = 0;
                    SwitchReply::Continue
                }
                SwitchAction::Rest => SwitchReply::Continue,
                SwitchAction::ActiveSpaceIds => {
                    polls += 1;
                    SwitchReply::Ids(Ok(self.spaces().active_space_ids()))
                }
                SwitchAction::OnscreenWindowIds => SwitchReply::Ids(Ok(self
                    .spaces()
                    .all_shown()
                    .values()
                    .flatten()
                    .map(|window| window.id)
                    .collect())),
                SwitchAction::CheckDeadline => SwitchReply::DeadlinePassed(polls >= 5),
                SwitchAction::Finish(result) => return result,
            };
            action = switch.advance(reply);
        }
    }

    fn focus_same_space(
        &mut self,
        snapshot: &NativeDesktopSnapshot,
        direction: NativeDirection,
        id: u64,
    ) -> Result<(), MacosNativeOperationError> {
        if self.stubs_same_space {
            self.calls.push(format!(
                "focus_same_space_target_in_snapshot:{}:{id}",
                native_name(direction)
            ));
            return Ok(());
        }
        let (focus, mut action) = focus_same_space_target_in_snapshot(snapshot, direction, id);
        let Some(mut focus) = focus else {
            let FocusAction::FocusWindow(id) = action else {
                unreachable!()
            };
            return self.focus_window(id);
        };
        loop {
            let reply = match action {
                FocusAction::AxWindowIdsForPid(pid) => {
                    if self.records_ax {
                        self.calls.push(format!("ax_window_ids_for_pid:{pid}"));
                    }
                    FocusReply::AxWindowIds(Ok(self
                        .ax_window_ids
                        .get(&pid)
                        .cloned()
                        .unwrap_or_default()))
                }
                FocusAction::FocusWindowWithKnownPid(id, pid) => {
                    FocusReply::Focused(self.focus_window_with_known_pid(id, pid))
                }
                FocusAction::FocusWindow(id) => FocusReply::Focused(self.focus_window(id)),
                FocusAction::DesktopSnapshot => FocusReply::Snapshot(self.desktop_snapshot()),
                FocusAction::Finish(result) => return result,
            };
            action = focus.advance(snapshot, reply);
        }
    }

    fn focus_window_by_id(
        &mut self,
        topology: &RawTopologySnapshot,
        id: u64,
    ) -> Result<(), MacosNativeOperationError> {
        let (mut focus, mut action) = focus_window_by_id(id);
        loop {
            let reply = match action {
                WindowFocusAction::Topology => WindowFocusReply::Topology(Ok(topology)),
                WindowFocusAction::FocusWindow(id) => {
                    self.calls.push(format!("focus_window_by_id:{id}"));
                    WindowFocusReply::Ran(Ok(()))
                }
                WindowFocusAction::SwitchSpace(_)
                | WindowFocusAction::FocusWindowWithKnownPid(_, _) => {
                    panic!("the window is shown, and its owner is not known")
                }
                WindowFocusAction::Finish(result) => return result,
            };
            action = focus.advance(reply);
        }
    }

    fn move_window_to_space(
        &mut self,
        topology: &RawTopologySnapshot,
        window_id: u64,
        space_id: u64,
    ) -> Result<(), MacosNativeOperationError> {
        space_id_for_window(topology, window_id)
            .ok_or(MacosNativeOperationError::MissingWindow(window_id))?;
        ensure_supported_target_space(topology, space_id)?;
        self.calls
            .push(format!("move_window_to_space:{window_id}:{space_id}"));
        Ok(())
    }

    fn run(&mut self, start: (DirectionalCommand, CommandAction)) -> Result<(), DesktopError> {
        let (mut command, mut action) = start;
        let mut planned: Option<NativeDesktopSnapshot> = None;
        loop {
            action = match action {
                CommandAction::Probe => {
                    let probed = self.desktop_snapshot();
                    let next = command.advance(CommandReply::Probed(probed.as_ref().map_err(|error| *error)));
                    planned = probed.ok();
                    next
                }
                CommandAction::Choose { focused_id } => {
                    self.strategic_choices.push(command.goes_by_focus_strategy());
                    let chosen = closest(&command.choices(), focused_id, command.direction);
                    command.advance(CommandReply::Chosen(chosen))
                }
                CommandAction::FocusSameSpace {
                    window_id,
                    direction,
                } => {
                    let result =
                        self.focus_same_space(planned.as_ref().unwrap(), direction, window_id);
                    command.advance(CommandReply::Ran(result))
                }
                CommandAction::SwitchSpace { space_id, adjacent } => {
                    let result = self.switch_in(planned.as_ref().unwrap(), space_id, adjacent);
                    command.advance(CommandReply::Ran(result))
                }
                CommandAction::FocusInActiveSpace { window_id, pid, .. } => {
                    let result = self.focus_window_with_known_pid(window_id, pid);
                    command.advance(CommandReply::Ran(result))
                }
                CommandAction::FocusWindow { window_id } => {
                    let result = self.focus_window(window_id);
                    command.advance(CommandReply::Ran(result))
                }
                CommandAction::SwapFrames {
                    source_window_id,
                    target_window_id,
                    ..
                } => {
                    self.calls.push(format!(
                        "swap_window_frames:{source_window_id}:{target_window_id}"
                    ));
                    command.advance(CommandReply::Ran(Ok(())))
                }
                CommandAction::MoveToSpace {
                    window_id,
                    space_id,
                } => {
                    self.calls
                        .push(format!("move_window_to_space:{window_id}:{space_id}"));
                    command.advance(CommandReply::Ran(Ok(())))
                }
                CommandAction::Finish(result) => return result,
            };
        }
    }
}

fn single_space_topology(
    space: RawSpaceRecord,
    windows: Vec<RawWindow>,
    focused_window_id: u64,
) -> RawTopologySnapshot {
    let id = space.managed_space_id;
    RawTopologySnapshot {
        spaces: vec![space],
        active_space_ids: HashSet::from([id]),
        active_space_windows: HashMap::from([(id, windows)]),
        inactive_space_window_ids: HashMap::new(),
        focused_window_id: Some(focused_window_id),
    }
}

fn selects_closest_neighbor_by_geometry() {
    let topology = single_space_topology(
        raw_desktop_space(1),
        vec![
            raw(10, None, 1010, "com.example.left", "left", bounds(0, 0, 100, 100)),
            raw(20, Some(0), 2020, "com.example.center", "center", bounds(120, 0, 100, 100)),
            raw(30, None, 3030, "com.example.right", "right", bounds(240, 0, 100, 100)),
        ],
        20,
    );
    let mut desk = Desk::of_topology(&topology);
    desk.run(focus_direction(Direction::West)).unwrap();
    assert_eq!(desk.calls, vec!["focus_window:10"]);
}

#[test]
fn macos_native_backend_focus_direction_selects_closest_neighbor_by_geometry() {
    selects_closest_neighbor_by_geometry();
}

#[test]
fn macos_native_backend_tests_backend_focus_direction_selects_closest_neighbor_by_geometry() {
    selects_closest_neighbor_by_geometry();
}

fn anonymous(id: u64, visible_index: usize, frame: NativeBounds) -> RawWindow {
    RawWindow {
        id,
        pid: None,
        app_id: None,
        title: None,
        level: 0,
        visible_index: Some(visible_index),
        frame: Some(frame),
    }
}

#[test]
fn direct_operations_delegate_to_backend_contract() {
    let topology = single_space_topology(
        raw_desktop_space(1),
        vec![
            anonymous(20, 0, bounds(120, 0, 100, 100)),
            anonymous(30, 1, bounds(240, 0, 100, 100)),
        ],
        20,
    );
    let mut desk = Desk::of_topology(&topology);

    let elsewhere = single_space_topology(
        raw_desktop_space(1),
        vec![anonymous(77, 0, bounds(0, 0, 100, 100))],
        77,
    );

    assert_eq!(
        desk.focus_window_by_id(&topology, 77),
        Err(MacosNativeOperationError::MissingWindow(77))
    );
    desk.focus_window_by_id(&elsewhere, 77).unwrap();
    desk.run(move_direction(Direction::East)).unwrap();
    desk.move_window_to_space(&topology, 20, 1).unwrap();

    assert_eq!(
        desk.calls,
        vec![
            "focus_window_by_id:77",
            "swap_window_frames:20:30",
            "move_window_to_space:20:1",
        ]
    );
}

#[test]
fn only_a_focus_goes_by_the_focus_strategy() {
    let topology = single_space_topology(
        raw_desktop_space(1),
        vec![
            anonymous(20, 0, bounds(120, 0, 100, 100)),
            anonymous(30, 1, bounds(240, 0, 100, 100)),
        ],
        20,
    );

    let mut desk = Desk::of_topology(&topology);
    desk.run(focus_direction(Direction::East)).unwrap();
    assert_eq!(desk.strategic_choices, vec![true]);

    let mut desk = Desk::of_topology(&topology);
    desk.run(move_direction(Direction::East)).unwrap();
    assert_eq!(desk.strategic_choices, vec![false]);

    let (mut command, _) = focus_direction(Direction::East);
    command.advance(CommandReply::Chosen(None));
    assert!(command.goes_by_focus_strategy());
    let (mut command, _) = move_direction(Direction::East);
    command.advance(CommandReply::Chosen(None));
    assert!(!command.goes_by_focus_strategy());
}

#[test]
fn the_focus_moves_between_floating_windows() {
    assert_eq!(
        MacosNativeAdapter::floating_focus_mode(),
        FloatingFocusMode::FloatingOnly
    );
}

#[test]
fn focus_direction_uses_outer_policy_with_native_snapshot() {
    let mut desk = Desk::recording(vec![desktop(
        vec![space(1, true, SpaceKind::Desktop)],
        vec![
            window(100, 2000, "com.example.west", "west", bounds(0, 0, 100, 100), 1, 0),
            window(101, 2001, "com.example.focused", "focused", bounds(200, 0, 100, 100), 1, 1),
        ],
        Some(101),
    )]);

    desk.run(focus_direction(Direction::West)).unwrap();

    assert_eq!(
        desk.calls,
        vec!["desktop_snapshot", "focus_window_with_known_pid:100:2000"]
    );
}

#[test]
fn focus_direction_delegates_same_pid_splitview_mechanics_to_backend_helper() {
    let mut desk = Desk::recording(vec![desktop(
        vec![space(1, true, SpaceKind::SplitView)],
        vec![
            window(10, 3350, "com.github.wez.wezterm", "left-pane", bounds(0, 0, 120, 120), 1, 0),
            window(15, 926, "ai.perplexity.mac", "interior-helper", bounds(150, 0, 60, 120), 1, 1),
            window(20, 926, "ai.perplexity.mac", "right-pane", bounds(220, 0, 120, 120), 1, 2),
        ],
        Some(20),
    )]);
    desk.stubs_same_space = true;

    desk.run(focus_direction(Direction::West)).unwrap();

    assert_eq!(
        desk.calls,
        vec![
            "desktop_snapshot",
            "focus_same_space_target_in_snapshot:west:15"
        ]
    );
}

fn left_and_right(left: NativeWindowSnapshot) -> NativeDesktopSnapshot {
    desktop(
        vec![space(1, true, SpaceKind::SplitView)],
        vec![left, right_pane(1)],
        Some(20),
    )
}

fn right_pane(order_index: usize) -> NativeWindowSnapshot {
    window(
        20,
        33_881,
        "com.apple.MobileSMS",
        "right-pane",
        bounds(220, 0, 120, 120),
        1,
        order_index,
    )
}

fn safari(id: u64, pid: u32, title: &str, x: i32, order_index: usize) -> NativeWindowSnapshot {
    window(
        id,
        pid,
        "com.apple.Safari",
        title,
        bounds(x, 0, 120 - x, 120),
        1,
        order_index,
    )
}

#[test]
fn focus_direction_falls_back_to_generic_focus_when_splitview_known_pid_focus_misses_target() {
    let snapshot = || {
        left_and_right(window(
            10,
            924,
            "ai.perplexity.mac",
            "left-pane",
            bounds(0, 0, 120, 120),
            1,
            0,
        ))
    };
    let mut desk = Desk::recording(vec![snapshot(), snapshot()]);
    desk.focusable = Some(HashSet::new());

    desk.run(focus_direction(Direction::West)).unwrap();

    assert_eq!(
        desk.calls,
        vec![
            "desktop_snapshot",
            "focus_window_with_known_pid:10:924",
            "desktop_snapshot",
            "focus_window:10",
        ]
    );
}

fn stale_and_live(stale_title: &str, live_title: &str) -> NativeDesktopSnapshot {
    desktop(
        vec![space(1, true, SpaceKind::SplitView)],
        vec![
            safari(23, 924, stale_title, 0, 0),
            safari(24, 1728, live_title, 8, 1),
            right_pane(2),
        ],
        Some(20),
    )
}

#[test]
fn focus_direction_remaps_splitview_target_to_focusable_same_app_peer_when_target_pid_is_stale() {
    let mut desk = Desk::recording(vec![stale_and_live("stale-left", "focusable-left")]);
    desk.focusable = Some(HashSet::from([(24, 1728)]));
    desk.ax_window_ids = HashMap::from([(924, vec![]), (1728, vec![24])]);

    desk.run(focus_direction(Direction::West)).unwrap();

    assert_eq!(
        desk.calls,
        vec![
            "desktop_snapshot",
            "focus_window_with_known_pid:23:924",
            "ax_window_ids_for_pid:1728",
            "focus_window_with_known_pid:24:1728",
        ]
    );
}

#[test]
fn focus_direction_remaps_splitview_target_to_same_app_peer_even_when_peer_ax_windows_are_empty_preflight(
) {
    let mut desk = Desk::recording(vec![stale_and_live("stale-left", "live-left")]);
    desk.focusable = Some(HashSet::from([(24, 1728)]));
    desk.generic_focus_works = false;
    desk.ax_window_ids = HashMap::from([(924, vec![]), (1728, vec![])]);

    desk.run(focus_direction(Direction::West)).unwrap();

    assert_eq!(
        desk.calls,
        vec![
            "desktop_snapshot",
            "focus_window_with_known_pid:23:924",
            "ax_window_ids_for_pid:1728",
            "focus_window_with_known_pid:24:1728",
        ]
    );
}

#[test]
fn focus_direction_requeries_splitview_target_from_fresh_snapshot_after_missing_window() {
    let mut desk = Desk::recording(vec![
        left_and_right(safari(23, 924, "stale-left", 0, 0)),
        left_and_right(safari(24, 1728, "live-left", 0, 0)),
    ]);
    desk.focusable = Some(HashSet::from([(24, 1728)]));
    desk.generic_focus_works = false;

    desk.run(focus_direction(Direction::West)).unwrap();

    assert_eq!(
        desk.calls,
        vec![
            "desktop_snapshot",
            "focus_window_with_known_pid:23:924",
            "desktop_snapshot",
            "focus_window_with_known_pid:24:1728",
        ]
    );
}

#[test]
fn focus_direction_requeries_splitview_target_from_fresh_snapshot_even_when_focus_state_drifts() {
    let mut desk = Desk::recording(vec![
        left_and_right(safari(23, 924, "stale-left", 0, 0)),
        NativeDesktopSnapshot {
            focused_window_id: None,
            ..left_and_right(safari(24, 1728, "live-left", 0, 0))
        },
    ]);
    desk.focusable = Some(HashSet::from([(24, 1728)]));
    desk.generic_focus_works = false;

    desk.run(focus_direction(Direction::West)).unwrap();

    assert_eq!(
        desk.calls,
        vec![
            "desktop_snapshot",
            "focus_window_with_known_pid:23:924",
            "desktop_snapshot",
            "focus_window_with_known_pid:24:1728",
        ]
    );
}

#[test]
fn focus_direction_remaps_refreshed_splitview_target_to_focusable_same_app_peer_when_direct_target_stays_stale(
) {
    let mut desk = Desk::recording(vec![
        left_and_right(safari(23, 924, "stale-left", 0, 0)),
        stale_and_live("still-stale-left", "focusable-left"),
    ]);
    desk.focusable = Some(HashSet::from([(24, 1728)]));
    desk.generic_focus_works = false;
    desk.ax_window_ids = HashMap::from([(924, vec![]), (1728, vec![24])]);

    desk.run(focus_direction(Direction::West)).unwrap();

    assert_eq!(
        desk.calls,
        vec![
            "desktop_snapshot",
            "focus_window_with_known_pid:23:924",
            "desktop_snapshot",
            "ax_window_ids_for_pid:1728",
            "focus_window_with_known_pid:24:1728",
        ]
    );
}

#[test]
fn focus_direction_returns_success_after_switching_to_empty_adjacent_space() {
    let focused = || {
        window(
            200,
            2200,
            "com.example.focused",
            "focused",
            bounds(200, 0, 100, 100),
            2,
            0,
        )
    };
    let mut desk = Desk::recording(vec![
        desktop(
            vec![
                space(1, false, SpaceKind::Desktop),
                space(2, true, SpaceKind::Desktop),
            ],
            vec![focused()],
            Some(200),
        ),
        desktop(
            vec![
                space(1, true, SpaceKind::Desktop),
                space(2, false, SpaceKind::Desktop),
            ],
            vec![focused()],
            None,
        ),
    ]);

    desk.run(focus_direction(Direction::West)).unwrap();

    assert_eq!(
        desk.calls,
        vec![
            "desktop_snapshot",
            "switch_space_in_snapshot:1:west",
            "desktop_snapshot",
        ]
    );
}

#[test]
fn focus_direction_escapes_overlay_only_space_into_adjacent_real_space() {
    let mut desk = Desk::recording(vec![
        desktop(
            vec![
                space(1, false, SpaceKind::Desktop),
                space(2, true, SpaceKind::Desktop),
            ],
            vec![
                overlay(window(33, 671, "com.apple.dock", "overlay-west", bounds(0, 0, 80, 80), 2, 1)),
                overlay(window(
                    40,
                    924,
                    "com.apple.controlcenter",
                    "overlay-focused",
                    bounds(200, 0, 80, 80),
                    2,
                    0,
                )),
            ],
            Some(40),
        ),
        desktop(
            vec![
                space(1, true, SpaceKind::Desktop),
                space(2, false, SpaceKind::Desktop),
            ],
            vec![window(
                200,
                2200,
                "com.example.target",
                "target",
                bounds(100, 0, 160, 160),
                1,
                0,
            )],
            None,
        ),
    ]);

    desk.run(focus_direction(Direction::West)).unwrap();

    assert_eq!(
        desk.calls,
        vec![
            "desktop_snapshot",
            "switch_space_in_snapshot:1:west",
            "desktop_snapshot",
            "focus_window_with_known_pid:200:2200",
        ]
    );
}

#[test]
fn focus_direction_ignores_overlay_target_when_entering_splitview_from_adjacent_space() {
    let mut desk = Desk::recording(vec![
        desktop(
            vec![
                space(1, false, SpaceKind::SplitView),
                space(2, true, SpaceKind::Desktop),
            ],
            vec![window(
                7866,
                1728,
                "com.apple.Safari",
                "source",
                bounds(200, 100, 300, 300),
                2,
                0,
            )],
            Some(7866),
        ),
        desktop(
            vec![
                space(1, true, SpaceKind::SplitView),
                space(2, false, SpaceKind::Desktop),
            ],
            vec![
                window(22, 33881, "com.apple.MobileSMS", "left", bounds(0, 0, 500, 900), 1, 1),
                window(24, 1728, "com.apple.Safari", "right", bounds(520, 0, 500, 900), 1, 0),
                overlay(window(
                    23,
                    924,
                    "com.apple.controlcenter",
                    "overlay",
                    bounds(1040, 0, 63, 39),
                    1,
                    2,
                )),
            ],
            Some(985),
        ),
    ]);

    desk.run(focus_direction(Direction::West)).unwrap();

    assert_eq!(
        desk.calls,
        vec![
            "desktop_snapshot",
            "switch_space_in_snapshot:1:west",
            "desktop_snapshot",
            "focus_window_with_known_pid:24:1728",
        ]
    );
}

#[test]
fn move_direction_uses_outer_geometry_and_backend_frame_actions() {
    let mut desk = Desk::recording(vec![desktop(
        vec![space(1, true, SpaceKind::Desktop)],
        vec![
            window(100, 2000, "com.example.west", "west", bounds(0, 0, 100, 100), 1, 0),
            window(101, 2001, "com.example.focused", "focused", bounds(200, 0, 100, 100), 1, 1),
        ],
        Some(101),
    )]);

    desk.run(move_direction(Direction::West)).unwrap();

    assert_eq!(
        desk.calls,
        vec!["desktop_snapshot", "swap_window_frames:101:100"]
    );
}

#[test]
fn move_direction_moves_window_to_adjacent_space_chosen_from_outer_topology() {
    let mut desk = Desk::recording(vec![desktop(
        vec![
            space(1, false, SpaceKind::Desktop),
            space(2, true, SpaceKind::Desktop),
        ],
        vec![window(
            200,
            2200,
            "com.example.focused",
            "focused",
            bounds(200, 0, 100, 100),
            2,
            0,
        )],
        Some(200),
    )]);

    desk.run(move_direction(Direction::West)).unwrap();

    assert_eq!(
        desk.calls,
        vec!["desktop_snapshot", "move_window_to_space:200:1"]
    );
}

fn rect(x: i32, y: i32, w: i32, h: i32) -> Rect {
    Rect { x, y, w, h }
}

fn outer_window(
    id: u64,
    pid: u32,
    frame: Rect,
    level: i32,
    order_index: usize,
) -> OuterMacosWindow {
    OuterMacosWindow {
        id,
        pid: Some(pid),
        space_id: 1,
        bounds: Some(frame),
        level,
        order_index: Some(order_index),
    }
}

fn same_space_target(topology: &OuterMacosTopology, direction: Direction) -> Option<u64> {
    let focused = resolved_outer_focused_window(topology)?;
    let chosen = closest(&focus_rects(topology, &focused), focused.id, direction);
    outer_same_space_focus_target(topology, &focused, direction, chosen)
}

#[test]
fn outer_same_space_focus_target_keeps_split_view_selection_generic() {
    let topology = OuterMacosTopology {
        spaces: vec![OuterMacosSpace {
            id: 1,
            display_index: 0,
            active: true,
            kind: SpaceKind::SplitView,
        }],
        windows: vec![
            outer_window(10, 3350, rect(0, 0, 120, 120), 0, 0),
            outer_window(15, 926, rect(150, 0, 60, 120), 0, 1),
            outer_window(20, 926, rect(220, 0, 120, 120), 0, 2),
        ],
        focused_window_id: Some(20),
        rects: vec![
            DirectedRect {
                id: 10,
                rect: rect(0, 0, 120, 120),
            },
            DirectedRect {
                id: 15,
                rect: rect(150, 0, 60, 120),
            },
            DirectedRect {
                id: 20,
                rect: rect(220, 0, 120, 120),
            },
        ],
    };

    assert_eq!(same_space_target(&topology, Direction::West), Some(15));
}

#[test]
fn outer_same_space_focus_target_uses_overlay_focus_as_source_geometry() {
    let topology = OuterMacosTopology {
        spaces: vec![OuterMacosSpace {
            id: 1,
            display_index: 0,
            active: true,
            kind: SpaceKind::Desktop,
        }],
        windows: vec![
            outer_window(10, 1010, rect(0, 0, 120, 120), 0, 0),
            outer_window(20, 2020, rect(160, 0, 120, 120), 0, 1),
            outer_window(99, 9999, rect(300, 0, 40, 120), 25, 2),
        ],
        focused_window_id: Some(99),
        rects: vec![
            DirectedRect {
                id: 10,
                rect: rect(0, 0, 120, 120),
            },
            DirectedRect {
                id: 20,
                rect: rect(160, 0, 120, 120),
            },
        ],
    };

    assert_eq!(same_space_target(&topology, Direction::West), Some(20));
}

fn prefers_opposite_split_pane_over_interior_same_app_window() {
    let topology = single_space_topology(
        raw_split_space(1, &[11, 12]),
        vec![
            raw(10, Some(0), 3350, "com.github.wez.wezterm", "left-pane", bounds(0, 0, 120, 120)),
            raw(15, Some(1), 926, "ai.perplexity.mac", "interior-helper", bounds(150, 0, 60, 120)),
            raw(20, Some(2), 926, "ai.perplexity.mac", "right-pane", bounds(220, 0, 120, 120)),
        ],
        20,
    );
    let mut desk = Desk::of_topology(&topology);
    desk.run(focus_direction(Direction::West)).unwrap();
    assert_eq!(desk.calls, vec!["focus_window:10"]);
}

#[test]
fn macos_native_backend_focus_direction_prefers_opposite_split_pane_over_interior_same_app_window()
{
    prefers_opposite_split_pane_over_interior_same_app_window();
}

#[test]
fn macos_native_backend_tests_backend_focus_direction_prefers_opposite_split_pane_over_interior_same_app_window(
) {
    prefers_opposite_split_pane_over_interior_same_app_window();
}

fn ignores_non_normal_layer_overlay_targets() {
    let control_center = RawWindow {
        level: 25,
        ..raw(52, Some(2), 950, "com.apple.controlcenter", "Control Center", bounds(1739, 0, 63, 39))
    };
    let topology = single_space_topology(
        raw_split_space(1, &[11, 12]),
        vec![
            raw(100, Some(0), 4001, "com.example.source", "source", bounds(0, 120, 500, 900)),
            raw(159, Some(1), 946, "com.example.target", "target", bounds(1200, 120, 500, 900)),
            control_center,
        ],
        100,
    );
    let mut desk = Desk::of_topology(&topology);
    desk.run(focus_direction(Direction::East)).unwrap();
    assert_eq!(desk.calls, vec!["focus_window:159"]);
}

#[test]
fn macos_native_backend_split_view_focus_ignores_non_normal_layer_overlay_targets() {
    ignores_non_normal_layer_overlay_targets();
}

#[test]
fn macos_native_backend_tests_backend_split_view_focus_ignores_non_normal_layer_overlay_targets() {
    ignores_non_normal_layer_overlay_targets();
}

fn wezterm_windows(with_focused: bool) -> Vec<RawWindow> {
    let app_id = "com.github.wez.wezterm";
    let mut windows = vec![
        raw(998, Some(0), 4613, app_id, "stale-left", bounds(0, 0, 120, 120)),
        raw(999, Some(1), 4613, app_id, "actual-left", bounds(12, 0, 108, 120)),
    ];
    if with_focused {
        windows.push(raw(410, Some(2), 4613, app_id, "focused-right", bounds(220, 0, 120, 120)));
    }
    windows
}

fn preflights_same_pid_splitview_ax_target_before_focus_attempt() {
    let topology =
        single_space_topology(raw_split_space(1, &[11, 12]), wezterm_windows(true), 410);
    let mut desk = Desk::of_topology(&topology);
    desk.tells_pids_apart = true;
    desk.focusable = Some(HashSet::from([(999, 4613), (410, 4613)]));
    desk.generic_focus_works = false;
    desk.ax_window_ids = HashMap::from([(4613, vec![999, 410])]);
    desk.run(focus_direction(Direction::West)).unwrap();
    assert_eq!(desk.calls, vec!["focus_window_with_known_pid:999:4613"]);
}

#[test]
fn macos_native_backend_focus_direction_preflights_same_pid_splitview_ax_target_before_focus_attempt(
) {
    preflights_same_pid_splitview_ax_target_before_focus_attempt();
}

#[test]
fn macos_native_backend_tests_backend_focus_direction_preflights_same_pid_splitview_ax_target_before_focus_attempt(
) {
    preflights_same_pid_splitview_ax_target_before_focus_attempt();
}

#[test]
fn focus_direction_uses_planning_snapshot_for_same_pid_ax_fallback() {
    let planning =
        single_space_topology(raw_split_space(1, &[11, 12]), wezterm_windows(true), 410);
    let execution = single_space_topology(raw_desktop_space(1), wezterm_windows(false), 999);
    let mut desk = Desk::new(Source::Snapshots(VecDeque::from([
        native_desktop_snapshot_from_topology(&planning),
        native_desktop_snapshot_from_topology(&execution),
    ])));
    desk.tells_pids_apart = true;
    desk.focusable = Some(HashSet::from([(999, 4613), (410, 4613)]));
    desk.generic_focus_works = false;
    desk.ax_window_ids = HashMap::from([(4613, vec![999, 410])]);

    desk.run(focus_direction(Direction::West)).unwrap();

    assert_eq!(desk.calls, vec!["focus_window_with_known_pid:999:4613"]);
    assert_eq!(desk.probes, 1);
}

fn split_then_desktop() -> Vec<RawSpaceRecord> {
    vec![raw_split_space(1, &[11, 12]), raw_desktop_space(2)]
}

fn two_desktops() -> Vec<RawSpaceRecord> {
    vec![raw_desktop_space(1), raw_desktop_space(2)]
}

fn three_desktops() -> Vec<RawSpaceRecord> {
    vec![
        raw_desktop_space(1),
        raw_desktop_space(2),
        raw_desktop_space(3),
    ]
}

fn two_displays() -> Vec<RawSpaceRecord> {
    vec![
        raw_space_on_display(1, 0, &[]),
        raw_space_on_display(2, 0, &[]),
        raw_space_on_display(10, 1, &[]),
        raw_space_on_display(11, 1, &[]),
    ]
}

fn switches_past_helper(front: (usize, NativeBounds), helper: (usize, NativeBounds)) {
    let mut desk = Desk::live(
        split_then_desktop,
        2,
        vec![
            raw(203, Some(front.0), 898, "com.apple.Safari", "frontmost", front.1),
            raw(201, Some(helper.0), 898, "com.apple.Safari", "helper", helper.1),
        ],
        203,
        vec![(1, vec![10, 20])],
        vec![(
            1,
            vec![
                raw(10, Some(0), 3350, "com.github.wez.wezterm", "left-pane", bounds(0, 0, 120, 120)),
                raw(20, Some(1), 926, "ai.perplexity.mac", "right-pane", bounds(220, 0, 120, 120)),
            ],
        )],
    );
    desk.run(focus_direction(Direction::West)).unwrap();
    assert_eq!(desk.calls, vec!["switch_space:1", "focus_window:20"]);
}

fn switches_when_helper_does_not_extend_west() {
    switches_past_helper((0, bounds(0, 0, 240, 120)), (1, bounds(40, 0, 80, 120)));
}

fn switches_when_helper_ties_west_edge() {
    switches_past_helper((1, bounds(0, 0, 240, 120)), (0, bounds(0, 0, 80, 120)));
}

#[test]
fn macos_native_backend_focus_direction_switches_to_adjacent_split_space_when_desktop_helper_does_not_extend_west(
) {
    switches_when_helper_does_not_extend_west();
}

#[test]
fn macos_native_backend_tests_backend_focus_direction_switches_to_adjacent_split_space_when_desktop_helper_does_not_extend_west(
) {
    switches_when_helper_does_not_extend_west();
}

#[test]
fn macos_native_backend_focus_direction_switches_to_adjacent_space_when_desktop_helper_ties_west_edge_despite_visible_order(
) {
    switches_when_helper_ties_west_edge();
}

#[test]
fn macos_native_backend_tests_backend_focus_direction_switches_to_adjacent_space_when_desktop_helper_ties_west_edge_despite_visible_order(
) {
    switches_when_helper_ties_west_edge();
}

fn source_window() -> RawWindow {
    raw(10, Some(0), 1010, "com.example.source", "source", bounds(0, 0, 100, 100))
}

fn uses_same_post_switch_snapshot_for_selection_and_focus() {
    let mut desk = Desk::live(
        two_desktops,
        1,
        vec![source_window()],
        10,
        vec![(2, vec![21, 22])],
        vec![(
            2,
            vec![raw(21, Some(0), 2121, "com.example.visible", "visible", bounds(0, 0, 100, 100))],
        )],
    );
    desk.spaces().drifted_windows = Some(vec![raw(
        22,
        Some(0),
        2222,
        "com.example.drifted",
        "drifted",
        bounds(240, 0, 100, 100),
    )]);
    desk.run(focus_direction(Direction::East)).unwrap();
    assert_eq!(desk.calls, vec!["switch_space:2", "focus_window:21"]);
}

#[test]
fn macos_native_backend_focus_direction_uses_same_post_switch_snapshot_for_selection_and_focus() {
    uses_same_post_switch_snapshot_for_selection_and_focus();
}

#[test]
fn macos_native_backend_tests_backend_focus_direction_uses_same_post_switch_snapshot_for_selection_and_focus(
) {
    uses_same_post_switch_snapshot_for_selection_and_focus();
}

fn switches_to_rightmost_window_in_previous_space() {
    let mut desk = Desk::live(
        three_desktops,
        2,
        vec![raw(20, Some(0), 2020, "com.example.center", "center", bounds(120, 0, 100, 100))],
        20,
        vec![(1, vec![11, 12]), (3, vec![30])],
        vec![(
            1,
            vec![
                raw(11, Some(0), 1010, "com.example.left", "left", bounds(0, 0, 100, 100)),
                raw(12, Some(1), 1212, "com.example.right", "right", bounds(240, 0, 100, 100)),
            ],
        )],
    );
    desk.run(focus_direction(Direction::West)).unwrap();
    assert_eq!(desk.calls, vec!["switch_space:1", "focus_window:12"]);
}

#[test]
fn macos_native_backend_focus_direction_switches_then_focuses_rightmost_window_in_previous_space_when_no_west_window_exists(
) {
    switches_to_rightmost_window_in_previous_space();
}

#[test]
fn macos_native_backend_tests_backend_focus_direction_switches_then_focuses_rightmost_window_in_previous_space_when_no_west_window_exists(
) {
    switches_to_rightmost_window_in_previous_space();
}

fn stays_on_the_display() {
    let mut desk = Desk::live(
        two_displays,
        11,
        vec![raw(
            1100,
            Some(0),
            1111,
            "com.example.right-display",
            "right display",
            bounds(120, 0, 100, 100),
        )],
        1100,
        vec![(1, vec![100]), (10, vec![1000])],
        vec![(
            10,
            vec![raw(
                1000,
                Some(0),
                1001,
                "com.example.other-display",
                "other display",
                bounds(0, 0, 100, 100),
            )],
        )],
    );
    let left = raw(
        200,
        None,
        2200,
        "com.example.left-display",
        "left display",
        bounds(0, 0, 100, 100),
    );
    desk.spaces().other_active_space_ids = vec![2];
    desk.spaces().windows.insert(2, vec![left]);
    desk.run(focus_direction(Direction::West)).unwrap();
    assert_eq!(desk.calls, vec!["switch_space:10", "focus_window:1000"]);
}

#[test]
fn macos_native_backend_focus_direction_switches_then_focuses_window_in_previous_space_on_same_display_only(
) {
    stays_on_the_display();
}

#[test]
fn macos_native_backend_tests_backend_focus_direction_switches_then_focuses_window_in_previous_space_on_same_display_only(
) {
    stays_on_the_display();
}

fn next_space_windows(left: Option<usize>, right: Option<usize>) -> Vec<(u64, Vec<RawWindow>)> {
    vec![(
        2,
        vec![
            raw(21, left, 2121, "com.example.left", "left", bounds(0, 0, 100, 100)),
            raw(22, right, 2222, "com.example.right", "right", bounds(240, 0, 100, 100)),
        ],
    )]
}

fn desk_with_next_space(switched: Vec<(u64, Vec<RawWindow>)>) -> Desk {
    Desk::live(
        two_desktops,
        1,
        vec![source_window()],
        10,
        vec![(2, vec![21, 22])],
        switched,
    )
}

fn switches_to_leftmost_window_in_next_space() {
    let mut desk = desk_with_next_space(next_space_windows(None, None));
    desk.run(focus_direction(Direction::East)).unwrap();
    assert_eq!(desk.calls, vec!["switch_space:2", "focus_window:21"]);
}

#[test]
fn macos_native_backend_focus_direction_switches_then_focuses_leftmost_window_in_next_space_when_no_east_window_exists(
) {
    switches_to_leftmost_window_in_next_space();
}

#[test]
fn macos_native_backend_tests_backend_focus_direction_switches_then_focuses_leftmost_window_in_next_space_when_no_east_window_exists(
) {
    switches_to_leftmost_window_in_next_space();
}

fn switches_to_edge_window_of_unknown_space() {
    let mut desk = desk_with_next_space(next_space_windows(Some(1), Some(0)));
    desk.run(focus_direction(Direction::East)).unwrap();
    assert_eq!(desk.calls, vec!["switch_space:2", "focus_window:21"]);
}

#[test]
fn macos_native_backend_focus_direction_switches_then_focuses_edge_window_when_offspace_metadata_is_missing(
) {
    switches_to_edge_window_of_unknown_space();
}

#[test]
fn macos_native_backend_tests_backend_focus_direction_switches_then_focuses_edge_window_when_offspace_metadata_is_missing(
) {
    switches_to_edge_window_of_unknown_space();
}

fn switches_without_direct_switch_primitive() {
    let mut desk = desk_with_next_space(next_space_windows(Some(1), Some(0)));
    desk.hotkey = Hotkey::Works;
    desk.direct_switch_works = false;
    desk.run(focus_direction(Direction::East)).unwrap();
    assert_eq!(desk.calls, vec!["focus_window:21"]);
}

#[test]
fn macos_native_backend_focus_direction_can_switch_adjacent_space_without_direct_switch_primitive()
{
    switches_without_direct_switch_primitive();
}

#[test]
fn macos_native_backend_tests_backend_focus_direction_can_switch_adjacent_space_without_direct_switch_primitive(
) {
    switches_without_direct_switch_primitive();
}

fn uses_exact_switch_for_empty_adjacent_space() {
    let mut desk = Desk::live(
        three_desktops,
        3,
        vec![raw(30, Some(0), 3030, "com.example.center", "center", bounds(240, 0, 100, 100))],
        30,
        vec![(1, vec![10]), (2, vec![])],
        vec![(
            1,
            vec![raw(10, Some(0), 1010, "com.example.left", "left", bounds(0, 0, 100, 100))],
        )],
    );
    desk.hotkey = Hotkey::LandsOn(1);
    desk.run(focus_direction(Direction::West)).unwrap();
    assert_eq!(desk.calls, vec!["switch_space:2"]);
}

#[test]
fn macos_native_backend_focus_direction_uses_exact_switch_for_empty_adjacent_space_when_hotkey_would_skip_it(
) {
    uses_exact_switch_for_empty_adjacent_space();
}

#[test]
fn macos_native_backend_tests_backend_focus_direction_uses_exact_switch_for_empty_adjacent_space_when_hotkey_would_skip_it(
) {
    uses_exact_switch_for_empty_adjacent_space();
}

fn ignores_ghost_inactive_window_ids() {
    let mut desk = Desk::live(
        three_desktops,
        1,
        vec![source_window()],
        10,
        vec![(2, vec![31, 32]), (3, vec![])],
        vec![(
            3,
            vec![
                raw(31, Some(1), 3131, "com.example.skip-left", "skip-left", bounds(240, 0, 100, 100)),
                raw(32, Some(0), 3232, "com.example.skip-right", "skip-right", bounds(360, 0, 100, 100)),
            ],
        )],
    );
    desk.hotkey = Hotkey::LandsOn(3);
    desk.run(focus_direction(Direction::East)).unwrap();
    assert_eq!(
        desk.calls,
        vec!["switch_adjacent_space:east:2", "switch_space:2"]
    );
}

#[test]
fn macos_native_backend_focus_direction_ignores_ghost_inactive_window_ids_for_empty_adjacent_space(
) {
    ignores_ghost_inactive_window_ids();
}

#[test]
fn macos_native_backend_tests_backend_focus_direction_ignores_ghost_inactive_window_ids_for_empty_adjacent_space(
) {
    ignores_ghost_inactive_window_ids();
}

fn swaps_with_directional_neighbor() {
    let untitled = |window: RawWindow| RawWindow {
        app_id: None,
        ..window
    };
    let topology = single_space_topology(
        raw_desktop_space(1),
        vec![
            untitled(raw(10, None, 1010, "", "left", bounds(0, 0, 100, 100))),
            untitled(raw(20, None, 2020, "", "center", bounds(120, 0, 100, 100))),
            untitled(raw(30, None, 3030, "", "right", bounds(240, 0, 100, 100))),
        ],
        20,
    );
    let mut desk = Desk::of_topology(&topology);
    desk.run(move_direction(Direction::East)).unwrap();
    assert_eq!(desk.calls, vec!["swap_window_frames:20:30"]);
}

#[test]
fn macos_native_backend_move_direction_swaps_with_directional_neighbor() {
    swaps_with_directional_neighbor();
}

#[test]
fn macos_native_backend_tests_backend_move_direction_swaps_with_directional_neighbor() {
    swaps_with_directional_neighbor();
}

#[test]
fn context_uses_api_topology_snapshot_override() {
    let titled = |id: u64, visible_index: usize| {
        raw(id, Some(visible_index), 1111, "app", "title", bounds(0, 0, 1, 1))
    };
    let topology = RawTopologySnapshot {
        spaces: vec![
            raw_desktop_space(1),
            raw_split_space(2, &[21, 22]),
            RawSpaceRecord {
                space_type: FULLSCREEN_SPACE_TYPE,
                ..raw_space_on_display(3, 1, &[])
            },
        ],
        active_space_ids: HashSet::from([1, 3]),
        active_space_windows: HashMap::from([(1, vec![titled(11, 2)]), (3, vec![titled(31, 0)])]),
        inactive_space_window_ids: HashMap::from([(2, vec![21, 22])]),
        focused_window_id: Some(31),
    };

    let spaces = space_snapshots_from_topology(&topology);
    let focused = focused_window_from_topology(&topology).unwrap();

    assert_eq!(
        spaces
            .iter()
            .filter(|space| space.is_active)
            .map(|space| space.id)
            .collect::<Vec<_>>(),
        vec![1, 3]
    );
    assert_eq!(focused.id, 31);
    assert_eq!(focused.space_id, 3);
}

#[test]
fn topology_snapshot_uses_api_focused_window_id() {
    let entry = |key: &str, value: PropertyValue| PropertyEntry {
        key: key.to_string(),
        value,
    };
    let display = PropertyValue::Dictionary(vec![
        entry("Display Identifier", PropertyValue::Text("main".to_string())),
        entry("Current Space ID", PropertyValue::Number(1)),
        entry(
            "Spaces",
            PropertyValue::Array(vec![PropertyValue::Dictionary(vec![
                entry("ManagedSpaceID", PropertyValue::Number(1)),
                entry("type", PropertyValue::Number(DESKTOP_SPACE_TYPE as i64)),
            ])]),
        ),
    ]);
    let mut scan = TopologyScan::start(&vec![display]).unwrap();
    assert_eq!(scan.step(), Some(ScanStep::Describe(1)));
    scan.describe(vec![raw(11, Some(0), 1, "app", "title", bounds(0, 0, 1, 1))]);

    let topology = scan.finish(Some(11));

    assert_eq!(topology.focused_window_id, Some(11));
}

#[test]
fn commands_report_that_nothing_lies_further_out() {
    let lonely = || {
        desktop(
            vec![space(1, true, SpaceKind::Desktop)],
            vec![window(1, 2, "app", "title", bounds(0, 0, 10, 10), 1, 0)],
            Some(1),
        )
    };
    let mut desk = Desk::recording(vec![lonely(), lonely(), lonely()]);
    assert_eq!(
        desk.run(focus_direction(Direction::West)),
        Err(DesktopError::Operation(
            MacosNativeOperationError::NoDirectionalFocusTarget(NativeDirection::West)
        ))
    );
    assert_eq!(
        desk.run(move_direction(Direction::East)),
        Err(DesktopError::Operation(
            MacosNativeOperationError::NoDirectionalMoveTarget(NativeDirection::East)
        ))
    );
    assert_eq!(
        desk.run(focus_direction(Direction::North)),
        Err(DesktopError::Operation(
            MacosNativeOperationError::NoDirectionalFocusTarget(NativeDirection::North)
        ))
    );
    assert_eq!(desk.calls.len(), 3);
}

#[test]
fn commands_pass_on_what_went_wrong() {
    let probe = MacosNativeProbeError::MissingTopology("desktop_snapshot");
    let mut desk = Desk::recording(Vec::new());
    assert_eq!(
        desk.run(focus_direction(Direction::West)),
        Err(DesktopError::Probe(probe))
    );
    let mut desk = Desk::recording(vec![desktop(
        vec![space(1, true, SpaceKind::Desktop)],
        Vec::new(),
        None,
    )]);
    assert_eq!(
        desk.run(focus_direction(Direction::West)),
        Err(DesktopError::NoFocusedWindow)
    );
    let frameless = NativeWindowSnapshot {
        bounds: None,
        ..window(2, 2, "app", "title", bounds(0, 0, 10, 10), 1, 1)
    };
    let (mut command, _) = move_direction(Direction::West);
    let snapshot = desktop(
        vec![space(1, true, SpaceKind::Desktop)],
        vec![
            window(1, 1, "app", "title", bounds(0, 0, 10, 10), 1, 0),
            frameless,
        ],
        Some(2),
    );
    assert_eq!(
        command.advance(CommandReply::Probed(Ok(&snapshot))),
        CommandAction::Choose { focused_id: 2 }
    );
    assert_eq!(
        command.advance(CommandReply::Chosen(Some(1))),
        CommandAction::Finish(Err(DesktopError::Operation(
            MacosNativeOperationError::MissingWindowFrame(2)
        )))
    );
}

#[test]
fn spaces_of_a_display_lie_side_by_side() {
    let snapshot = desktop(
        vec![
            space(1, true, SpaceKind::Desktop),
            NativeSpaceSnapshot {
                display_index: 1,
                ..space(5, true, SpaceKind::Desktop)
            },
            space(2, false, SpaceKind::Desktop),
        ],
        vec![
            window(11, 1, "app", "title", bounds(0, 0, 10, 10), 1, 0),
            window(12, 1, "app", "title", bounds(50, 0, 10, 10), 1, 1),
        ],
        Some(11),
    );
    let topology = outer_topology_from_native_snapshot(&snapshot);
    assert_eq!(
        outer_adjacent_space_in_direction(&topology, 1, Direction::East),
        Some(2)
    );
    assert_eq!(
        outer_adjacent_space_in_direction(&topology, 2, Direction::West),
        Some(1)
    );
    assert_eq!(
        outer_adjacent_space_in_direction(&topology, 1, Direction::West),
        None
    );
    assert_eq!(
        outer_adjacent_space_in_direction(&topology, 1, Direction::South),
        None
    );
    assert_eq!(
        outer_adjacent_space_in_direction(&topology, 5, Direction::East),
        None
    );
    assert_eq!(
        outer_best_window_in_space(&topology, 1, Direction::East)
            .unwrap()
            .id,
        12
    );
    assert_eq!(
        outer_best_window_in_space(&topology, 1, Direction::West)
            .unwrap()
            .id,
        11
    );
    assert!(outer_best_window_in_space(&topology, 2, Direction::West).is_none());
}

#[test]
fn connect_with_api_keeps_validation_in_outer_layer() {
    let fault = MacosNativeConnectError::MissingRequiredSymbol("SLSCopyManagedDisplaySpaces");
    let err = MacosNativeAdapter::connect(Err(fault)).unwrap_err();
    assert_eq!(err.message(), fault.message());
    assert_eq!(
        err.message(),
        "required macOS private symbol is unavailable: SLSCopyManagedDisplaySpaces"
    );
}

#[test]
fn unsupported_requests_are_refused() {
    assert!(MacosNativeAdapter::connect(Ok(())).is_ok());
    assert_eq!(
        MacosNativeAdapter::connect(Err(MacosNativeConnectError::MissingAccessibilityPermission))
            .unwrap_err()
            .message(),
        "Accessibility permission is required for macOS native support"
    );
    assert_eq!(
        resize_refusal(Direction::West).message(),
        "macos_native: resize west is not implemented"
    );
    assert_eq!(
        close_refusal(12).message(),
        "macos_native: close_window_by_id(12) is not implemented"
    );
    assert_eq!(
        spawn_parts(&Vec::new()).unwrap_err().message(),
        "spawn: empty command"
    );
    let (program, arguments) =
        spawn_parts(&vec!["open".to_string(), "-a".to_string()]).unwrap();
    assert_eq!((program.as_str(), arguments), ("open", vec!["-a".to_string()]));
}
