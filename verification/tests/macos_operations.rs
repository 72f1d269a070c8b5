use std::collections::{HashMap, HashSet, VecDeque};

use window_managers::macos::accessibility::{
    ax_pid, ax_window_id, ax_window_ids, find_ax_window, nonzero, set_window_frame_via_ax,
    swap_window_frames, FrameAction, FrameChange, FrameReply, FrameSwap, SwapAction, SwapReply,
};
use window_managers::macos::environment::{
    validate_environment, validate_fast_focus, CheckAction, EnvironmentCheck,
};
use window_managers::macos::input::{
    check_status, key_window_event, key_window_events, mission_control_shortcut_flags,
    narrow_window_id,
    switch_adjacent_space_via_hotkey, KeyEvent, MissionControlHotkey, MissionControlModifiers,
    SpaceHotkeys, COMMAND_FLAG, CONTROL_FLAG, EVENT_RECORD_LEN, FUNCTION_FLAG, OPTION_FLAG,
    SHIFT_FLAG,
};
use window_managers::macos::raise::{
    focus_window_in_active_space_with_known_pid, focus_window_via_make_key_and_raise,
    focus_window_via_process_and_raise, focus_window_with_known_pid, KnownPidAction,
    KnownPidFocus, KnownPidReply, ProcessSerialNumber, RaiseAction, RaiseReply, WindowRaise,
};
use window_managers::macos::raw_topology::{
    ensure_supported_target_space, focused_window_from_topology, native_desktop_snapshot_from_topology, space_id_for_window,
    DESKTOP_SPACE_TYPE,
};
use window_managers::macos::space_switch::{
    switch_space_in_snapshot, SpaceSwitch, SwitchAction, SwitchReply,
};
use window_managers::macos::types::{
    ActiveSpaceFocusTargetHint, DesktopError, MacosNativeConnectError,
    MacosNativeOperationError, MacosNativeProbeError, NativeBounds, NativeDesktopSnapshot,
    NativeDirection, NativeSpaceSnapshot, NativeWindowSnapshot, RawSpaceRecord,
    RawTopologySnapshot, RawWindow, SpaceKind,
};
use window_managers::macos::window_focus::{
    focus_window_by_id, WindowFocusAction, WindowFocusReply,
};

fn raw_window(id: u64, pid: Option<u32>, visible_index: Option<usize>) -> RawWindow {
    RawWindow {
        id,
        pid,
        app_id: None,
        title: None,
        level: 0,
        visible_index,
        frame: None,
    }
}

fn raw_space(id: u64, stage_manager_managed: bool) -> RawSpaceRecord {
    RawSpaceRecord {
        managed_space_id: id,
        display_index: 0,
        space_type: DESKTOP_SPACE_TYPE,
        tile_spaces: Vec::new(),
        has_tile_layout_manager: false,
        stage_manager_managed,
    }
}

fn target_topology(
    window_id: u64,
    target_space_id: u64,
    stage_manager_managed: bool,
) -> RawTopologySnapshot {
    RawTopologySnapshot {
        spaces: vec![
            raw_space(1, false),
            raw_space(target_space_id, stage_manager_managed),
        ],
        active_space_ids: HashSet::from([1]),
        active_space_windows: HashMap::from([(1, vec![raw_window(11, Some(1111), Some(0))])]),
        inactive_space_window_ids: HashMap::from([(target_space_id, vec![window_id])]),
        focused_window_id: Some(11),
    }
}

fn focus_target_topology_fixture(window_id: u64, target_space_id: u64) -> RawTopologySnapshot {
    target_topology(window_id, target_space_id, false)
}

fn stage_manager_target_topology_fixture(
    window_id: u64,
    target_space_id: u64,
) -> RawTopologySnapshot {
    target_topology(window_id, target_space_id, true)
}

fn move_target_topology_fixture(window_id: u64, target_space_id: u64) -> RawTopologySnapshot {
    RawTopologySnapshot {
        spaces: vec![raw_space(1, false), raw_space(target_space_id, false)],
        active_space_ids: HashSet::from([1]),
        active_space_windows: HashMap::from([(
            1,
            vec![raw_window(window_id, Some(5151), Some(0))],
        )]),
        inactive_space_window_ids: HashMap::new(),
        focused_window_id: Some(window_id),
    }
}

fn window_ids_for_space(topology: &RawTopologySnapshot, space_id: u64) -> HashSet<u64> {
    match topology.active_space_windows.get(&space_id) {
        Some(windows) => windows.iter().map(|window| window.id).collect(),
        None => topology
            .inactive_space_window_ids
            .get(&space_id)
            .into_iter()
            .flatten()
            .copied()
            .collect(),
    }
}

/// A window server on which windows can be raised after some attempts.
struct RaiseServer {
    raise_misses: usize,
    attempts: usize,
    number_attempts: bool,
    calls: Vec<String>,
}

impl RaiseServer {
    fn new(raise_misses: usize) -> Self {
        RaiseServer {
            raise_misses,
            attempts: 0,
            number_attempts: raise_misses > 0,
            calls: Vec::new(),
        }
    }

    fn perform(&mut self, action: RaiseAction) -> RaiseReply {
        match action {
            RaiseAction::WindowPid(id) => {
                assert_eq!(id, 77);
                RaiseReply::Pid(Ok(Some(5151)))
            }
            RaiseAction::ProcessSerialNumber(pid) => {
                assert_eq!(pid, 5151);
                RaiseReply::Process(Ok(ProcessSerialNumber {
                    high_long_of_psn: 1,
                    low_long_of_psn: 2,
                }))
            }
            RaiseAction::FrontProcessWindow(psn, id) => {
                self.calls.push(format!(
                    "front:{}:{}:{}",
                    psn.high_long_of_psn, psn.low_long_of_psn, id
                ));
                RaiseReply::Done(Ok(()))
            }
            RaiseAction::MakeKeyWindow(psn, id) => {
                self.calls.push(format!(
                    "make_key:{}:{}:{}",
                    psn.high_long_of_psn, psn.low_long_of_psn, id
                ));
                RaiseReply::Done(Ok(()))
            }
            RaiseAction::StartDeadline | RaiseAction::Rest => RaiseReply::Continue,
            RaiseAction::RaiseWindow(id, pid) => {
                self.attempts += 1;
                self.calls.push(if self.number_attempts {
                    format!("raise:{id}:{pid}:{}", self.attempts)
                } else {
                    format!("raise:{id}:{pid}")
                });
                RaiseReply::Done(if self.attempts <= self.raise_misses {
                    Err(MacosNativeOperationError::MissingWindow(id))
                } else {
                    Ok(())
                })
            }
            RaiseAction::CheckDeadline => RaiseReply::DeadlinePassed(self.attempts >= 10),
            RaiseAction::Finish(_) => unreachable!(),
        }
    }

    fn run(
        &mut self,
        start: (WindowRaise, RaiseAction),
    ) -> Result<(), MacosNativeOperationError> {
        let (mut raise, mut action) = start;
        loop {
            if let RaiseAction::Finish(result) = action {
                return result;
            }
            action = raise.advance(self.perform(action));
        }
    }
}

#[test]
fn focus_window_via_process_and_raise_fronts_makes_key_then_raises_target_window() {
    let mut server = RaiseServer::new(0);
    server
        .run(focus_window_via_process_and_raise(77))
        .unwrap();
    assert_eq!(
        server.calls,
        vec!["front:1:2:77", "make_key:1:2:77", "raise:77:5151"]
    );
}

#[test]
fn focus_window_via_make_key_and_raise_skips_front_process() {
    let mut server = RaiseServer::new(0);
    server
        .run(focus_window_via_make_key_and_raise(77))
        .unwrap();
    assert_eq!(server.calls, vec!["make_key:1:2:77", "raise:77:5151"]);
}

#[test]
fn focus_window_via_make_key_and_raise_retries_missing_ax_window_during_raise() {
    let mut server = RaiseServer::new(1);
    server
        .run(focus_window_via_make_key_and_raise(77))
        .unwrap();
    assert_eq!(
        server.calls,
        vec!["make_key:1:2:77", "raise:77:5151:1", "raise:77:5151:2"]
    );
}

#[test]
fn focus_window_via_process_and_raise_retries_missing_ax_window_during_raise() {
    let mut server = RaiseServer::new(1);
    server
        .run(focus_window_via_process_and_raise(77))
        .unwrap();
    assert_eq!(
        server.calls,
        vec![
            "front:1:2:77",
            "make_key:1:2:77",
            "raise:77:5151:1",
            "raise:77:5151:2",
        ]
    );
}

#[test]
fn focus_window_via_process_and_raise_waits_past_three_missing_ax_retries() {
    let mut server = RaiseServer::new(3);
    server
        .run(focus_window_via_process_and_raise(77))
        .unwrap();
    assert_eq!(
        server.calls,
        vec![
            "front:1:2:77",
            "make_key:1:2:77",
            "raise:77:5151:1",
            "raise:77:5151:2",
            "raise:77:5151:3",
            "raise:77:5151:4",
        ]
    );
}

#[test]
fn a_window_that_stays_missing_is_reported_at_the_deadline() {
    let mut server = RaiseServer::new(usize::MAX);
    assert_eq!(
        server.run(focus_window_via_process_and_raise(77)),
        Err(MacosNativeOperationError::MissingWindow(77))
    );
    assert_eq!(server.attempts, 10);
}

#[test]
fn other_failures_end_a_raise_at_once() {
    let failure = MacosNativeOperationError::CallFailed("GetProcessForPID");
    let (mut raise, _) = focus_window_via_process_and_raise(77);
    assert_eq!(
        raise.advance(RaiseReply::Pid(Ok(Some(5)))),
        RaiseAction::ProcessSerialNumber(5)
    );
    assert_eq!(
        raise.advance(RaiseReply::Process(Err(failure))),
        RaiseAction::Finish(Err(failure))
    );
    let (mut raise, _) = focus_window_via_process_and_raise(77);
    assert_eq!(
        raise.advance(RaiseReply::Pid(Ok(None))),
        RaiseAction::Finish(Err(MacosNativeOperationError::MissingWindowPid(77)))
    );
    let missing = MacosNativeOperationError::MissingWindow(77);
    let (mut raise, _) = focus_window_via_process_and_raise(77);
    assert_eq!(
        raise.advance(RaiseReply::Pid(Err(missing))),
        RaiseAction::Finish(Err(missing))
    );
    let (mut raise, _) = focus_window_via_process_and_raise(77);
    assert!(matches!(
        raise.advance(RaiseReply::Continue),
        RaiseAction::Finish(Err(MacosNativeOperationError::CallFailed(_)))
    ));
}

fn run_known_pid(
    start: (KnownPidFocus, KnownPidAction),
    server: &mut RaiseServer,
    mut focused: VecDeque<Option<u64>>,
    desktop: NativeDesktopSnapshot,
) -> (Result<(), MacosNativeOperationError>, Vec<String>) {
    let mut log = Vec::new();
    let mut desktop = Some(desktop);
    let (mut focus, mut action) = start;
    loop {
        let reply = match action {
            KnownPidAction::Raise(inner) => KnownPidReply::Raise(server.perform(inner)),
            KnownPidAction::StartDeadline | KnownPidAction::Rest => KnownPidReply::Continue,
            KnownPidAction::FocusedWindowId => {
                log.push("focused_window_id".to_string());
                KnownPidReply::FocusedWindowId(Ok(focused.pop_front().unwrap_or(None)))
            }
            KnownPidAction::CheckDeadline => KnownPidReply::DeadlinePassed(focused.is_empty()),
            KnownPidAction::DesktopSnapshot => {
                KnownPidReply::Snapshot(Ok(desktop.take().unwrap()))
            }
            KnownPidAction::AxWindowIdsForPid(pid) => {
                log.push(format!("ax_window_ids_for_pid:{pid}"));
                KnownPidReply::AxWindowIds(Ok(vec![78]))
            }
            KnownPidAction::FocusWindowWithKnownPid(id, pid) => {
                log.push(format!("focus_window_with_known_pid:{id}:{pid}"));
                KnownPidReply::Focused(Ok(()))
            }
            KnownPidAction::Finish(result) => return (result, log),
        };
        action = focus.advance(reply);
    }
}

fn desktop_with_stale_window() -> NativeDesktopSnapshot {
    let window = |id: u64, x: i32, order_index: usize| NativeWindowSnapshot {
        id,
        pid: Some(5151),
        app_id: None,
        title: None,
        bounds: Some(NativeBounds {
            x,
            y: 0,
            width: 100,
            height: 100,
        }),
        level: 0,
        space_id: 1,
        order_index: Some(order_index),
    };
    NativeDesktopSnapshot {
        spaces: vec![NativeSpaceSnapshot {
            id: 1,
            display_index: 0,
            active: true,
            kind: SpaceKind::SplitView,
        }],
        active_space_ids: HashSet::from([1]),
        windows: vec![window(77, 0, 0), window(78, 8, 1)],
        focused_window_id: None,
    }
}

#[test]
fn a_missed_window_may_have_got_the_focus_all_the_same() {
    let mut server = RaiseServer::new(usize::MAX);
    let (result, log) = run_known_pid(
        focus_window_with_known_pid(77, 5151),
        &mut server,
        VecDeque::from([None, Some(77)]),
        desktop_with_stale_window(),
    );
    assert_eq!(result, Ok(()));
    assert_eq!(log, vec!["focused_window_id", "focused_window_id"]);
}

#[test]
fn a_missed_window_is_reported_unless_it_may_be_replaced() {
    let (result, _) = run_known_pid(
        focus_window_with_known_pid(77, 5151),
        &mut RaiseServer::new(usize::MAX),
        VecDeque::new(),
        desktop_with_stale_window(),
    );
    assert_eq!(result, Err(MacosNativeOperationError::MissingWindow(77)));

    let hint = ActiveSpaceFocusTargetHint {
        space_id: 1,
        bounds: NativeBounds {
            x: 0,
            y: 0,
            width: 100,
            height: 100,
        },
    };
    let (result, log) = run_known_pid(
        focus_window_in_active_space_with_known_pid(77, 5151, Some(hint)),
        &mut RaiseServer::new(usize::MAX),
        VecDeque::new(),
        desktop_with_stale_window(),
    );
    assert_eq!(result, Ok(()));
    assert_eq!(
        log,
        vec![
            "focused_window_id",
            "ax_window_ids_for_pid:5151",
            "focus_window_with_known_pid:78:5151",
        ]
    );
}

/// A window server on which switching spaces takes a while.
struct SpaceServer {
    topology: RawTopologySnapshot,
    pending_space: Option<u64>,
    stale_polls: usize,
    onscreen: VecDeque<HashSet<u64>>,
    polls: usize,
    records_polls: bool,
    pid_after_switch: Option<u32>,
    tells_pids_apart: bool,
    calls: Vec<String>,
}

impl SpaceServer {
    fn settling(topology: RawTopologySnapshot, stale_polls: usize) -> Self {
        SpaceServer {
            topology,
            pending_space: None,
            stale_polls,
            onscreen: VecDeque::new(),
            polls: 0,
            records_polls: true,
            pid_after_switch: None,
            tells_pids_apart: false,
            calls: Vec::new(),
        }
    }

    fn presenting(topology: RawTopologySnapshot, onscreen: Vec<HashSet<u64>>) -> Self {
        SpaceServer {
            onscreen: VecDeque::from(onscreen),
            ..SpaceServer::settling(topology, 0)
        }
    }

    fn active_space_ids(&mut self) -> HashSet<u64> {
        if self.records_polls {
            self.calls.push("active_space_ids".to_string());
        }
        match self.pending_space {
            Some(space_id) => {
                self.stale_polls = self.stale_polls.saturating_sub(1);
                if self.stale_polls == 0 {
                    HashSet::from([space_id])
                } else {
                    self.topology.active_space_ids.clone()
                }
            }
            None => self.topology.active_space_ids.clone(),
        }
    }

    fn onscreen_window_ids(&mut self) -> HashSet<u64> {
        if self.records_polls {
            self.calls.push("onscreen_window_ids".to_string());
        }
        if self.onscreen.len() > 1 {
            return self.onscreen.pop_front().unwrap();
        }
        if let Some(last) = self.onscreen.front() {
            return last.clone();
        }
        match self.pending_space {
            Some(space_id) if self.stale_polls == 0 => {
                window_ids_for_space(&self.topology, space_id)
            }
            _ => window_ids_for_space(&self.topology, 1),
        }
    }

    fn run(
        &mut self,
        start: Option<(SpaceSwitch, SwitchAction)>,
    ) -> Result<(), MacosNativeOperationError> {
        let Some((mut switch, mut action)) = start else {
            return Ok(());
        };
        loop {
            let reply = match action {
                SwitchAction::SwitchSpace(space_id) => {
                    self.calls.push(format!("switch_space:{space_id}"));
                    self.pending_space = Some(space_id);
                    SwitchReply::Switched(Ok(()))
                }
                SwitchAction::SwitchAdjacentSpace(_, space_id) => {
                    self.calls.push(format!("switch_adjacent_space:{space_id}"));
                    SwitchReply::Switched(Ok(()))
                }
                SwitchAction::StartDeadline => {
                    self.polls = 0;
                    SwitchReply::Continue
                }
                SwitchAction::Rest => SwitchReply::Continue,
                SwitchAction::ActiveSpaceIds => {
                    self.polls += 1;
                    SwitchReply::Ids(Ok(self.active_space_ids()))
                }
                SwitchAction::OnscreenWindowIds => {
                    SwitchReply::Ids(Ok(self.onscreen_window_ids()))
                }
                SwitchAction::CheckDeadline => SwitchReply::DeadlinePassed(self.polls >= 10),
                SwitchAction::Finish(result) => return result,
            };
            action = switch.advance(reply);
        }
    }

    fn switch_space(&mut self, space_id: u64) -> Result<(), MacosNativeOperationError> {
        let snapshot = native_desktop_snapshot_from_topology(&self.topology);
        let start = switch_space_in_snapshot(&snapshot, space_id, None)?;
        self.run(start)
    }

    fn current_topology(&self) -> RawTopologySnapshot {
        let mut active_space_windows = HashMap::new();
        let mut inactive_space_window_ids = self.topology.inactive_space_window_ids.clone();
        let active_space_ids = match self.pending_space {
            Some(space_id) => {
                inactive_space_window_ids.remove(&space_id);
                if let Some(pid) = self.pid_after_switch {
                    let shown = window_ids_for_space(&self.topology, space_id)
                        .into_iter()
                        .map(|id| raw_window(id, Some(pid), Some(0)))
                        .collect();
                    active_space_windows.insert(space_id, shown);
                }
                HashSet::from([space_id])
            }
            None => {
                active_space_windows = self.topology.active_space_windows.clone();
                self.topology.active_space_ids.clone()
            }
        };
        RawTopologySnapshot {
            spaces: self
                .topology
                .spaces
                .iter()
                .map(|space| raw_space(space.managed_space_id, space.stage_manager_managed))
                .collect(),
            active_space_ids,
            active_space_windows,
            inactive_space_window_ids,
            focused_window_id: None,
        }
    }

    fn focus_window(&mut self, window_id: u64) -> Result<(), MacosNativeOperationError> {
        let (mut focus, mut action) = focus_window_by_id(window_id);
        loop {
            let result = match action {
                WindowFocusAction::Topology => {
                    let topology = self.current_topology();
                    action = focus.advance(WindowFocusReply::Topology(Ok(&topology)));
                    continue;
                }
                WindowFocusAction::SwitchSpace(space_id) => self.switch_space(space_id),
                WindowFocusAction::FocusWindowWithKnownPid(id, pid) => {
                    self.calls.push(if self.tells_pids_apart {
                        format!("focus_window_with_known_pid:{id}:{pid}")
                    } else {
                        format!("focus_window:{id}")
                    });
                    Ok(())
                }
                WindowFocusAction::FocusWindow(id) => {
                    self.calls.push(format!("focus_window:{id}"));
                    Ok(())
                }
                WindowFocusAction::Finish(result) => return result,
            };
            action = focus.advance(WindowFocusReply::Ran(result));
        }
    }

    fn move_window_to_space(
        &mut self,
        window_id: u64,
        space_id: u64,
    ) -> Result<(), MacosNativeOperationError> {
        space_id_for_window(&self.topology, window_id)
            .ok_or(MacosNativeOperationError::MissingWindow(window_id))?;
        ensure_supported_target_space(&self.topology, space_id)?;
        self.calls
            .push(format!("move_window_to_space:{window_id}:{space_id}"));
        Ok(())
    }
}

#[test]
fn focus_window_switches_to_target_space_before_fronting_window() {
    let mut server = SpaceServer::settling(focus_target_topology_fixture(77, 9), 0);
    server.focus_window(77).unwrap();
    let switch_idx = server
        .calls
        .iter()
        .position(|call| call == "switch_space:9")
        .expect("space switch should happen");
    let focus_idx = server
        .calls
        .iter()
        .position(|call| call == "focus_window:77")
        .expect("window focus should happen");
    assert!(switch_idx < focus_idx);
}

#[test]
fn focus_window_waits_for_target_space_to_become_active_before_fronting_window() {
    let mut server = SpaceServer::settling(focus_target_topology_fixture(77, 9), 2);
    server.focus_window(77).unwrap();
    let switch_idx = server
        .calls
        .iter()
        .position(|call| call == "switch_space:9")
        .expect("space switch should happen first");
    let focus_idx = server
        .calls
        .iter()
        .position(|call| call == "focus_window:77")
        .expect("window focus should happen after the Space settles");
    let settle_checks = server.calls[switch_idx + 1..focus_idx]
        .iter()
        .filter(|call| call.as_str() == "active_space_ids")
        .count();
    assert!(settle_checks > 0);
}

#[test]
fn focus_window_uses_topology_pid_when_direct_window_lookup_flakes_after_space_switch() {
    let mut server = SpaceServer::settling(focus_target_topology_fixture(77, 9), 0);
    server.records_polls = false;
    server.pid_after_switch = Some(5151);
    server.tells_pids_apart = true;
    server.focus_window(77).unwrap();
    assert_eq!(
        server.calls,
        vec![
            "switch_space:9".to_string(),
            "focus_window_with_known_pid:77:5151".to_string(),
        ]
    );
}

#[test]
fn context_happy_path_returns_active_space_and_focuses_window() {
    let topology = RawTopologySnapshot {
        spaces: vec![
            raw_space(1, false),
            RawSpaceRecord {
                tile_spaces: vec![21, 22],
                has_tile_layout_manager: true,
                ..raw_space(2, false)
            },
        ],
        active_space_ids: HashSet::from([1]),
        active_space_windows: HashMap::from([(1, vec![raw_window(100, Some(4242), Some(0))])]),
        inactive_space_window_ids: HashMap::from([(2, vec![21, 22])]),
        focused_window_id: Some(100),
    };
    assert_eq!(focused_window_from_topology(&topology).unwrap().id, 100);
    let mut server = SpaceServer::settling(topology, 0);
    server.focus_window(100).unwrap();
    assert_eq!(server.calls, vec!["focus_window:100"]);
}

#[test]
fn a_window_that_lies_nowhere_cannot_be_focused() {
    let mut server = SpaceServer::settling(focus_target_topology_fixture(77, 9), 0);
    assert_eq!(
        server.focus_window(78),
        Err(MacosNativeOperationError::MissingWindow(78))
    );
    assert!(server.calls.is_empty());
    let probe = MacosNativeProbeError::MissingTopology("SLSCopyManagedDisplaySpaces");
    let (mut focus, _) = focus_window_by_id(77);
    assert_eq!(
        focus.advance(WindowFocusReply::Topology(Err(probe))),
        WindowFocusAction::Finish(Err(MacosNativeOperationError::Probe(probe)))
    );
}

#[test]
fn move_window_to_space_uses_space_move_primitive() {
    let mut server = SpaceServer::settling(move_target_topology_fixture(51, 12), 0);
    server.move_window_to_space(51, 12).unwrap();
    assert_eq!(server.calls, vec!["move_window_to_space:51:12"]);
}

#[test]
fn switch_space_uses_space_switch_primitive() {
    let mut server = SpaceServer::settling(focus_target_topology_fixture(51, 12), 0);
    server.switch_space(12).unwrap();
    assert!(server.calls.iter().any(|call| call == "switch_space:12"));
}

#[test]
fn switch_space_waits_for_target_space_to_become_active_before_returning() {
    let mut server = SpaceServer::settling(focus_target_topology_fixture(77, 9), 2);
    server.switch_space(9).unwrap();
    let switch_idx = server
        .calls
        .iter()
        .position(|call| call == "switch_space:9")
        .expect("space switch should happen");
    let settle_checks = server.calls[switch_idx + 1..]
        .iter()
        .filter(|call| call.as_str() == "active_space_ids")
        .count();
    assert!(settle_checks > 0);
    assert_eq!(settle_checks, 2);
}

#[test]
fn switch_space_waits_for_onscreen_windows_to_leave_source_space_before_returning() {
    let mut server = SpaceServer::presenting(
        focus_target_topology_fixture(77, 9),
        vec![
            HashSet::from([11]),
            HashSet::from([11]),
            HashSet::from([77]),
        ],
    );
    server.switch_space(9).unwrap();
    let switch_idx = server
        .calls
        .iter()
        .position(|call| call == "switch_space:9")
        .expect("space switch should happen");
    let onscreen_checks = server.calls[switch_idx + 1..]
        .iter()
        .filter(|call| call.as_str() == "onscreen_window_ids")
        .count();
    assert!(onscreen_checks > 0);
    assert_eq!(onscreen_checks, 3);
}

#[test]
fn switch_space_allows_nonfocused_source_windows_to_remain_onscreen() {
    let topology = RawTopologySnapshot {
        spaces: vec![raw_space(1, false), raw_space(9, false)],
        active_space_ids: HashSet::from([1]),
        active_space_windows: HashMap::from([(
            1,
            vec![
                raw_window(11, Some(1111), Some(0)),
                raw_window(12, Some(1212), None),
                raw_window(13, Some(1313), None),
            ],
        )]),
        inactive_space_window_ids: HashMap::from([(9, vec![77])]),
        focused_window_id: Some(11),
    };
    let mut server = SpaceServer::presenting(topology, vec![HashSet::from([12, 13, 77])]);
    server.switch_space(9).unwrap();
    assert!(server.calls.iter().any(|call| call == "switch_space:9"));
}

#[test]
fn switch_space_completes_when_target_space_stays_visible_but_source_focus_lingers_onscreen() {
    let mut server = SpaceServer::presenting(
        focus_target_topology_fixture(77, 9),
        vec![
            HashSet::from([11, 77]),
            HashSet::from([11, 77]),
            HashSet::from([11, 77]),
        ],
    );
    server.switch_space(9).unwrap();
    let onscreen_checks = server
        .calls
        .iter()
        .filter(|call| call.as_str() == "onscreen_window_ids")
        .count();
    assert!(onscreen_checks > 1);
    assert_eq!(onscreen_checks, 3);
}

#[test]
fn a_switch_that_does_not_settle_fails() {
    let mut server = SpaceServer::presenting(
        focus_target_topology_fixture(77, 9),
        vec![HashSet::from([11])],
    );
    assert_eq!(
        server.switch_space(9),
        Err(MacosNativeOperationError::CallFailed("wait_for_active_space"))
    );
    let snapshot = native_desktop_snapshot_from_topology(&server.topology);
    let start = switch_space_in_snapshot(&snapshot, 9, None).unwrap();
    let (mut switch, _) = start.unwrap();
    let failure = MacosNativeOperationError::CallFailed("SLSManagedDisplaySetCurrentSpace");
    assert_eq!(
        switch.advance(SwitchReply::Switched(Err(failure))),
        SwitchAction::Finish(Err(failure))
    );
    let (mut switch, _) = switch_space_in_snapshot(&snapshot, 9, None)
        .unwrap()
        .unwrap();
    switch.advance(SwitchReply::Switched(Ok(())));
    switch.advance(SwitchReply::Continue);
    let probe = MacosNativeProbeError::MissingTopology("SLSCopyManagedDisplaySpaces");
    assert_eq!(
        switch.advance(SwitchReply::Ids(Err(probe))),
        SwitchAction::Finish(Err(MacosNativeOperationError::Probe(probe)))
    );
}

#[test]
fn a_reply_out_of_turn_ends_a_switch() {
    let topology = focus_target_topology_fixture(77, 9);
    let snapshot = native_desktop_snapshot_from_topology(&topology);
    let begin = || {
        let (switch, _) = switch_space_in_snapshot(&snapshot, 9, None)
            .unwrap()
            .unwrap();
        switch
    };
    let refused = SwitchAction::Finish(Err(MacosNativeOperationError::CallFailed(
        "space_switch_reply_out_of_turn",
    )));

    assert_eq!(begin().advance(SwitchReply::Continue), refused);

    // The deadline is being set.
    for reply in [
        SwitchReply::Switched(Ok(())),
        SwitchReply::Switched(Err(MacosNativeOperationError::MissingSpace(9))),
        SwitchReply::Ids(Ok(HashSet::from([9]))),
        SwitchReply::DeadlinePassed(false),
    ] {
        let mut switch = begin();
        switch.advance(SwitchReply::Switched(Ok(())));
        assert_eq!(switch.advance(reply), refused);
    }

    // A pause was asked for.
    for reply in [
        SwitchReply::Switched(Ok(())),
        SwitchReply::Ids(Ok(HashSet::from([9]))),
        SwitchReply::DeadlinePassed(true),
    ] {
        let mut switch = begin();
        switch.advance(SwitchReply::Switched(Ok(())));
        switch.advance(SwitchReply::Continue);
        switch.advance(SwitchReply::Ids(Ok(HashSet::from([1]))));
        switch.advance(SwitchReply::Ids(Ok(HashSet::new())));
        assert_eq!(
            switch.advance(SwitchReply::DeadlinePassed(false)),
            SwitchAction::Rest
        );
        assert_eq!(switch.advance(reply), refused);
    }
}

#[test]
fn the_space_that_is_shown_needs_no_switch() {
    let mut server = SpaceServer::settling(focus_target_topology_fixture(77, 9), 0);
    server.switch_space(1).unwrap();
    assert!(server.calls.is_empty());
}

#[test]
fn a_hotkey_that_lands_elsewhere_is_followed_by_an_exact_switch() {
    let mut server = SpaceServer::settling(focus_target_topology_fixture(77, 9), 0);
    let snapshot = native_desktop_snapshot_from_topology(&server.topology);
    let start = switch_space_in_snapshot(&snapshot, 9, Some(NativeDirection::East)).unwrap();
    server.run(start).unwrap();
    assert_eq!(
        server
            .calls
            .iter()
            .filter(|call| call.starts_with("switch"))
            .collect::<Vec<_>>(),
        vec!["switch_adjacent_space:9", "switch_space:9"]
    );
}

#[test]
fn stage_manager_targets_are_rejected_explicitly() {
    let mut server = SpaceServer::settling(stage_manager_target_topology_fixture(88, 9), 0);

    let err = server.focus_window(88).unwrap_err();

    assert_eq!(
        err,
        MacosNativeOperationError::UnsupportedStageManagerSpace(9)
    );
    assert!(err.message().contains("Stage Manager"));
    assert!(server.calls.is_empty());
}

#[test]
fn switch_space_rejects_unknown_target_space_explicitly() {
    let mut server = SpaceServer::settling(move_target_topology_fixture(51, 12), 0);
    let err = server.switch_space(99).unwrap_err();
    assert_eq!(err, MacosNativeOperationError::MissingSpace(99));
    assert!(server.calls.is_empty());
}

#[test]
fn move_window_to_space_rejects_unknown_target_space_explicitly() {
    let mut server = SpaceServer::settling(move_target_topology_fixture(51, 12), 0);
    let err = server.move_window_to_space(51, 99).unwrap_err();
    assert_eq!(err, MacosNativeOperationError::MissingSpace(99));
    assert!(server.calls.is_empty());
}

#[test]
fn move_window_to_space_rejects_missing_window_explicitly() {
    let mut server = SpaceServer::settling(move_target_topology_fixture(51, 12), 0);
    let err = server.move_window_to_space(999, 12).unwrap_err();
    assert_eq!(err, MacosNativeOperationError::MissingWindow(999));
    assert!(server.calls.is_empty());
}

fn connect(
    missing_symbol: Option<&str>,
    ax_trusted: bool,
    minimal_topology_ready: bool,
    start: (EnvironmentCheck, CheckAction),
) -> (Result<(), MacosNativeConnectError>, Vec<String>) {
    let mut asked = Vec::new();
    let (mut check, mut action) = start;
    loop {
        let answer = match action {
            CheckAction::HasSymbol(symbol) => {
                asked.push(symbol.to_string());
                Some(symbol) != missing_symbol
            }
            CheckAction::AxIsTrusted => ax_trusted,
            CheckAction::MinimalTopologyReady => minimal_topology_ready,
            CheckAction::Finish(result) => return (result, asked),
        };
        action = check.advance(answer);
    }
}

#[test]
fn connect_with_api_rejects_missing_required_symbol() {
    let (result, _) = connect(
        Some("SLSCopyManagedDisplaySpaces"),
        true,
        true,
        validate_environment(),
    );
    let err = result.unwrap_err();

    assert_eq!(
        err,
        MacosNativeConnectError::MissingRequiredSymbol("SLSCopyManagedDisplaySpaces")
    );
    assert!(err.message().contains("SLSCopyManagedDisplaySpaces"));
}

#[test]
fn connect_with_api_rejects_missing_ax_trust_symbol() {
    let (result, _) = connect(
        Some("AXIsProcessTrusted"),
        true,
        true,
        validate_environment(),
    );
    let err = result.unwrap_err();

    assert_eq!(
        err,
        MacosNativeConnectError::MissingRequiredSymbol("AXIsProcessTrusted")
    );
    assert!(err.message().contains("AXIsProcessTrusted"));
}

#[test]
fn connect_with_api_rejects_missing_accessibility_permission() {
    let (result, _) = connect(None, false, true, validate_environment());
    let err = result.unwrap_err();

    assert_eq!(err, MacosNativeConnectError::MissingAccessibilityPermission);
    assert!(err.message().contains("Accessibility"));
}

#[test]
fn connect_with_api_rejects_missing_minimal_topology_precondition() {
    let (result, _) = connect(None, true, false, validate_environment());
    let err = result.unwrap_err();

    assert_eq!(
        err,
        MacosNativeConnectError::MissingTopologyPrecondition("main SkyLight connection")
    );
    assert!(err.message().contains("main SkyLight connection"));
}

#[test]
fn every_needed_function_is_looked_for_once() {
    let (result, asked) = connect(None, true, true, validate_environment());
    assert_eq!(result, Ok(()));
    assert_eq!(asked.len(), 11);
    assert_eq!(asked.iter().collect::<HashSet<_>>().len(), 11);
    assert_eq!(asked[0], "SLSMainConnectionID");
    assert_eq!(asked[10], "GetProcessForPID");
    let (result, asked) = connect(None, true, true, validate_fast_focus());
    assert_eq!(result, Ok(()));
    assert!(asked.is_empty());
}

fn no_modifiers() -> MissionControlModifiers {
    MissionControlModifiers {
        control: false,
        option: false,
        command: false,
        shift: false,
        function: false,
    }
}

fn mission_control_hotkey(
    key_code: u16,
    mission_control: MissionControlModifiers,
) -> MissionControlHotkey {
    MissionControlHotkey {
        key_code,
        mission_control,
    }
}

#[test]
fn switch_adjacent_space_via_hotkey_posts_configured_shortcut_for_east() {
    let hotkeys = SpaceHotkeys {
        west_space_hotkey: mission_control_hotkey(
            0x7B,
            MissionControlModifiers {
                control: true,
                function: true,
                ..no_modifiers()
            },
        ),
        east_space_hotkey: mission_control_hotkey(
            0x1A,
            MissionControlModifiers {
                option: true,
                command: true,
                shift: true,
                ..no_modifiers()
            },
        ),
    };

    let events = switch_adjacent_space_via_hotkey(&hotkeys, NativeDirection::East).unwrap();

    let flags = SHIFT_FLAG | OPTION_FLAG | COMMAND_FLAG;
    assert_eq!(
        events,
        vec![
            KeyEvent {
                key_code: 0x1A,
                key_down: true,
                flags,
            },
            KeyEvent {
                key_code: 0x1A,
                key_down: false,
                flags,
            },
        ]
    );
}

#[test]
fn switch_adjacent_space_via_hotkey_rejects_vertical_directions() {
    let hotkeys = SpaceHotkeys {
        west_space_hotkey: mission_control_hotkey(0x7B, no_modifiers()),
        east_space_hotkey: mission_control_hotkey(0x7C, no_modifiers()),
    };
    let err = switch_adjacent_space_via_hotkey(&hotkeys, NativeDirection::North).unwrap_err();

    assert_eq!(
        err,
        MacosNativeOperationError::CallFailed("adjacent_space_hotkey_direction")
    );
}

#[test]
fn modifier_keys_have_the_flags_of_the_window_server() {
    assert_eq!(mission_control_shortcut_flags(&no_modifiers()), 0);
    assert_eq!(
        mission_control_shortcut_flags(&MissionControlModifiers {
            control: true,
            function: true,
            ..no_modifiers()
        }),
        CONTROL_FLAG | FUNCTION_FLAG
    );
    assert_eq!(CONTROL_FLAG, 1 << 18);
    assert_eq!(FUNCTION_FLAG, 1 << 23);
    assert_eq!(SHIFT_FLAG, 1 << 17);
    assert_eq!(OPTION_FLAG, 1 << 19);
    assert_eq!(COMMAND_FLAG, 1 << 20);
}

#[test]
fn key_window_events_name_the_window() {
    let press = key_window_event(0x0102_0304u32.to_le_bytes(), true);
    assert_eq!(press.len(), EVENT_RECORD_LEN);
    assert_eq!(press[0x04], 0xf8);
    assert_eq!(press[0x08], 0x01);
    assert_eq!(press[0x1f..0x31], {
        let mut block = [0xffu8; 18];
        block[0] = 0;
        block[17] = 0;
        block
    });
    assert_eq!(press[0x3a], 0x10);
    assert_eq!(press[0x3c..0x40], [4, 3, 2, 1]);
    assert_eq!(press.iter().filter(|byte| **byte != 0).count(), 23);
    let release = key_window_event(0x0102_0304u32.to_le_bytes(), false);
    assert_eq!(release[0x08], 0x02);
    assert_eq!(press[0x09..], release[0x09..]);
    assert_eq!(
        key_window_events(0x0102_0304u32.to_le_bytes()),
        vec![press, release]
    );
}

#[test]
fn statuses_and_identifiers_are_checked() {
    assert_eq!(check_status(0, "call"), Ok(()));
    assert_eq!(
        check_status(-1, "call"),
        Err(MacosNativeOperationError::CallFailed("call"))
    );
    assert_eq!(narrow_window_id(u32::MAX as u64), Ok(u32::MAX));
    assert_eq!(
        narrow_window_id(1 << 32),
        Err(MacosNativeOperationError::MissingWindow(1 << 32))
    );
    assert_eq!(ax_window_id(0, 7), Ok(7));
    assert_eq!(
        ax_window_id(0, 0),
        Err(MacosNativeProbeError::MissingFocusedWindow)
    );
    assert_eq!(
        ax_window_id(1, 7),
        Err(MacosNativeProbeError::MissingFocusedWindow)
    );
    assert_eq!(ax_pid(0, 7), Ok(7));
    assert_eq!(
        ax_pid(0, -7),
        Err(MacosNativeProbeError::MissingFocusedWindow)
    );
    assert_eq!(nonzero(3, "call"), Ok(3));
    assert_eq!(
        nonzero(0, "call"),
        Err(MacosNativeProbeError::MissingTopology("call"))
    );
    assert_eq!(find_ax_window(&vec![None, Some(4), Some(5)], 5), Ok(2));
    assert_eq!(
        find_ax_window(&vec![None, Some(4)], 5),
        Err(MacosNativeOperationError::MissingWindow(5))
    );
    assert_eq!(ax_window_ids(&vec![None, Some(4), Some(5)]), vec![4, 5]);
}

fn frame(x: i32) -> NativeBounds {
    NativeBounds {
        x,
        y: 2,
        width: 30,
        height: 40,
    }
}

fn change_frame(
    start: (FrameChange, FrameAction),
    failing_call: Option<&str>,
) -> (Result<(), MacosNativeOperationError>, Vec<String>) {
    let mut log = Vec::new();
    let (mut change, mut action) = start;
    loop {
        let (name, reply) = match action {
            FrameAction::FindWindow { window_id, pid } => (
                format!("find:{window_id}:{pid}"),
                FrameReply::Found(Ok(())),
            ),
            FrameAction::MakePosition { x, y } => {
                (format!("position:{x}:{y}"), FrameReply::Made(true))
            }
            FrameAction::SetPosition => (
                "set_position".to_string(),
                FrameReply::Status(if failing_call == Some("set_position") { 1 } else { 0 }),
            ),
            FrameAction::MakeSize { width, height } => (
                format!("size:{width}:{height}"),
                FrameReply::Made(failing_call != Some("size")),
            ),
            FrameAction::SetSize => ("set_size".to_string(), FrameReply::Status(0)),
            FrameAction::Finish(result) => return (result, log),
        };
        log.push(name);
        action = change.advance(reply);
    }
}

#[test]
fn windows_are_moved_and_sized() {
    let (result, log) = change_frame(set_window_frame_via_ax(5, 6, frame(1)), None);
    assert_eq!(result, Ok(()));
    assert_eq!(
        log,
        vec![
            "find:5:6",
            "position:1:2",
            "set_position",
            "size:30:40",
            "set_size"
        ]
    );
    let (result, log) = change_frame(
        set_window_frame_via_ax(5, 6, frame(1)),
        Some("set_position"),
    );
    assert!(matches!(
        result,
        Err(MacosNativeOperationError::CallFailed(_))
    ));
    assert_eq!(log.len(), 3);
    let (result, _) = change_frame(set_window_frame_via_ax(5, 6, frame(1)), Some("size"));
    assert!(matches!(
        result,
        Err(MacosNativeOperationError::CallFailed(_))
    ));
}

fn swap(
    start: (FrameSwap, SwapAction),
    pids: &HashMap<u64, Option<u32>>,
) -> (
    Result<(), MacosNativeOperationError>,
    Vec<(u64, u32, NativeBounds)>,
) {
    let mut placed = Vec::new();
    let (mut swap, mut action) = start;
    loop {
        let reply = match action {
            SwapAction::Describe(id) => SwapReply::Described(
                pids.get(&id)
                    .copied()
                    .ok_or(MacosNativeOperationError::MissingWindow(id)),
            ),
            SwapAction::SetFrame {
                window_id,
                pid,
                frame,
            } => {
                placed.push((window_id, pid, frame));
                SwapReply::Done(Ok(()))
            }
            SwapAction::Finish(result) => return (result, placed),
        };
        action = swap.advance(reply);
    }
}

#[test]
fn windows_trade_frames() {
    let start = swap_window_frames(1, frame(10), 2, frame(20));
    let (result, placed) = swap(start, &HashMap::from([(1, Some(100)), (2, Some(200))]));
    assert_eq!(result, Ok(()));
    assert_eq!(placed, vec![(1, 100, frame(20)), (2, 200, frame(10))]);

    let (result, placed) = swap(start, &HashMap::from([(1, Some(100)), (2, None)]));
    assert_eq!(result, Err(MacosNativeOperationError::MissingWindowPid(2)));
    assert!(placed.is_empty());

    let (result, _) = swap(start, &HashMap::from([(2, Some(200))]));
    assert_eq!(result, Err(MacosNativeOperationError::MissingWindow(1)));
}

#[test]
fn errors_are_explained() {
    let probe = MacosNativeProbeError::MissingTopology("call");
    let cases = vec![
        (
            MacosNativeOperationError::Probe(probe),
            "macOS native topology query is unavailable: call",
        ),
        (
            MacosNativeOperationError::MissingSpace(3),
            "macOS native space 3 was not found in the current topology",
        ),
        (
            MacosNativeOperationError::MissingWindow(4),
            "macOS native window 4 was not found in the current topology",
        ),
        (
            MacosNativeOperationError::MissingWindowFrame(5),
            "macOS native window 5 has no frame",
        ),
        (
            MacosNativeOperationError::MissingWindowPid(6),
            "macOS native window 6 does not expose an owner pid",
        ),
        (
            MacosNativeOperationError::UnsupportedStageManagerSpace(7),
            "macOS native Stage Manager space 7 is intentionally unsupported",
        ),
        (
            MacosNativeOperationError::NoDirectionalFocusTarget(NativeDirection::West),
            "macos_native: no window to focus west",
        ),
        (
            MacosNativeOperationError::NoDirectionalMoveTarget(NativeDirection::South),
            "macos_native: no window to move south",
        ),
        (
            MacosNativeOperationError::CallFailed("call"),
            "macOS native operation failed: call",
        ),
    ];
    for (error, text) in cases {
        assert_eq!(error.message(), text);
        assert_eq!(DesktopError::Operation(error).message(), text);
    }
    assert_eq!(
        MacosNativeProbeError::MissingFocusedWindow.message(),
        "no focused window was found for any active Space"
    );
    assert_eq!(
        DesktopError::Probe(probe).message(),
        "macOS native topology query is unavailable: call"
    );
    assert_eq!(
        MacosNativeConnectError::MissingRequiredSymbol("f").message(),
        "required macOS private symbol is unavailable: f"
    );
}
