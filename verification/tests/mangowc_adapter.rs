use std::collections::VecDeque;

use window_managers::error::WmError;
use window_managers::mangowc::adapter::{
    direction_for_focus, disambiguate_activated_windows, focused_window, move_direction,
    resize_refusal, tagmon_for, FocusQuery, MangowcAdapter, MangowcSpec, MoveAction, MoveReply,
};
use window_managers::backend::{Platform, WmBackend};
use window_managers::capability::validate_declared_capabilities;
use window_managers::mangowc::mmsg::FocusedSnapshot;
use window_managers::mangowc::toplevel::{ToplevelSnapshotEntry, ToplevelStore};
use window_managers::session::{FocusedWindowRecord, WindowRecord};
use window_managers::topology::Direction;

fn window(id: u64, title: &str, app_id: &str, is_focused: bool, index: usize) -> WindowRecord {
    WindowRecord {
        id,
        app_id: Some(app_id.to_string()),
        title: Some(title.to_string()),
        pid: None,
        is_focused,
        original_tile_index: index,
    }
}

fn snapshot(app_id: &str, title: &str, x: i32) -> FocusedSnapshot {
    FocusedSnapshot {
        app_id: Some(app_id.to_string()),
        title: Some(title.to_string()),
        x: Some(x),
        y: Some(0),
        width: Some(1000),
        height: Some(700),
    }
}

struct Desk {
    windows: Vec<WindowRecord>,
    snapshots: VecDeque<FocusedSnapshot>,
    calls: Vec<String>,
}

impl Desk {
    fn new(windows: Vec<WindowRecord>, snapshots: Vec<FocusedSnapshot>) -> Self {
        Desk {
            windows,
            snapshots: snapshots.into(),
            calls: Vec::new(),
        }
    }

    fn focused_snapshot(&mut self) -> FocusedSnapshot {
        self.calls.push("focused_snapshot".to_string());
        self.snapshots.pop_front().unwrap_or_default()
    }

    fn focused_window(&mut self) -> Result<FocusedWindowRecord, WmError> {
        match focused_window(&self.windows) {
            FocusQuery::Found(record) => Ok(record),
            FocusQuery::Missing(error) => Err(error),
            FocusQuery::Ambiguous(activated) => {
                let meta = self.focused_snapshot();
                disambiguate_activated_windows(&activated, &meta)
            }
        }
    }

    fn move_direction(&mut self, direction: Direction) {
        let (mut state, mut action) = move_direction(direction);
        loop {
            let reply = match action {
                MoveAction::FocusedSnapshot => MoveReply::Focused(self.focused_snapshot()),
                MoveAction::FocusDir(direction) => {
                    self.calls
                        .push(format!("focusdir:{}", direction_for_focus(direction)));
                    MoveReply::Done
                }
                MoveAction::ExchangeClient(direction) => {
                    self.calls
                        .push(format!("exchange_client:{}", direction_for_focus(direction)));
                    MoveReply::Done
                }
                MoveAction::TagMon(direction) => {
                    self.calls.push(format!("tagmon:{}", tagmon_for(direction)));
                    MoveReply::Done
                }
                MoveAction::Finish => return,
            };
            action = state.advance(reply);
        }
    }
}

fn entry(handle_id: u64, title: &str, app_id: &str, activated: bool) -> ToplevelSnapshotEntry {
    ToplevelSnapshotEntry {
        handle_id,
        app_id: Some(app_id.to_string()),
        title: Some(title.to_string()),
        pid: None,
        activated,
    }
}

#[test]
fn windows_are_known_by_identifiers_of_their_own() {
    let mut store = ToplevelStore::default();
    store.replace_snapshot(&[
        entry(11, "left", "foot", false),
        entry(77, "right", "kitty", true),
    ]);
    let actual = store.windows();
    assert_eq!(actual.iter().map(|w| w.id).collect::<Vec<_>>(), vec![1, 2]);
    assert_eq!(store.handle_for_window_id(1).unwrap(), 11);
    assert_eq!(store.handle_for_window_id(2).unwrap(), 77);
}

#[test]
fn mangowc_adapter_focused_window_prefers_single_activated_handle() {
    let windows = vec![
        window(1, "one", "foot", false, 0),
        window(2, "two", "kitty", true, 1),
    ];
    let mut desk = Desk::new(windows, vec![]);

    let focused = desk
        .focused_window()
        .expect("focused window should resolve");
    assert_eq!(focused.id, 2);
    assert!(!desk.calls.iter().any(|c| c == "focused_snapshot"));
}

#[test]
fn mangowc_adapter_focused_window_uses_mmsg_metadata_to_break_activation_ties() {
    let windows = vec![
        window(10, "shell-a", "foot", true, 0),
        window(20, "shell-b", "kitty", true, 1),
    ];
    let snapshots = vec![FocusedSnapshot {
        app_id: Some("kitty".to_string()),
        title: Some("shell-b".to_string()),
        x: Some(100),
        y: Some(100),
        width: Some(800),
        height: Some(600),
    }];
    let mut desk = Desk::new(windows, snapshots);

    let focused = desk
        .focused_window()
        .expect("focus tie should be broken safely");
    assert_eq!(focused.id, 20);
}

#[test]
fn mangowc_adapter_focused_window_errors_when_focus_cannot_be_safely_disambiguated() {
    let windows = vec![
        window(10, "same", "foot", true, 0),
        window(20, "same", "foot", true, 1),
    ];
    let mut desk = Desk::new(windows, vec![snapshot("foot", "same", 0)]);

    let err = desk
        .focused_window()
        .expect_err("ambiguous focus should error");
    assert!(err
        .message()
        .contains("ambiguous activated foreign toplevel windows"));
}

#[test]
fn mangowc_adapter_focused_window_errors_when_mmsg_metadata_conflicts() {
    let windows = vec![
        window(10, "shell-a", "foot", true, 0),
        window(20, "shell-b", "kitty", true, 1),
    ];
    let mut desk = Desk::new(windows, vec![snapshot("foot", "shell-b", 0)]);

    let err = desk
        .focused_window()
        .expect_err("conflicting metadata should error");
    assert!(err
        .message()
        .contains("ambiguous activated foreign toplevel windows"));
}

#[test]
fn no_activated_window_is_an_error() {
    let mut desk = Desk::new(vec![window(1, "a", "foot", false, 0)], vec![]);
    let err = desk.focused_window().unwrap_err();
    assert_eq!(
        err.message(),
        "mangowc: no activated foreign toplevel window in snapshot"
    );
    assert!(desk.calls.is_empty());
}

#[test]
fn one_kind_of_metadata_is_enough_to_decide() {
    let activated = vec![
        window(10, "same", "foot", true, 0),
        window(20, "same", "kitty", true, 1),
    ];
    let by_app = FocusedSnapshot {
        app_id: Some("kitty".to_string()),
        ..FocusedSnapshot::default()
    };
    assert_eq!(
        disambiguate_activated_windows(&activated, &by_app).unwrap().id,
        20
    );
    let by_title = FocusedSnapshot {
        title: Some("same".to_string()),
        ..FocusedSnapshot::default()
    };
    assert!(disambiguate_activated_windows(&activated, &by_title).is_err());
    let err =
        disambiguate_activated_windows(&activated, &FocusedSnapshot::default()).unwrap_err();
    assert_eq!(
        err.message(),
        "mangowc: ambiguous activated foreign toplevel windows; refusing to guess focus"
    );
    let repeated = vec![
        window(10, "a", "foot", true, 0),
        window(10, "b", "foot", true, 1),
    ];
    let by_title = FocusedSnapshot {
        title: Some("b".to_string()),
        ..FocusedSnapshot::default()
    };
    let record = disambiguate_activated_windows(&repeated, &by_title).unwrap();
    assert_eq!(record.title.as_deref(), Some("a"));
}

#[test]
fn mangowc_adapter_move_direction_uses_exchange_when_probe_finds_target() {
    let windows = vec![window(1, "only", "foot", true, 0)];
    let snapshots = vec![
        FocusedSnapshot {
            app_id: Some("foot".to_string()),
            title: Some("before".to_string()),
            x: Some(0),
            y: Some(0),
            width: Some(100),
            height: Some(100),
        },
        FocusedSnapshot {
            app_id: Some("foot".to_string()),
            title: Some("after".to_string()),
            x: Some(10),
            y: Some(0),
            width: Some(100),
            height: Some(100),
        },
    ];
    let mut desk = Desk::new(windows, snapshots);

    desk.move_direction(Direction::East);

    assert_eq!(
        desk.calls,
        vec![
            "focused_snapshot",
            "focusdir:right",
            "focused_snapshot",
            "focusdir:left",
            "exchange_client:right",
        ]
    );
}

#[test]
fn mangowc_adapter_move_direction_uses_tagmon_when_probe_finds_no_target() {
    let windows = vec![window(1, "only", "foot", true, 0)];
    let same = || FocusedSnapshot {
        app_id: Some("foot".to_string()),
        title: Some("same".to_string()),
        x: Some(0),
        y: Some(0),
        width: Some(100),
        height: Some(100),
    };
    let mut desk = Desk::new(windows, vec![same(), same()]);

    desk.move_direction(Direction::East);

    assert_eq!(
        desk.calls,
        vec![
            "focused_snapshot",
            "focusdir:right",
            "focused_snapshot",
            "tagmon:right",
        ]
    );
}

#[test]
fn a_failed_action_ends_the_move() {
    let (mut state, action) = move_direction(Direction::North);
    assert_eq!(action, MoveAction::FocusedSnapshot);
    assert_eq!(
        state.advance(MoveReply::Focused(FocusedSnapshot::default())),
        MoveAction::FocusDir(Direction::North)
    );
    assert_eq!(state.advance(MoveReply::Failed), MoveAction::Finish);
    assert_eq!(state.advance(MoveReply::Done), MoveAction::Finish);
}

#[test]
fn mangowc_adapter_focus_window_by_id_surfaces_stale_handle_errors() {
    let mut store = ToplevelStore::default();
    store.replace_snapshot(&[entry(7, "x", "foot", true)]);

    let err = store
        .handle_for_window_id(42)
        .expect_err("stale handle should error");
    assert!(err.message().contains("stale window id 42"));
}

#[test]
fn mangowc_declares_what_it_cannot_do() {
    validate_declared_capabilities::<MangowcAdapter>().unwrap();
    MangowcAdapter::connect(Platform::Linux, "linux", true, Ok(())).unwrap();
    assert_eq!(MangowcSpec.backend(), WmBackend::Mangowc);
    assert_eq!(MangowcSpec.name(), "mangowc");
    assert_eq!(resize_refusal().message(), "mangowc: resize is unsupported");
}

#[test]
fn mangowc_reports_what_keeps_it_from_connecting() {
    let unreachable_display =
        || Err(WmError::Adapter("mangowc: missing WAYLAND_DISPLAY".to_string()));
    let message = |platform: Platform, mmsg_found: bool, display: Result<(), WmError>| {
        MangowcAdapter::connect(platform, "plan9", mmsg_found, display)
            .unwrap_err()
            .message()
    };
    assert_eq!(
        message(Platform::Other, true, Ok(())),
        "mangowc adapter is not supported on plan9"
    );
    assert_eq!(
        message(Platform::Macos, false, unreachable_display()),
        "mangowc adapter is not supported on plan9"
    );
    assert_eq!(
        message(Platform::Linux, false, Ok(())),
        "mangowc: required binary 'mmsg' not found"
    );
    assert_eq!(
        message(Platform::Linux, false, unreachable_display()),
        "mangowc: required binary 'mmsg' not found"
    );
    assert_eq!(
        message(Platform::Linux, true, unreachable_display()),
        "mangowc: missing WAYLAND_DISPLAY"
    );
}
