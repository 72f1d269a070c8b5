use std::collections::{HashMap, HashSet};

use window_managers::macos::accessibility::focused_window_id;
use window_managers::macos::app_identity::{
    enrich_real_window_app_ids_with, lsappinfo_arguments, parse_lsappinfo_bundle_identifier,
    pids_to_resolve, stable_app_id_from_real_window,
};
use window_managers::macos::outer::{
    outer_topology_from_native_snapshot, select_focus_target_from_outer_topology, FocusTarget,
};
use window_managers::macos::property_list::{
    array_from_u64s, dictionary_array, dictionary_i32, dictionary_string, dictionary_u32,
    dictionary_u64, number_from_u64, onscreen_window_ids_from_descriptions,
    parse_active_space_ids, parse_display_identifiers, parse_managed_spaces,
    parse_raw_space_record, parse_window_descriptions, parse_window_ids,
    query_visible_window_order, PropertyEntry, PropertyValue,
};
use window_managers::macos::raw_topology::{
    active_space_focus_target_hint_from_topology, active_window_pid_from_topology,
    best_window_id_from_windows, classify_space, ensure_supported_target_space,
    focused_window_from_topology, native_desktop_snapshot_from_topology,
    order_active_space_windows, snapshots_for_inactive_space, space_id_for_window,
    window_snapshots_from_topology, DESKTOP_SPACE_TYPE, FULLSCREEN_SPACE_TYPE,
};
use window_managers::macos::scan::{
    active_space_ids_of, descriptions_or_onscreen, filter_window_descriptions_raw,
    inactive_spaces, space_snapshots_from_topology, window_description, with_app_id, FocusScan,
    ScanStep, TopologyScan,
};
use window_managers::macos::session::{
    focused_app_record_from_native, focused_window_record_from_native,
    window_records_from_native, FocusedAppRecord,
};
use window_managers::macos::types::{
    native_bounds_from_outer, DesktopError, MacosNativeOperationError, MacosNativeProbeError,
    NativeBounds, NativeDesktopSnapshot, NativeDirection, NativeSpaceSnapshot,
    NativeWindowSnapshot, RawSpaceRecord, RawTopologySnapshot, RawWindow, SpaceKind,
    WindowSnapshot,
};
use window_managers::process::ProcessId;
use window_managers::topology::{DirectedRect, Direction, Rect};

fn raw_window(id: u64) -> RawWindow {
    RawWindow {
        id,
        pid: None,
        app_id: None,
        title: None,
        level: 0,
        visible_index: None,
        frame: None,
    }
}

trait RawWindowExt {
    fn with_level(self, level: i32) -> Self;
    fn with_visible_index(self, visible_index: usize) -> Self;
    fn with_pid(self, pid: u32) -> Self;
    fn with_app_id(self, app_id: &str) -> Self;
    fn with_title(self, title: &str) -> Self;
    fn with_frame(self, frame: Rect) -> Self;
}

impl RawWindowExt for RawWindow {
    fn with_level(mut self, level: i32) -> Self {
        self.level = level;
        self
    }

    fn with_visible_index(mut self, visible_index: usize) -> Self {
        self.visible_index = Some(visible_index);
        self
    }

    fn with_pid(mut self, pid: u32) -> Self {
        self.pid = Some(pid);
        self
    }

    fn with_app_id(mut self, app_id: &str) -> Self {
        self.app_id = Some(app_id.to_string());
        self
    }

    fn with_title(mut self, title: &str) -> Self {
        self.title = Some(title.to_string());
        self
    }

    fn with_frame(mut self, frame: Rect) -> Self {
        self.frame = Some(native_bounds_from_outer(frame));
        self
    }
}

fn raw_space(
    managed_space_id: u64,
    display_index: usize,
    space_type: i32,
    tile_spaces: &[u64],
    stage_manager_managed: bool,
) -> RawSpaceRecord {
    RawSpaceRecord {
        managed_space_id,
        display_index,
        space_type,
        tile_spaces: tile_spaces.to_vec(),
        has_tile_layout_manager: !tile_spaces.is_empty(),
        stage_manager_managed,
    }
}

fn raw_desktop_space(id: u64) -> RawSpaceRecord {
    raw_space(id, 0, DESKTOP_SPACE_TYPE, &[], false)
}

fn raw_split_space(id: u64, tile_spaces: &[u64]) -> RawSpaceRecord {
    raw_space(id, 0, DESKTOP_SPACE_TYPE, tile_spaces, false)
}

fn raw_fullscreen_space(id: u64) -> RawSpaceRecord {
    raw_space(id, 0, FULLSCREEN_SPACE_TYPE, &[], false)
}

fn raw_stage_manager_space(id: u64) -> RawSpaceRecord {
    raw_space(id, 0, DESKTOP_SPACE_TYPE, &[], true)
}

fn topology_fixture(active_window_id: u64) -> RawTopologySnapshot {
    RawTopologySnapshot {
        spaces: vec![raw_desktop_space(1), raw_split_space(2, &[21, 22])],
        active_space_ids: HashSet::from([1]),
        active_space_windows: HashMap::from([(
            1,
            vec![raw_window(active_window_id)
                .with_visible_index(0)
                .with_pid(4242)
                .with_app_id("com.example.focused")
                .with_title("Focused window")],
        )]),
        inactive_space_window_ids: HashMap::from([(2, vec![21, 22])]),
        focused_window_id: Some(active_window_id),
    }
}

fn multi_display_topology_fixture() -> RawTopologySnapshot {
    RawTopologySnapshot {
        spaces: vec![
            raw_space(1, 0, DESKTOP_SPACE_TYPE, &[], false),
            raw_space(2, 0, DESKTOP_SPACE_TYPE, &[21, 22], false),
            raw_space(3, 1, FULLSCREEN_SPACE_TYPE, &[], false),
        ],
        active_space_ids: HashSet::from([1, 3]),
        active_space_windows: HashMap::from([
            (
                1,
                vec![raw_window(11)
                    .with_visible_index(2)
                    .with_pid(1111)
                    .with_app_id("com.example.left")
                    .with_title("Left display")],
            ),
            (
                3,
                vec![raw_window(31)
                    .with_visible_index(0)
                    .with_pid(3333)
                    .with_app_id("com.example.right")
                    .with_title("Right display")],
            ),
        ]),
        inactive_space_window_ids: HashMap::from([(2, vec![21, 22])]),
        focused_window_id: Some(31),
    }
}

fn native_window(
    id: u64,
    pid: u32,
    app_id: &str,
    title: &str,
    space_id: u64,
    order_index: usize,
    bounds: Option<NativeBounds>,
) -> NativeWindowSnapshot {
    NativeWindowSnapshot {
        id,
        pid: Some(pid),
        app_id: Some(app_id.to_string()),
        title: Some(title.to_string()),
        bounds,
        level: 0,
        space_id,
        order_index: Some(order_index),
    }
}

fn desktop_space(id: u64) -> NativeSpaceSnapshot {
    NativeSpaceSnapshot {
        id,
        display_index: 0,
        active: true,
        kind: SpaceKind::Desktop,
    }
}

fn two_window_desktop(focused_window_id: Option<u64>) -> NativeDesktopSnapshot {
    NativeDesktopSnapshot {
        spaces: vec![desktop_space(1)],
        active_space_ids: HashSet::from([1]),
        windows: vec![
            native_window(101, 4001, "focused.app", "Focused", 1, 0, None),
            native_window(102, 4002, "other.app", "Other", 1, 1, None),
        ],
        focused_window_id,
    }
}

/// The window whose centre is nearest among those whose centre lies towards `direction`.
fn closest(rects: &[DirectedRect], source: u64, direction: Direction) -> Option<u64> {
    let center = |rect: Rect| (2 * rect.x + rect.w, 2 * rect.y + rect.h);
    let from = center(rects.iter().find(|rect| rect.id == source)?.rect);
    rects
        .iter()
        .filter(|rect| rect.id != source)
        .filter(|rect| {
            let to = center(rect.rect);
            match direction {
                Direction::West => to.0 < from.0,
                Direction::East => to.0 > from.0,
                Direction::North => to.1 < from.1,
                Direction::South => to.1 > from.1,
            }
        })
        .min_by_key(|rect| {
            let to = center(rect.rect);
            (to.0 - from.0).pow(2) + (to.1 - from.1).pow(2)
        })
        .map(|rect| rect.id)
}

fn number(value: i64) -> PropertyValue {
    PropertyValue::Number(value)
}

fn string(text: &str) -> PropertyValue {
    PropertyValue::Text(text.to_string())
}

fn entries(pairs: Vec<(&str, PropertyValue)>) -> Vec<PropertyEntry> {
    pairs
        .into_iter()
        .map(|(key, value)| PropertyEntry {
            key: key.to_string(),
            value,
        })
        .collect()
}

fn dictionary(pairs: Vec<(&str, PropertyValue)>) -> PropertyValue {
    PropertyValue::Dictionary(entries(pairs))
}

#[test]
fn servo_cf_array_from_u64s_returns_numbers_in_order() {
    let values = array_from_u64s(&vec![11, 22]).expect("numbers should fit");
    assert_eq!(values, vec![11, 22]);
    assert_eq!(
        array_from_u64s(&vec![1, u64::MAX]).unwrap_err(),
        MacosNativeProbeError::MissingTopology("SLSCopyWindowsWithOptionsAndTags")
    );
    assert_eq!(number_from_u64(i64::MAX as u64).unwrap(), i64::MAX);
    assert!(number_from_u64(i64::MAX as u64 + 1).is_err());
}

#[test]
fn servo_cf_dictionary_accessors_read_string_and_i32_values() {
    let dictionary = entries(vec![("X", number(10)), ("Title", string("alpha"))]);
    assert_eq!(dictionary_i32(&dictionary, "X"), Some(10));
    assert_eq!(
        dictionary_string(&dictionary, "Title"),
        Some("alpha".to_string())
    );
    assert_eq!(dictionary_i32(&dictionary, "Title"), None);
    assert_eq!(dictionary_string(&dictionary, "Missing"), None);
}

#[test]
fn dictionary_numbers_must_fit() {
    let dictionary = entries(vec![
        ("negative", number(-1)),
        ("large", number(1 << 40)),
        ("list", PropertyValue::Array(vec![number(1)])),
    ]);
    assert_eq!(dictionary_i32(&dictionary, "negative"), Some(-1));
    assert_eq!(dictionary_u32(&dictionary, "negative"), None);
    assert_eq!(dictionary_u64(&dictionary, "negative"), None);
    assert_eq!(dictionary_i32(&dictionary, "large"), None);
    assert_eq!(dictionary_u32(&dictionary, "large"), None);
    assert_eq!(dictionary_u64(&dictionary, "large"), Some(1 << 40));
    assert_eq!(dictionary_array(&dictionary, "list").unwrap().len(), 1);
    assert!(dictionary_array(&dictionary, "large").is_none());
}

#[test]
fn classify_space_distinguishes_desktop_fullscreen_split_and_stage_manager() {
    assert_eq!(classify_space(&raw_desktop_space(1)), SpaceKind::Desktop);
    assert_eq!(
        classify_space(&raw_fullscreen_space(2)),
        SpaceKind::Fullscreen
    );
    assert_eq!(
        classify_space(&raw_split_space(3, &[11, 12])),
        SpaceKind::SplitView
    );
    assert_eq!(
        classify_space(&raw_stage_manager_space(4)),
        SpaceKind::StageManagerOpaque
    );
    assert_eq!(
        classify_space(&raw_space(5, 0, 2, &[], false)),
        SpaceKind::System
    );
}

#[test]
fn real_path_app_id_ignores_owner_name_display_label() {
    assert_eq!(
        stable_app_id_from_real_window(None, Some("Finder"), None),
        None
    );
}

#[test]
fn the_report_about_a_process_names_its_application() {
    let report = "\"CFBundleIdentifier\"=\"com.apple.finder\"\n";
    assert_eq!(
        stable_app_id_from_real_window(Some(1), Some("Finder"), Some(report)).as_deref(),
        Some("com.apple.finder")
    );
    assert_eq!(
        stable_app_id_from_real_window(None, Some("Finder"), Some(report)),
        None
    );
    assert_eq!(
        stable_app_id_from_real_window(Some(1), Some("Finder"), None),
        None
    );
    assert_eq!(
        lsappinfo_arguments(512),
        vec!["info", "-only", "bundleid", "#512"]
    );
}

fn enrich(
    windows: Vec<RawWindow>,
    mut resolve: impl FnMut(u32) -> Option<String>,
) -> Vec<RawWindow> {
    let answers = pids_to_resolve(&windows)
        .into_iter()
        .map(|pid| (pid, resolve(pid)))
        .collect();
    enrich_real_window_app_ids_with(&windows, &answers)
}

#[test]
fn enrich_real_window_app_ids_resolves_bundle_ids_after_parsing() {
    let windows = vec![raw_window(11).with_pid(42), raw_window(12)];

    let enriched = enrich(windows, |pid| match pid {
        42 => Some("com.example.test".to_string()),
        _ => None,
    });

    assert_eq!(
        enriched,
        vec![
            raw_window(11).with_pid(42).with_app_id("com.example.test"),
            raw_window(12)
        ]
    );
}

#[test]
fn enrich_real_window_app_ids_reuses_pid_lookups_within_single_pass() {
    let windows = vec![
        raw_window(11).with_pid(42),
        raw_window(12).with_pid(42),
        raw_window(13).with_pid(7),
        raw_window(14).with_pid(42),
    ];
    let mut resolved_pids = Vec::new();

    let enriched = enrich(windows, |pid| {
        resolved_pids.push(pid);
        Some(format!("com.example.{pid}"))
    });

    assert_eq!(resolved_pids, vec![42, 7]);
    assert_eq!(
        enriched,
        vec![
            raw_window(11).with_pid(42).with_app_id("com.example.42"),
            raw_window(12).with_pid(42).with_app_id("com.example.42"),
            raw_window(13).with_pid(7).with_app_id("com.example.7"),
            raw_window(14).with_pid(42).with_app_id("com.example.42"),
        ]
    );
}

#[test]
fn windows_keep_the_application_they_have() {
    let windows = vec![raw_window(1).with_pid(5).with_app_id("known")];
    assert!(pids_to_resolve(&windows).is_empty());
    assert_eq!(
        enrich_real_window_app_ids_with(
            &windows,
            &HashMap::from([(5, Some("other".to_string()))])
        ),
        windows
    );
}

#[test]
fn parse_lsappinfo_bundle_identifier_extracts_stable_app_id() {
    let output = "\"LSDisplayName\"=\"Finder\"\n\"CFBundleIdentifier\"=\"com.apple.finder\"\n";

    assert_eq!(
        parse_lsappinfo_bundle_identifier(output),
        Some("com.apple.finder".to_string())
    );
}

#[test]
fn bundle_identifiers_may_be_missing_or_empty() {
    assert_eq!(parse_lsappinfo_bundle_identifier(""), None);
    assert_eq!(
        parse_lsappinfo_bundle_identifier("\"CFBundleIdentifier\"=\"\"\n"),
        None
    );
    assert_eq!(
        parse_lsappinfo_bundle_identifier(" \"CFBundleIdentifier\"=\"indented\"\n"),
        None
    );
    assert_eq!(
        parse_lsappinfo_bundle_identifier(
            "\"CFBundleIdentifier\"= \"\"\r\n\"CFBundleIdentifier\"= second \r\n"
        ),
        Some("second".to_string())
    );
}

#[test]
fn active_space_ordering_prefers_frontmost_visible_windows() {
    let windows = vec![
        raw_window(11).with_level(10).with_visible_index(1),
        raw_window(12).with_level(20).with_visible_index(0),
    ];

    let ordered = order_active_space_windows(&windows);
    assert_eq!(
        ordered.iter().map(|w| w.id).collect::<Vec<_>>(),
        vec![12, 11]
    );
}

#[test]
fn active_space_ordering_uses_window_level_when_visible_order_is_missing() {
    let windows = vec![raw_window(21).with_level(10), raw_window(22).with_level(20)];

    let ordered = order_active_space_windows(&windows);
    assert_eq!(
        ordered.iter().map(|w| w.id).collect::<Vec<_>>(),
        vec![22, 21]
    );
}

#[test]
fn active_space_ordering_prefers_visible_windows_over_fallback_ordering() {
    let windows = vec![
        raw_window(31).with_level(50),
        raw_window(32).with_visible_index(0),
    ];

    let ordered = order_active_space_windows(&windows);
    assert_eq!(
        ordered.iter().map(|w| w.id).collect::<Vec<_>>(),
        vec![32, 31]
    );
}

#[test]
fn non_active_space_windows_remain_unordered() {
    let snapshots = snapshots_for_inactive_space(99, &vec![21, 22]);
    assert!(snapshots.iter().all(|window| window.order_index.is_none()));
    assert_eq!(snapshots.len(), 2);
}

#[test]
fn best_window_id_from_windows_ignores_non_normal_layer_targets() {
    let windows = vec![
        raw_window(159).with_pid(946).with_level(0).with_frame(Rect {
            x: 1200,
            y: 120,
            w: 500,
            h: 900,
        }),
        raw_window(52).with_pid(950).with_level(25).with_frame(Rect {
            x: 1739,
            y: 0,
            w: 63,
            h: 39,
        }),
    ];

    assert_eq!(
        best_window_id_from_windows(NativeDirection::East, &windows),
        Some(159)
    );
}

#[test]
fn spaces_snapshot_includes_active_flags_and_classified_kinds() {
    let spaces = space_snapshots_from_topology(&topology_fixture(41));

    assert!(spaces
        .iter()
        .any(|space| space.kind == SpaceKind::Desktop && space.is_active));
    assert!(spaces
        .iter()
        .any(|space| space.kind == SpaceKind::SplitView));
    assert_eq!(spaces[1].ordered_window_ids, None);
}

#[test]
fn focused_window_comes_from_active_space_snapshot() {
    let focused = focused_window_from_topology(&topology_fixture(42)).unwrap();
    assert_eq!(focused.id, 42);
    assert_eq!(focused.space_id, 1);
}

#[test]
fn spaces_snapshot_marks_all_active_display_spaces_active() {
    let topology = multi_display_topology_fixture();

    let spaces = space_snapshots_from_topology(&topology);

    assert_eq!(
        spaces
            .iter()
            .filter(|space| space.is_active)
            .map(|space| space.id)
            .collect::<Vec<_>>(),
        vec![1, 3]
    );
    assert_eq!(
        spaces
            .iter()
            .find(|space| space.id == 1)
            .and_then(|space| space.ordered_window_ids.as_deref()),
        Some(&[11][..])
    );
    assert_eq!(
        spaces
            .iter()
            .find(|space| space.id == 3)
            .and_then(|space| space.ordered_window_ids.as_deref()),
        Some(&[31][..])
    );
}

#[test]
fn focused_window_prefers_frontmost_window_across_active_spaces() {
    let topology = multi_display_topology_fixture();

    let focused = focused_window_from_topology(&topology).unwrap();

    assert_eq!(focused.id, 31);
    assert_eq!(focused.space_id, 3);
    assert_eq!(focused.order_index, Some(0));
}

#[test]
fn focused_window_prefers_explicit_window_id_over_visible_order_heuristic() {
    let topology = RawTopologySnapshot {
        spaces: vec![raw_desktop_space(1)],
        active_space_ids: HashSet::from([1]),
        active_space_windows: HashMap::from([(
            1,
            vec![
                raw_window(10).with_visible_index(0),
                raw_window(20).with_visible_index(1),
            ],
        )]),
        inactive_space_window_ids: HashMap::new(),
        focused_window_id: Some(20),
    };

    let focused = focused_window_from_topology(&topology).unwrap();

    assert_eq!(focused.id, 20);
}

#[test]
fn a_desktop_without_windows_has_no_focus() {
    let topology = RawTopologySnapshot {
        spaces: vec![raw_desktop_space(1)],
        active_space_ids: HashSet::from([1]),
        active_space_windows: HashMap::from([(1, Vec::new())]),
        inactive_space_window_ids: HashMap::new(),
        focused_window_id: Some(20),
    };
    assert_eq!(
        focused_window_from_topology(&topology).unwrap_err(),
        MacosNativeProbeError::MissingFocusedWindow
    );
    let snapshot = native_desktop_snapshot_from_topology(&topology);
    assert_eq!(
        focused_window_record_from_native(&snapshot).unwrap_err(),
        DesktopError::NoFocusedWindow
    );
    assert_eq!(
        focused_app_record_from_native(&snapshot)
            .unwrap_err()
            .message(),
        "no focused window"
    );
}

#[test]
fn context_focused_window_uses_active_space_fast_path() {
    let mut scan = FocusScan::start(Some(20));
    let windows = vec![
        raw_window(10)
            .with_visible_index(1)
            .with_pid(1010)
            .with_app_id("first.app")
            .with_title("first"),
        raw_window(20)
            .with_visible_index(0)
            .with_pid(2020)
            .with_app_id("focused.app")
            .with_title("focused"),
    ];

    let focused = scan.visit(1, windows).unwrap();

    assert_eq!(focused.id, 20);
    assert_eq!(focused.space_id, 1);
    assert_eq!(focused.pid, Some(2020));
    assert_eq!(focused.app_id.as_deref(), Some("focused.app"));
    assert_eq!(focused.title.as_deref(), Some("focused"));
    assert_eq!(focused.order_index, Some(0));
}

#[test]
fn a_focus_scan_falls_back_to_the_frontmost_window() {
    let mut scan = FocusScan::start(Some(99));
    assert_eq!(
        scan.conclude().unwrap_err(),
        MacosNativeProbeError::MissingFocusedWindow
    );
    assert!(scan
        .visit(1, vec![raw_window(10).with_visible_index(3).with_pid(9)])
        .is_none());
    assert!(scan
        .visit(2, vec![raw_window(20).with_visible_index(1).with_pid(8)])
        .is_none());
    let found = scan.conclude().unwrap();
    assert_eq!((found.id, found.space_id), (20, 2));
    let named = with_app_id(found, Some("\"CFBundleIdentifier\"=\"com.example\"\n"));
    assert_eq!(named.app_id.as_deref(), Some("com.example"));
    let unchanged = with_app_id(
        WindowSnapshot {
            app_id: Some("kept".to_string()),
            ..named
        },
        Some("\"CFBundleIdentifier\"=\"com.example\"\n"),
    );
    assert_eq!(unchanged.app_id.as_deref(), Some("kept"));
}

#[test]
fn focused_window_and_windows_are_derived_from_native_snapshot() {
    let snapshot = two_window_desktop(Some(101));

    let focused = focused_window_record_from_native(&snapshot).unwrap();
    let windows = window_records_from_native(&snapshot);

    assert_eq!(focused.id, 101);
    assert_eq!(windows.len(), 2);
}

#[test]
fn native_snapshot_can_drive_outer_directional_selection() {
    let bounds = |x: i32| {
        Some(NativeBounds {
            x,
            y: 0,
            width: 100,
            height: 100,
        })
    };
    let snapshot = NativeDesktopSnapshot {
        spaces: vec![desktop_space(1)],
        active_space_ids: HashSet::from([1]),
        windows: vec![
            native_window(100, 4001, "west.app", "West", 1, 0, bounds(0)),
            native_window(101, 4002, "east.app", "East", 1, 1, bounds(200)),
        ],
        focused_window_id: Some(101),
    };
    let topology = outer_topology_from_native_snapshot(&snapshot);

    let target = closest(&topology.rects, 101, Direction::West);

    assert_eq!(target, Some(100));
}

#[test]
fn outer_directional_selection_ignores_non_normal_layer_targets_from_raw_snapshot() {
    let topology = RawTopologySnapshot {
        spaces: vec![raw_split_space(1, &[11, 12])],
        active_space_ids: HashSet::from([1]),
        active_space_windows: HashMap::from([(
            1,
            vec![
                raw_window(100).with_level(0).with_pid(4001).with_frame(Rect {
                    x: 0,
                    y: 120,
                    w: 500,
                    h: 900,
                }),
                raw_window(159).with_level(0).with_pid(946).with_frame(Rect {
                    x: 1200,
                    y: 120,
                    w: 500,
                    h: 900,
                }),
                raw_window(52).with_level(25).with_pid(950).with_frame(Rect {
                    x: 1739,
                    y: 0,
                    w: 63,
                    h: 39,
                }),
            ],
        )]),
        inactive_space_window_ids: HashMap::new(),
        focused_window_id: Some(100),
    };

    let snapshot = native_desktop_snapshot_from_topology(&topology);
    let outer_topology = outer_topology_from_native_snapshot(&snapshot);
    assert!(outer_topology.rects.iter().all(|rect| rect.id != 52));

    let target = select_focus_target_from_outer_topology(
        &outer_topology,
        Direction::East,
        closest(&outer_topology.rects, 100, Direction::East),
    )
    .unwrap();

    assert_eq!(target, FocusTarget::SameSpace { window_id: 159 });
}

#[test]
fn focused_window_and_windows_fall_back_when_native_snapshot_has_no_focused_window_id() {
    let snapshot = two_window_desktop(None);

    let focused = focused_window_record_from_native(&snapshot).unwrap();
    let windows = window_records_from_native(&snapshot);

    assert_eq!(focused.id, 101);
    assert_eq!(
        windows
            .iter()
            .find(|window| window.id == 101)
            .map(|window| window.is_focused),
        Some(true)
    );
    assert_eq!(
        windows
            .iter()
            .find(|window| window.id == 102)
            .map(|window| window.is_focused),
        Some(false)
    );
}

#[test]
fn focused_window_and_windows_use_explicit_native_snapshot_focus_without_active_space_hints() {
    let snapshot = NativeDesktopSnapshot {
        spaces: Vec::new(),
        active_space_ids: HashSet::new(),
        windows: vec![
            native_window(101, 4001, "focused.app", "Focused", 99, 1, None),
            native_window(102, 4002, "other.app", "Other", 100, 0, None),
        ],
        focused_window_id: Some(101),
    };

    let focused = focused_window_record_from_native(&snapshot).unwrap();
    let windows = window_records_from_native(&snapshot);

    assert_eq!(focused.id, 101);
    assert_eq!(
        windows
            .iter()
            .find(|window| window.id == 101)
            .map(|window| window.is_focused),
        Some(true)
    );
    assert_eq!(
        windows
            .iter()
            .find(|window| window.id == 102)
            .map(|window| window.is_focused),
        Some(false)
    );
}

#[test]
fn focused_app_record_is_derived_from_native_snapshot() {
    let snapshot = NativeDesktopSnapshot {
        spaces: vec![desktop_space(1)],
        active_space_ids: HashSet::from([1]),
        windows: vec![native_window(
            101,
            4001,
            "focused.app",
            "Focused",
            1,
            0,
            None,
        )],
        focused_window_id: Some(101),
    };

    assert_eq!(
        focused_app_record_from_native(&snapshot).unwrap(),
        FocusedAppRecord {
            app_id: "focused.app".to_string(),
            title: "Focused".to_string(),
            pid: ProcessId::new(4001).unwrap(),
        }
    );
}

#[test]
fn focused_app_record_falls_back_when_native_snapshot_focused_window_id_is_stale() {
    let snapshot = two_window_desktop(Some(999));

    assert_eq!(
        focused_app_record_from_native(&snapshot).unwrap(),
        FocusedAppRecord {
            app_id: "focused.app".to_string(),
            title: "Focused".to_string(),
            pid: ProcessId::new(4001).unwrap(),
        }
    );
}

#[test]
fn an_application_without_a_process_has_no_record() {
    let mut snapshot = two_window_desktop(Some(101));
    snapshot.windows[0].app_id = None;
    snapshot.windows[0].title = None;
    let record = focused_app_record_from_native(&snapshot).unwrap();
    assert_eq!((record.app_id.as_str(), record.title.as_str()), ("", ""));
    snapshot.windows[0].pid = Some(0);
    assert_eq!(
        focused_app_record_from_native(&snapshot).unwrap_err(),
        DesktopError::NoFocusedWindow
    );
}

#[test]
fn adapter_windows_reflect_snapshot_order_and_focus_state() {
    let topology = RawTopologySnapshot {
        spaces: vec![raw_desktop_space(1), raw_split_space(2, &[21, 22])],
        active_space_ids: HashSet::from([1]),
        active_space_windows: HashMap::from([(
            1,
            vec![
                raw_window(11)
                    .with_visible_index(1)
                    .with_pid(1111)
                    .with_app_id("com.example.back")
                    .with_title("Back"),
                raw_window(12)
                    .with_visible_index(0)
                    .with_pid(2222)
                    .with_app_id("com.example.front")
                    .with_title("Front"),
                raw_window(13)
                    .with_level(5)
                    .with_pid(3333)
                    .with_app_id("com.example.overlay")
                    .with_title("Overlay"),
            ],
        )]),
        inactive_space_window_ids: HashMap::from([(2, vec![21, 22])]),
        focused_window_id: Some(12),
    };

    let windows = window_records_from_native(&native_desktop_snapshot_from_topology(&topology));

    assert_eq!(
        windows
            .iter()
            .map(|window| (window.id, window.is_focused, window.original_tile_index))
            .collect::<Vec<_>>(),
        vec![
            (12, true, 0),
            (11, false, 1),
            (13, false, 2),
            (21, false, 0),
            (22, false, 0),
        ]
    );
    assert_eq!(windows[0].pid, ProcessId::new(2222));
    assert_eq!(windows[0].app_id.as_deref(), Some("com.example.front"));
    assert_eq!(windows[0].title.as_deref(), Some("Front"));
    assert_eq!(windows[3].pid, None);
    assert_eq!(windows[3].app_id, None);
}

#[test]
fn focused_window_id_via_ax_queries_focused_app_then_window() {
    let focused_window_id = focused_window_id(
        || Ok(Some("app")),
        |application: &&str| {
            assert_eq!(*application, "app");
            Ok(Some("window"))
        },
        |element: &&str| {
            assert_eq!(*element, "window");
            Ok(77)
        },
    )
    .unwrap();

    assert_eq!(focused_window_id, Some(77));
}

#[test]
fn the_search_for_the_focus_stops_at_what_is_missing() {
    let none = focused_window_id(
        || Ok(None::<u8>),
        |_: &u8| -> Result<Option<u8>, MacosNativeProbeError> { unreachable!() },
        |_: &u8| unreachable!(),
    );
    assert_eq!(none, Ok(None));
    let none = focused_window_id(
        || Ok(Some(1u8)),
        |_: &u8| Ok(None::<u8>),
        |_: &u8| unreachable!(),
    );
    assert_eq!(none, Ok(None));
    let error = MacosNativeProbeError::MissingTopology("AXUIElementCreateSystemWide");
    let failed = focused_window_id(
        || Err::<Option<u8>, _>(error),
        |_: &u8| -> Result<Option<u8>, MacosNativeProbeError> { unreachable!() },
        |_: &u8| unreachable!(),
    );
    assert_eq!(failed, Err(error));
    let failed = focused_window_id(
        || Ok(Some(1u8)),
        |_: &u8| Ok(Some(2u8)),
        |_: &u8| Err(MacosNativeProbeError::MissingFocusedWindow),
    );
    assert_eq!(failed, Err(MacosNativeProbeError::MissingFocusedWindow));
}

#[test]
fn active_space_snapshot_ordered_window_ids_match_window_ordering_contract() {
    let topology = RawTopologySnapshot {
        spaces: vec![raw_desktop_space(1)],
        active_space_ids: HashSet::from([1]),
        active_space_windows: HashMap::from([(
            1,
            vec![
                raw_window(11).with_visible_index(1),
                raw_window(12).with_visible_index(0),
                raw_window(13).with_level(5),
            ],
        )]),
        inactive_space_window_ids: HashMap::new(),
        focused_window_id: Some(12),
    };

    let spaces = space_snapshots_from_topology(&topology);
    let active = spaces.iter().find(|space| space.is_active).unwrap();
    let windows = window_snapshots_from_topology(&topology);
    let ordered_window_ids_from_windows = windows
        .iter()
        .filter(|window| topology.active_space_ids.contains(&window.space_id))
        .map(|window| (window.id, window.order_index.unwrap()))
        .collect::<Vec<_>>();

    assert_eq!(
        active.ordered_window_ids.as_deref(),
        Some(&[12, 11, 13][..])
    );
    assert_eq!(
        ordered_window_ids_from_windows,
        vec![(12, 0), (11, 1), (13, 2)]
    );
}

fn described_windows() -> Vec<PropertyValue> {
    vec![
        dictionary(vec![
            ("kCGWindowNumber", number(11)),
            ("kCGWindowOwnerPID", number(101)),
            ("kCGWindowName", string("alpha")),
            ("kCGWindowLayer", number(5)),
            (
                "kCGWindowBounds",
                dictionary(vec![
                    ("X", number(10)),
                    ("Y", number(20)),
                    ("Width", number(300)),
                    ("Height", number(400)),
                ]),
            ),
        ]),
        dictionary(vec![
            ("kCGWindowNumber", number(22)),
            ("kCGWindowOwnerPID", number(202)),
            ("kCGWindowName", string("beta")),
            ("kCGWindowLayer", number(7)),
        ]),
    ]
}

#[test]
fn matching_onscreen_window_descriptions_preserve_target_window_metadata() {
    let filtered = filter_window_descriptions_raw(described_windows(), &vec![11]);
    let parsed = parse_window_descriptions(&filtered, &HashMap::from([(11, 0usize)])).unwrap();

    assert_eq!(
        parsed,
        vec![raw_window(11)
            .with_pid(101)
            .with_title("alpha")
            .with_level(5)
            .with_visible_index(0)
            .with_frame(Rect {
                x: 10,
                y: 20,
                w: 300,
                h: 400,
            })]
    );
}

#[test]
fn windows_on_screen_stand_in_for_missing_descriptions() {
    let alpha = || vec![described_windows().remove(0)];
    let beta = || vec![described_windows().remove(1)];

    assert_eq!(
        descriptions_or_onscreen(alpha(), beta(), &vec![22]),
        alpha()
    );
    assert_eq!(
        descriptions_or_onscreen(Vec::new(), described_windows(), &vec![22]),
        beta()
    );
    assert_eq!(
        descriptions_or_onscreen(Vec::new(), described_windows(), &vec![22, 11, 33]),
        described_windows()
    );
    assert_eq!(
        descriptions_or_onscreen(Vec::new(), described_windows(), &vec![33]),
        Vec::new()
    );
}

#[test]
fn descriptions_must_be_about_windows() {
    let descriptions = described_windows();
    let parsed = parse_window_descriptions(&descriptions, &HashMap::new()).unwrap();
    assert_eq!(parsed[1].frame, None);
    assert_eq!(parsed[1].visible_index, None);
    assert_eq!(window_description(&parsed, 22).unwrap().pid, Some(202));
    assert_eq!(
        window_description(&parsed, 23).unwrap_err(),
        MacosNativeOperationError::MissingWindow(23)
    );
    let error = MacosNativeProbeError::MissingTopology("CGWindowListCreateDescriptionFromArray");
    assert_eq!(
        parse_window_descriptions(&vec![number(1)], &HashMap::new()).unwrap_err(),
        error
    );
    assert_eq!(
        parse_window_descriptions(
            &vec![dictionary(vec![("kCGWindowName", string("nameless"))])],
            &HashMap::new()
        )
        .unwrap_err(),
        error
    );
}

#[test]
fn visible_windows_are_numbered_from_the_front() {
    let onscreen = vec![
        dictionary(vec![("kCGWindowNumber", number(5))]),
        number(3),
        dictionary(vec![("kCGWindowNumber", number(7))]),
        dictionary(vec![("kCGWindowNumber", number(9))]),
        dictionary(vec![("kCGWindowNumber", number(7))]),
    ];
    assert_eq!(
        query_visible_window_order(&onscreen, &vec![7, 5, 8]),
        HashMap::from([(5, 0), (7, 4)])
    );
    assert_eq!(
        onscreen_window_ids_from_descriptions(&onscreen),
        HashSet::from([5, 7, 9])
    );
}

#[test]
fn window_lists_hold_identifiers_only() {
    assert_eq!(
        parse_window_ids(&vec![number(4), number(2)]).unwrap(),
        vec![4, 2]
    );
    let error = MacosNativeProbeError::MissingTopology("SLSCopyWindowsWithOptionsAndTags");
    assert_eq!(parse_window_ids(&vec![number(-4)]).unwrap_err(), error);
    assert_eq!(
        parse_window_ids(&vec![number(1), string("2")]).unwrap_err(),
        error
    );
}

#[test]
fn parse_raw_space_record_ignores_non_dictionary_tile_space_entries() {
    let raw_space = entries(vec![
        ("ManagedSpaceID", number(7)),
        ("type", number(DESKTOP_SPACE_TYPE as i64)),
        (
            "TileLayoutManager",
            dictionary(vec![(
                "TileSpaces",
                PropertyValue::Array(vec![
                    dictionary(vec![("ManagedSpaceID", number(11))]),
                    number(999),
                    dictionary(vec![("id64", number(12))]),
                ]),
            )]),
        ),
    ]);

    let parsed = parse_raw_space_record(&raw_space, 3).unwrap();

    assert_eq!(parsed.managed_space_id, 7);
    assert_eq!(parsed.display_index, 3);
    assert_eq!(parsed.tile_spaces, vec![11, 12]);
    assert!(parsed.has_tile_layout_manager);
    assert!(!parsed.stage_manager_managed);
}

#[test]
fn spaces_need_an_identifier_and_a_type() {
    let error = MacosNativeProbeError::MissingTopology("SLSCopyManagedDisplaySpaces");
    assert_eq!(
        parse_raw_space_record(&entries(vec![("type", number(0))]), 0).unwrap_err(),
        error
    );
    assert_eq!(
        parse_raw_space_record(&entries(vec![("ManagedSpaceID", number(1))]), 0).unwrap_err(),
        error
    );
    for mark in [
        "StageManagerManaged",
        "StageManagerSpace",
        "isStageManager",
        "StageManager",
    ] {
        let space = entries(vec![
            ("ManagedSpaceID", number(1)),
            ("type", number(0)),
            (mark, number(0)),
        ]);
        assert!(parse_raw_space_record(&space, 0)
            .unwrap()
            .stage_manager_managed);
    }
}

fn display(identifier: &str, current: Option<(&str, PropertyValue)>, spaces: &[i64]) -> PropertyValue {
    let mut pairs = vec![
        ("Display Identifier", string(identifier)),
        (
            "Spaces",
            PropertyValue::Array(
                spaces
                    .iter()
                    .map(|id| {
                        dictionary(vec![
                            ("ManagedSpaceID", number(*id)),
                            ("type", number(DESKTOP_SPACE_TYPE as i64)),
                        ])
                    })
                    .collect(),
            ),
        ),
    ];
    pairs.extend(current);
    dictionary(pairs)
}

#[test]
fn parse_managed_spaces_preserves_display_grouping() {
    let payload = vec![
        display("display-0", None, &[1]),
        display("display-1", None, &[9]),
    ];

    let parsed = parse_managed_spaces(&payload).unwrap();

    assert_eq!(parsed[0].managed_space_id, 1);
    assert_eq!(parsed[0].display_index, 0);
    assert_eq!(parsed[1].managed_space_id, 9);
    assert_eq!(parsed[1].display_index, 1);
    assert_eq!(
        parse_display_identifiers(&payload).unwrap(),
        vec!["display-0", "display-1"]
    );
}

#[test]
fn displays_that_cannot_be_understood_are_refused() {
    let error = MacosNativeProbeError::MissingTopology("SLSCopyManagedDisplaySpaces");
    assert_eq!(parse_managed_spaces(&vec![number(1)]).unwrap_err(), error);
    assert_eq!(
        parse_managed_spaces(&vec![dictionary(vec![])]).unwrap_err(),
        error
    );
    assert_eq!(
        parse_managed_spaces(&vec![dictionary(vec![(
            "Spaces",
            PropertyValue::Array(vec![PropertyValue::Other])
        )])])
        .unwrap_err(),
        error
    );
    assert_eq!(
        parse_display_identifiers(&vec![dictionary(vec![])]).unwrap_err(),
        error
    );
    assert_eq!(parse_active_space_ids(&vec![]).unwrap_err(), error);
    assert_eq!(
        parse_active_space_ids(&vec![display("d", None, &[])]).unwrap_err(),
        error
    );
}

#[test]
fn current_spaces_come_in_several_forms() {
    let payload = vec![
        display("a", Some(("Current Space ID", number(1))), &[]),
        display("b", Some(("CurrentManagedSpaceID", number(2))), &[]),
        display(
            "c",
            Some(("Current Space", dictionary(vec![("ManagedSpaceID", number(3))]))),
            &[],
        ),
        display(
            "d",
            Some(("Current Space", dictionary(vec![("id64", number(4))]))),
            &[],
        ),
    ];
    assert_eq!(
        parse_active_space_ids(&payload).unwrap(),
        HashSet::from([1, 2, 3, 4])
    );
    assert_eq!(
        active_space_ids_of(&vec![5, 6, 5]).unwrap(),
        HashSet::from([5, 6])
    );
    assert_eq!(
        active_space_ids_of(&vec![]).unwrap_err(),
        MacosNativeProbeError::MissingTopology("SLSManagedDisplayGetCurrentSpace")
    );
}

#[test]
fn a_scan_goes_through_every_space() {
    let payload = vec![
        display("a", Some(("Current Space ID", number(2))), &[1, 2]),
        display("b", Some(("Current Space ID", number(9))), &[9]),
    ];
    let mut scan = TopologyScan::start(&payload).unwrap();
    assert_eq!(scan.step(), Some(ScanStep::List(1)));
    scan.list(vec![41, 42]);
    assert_eq!(scan.step(), Some(ScanStep::Describe(2)));
    scan.describe(vec![raw_window(43)]);
    assert_eq!(scan.step(), Some(ScanStep::Describe(9)));
    scan.describe(vec![raw_window(44), raw_window(45)]);
    assert_eq!(scan.step(), None);
    let topology = scan.finish(Some(44));
    assert_eq!(topology.active_space_ids, HashSet::from([2, 9]));
    assert_eq!(topology.focused_window_id, Some(44));
    assert_eq!(topology.inactive_space_window_ids[&1], vec![41, 42]);
    assert_eq!(topology.active_space_windows[&9].len(), 2);
    assert_eq!(
        inactive_spaces(&topology.spaces, &topology.active_space_ids),
        vec![1]
    );
    let snapshot = native_desktop_snapshot_from_topology(&topology);
    assert_eq!(
        snapshot.windows.iter().map(|w| w.id).collect::<Vec<_>>(),
        vec![41, 42, 43, 44, 45]
    );
    assert_eq!(
        TopologyScan::start(&vec![number(1)]).unwrap_err(),
        MacosNativeProbeError::MissingTopology("SLSCopyManagedDisplaySpaces")
    );
}

#[test]
fn windows_are_located_in_their_spaces() {
    let topology = topology_fixture(42);
    assert_eq!(space_id_for_window(&topology, 42), Some(1));
    assert_eq!(space_id_for_window(&topology, 22), Some(2));
    assert_eq!(space_id_for_window(&topology, 99), None);
    assert_eq!(active_window_pid_from_topology(&topology, 42), Some(4242));
    assert_eq!(active_window_pid_from_topology(&topology, 22), None);
    assert_eq!(
        active_space_focus_target_hint_from_topology(&topology, 42),
        None
    );
    assert_eq!(ensure_supported_target_space(&topology, 2), Ok(()));
    assert_eq!(
        ensure_supported_target_space(&topology, 7),
        Err(MacosNativeOperationError::MissingSpace(7))
    );
}
