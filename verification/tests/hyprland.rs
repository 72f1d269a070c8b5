use window_managers::backend::WmBackend;
use window_managers::capability::validate_declared_capabilities;
use window_managers::hyprland::{
    format_window_selector, parse_window_address, resize_delta, HyprlandAdapter, HyprlandClient,
    HyprlandError, HyprlandSpec,
};
use window_managers::process::ProcessId;
use window_managers::topology::Direction;

fn client(sample: &str) -> HyprlandClient {
    let value: serde_json::Value = serde_json::from_str(sample).unwrap();
    let text = |key: &str| {
        value
            .get(key)
            .and_then(|value| value.as_str())
            .map(|text| text.to_string())
    };
    HyprlandClient {
        address: text("address").unwrap(),
        class: text("class"),
        title: text("title"),
        pid: value
            .get("pid")
            .and_then(|value| value.as_u64())
            .map(|pid| u32::try_from(pid).unwrap()),
        mapped: value.get("mapped").and_then(|value| value.as_bool()),
    }
}

#[test]
fn hyprland_parses_window_address_hex() {
    assert_eq!(parse_window_address("0x2a").unwrap(), 0x2a);
}

#[test]
fn hyprland_parses_window_address_bare_hex() {
    assert_eq!(parse_window_address("2a").unwrap(), 0x2a);
    assert_eq!(parse_window_address("  2a  ").unwrap(), 0x2a);
}

#[test]
fn hyprland_formats_window_selector() {
    assert_eq!(format_window_selector(0x2a), "address:0x2a");
}

#[test]
fn hyprland_resize_delta_matches_direction_and_intent() {
    let s = 40;
    // East
    assert_eq!(resize_delta(Direction::East, true, s), (s, 0));
    assert_eq!(resize_delta(Direction::East, false, s), (-s, 0));
    // West
    assert_eq!(resize_delta(Direction::West, true, s), (-s, 0));
    assert_eq!(resize_delta(Direction::West, false, s), (s, 0));
    // North
    assert_eq!(resize_delta(Direction::North, true, s), (0, -s));
    assert_eq!(resize_delta(Direction::North, false, s), (0, s));
    // South
    assert_eq!(resize_delta(Direction::South, true, s), (0, s));
    assert_eq!(resize_delta(Direction::South, false, s), (0, -s));
}

#[test]
fn hyprland_parses_activewindow_json() {
    let sample = r#"{
        "address": "0xaaaae329c5d0",
        "mapped": true,
        "hidden": false,
        "at": [910, 18],
        "size": [872, 1094],
        "workspace": { "id": 1, "name": "1" },
        "floating": false,
        "pseudo": false,
        "monitor": 0,
        "class": "foot",
        "title": "Investigating Hyprland",
        "initialClass": "foot",
        "initialTitle": "foot",
        "pid": 9316,
        "xwayland": false,
        "pinned": false,
        "fullscreen": 0,
        "fullscreenClient": 0,
        "grouped": [],
        "tags": [],
        "swallowing": "0x0",
        "focusHistoryID": 0,
        "inhibitingIdle": false,
        "xdgTag": "",
        "xdgDescription": ""
    }"#;
    let window = client(sample);
    assert_eq!(window.address, "0xaaaae329c5d0");
    assert_eq!(window.class.as_deref(), Some("foot"));
    assert_eq!(window.title.as_deref(), Some("Investigating Hyprland"));
    assert_eq!(window.pid, Some(9316));
    assert_eq!(window.mapped, Some(true));
    assert_eq!(window.process_id(), ProcessId::new(9316));
}

#[test]
fn hyprland_capabilities_are_valid() {
    validate_declared_capabilities::<HyprlandAdapter>()
        .expect("hyprland capability descriptor should be valid");
}

#[test]
fn hyprland_parses_json_without_pid() {
    let sample = r#"{
        "address": "0x1234",
        "mapped": false,
        "class": "foot",
        "title": "No PID"
    }"#;
    let window = client(sample);
    assert_eq!(window.address, "0x1234");
    assert_eq!(window.pid, None);
    assert_eq!(window.process_id(), None);
}

#[test]
fn hyprland_refuses_addresses_that_are_no_numbers() {
    for raw in ["", "0x", "xyz", "0x0x1", "-1", "1 2", "10000000000000000"] {
        let error = parse_window_address(raw).unwrap_err();
        assert_eq!(error, HyprlandError::InvalidWindowAddress);
        assert_eq!(error.message(), "invalid Hyprland window address");
    }
    assert_eq!(parse_window_address("ffffffffffffffff").unwrap(), u64::MAX);
    assert_eq!(parse_window_address("\t0xABcd\n").unwrap(), 0xabcd);
    assert_eq!(parse_window_address("+a").unwrap(), 10);
}

#[test]
fn hyprland_selectors_read_back() {
    for id in [0, 1, 15, 16, 0xaaaae329c5d0, u64::MAX] {
        let selector = format_window_selector(id);
        assert_eq!(parse_window_address(&selector["address:".len()..]).unwrap(), id);
        assert_eq!(selector, format!("address:0x{id:x}"));
    }
}

#[test]
fn hyprland_resizes_by_at_least_one() {
    assert_eq!(resize_delta(Direction::East, true, 0), (1, 0));
    assert_eq!(resize_delta(Direction::North, true, -25), (0, -25));
    assert_eq!(
        resize_delta(Direction::South, true, i32::MIN + 1),
        (0, i32::MAX)
    );
}

#[test]
fn hyprland_says_how_it_is_reached() {
    HyprlandAdapter::connect().unwrap();
    assert_eq!(HyprlandSpec.backend(), WmBackend::Hyprland);
    assert_eq!(HyprlandSpec.name(), "hyprland");
    let mut without_process = client(r#"{"address": "0x1", "pid": 0}"#);
    assert_eq!(without_process.process_id(), None);
    without_process.pid = Some(1);
    assert_eq!(without_process.process_id(), ProcessId::new(1));
}
