use window_managers::backend::WmBackend;
use window_managers::capability::{plan_resize, plan_tear_out, CapabilitySupport, WindowManagerCapabilityDescriptor};
use window_managers::i3::{
    close_window_message, collect_windows, focus_message, focus_window_message, focused_leaf,
    focused_window, focused_window_data, is_window_leaf, move_message, resize_message,
    spawn_message, tree_message, windows, windows_from_tree, I3Adapter, I3Node, I3Spec,
    I3WindowProperties,
};
use window_managers::process::ProcessId;
use window_managers::session::{ResizeIntent, ResizeKind};
use window_managers::topology::Direction;

fn text(value: &serde_json::Value, key: &str) -> Option<String> {
    value
        .get(key)
        .and_then(|value| value.as_str())
        .map(|text| text.to_string())
}

fn nodes(value: &serde_json::Value, key: &str) -> Vec<I3Node> {
    value
        .get(key)
        .and_then(|value| value.as_array())
        .map(|values| values.iter().map(node).collect())
        .unwrap_or_default()
}

fn node(value: &serde_json::Value) -> I3Node {
    I3Node {
        id: value.get("id").and_then(|id| id.as_u64()).unwrap(),
        focused: value
            .get("focused")
            .and_then(|focused| focused.as_bool())
            .unwrap_or(false),
        app_id: text(value, "app_id"),
        name: text(value, "name"),
        pid: value
            .get("pid")
            .and_then(|pid| pid.as_u64())
            .map(|pid| u32::try_from(pid).unwrap()),
        window: value.get("window").and_then(|window| window.as_u64()),
        window_properties: value
            .get("window_properties")
            .map(|properties| I3WindowProperties {
                class: text(properties, "class"),
                title: text(properties, "title"),
            }),
        nodes: nodes(value, "nodes"),
        floating_nodes: nodes(value, "floating_nodes"),
    }
}

fn tree(sample: &str) -> I3Node {
    node(&serde_json::from_str::<serde_json::Value>(sample).expect("tree json should parse"))
}

#[test]
fn extracts_window_leaves_and_focus_from_tree() {
    let sample = r#"
{
  "id": 1,
  "focused": false,
  "nodes": [
    {
      "id": 2,
      "focused": false,
      "nodes": [
        {
          "id": 10,
          "focused": false,
          "window": 10,
          "app_id": "org.wezfurlong.wezterm",
          "name": "wezterm",
          "pid": 9001,
          "nodes": [],
          "floating_nodes": []
        },
        {
          "id": 11,
          "focused": true,
          "window": 11,
          "app_id": "emacs",
          "name": "init.el",
          "pid": 9002,
          "nodes": [],
          "floating_nodes": []
        }
      ],
      "floating_nodes": []
    }
  ],
  "floating_nodes": []
}
    "#;
    let tree = tree(sample);
    let mut windows = Vec::new();
    collect_windows(&tree, &mut windows);
    assert_eq!(windows.len(), 2);
    assert!(windows.iter().any(|window| window.id == 10));
    assert!(windows
        .iter()
        .any(|window| window.id == 11 && window.is_focused));
    assert_eq!(
        focused_leaf(&tree).map(|node| node.id),
        Some(11),
        "focused leaf should resolve to focused window node"
    );
}

#[test]
fn floating_windows_come_after_tiled_ones() {
    let tree = tree(
        r#"{"id": 1, "floating_nodes": [{"id": 2, "window": 2}], "nodes": [
            {"id": 3, "nodes": [{"id": 4, "pid": 7, "name": " "}]},
            {"id": 5, "window_properties": {"class": " Xterm ", "title": "shell"}}
        ]}"#,
    );
    let found = windows_from_tree(&tree);
    assert_eq!(
        found.iter().map(|window| window.id).collect::<Vec<_>>(),
        vec![4, 5, 2]
    );
    assert_eq!(found[0].title, None);
    assert_eq!(found[0].pid, ProcessId::new(7));
    assert_eq!(found[1].app_id.as_deref(), Some("Xterm"));
    assert_eq!(found[1].title.as_deref(), Some("shell"));
    assert!(focused_leaf(&tree).is_none());
    assert_eq!(focused_window_data(&tree).unwrap().id, 4);
    assert!(!is_window_leaf(&tree));

    let records = windows(&tree);
    assert_eq!(records.len(), 3);
    assert_eq!(records[1].id, 5);
    assert_eq!(records[1].original_tile_index, 1);
    assert!(!records[1].is_focused);
}

#[test]
fn the_first_focused_window_wins() {
    let tree = tree(
        r#"{"id": 1, "focused": true, "nodes": [
            {"id": 2, "focused": true, "nodes": [{"id": 3, "window": 3}]},
            {"id": 4, "window": 4, "focused": true, "app_id": "own", "name": "name",
             "window_properties": {"class": "class", "title": "title"}},
            {"id": 5, "window": 5, "focused": true}
        ]}"#,
    );
    let record = focused_window(&tree).unwrap();
    assert_eq!(record.id, 4);
    assert_eq!(record.app_id.as_deref(), Some("own"));
    assert_eq!(record.title.as_deref(), Some("name"));
    assert_eq!(record.original_tile_index, 1);
    assert_eq!(focused_leaf(&tree).unwrap().id, 4);
}

#[test]
fn an_empty_tree_has_no_focused_window() {
    let tree = tree(r#"{"id": 1, "focused": true, "nodes": []}"#);
    assert!(windows_from_tree(&tree).is_empty());
    assert_eq!(
        focused_window(&tree).unwrap_err().message(),
        "no focused i3 window found"
    );
}

#[test]
fn messages_are_spelled_out() {
    assert_eq!(tree_message(), vec!["-t", "get_tree"]);
    assert_eq!(focus_message(Direction::West), vec!["focus", "left"]);
    assert_eq!(focus_message(Direction::East), vec!["focus", "right"]);
    assert_eq!(move_message(Direction::North), vec!["move", "up"]);
    assert_eq!(move_message(Direction::South), vec!["move", "down"]);
    assert_eq!(
        resize_message(ResizeIntent::new(Direction::West, ResizeKind::Grow, -30)),
        vec!["resize", "grow", "width", "30", "px"]
    );
    assert_eq!(
        resize_message(ResizeIntent::new(Direction::South, ResizeKind::Shrink, 0)),
        vec!["resize", "shrink", "height", "1", "px"]
    );
    assert_eq!(
        spawn_message(&vec!["foot".to_string(), "-e".to_string(), "sh".to_string()]),
        vec!["exec", "--no-startup-id", "foot -e sh"]
    );
    assert_eq!(
        focus_window_message(94),
        vec!["[con_id=\"94\"]", "focus"]
    );
    assert_eq!(close_window_message(0), vec!["[con_id=\"0\"]", "kill"]);
}

#[test]
fn i3_says_what_it_can_do() {
    I3Adapter::connect().unwrap();
    assert_eq!(I3Spec.backend(), WmBackend::I3);
    assert_eq!(I3Spec.name(), "i3");
    let capabilities = I3Adapter::capabilities();
    assert_eq!(
        plan_resize(capabilities, Direction::North),
        CapabilitySupport::Native
    );
    assert_eq!(
        plan_tear_out(capabilities, Direction::East),
        CapabilitySupport::Unsupported
    );
}
