use window_managers::mangowc::toplevel::{
    default_snapshot, ensure_required_globals, is_activated, RegistrySnapshot, ToplevelEvent,
    ToplevelRegistry, ToplevelSnapshotEntry, ToplevelStore, ACTIVATED_STATE,
};

fn entry(handle_id: u64, app_id: &str, title: &str, activated: bool) -> ToplevelSnapshotEntry {
    ToplevelSnapshotEntry {
        handle_id,
        app_id: Some(app_id.to_string()),
        title: Some(title.to_string()),
        pid: None,
        activated,
    }
}

#[test]
fn mangowc_toplevel_store_maintains_stable_synthetic_ids_for_repeated_handles() {
    let mut store = ToplevelStore::default();
    let first = vec![
        entry(10, "foot", "left", true),
        entry(20, "wezterm", "right", false),
    ];

    store.replace_snapshot(&first);
    let first_id = store.windows()[0].id;

    let second = vec![
        entry(10, "foot", "left-updated", true),
        entry(20, "wezterm", "right-updated", false),
    ];

    store.replace_snapshot(&second);
    assert_eq!(store.windows()[0].id, first_id);
}

#[test]
fn mangowc_toplevel_store_reports_activated_handle_as_focused_window() {
    let mut store = ToplevelStore::default();
    store.replace_snapshot(&[
        entry(41, "foot", "one", false),
        entry(42, "kitty", "two", true),
    ]);

    let focused = store.focused_window().expect("focused window should exist");
    assert_eq!(focused.title.as_deref(), Some("two"));
}

#[test]
fn mangowc_toplevel_store_rejects_stale_window_id_lookup() {
    let mut store = ToplevelStore::default();
    store.replace_snapshot(&[entry(99, "foot", "gone", true)]);
    let stale_id = store.windows()[0].id;

    store.replace_snapshot(&[]);

    let err = store
        .handle_for_window_id(stale_id)
        .expect_err("stale id should fail");
    assert!(err.message().contains("stale"));
}

#[test]
fn identifiers_of_gone_windows_are_not_given_out_again() {
    let mut store = ToplevelStore::default();
    store.replace_snapshot(&[entry(1, "a", "a", false), entry(2, "b", "b", true)]);
    store.replace_snapshot(&[entry(2, "b", "b", true)]);
    store.replace_snapshot(&[
        entry(1, "a", "a", false),
        entry(2, "b", "b", true),
        entry(3, "c", "c", false),
    ]);
    let ids: Vec<u64> = store.windows().iter().map(|w| w.id).collect();
    assert_eq!(ids, vec![3, 2, 4]);
    assert_eq!(store.handle_for_window_id(3).unwrap(), 1);
    assert_eq!(
        store.handle_for_window_id(1).unwrap_err().message(),
        "mangowc: stale window id 1"
    );
    let places: Vec<usize> = store
        .windows()
        .iter()
        .map(|w| w.original_tile_index)
        .collect();
    assert_eq!(places, vec![0, 1, 2]);
}

#[test]
fn a_store_without_an_activated_window_has_no_focus() {
    let mut store = ToplevelStore::default();
    assert_eq!(
        store.focused_window().unwrap_err().message(),
        "mangowc: no activated foreign toplevel window"
    );
    store.replace_snapshot(&[entry(1, "a", "a", true), entry(2, "b", "b", true)]);
    assert_eq!(store.focused_window().unwrap().id, 1);
}

#[test]
fn mangowc_toplevel_session_reuses_protocol_id_with_fresh_handle_identity() {
    let mut state = ToplevelRegistry::default();
    let first = state.register_protocol_handle(17);
    assert_eq!(state.handle_id_for_protocol(17), Some(first));
    assert_eq!(state.unregister_protocol_handle(17), Some(first));

    let second = state.register_protocol_handle(17);
    assert_ne!(second, first);
    assert_eq!(state.handle_id_for_protocol(17), Some(second));
}

#[test]
fn mangowc_toplevel_connect_fails_when_foreign_toplevel_manager_missing() {
    let err = ensure_required_globals(RegistrySnapshot {
        has_wl_seat: true,
        has_foreign_toplevel_manager: false,
    })
    .expect_err("missing manager should fail");
    assert!(err.message().contains("zwlr_foreign_toplevel_manager_v1"));
}

#[test]
fn mangowc_toplevel_connect_fails_when_wl_seat_missing() {
    let err = ensure_required_globals(RegistrySnapshot {
        has_wl_seat: false,
        has_foreign_toplevel_manager: true,
    })
    .expect_err("missing seat should fail");
    assert!(err.message().contains("wl_seat"));
}

#[test]
fn all_required_globals_are_enough() {
    assert!(ensure_required_globals(RegistrySnapshot {
        has_wl_seat: true,
        has_foreign_toplevel_manager: true,
    })
    .is_ok());
    let err = ensure_required_globals(RegistrySnapshot {
        has_wl_seat: false,
        has_foreign_toplevel_manager: false,
    })
    .unwrap_err();
    assert_eq!(
        err.message(),
        "mangowc: missing zwlr_foreign_toplevel_manager_v1"
    );
}

#[test]
fn events_fill_in_what_is_known_about_a_window() {
    let mut registry = ToplevelRegistry::default();
    let second = registry.announce(8);
    let first = registry.announce(3);
    assert_eq!((second, first), (1, 2));
    assert_eq!(registry.announce(8), 1);
    assert_eq!(
        registry.hear(3, ToplevelEvent::Title("shell".to_string())),
        None
    );
    assert_eq!(
        registry.hear(8, ToplevelEvent::AppId("foot".to_string())),
        None
    );
    assert_eq!(registry.hear(8, ToplevelEvent::Activated(true)), None);
    assert_eq!(
        registry.hear(99, ToplevelEvent::Title("nobody".to_string())),
        None
    );
    let mut expected = default_snapshot(1);
    expected.app_id = Some("foot".to_string());
    expected.activated = true;
    let mut other = default_snapshot(2);
    other.title = Some("shell".to_string());
    assert_eq!(registry.snapshot(), vec![expected, other.clone()]);

    assert_eq!(registry.hear(8, ToplevelEvent::Closed), Some(1));
    assert_eq!(registry.hear(8, ToplevelEvent::Closed), None);
    assert_eq!(registry.snapshot(), vec![other.clone()]);
    assert_eq!(registry.announce(8), 3);
    assert_eq!(registry.snapshot(), vec![other, default_snapshot(3)]);
}

#[test]
fn states_are_read_in_whole_numbers() {
    let mark = ACTIVATED_STATE.to_ne_bytes();
    let states = |numbers: &[u32]| {
        numbers
            .iter()
            .flat_map(|number| number.to_ne_bytes())
            .collect::<Vec<u8>>()
    };
    assert!(is_activated(&states(&[0, 2, 3]), mark));
    assert!(!is_activated(&states(&[0, 1, 3, 0x200]), mark));
    assert!(!is_activated(&[], mark));
    let mut shifted = vec![0u8];
    shifted.extend(states(&[2]));
    assert!(!is_activated(&shifted, mark));
    let mut trailing = states(&[1]);
    trailing.extend_from_slice(&mark[..3]);
    assert!(!is_activated(&trailing, mark));
}
