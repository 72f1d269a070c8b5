use window_managers::mangowc::mmsg::{
    build_dispatch, build_exchange_client_dispatch, build_focusdir_dispatch, build_spawn_dispatch,
    build_tagmon_dispatch, dispatch_args, parse_focused_snapshot, FocusedSnapshot, MmsgError,
    MmsgTransport,
};

#[test]
fn mangowc_mmsg_dispatch_args_encode_directional_command() {
    assert_eq!(
        dispatch_args("focusdir", &["left"]),
        vec!["-d".to_string(), "focusdir,left".to_string()]
    );
}

#[test]
fn mangowc_mmsg_builders_encode_directional_commands() {
    assert_eq!(
        build_focusdir_dispatch("left").unwrap(),
        vec!["-d".to_string(), "focusdir,left".to_string()]
    );
    assert_eq!(
        build_exchange_client_dispatch("right").unwrap(),
        vec!["-d".to_string(), "exchange_client,right".to_string()]
    );
    assert_eq!(
        build_tagmon_dispatch("next").unwrap(),
        vec!["-d".to_string(), "tagmon,next".to_string()]
    );
}

#[test]
fn mangowc_mmsg_directional_builders_reject_invalid_dispatch_args() {
    assert!(build_focusdir_dispatch(" left").is_err());
    assert!(build_exchange_client_dispatch("right ").is_err());
    assert!(build_tagmon_dispatch("left,right").is_err());
}

#[test]
fn mangowc_mmsg_dispatch_builder_rejects_more_than_five_args() {
    let err = build_dispatch("setoption", &["1", "2", "3", "4", "5", "6"]).unwrap_err();
    assert!(err.message().contains("at most 5 args"));
}

#[test]
fn mangowc_mmsg_spawn_rejects_empty_command_vector() {
    assert!(build_spawn_dispatch(&[]).is_err());
}

#[test]
fn mangowc_mmsg_spawn_rejects_args_containing_commas() {
    let err = build_spawn_dispatch(&[
        "foot".to_string(),
        "--title".to_string(),
        "left,right".to_string(),
    ])
    .unwrap_err();
    assert!(err
        .message()
        .contains("cannot contain commas in mmsg spawn dispatch"));
}

#[test]
fn mangowc_mmsg_spawn_joins_command_vector_into_single_dispatch_arg() {
    assert_eq!(
        build_spawn_dispatch(&[
            "foot".to_string(),
            "--app-id".to_string(),
            "smoke".to_string(),
        ])
        .unwrap(),
        vec!["-d".to_string(), "spawn,foot --app-id smoke".to_string(),]
    );
}

#[test]
fn mangowc_mmsg_spawn_rejects_whitespace_containing_args() {
    let err = build_spawn_dispatch(&[
        "foot".to_string(),
        "--title".to_string(),
        "my terminal title".to_string(),
    ])
    .unwrap_err();
    assert!(err.message().contains("cannot contain whitespace"));
}

#[test]
fn mangowc_mmsg_parse_focused_snapshot_reads_appid_title_and_geometry() {
    let sample = "\
Virtual-1 title zsh in repo\n\
Virtual-1 appid foot\n\
Virtual-1 x 1820\n\
Virtual-1 y 16\n\
Virtual-1 width 1764\n\
Virtual-1 height 1110\n";
    let snap = parse_focused_snapshot(sample).unwrap();
    assert_eq!(snap.app_id.as_deref(), Some("foot"));
    assert_eq!(snap.title.as_deref(), Some("zsh in repo"));
    assert_eq!(snap.x, Some(1820));
    assert_eq!(snap.y, Some(16));
    assert_eq!(snap.width, Some(1764));
    assert_eq!(snap.height, Some(1110));
}

#[test]
fn mangowc_mmsg_parse_focused_snapshot_selects_active_output() {
    let sample = "\
HDMI-A-1 selmon 0\n\
HDMI-A-1 title secondary shell\n\
HDMI-A-1 appid foot\n\
HDMI-A-1 x 20\n\
HDMI-A-1 y 30\n\
HDMI-A-1 width 800\n\
HDMI-A-1 height 600\n\
Virtual-1 selmon 1\n\
Virtual-1 title focused shell\n\
Virtual-1 appid kitty\n\
Virtual-1 x 1820\n\
Virtual-1 y 16\n\
Virtual-1 width 1764\n\
Virtual-1 height 1110\n";
    let snap = parse_focused_snapshot(sample).unwrap();
    assert_eq!(snap.app_id.as_deref(), Some("kitty"));
    assert_eq!(snap.title.as_deref(), Some("focused shell"));
    assert_eq!(snap.x, Some(1820));
    assert_eq!(snap.y, Some(16));
    assert_eq!(snap.width, Some(1764));
    assert_eq!(snap.height, Some(1110));
}

#[test]
fn mangowc_mmsg_parse_focused_snapshot_rejects_ambiguous_multi_output_payload() {
    let sample = "\
HDMI-A-1 title secondary shell\n\
HDMI-A-1 appid foot\n\
Virtual-1 title focused shell\n\
Virtual-1 appid kitty\n";
    let err = parse_focused_snapshot(sample).unwrap_err();
    assert!(err.message().contains("selected mmsg output"));
}

#[test]
fn several_selected_outputs_are_refused() {
    let err = parse_focused_snapshot("A selmon 1\nB selmon 1\n").unwrap_err();
    assert_eq!(err, MmsgError::SeveralSelected);
    assert_eq!(
        err.message(),
        "mangowc: multiple selected mmsg outputs in focused snapshot"
    );
    assert_eq!(
        parse_focused_snapshot("A selmon 1\nB selmon 1\nA selmon 0\nB x 3\n")
            .unwrap()
            .x,
        Some(3)
    );
}

#[test]
fn blank_and_unknown_lines_say_nothing() {
    assert_eq!(
        parse_focused_snapshot("").unwrap(),
        FocusedSnapshot::default()
    );
    assert_eq!(
        parse_focused_snapshot("\n   \nA\n").unwrap(),
        FocusedSnapshot::default()
    );
    let snap = parse_focused_snapshot(
        "A layout tile\r\nA title \u{2003}two   words \nA appid\nA x -12\nA y 2147483648\nA width -1\nA height +7\n",
    )
    .unwrap();
    assert_eq!(snap.title.as_deref(), Some("two words"));
    assert_eq!(snap.app_id, None);
    assert_eq!(snap.x, Some(-12));
    assert_eq!(snap.y, None);
    assert_eq!(snap.width, None);
    assert_eq!(snap.height, Some(7));
}

#[test]
fn later_lines_replace_earlier_ones() {
    let snap = parse_focused_snapshot("A title one\nA title two\nA x 1\nA x none\n").unwrap();
    assert_eq!(snap.title.as_deref(), Some("two"));
    assert_eq!(snap.x, None);
}

#[test]
fn dispatch_faults_name_the_first_bad_argument() {
    let err = build_dispatch("c", &["ok", " bad", "worse,"]).unwrap_err();
    assert_eq!(err, MmsgError::ArgumentNotTrimmed(" bad".to_string()));
    assert_eq!(
        err.message(),
        "mmsg dispatch arguments cannot have leading or trailing whitespace: \" bad\""
    );
    let err = build_dispatch("c", &[" both,"]).unwrap_err();
    assert_eq!(
        err.message(),
        "mmsg dispatch arguments cannot contain commas: \" both,\""
    );
    let err = build_dispatch("set\"x", &["1", "2", "3", "4", "5", "6"]).unwrap_err();
    assert_eq!(
        err.message(),
        "mmsg dispatch supports at most 5 args, got 6 for command \"set\\\"x\""
    );
    assert_eq!(
        build_dispatch("c", &["1", "2", "3", "4", "5"]).unwrap(),
        vec!["-d".to_string(), "c,1,2,3,4,5".to_string()]
    );
}

#[test]
fn messages_quote_what_they_are_about() {
    let err = MmsgError::ArgumentWithComma("a\tb".to_string());
    assert_eq!(
        err.message(),
        "mmsg dispatch arguments cannot contain commas: \"a\\tb\""
    );
    assert_eq!(
        err.message_with_quote("<a>"),
        "mmsg dispatch arguments cannot contain commas: <a>"
    );
}

#[test]
fn spawn_faults_come_in_order() {
    assert_eq!(
        build_spawn_dispatch(&[]).unwrap_err().message(),
        "mmsg spawn command cannot be empty"
    );
    let words = |words: &[&str]| words.iter().map(|w| w.to_string()).collect::<Vec<_>>();
    assert_eq!(
        build_spawn_dispatch(&words(&["a b", "c,d", ""])).unwrap_err(),
        MmsgError::EmptySpawnArgument(String::new())
    );
    assert_eq!(
        build_spawn_dispatch(&words(&["a b", "c,d"])).unwrap_err(),
        MmsgError::SpawnArgumentWithComma("c,d".to_string())
    );
    assert_eq!(
        build_spawn_dispatch(&words(&["a b", "c d"])).unwrap_err(),
        MmsgError::SpawnArgumentWithSpace("a b".to_string())
    );
    assert_eq!(
        build_spawn_dispatch(&words(&[""])).unwrap_err().message(),
        "mmsg spawn command arguments cannot be empty: \"\""
    );
}

#[test]
fn dispatches_split_back_into_their_parts() {
    let line = build_dispatch("view", &["1", "two words"]).unwrap();
    assert_eq!(
        line[1].split(',').collect::<Vec<_>>(),
        vec!["view", "1", "two words"]
    );
    let line = build_spawn_dispatch(&["foot".to_string(), "-e".to_string()]).unwrap();
    assert_eq!(line[1].split(',').nth(1), Some("foot -e"));
}

#[test]
fn mangowc_mmsg_reports_missing_binary_cleanly() {
    let err = MmsgTransport::connect(false).unwrap_err();
    assert!(err.message().contains("mmsg"));
    assert_eq!(err.message(), "mangowc: required binary 'mmsg' not found");
}

#[test]
fn a_transport_can_be_made_by_default() {
    let request = MmsgTransport::default().focusdir("left").unwrap();
    assert_eq!(request.arguments, vec!["-d", "focusdir,left"]);
}

#[test]
fn transport_prepares_requests() {
    let transport = MmsgTransport::connect(true).unwrap();

    let request = transport.focusdir("left").unwrap();
    assert_eq!(request.arguments, vec!["-d", "focusdir,left"]);
    assert_eq!(request.action, "mmsg-dispatch");
    assert_eq!(request.target, "focusdir:left");

    let request = transport.exchange_client("up").unwrap();
    assert_eq!(request.arguments, vec!["-d", "exchange_client,up"]);
    assert_eq!(request.target, "exchange_client:up");

    let request = transport.tagmon("down").unwrap();
    assert_eq!(request.arguments, vec!["-d", "tagmon,down"]);
    assert_eq!(request.target, "tagmon:down");

    let request = transport.dispatch("view", &["1", "2"]).unwrap();
    assert_eq!(request.arguments, vec!["-d", "view,1,2"]);
    assert_eq!(request.target, "view:1,2");

    let request = transport
        .spawn(&["foot".to_string(), "-e".to_string()])
        .unwrap();
    assert_eq!(request.arguments, vec!["-d", "spawn,foot -e"]);
    assert_eq!(request.action, "mmsg-spawn");
    assert_eq!(request.target, "foot -e");

    let snap = transport
        .focused_snapshot(true, "A title x\n", "ignored")
        .unwrap();
    assert_eq!(snap.title.as_deref(), Some("x"));
    assert_eq!(
        transport
            .focused_snapshot(false, "A title x\n", "no socket")
            .unwrap_err()
            .message(),
        "mangowc::mmsg-focused-snapshot failed: no socket"
    );
    assert_eq!(
        transport
            .focused_snapshot(false, "", "")
            .unwrap_err()
            .message(),
        "mangowc::mmsg-focused-snapshot failed"
    );
    assert_eq!(
        transport
            .focused_snapshot(true, "A x 1\nB x 1\n", "")
            .unwrap_err()
            .message(),
        "mangowc: unable to determine selected mmsg output from focused snapshot"
    );
}
