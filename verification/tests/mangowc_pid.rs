use window_managers::mangowc::pid::{
    classify_focused_terminal_pid, resolve_focused_terminal_pid, FocusedPidMatch,
    ProcessCandidate, TerminalApps,
};
use window_managers::process::ProcessId;

fn candidate(pid: u32, comm: &str) -> ProcessCandidate {
    ProcessCandidate {
        pid: ProcessId::new(pid).expect("candidate pid should be non-zero"),
        comm: comm.to_string(),
    }
}

fn texts(texts: &[&str]) -> Vec<String> {
    texts.iter().map(|text| text.to_string()).collect()
}

fn apps() -> TerminalApps {
    TerminalApps {
        hosts: texts(&["foot", "kitty", "wezterm", "Alacritty", "ghostty", "other"]),
        foot: texts(&["foot"]),
        kitty: texts(&["kitty"]),
        wezterm: texts(&["wezterm"]),
        alacritty: texts(&["Alacritty"]),
        ghostty: texts(&["ghostty"]),
    }
}

#[test]
fn mangowc_pid_unique_terminal_host_candidate_is_accepted() {
    let pid = resolve_focused_terminal_pid(
        &apps(),
        Some("foot"),
        Some("shell"),
        &vec![candidate(4242, "foot")],
    );
    assert_eq!(pid, ProcessId::new(4242));
}

#[test]
fn mangowc_pid_ambiguous_terminal_host_candidates_return_none() {
    let pid = resolve_focused_terminal_pid(
        &apps(),
        Some("foot"),
        Some("shell"),
        &vec![candidate(4242, "foot"), candidate(4343, "footclient")],
    );
    assert_eq!(pid, None);
}

#[test]
fn mangowc_pid_unknown_non_terminal_app_id_returns_none() {
    let pid = resolve_focused_terminal_pid(
        &apps(),
        Some("firefox"),
        Some("shell"),
        &vec![candidate(4242, "foot")],
    );
    assert_eq!(pid, None);
}

#[test]
fn classification_tells_the_three_cases_apart() {
    let apps = apps();
    let processes = vec![
        candidate(1, "bash"),
        candidate(2, "wezterm-gui"),
        candidate(2, "wezterm"),
        candidate(3, "alacritty"),
        candidate(4, "Alacritty"),
    ];
    let strong = FocusedPidMatch::Strong(ProcessId::new(2).unwrap());
    assert_eq!(
        classify_focused_terminal_pid(&apps, Some("wezterm"), &processes),
        strong
    );
    assert_eq!(
        classify_focused_terminal_pid(&apps, Some("Alacritty"), &processes),
        FocusedPidMatch::Ambiguous
    );
    assert_eq!(
        classify_focused_terminal_pid(&apps, Some("ghostty"), &processes),
        FocusedPidMatch::Unknown
    );
    assert_eq!(
        classify_focused_terminal_pid(&apps, Some("kitty"), &processes),
        FocusedPidMatch::Unknown
    );
    assert_eq!(
        classify_focused_terminal_pid(&apps, Some("other"), &processes),
        FocusedPidMatch::Unknown
    );
    assert_eq!(
        classify_focused_terminal_pid(&apps, None, &processes),
        FocusedPidMatch::Unknown
    );
}
