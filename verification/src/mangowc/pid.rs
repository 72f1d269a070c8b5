//! Guessing which process a focused terminal belongs to.
use crate::process::ProcessId;
use crate::text;
use vstd::prelude::*;
use vstd::string::*;

verus! {

/// A process, with the plain name of its program.
#[derive(Debug, PartialEq, Eq)]
pub struct ProcessCandidate {
    pub pid: ProcessId,
    pub comm: String,
}

/// By which names the windows of the terminals go.
#[derive(Debug, PartialEq, Eq)]
pub struct TerminalApps {
    /// The windows that may host a terminal at all.
    pub hosts: Vec<String>,
    pub foot: Vec<String>,
    pub kitty: Vec<String>,
    pub wezterm: Vec<String>,
    pub alacritty: Vec<String>,
    pub ghostty: Vec<String>,
}

/// Some text of a list is `wanted`.
pub open spec fn lists(texts: Seq<String>, wanted: Seq<char>) -> bool {
    exists|i: int| 0 <= i < texts.len() && (#[trigger] texts[i])@ == wanted
}

fn lists_text(texts: &Vec<String>, wanted: &str) -> (result: bool)
    ensures
        result == lists(texts@, wanted@),
{
    let mut at: usize = 0;
    while at < texts.len()
        invariant
            at <= texts.len(),
            forall|i: int| 0 <= i < at ==> (#[trigger] texts@[i])@ != wanted@,
        decreases texts.len() - at,
    {
        if text::same_text(texts[at].as_str(), wanted) {
            return true;
        }
        at += 1;
    }
    false
}

/// A terminal.
#[derive(Debug, Clone, Copy, PartialEq, Eq, Structural)]
pub enum Terminal {
    Foot,
    Kitty,
    Wezterm,
    Alacritty,
    Ghostty,
}

impl TerminalApps {
    /// The terminal whose windows go by a name.
    pub open spec fn terminal(self, app_id: Seq<char>) -> Option<Terminal> {
        if !lists(self.hosts@, app_id) {
            None
        } else if lists(self.foot@, app_id) {
            Some(Terminal::Foot)
        } else if lists(self.kitty@, app_id) {
            Some(Terminal::Kitty)
        } else if lists(self.wezterm@, app_id) {
            Some(Terminal::Wezterm)
        } else if lists(self.alacritty@, app_id) {
            Some(Terminal::Alacritty)
        } else if lists(self.ghostty@, app_id) {
            Some(Terminal::Ghostty)
        } else {
            None
        }
    }

    /// Finds the terminal whose windows go by a name.
    pub fn terminal_for(&self, app_id: &str) -> (result: Option<Terminal>)
        ensures
            result == self.terminal(app_id@),
    {
        if !lists_text(&self.hosts, app_id) {
            None
        } else if lists_text(&self.foot, app_id) {
            Some(Terminal::Foot)
        } else if lists_text(&self.kitty, app_id) {
            Some(Terminal::Kitty)
        } else if lists_text(&self.wezterm, app_id) {
            Some(Terminal::Wezterm)
        } else if lists_text(&self.alacritty, app_id) {
            Some(Terminal::Alacritty)
        } else if lists_text(&self.ghostty, app_id) {
            Some(Terminal::Ghostty)
        } else {
            None
        }
    }
}

/// A program of the given name belongs to a terminal.
pub open spec fn is_program_of(terminal: Terminal, comm: Seq<char>) -> bool {
    match terminal {
        Terminal::Foot => comm == "foot"@ || comm == "footclient"@,
        Terminal::Kitty => comm == "kitty"@,
        Terminal::Wezterm => comm == "wezterm"@ || comm == "wezterm-gui"@,
        Terminal::Alacritty => comm == "Alacritty"@ || comm == "alacritty"@,
        Terminal::Ghostty => comm == "ghostty"@,
    }
}

/// Lists the names of the programs of the terminal whose windows go by a name.
pub fn expected_process_names_for_app_id(apps: &TerminalApps, app_id: &str) -> (result: Option<
    Vec<String>,
>)
    ensures
        match (result, apps.terminal(app_id@)) {
            (Some(names), Some(terminal)) => forall|comm: Seq<char>| #[trigger]
                lists(names@, comm) <==> is_program_of(terminal, comm),
            (None, None) => true,
            _ => false,
        },
{
    match apps.terminal_for(app_id) {
        Some(terminal) => {
            let names: Vec<String> = match terminal {
                Terminal::Foot => text::owned_pair("foot", "footclient"),
                Terminal::Kitty => text::owned_pair("kitty", "kitty"),
                Terminal::Wezterm => text::owned_pair("wezterm", "wezterm-gui"),
                Terminal::Alacritty => text::owned_pair("Alacritty", "alacritty"),
                Terminal::Ghostty => text::owned_pair("ghostty", "ghostty"),
            };
            proof {
                let held = text::views(names@);
                assert(held.len() == 2);
                assert(held[0] == names@[0]@ && held[1] == names@[1]@);
                assert forall|comm: Seq<char>| #[trigger] lists(names@, comm) <==> is_program_of(
                    terminal,
                    comm,
                ) by {
                    if comm == held[0] {
                        assert(names@[0]@ == comm);
                    }
                    if comm == held[1] {
                        assert(names@[1]@ == comm);
                    }
                    if lists(names@, comm) {
                        let i = choose|i: int|
                            0 <= i < names@.len() && (#[trigger] names@[i])@ == comm;
                        assert(i == 0 || i == 1);
                    }
                }
            }
            Some(names)
        },
        None => None,
    }
}

/// How well the process of a window is known.
#[derive(Debug, Clone, Copy, PartialEq, Eq, Structural)]
pub enum FocusedPidMatch {
    /// Exactly one process can be it.
    Strong(ProcessId),
    /// Several processes can be it.
    Ambiguous,
    /// No process can be it.
    Unknown,
}

/// The process at `i` can be the one behind a window of the given name.
pub open spec fn is_candidate(
    apps: TerminalApps,
    app_id: Option<Seq<char>>,
    candidate: ProcessCandidate,
) -> bool {
    match app_id {
        Some(app_id) => match apps.terminal(app_id) {
            Some(terminal) => is_program_of(terminal, candidate.comm@),
            None => false,
        },
        None => false,
    }
}

/// Some process with the identifier `pid` can be the one behind a window of the given name.
pub open spec fn can_be(
    apps: TerminalApps,
    app_id: Option<Seq<char>>,
    processes: Seq<ProcessCandidate>,
    pid: ProcessId,
) -> bool {
    exists|i: int|
        0 <= i < processes.len() && (#[trigger] processes[i]).pid == pid && is_candidate(
            apps,
            app_id,
            processes[i],
        )
}

/// What an optional borrowed text holds.
pub open spec fn optional_str(s: Option<&str>) -> Option<Seq<char>> {
    match s {
        Some(s) => Some(s@),
        None => None,
    }
}

/// `found` says how well the process behind a window of the given name is known.
pub open spec fn is_match(
    found: FocusedPidMatch,
    apps: TerminalApps,
    app_id: Option<Seq<char>>,
    processes: Seq<ProcessCandidate>,
) -> bool {
    match found {
        FocusedPidMatch::Strong(pid) => can_be(apps, app_id, processes, pid) && forall|
            other: ProcessId,
        | #[trigger] can_be(apps, app_id, processes, other) ==> other == pid,
        FocusedPidMatch::Ambiguous => exists|a: ProcessId, b: ProcessId|
            a != b && #[trigger] can_be(apps, app_id, processes, a) && #[trigger] can_be(
                apps,
                app_id,
                processes,
                b,
            ),
        FocusedPidMatch::Unknown => forall|pid: ProcessId| !#[trigger]
            can_be(apps, app_id, processes, pid),
    }
}

/// Finds out how well the process behind a window is known.
pub fn classify_focused_terminal_pid(
    apps: &TerminalApps,
    app_id: Option<&str>,
    processes: &Vec<ProcessCandidate>,
) -> (result: FocusedPidMatch)
    ensures
        is_match(result, *apps, optional_str(app_id), processes@),
{
    let names: Vec<String> = match app_id {
        Some(app_id) => match expected_process_names_for_app_id(apps, app_id) {
            Some(names) => names,
            None => {
                return FocusedPidMatch::Unknown;
            },
        },
        None => {
            return FocusedPidMatch::Unknown;
        },
    };
    let ghost wanted = optional_str(app_id);
    let mut found: Option<ProcessId> = None;
    let mut at: usize = 0;
    while at < processes.len()
        invariant
            at <= processes.len(),
            wanted == optional_str(app_id),
            wanted is Some && apps.terminal(wanted->0) is Some,
            forall|comm: Seq<char>| #[trigger]
                lists(names@, comm) <==> is_program_of(apps.terminal(wanted->0)->0, comm),
            match found {
                Some(pid) => can_be(*apps, wanted, processes@, pid) && forall|i: int|
                    0 <= i < at && is_candidate(*apps, wanted, #[trigger] processes@[i])
                        ==> processes@[i].pid == pid,
                None => forall|i: int|
                    0 <= i < at ==> !is_candidate(*apps, wanted, #[trigger] processes@[i]),
            },
        decreases processes.len() - at,
    {
        let matches: bool = lists_text(&names, processes[at].comm.as_str());
        assert(matches == is_candidate(*apps, wanted, processes@[at as int]));
        if matches {
            let pid: ProcessId = processes[at].pid;
            assert(can_be(*apps, wanted, processes@, pid));
            match found {
                Some(first) => {
                    if first != pid {
                        return FocusedPidMatch::Ambiguous;
                    }
                },
                None => {
                    found = Some(pid);
                },
            }
        }
        at += 1;
    }
    match found {
        Some(pid) => FocusedPidMatch::Strong(pid),
        None => FocusedPidMatch::Unknown,
    }
}

/// Finds the process behind a terminal's window. Unless exactly one process can be it, none is
/// given. The title says nothing about the process.
pub fn resolve_focused_terminal_pid(
    apps: &TerminalApps,
    app_id: Option<&str>,
    _title: Option<&str>,
    processes: &Vec<ProcessCandidate>,
) -> (result: Option<ProcessId>)
    ensures
        match result {
            Some(pid) => is_match(
                FocusedPidMatch::Strong(pid),
                *apps,
                optional_str(app_id),
                processes@,
            ),
            None => is_match(FocusedPidMatch::Unknown, *apps, optional_str(app_id), processes@)
                || is_match(FocusedPidMatch::Ambiguous, *apps, optional_str(app_id), processes@),
        },
{
    match classify_focused_terminal_pid(apps, app_id, processes) {
        FocusedPidMatch::Strong(pid) => Some(pid),
        FocusedPidMatch::Ambiguous | FocusedPidMatch::Unknown => None,
    }
}

/// Exactly one of the three answers is right.
pub proof fn matches_exclude_each_other(
    first: FocusedPidMatch,
    second: FocusedPidMatch,
    apps: TerminalApps,
    app_id: Option<Seq<char>>,
    processes: Seq<ProcessCandidate>,
)
    requires
        is_match(first, apps, app_id, processes),
        is_match(second, apps, app_id, processes),
    ensures
        first == second,
{
}

proof fn lemma_lists(texts: Seq<String>, wanted: Seq<char>)
    ensures
        lists(texts, wanted) == text::views(texts).contains(wanted),
{
    if lists(texts, wanted) {
        let i = choose|i: int| 0 <= i < texts.len() && (#[trigger] texts[i])@ == wanted;
        assert(text::views(texts)[i] == wanted);
    }
    if text::views(texts).contains(wanted) {
        let i = choose|i: int| 0 <= i < texts.len() && text::views(texts)[i] == wanted;
        assert(texts[i]@ == wanted);
    }
}

/// Each terminal is known by the names of its own programs, and a window that is no host of a
/// terminal by none. A name that several terminals claim goes to the first of foot, kitty, wezterm,
/// Alacritty and Ghostty that does.
pub proof fn terminals_are_known_by_their_programs(
    apps: TerminalApps,
    app_id: &str,
    names: Option<Vec<String>>,
    comm: Seq<char>,
)
    requires
        call_ensures(expected_process_names_for_app_id, (&apps, app_id), names),
    ensures
        ({
            let host = text::views(apps.hosts@).contains(app_id@);
            let foot = text::views(apps.foot@).contains(app_id@);
            let kitty = text::views(apps.kitty@).contains(app_id@);
            let wezterm = text::views(apps.wezterm@).contains(app_id@);
            let alacritty = text::views(apps.alacritty@).contains(app_id@);
            let ghostty = text::views(apps.ghostty@).contains(app_id@);
            &&& names is Some <==> host && (foot || kitty || wezterm || alacritty || ghostty)
            &&& names matches Some(names) ==> (text::views(names@).contains(comm) <==> if foot {
                comm == "foot"@ || comm == "footclient"@
            } else if kitty {
                comm == "kitty"@
            } else if wezterm {
                comm == "wezterm"@ || comm == "wezterm-gui"@
            } else if alacritty {
                comm == "Alacritty"@ || comm == "alacritty"@
            } else {
                comm == "ghostty"@
            })
        }),
{
    lemma_lists(apps.hosts@, app_id@);
    lemma_lists(apps.foot@, app_id@);
    lemma_lists(apps.kitty@, app_id@);
    lemma_lists(apps.wezterm@, app_id@);
    lemma_lists(apps.alacritty@, app_id@);
    lemma_lists(apps.ghostty@, app_id@);
    if let Some(names) = names {
        lemma_lists(names@, comm);
    }
}

/// The process behind a window is found exactly if one process, and no other, runs a program of
/// the window's terminal; then it is that process.
pub proof fn a_single_program_of_the_terminal_is_found(
    apps: TerminalApps,
    app_id: Option<&str>,
    title: Option<&str>,
    processes: Vec<ProcessCandidate>,
    names: Option<Vec<String>>,
    found: Option<ProcessId>,
    at: int,
)
    requires
        app_id matches Some(app_id) ==> call_ensures(
            expected_process_names_for_app_id,
            (&apps, app_id),
            names,
        ),
        call_ensures(resolve_focused_terminal_pid, (&apps, app_id, title, &processes), found),
        0 <= at < processes@.len(),
    ensures
        app_id is None || names is None ==> found is None,
        app_id is Some && names is Some && text::views(names->0@).contains(processes@[at].comm@)
            ==> (found is None || found == Some(processes@[at].pid)) && ((forall|i: int|
            0 <= i < processes@.len() && text::views(names->0@).contains(
                (#[trigger] processes@[i]).comm@,
            ) ==> processes@[i].pid == processes@[at].pid) ==> found == Some(processes@[at].pid)),
        found matches Some(pid) ==> names is Some && exists|i: int|
            0 <= i < processes@.len() && (#[trigger] processes@[i]).pid == pid && text::views(
                names->0@,
            ).contains(processes@[i].comm@),
{
    let wanted = optional_str(app_id);
    if app_id is Some && names is Some {
        let names = names->0;
        assert forall|i: int| 0 <= i < processes@.len() implies text::views(names@).contains(
            (#[trigger] processes@[i]).comm@,
        ) == is_candidate(apps, wanted, processes@[i]) by {
            lemma_lists(names@, processes@[i].comm@);
        }
        if is_candidate(apps, wanted, processes@[at]) {
            assert(can_be(apps, wanted, processes@, processes@[at].pid));
        }
        assert forall|pid: ProcessId| #[trigger]
            can_be(apps, wanted, processes@, pid) implies exists|i: int|
            0 <= i < processes@.len() && (#[trigger] processes@[i]).pid == pid && text::views(
                names@,
            ).contains(processes@[i].comm@) by {
            let i = choose|i: int|
                0 <= i < processes@.len() && (#[trigger] processes@[i]).pid == pid && is_candidate(
                    apps,
                    wanted,
                    processes@[i],
                );
            assert(processes@[i].pid == pid);
        }
    } else {
        assert forall|pid: ProcessId| !#[trigger] can_be(apps, wanted, processes@, pid) by {}
    }
}

/// A window belongs to the first terminal that lists its name, among those names that are listed as
/// hosts at all.
pub proof fn windows_belong_to_the_first_terminal_that_lists_them(
    apps: TerminalApps,
    app_id: &str,
    result: Option<Terminal>,
)
    requires
        call_ensures(TerminalApps::terminal_for, (&apps, app_id), result),
    ensures
        ({
            let host = text::views(apps.hosts@).contains(app_id@);
            let foot = text::views(apps.foot@).contains(app_id@);
            let kitty = text::views(apps.kitty@).contains(app_id@);
            let wezterm = text::views(apps.wezterm@).contains(app_id@);
            let alacritty = text::views(apps.alacritty@).contains(app_id@);
            let ghostty = text::views(apps.ghostty@).contains(app_id@);
            &&& result is Some <==> host && (foot || kitty || wezterm || alacritty || ghostty)
            &&& result == Some(Terminal::Foot) <==> host && foot
            &&& result == Some(Terminal::Kitty) <==> host && kitty && !foot
            &&& result == Some(Terminal::Wezterm) <==> host && wezterm && !foot && !kitty
            &&& result == Some(Terminal::Alacritty) <==> host && alacritty && !foot && !kitty
                && !wezterm
        }),
{
    lemma_lists(apps.hosts@, app_id@);
    lemma_lists(apps.foot@, app_id@);
    lemma_lists(apps.kitty@, app_id@);
    lemma_lists(apps.wezterm@, app_id@);
    lemma_lists(apps.alacritty@, app_id@);
    lemma_lists(apps.ghostty@, app_id@);
}

/// The process behind a window is known if all programs of its terminal that run are one process, in
/// doubt if two of them are different ones, and unknown if none runs or the window is no terminal's.
pub proof fn processes_are_in_doubt_if_there_are_several(
    apps: TerminalApps,
    app_id: Option<&str>,
    processes: Vec<ProcessCandidate>,
    names: Option<Vec<String>>,
    result: FocusedPidMatch,
    at: int,
    other: int,
)
    requires
        call_ensures(classify_focused_terminal_pid, (&apps, app_id, &processes), result),
        app_id matches Some(app_id) ==> call_ensures(
            expected_process_names_for_app_id,
            (&apps, app_id),
            names,
        ),
        0 <= at < processes@.len(),
        0 <= other < processes@.len(),
    ensures
        app_id is None || names is None ==> result is Unknown,
        app_id is Some && names is Some && text::views(names->0@).contains(processes@[at].comm@)
            ==> {
            &&& !(result is Unknown)
            &&& result matches FocusedPidMatch::Strong(pid) ==> pid == processes@[at].pid
            &&& text::views(names->0@).contains(processes@[other].comm@) && processes@[at].pid
                != processes@[other].pid ==> result is Ambiguous
        },
        app_id is Some && names is Some && (forall|i: int|
            0 <= i < processes@.len() ==> !text::views(names->0@).contains(
                (#[trigger] processes@[i]).comm@,
            )) ==> result is Unknown,
        app_id is Some && names is Some && text::views(names->0@).contains(processes@[at].comm@) && (
        forall|i: int|
            0 <= i < processes@.len() && text::views(names->0@).contains(
                (#[trigger] processes@[i]).comm@,
            ) ==> processes@[i].pid == processes@[at].pid) ==> result == FocusedPidMatch::Strong(
            processes@[at].pid,
        ),
{
    let wanted = optional_str(app_id);
    if app_id is Some && names is Some {
        let terminal = apps.terminal(app_id->0@)->0;
        assert forall|i: int| 0 <= i < processes@.len() implies is_candidate(
            apps,
            wanted,
            #[trigger] processes@[i],
        ) == text::views(names->0@).contains(processes@[i].comm@) by {
            lemma_lists(names->0@, processes@[i].comm@);
            assert(lists(names->0@, processes@[i].comm@) <==> is_program_of(
                terminal,
                processes@[i].comm@,
            ));
        }
        if text::views(names->0@).contains(processes@[at].comm@) {
            assert(can_be(apps, wanted, processes@, processes@[at].pid));
        }
        if text::views(names->0@).contains(processes@[other].comm@) {
            assert(can_be(apps, wanted, processes@, processes@[other].pid));
        }
        assert forall|pid: ProcessId| #[trigger] can_be(
            apps,
            wanted,
            processes@,
            pid,
        ) implies exists|i: int|
            0 <= i < processes@.len() && (#[trigger] processes@[i]).pid == pid && text::views(
                names->0@,
            ).contains(processes@[i].comm@) by {
            let i = choose|i: int|
                0 <= i < processes@.len() && (#[trigger] processes@[i]).pid == pid && is_candidate(
                    apps,
                    wanted,
                    processes@[i],
                );
            assert(processes@[i].pid == pid);
        }
    }
}

} // verus!
