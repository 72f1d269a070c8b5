//! The bundle identifiers of applications.
use crate::macos::types::RawWindow;
use crate::select;
use crate::text;
use std::collections::HashMap;
use vstd::prelude::*;

verus! {

/// The bundle identifier that a line gives.
pub open spec fn line_identifier(line: Seq<char>) -> Option<Seq<char>> {
    match text::after_prefix(line, "\"CFBundleIdentifier\"="@) {
        Some(value) => {
            let identifier = text::strip_end(text::strip_start(text::trim(value), '"'), '"');
            if identifier.len() > 0 {
                Some(identifier)
            } else {
                None
            }
        },
        None => None,
    }
}

/// Which lines give a bundle identifier.
pub open spec fn identifying_lines(lines: Seq<Seq<char>>) -> Seq<bool> {
    Seq::new(lines.len(), |i: int| line_identifier(lines[i]) is Some)
}

/// The first bundle identifier in a report about an application.
pub open spec fn reported_identifier(output: Seq<char>) -> Option<Seq<char>> {
    let lines = text::lines(output);
    match select::first_set(identifying_lines(lines)) {
        Some(at) => line_identifier(lines[at]),
        None => None,
    }
}

fn identifier_in_line(line: &str) -> (result: Option<String>)
    ensures
        text::optional_view(result) == line_identifier(line@),
{
    match text::without_prefix(line, "\"CFBundleIdentifier\"=") {
        Some(value) => {
            let trimmed: String = text::trimmed(value.as_str());
            let identifier: String = text::stripped(trimmed.as_str(), '"');
            if identifier.as_str().is_empty() {
                None
            } else {
                Some(identifier)
            }
        },
        None => None,
    }
}

/// Reads the bundle identifier out of a report about an application.
pub fn parse_lsappinfo_bundle_identifier(output: &str) -> (result: Option<String>)
    ensures
        text::optional_view(result) == reported_identifier(output@),
{
    let lines: Vec<String> = text::lines_of(output);
    let ghost flags = identifying_lines(text::lines(output@));
    let mut at: usize = 0;
    while at < lines.len()
        invariant
            at <= lines.len(),
            text::views(lines@) == text::lines(output@),
            flags == identifying_lines(text::lines(output@)),
            forall|i: int| 0 <= i < at ==> !#[trigger] flags[i],
        decreases lines.len() - at,
    {
        assert(text::views(lines@)[at as int] == lines@[at as int]@);
        let found: Option<String> = identifier_in_line(lines[at].as_str());
        assert(flags[at as int] == found is Some);
        if found.is_some() {
            proof {
                select::lemma_first_set(flags, at as int);
            }
            return found;
        }
        at += 1;
    }
    proof {
        select::lemma_none_set(flags);
    }
    None
}

/// The report about an application is asked for by its process.
pub fn lsappinfo_arguments(pid: u32) -> (result: Vec<String>)
    ensures
        text::views(result@) == seq![
            "info"@,
            "-only"@,
            "bundleid"@,
            "#"@ + text::written(pid as nat, 10),
        ],
{
    let mut specifier: String = "#".to_owned();
    specifier.append(text::write_number(pid as u64, 10).as_str());
    let arguments: Vec<String> = text::with_piece(
        text::with_piece(text::owned_pair("info", "-only"), "bundleid"),
        specifier.as_str(),
    );
    assert(text::views(arguments@) =~= seq![
        "info"@,
        "-only"@,
        "bundleid"@,
        "#"@ + text::written(pid as nat, 10),
    ]);
    arguments
}

/// Names the application that owns a window. Only its process counts: the label that the owner
/// shows is not stable, so without a process there is no name. `report` is what is known about
/// the process.
pub fn stable_app_id_from_real_window(
    pid: Option<u32>,
    _owner_name: Option<&str>,
    report: Option<&str>,
) -> (result: Option<String>)
    ensures
        text::optional_view(result) == match (pid, report) {
            (Some(_), Some(report)) => reported_identifier(report@),
            _ => None,
        },
{
    match (pid, report) {
        (Some(_), Some(report)) => parse_lsappinfo_bundle_identifier(report),
        _ => None,
    }
}

/// The process that is to be asked about for the sake of `window`, if any.
pub open spec fn unnamed_pid(window: RawWindow) -> Option<u32> {
    if window.app_id is None {
        window.pid
    } else {
        None
    }
}

/// Some window up to `upto` needs `pid` to be asked about.
pub open spec fn is_unnamed(windows: Seq<RawWindow>, upto: int, pid: u32) -> bool {
    exists|i: int| 0 <= i < upto && unnamed_pid(#[trigger] windows[i]) == Some(pid)
}

/// The processes to ask about, in the order in which windows first need them.
pub open spec fn unnamed_pids(windows: Seq<RawWindow>) -> Seq<u32>
    decreases windows.len(),
{
    if windows.len() == 0 {
        Seq::empty()
    } else {
        let before = unnamed_pids(windows.drop_last());
        match unnamed_pid(windows.last()) {
            Some(pid) => if before.contains(pid) {
                before
            } else {
                before.push(pid)
            },
            None => before,
        }
    }
}

/// Lists the processes to ask about: those that own a window without an application.
pub fn pids_to_resolve(windows: &Vec<RawWindow>) -> (result: Vec<u32>)
    ensures
        result@ == unnamed_pids(windows@),
{
    let mut pids: Vec<u32> = Vec::new();
    let mut at: usize = 0;
    assert(windows@.take(0) =~= Seq::empty());
    while at < windows.len()
        invariant
            at <= windows.len(),
            pids@ == unnamed_pids(windows@.take(at as int)),
        decreases windows.len() - at,
    {
        let ghost after = windows@.take(at + 1);
        assert(after.drop_last() =~= windows@.take(at as int));
        assert(after.last() == windows@[at as int]);
        if windows[at].app_id.is_none() {
            if let Some(pid) = windows[at].pid {
                let mut known: bool = false;
                let mut next: usize = 0;
                while next < pids.len()
                    invariant
                        next <= pids.len(),
                        known == exists|i: int| 0 <= i < next && pids@[i] == pid,
                    decreases pids.len() - next,
                {
                    if pids[next] == pid {
                        known = true;
                    }
                    next += 1;
                }
                assert(known == pids@.contains(pid));
                if !known {
                    pids.push(pid);
                }
            }
        }
        at += 1;
    }
    assert(windows@.take(at as int) =~= windows@);
    pids
}

/// Each process is asked about once, and exactly those are that own a window without an
/// application.
pub proof fn processes_are_asked_about_once(windows: Seq<RawWindow>)
    ensures
        unnamed_pids(windows).no_duplicates(),
        forall|pid: u32| #[trigger]
            unnamed_pids(windows).contains(pid) <==> is_unnamed(windows, windows.len() as int, pid),
    decreases windows.len(),
{
    if windows.len() > 0 {
        let init = windows.drop_last();
        let last = windows.len() - 1;
        let before = unnamed_pids(init);
        let all = unnamed_pids(windows);
        processes_are_asked_about_once(init);
        assert forall|pid: u32| #[trigger] all.contains(pid) <==> is_unnamed(
            windows,
            windows.len() as int,
            pid,
        ) by {
            if before.contains(pid) {
                let i = choose|i: int|
                    0 <= i < init.len() && unnamed_pid(#[trigger] init[i]) == Some(pid);
                assert(unnamed_pid(windows[i]) == Some(pid));
                assert(is_unnamed(windows, windows.len() as int, pid));
                let at = before.index_of(pid);
                assert(all[at] == pid);
            }
            if unnamed_pid(windows[last]) == Some(pid) {
                assert(is_unnamed(windows, windows.len() as int, pid));
                if !before.contains(pid) {
                    assert(all[all.len() - 1] == pid);
                }
            }
            if is_unnamed(windows, windows.len() as int, pid) {
                let i = choose|i: int|
                    0 <= i < windows.len() && unnamed_pid(#[trigger] windows[i]) == Some(pid);
                if i < last {
                    assert(unnamed_pid(init[i]) == Some(pid));
                    assert(is_unnamed(init, init.len() as int, pid));
                    assert(before.contains(pid));
                }
            }
            if all.contains(pid) && !before.contains(pid) {
                assert(all == before.push(unnamed_pid(windows[last])->0));
            }
        }
    }
}

/// A window with its application filled in from what the processes answered.
pub open spec fn named_window(window: RawWindow, answers: Map<u32, Option<String>>) -> RawWindow {
    match unnamed_pid(window) {
        Some(pid) => RawWindow {
            app_id: if answers.dom().contains(pid) {
                answers[pid]
            } else {
                None
            },
            ..window
        },
        None => window,
    }
}

/// Fills in the applications of windows that have none, from what was found about their
/// processes.
pub fn enrich_real_window_app_ids_with(
    windows: &Vec<RawWindow>,
    answers: &HashMap<u32, Option<String>>,
) -> (result: Vec<RawWindow>)
    ensures
        result@ == windows@.map_values(|window: RawWindow| named_window(window, answers@)),
{
    broadcast use vstd::std_specs::hash::group_hash_axioms;

    let mut result: Vec<RawWindow> = Vec::new();
    let mut at: usize = 0;
    while at < windows.len()
        invariant
            at <= windows.len(),
            result@.len() == at,
            forall|i: int|
                0 <= i < at ==> #[trigger] result@[i] == named_window(windows@[i], answers@),
        decreases windows.len() - at,
    {
        let mut window: RawWindow = windows[at].clone();
        if window.app_id.is_none() {
            if let Some(pid) = window.pid {
                window.app_id = match answers.get(&pid) {
                    Some(answer) => answer.clone(),
                    None => None,
                };
            }
        }
        result.push(window);
        at += 1;
    }
    assert(result@ =~= windows@.map_values(|window: RawWindow| named_window(window, answers@)));
    result
}

proof fn lemma_identifier(value: Seq<char>, identifier: Seq<char>)
    requires
        identifier.len() > 0,
        identifier[0] != '"',
        identifier.last() != '"',
        value == seq!['"'] + identifier + seq!['"'],
    ensures
        text::strip_end(text::strip_start(text::trim(value), '"'), '"') == identifier,
{
    reveal_with_fuel(text::strip_start, 3);
    reveal_with_fuel(text::strip_end, 3);
    assert(value[0] == '"' && value.last() == '"');
    text::lemma_trim_unchanged(value);
    assert(value.skip(1) =~= identifier + seq!['"']);
    assert((identifier + seq!['"']).take(identifier.len() as int) =~= identifier);
    assert((identifier + seq!['"']).drop_last() =~= identifier);
}

/// A report is read line by line: the first line that gives an identifier in quotes behind the key for
/// it counts, and what comes after that line does not matter.
pub proof fn reports_name_the_bundle_in_quotes(
    output: &str,
    line: Seq<char>,
    identifier: Seq<char>,
    rest: Seq<char>,
    result: Option<String>,
)
    requires
        call_ensures(parse_lsappinfo_bundle_identifier, (output,), result),
        identifier.len() > 0,
        identifier[0] != '"',
        identifier.last() != '"',
        !identifier.contains('\n'),
        line == "\"CFBundleIdentifier\"="@ + (seq!['"'] + identifier + seq!['"']),
        output@ == line || output@ == line + seq!['\n'] + rest,
    ensures
        result is Some,
        result->0@ == identifier,
{
    reveal_strlit("\"CFBundleIdentifier\"=");
    let prefix = "\"CFBundleIdentifier\"="@;
    let value = seq!['"'] + identifier + seq!['"'];
    lemma_identifier(value, identifier);
    assert(line.skip(prefix.len() as int) =~= value);
    assert(prefix.is_prefix_of(line));
    assert(line_identifier(line) == Some(identifier));
    assert forall|i: int| 0 <= i < line.len() implies #[trigger] line[i] != '\n' by {
        if i >= prefix.len() + 1 && i < line.len() - 1 {
            assert(line[i] == identifier[i - prefix.len() - 1]);
            assert(identifier.contains(identifier[i - prefix.len() - 1]));
        }
    }
    assert(!line.contains('\n'));
    assert(line.last() == '"');
    text::lines_end_at_line_feeds(line, rest);
    let lines = text::lines(output@);
    assert(lines[0] == line);
    let flags = identifying_lines(lines);
    assert(flags[0]);
    assert(select::is_first_set(flags, 0));
    select::lemma_first_set(flags, 0);
}

/// A line that does not start with the key for the identifier is passed over.
pub proof fn other_lines_of_a_report_are_passed_over(
    output: &str,
    line: Seq<char>,
    rest: &str,
    result: Option<String>,
    from_rest: Option<String>,
)
    requires
        call_ensures(parse_lsappinfo_bundle_identifier, (output,), result),
        call_ensures(parse_lsappinfo_bundle_identifier, (rest,), from_rest),
        !line.contains('\n'),
        line.len() == 0 || line.last() != '\r',
        output@ == line + seq!['\n'] + rest@,
        forall|tail: Seq<char>| line != #[trigger] ("\"CFBundleIdentifier\"="@ + tail),
    ensures
        text::optional_view(result) == text::optional_view(from_rest),
{
    let prefix = "\"CFBundleIdentifier\"="@;
    if prefix.is_prefix_of(line) {
        assert(line =~= prefix + line.skip(prefix.len() as int));
    }
    assert(line_identifier(line) is None);
    text::lines_end_at_line_feeds(line, rest@);
    let lines = text::lines(output@);
    let others = text::lines(rest@);
    assert(lines == seq![line] + others);
    let flags = identifying_lines(lines);
    let other_flags = identifying_lines(others);
    assert(!flags[0]);
    assert forall|i: int| 0 <= i < others.len() implies #[trigger] other_flags[i] == flags[i
        + 1] by {
        assert(lines[i + 1] == others[i]);
    }
    select::first_set_finds_the_first(other_flags);
    match select::first_set(other_flags) {
        Some(at) => {
            assert(flags[at + 1]);
            assert forall|i: int| 0 <= i < at + 1 implies !#[trigger] flags[i] by {
                if i > 0 {
                    assert(!other_flags[i - 1]);
                }
            }
            assert(select::is_first_set(flags, at + 1));
            select::lemma_first_set(flags, at + 1);
            assert(lines[at + 1] == others[at]);
        },
        None => {
            assert forall|i: int| 0 <= i < flags.len() implies !#[trigger] flags[i] by {
                if i > 0 {
                    assert(!other_flags[i - 1]);
                }
            }
            select::lemma_none_set(flags);
        },
    }
}

/// The report about a process is asked for by its number, and only for the bundle.
pub proof fn reports_are_asked_for_by_process(pid: u32, result: Vec<String>)
    requires
        call_ensures(lsappinfo_arguments, (pid,), result),
    ensures
        result@.len() == 4,
        result@[0]@ == "info"@,
        result@[1]@ == "-only"@,
        result@[2]@ == "bundleid"@,
        result@[3]@.len() > 1,
        result@[3]@[0] == '#',
        text::parsed_unsigned(result@[3]@.skip(1), 10, u32::MAX as int) == Some(pid as int),
{
    let views = text::views(result@);
    assert(views == seq!["info"@, "-only"@, "bundleid"@, "#"@ + text::written(pid as nat, 10)]);
    assert(views.len() == 4);
    assert(result@.len() == 4);
    assert(views[0] == result@[0]@);
    assert(views[1] == result@[1]@);
    assert(views[2] == result@[2]@);
    assert(views[3] == result@[3]@);
    reveal_strlit("#");
    assert(result@[3]@.skip(1) =~= text::written(pid as nat, 10));
    text::written_numbers_read_back(pid as nat, 10);
    text::numbers_are_read_with_their_signs(pid as nat, 0, u32::MAX as int, seq!['0', '?'], 1);
}

/// A window is named after its process alone: by the report about it, and not at all without either.
pub proof fn applications_are_named_by_their_process(
    pid: Option<u32>,
    owner: Option<&str>,
    report: Option<&str>,
    reported: Option<String>,
    result: Option<String>,
)
    requires
        call_ensures(stable_app_id_from_real_window, (pid, owner, report), result),
        report matches Some(report) ==> call_ensures(
            parse_lsappinfo_bundle_identifier,
            (report,),
            reported,
        ),
    ensures
        pid is None || report is None ==> result is None,
        pid is Some && report is Some ==> text::optional_view(result) == text::optional_view(
            reported,
        ),
{
}

proof fn lemma_first_needs(windows: Seq<RawWindow>, early: u32, late: u32, at: int)
    requires
        0 <= at < windows.len(),
        windows[at].app_id is None,
        windows[at].pid == Some(early),
        forall|i: int|
            0 <= i <= at ==> !((#[trigger] windows[i]).app_id is None && windows[i].pid == Some(
                late,
            )),
        unnamed_pids(windows).contains(late),
    ensures
        unnamed_pids(windows).contains(early),
        unnamed_pids(windows).index_of_first(early)->0 < unnamed_pids(windows).index_of_first(
            late,
        )->0,
    decreases windows.len(),
{
    let init = windows.drop_last();
    let last = windows.len() - 1;
    let before = unnamed_pids(init);
    let all = unnamed_pids(windows);
    processes_are_asked_about_once(windows);
    processes_are_asked_about_once(init);
    assert(unnamed_pid(windows[at]) == Some(early));
    assert(is_unnamed(windows, windows.len() as int, early));
    if at == last {
        let i = choose|i: int|
            0 <= i < windows.len() && unnamed_pid(#[trigger] windows[i]) == Some(late);
        assert(false);
    }
    assert(init[at] == windows[at]);
    assert forall|i: int| 0 <= i <= at implies !((#[trigger] init[i]).app_id is None && init[i].pid
        == Some(late)) by {
        assert(init[i] == windows[i]);
    }
    assert(is_unnamed(init, init.len() as int, early)) by {
        assert(unnamed_pid(init[at]) == Some(early));
    }
    assert(before.contains(early));
    before.index_of_first_ensures(early);
    all.index_of_first_ensures(early);
    all.index_of_first_ensures(late);
    let place = before.index_of_first(early)->0;
    assert(all[place] == early);
    if before.contains(late) {
        lemma_first_needs(init, early, late, at);
        before.index_of_first_ensures(late);
        let other = before.index_of_first(late)->0;
        assert(all[other] == late);
    }
}

/// Exactly the processes are asked about that own a window without an application, each once, and
/// those first that such a window needs first.
pub proof fn processes_are_asked_about_as_windows_need_them(
    windows: Vec<RawWindow>,
    result: Vec<u32>,
    pid: u32,
    late: u32,
    at: int,
)
    requires
        call_ensures(pids_to_resolve, (&windows,), result),
    ensures
        result@.no_duplicates(),
        result@.contains(pid) <==> exists|i: int|
            0 <= i < windows@.len() && (#[trigger] windows@[i]).app_id is None && windows@[i].pid
                == Some(pid),
        (0 <= at < windows@.len() && windows@[at].app_id is None && windows@[at].pid == Some(pid)
            && result@.contains(late) && forall|i: int|
            0 <= i <= at ==> !((#[trigger] windows@[i]).app_id is None && windows@[i].pid == Some(
                late,
            ))) ==> result@.index_of_first(pid)->0 < result@.index_of_first(late)->0,
{
    processes_are_asked_about_once(windows@);
    if result@.contains(pid) {
        let i = choose|i: int|
            0 <= i < windows@.len() && unnamed_pid(#[trigger] windows@[i]) == Some(pid);
        assert(windows@[i].app_id is None);
    }
    if exists|i: int|
        0 <= i < windows@.len() && (#[trigger] windows@[i]).app_id is None && windows@[i].pid
            == Some(pid) {
        let i = choose|i: int|
            0 <= i < windows@.len() && (#[trigger] windows@[i]).app_id is None && windows@[i].pid
                == Some(pid);
        assert(unnamed_pid(windows@[i]) == Some(pid));
        assert(is_unnamed(windows@, windows@.len() as int, pid));
    }
    if 0 <= at < windows@.len() && windows@[at].app_id is None && windows@[at].pid == Some(pid)
        && result@.contains(late) && forall|i: int|
        0 <= i <= at ==> !((#[trigger] windows@[i]).app_id is None && windows@[i].pid == Some(
            late,
        )) {
        lemma_first_needs(windows@, pid, late, at);
    }
}

/// A window without an application gets the one that was found for its process; every other window,
/// and all else about it, stays as it is.
pub proof fn answers_name_the_windows_of_their_process(
    windows: Vec<RawWindow>,
    answers: HashMap<u32, Option<String>>,
    result: Vec<RawWindow>,
    at: int,
)
    requires
        call_ensures(enrich_real_window_app_ids_with, (&windows, &answers), result),
        0 <= at < windows@.len(),
    ensures
        result@.len() == windows@.len(),
        ({
            let (before, after) = (windows@[at], result@[at]);
            &&& after.id == before.id
            &&& after.pid == before.pid
            &&& after.title == before.title
            &&& after.level == before.level
            &&& after.visible_index == before.visible_index
            &&& after.frame == before.frame
            &&& before.app_id is Some || before.pid is None ==> after.app_id == before.app_id
            &&& (before.app_id is None && before.pid is Some) ==> {
                let pid = before.pid->0;
                &&& answers@.contains_key(pid) ==> after.app_id == answers@[pid]
                &&& !answers@.contains_key(pid) ==> after.app_id is None
            }
        }),
{
    assert(result@[at] == named_window(windows@[at], answers@));
}

} // verus!
