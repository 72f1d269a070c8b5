//! `mmsg`, the program through which mangowc is told what to do and asked what it shows.
use crate::select;
use crate::text;
use vstd::prelude::*;
use vstd::string::*;

verus! {

/// Why a request cannot be made, or its answer not be understood.
#[derive(Debug, PartialEq, Eq)]
pub enum MmsgError {
    /// The program is not there.
    MissingBinary,
    /// A command has more arguments than fit.
    TooManyArguments { count: usize, command: String },
    /// An argument contains the separator.
    ArgumentWithComma(String),
    /// An argument begins or ends with white space.
    ArgumentNotTrimmed(String),
    /// A program is to be started that has no name.
    EmptySpawn,
    /// A word of a program's command line is empty.
    EmptySpawnArgument(String),
    /// A word of a program's command line contains the separator.
    SpawnArgumentWithComma(String),
    /// A word of a program's command line contains white space.
    SpawnArgumentWithSpace(String),
    /// The program failed; what it said may be empty.
    SnapshotFailed(String),
    /// Several outputs claim to be selected.
    SeveralSelected,
    /// There are several outputs, and none is selected.
    NoneSelected,
}

/// An error, over plain text.
pub enum ErrorModel {
    MissingBinary,
    TooManyArguments { count: usize, command: Seq<char> },
    ArgumentWithComma(Seq<char>),
    ArgumentNotTrimmed(Seq<char>),
    EmptySpawn,
    EmptySpawnArgument(Seq<char>),
    SpawnArgumentWithComma(Seq<char>),
    SpawnArgumentWithSpace(Seq<char>),
    SnapshotFailed(Seq<char>),
    SeveralSelected,
    NoneSelected,
}

impl View for MmsgError {
    type V = ErrorModel;

    open spec fn view(&self) -> ErrorModel {
        match self {
            MmsgError::MissingBinary => ErrorModel::MissingBinary,
            MmsgError::TooManyArguments { count, command } => ErrorModel::TooManyArguments {
                count: *count,
                command: command@,
            },
            MmsgError::ArgumentWithComma(text) => ErrorModel::ArgumentWithComma(text@),
            MmsgError::ArgumentNotTrimmed(text) => ErrorModel::ArgumentNotTrimmed(text@),
            MmsgError::EmptySpawn => ErrorModel::EmptySpawn,
            MmsgError::EmptySpawnArgument(text) => ErrorModel::EmptySpawnArgument(text@),
            MmsgError::SpawnArgumentWithComma(text) => ErrorModel::SpawnArgumentWithComma(text@),
            MmsgError::SpawnArgumentWithSpace(text) => ErrorModel::SpawnArgumentWithSpace(text@),
            MmsgError::SnapshotFailed(text) => ErrorModel::SnapshotFailed(text@),
            MmsgError::SeveralSelected => ErrorModel::SeveralSelected,
            MmsgError::NoneSelected => ErrorModel::NoneSelected,
        }
    }
}

/// How a text is written between quotation marks for a reader, with characters that would not be
/// visible written as escapes.
pub uninterp spec fn quoted_text(s: Seq<char>) -> Seq<char>;

/// Calls the `Debug` formatting of `str`, which writes a text between quotation marks and escapes
/// what would not be visible. Nothing is claimed but that the result depends on the text alone.
#[verifier::external_body]
fn quoted(s: &str) -> (result: String)
    ensures
        result@ == quoted_text(s@),
{
    format!("{:?}", s)
}

/// The text that an error is about, where it quotes one.
pub open spec fn error_subject(error: ErrorModel) -> Seq<char> {
    match error {
        ErrorModel::TooManyArguments { count, command } => command,
        ErrorModel::ArgumentWithComma(text) => text,
        ErrorModel::ArgumentNotTrimmed(text) => text,
        ErrorModel::EmptySpawnArgument(text) => text,
        ErrorModel::SpawnArgumentWithComma(text) => text,
        ErrorModel::SpawnArgumentWithSpace(text) => text,
        _ => ""@,
    }
}

/// The text of an error, given the quoted form of the text that it is about.
pub open spec fn text_with_quote(error: ErrorModel, quote: Seq<char>) -> Seq<char> {
    match error {
        ErrorModel::MissingBinary => "mangowc: required binary 'mmsg' not found"@,
        ErrorModel::TooManyArguments { count, command } =>
            "mmsg dispatch supports at most 5 args, got "@ + text::written(count as nat, 10)
            + " for command "@ + quote,
        ErrorModel::ArgumentWithComma(_) => "mmsg dispatch arguments cannot contain commas: "@
            + quote,
        ErrorModel::ArgumentNotTrimmed(_) =>
            "mmsg dispatch arguments cannot have leading or trailing whitespace: "@ + quote,
        ErrorModel::EmptySpawn => "mmsg spawn command cannot be empty"@,
        ErrorModel::EmptySpawnArgument(_) => "mmsg spawn command arguments cannot be empty: "@
            + quote,
        ErrorModel::SpawnArgumentWithComma(_) =>
            "mmsg spawn command arguments cannot contain commas in mmsg spawn dispatch: "@ + quote,
        ErrorModel::SpawnArgumentWithSpace(_) =>
            "mmsg spawn command arguments cannot contain whitespace because mangowc spawn expects a single space-delimited command string: "@
            + quote,
        ErrorModel::SnapshotFailed(text) => if text.len() == 0 {
            "mangowc::mmsg-focused-snapshot failed"@
        } else {
            "mangowc::mmsg-focused-snapshot failed: "@ + text
        },
        ErrorModel::SeveralSelected =>
            "mangowc: multiple selected mmsg outputs in focused snapshot"@,
        ErrorModel::NoneSelected =>
            "mangowc: unable to determine selected mmsg output from focused snapshot"@,
    }
}

/// The text of an error.
pub open spec fn error_text(error: ErrorModel) -> Seq<char> {
    text_with_quote(error, quoted_text(error_subject(error)))
}

fn followed_by(before: &str, after: &str) -> (result: String)
    ensures
        result@ == before@ + after@,
{
    let mut text: String = before.to_owned();
    text.append(after);
    text
}

impl MmsgError {
    fn subject(&self) -> (result: &str)
        ensures
            result@ == error_subject(self@),
    {
        match self {
            MmsgError::TooManyArguments { command, .. } => command.as_str(),
            MmsgError::ArgumentWithComma(text) => text.as_str(),
            MmsgError::ArgumentNotTrimmed(text) => text.as_str(),
            MmsgError::EmptySpawnArgument(text) => text.as_str(),
            MmsgError::SpawnArgumentWithComma(text) => text.as_str(),
            MmsgError::SpawnArgumentWithSpace(text) => text.as_str(),
            _ => "",
        }
    }

    /// Renders the error as text, given the quoted form of the text that it is about.
    pub fn message_with_quote(&self, quote: &str) -> (result: String)
        ensures
            result@ == text_with_quote(self@, quote@),
    {
        match self {
            MmsgError::MissingBinary => "mangowc: required binary 'mmsg' not found".to_owned(),
            MmsgError::TooManyArguments { count, .. } => {
                let mut text: String = followed_by(
                    "mmsg dispatch supports at most 5 args, got ",
                    text::write_number(*count as u64, 10).as_str(),
                );
                text.append(" for command ");
                text.append(quote);
                text
            },
            MmsgError::ArgumentWithComma(_) => followed_by(
                "mmsg dispatch arguments cannot contain commas: ",
                quote,
            ),
            MmsgError::ArgumentNotTrimmed(_) => followed_by(
                "mmsg dispatch arguments cannot have leading or trailing whitespace: ",
                quote,
            ),
            MmsgError::EmptySpawn => "mmsg spawn command cannot be empty".to_owned(),
            MmsgError::EmptySpawnArgument(_) => followed_by(
                "mmsg spawn command arguments cannot be empty: ",
                quote,
            ),
            MmsgError::SpawnArgumentWithComma(_) => followed_by(
                "mmsg spawn command arguments cannot contain commas in mmsg spawn dispatch: ",
                quote,
            ),
            MmsgError::SpawnArgumentWithSpace(_) => followed_by(
                "mmsg spawn command arguments cannot contain whitespace because mangowc spawn expects a single space-delimited command string: ",
                quote,
            ),
            MmsgError::SnapshotFailed(text) => if text.as_str().is_empty() {
                "mangowc::mmsg-focused-snapshot failed".to_owned()
            } else {
                followed_by("mangowc::mmsg-focused-snapshot failed: ", text.as_str())
            },
            MmsgError::SeveralSelected =>
                "mangowc: multiple selected mmsg outputs in focused snapshot".to_owned(),
            MmsgError::NoneSelected =>
                "mangowc: unable to determine selected mmsg output from focused snapshot".to_owned(),
        }
    }

    /// Renders the error as text.
    pub fn message(&self) -> (result: String)
        ensures
            result@ == error_text(self@),
    {
        self.message_with_quote(quoted(self.subject()).as_str())
    }
}

/// How many arguments a command may have.
pub const MAX_ARGUMENTS: usize = 5;

/// The command line that dispatches a command: its parts are separated by commas.
pub open spec fn dispatch_line(command: Seq<char>, args: Seq<Seq<char>>) -> Seq<Seq<char>> {
    seq!["-d"@, text::join(seq![command] + args, ","@)]
}

/// `arg` may stand in a dispatch.
pub open spec fn is_dispatchable(arg: Seq<char>) -> bool {
    !arg.contains(',') && text::trim(arg) == arg
}

/// What is wrong with a dispatch, if anything: too many arguments, or else the first argument that
/// may not stand in one.
pub open spec fn dispatch_fault(command: Seq<char>, args: Seq<Seq<char>>) -> Option<ErrorModel> {
    if args.len() > MAX_ARGUMENTS {
        Some(ErrorModel::TooManyArguments { count: args.len() as usize, command })
    } else {
        match select::first_set(bad_arguments(args)) {
            Some(at) => Some(
                if args[at].contains(',') {
                    ErrorModel::ArgumentWithComma(args[at])
                } else {
                    ErrorModel::ArgumentNotTrimmed(args[at])
                },
            ),
            None => None,
        }
    }
}

/// Which arguments may not stand in a dispatch.
pub open spec fn bad_arguments(args: Seq<Seq<char>>) -> Seq<bool> {
    Seq::new(args.len(), |i: int| !is_dispatchable(args[i]))
}

/// `result` is the command line of a dispatch, or says what is wrong with it.
pub open spec fn is_dispatch(
    result: Result<Vec<String>, MmsgError>,
    command: Seq<char>,
    args: Seq<Seq<char>>,
) -> bool {
    match result {
        Ok(line) => dispatch_fault(command, args) is None && text::views(line@) == dispatch_line(
            command,
            args,
        ),
        Err(error) => dispatch_fault(command, args) == Some(error@),
    }
}

/// Puts together the command line of a dispatch.
pub fn dispatch_args(command: &str, args: &[&str]) -> (result: Vec<String>)
    ensures
        text::views(result@) == dispatch_line(command@, text::str_views(args@)),
{
    let mut parts: Vec<String> = Vec::new();
    parts.push(command.to_owned());
    let mut rest: Vec<String> = text::owned_all(args);
    let ghost copied = rest@;
    parts.append(&mut rest);
    proof {
        let all = seq![command@] + text::str_views(args@);
        assert(parts@ =~= seq![parts@[0]] + copied);
        assert forall|i: int| 0 <= i < all.len() implies #[trigger] text::views(parts@)[i]
            == all[i] by {
            if i > 0 {
                assert(text::views(copied)[i - 1] == text::str_views(args@)[i - 1]);
            }
        }
        assert(text::views(copied).len() == args@.len());
        assert(text::views(parts@) =~= all);
    }
    let joined: String = text::joined(&parts, ",");
    text::owned_pair("-d", joined.as_str())
}

/// Puts together the command line of a dispatch, if that is possible.
pub fn build_dispatch(command: &str, args: &[&str]) -> (result: Result<Vec<String>, MmsgError>)
    ensures
        is_dispatch(result, command@, text::str_views(args@)),
{
    if args.len() > MAX_ARGUMENTS {
        return Err(
            MmsgError::TooManyArguments { count: args.len(), command: command.to_owned() },
        );
    }
    let ghost all = text::str_views(args@);
    let ghost flags = bad_arguments(all);
    let mut at: usize = 0;
    while at < args.len()
        invariant
            at <= args.len() <= MAX_ARGUMENTS,
            all == text::str_views(args@),
            flags == bad_arguments(all),
            forall|i: int| 0 <= i < at ==> !#[trigger] flags[i],
        decreases args.len() - at,
    {
        let arg: &str = args[at];
        assert(all[at as int] == arg@);
        if text::contains_char(arg, ',') {
            proof {
                assert(flags[at as int]);
                select::lemma_first_set(flags, at as int);
            }
            return Err(MmsgError::ArgumentWithComma(arg.to_owned()));
        }
        let trimmed: String = text::trimmed(arg);
        if !text::same_text(trimmed.as_str(), arg) {
            proof {
                assert(flags[at as int]);
                select::lemma_first_set(flags, at as int);
            }
            return Err(MmsgError::ArgumentNotTrimmed(arg.to_owned()));
        }
        assert(!flags[at as int]);
        at += 1;
    }
    proof {
        select::lemma_none_set(flags);
    }
    Ok(dispatch_args(command, args))
}

fn build_single(command: &str, arg: &str) -> (result: Result<Vec<String>, MmsgError>)
    ensures
        is_dispatch(result, command@, seq![arg@]),
{
    let args: [&str; 1] = [arg];
    let slice: &[&str] = args.as_slice();
    assert(text::str_views(slice@) =~= seq![arg@]);
    build_dispatch(command, slice)
}

/// Puts together the request to focus the next window in a direction.
pub fn build_focusdir_dispatch(direction: &str) -> (result: Result<Vec<String>, MmsgError>)
    ensures
        is_dispatch(result, "focusdir"@, seq![direction@]),
{
    build_single("focusdir", direction)
}

/// Puts together the request to swap the focused window with the next one in a direction.
pub fn build_exchange_client_dispatch(direction: &str) -> (result: Result<Vec<String>, MmsgError>)
    ensures
        is_dispatch(result, "exchange_client"@, seq![direction@]),
{
    build_single("exchange_client", direction)
}

/// Puts together the request to move the focused window to the next output in a direction.
pub fn build_tagmon_dispatch(direction: &str) -> (result: Result<Vec<String>, MmsgError>)
    ensures
        is_dispatch(result, "tagmon"@, seq![direction@]),
{
    build_single("tagmon", direction)
}

/// Which words are empty.
pub open spec fn empty_words(command: Seq<Seq<char>>) -> Seq<bool> {
    Seq::new(command.len(), |i: int| command[i].len() == 0)
}

/// Which words contain the separator.
pub open spec fn comma_words(command: Seq<Seq<char>>) -> Seq<bool> {
    Seq::new(command.len(), |i: int| command[i].contains(','))
}

/// Which words contain white space.
pub open spec fn spaced_words(command: Seq<Seq<char>>) -> Seq<bool> {
    Seq::new(command.len(), |i: int| text::has_space(command[i]))
}

/// What is wrong with a command line that is to be started, if anything: it is empty, or else it
/// has an empty word, or else a word with the separator, or else a word with white space.
pub open spec fn spawn_fault(command: Seq<Seq<char>>) -> Option<ErrorModel> {
    if command.len() == 0 {
        Some(ErrorModel::EmptySpawn)
    } else {
        match select::first_set(empty_words(command)) {
            Some(at) => Some(ErrorModel::EmptySpawnArgument(command[at])),
            None => match select::first_set(comma_words(command)) {
                Some(at) => Some(ErrorModel::SpawnArgumentWithComma(command[at])),
                None => match select::first_set(spaced_words(command)) {
                    Some(at) => Some(ErrorModel::SpawnArgumentWithSpace(command[at])),
                    None => None,
                },
            },
        }
    }
}

/// The command line that has a program started: its words are separated by spaces.
pub open spec fn spawn_line(command: Seq<Seq<char>>) -> Seq<Seq<char>> {
    dispatch_line("spawn"@, seq![text::join(command, " "@)])
}

/// `word` may stand in the command line of a program.
pub open spec fn is_spawnable(word: Seq<char>) -> bool {
    word.len() > 0 && !word.contains(',') && !text::has_space(word)
}

proof fn lemma_spawn_fault(command: Seq<Seq<char>>)
    ensures
        spawn_fault(command) is None <==> command.len() > 0 && forall|i: int|
            0 <= i < command.len() ==> is_spawnable(#[trigger] command[i]),
{
    select::first_set_finds_the_first(empty_words(command));
    select::first_set_finds_the_first(comma_words(command));
    select::first_set_finds_the_first(spaced_words(command));
    if spawn_fault(command) is None {
        assert forall|i: int| 0 <= i < command.len() implies is_spawnable(#[trigger] command[i]) by {
            assert(!empty_words(command)[i]);
            assert(!comma_words(command)[i]);
            assert(!spaced_words(command)[i]);
        }
    }
    if command.len() > 0 && forall|i: int|
        0 <= i < command.len() ==> is_spawnable(#[trigger] command[i]) {
        assert forall|i: int| 0 <= i < command.len() implies !#[trigger] empty_words(command)[i] by {
            assert(is_spawnable(command[i]));
        }
        assert forall|i: int| 0 <= i < command.len() implies !#[trigger] comma_words(command)[i] by {
            assert(is_spawnable(command[i]));
        }
        assert forall|i: int| 0 <= i < command.len() implies !#[trigger] spaced_words(
            command,
        )[i] by {
            assert(is_spawnable(command[i]));
        }
    }
}

proof fn lemma_spawn_is_dispatchable(command: Seq<Seq<char>>)
    requires
        command.len() > 0,
        forall|i: int| 0 <= i < command.len() ==> is_spawnable(#[trigger] command[i]),
    ensures
        dispatch_fault("spawn"@, seq![text::join(command, " "@)]) is None,
{
    let joined = text::join(command, " "@);
    reveal_strlit(" ");
    assert forall|i: int| 0 <= i < command.len() implies (#[trigger] command[i]).len() > 0 by {
        assert(is_spawnable(command[i]));
    }
    assert forall|i: int| 0 <= i < command.len() implies !(#[trigger] command[i]).contains(',') by {
        assert(is_spawnable(command[i]));
    }
    text::lemma_join_ends(command, " "@);
    text::lemma_join_avoids(command, " "@, ',');
    assert(is_spawnable(command[0]));
    assert(is_spawnable(command.last()));
    assert(!text::is_space(command[0][0]));
    assert(!text::is_space(command.last()[command.last().len() - 1]));
    text::lemma_trim_unchanged(joined);
    let flags = bad_arguments(seq![joined]);
    assert(!flags[0]);
    select::lemma_none_set(flags);
}

/// Puts together the request to start a program, if that is possible.
pub fn build_spawn_dispatch(command: &[String]) -> (result: Result<Vec<String>, MmsgError>)
    ensures
        match result {
            Ok(line) => spawn_fault(text::views(command@)) is None && text::views(line@)
                == spawn_line(text::views(command@)),
            Err(error) => spawn_fault(text::views(command@)) == Some(error@),
        },
{
    let ghost all = text::views(command@);
    if command.len() == 0 {
        return Err(MmsgError::EmptySpawn);
    }
    let ghost flags = empty_words(all);
    let mut at: usize = 0;
    while at < command.len()
        invariant
            at <= command.len(),
            command.len() > 0,
            all == text::views(command@),
            flags == empty_words(all),
            forall|i: int| 0 <= i < at ==> !#[trigger] flags[i],
        decreases command.len() - at,
    {
        assert(all[at as int] == command@[at as int]@);
        if command[at].as_str().is_empty() {
            proof {
                assert(flags[at as int]);
                select::lemma_first_set(flags, at as int);
            }
            return Err(MmsgError::EmptySpawnArgument(command[at].clone()));
        }
        assert(!flags[at as int]);
        at += 1;
    }
    proof {
        select::lemma_none_set(flags);
    }
    let ghost flags = comma_words(all);
    let mut at: usize = 0;
    while at < command.len()
        invariant
            at <= command.len(),
            command.len() > 0,
            all == text::views(command@),
            select::first_set(empty_words(all)) is None,
            flags == comma_words(all),
            forall|i: int| 0 <= i < at ==> !#[trigger] flags[i],
        decreases command.len() - at,
    {
        assert(all[at as int] == command@[at as int]@);
        if text::contains_char(command[at].as_str(), ',') {
            proof {
                assert(flags[at as int]);
                select::lemma_first_set(flags, at as int);
            }
            return Err(MmsgError::SpawnArgumentWithComma(command[at].clone()));
        }
        assert(!flags[at as int]);
        at += 1;
    }
    proof {
        select::lemma_none_set(flags);
    }
    let ghost flags = spaced_words(all);
    let mut words: Vec<String> = Vec::new();
    let mut at: usize = 0;
    while at < command.len()
        invariant
            at <= command.len(),
            command.len() > 0,
            all == text::views(command@),
            select::first_set(empty_words(all)) is None,
            select::first_set(comma_words(all)) is None,
            flags == spaced_words(all),
            forall|i: int| 0 <= i < at ==> !#[trigger] flags[i],
            words@ == command@.take(at as int),
        decreases command.len() - at,
    {
        assert(all[at as int] == command@[at as int]@);
        if text::contains_space(command[at].as_str()) {
            proof {
                assert(flags[at as int]);
                select::lemma_first_set(flags, at as int);
            }
            return Err(MmsgError::SpawnArgumentWithSpace(command[at].clone()));
        }
        assert(!flags[at as int]);
        words.push(command[at].clone());
        assert(words@ =~= command@.take(at + 1));
        at += 1;
    }
    assert(words@ =~= command@);
    proof {
        select::lemma_none_set(flags);
        lemma_spawn_fault(all);
        lemma_spawn_is_dispatchable(all);
    }
    let joined: String = text::joined(&words, " ");
    build_single("spawn", joined.as_str())
}

/// A program can be started exactly if it has a name and no word of its command line is empty or
/// contains the separator or white space.
pub proof fn spawning_needs_plain_words(command: Seq<Seq<char>>)
    ensures
        spawn_fault(command) is None <==> command.len() > 0 && forall|i: int|
            0 <= i < command.len() ==> is_spawnable(#[trigger] command[i]),
{
    lemma_spawn_fault(command);
}

/// A dispatch that is sent can be taken apart again into the command and its arguments, and the
/// argument that has a program started into the words of its command line. Nothing is lost and
/// nothing is added on the way.
pub proof fn dispatches_can_be_taken_apart(
    command: Seq<char>,
    args: Seq<Seq<char>>,
    words: Seq<Seq<char>>,
)
    requires
        !command.contains(','),
        dispatch_fault(command, args) is None,
        spawn_fault(words) is None,
    ensures
        text::split(dispatch_line(command, args)[1], ',') == seq![command] + args,
        text::split(spawn_line(words)[1], ',') == seq!["spawn"@, text::join(words, " "@)],
        text::split(text::join(words, " "@), ' ') == words,
{
    reveal_strlit(",");
    reveal_strlit(" ");
    reveal_strlit("spawn");
    assert(","@ =~= seq![',']);
    assert(" "@ =~= seq![' ']);
    select::first_set_finds_the_first(bad_arguments(args));
    let parts = seq![command] + args;
    assert forall|i: int| 0 <= i < parts.len() implies !(#[trigger] parts[i]).contains(',') by {
        if i > 0 {
            assert(!bad_arguments(args)[i - 1]);
        }
    }
    text::joined_pieces_split_back(parts, ',');
    lemma_spawn_fault(words);
    assert forall|i: int| 0 <= i < words.len() implies !(#[trigger] words[i]).contains(' ') by {
        assert(is_spawnable(words[i]));
        if words[i].contains(' ') {
            let at = words[i].index_of(' ');
            assert(text::is_space(words[i][at]));
        }
    }
    text::joined_pieces_split_back(words, ' ');
    lemma_spawn_is_dispatchable(words);
    let joined = text::join(words, " "@);
    select::first_set_finds_the_first(bad_arguments(seq![joined]));
    assert(!bad_arguments(seq![joined])[0]);
    let spawn = seq!["spawn"@] + seq![joined];
    assert forall|i: int| 0 <= i < spawn.len() implies !(#[trigger] spawn[i]).contains(',') by {
        if i == 0 {
            assert(spawn[0] == "spawn"@);
        }
    }
    text::joined_pieces_split_back(spawn, ',');
    assert(spawn =~= seq!["spawn"@, joined]);
}

/// What mangowc says about the focused window of an output.
#[derive(Debug, PartialEq, Eq)]
pub struct FocusedSnapshot {
    pub app_id: Option<String>,
    pub title: Option<String>,
    pub x: Option<i32>,
    pub y: Option<i32>,
    pub width: Option<u32>,
    pub height: Option<u32>,
}

/// What mangowc says about the focused window of an output, over plain text.
pub struct FocusedModel {
    pub app_id: Option<Seq<char>>,
    pub title: Option<Seq<char>>,
    pub x: Option<i32>,
    pub y: Option<i32>,
    pub width: Option<u32>,
    pub height: Option<u32>,
}

impl View for FocusedSnapshot {
    type V = FocusedModel;

    open spec fn view(&self) -> FocusedModel {
        FocusedModel {
            app_id: text::optional_view(self.app_id),
            title: text::optional_view(self.title),
            x: self.x,
            y: self.y,
            width: self.width,
            height: self.height,
        }
    }
}

/// Nothing is said about the focused window.
pub open spec fn nothing_focused() -> FocusedModel {
    FocusedModel { app_id: None, title: None, x: None, y: None, width: None, height: None }
}

impl Default for FocusedSnapshot {
    fn default() -> (result: Self)
        ensures
            result@ == nothing_focused(),
    {
        FocusedSnapshot { app_id: None, title: None, x: None, y: None, width: None, height: None }
    }
}

impl Clone for FocusedSnapshot {
    fn clone(&self) -> (copy: Self)
        ensures
            copy == *self,
    {
        FocusedSnapshot {
            app_id: self.app_id.clone(),
            title: self.title.clone(),
            x: self.x,
            y: self.y,
            width: self.width,
            height: self.height,
        }
    }
}

struct OutputSnapshot {
    name: String,
    selected: bool,
    focused: FocusedSnapshot,
}

/// What mangowc says about an output.
pub struct OutputModel {
    pub name: Seq<char>,
    pub selected: bool,
    pub focused: FocusedModel,
}

impl View for OutputSnapshot {
    type V = OutputModel;

    closed spec fn view(&self) -> OutputModel {
        OutputModel { name: self.name@, selected: self.selected, focused: self.focused@ }
    }
}

spec fn output_models(outputs: Seq<OutputSnapshot>) -> Seq<OutputModel> {
    Seq::new(outputs.len(), |i: int| outputs[i]@)
}

/// The signed number written in `s`.
pub open spec fn signed(s: Seq<char>) -> Option<i32> {
    match text::parsed_signed(s, i32::MIN as int, i32::MAX as int) {
        Some(value) => Some(value as i32),
        None => None,
    }
}

/// The unsigned number written in `s`.
pub open spec fn unsigned(s: Seq<char>) -> Option<u32> {
    match text::parsed_unsigned(s, 10, u32::MAX as int) {
        Some(value) => Some(value as u32),
        None => None,
    }
}

/// An output after what is said under `key` was taken in. Unknown keys say nothing.
pub open spec fn told(output: OutputModel, key: Seq<char>, rest: Seq<char>) -> OutputModel {
    if key == "selmon"@ {
        OutputModel { selected: text::trim(rest) == "1"@, ..output }
    } else if key == "appid"@ {
        OutputModel {
            focused: FocusedModel { app_id: text::non_blank(Some(rest)), ..output.focused },
            ..output
        }
    } else if key == "title"@ {
        OutputModel {
            focused: FocusedModel { title: text::non_blank(Some(rest)), ..output.focused },
            ..output
        }
    } else if key == "x"@ {
        OutputModel { focused: FocusedModel { x: signed(rest), ..output.focused }, ..output }
    } else if key == "y"@ {
        OutputModel { focused: FocusedModel { y: signed(rest), ..output.focused }, ..output }
    } else if key == "width"@ {
        OutputModel { focused: FocusedModel { width: unsigned(rest), ..output.focused }, ..output }
    } else if key == "height"@ {
        OutputModel { focused: FocusedModel { height: unsigned(rest), ..output.focused }, ..output }
    } else {
        output
    }
}

/// An output of which nothing is known yet.
pub open spec fn fresh_output(name: Seq<char>) -> OutputModel {
    OutputModel { name, selected: false, focused: nothing_focused() }
}

/// Which outputs carry a name.
pub open spec fn with_name(outputs: Seq<OutputModel>, name: Seq<char>) -> Seq<bool> {
    Seq::new(outputs.len(), |i: int| outputs[i].name == name)
}

/// The outputs after a line was taken in. A line names an output and a key, and says something
/// under that key; shorter lines say nothing.
pub open spec fn after_line(outputs: Seq<OutputModel>, line: Seq<char>) -> Seq<OutputModel> {
    let words = text::words(line);
    if words.len() < 2 {
        outputs
    } else {
        let rest = text::join(words.skip(2), " "@);
        match select::first_set(with_name(outputs, words[0])) {
            Some(at) => outputs.update(at, told(outputs[at], words[1], rest)),
            None => outputs.push(told(fresh_output(words[0]), words[1], rest)),
        }
    }
}

/// The outputs after all lines were taken in, in the order in which they are first named.
pub open spec fn outputs_of(lines: Seq<Seq<char>>) -> Seq<OutputModel>
    decreases lines.len(),
{
    if lines.len() == 0 {
        Seq::empty()
    } else {
        after_line(outputs_of(lines.drop_last()), lines.last())
    }
}

/// Which outputs are selected.
pub open spec fn selected_outputs(outputs: Seq<OutputModel>) -> Seq<bool> {
    Seq::new(outputs.len(), |i: int| outputs[i].selected)
}

/// Several outputs are selected.
pub open spec fn several_selected(outputs: Seq<OutputModel>) -> bool {
    exists|i: int, j: int|
        0 <= i < j < outputs.len() && (#[trigger] outputs[i]).selected && (
        #[trigger] outputs[j]).selected
}

/// What is said about the window that has the focus: that of the selected output. Where none is
/// selected, the only output counts; where there is no output at all, nothing is said.
pub open spec fn focus_of(outputs: Seq<OutputModel>) -> Result<FocusedModel, ErrorModel> {
    if outputs.len() == 0 {
        Ok(nothing_focused())
    } else if several_selected(outputs) {
        Err(ErrorModel::SeveralSelected)
    } else {
        match select::first_set(selected_outputs(outputs)) {
            Some(at) => Ok(outputs[at].focused),
            None => if outputs.len() == 1 {
                Ok(outputs[0].focused)
            } else {
                Err(ErrorModel::NoneSelected)
            },
        }
    }
}

/// Each output is named once, however many lines speak of it.
pub proof fn outputs_are_named_once(lines: Seq<Seq<char>>)
    ensures
        forall|i: int, j: int|
            0 <= i < j < outputs_of(lines).len() ==> (#[trigger] outputs_of(lines)[i]).name != (
            #[trigger] outputs_of(lines)[j]).name,
    decreases lines.len(),
{
    if lines.len() > 0 {
        let before = outputs_of(lines.drop_last());
        outputs_are_named_once(lines.drop_last());
        let words = text::words(lines.last());
        if words.len() >= 2 {
            let flags = with_name(before, words[0]);
            select::first_set_finds_the_first(flags);
            let after = outputs_of(lines);
            assert forall|i: int, j: int| 0 <= i < j < after.len() implies (
            #[trigger] after[i]).name != (#[trigger] after[j]).name by {
                match select::first_set(flags) {
                    Some(at) => {
                        assert(after[i].name == before[i].name);
                        assert(after[j].name == before[j].name);
                    },
                    None => {
                        assert(!flags[i]);
                        assert(after[i] == before[i]);
                        if j < before.len() {
                            assert(after[j] == before[j]);
                        }
                    },
                }
            }
        }
    }
}

impl OutputSnapshot {
    fn tell(&mut self, key: &str, rest: &str)
        ensures
            final(self)@ == told(old(self)@, key@, rest@),
    {
        if text::same_text(key, "selmon") {
            let trimmed: String = text::trimmed(rest);
            self.selected = text::same_text(trimmed.as_str(), "1");
        } else if text::same_text(key, "appid") {
            self.focused.app_id = text::non_blank_of(&Some(rest.to_owned()));
        } else if text::same_text(key, "title") {
            self.focused.title = text::non_blank_of(&Some(rest.to_owned()));
        } else if text::same_text(key, "x") {
            self.focused.x = text::parse_i32(rest);
        } else if text::same_text(key, "y") {
            self.focused.y = text::parse_i32(rest);
        } else if text::same_text(key, "width") {
            self.focused.width = text::parse_u32(rest);
        } else if text::same_text(key, "height") {
            self.focused.height = text::parse_u32(rest);
        }
    }
}

fn take_in_line(outputs: &mut Vec<OutputSnapshot>, line: &str)
    ensures
        output_models(final(outputs)@) == after_line(output_models(old(outputs)@), line@),
{
    let words: Vec<String> = text::words_of(line);
    let ghost models = output_models(outputs@);
    let ghost expected = text::words(line@);
    assert(text::views(words@).len() == words@.len());
    if words.len() < 2 {
        return ;
    }
    assert(text::views(words@)[0] == words@[0]@);
    assert(text::views(words@)[1] == words@[1]@);
    let rest: String = text::joined_from(&words, 2, " ");
    let ghost flags = with_name(models, expected[0]);
    let mut at: usize = 0;
    while at < outputs.len()
        invariant
            at <= outputs.len(),
            words@.len() >= 2,
            expected == text::words(line@),
            expected.len() >= 2,
            words@[0]@ == expected[0],
            words@[1]@ == expected[1],
            rest@ == text::join(expected.skip(2), " "@),
            models == output_models(outputs@),
            models == output_models(old(outputs)@),
            flags == with_name(models, expected[0]),
            forall|i: int| 0 <= i < at ==> !#[trigger] flags[i],
        decreases outputs.len() - at,
    {
        let same: bool = text::same_text(outputs[at].name.as_str(), words[0].as_str());
        assert(models[at as int] == outputs@[at as int]@);
        assert(same == flags[at as int]);
        if same {
            proof {
                select::lemma_first_set(flags, at as int);
            }
            outputs[at].tell(words[1].as_str(), rest.as_str());
            assert(output_models(outputs@) =~= after_line(models, line@));
            return ;
        }
        at += 1;
    }
    proof {
        select::lemma_none_set(flags);
    }
    let mut output: OutputSnapshot = OutputSnapshot {
        name: words[0].clone(),
        selected: false,
        focused: FocusedSnapshot::default(),
    };
    output.tell(words[1].as_str(), rest.as_str());
    outputs.push(output);
    assert(output_models(outputs@) =~= after_line(models, line@));
}

/// Reads what mangowc says about the window that has the focus.
pub fn parse_focused_snapshot(input: &str) -> (result: Result<FocusedSnapshot, MmsgError>)
    ensures
        match result {
            Ok(focused) => focus_of(outputs_of(text::lines(input@))) == Ok::<
                FocusedModel,
                ErrorModel,
            >(focused@),
            Err(error) => focus_of(outputs_of(text::lines(input@))) == Err::<
                FocusedModel,
                ErrorModel,
            >(error@),
        },
{
    let lines: Vec<String> = text::lines_of(input);
    let ghost all = text::lines(input@);
    let mut outputs: Vec<OutputSnapshot> = Vec::new();
    let mut at: usize = 0;
    assert(all.take(0) =~= Seq::empty());
    assert(output_models(outputs@) =~= Seq::empty());
    while at < lines.len()
        invariant
            at <= lines.len(),
            text::views(lines@) == all,
            output_models(outputs@) == outputs_of(all.take(at as int)),
        decreases lines.len() - at,
    {
        let ghost after = all.take(at + 1);
        assert(after.drop_last() =~= all.take(at as int));
        assert(text::views(lines@)[at as int] == lines@[at as int]@);
        assert(after.last() == lines@[at as int]@);
        take_in_line(&mut outputs, lines[at].as_str());
        at += 1;
    }
    assert(text::views(lines@).len() == lines@.len());
    assert(all.take(at as int) =~= all);
    let ghost models = output_models(outputs@);
    if outputs.len() == 0 {
        return Ok(FocusedSnapshot::default());
    }
    let ghost flags = selected_outputs(models);
    let mut chosen: Option<usize> = None;
    let mut at: usize = 0;
    while at < outputs.len()
        invariant
            at <= outputs.len(),
            outputs.len() > 0,
            all == text::lines(input@),
            models == output_models(outputs@),
            models == outputs_of(all),
            flags == selected_outputs(models),
            match chosen {
                Some(found) => found < at && flags[found as int] && forall|i: int|
                    0 <= i < at && i != found ==> !#[trigger] flags[i],
                None => forall|i: int| 0 <= i < at ==> !#[trigger] flags[i],
            },
        decreases outputs.len() - at,
    {
        assert(models[at as int] == outputs@[at as int]@);
        if outputs[at].selected {
            assert(flags[at as int]);
            if let Some(found) = chosen {
                assert(models[found as int].selected && models[at as int].selected);
                assert(several_selected(models));
                return Err(MmsgError::SeveralSelected);
            }
            chosen = Some(at);
        } else {
            assert(!flags[at as int]);
        }
        at += 1;
    }
    proof {
        if several_selected(models) {
            let (i, j) = choose|i: int, j: int|
                0 <= i < j < models.len() && (#[trigger] models[i]).selected && (
                #[trigger] models[j]).selected;
            assert(flags[i] && flags[j]);
        }
    }
    match chosen {
        Some(found) => {
            proof {
                select::lemma_first_set(flags, found as int);
                assert(models[found as int] == outputs@[found as int]@);
            }
            Ok(outputs[found].focused.clone())
        },
        None => {
            proof {
                select::lemma_none_set(flags);
                assert(models[0] == outputs@[0]@);
            }
            if outputs.len() == 1 {
                Ok(outputs[0].focused.clone())
            } else {
                Err(MmsgError::NoneSelected)
            }
        },
    }
}

/// A request to `mmsg`: its command line, what it is for and what it is about.
#[derive(Debug, PartialEq, Eq)]
pub struct MmsgRequest {
    pub arguments: Vec<String>,
    pub action: &'static str,
    pub target: String,
}

/// `request` sends a command line, for the given purpose and about the given target.
pub open spec fn is_request(
    request: MmsgRequest,
    line: Seq<Seq<char>>,
    action: Seq<char>,
    target: Seq<char>,
) -> bool {
    &&& text::views(request.arguments@) == line
    &&& request.action@ == action
    &&& request.target@ == target
}

/// `result` sends a dispatch, or says what is wrong with it.
pub open spec fn is_dispatch_request(
    result: Result<MmsgRequest, MmsgError>,
    command: Seq<char>,
    args: Seq<Seq<char>>,
) -> bool {
    match result {
        Ok(request) => dispatch_fault(command, args) is None && is_request(
            request,
            dispatch_line(command, args),
            "mmsg-dispatch"@,
            command + ":"@ + text::join(args, ","@),
        ),
        Err(error) => dispatch_fault(command, args) == Some(error@),
    }
}

/// Makes requests to `mmsg` and understands its answers. The program itself is run by the caller.
#[derive(Debug)]
pub struct MmsgTransport;

impl Default for MmsgTransport {
    fn default() -> (result: Self)
        ensures
            result == MmsgTransport,
    {
        MmsgTransport
    }
}

impl MmsgTransport {
    /// Makes a transport if the program was found.
    pub fn connect(binary_found: bool) -> (result: Result<MmsgTransport, MmsgError>)
        ensures
            match result {
                Ok(_) => binary_found,
                Err(error) => !binary_found && error@ == ErrorModel::MissingBinary,
            },
    {
        if binary_found {
            Ok(MmsgTransport)
        } else {
            Err(MmsgError::MissingBinary)
        }
    }

    /// Makes the request to carry out a command.
    pub fn dispatch(&self, command: &str, args: &[&str]) -> (result: Result<MmsgRequest, MmsgError>)
        ensures
            is_dispatch_request(result, command@, text::str_views(args@)),
    {
        let arguments: Vec<String> = match build_dispatch(command, args) {
            Ok(arguments) => arguments,
            Err(error) => {
                return Err(error);
            },
        };
        let mut target: String = followed_by(command, ":");
        let owned: Vec<String> = text::owned_all(args);
        target.append(text::joined(&owned, ",").as_str());
        Ok(MmsgRequest { arguments, action: "mmsg-dispatch", target })
    }

    fn dispatch_single(&self, command: &str, arg: &str) -> (result: Result<MmsgRequest, MmsgError>)
        ensures
            is_dispatch_request(result, command@, seq![arg@]),
    {
        let args: [&str; 1] = [arg];
        let slice: &[&str] = args.as_slice();
        assert(text::str_views(slice@) =~= seq![arg@]);
        self.dispatch(command, slice)
    }

    /// Makes the request to focus the next window in a direction.
    pub fn focusdir(&self, direction: &str) -> (result: Result<MmsgRequest, MmsgError>)
        ensures
            is_dispatch_request(result, "focusdir"@, seq![direction@]),
    {
        self.dispatch_single("focusdir", direction)
    }

    /// Makes the request to swap the focused window with the next one in a direction.
    pub fn exchange_client(&self, direction: &str) -> (result: Result<MmsgRequest, MmsgError>)
        ensures
            is_dispatch_request(result, "exchange_client"@, seq![direction@]),
    {
        self.dispatch_single("exchange_client", direction)
    }

    /// Makes the request to move the focused window to the next output in a direction.
    pub fn tagmon(&self, direction: &str) -> (result: Result<MmsgRequest, MmsgError>)
        ensures
            is_dispatch_request(result, "tagmon"@, seq![direction@]),
    {
        self.dispatch_single("tagmon", direction)
    }

    /// Makes the request to start a program.
    pub fn spawn(&self, command: &[String]) -> (result: Result<MmsgRequest, MmsgError>)
        ensures
            match result {
                Ok(request) => spawn_fault(text::views(command@)) is None && is_request(
                    request,
                    spawn_line(text::views(command@)),
                    "mmsg-spawn"@,
                    text::join(text::views(command@), " "@),
                ),
                Err(error) => spawn_fault(text::views(command@)) == Some(error@),
            },
    {
        let arguments: Vec<String> = match build_spawn_dispatch(command) {
            Ok(arguments) => arguments,
            Err(error) => {
                return Err(error);
            },
        };
        let mut words: Vec<String> = Vec::new();
        let mut at: usize = 0;
        while at < command.len()
            invariant
                at <= command.len(),
                words@ == command@.take(at as int),
            decreases command.len() - at,
        {
            words.push(command[at].clone());
            assert(words@ =~= command@.take(at + 1));
            at += 1;
        }
        assert(words@ =~= command@);
        Ok(MmsgRequest { arguments, action: "mmsg-spawn", target: text::joined(&words, " ") })
    }

    /// Understands the answer to the question about the focused window. If the program failed, what
    /// it said on its error output is reported.
    pub fn focused_snapshot(&self, succeeded: bool, stdout: &str, stderr: &str) -> (result: Result<
        FocusedSnapshot,
        MmsgError,
    >)
        ensures
            match result {
                Ok(focused) => succeeded && focus_of(outputs_of(text::lines(stdout@))) == Ok::<
                    FocusedModel,
                    ErrorModel,
                >(focused@),
                Err(error) => if succeeded {
                    focus_of(outputs_of(text::lines(stdout@))) == Err::<FocusedModel, ErrorModel>(
                        error@,
                    )
                } else {
                    error@ == ErrorModel::SnapshotFailed(stderr@)
                },
            },
    {
        if !succeeded {
            return Err(MmsgError::SnapshotFailed(stderr.to_owned()));
        }
        parse_focused_snapshot(stdout)
    }
}

/// `arg` fits into a dispatch: it has no comma, and no white space at its ends.
pub open spec fn fits(arg: Seq<char>) -> bool {
    &&& forall|i: int| 0 <= i < arg.len() ==> #[trigger] arg[i] != ','
    &&& arg.len() > 0 ==> !text::is_space(arg[0]) && !text::is_space(arg.last())
}

proof fn lemma_fits(arg: Seq<char>)
    ensures
        is_dispatchable(arg) <==> fits(arg),
        arg.contains(',') <==> exists|i: int| 0 <= i < arg.len() && #[trigger] arg[i] == ',',
{
    text::trimming_leaves_trimmed_text_alone(arg);
}

/// A dispatch takes at most five arguments, none of which has a comma or white space at its ends. What
/// is wrong is named: how many there are for which command, or the first argument that does not fit.
pub proof fn dispatches_take_arguments_that_fit(
    command: &str,
    args: &[&str],
    result: Result<Vec<String>, MmsgError>,
    at: int,
)
    requires
        call_ensures(build_dispatch, (command, args), result),
    ensures
        result is Ok <==> args@.len() <= 5 && forall|i: int|
            0 <= i < args@.len() ==> fits((#[trigger] args@[i])@),
        args@.len() > 5 ==> (result matches Err(error) && error@ == (ErrorModel::TooManyArguments {
            count: args@.len() as usize,
            command: command@,
        })),
        (args@.len() <= 5 && 0 <= at < args@.len() && !fits(args@[at]@) && forall|i: int|
            0 <= i < at ==> fits((#[trigger] args@[i])@)) ==> (result matches Err(error) && error@
            == if exists|i: int| 0 <= i < args@[at]@.len() && #[trigger] args@[at]@[i] == ',' {
            ErrorModel::ArgumentWithComma(args@[at]@)
        } else {
            ErrorModel::ArgumentNotTrimmed(args@[at]@)
        }),
{
    let views = text::str_views(args@);
    let flags = bad_arguments(views);
    assert forall|i: int| 0 <= i < args@.len() implies flags[i] == !fits((#[trigger] args@[i])@) by {
        lemma_fits(args@[i]@);
        assert(views[i] == args@[i]@);
    }
    select::first_set_finds_the_first(flags);
    if args@.len() <= 5 {
        if let Some(bad) = select::first_set(flags) {
            assert(!fits(args@[bad]@));
        } else {
            assert forall|i: int| 0 <= i < args@.len() implies fits((#[trigger] args@[i])@) by {
                assert(!flags[i]);
            }
        }
        if 0 <= at < args@.len() && !fits(args@[at]@) && forall|i: int|
            0 <= i < at ==> fits((#[trigger] args@[i])@) {
            assert(flags[at]);
            assert forall|i: int| 0 <= i < at implies !#[trigger] flags[i] by {
                assert(fits(args@[i]@));
            }
            assert(select::is_first_set(flags, at));
            select::lemma_first_set(flags, at);
            lemma_fits(args@[at]@);
            assert(views[at] == args@[at]@);
        }
    }
}

/// The command line of a dispatch is the option for it and one text, in which the command and its
/// arguments stand in their order between commas.
pub proof fn dispatch_lines_hold_command_and_arguments(
    command: &str,
    args: &[&str],
    line: Vec<String>,
    result: Result<Vec<String>, MmsgError>,
)
    requires
        call_ensures(dispatch_args, (command, args), line),
        call_ensures(build_dispatch, (command, args), result),
    ensures
        line@.len() == 2,
        line@[0]@ == "-d"@,
        args@.len() == 0 ==> line@[1]@ == command@,
        args@.len() == 1 ==> line@[1]@ == command@ + ","@ + args@[0]@,
        !command@.contains(',') && (forall|i: int|
            0 <= i < args@.len() ==> !(#[trigger] args@[i])@.contains(',')) ==> text::split(
            line@[1]@,
            ',',
        ) == seq![command@] + text::str_views(args@),
        result matches Ok(built) ==> text::views(built@) == text::views(line@),
{
    let views = text::views(line@);
    let parts = seq![command@] + text::str_views(args@);
    assert(views == seq!["-d"@, text::join(parts, ","@)]);
    assert(views.len() == 2);
    assert(line@.len() == 2);
    assert(views[0] == line@[0]@ && views[1] == line@[1]@);
    reveal_with_fuel(text::join, 3);
    if args@.len() == 0 {
        assert(parts =~= seq![command@]);
    }
    if args@.len() == 1 {
        assert(parts.drop_last() =~= seq![command@]);
        assert(parts.last() == args@[0]@);
    }
    if !command@.contains(',') && (forall|i: int|
        0 <= i < args@.len() ==> !(#[trigger] args@[i])@.contains(',')) {
        reveal_strlit(",");
        assert(","@ =~= seq![',']);
        assert forall|i: int| 0 <= i < parts.len() implies !(#[trigger] parts[i]).contains(',') by {
            if i > 0 {
                assert(parts[i] == args@[i - 1]@);
            }
        }
        text::joined_pieces_split_back(parts, ',');
    }
}

/// `result` dispatches `command` with one argument, if that fits.
pub open spec fn is_single(
    result: Result<Vec<String>, MmsgError>,
    command: Seq<char>,
    arg: Seq<char>,
) -> bool {
    &&& result is Ok <==> fits(arg)
    &&& result matches Ok(line) ==> line@.len() == 2 && line@[0]@ == "-d"@ && line@[1]@ == command
        + ","@ + arg
    &&& result matches Err(error) ==> error@ == if exists|i: int|
        0 <= i < arg.len() && #[trigger] arg[i] == ',' {
        ErrorModel::ArgumentWithComma(arg)
    } else {
        ErrorModel::ArgumentNotTrimmed(arg)
    }
}

proof fn lemma_single(
    result: Result<Vec<String>, MmsgError>,
    command: Seq<char>,
    arg: Seq<char>,
)
    requires
        is_dispatch(result, command, seq![arg]),
    ensures
        is_single(result, command, arg),
{
    let flags = bad_arguments(seq![arg]);
    lemma_fits(arg);
    select::first_set_finds_the_first(flags);
    assert(flags[0] == !fits(arg));
    if let Ok(line) = result {
        let views = text::views(line@);
        let parts = seq![command] + seq![arg];
        assert(views == seq!["-d"@, text::join(parts, ","@)]);
        assert(views.len() == 2);
        assert(line@.len() == 2);
        assert(views[0] == line@[0]@ && views[1] == line@[1]@);
        reveal_with_fuel(text::join, 3);
        assert(parts.drop_last() =~= seq![command]);
    }
}

/// Focusing, swapping and moving each dispatch their own command with the direction.
pub proof fn directions_are_dispatched_with_their_command(
    direction: &str,
    focus: Result<Vec<String>, MmsgError>,
    exchange: Result<Vec<String>, MmsgError>,
    tag: Result<Vec<String>, MmsgError>,
)
    requires
        call_ensures(build_focusdir_dispatch, (direction,), focus),
        call_ensures(build_exchange_client_dispatch, (direction,), exchange),
        call_ensures(build_tagmon_dispatch, (direction,), tag),
    ensures
        is_single(focus, "focusdir"@, direction@),
        is_single(exchange, "exchange_client"@, direction@),
        is_single(tag, "tagmon"@, direction@),
{
    lemma_single(focus, "focusdir"@, direction@);
    lemma_single(exchange, "exchange_client"@, direction@);
    lemma_single(tag, "tagmon"@, direction@);
}

/// `word` is empty, or has a comma or white space in it.
pub open spec fn breaks_a_spawn(word: Seq<char>) -> bool {
    ||| word.len() == 0
    ||| exists|i: int| 0 <= i < word.len() && #[trigger] word[i] == ','
    ||| exists|i: int| 0 <= i < word.len() && text::is_space(#[trigger] word[i])
}

/// A program is started by the words of its command line, from which they can be read back. Nothing is
/// started without words, or with a word that is empty or has a comma or white space in it; an empty
/// word is reported before a comma, and a comma before white space.
pub proof fn programs_are_started_by_plain_words(
    command: &[String],
    result: Result<Vec<String>, MmsgError>,
)
    requires
        call_ensures(build_spawn_dispatch, (command,), result),
    ensures
        result is Ok <==> command@.len() > 0 && forall|i: int|
            0 <= i < command@.len() ==> !breaks_a_spawn((#[trigger] command@[i])@),
        result matches Ok(line) ==> {
            let told = text::join(text::views(command@), " "@);
            &&& line@.len() == 2
            &&& line@[0]@ == "-d"@
            &&& line@[1]@ == "spawn"@ + ","@ + told
            &&& text::split(told, ' ') == text::views(command@)
        },
        result matches Err(error) ==> match error@ {
            ErrorModel::EmptySpawn => command@.len() == 0,
            ErrorModel::EmptySpawnArgument(word) => word.len() == 0 && text::views(
                command@,
            ).contains(word),
            ErrorModel::SpawnArgumentWithComma(word) => word.contains(',') && exists|at: int|
                0 <= at < command@.len() && (#[trigger] command@[at])@ == word && (forall|i: int|
                    0 <= i < at ==> !(#[trigger] command@[i])@.contains(',')) && forall|i: int|
                    0 <= i < command@.len() ==> (#[trigger] command@[i])@.len() > 0,
            ErrorModel::SpawnArgumentWithSpace(word) => (exists|at: int|
                0 <= at < command@.len() && (#[trigger] command@[at])@ == word && (exists|i: int|
                    0 <= i < word.len() && text::is_space(#[trigger] word[i])) && forall|i: int|
                    0 <= i < at ==> !text::has_space((#[trigger] command@[i])@)) && forall|i: int|
                0 <= i < command@.len() ==> (#[trigger] command@[i])@.len() > 0
                    && !command@[i]@.contains(','),
            _ => false,
        },
{
    let words = text::views(command@);
    lemma_spawn_fault(words);
    assert forall|i: int| 0 <= i < command@.len() implies is_spawnable((#[trigger] command@[i])@)
        == !breaks_a_spawn(command@[i]@) && words[i] == command@[i]@ by {
        lemma_fits(command@[i]@);
    }
    let (empty, comma, spaced) = (empty_words(words), comma_words(words), spaced_words(words));
    select::first_set_finds_the_first(empty);
    select::first_set_finds_the_first(comma);
    select::first_set_finds_the_first(spaced);
    assert forall|i: int| 0 <= i < command@.len() implies empty[i] == ((
    #[trigger] command@[i])@.len() == 0) && comma[i] == command@[i]@.contains(',') && spaced[i]
        == text::has_space(command@[i]@) by {}
    if let Ok(line) = result {
        assert forall|i: int| 0 <= i < command@.len() implies !breaks_a_spawn(
            (#[trigger] command@[i])@,
        ) by {
            assert(is_spawnable(words[i]));
        }
        dispatches_can_be_taken_apart(Seq::empty(), Seq::empty(), words);
        let views = text::views(line@);
        let told = text::join(words, " "@);
        let parts = seq!["spawn"@] + seq![told];
        assert(views == seq!["-d"@, text::join(parts, ","@)]);
        assert(views.len() == 2);
        assert(line@.len() == 2);
        assert(views[0] == line@[0]@ && views[1] == line@[1]@);
        reveal_with_fuel(text::join, 3);
        assert(parts.drop_last() =~= seq!["spawn"@]);
        assert(parts.last() == told);
    } else {
        if command@.len() > 0 && forall|i: int|
            0 <= i < command@.len() ==> !breaks_a_spawn((#[trigger] command@[i])@) {
            assert forall|i: int| 0 <= i < words.len() implies is_spawnable(
                #[trigger] words[i],
            ) by {
                assert(!breaks_a_spawn(command@[i]@));
            }
        }
        if let Some(at) = select::first_set(empty) {
            assert(words[at] == command@[at]@);
            assert(words.contains(words[at]));
        } else if command@.len() > 0 {
            assert forall|i: int| 0 <= i < command@.len() implies (
            #[trigger] command@[i])@.len() > 0 by {
                assert(!empty[i]);
            }
            if let Some(at) = select::first_set(comma) {
                assert(command@[at]@ == words[at]);
                assert forall|i: int| 0 <= i < at implies !(#[trigger] command@[i])@.contains(
                    ',',
                ) by {
                    assert(!comma[i]);
                }
            } else {
                assert forall|i: int| 0 <= i < command@.len() implies !(
                #[trigger] command@[i])@.contains(',') by {
                    assert(!comma[i]);
                }
                if let Some(at) = select::first_set(spaced) {
                    assert(command@[at]@ == words[at]);
                    assert forall|i: int| 0 <= i < at implies !text::has_space(
                        (#[trigger] command@[i])@,
                    ) by {
                        assert(!spaced[i]);
                    }
                }
            }
        }
    }
}

/// A request sends the command line that is built for it and fails as that does. It says that it
/// dispatches, and is about the command and its arguments.
pub proof fn requests_send_what_is_built(
    transport: MmsgTransport,
    command: &str,
    args: &[&str],
    built: Result<Vec<String>, MmsgError>,
    result: Result<MmsgRequest, MmsgError>,
)
    requires
        call_ensures(build_dispatch, (command, args), built),
        call_ensures(MmsgTransport::dispatch, (&transport, command, args), result),
    ensures
        result is Ok <==> built is Ok,
        result matches Ok(request) ==> {
            &&& text::views(request.arguments@) == text::views(built->Ok_0@)
            &&& request.action@ == "mmsg-dispatch"@
            &&& request.target@ == command@ + ":"@ + text::join(text::str_views(args@), ","@)
            &&& args@.len() == 1 ==> request.target@ == command@ + ":"@ + args@[0]@
        },
        result matches Err(error) ==> error@ == built->Err_0@,
{
    reveal_with_fuel(text::join, 2);
    if args@.len() == 1 {
        assert(text::str_views(args@) =~= seq![args@[0]@]);
    }
}

/// `result` requests what was built for a direction, and is about the command and the direction.
pub open spec fn is_direction_request(
    result: Result<MmsgRequest, MmsgError>,
    built: Result<Vec<String>, MmsgError>,
    target: Seq<char>,
) -> bool {
    &&& result is Ok <==> built is Ok
    &&& result matches Ok(request) ==> text::views(request.arguments@) == text::views(
        built->Ok_0@,
    ) && request.action@ == "mmsg-dispatch"@ && request.target@ == target
    &&& result matches Err(error) ==> error@ == built->Err_0@
}

/// Requests to focus, swap, move and start send what is built for them, and are about their own
/// command and direction, or about the program's command line.
pub proof fn requests_are_about_their_command(
    transport: MmsgTransport,
    direction: &str,
    command: &[String],
    built: (
        Result<Vec<String>, MmsgError>,
        Result<Vec<String>, MmsgError>,
        Result<Vec<String>, MmsgError>,
        Result<Vec<String>, MmsgError>,
    ),
    focus: Result<MmsgRequest, MmsgError>,
    exchange: Result<MmsgRequest, MmsgError>,
    tag: Result<MmsgRequest, MmsgError>,
    spawn: Result<MmsgRequest, MmsgError>,
)
    requires
        call_ensures(build_focusdir_dispatch, (direction,), built.0),
        call_ensures(build_exchange_client_dispatch, (direction,), built.1),
        call_ensures(build_tagmon_dispatch, (direction,), built.2),
        call_ensures(build_spawn_dispatch, (command,), built.3),
        call_ensures(MmsgTransport::focusdir, (&transport, direction), focus),
        call_ensures(MmsgTransport::exchange_client, (&transport, direction), exchange),
        call_ensures(MmsgTransport::tagmon, (&transport, direction), tag),
        call_ensures(MmsgTransport::spawn, (&transport, command), spawn),
    ensures
        is_direction_request(focus, built.0, "focusdir"@ + ":"@ + direction@),
        is_direction_request(exchange, built.1, "exchange_client"@ + ":"@ + direction@),
        is_direction_request(tag, built.2, "tagmon"@ + ":"@ + direction@),
        spawn is Ok <==> built.3 is Ok,
        spawn matches Ok(request) ==> text::views(request.arguments@) == text::views(
            built.3->Ok_0@,
        ) && request.action@ == "mmsg-spawn"@ && request.target@ == text::join(
            text::views(command@),
            " "@,
        ),
        spawn matches Err(error) ==> error@ == built.3->Err_0@,
{
    reveal_with_fuel(text::join, 2);
}

/// A transport is made exactly if the program was found. What the program says is read if it
/// succeeded, and what it complained of is reported if it did not.
pub proof fn answers_are_read_if_the_program_succeeded(
    transport: MmsgTransport,
    found: bool,
    connected: Result<MmsgTransport, MmsgError>,
    succeeded: bool,
    stdout: &str,
    stderr: &str,
    read: Result<FocusedSnapshot, MmsgError>,
    result: Result<FocusedSnapshot, MmsgError>,
)
    requires
        call_ensures(MmsgTransport::connect, (found,), connected),
        call_ensures(parse_focused_snapshot, (stdout,), read),
        call_ensures(
            MmsgTransport::focused_snapshot,
            (&transport, succeeded, stdout, stderr),
            result,
        ),
    ensures
        connected is Ok <==> found,
        connected matches Err(error) ==> error is MissingBinary,
        !succeeded ==> (result matches Err(MmsgError::SnapshotFailed(text)) && text@ == stderr@),
        succeeded ==> (result is Ok <==> read is Ok),
        succeeded && result is Ok ==> result->Ok_0@ == read->Ok_0@,
        succeeded && result is Err ==> result->Err_0@ == read->Err_0@,
{
}

/// A line tells of one output only: that which it names first, which is listed behind all others if it
/// was not named before. A line of fewer than two words tells nothing.
pub proof fn lines_tell_of_the_output_they_name(
    outputs: Seq<OutputModel>,
    line: Seq<char>,
    at: int,
)
    requires
        0 <= at < outputs.len(),
    ensures
        text::words(line).len() < 2 ==> after_line(outputs, line) == outputs,
        text::words(line).len() >= 2 ==> {
            let name = text::words(line)[0];
            let after = after_line(outputs, line);
            let known = exists|i: int| 0 <= i < outputs.len() && (#[trigger] outputs[i]).name == name;
            let first = outputs[at].name == name && forall|i: int|
                0 <= i < at ==> (#[trigger] outputs[i]).name != name;
            &&& known ==> after.len() == outputs.len()
            &&& !known ==> after.len() == outputs.len() + 1 && after.last().name == name
            &&& after[at].name == outputs[at].name
            &&& !first ==> after[at] == outputs[at]
            &&& first ==> after[at] == told(
                outputs[at],
                text::words(line)[1],
                text::join(text::words(line).skip(2), " "@),
            )
            &&& !known ==> after.last() == told(
                fresh_output(name),
                text::words(line)[1],
                text::join(text::words(line).skip(2), " "@),
            )
        },
{
    if text::words(line).len() >= 2 {
        let name = text::words(line)[0];
        let flags = with_name(outputs, name);
        select::first_set_finds_the_first(flags);
        assert forall|i: int| 0 <= i < outputs.len() implies flags[i] == ((
        #[trigger] outputs[i]).name == name) by {}
        if let Some(found) = select::first_set(flags) {
            assert(outputs[found].name == name);
            if outputs[at].name == name && forall|i: int|
                0 <= i < at ==> (#[trigger] outputs[i]).name != name {
                assert(flags[at]);
                if found < at {
                    assert(outputs[found].name != name);
                }
                if at < found {
                    assert(!flags[at]);
                }
            } else if found == at {
                assert forall|i: int| 0 <= i < at implies (#[trigger] outputs[i]).name != name by {
                    assert(!flags[i]);
                }
            }
        } else {
            assert forall|i: int| 0 <= i < outputs.len() implies (#[trigger] outputs[i]).name
                != name by {
                assert(!flags[i]);
            }
        }
    }
}

/// What is told under a key changes what stands under it, and nothing else: whether the output is
/// selected, the application, the title, the place or the size. An output of which nothing was told is
/// not selected.
pub proof fn keys_tell_of_their_own_field(
    output: OutputModel,
    key: Seq<char>,
    rest: Seq<char>,
    name: Seq<char>,
)
    ensures
        ({
            let after = told(output, key, rest);
            &&& after.name == output.name
            &&& key == "selmon"@ ==> (after.selected <==> text::trim(rest) == "1"@)
            &&& key != "selmon"@ ==> after.selected == output.selected
            &&& key == "appid"@ ==> after.focused.app_id == text::non_blank(Some(rest))
            &&& key != "appid"@ ==> after.focused.app_id == output.focused.app_id
            &&& key == "title"@ ==> after.focused.title == text::non_blank(Some(rest))
            &&& key != "title"@ ==> after.focused.title == output.focused.title
            &&& key == "x"@ ==> after.focused.x == signed(rest)
            &&& key != "x"@ ==> after.focused.x == output.focused.x
            &&& key == "y"@ ==> after.focused.y == signed(rest)
            &&& key != "y"@ ==> after.focused.y == output.focused.y
            &&& key == "width"@ ==> after.focused.width == unsigned(rest)
            &&& key != "width"@ ==> after.focused.width == output.focused.width
            &&& key == "height"@ ==> after.focused.height == unsigned(rest)
            &&& key != "height"@ ==> after.focused.height == output.focused.height
        }),
        fresh_output(name).name == name,
        !fresh_output(name).selected,
        fresh_output(name).focused.app_id is None && fresh_output(name).focused.title is None,
        fresh_output(name).focused.x is None && fresh_output(name).focused.y is None,
        fresh_output(name).focused.width is None && fresh_output(name).focused.height is None,
{
    reveal_strlit("selmon");
    reveal_strlit("appid");
    reveal_strlit("title");
    reveal_strlit("x");
    reveal_strlit("y");
    reveal_strlit("width");
    reveal_strlit("height");
    assert("selmon"@.len() == 6 && "height"@.len() == 6 && "selmon"@[0] == 's' && "height"@[0] == 'h');
    assert("appid"@.len() == 5 && "title"@.len() == 5 && "width"@.len() == 5);
    assert("appid"@[0] == 'a' && "title"@[0] == 't' && "width"@[0] == 'w');
    assert("x"@[0] == 'x' && "y"@[0] == 'y');
}

/// A number is told in decimal digits, with a sign where it may be negative, and as nothing where it is
/// out of range.
pub proof fn places_and_sizes_are_told_in_digits(n: nat)
    ensures
        n <= 0x7fff_ffff ==> signed(text::written(n, 10)) is Some && signed(
            text::written(n, 10),
        )->0 == n,
        n > 0x7fff_ffff ==> signed(text::written(n, 10)) is None,
        0 < n <= 0x8000_0000 ==> signed(seq!['-'] + text::written(n, 10)) is Some && signed(
            seq!['-'] + text::written(n, 10),
        )->0 == -n,
        n <= 0xffff_ffff ==> unsigned(text::written(n, 10)) is Some && unsigned(
            text::written(n, 10),
        )->0 == n,
        n > 0xffff_ffff ==> unsigned(text::written(n, 10)) is None,
{
    text::numbers_are_read_with_their_signs(
        n,
        i32::MIN as int,
        i32::MAX as int,
        seq!['0', '?'],
        1,
    );
    text::numbers_are_read_with_their_signs(n, 0, u32::MAX as int, seq!['0', '?'], 1);
}

/// The focus is on the window of the only selected output, and on that of the only output where none is
/// selected. Several selected outputs, or several of which none is, are an error; no output has no
/// window.
pub proof fn the_focus_is_on_the_selected_output(
    input: &str,
    result: Result<FocusedSnapshot, MmsgError>,
    at: int,
    other: int,
)
    requires
        call_ensures(parse_focused_snapshot, (input,), result),
    ensures
        ({
            let outputs = outputs_of(text::lines(input@));
            let selected = |i: int| 0 <= i < outputs.len() && outputs[i].selected;
            &&& outputs.len() == 0 ==> (result matches Ok(focused) && focused@.app_id is None
                && focused@.title is None && focused@.x is None && focused@.y is None
                && focused@.width is None && focused@.height is None)
            &&& (selected(at) && selected(other) && at != other) ==> (result matches Err(error)
                && error is SeveralSelected)
            &&& (selected(at) && forall|i: int|
                #![trigger outputs[i]]
                selected(i) ==> i == at) ==> (result matches Ok(focused) && focused@
                == outputs[at].focused)
            &&& (outputs.len() == 1) ==> (result matches Ok(focused) && focused@
                == outputs[0].focused)
            &&& (outputs.len() > 1 && forall|i: int| #![trigger outputs[i]] !selected(i)) ==> (
            result matches Err(error) && error is NoneSelected)
        }),
{
    let outputs = outputs_of(text::lines(input@));
    let flags = selected_outputs(outputs);
    let selected = |i: int| 0 <= i < outputs.len() && outputs[i].selected;
    select::first_set_finds_the_first(flags);
    assert forall|i: int| 0 <= i < outputs.len() implies flags[i] == (
    #[trigger] outputs[i]).selected by {}
    if selected(at) && selected(other) && at != other {
        let (i, j) = if at < other {
            (at, other)
        } else {
            (other, at)
        };
        assert(outputs[i].selected && outputs[j].selected && 0 <= i < j < outputs.len());
        assert(several_selected(outputs));
    }
    if selected(at) && forall|i: int| #![trigger outputs[i]] selected(i) ==> i == at {
        assert(!several_selected(outputs)) by {
            if several_selected(outputs) {
                let (i, j) = choose|i: int, j: int|
                    0 <= i < j < outputs.len() && (#[trigger] outputs[i]).selected && (
                    #[trigger] outputs[j]).selected;
                assert(selected(i) && selected(j));
            }
        }
        assert(flags[at]);
        let found = select::first_set(flags)->0;
        assert(selected(found));
        assert(outputs[found] == outputs[at]);
    }
    if outputs.len() > 1 && forall|i: int| #![trigger outputs[i]] !selected(i) {
        assert(!several_selected(outputs));
        if let Some(found) = select::first_set(flags) {
            assert(!selected(found));
            assert(outputs[found].selected);
        }
    }
}

/// Every error says what is wrong, and quotes the text that it is about.
pub proof fn errors_quote_what_they_are_about(error: MmsgError, quote: &str, result: String)
    requires
        call_ensures(MmsgError::message_with_quote, (&error, quote), result),
    ensures
        error is MissingBinary ==> result@ == "mangowc: required binary 'mmsg' not found"@,
        error matches MmsgError::TooManyArguments { count, .. } ==> result@
            == "mmsg dispatch supports at most 5 args, got "@ + text::written(count as nat, 10)
            + " for command "@ + quote@,
        error is ArgumentWithComma ==> result@ == "mmsg dispatch arguments cannot contain commas: "@
            + quote@,
        error is ArgumentNotTrimmed ==> result@
            == "mmsg dispatch arguments cannot have leading or trailing whitespace: "@ + quote@,
        error is EmptySpawn ==> result@ == "mmsg spawn command cannot be empty"@,
        error is EmptySpawnArgument ==> result@ == "mmsg spawn command arguments cannot be empty: "@
            + quote@,
        error is SpawnArgumentWithComma ==> result@
            == "mmsg spawn command arguments cannot contain commas in mmsg spawn dispatch: "@
            + quote@,
        error is SpawnArgumentWithSpace ==> result@
            == "mmsg spawn command arguments cannot contain whitespace because mangowc spawn expects a single space-delimited command string: "@
            + quote@,
        error matches MmsgError::SnapshotFailed(said) ==> result@ == if said@.len() == 0 {
            "mangowc::mmsg-focused-snapshot failed"@
        } else {
            "mangowc::mmsg-focused-snapshot failed: "@ + said@
        },
        error is SeveralSelected ==> result@
            == "mangowc: multiple selected mmsg outputs in focused snapshot"@,
        error is NoneSelected ==> result@
            == "mangowc: unable to determine selected mmsg output from focused snapshot"@,
{
}

/// A message is the text with the quoted form of what the error is about: the command, the argument or
/// the word that it carries.
pub proof fn messages_quote_the_text_of_the_error(
    error: MmsgError,
    quote: &str,
    quoted: String,
    result: String,
)
    requires
        call_ensures(MmsgError::message, (&error,), result),
        call_ensures(MmsgError::message_with_quote, (&error, quote), quoted),
    ensures
        (match error {
            MmsgError::TooManyArguments { command, .. } => quote@ == quoted_text(command@),
            MmsgError::ArgumentWithComma(text) => quote@ == quoted_text(text@),
            MmsgError::ArgumentNotTrimmed(text) => quote@ == quoted_text(text@),
            MmsgError::EmptySpawnArgument(text) => quote@ == quoted_text(text@),
            MmsgError::SpawnArgumentWithComma(text) => quote@ == quoted_text(text@),
            MmsgError::SpawnArgumentWithSpace(text) => quote@ == quoted_text(text@),
            _ => true,
        }) ==> result@ == quoted@,
{
}

} // verus!
