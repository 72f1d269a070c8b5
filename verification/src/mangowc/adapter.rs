//! Deciding which window has the focus, and moving windows about.
use crate::backend::{Platform, WmBackend};
use crate::capability::{
    validate_declared_capabilities, CapabilitySupport, DirectionalCapability,
    PrimitiveWindowManagerCapabilities, WindowManagerCapabilities,
    WindowManagerCapabilityDescriptor,
};
use crate::error::WmError;
use crate::mangowc::mmsg;
use crate::mangowc::mmsg::{FocusedSnapshot, MmsgTransport};
use crate::select;
use crate::session;
use crate::session::{to_focused_record, FocusedWindowRecord, WindowRecord};
use crate::text;
use crate::topology::Direction;
use vstd::prelude::*;
use vstd::string::*;

verus! {

/// Talks to mangowc.
#[derive(Debug)]
pub struct MangowcAdapter;

/// Says how to reach mangowc.
#[derive(Debug)]
pub struct MangowcSpec;

impl MangowcSpec {
    /// The backend that is reached.
    pub fn backend(&self) -> (result: WmBackend)
        ensures
            result == WmBackend::Mangowc,
    {
        WmBackend::Mangowc
    }

    /// The name of the adapter.
    pub fn name(&self) -> (result: &'static str)
        ensures
            result@ == MangowcAdapter::label(),
    {
        MangowcAdapter::name()
    }
}

impl WindowManagerCapabilityDescriptor for MangowcAdapter {
    open spec fn label() -> Seq<char> {
        "mangowc"@
    }

    open spec fn declared() -> WindowManagerCapabilities {
        WindowManagerCapabilities {
            primitives: PrimitiveWindowManagerCapabilities {
                tear_out_right: false,
                move_column: false,
                consume_into_column_and_move: false,
                set_window_width: false,
                set_window_height: false,
            },
            tear_out: DirectionalCapability::all(CapabilitySupport::Unsupported),
            resize: DirectionalCapability::all(CapabilitySupport::Unsupported),
        }
    }

    fn name() -> (result: &'static str) {
        "mangowc"
    }

    fn capabilities() -> (result: WindowManagerCapabilities) {
        WindowManagerCapabilities {
            primitives: PrimitiveWindowManagerCapabilities {
                tear_out_right: false,
                move_column: false,
                consume_into_column_and_move: false,
                set_window_width: false,
                set_window_height: false,
            },
            tear_out: DirectionalCapability::uniform(CapabilitySupport::Unsupported),
            resize: DirectionalCapability::uniform(CapabilitySupport::Unsupported),
        }
    }
}

impl MangowcAdapter {
    /// Sets the adapter up on a platform that calls itself `os`, given whether `mmsg` was found
    /// and what came of connecting to the display. The first thing that is amiss is reported; the
    /// display counts only where `mmsg` was found.
    pub fn connect(
        platform: Platform,
        os: &'static str,
        mmsg_found: bool,
        display: Result<(), WmError>,
    ) -> (result: Result<MangowcAdapter, WmError>)
        ensures
            if platform != Platform::Linux {
                result matches Err(WmError::Adapter(text)) && text@
                    == "mangowc adapter is not supported on "@ + os@
            } else if !mmsg_found {
                result matches Err(WmError::Adapter(text)) && text@ == mmsg::error_text(
                    mmsg::ErrorModel::MissingBinary,
                )
            } else {
                match (display, result) {
                    (Ok(_), Ok(_)) => true,
                    (Err(failure), Err(error)) => error == failure,
                    _ => false,
                }
            },
    {
        if platform != Platform::Linux {
            let mut text: String = "mangowc adapter is not supported on ".to_owned();
            text.append(os);
            return Err(WmError::Adapter(text));
        }
        if let Err(error) = MmsgTransport::connect(mmsg_found) {
            return Err(WmError::Adapter(error.message()));
        }
        if let Err(failure) = display {
            return Err(failure);
        }
        match validate_declared_capabilities::<MangowcAdapter>() {
            Ok(_) => Ok(MangowcAdapter),
            Err(error) => Err(error),
        }
    }
}

/// What mangowc calls a direction.
pub open spec fn direction_word(direction: Direction) -> Seq<char> {
    match direction {
        Direction::West => "left"@,
        Direction::East => "right"@,
        Direction::North => "up"@,
        Direction::South => "down"@,
    }
}

/// Says what mangowc calls a direction when it moves the focus.
pub fn direction_for_focus(direction: Direction) -> (result: &'static str)
    ensures
        result@ == direction_word(direction),
{
    match direction {
        Direction::West => "left",
        Direction::East => "right",
        Direction::North => "up",
        Direction::South => "down",
    }
}

/// Says what mangowc calls a direction when it moves a window to another output.
pub fn tagmon_for(direction: Direction) -> (result: &'static str)
    ensures
        result@ == direction_word(direction),
{
    direction_for_focus(direction)
}

/// What the windows alone say about the focus.
#[derive(Debug)]
pub enum FocusQuery {
    /// Exactly one window is activated.
    Found(FocusedWindowRecord),
    /// No window is activated.
    Missing(WmError),
    /// Several windows are activated; what mangowc says about the focus must decide.
    Ambiguous(Vec<WindowRecord>),
}

/// The windows that are activated.
pub open spec fn activated_windows(windows: Seq<WindowRecord>) -> Seq<WindowRecord> {
    windows.filter(|window: WindowRecord| window.is_focused)
}

/// Looks for the focus among the windows.
pub fn focused_window(windows: &Vec<WindowRecord>) -> (result: FocusQuery)
    ensures
        match result {
            FocusQuery::Found(record) => activated_windows(windows@).len() == 1 && record
                == session::as_focused(activated_windows(windows@)[0]),
            FocusQuery::Missing(error) => activated_windows(windows@).len() == 0 && (error matches
                WmError::Adapter(text) && text@
                == "mangowc: no activated foreign toplevel window in snapshot"@),
            FocusQuery::Ambiguous(activated) => activated@.len() > 1 && activated@
                == activated_windows(windows@),
        },
{
    let ghost keep = |window: WindowRecord| window.is_focused;
    let mut activated: Vec<WindowRecord> = Vec::new();
    let mut at: usize = 0;
    proof {
        reveal(Seq::filter);
        assert(windows@.take(0) =~= Seq::empty());
    }
    while at < windows.len()
        invariant
            at <= windows.len(),
            keep == (|window: WindowRecord| window.is_focused),
            activated@ == windows@.take(at as int).filter(keep),
        decreases windows.len() - at,
    {
        proof {
            select::lemma_filter_step(windows@, keep, at as int);
        }
        if windows[at].is_focused {
            activated.push(windows[at].clone());
        }
        at += 1;
    }
    assert(windows@.take(at as int) =~= windows@);
    if activated.len() == 1 {
        FocusQuery::Found(to_focused_record(&activated[0]))
    } else if activated.len() == 0 {
        FocusQuery::Missing(
            WmError::Adapter(
                "mangowc: no activated foreign toplevel window in snapshot".to_owned(),
            ),
        )
    } else {
        FocusQuery::Ambiguous(activated)
    }
}

/// A window with the identifier `id` has the application that is said to be focused.
pub open spec fn app_matches(
    activated: Seq<WindowRecord>,
    focused: mmsg::FocusedModel,
    id: u64,
) -> bool {
    exists|i: int|
        0 <= i < activated.len() && (#[trigger] activated[i]).id == id && text::optional_view(
            activated[i].app_id,
        ) == focused.app_id
}

/// A window with the identifier `id` has the title that is said to be focused.
pub open spec fn title_matches(
    activated: Seq<WindowRecord>,
    focused: mmsg::FocusedModel,
    id: u64,
) -> bool {
    exists|i: int|
        0 <= i < activated.len() && (#[trigger] activated[i]).id == id && text::optional_view(
            activated[i].title,
        ) == focused.title
}

/// What mangowc says about the focus fits the window with the identifier `id`, and says something.
pub open spec fn fits(activated: Seq<WindowRecord>, focused: mmsg::FocusedModel, id: u64) -> bool {
    &&& focused.app_id is Some || focused.title is Some
    &&& focused.app_id is Some ==> app_matches(activated, focused, id)
    &&& focused.title is Some ==> title_matches(activated, focused, id)
}

/// The window with the identifier `id` is the only one that fits.
pub open spec fn only_fit(activated: Seq<WindowRecord>, focused: mmsg::FocusedModel, id: u64) -> bool {
    fits(activated, focused, id) && forall|other: u64| #[trigger]
        fits(activated, focused, other) ==> other == id
}

/// Which windows carry an identifier.
pub open spec fn with_id(windows: Seq<WindowRecord>, id: u64) -> Seq<bool> {
    Seq::new(windows.len(), |i: int| windows[i].id == id)
}

fn same_optional(left: &Option<String>, right: &Option<String>) -> (result: bool)
    ensures
        result == (text::optional_view(*left) == text::optional_view(*right)),
{
    match (left, right) {
        (Some(left), Some(right)) => text::same_text(left.as_str(), right.as_str()),
        (None, None) => true,
        _ => false,
    }
}

fn fits_id(activated: &Vec<WindowRecord>, focused: &FocusedSnapshot, id: u64) -> (result: bool)
    ensures
        result == fits(activated@, focused@, id),
{
    let mut app_found: bool = false;
    let mut title_found: bool = false;
    let mut at: usize = 0;
    while at < activated.len()
        invariant
            at <= activated.len(),
            app_found == exists|i: int|
                0 <= i < at && (#[trigger] activated@[i]).id == id && text::optional_view(
                    activated@[i].app_id,
                ) == focused@.app_id,
            title_found == exists|i: int|
                0 <= i < at && (#[trigger] activated@[i]).id == id && text::optional_view(
                    activated@[i].title,
                ) == focused@.title,
        decreases activated.len() - at,
    {
        let ghost here = activated@[at as int];
        if activated[at].id == id {
            if same_optional(&activated[at].app_id, &focused.app_id) {
                app_found = true;
            }
            if same_optional(&activated[at].title, &focused.title) {
                title_found = true;
            }
        }
        at += 1;
    }
    (focused.app_id.is_some() || focused.title.is_some()) && (focused.app_id.is_none()
        || app_found) && (focused.title.is_none() || title_found)
}

/// Decides between several activated windows by what mangowc says about the focus. Unless exactly
/// one identifier fits, nothing is guessed.
pub fn disambiguate_activated_windows(
    activated: &Vec<WindowRecord>,
    focused: &FocusedSnapshot,
) -> (result: Result<FocusedWindowRecord, WmError>)
    ensures
        match result {
            Ok(record) => only_fit(activated@, focused@, record.id) && (select::first_set(
                with_id(activated@, record.id),
            ) matches Some(at) && record == session::as_focused(activated@[at])),
            Err(error) => (forall|id: u64| !#[trigger] only_fit(activated@, focused@, id)) && (
            error matches WmError::Adapter(text) && text@
                == "mangowc: ambiguous activated foreign toplevel windows; refusing to guess focus"@),
        },
{
    let mut chosen: Option<usize> = None;
    let mut several: bool = false;
    let mut at: usize = 0;
    while at < activated.len()
        invariant
            at <= activated.len(),
            match chosen {
                Some(found) => {
                    &&& found < at
                    &&& fits(activated@, focused@, activated@[found as int].id)
                    &&& select::is_first_set(
                        with_id(activated@, activated@[found as int].id),
                        found as int,
                    )
                    &&& if several {
                        exists|i: int|
                            0 <= i < at && fits(activated@, focused@, (#[trigger] activated@[i]).id)
                                && activated@[i].id != activated@[found as int].id
                    } else {
                        forall|i: int|
                            0 <= i < at && fits(activated@, focused@, (#[trigger] activated@[i]).id)
                                ==> activated@[i].id == activated@[found as int].id
                    }
                },
                None => !several && forall|i: int|
                    0 <= i < at ==> !fits(activated@, focused@, (#[trigger] activated@[i]).id),
            },
        decreases activated.len() - at,
    {
        let id: u64 = activated[at].id;
        if fits_id(activated, focused, id) {
            match chosen {
                Some(found) => {
                    if activated[found].id != id {
                        assert(fits(activated@, focused@, activated@[at as int].id));
                        several = true;
                    }
                },
                None => {
                    proof {
                        let flags = with_id(activated@, id);
                        assert forall|i: int| 0 <= i < at implies !#[trigger] flags[i] by {
                            assert(!fits(activated@, focused@, activated@[i].id));
                        }
                    }
                    chosen = Some(at);
                },
            }
        }
        at += 1;
    }
    proof {
        assert forall|id: u64| #[trigger] fits(activated@, focused@, id) implies exists|i: int|
            0 <= i < activated@.len() && (#[trigger] activated@[i]).id == id by {
            if focused@.app_id is Some {
                assert(app_matches(activated@, focused@, id));
            } else {
                assert(title_matches(activated@, focused@, id));
            }
        }
    }
    match chosen {
        Some(found) => {
            if !several {
                proof {
                    let id = activated@[found as int].id;
                    select::lemma_first_set(with_id(activated@, id), found as int);
                    assert(only_fit(activated@, focused@, id));
                }
                return Ok(to_focused_record(&activated[found]));
            }
            proof {
                let other = choose|i: int|
                    0 <= i < activated@.len() && fits(
                        activated@,
                        focused@,
                        (#[trigger] activated@[i]).id,
                    ) && activated@[i].id != activated@[found as int].id;
                assert(fits(activated@, focused@, activated@[other].id));
                assert(fits(activated@, focused@, activated@[found as int].id));
            }
        },
        None => {},
    }
    Err(
        WmError::Adapter(
            "mangowc: ambiguous activated foreign toplevel windows; refusing to guess focus".to_owned(),
        ),
    )
}

/// Where identifiers are distinct, a window that is decided upon has the application and the title
/// that mangowc gives, as far as it gives them, and no other activated window has both.
pub proof fn focus_is_never_guessed(
    activated: Seq<WindowRecord>,
    focused: mmsg::FocusedModel,
    at: int,
    other: int,
)
    requires
        forall|i: int, j: int|
            0 <= i < activated.len() && 0 <= j < activated.len() && (#[trigger] activated[i]).id
                == (#[trigger] activated[j]).id ==> i == j,
        0 <= at < activated.len(),
        0 <= other < activated.len(),
        only_fit(activated, focused, activated[at].id),
    ensures
        focused.app_id is Some || focused.title is Some,
        focused.app_id is Some ==> text::optional_view(activated[at].app_id) == focused.app_id,
        focused.title is Some ==> text::optional_view(activated[at].title) == focused.title,
        other != at ==> (focused.app_id is Some && text::optional_view(activated[other].app_id)
            != focused.app_id) || (focused.title is Some && text::optional_view(
            activated[other].title,
        ) != focused.title),
{
    let id = activated[at].id;
    if focused.app_id is Some {
        let i = choose|i: int|
            0 <= i < activated.len() && (#[trigger] activated[i]).id == id && text::optional_view(
                activated[i].app_id,
            ) == focused.app_id;
        assert(i == at);
    }
    if focused.title is Some {
        let i = choose|i: int|
            0 <= i < activated.len() && (#[trigger] activated[i]).id == id && text::optional_view(
                activated[i].title,
            ) == focused.title;
        assert(i == at);
    }
    if other != at {
        let candidate = activated[other];
        assert(candidate.id != id);
        if !(focused.app_id is Some && text::optional_view(candidate.app_id) != focused.app_id)
            && !(focused.title is Some && text::optional_view(candidate.title) != focused.title) {
            assert(app_matches(activated, focused, candidate.id) || focused.app_id is None);
            assert(title_matches(activated, focused, candidate.id) || focused.title is None);
            assert(fits(activated, focused, candidate.id));
        }
    }
}

/// Tells whether the focus has changed.
pub fn focused_changed(before: &FocusedSnapshot, after: &FocusedSnapshot) -> (result: bool)
    ensures
        result == (before@ != after@),
{
    let same: bool = same_optional(&before.app_id, &after.app_id) && same_optional(
        &before.title,
        &after.title,
    ) && before.x == after.x && before.y == after.y && before.width == after.width && before.height
        == after.height;
    !same
}

/// What moving a window is waiting for.
#[derive(Debug, PartialEq, Eq)]
pub enum MovePhase {
    /// The focus is being looked at.
    LookingBefore,
    /// The focus is being moved, to see whether there is a window to go to.
    Probing { before: FocusedSnapshot },
    /// The focus is being looked at again.
    LookingAfter { before: FocusedSnapshot },
    /// The focus is being moved back.
    Returning,
    /// The window itself is being moved.
    Moving,
    /// Nothing is left to do.
    Finished,
}

/// A phase of moving a window, over plain text.
pub enum MovePhaseModel {
    LookingBefore,
    Probing { before: mmsg::FocusedModel },
    LookingAfter { before: mmsg::FocusedModel },
    Returning,
    Moving,
    Finished,
}

impl View for MovePhase {
    type V = MovePhaseModel;

    open spec fn view(&self) -> MovePhaseModel {
        match self {
            MovePhase::LookingBefore => MovePhaseModel::LookingBefore,
            MovePhase::Probing { before } => MovePhaseModel::Probing { before: before@ },
            MovePhase::LookingAfter { before } => MovePhaseModel::LookingAfter { before: before@ },
            MovePhase::Returning => MovePhaseModel::Returning,
            MovePhase::Moving => MovePhaseModel::Moving,
            MovePhase::Finished => MovePhaseModel::Finished,
        }
    }
}

/// What the caller is to do next. Requests name a direction as mangowc does.
#[derive(Debug, Clone, Copy, PartialEq, Eq, Structural)]
pub enum MoveAction {
    /// Look at the focus.
    FocusedSnapshot,
    /// Move the focus.
    FocusDir(Direction),
    /// Swap the focused window with the next one.
    ExchangeClient(Direction),
    /// Move the focused window to the next output.
    TagMon(Direction),
    /// Nothing is left to do. The outcome is that of the last action.
    Finish,
}

/// What came of the last action.
#[derive(Debug)]
pub enum MoveReply {
    /// What has the focus.
    Focused(FocusedSnapshot),
    /// A request was carried out.
    Done,
    /// An action failed.
    Failed,
}

/// A window being moved.
#[derive(Debug, PartialEq, Eq)]
pub struct WindowMove {
    pub direction: Direction,
    pub phase: MovePhase,
}

/// A window being moved, over plain text.
pub struct MoveModel {
    pub direction: Direction,
    pub phase: MovePhaseModel,
}

impl View for WindowMove {
    type V = MoveModel;

    open spec fn view(&self) -> MoveModel {
        MoveModel { direction: self.direction, phase: self.phase@ }
    }
}

impl MoveModel {
    /// The same move in another phase.
    pub open spec fn at(self, phase: MovePhaseModel) -> MoveModel {
        MoveModel { phase, ..self }
    }

    /// What follows when `reply` comes in. If moving the focus changes it, there is a window to
    /// swap with: the focus goes back, and the two are swapped. Otherwise the window goes to the
    /// next output. The first action that fails is the last.
    pub open spec fn step(self, reply: MoveReply) -> (MoveModel, MoveAction) {
        match (self.phase, reply) {
            (MovePhaseModel::LookingBefore, MoveReply::Focused(before)) => (
                self.at(MovePhaseModel::Probing { before: before@ }),
                MoveAction::FocusDir(self.direction),
            ),
            (MovePhaseModel::Probing { before }, MoveReply::Done) => (
                self.at(MovePhaseModel::LookingAfter { before }),
                MoveAction::FocusedSnapshot,
            ),
            (MovePhaseModel::LookingAfter { before }, MoveReply::Focused(after)) => if before
                != after@ {
                (
                    self.at(MovePhaseModel::Returning),
                    MoveAction::FocusDir(self.direction.spec_opposite()),
                )
            } else {
                (self.at(MovePhaseModel::Moving), MoveAction::TagMon(self.direction))
            },
            (MovePhaseModel::Returning, MoveReply::Done) => (
                self.at(MovePhaseModel::Moving),
                MoveAction::ExchangeClient(self.direction),
            ),
            _ => (self.at(MovePhaseModel::Finished), MoveAction::Finish),
        }
    }

    /// How many replies the move may still wait for.
    pub open spec fn remaining(self) -> nat {
        match self.phase {
            MovePhaseModel::LookingBefore => 5,
            MovePhaseModel::Probing { .. } => 4,
            MovePhaseModel::LookingAfter { .. } => 3,
            MovePhaseModel::Returning => 2,
            MovePhaseModel::Moving => 1,
            MovePhaseModel::Finished => 0,
        }
    }
}

/// Starts to move the focused window.
pub fn move_direction(direction: Direction) -> (result: (WindowMove, MoveAction))
    ensures
        result.0@ == (MoveModel { direction, phase: MovePhaseModel::LookingBefore }),
        result.1 == MoveAction::FocusedSnapshot,
{
    (WindowMove { direction, phase: MovePhase::LookingBefore }, MoveAction::FocusedSnapshot)
}

impl WindowMove {
    /// Takes in what came of the last action and says what to do next.
    pub fn advance(&mut self, reply: MoveReply) -> (action: MoveAction)
        ensures
            (final(self)@, action) == old(self)@.step(reply),
    {
        match (&self.phase, reply) {
            (MovePhase::LookingBefore, MoveReply::Focused(before)) => {
                self.phase = MovePhase::Probing { before };
                MoveAction::FocusDir(self.direction)
            },
            (MovePhase::Probing { before }, MoveReply::Done) => {
                let before: FocusedSnapshot = before.clone();
                self.phase = MovePhase::LookingAfter { before };
                MoveAction::FocusedSnapshot
            },
            (MovePhase::LookingAfter { before }, MoveReply::Focused(after)) => {
                if focused_changed(before, &after) {
                    self.phase = MovePhase::Returning;
                    MoveAction::FocusDir(self.direction.opposite())
                } else {
                    self.phase = MovePhase::Moving;
                    MoveAction::TagMon(self.direction)
                }
            },
            (MovePhase::Returning, MoveReply::Done) => {
                self.phase = MovePhase::Moving;
                MoveAction::ExchangeClient(self.direction)
            },
            _ => {
                self.phase = MovePhase::Finished;
                MoveAction::Finish
            },
        }
    }
}

/// A move takes at most five replies, and every reply brings it closer to its end. Windows are
/// swapped only after the focus was moved back, and a window goes to another output only if moving
/// the focus changed nothing.
pub proof fn moves_put_the_focus_back(state: MoveModel, reply: MoveReply)
    requires
        state.phase !is Finished,
    ensures
        state.step(reply).0.remaining() < state.remaining(),
        state.step(reply).0.direction == state.direction,
        state.step(reply).1 is ExchangeClient ==> state.phase is Returning && state.step(reply).1
            == MoveAction::ExchangeClient(state.direction),
        state.step(reply).0.phase is Returning ==> state.step(reply).1 == MoveAction::FocusDir(
            state.direction.spec_opposite(),
        ),
        state.step(reply).1 is TagMon ==> (state.phase matches MovePhaseModel::LookingAfter {
            before,
        } && (reply matches MoveReply::Focused(after) && after@ == before)),
        reply is Failed ==> state.step(reply).1 is Finish,
{
}

/// What is said when a resize is asked for, which mangowc does not offer.
pub fn resize_refusal() -> (result: WmError)
    ensures
        result matches WmError::Adapter(text) && text@ == "mangowc: resize is unsupported"@,
{
    WmError::Adapter("mangowc: resize is unsupported".to_owned())
}

/// mangowc calls the directions left, right, up and down, be it for the focus or for windows that
/// leave their output.
pub proof fn directions_go_by_their_words(
    direction: Direction,
    focus: &'static str,
    output: &'static str,
)
    requires
        call_ensures(direction_for_focus, (direction,), focus),
        call_ensures(tagmon_for, (direction,), output),
    ensures
        direction is West ==> focus@ == "left"@,
        direction is East ==> focus@ == "right"@,
        direction is North ==> focus@ == "up"@,
        direction is South ==> focus@ == "down"@,
        output@ == focus@,
{
}

/// The focus has changed exactly if something that is said about it has.
pub proof fn changes_of_the_focus_are_seen(
    before: FocusedSnapshot,
    after: FocusedSnapshot,
    changed: bool,
)
    requires
        call_ensures(focused_changed, (&before, &after), changed),
    ensures
        !changed <==> {
            &&& text::optional_view(before.app_id) == text::optional_view(after.app_id)
            &&& text::optional_view(before.title) == text::optional_view(after.title)
            &&& before.x == after.x
            &&& before.y == after.y
            &&& before.width == after.width
            &&& before.height == after.height
        },
        changed <==> before@ != after@,
{
}

/// Every request of a move names the direction of the move, except the one that puts the focus
/// back, which names the opposite.
pub proof fn moves_name_their_direction(state: MoveModel, reply: MoveReply)
    ensures
        state.step(reply).0.direction == state.direction,
        state.step(reply).1 matches MoveAction::TagMon(towards) ==> towards == state.direction,
        state.step(reply).1 matches MoveAction::ExchangeClient(towards) ==> towards
            == state.direction,
        state.step(reply).1 matches MoveAction::FocusDir(towards) ==> if state.phase
            is LookingBefore {
            towards == state.direction
        } else {
            match state.direction {
                Direction::West => towards is East,
                Direction::East => towards is West,
                Direction::North => towards is South,
                Direction::South => towards is North,
            }
        },
{
}

/// A whole move, as long as nothing fails: the focus is tried in the direction. If that changes
/// nothing, the window goes to the output on that side. Otherwise there is a neighbour: the focus
/// goes back, and the window is swapped with it.
pub proof fn moves_swap_with_a_neighbor_or_leave_the_output(
    direction: Direction,
    start: (WindowMove, MoveAction),
    before: FocusedSnapshot,
    after: FocusedSnapshot,
)
    requires
        call_ensures(move_direction, (direction,), start),
    ensures
        start.1 is FocusedSnapshot,
        ({
            let tried = start.0@.step(MoveReply::Focused(before));
            let looked = tried.0.step(MoveReply::Done);
            let decided = looked.0.step(MoveReply::Focused(after));
            let next = decided.0.step(MoveReply::Done);
            &&& tried.1 == MoveAction::FocusDir(direction)
            &&& looked.1 is FocusedSnapshot
            &&& if before@ == after@ {
                decided.1 == MoveAction::TagMon(direction) && next.1 is Finish
            } else {
                &&& decided.1 == MoveAction::FocusDir(direction.spec_opposite())
                &&& next.1 == MoveAction::ExchangeClient(direction)
                &&& next.0.step(MoveReply::Done).1 is Finish
            }
        }),
{
}

/// Where exactly one window is activated, it is the focused one, as it is recorded; where none is,
/// there is no focus; and where several are, all of them are handed on in their order.
pub proof fn a_single_activated_window_is_the_focus(windows: Vec<WindowRecord>, query: FocusQuery)
    requires
        call_ensures(focused_window, (&windows,), query),
    ensures
        query is Missing <==> forall|i: int|
            0 <= i < windows@.len() ==> !(#[trigger] windows@[i]).is_focused,
        query matches FocusQuery::Found(record) ==> exists|i: int|
            0 <= i < windows@.len() && (#[trigger] windows@[i]).is_focused && windows@[i].id
                == record.id && windows@[i].app_id == record.app_id && windows@[i].title
                == record.title && windows@[i].pid == record.pid
                && windows@[i].original_tile_index == record.original_tile_index && forall|j: int|
                0 <= j < windows@.len() && (#[trigger] windows@[j]).is_focused ==> j == i,
        query matches FocusQuery::Ambiguous(activated) ==> activated@ == windows@.filter(
            |window: WindowRecord| window.is_focused,
        ) && exists|i: int, j: int|
            0 <= i < j < windows@.len() && (#[trigger] windows@[i]).is_focused && (
            #[trigger] windows@[j]).is_focused,
{
    let keep = |window: WindowRecord| window.is_focused;
    assert(activated_windows(windows@) == windows@.filter(keep));
    select::lemma_filter_count(windows@, keep);
}

/// Where identifiers are distinct and mangowc says something about the focus, the only activated
/// window that it fits is decided upon.
pub proof fn the_only_fitting_window_is_the_focus(
    activated: Vec<WindowRecord>,
    focused: FocusedSnapshot,
    result: Result<FocusedWindowRecord, WmError>,
    at: int,
)
    requires
        call_ensures(disambiguate_activated_windows, (&activated, &focused), result),
        forall|i: int, j: int|
            0 <= i < activated@.len() && 0 <= j < activated@.len() && (#[trigger] activated@[i]).id
                == (#[trigger] activated@[j]).id ==> i == j,
        0 <= at < activated@.len(),
        focused.app_id is Some || focused.title is Some,
        forall|i: int|
            0 <= i < activated@.len() ==> (i == at <==> {
                &&& focused.app_id is Some ==> text::optional_view((#[trigger] activated@[i]).app_id)
                    == text::optional_view(focused.app_id)
                &&& focused.title is Some ==> text::optional_view(activated@[i].title)
                    == text::optional_view(focused.title)
            }),
    ensures
        result matches Ok(record) && record.id == activated@[at].id && record.app_id
            == activated@[at].app_id && record.title == activated@[at].title && record.pid
            == activated@[at].pid,
{
    let id = activated@[at].id;
    let model = focused@;
    assert(activated@[at].id == id);
    assert(model.app_id is Some ==> app_matches(activated@, model, id));
    assert(model.title is Some ==> title_matches(activated@, model, id));
    assert(fits(activated@, model, id));
    assert forall|other: u64| #[trigger] fits(activated@, model, other) implies other == id by {
        if model.app_id is Some {
            let i = choose|i: int|
                0 <= i < activated@.len() && (#[trigger] activated@[i]).id == other
                    && text::optional_view(activated@[i].app_id) == model.app_id;
            if model.title is Some {
                let j = choose|j: int|
                    0 <= j < activated@.len() && (#[trigger] activated@[j]).id == other
                        && text::optional_view(activated@[j].title) == model.title;
                assert(i == j);
            }
            assert(i == at);
        } else {
            let i = choose|i: int|
                0 <= i < activated@.len() && (#[trigger] activated@[i]).id == other
                    && text::optional_view(activated@[i].title) == model.title;
            assert(i == at);
        }
    }
    assert(only_fit(activated@, model, id));
    let flags = with_id(activated@, id);
    assert forall|i: int| 0 <= i < at implies !#[trigger] flags[i] by {
        assert(activated@[i].id != activated@[at].id);
    }
    select::lemma_first_set(flags, at);
}

/// mangowc goes by its name, and neither tears windows out nor resizes them.
pub proof fn mangowc_declares_what_it_can_do(
    direction: Direction,
    name: &'static str,
    declared: WindowManagerCapabilities,
)
    requires
        call_ensures(MangowcAdapter::name, (), name),
        call_ensures(MangowcAdapter::capabilities, (), declared),
    ensures
        name@ == "mangowc"@,
        MangowcAdapter::label() == name@,
        MangowcAdapter::declared() == declared,
        declared.tear_out.towards(direction) is Unsupported,
        declared.resize.towards(direction) is Unsupported,
        !declared.primitives.tear_out_right,
        !declared.primitives.move_column,
        !declared.primitives.consume_into_column_and_move,
        !declared.primitives.set_window_width,
        !declared.primitives.set_window_height,
{
}

/// A resize is refused by name.
pub proof fn resizes_are_refused(error: WmError)
    requires
        call_ensures(resize_refusal, (), error),
    ensures
        error matches WmError::Adapter(text) && text@ == "mangowc: resize is unsupported"@,
{
}

/// The adapter is set up only on Linux, with `mmsg` found and the display connected to; the first of
/// these that is amiss is reported, and what the display fails with is passed on.
pub proof fn mangowc_needs_its_program_and_a_display(
    spec: MangowcSpec,
    backend: WmBackend,
    name: &'static str,
    platform: Platform,
    os: &'static str,
    found: bool,
    display: Result<(), WmError>,
    result: Result<MangowcAdapter, WmError>,
)
    requires
        call_ensures(MangowcSpec::backend, (&spec,), backend),
        call_ensures(MangowcSpec::name, (&spec,), name),
        call_ensures(MangowcAdapter::connect, (platform, os, found, display), result),
    ensures
        backend is Mangowc,
        name@ == "mangowc"@,
        result is Ok <==> platform is Linux && found && display is Ok,
        !(platform is Linux) ==> (result matches Err(WmError::Adapter(text)) && text@
            == "mangowc adapter is not supported on "@ + os@),
        platform is Linux && !found ==> (result matches Err(WmError::Adapter(text)) && text@
            == "mangowc: required binary 'mmsg' not found"@),
        platform is Linux && found && result is Err ==> display == Err::<(), WmError>(
            result->Err_0,
        ),
{
}

/// `window` has what is said about the focus: the application where one is said, and the title where
/// one is said.
pub open spec fn agrees(window: WindowRecord, focused: FocusedSnapshot) -> bool {
    &&& focused.app_id is Some ==> text::optional_view(window.app_id) == text::optional_view(
        focused.app_id,
    )
    &&& focused.title is Some ==> text::optional_view(window.title) == text::optional_view(
        focused.title,
    )
}

/// Nothing is guessed: with neither application nor title, with no window that has what is said, or
/// with two that have it under different identifiers, the focus is in doubt. A window that is decided
/// upon is the first of its identifier.
pub proof fn the_focus_is_not_guessed(
    activated: Vec<WindowRecord>,
    focused: FocusedSnapshot,
    result: Result<FocusedWindowRecord, WmError>,
    one: int,
    other: int,
)
    requires
        call_ensures(disambiguate_activated_windows, (&activated, &focused), result),
        0 <= one < activated@.len(),
        0 <= other < activated@.len(),
    ensures
        focused.app_id is None && focused.title is None ==> result is Err,
        (activated@[one].id != activated@[other].id && agrees(activated@[one], focused) && agrees(
            activated@[other],
            focused,
        )) ==> result is Err,
        (forall|i: int|
            0 <= i < activated@.len() ==> text::optional_view((#[trigger] activated@[i]).app_id)
                != text::optional_view(focused.app_id)) && focused.app_id is Some ==> result is Err,
        (forall|i: int|
            0 <= i < activated@.len() ==> text::optional_view((#[trigger] activated@[i]).title)
                != text::optional_view(focused.title)) && focused.title is Some ==> result is Err,
        result matches Err(error) ==> (error matches WmError::Adapter(text) && text@
            == "mangowc: ambiguous activated foreign toplevel windows; refusing to guess focus"@),
        result matches Ok(record) ==> exists|at: int|
            #![trigger activated@[at]]
            {
                &&& 0 <= at < activated@.len()
                &&& record.id == activated@[at].id
                &&& record.app_id == activated@[at].app_id
                &&& record.title == activated@[at].title
                &&& record.pid == activated@[at].pid
                &&& record.original_tile_index == activated@[at].original_tile_index
                &&& forall|i: int| 0 <= i < at ==> (#[trigger] activated@[i]).id != record.id
            },
{
    if agrees(activated@[one], focused) && (focused.app_id is Some || focused.title is Some) {
        assert(fits(activated@, focused@, activated@[one].id));
    }
    if agrees(activated@[other], focused) && (focused.app_id is Some || focused.title is Some) {
        assert(fits(activated@, focused@, activated@[other].id));
    }
    if let Ok(record) = result {
        assert(fits(activated@, focused@, record.id));
        let flags = with_id(activated@, record.id);
        select::first_set_finds_the_first(flags);
        let at = select::first_set(flags)->0;
        assert(activated@[at].id == record.id);
        assert forall|i: int| 0 <= i < at implies (#[trigger] activated@[i]).id != record.id by {
            assert(!flags[i]);
        }
    }
}

/// Every reply moves a move of a window on by one step.
pub proof fn replies_are_taken_in_step_by_step(
    moved: &mut WindowMove,
    reply: MoveReply,
    action: MoveAction,
)
    requires
        call_ensures(WindowMove::advance, (moved, reply), action),
    ensures
        (final(moved)@, action) == old(moved)@.step(reply),
        final(moved).direction == old(moved).direction,
{
}

} // verus!
