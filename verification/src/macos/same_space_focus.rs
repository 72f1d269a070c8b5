//! Moving the focus inside one space.
//!
//! Window lists go stale, above all in split views, so a first attempt that misses its window is
//! followed by others: another window of the same process, a same-application stand-in, and a
//! target looked up anew. `SameSpaceFocus` decides which attempt comes next; the caller carries
//! it out and hands back the outcome.
use crate::ids;
use crate::macos::snapshot;
use crate::macos::snapshot::{
    native_ax_backed_same_pid_target, native_space, native_window, resolved_focused_native_window,
    split_view_peer_candidates, split_view_same_space_focus_target,
    split_view_same_space_focus_target_from_source,
};
use crate::macos::types::{
    MacosNativeOperationError, MacosNativeProbeError, NativeDesktopSnapshot, NativeDirection,
    NativeSpaceSnapshot, NativeWindowSnapshot, SpaceKind,
};
use crate::select;
use std::collections::HashMap;
use std::collections::HashSet;
use vstd::prelude::*;

verus! {

/// What to do about the stand-ins of a stale target.
#[derive(Clone, Copy, Debug, PartialEq, Eq)]
pub enum PeerStep {
    /// Ask accessibility for the windows of this process.
    Ask(u32),
    /// Go on with this stand-in, or without one.
    Choose(Option<(u64, u32)>),
}

/// Which stand-ins stop the walk: those whose process has not been asked about, and those that
/// accessibility confirms.
pub open spec fn stopping_peers(
    candidates: Seq<(u64, u32)>,
    answers: Map<u32, Set<u64>>,
) -> Seq<bool> {
    Seq::new(
        candidates.len(),
        |i: int|
            !answers.contains_key(candidates[i].1) || answers[candidates[i].1].contains(
                candidates[i].0,
            ),
    )
}

/// What to do about `candidates`, given what accessibility said so far: the first that is
/// confirmed is chosen, processes are asked about in order, and the first candidate is chosen if
/// none is confirmed.
pub open spec fn peer_step(candidates: Seq<(u64, u32)>, answers: Map<u32, Set<u64>>) -> PeerStep {
    match select::first_set(stopping_peers(candidates, answers)) {
        Some(at) => if answers.contains_key(candidates[at].1) {
            PeerStep::Choose(Some(candidates[at]))
        } else {
            PeerStep::Ask(candidates[at].1)
        },
        None => if candidates.len() > 0 {
            PeerStep::Choose(Some(candidates[0]))
        } else {
            PeerStep::Choose(None)
        },
    }
}

/// What is known so far, over plain sets.
pub open spec fn known_answers(answers: Map<u32, HashSet<u64>>) -> Map<u32, Set<u64>> {
    Map::new(|pid: u32| answers.contains_key(pid), |pid: u32| answers[pid]@)
}

/// Decides what to do about the stand-ins of a stale target.
pub fn focusable_same_app_split_view_peer(
    candidates: &Vec<(u64, u32)>,
    answers: &HashMap<u32, HashSet<u64>>,
) -> (result: PeerStep)
    ensures
        result == peer_step(candidates@, known_answers(answers@)),
{
    let ghost flags = stopping_peers(candidates@, known_answers(answers@));
    let mut at: usize = 0;
    while at < candidates.len()
        invariant
            at <= candidates.len(),
            flags == stopping_peers(candidates@, known_answers(answers@)),
            forall|i: int| 0 <= i < at ==> !#[trigger] flags[i],
        decreases candidates.len() - at,
    {
        let (id, pid) = candidates[at];
        match answers.get(&pid) {
            Some(ax_window_ids) => if ax_window_ids.contains(&id) {
                proof {
                    select::lemma_first_set(flags, at as int);
                }
                return PeerStep::Choose(Some((id, pid)));
            },
            None => {
                proof {
                    select::lemma_first_set(flags, at as int);
                }
                return PeerStep::Ask(pid);
            },
        }
        at += 1;
    }
    proof {
        select::lemma_none_set(flags);
    }
    if candidates.len() > 0 {
        PeerStep::Choose(Some(candidates[0]))
    } else {
        PeerStep::Choose(None)
    }
}

/// A process is never asked about twice.
pub proof fn peers_are_asked_about_once(candidates: Seq<(u64, u32)>, answers: Map<u32, Set<u64>>)
    ensures
        peer_step(candidates, answers) matches PeerStep::Ask(pid) ==> !answers.contains_key(pid),
{
}

/// A stand-in is chosen only when nothing that could still be asked would change the choice.
pub proof fn peer_choice_is_final(
    candidates: Seq<(u64, u32)>,
    answers: Map<u32, Set<u64>>,
    more: Map<u32, Set<u64>>,
)
    requires
        peer_step(candidates, answers) is Choose,
        answers.submap_of(more),
    ensures
        peer_step(candidates, more) == peer_step(candidates, answers),
{
    let flags = stopping_peers(candidates, answers);
    let later = stopping_peers(candidates, more);
    select::first_set_finds_the_first(flags);
    match select::first_set(flags) {
        Some(at) => {
            assert forall|i: int| 0 <= i < at implies !#[trigger] later[i] by {
                assert(!flags[i]);
                assert(answers.contains_key(candidates[i].1));
            }
            assert(answers.contains_key(candidates[at].1));
            select::lemma_first_set(later, at);
        },
        None => {
            assert forall|i: int| 0 <= i < later.len() implies !#[trigger] later[i] by {
                assert(!flags[i]);
                assert(answers.contains_key(candidates[i].1));
            }
            select::lemma_none_set(later);
        },
    }
}

/// What the focus change is waiting for.
#[derive(Clone, Copy, Debug, PartialEq, Eq, Structural)]
pub enum FocusPhase {
    /// Accessibility was asked for the windows of the target's process, before any attempt.
    Preflight,
    /// The first attempt is under way.
    Focusing,
    /// Accessibility was asked about a stand-in of the planned target.
    ProbingPeers,
    /// A fresh snapshot was asked for.
    Refreshing,
    /// Accessibility was asked about a stand-in of the refreshed target.
    ProbingRefreshedPeers,
    /// The last attempt is under way.
    LastAttempt,
    /// Nothing is left to do.
    Finished,
}

/// What the caller is to do next.
#[derive(Clone, Copy, Debug, PartialEq, Eq)]
pub enum FocusAction {
    /// Ask accessibility for the windows of this process.
    AxWindowIdsForPid(u32),
    /// Focus this window of this process.
    FocusWindowWithKnownPid(u64, u32),
    /// Focus this window, whatever process it belongs to.
    FocusWindow(u64),
    /// Take a fresh snapshot of the desktop.
    DesktopSnapshot,
    /// The focus change is over.
    Finish(Result<(), MacosNativeOperationError>),
}

/// What came of the last action.
#[derive(Debug)]
pub enum FocusReply {
    /// A window was focused, or not.
    Focused(Result<(), MacosNativeOperationError>),
    /// The windows that accessibility lists.
    AxWindowIds(Result<Vec<u64>, MacosNativeOperationError>),
    /// The desktop as it is now.
    Snapshot(Result<NativeDesktopSnapshot, MacosNativeProbeError>),
}

/// A focus change in progress.
#[derive(Debug)]
pub struct SameSpaceFocus {
    pub direction: NativeDirection,
    pub target_window_id: u64,
    pub pid: u32,
    pub same_pid_split_view: bool,
    pub ax_window_ids: HashSet<u64>,
    pub candidates: Vec<(u64, u32)>,
    pub answers: HashMap<u32, HashSet<u64>>,
    pub phase: FocusPhase,
}

/// The mathematical state of a focus change.
pub struct FocusModel {
    pub direction: NativeDirection,
    pub target_window_id: u64,
    pub pid: u32,
    pub same_pid_split_view: bool,
    pub ax_window_ids: Set<u64>,
    pub candidates: Seq<(u64, u32)>,
    pub answers: Map<u32, Set<u64>>,
    pub phase: FocusPhase,
}

impl View for SameSpaceFocus {
    type V = FocusModel;

    open spec fn view(&self) -> FocusModel {
        FocusModel {
            direction: self.direction,
            target_window_id: self.target_window_id,
            pid: self.pid,
            same_pid_split_view: self.same_pid_split_view,
            ax_window_ids: self.ax_window_ids@,
            candidates: self.candidates@,
            answers: known_answers(self.answers@),
            phase: self.phase,
        }
    }
}

/// The window to try when accessibility lists `ax_window_ids` for the target's process: another
/// window of that process that lies in `direction`, where there is one.
pub open spec fn ax_remap(
    snapshot: NativeDesktopSnapshot,
    focus: FocusModel,
    ax_window_ids: Set<u64>,
) -> Option<u64> {
    match snapshot::ax_same_pid_target(snapshot, focus.direction, focus.pid, ax_window_ids) {
        Some(id) => if id != focus.target_window_id {
            Some(id)
        } else {
            None
        },
        None => None,
    }
}

impl FocusModel {
    /// The focus change ends with `result`.
    pub open spec fn finish(self, result: Result<(), MacosNativeOperationError>) -> (
        FocusModel,
        FocusAction,
    ) {
        (FocusModel { phase: FocusPhase::Finished, ..self }, FocusAction::Finish(result))
    }

    /// `action` is the last attempt; its outcome is the outcome of the whole.
    pub open spec fn last(self, action: FocusAction) -> (FocusModel, FocusAction) {
        (FocusModel { phase: FocusPhase::LastAttempt, ..self }, action)
    }

    /// Every replacement has been ruled out.
    pub open spec fn give_up(self) -> (FocusModel, FocusAction) {
        if self.same_pid_split_view {
            self.finish(Err(MacosNativeOperationError::MissingWindow(self.target_window_id)))
        } else {
            self.last(FocusAction::FocusWindow(self.target_window_id))
        }
    }

    /// Goes on with the stand-ins, as far as they are known.
    pub open spec fn with_peers(self, refreshed: bool) -> (FocusModel, FocusAction) {
        match peer_step(self.candidates, self.answers) {
            PeerStep::Ask(pid) => (
                FocusModel {
                    phase: if refreshed {
                        FocusPhase::ProbingRefreshedPeers
                    } else {
                        FocusPhase::ProbingPeers
                    },
                    ..self
                },
                FocusAction::AxWindowIdsForPid(pid),
            ),
            PeerStep::Choose(Some((id, pid))) => self.last(
                FocusAction::FocusWindowWithKnownPid(id, pid),
            ),
            PeerStep::Choose(None) => if refreshed {
                self.give_up()
            } else {
                (
                    FocusModel { phase: FocusPhase::Refreshing, ..self },
                    FocusAction::DesktopSnapshot,
                )
            },
        }
    }

    /// Starts over with the stand-ins of the window `target_id` in `snapshot`.
    pub open spec fn start_peers(
        self,
        snapshot: NativeDesktopSnapshot,
        source_id: u64,
        target_id: u64,
        refreshed: bool,
    ) -> (FocusModel, FocusAction) {
        FocusModel {
            candidates: snapshot::peer_candidates(snapshot, source_id, self.direction, target_id),
            answers: Map::empty(),
            ..self
        }.with_peers(refreshed)
    }

    /// The first attempt missed its window.
    pub open spec fn after_miss(self, snapshot: NativeDesktopSnapshot) -> (FocusModel, FocusAction) {
        let remapped = ax_remap(snapshot, self, self.ax_window_ids);
        if self.same_pid_split_view && remapped is Some {
            self.last(FocusAction::FocusWindowWithKnownPid(remapped->0, self.pid))
        } else {
            match snapshot::focused_window(snapshot) {
                Some(source) => self.start_peers(snapshot, source.id, self.target_window_id, false),
                None => self.give_up(),
            }
        }
    }

    /// A fresh snapshot has come in.
    pub open spec fn after_refresh(
        self,
        snapshot: NativeDesktopSnapshot,
        refreshed: NativeDesktopSnapshot,
    ) -> (FocusModel, FocusAction) {
        match snapshot::focused_window(snapshot) {
            None => self.give_up(),
            Some(source) => match snapshot::split_view_target(
                refreshed,
                source.id,
                self.direction,
            ) {
                None => self.give_up(),
                Some(target_id) => {
                    let pid = window_pid(refreshed, target_id);
                    if target_id == self.target_window_id && pid == Some(self.pid) {
                        self.start_peers(refreshed, source.id, target_id, true)
                    } else {
                        self.last(focus_action(target_id, pid))
                    }
                },
            },
        }
    }

    /// What follows when `reply` comes in, with `snapshot` the one that the change was planned on.
    pub open spec fn step(self, snapshot: NativeDesktopSnapshot, reply: FocusReply) -> (
        FocusModel,
        FocusAction,
    ) {
        match (self.phase, reply) {
            (FocusPhase::Preflight, FocusReply::AxWindowIds(Ok(ids))) => {
                let known = ids@.to_set();
                let remapped = ax_remap(snapshot, self, known);
                let target = if !known.contains(self.target_window_id) && remapped is Some {
                    remapped->0
                } else {
                    self.target_window_id
                };
                (
                    FocusModel {
                        ax_window_ids: known,
                        target_window_id: target,
                        phase: FocusPhase::Focusing,
                        ..self
                    },
                    FocusAction::FocusWindowWithKnownPid(target, self.pid),
                )
            },
            (FocusPhase::Focusing, FocusReply::Focused(result)) => if result
                == Err::<(), MacosNativeOperationError>(
                MacosNativeOperationError::MissingWindow(self.target_window_id),
            ) {
                self.after_miss(snapshot)
            } else {
                self.finish(result)
            },
            (FocusPhase::ProbingPeers, FocusReply::AxWindowIds(Ok(ids))) => self.learn(
                ids@.to_set(),
            ).with_peers(false),
            (FocusPhase::ProbingRefreshedPeers, FocusReply::AxWindowIds(Ok(ids))) => self.learn(
                ids@.to_set(),
            ).with_peers(true),
            (
                FocusPhase::Preflight
                | FocusPhase::ProbingPeers
                | FocusPhase::ProbingRefreshedPeers,
                FocusReply::AxWindowIds(Err(error)),
            ) => self.finish(Err(error)),
            (FocusPhase::Refreshing, FocusReply::Snapshot(Ok(refreshed))) => self.after_refresh(
                snapshot,
                refreshed,
            ),
            (FocusPhase::Refreshing, FocusReply::Snapshot(Err(error))) => self.finish(
                Err(MacosNativeOperationError::Probe(error)),
            ),
            (FocusPhase::LastAttempt, FocusReply::Focused(result)) => self.finish(result),
            _ => self.finish(
                Err(MacosNativeOperationError::CallFailed("same_space_focus_reply_out_of_turn")),
            ),
        }
    }

    /// Accessibility lists `ids` for the process that was asked about.
    pub open spec fn learn(self, ids: Set<u64>) -> FocusModel {
        match peer_step(self.candidates, self.answers) {
            PeerStep::Ask(pid) => FocusModel { answers: self.answers.insert(pid, ids), ..self },
            PeerStep::Choose(_) => self,
        }
    }
}

/// The process of the window `window_id`, where the snapshot names one.
pub open spec fn window_pid(snapshot: NativeDesktopSnapshot, window_id: u64) -> Option<u32> {
    match snapshot::window_with_id(snapshot.windows@, window_id) {
        Some(window) => window.pid,
        None => None,
    }
}

/// Focusing a window whose process may be known.
pub open spec fn focus_action(window_id: u64, pid: Option<u32>) -> FocusAction {
    match pid {
        Some(pid) => FocusAction::FocusWindowWithKnownPid(window_id, pid),
        None => FocusAction::FocusWindow(window_id),
    }
}

/// The focus lies in a split view and belongs to process `pid`.
pub open spec fn focus_shares_pid_in_split_view(snapshot: NativeDesktopSnapshot, pid: u32) -> bool {
    snapshot::focused_window(snapshot) matches Some(focused) && focused.pid == Some(pid)
        && snapshot::in_split_view(snapshot, focused)
}

/// How the focus moves to a window of a known process: in a split view whose focus belongs to the
/// same process, accessibility is asked first.
pub open spec fn known_pid_start(
    snapshot: NativeDesktopSnapshot,
    direction: NativeDirection,
    target_window_id: u64,
    pid: u32,
) -> (FocusModel, FocusAction) {
    let same_pid = focus_shares_pid_in_split_view(snapshot, pid);
    (
        FocusModel {
            direction,
            target_window_id,
            pid,
            same_pid_split_view: same_pid,
            ax_window_ids: Set::empty(),
            candidates: Seq::empty(),
            answers: Map::empty(),
            phase: if same_pid {
                FocusPhase::Preflight
            } else {
                FocusPhase::Focusing
            },
        },
        if same_pid {
            FocusAction::AxWindowIdsForPid(pid)
        } else {
            FocusAction::FocusWindowWithKnownPid(target_window_id, pid)
        },
    )
}

/// The window that a step in `direction` focuses: in a split view its outermost neighbour in that
/// direction, elsewhere the planned target.
pub open spec fn planned_target(
    snapshot: NativeDesktopSnapshot,
    direction: NativeDirection,
    target_window_id: u64,
) -> u64 {
    match snapshot::focused_window(snapshot) {
        Some(focused) => match snapshot::split_view_target(snapshot, focused.id, direction) {
            Some(id) => id,
            None => target_window_id,
        },
        None => target_window_id,
    }
}

fn pid_of_window(snapshot: &NativeDesktopSnapshot, window_id: u64) -> (result: Option<u32>)
    ensures
        result == window_pid(*snapshot, window_id),
{
    match native_window(snapshot, window_id) {
        Some(window) => window.pid,
        None => None,
    }
}

/// Starts moving the focus to `target_window_id`, which lies in `direction`. A window whose
/// process is unknown is simply to be focused; nothing is left to decide then.
pub fn focus_same_space_target_in_snapshot(
    snapshot: &NativeDesktopSnapshot,
    direction: NativeDirection,
    target_window_id: u64,
) -> (result: (Option<SameSpaceFocus>, FocusAction))
    ensures
        ({
            let target = planned_target(*snapshot, direction, target_window_id);
            match (window_pid(*snapshot, target), result.0) {
                (Some(pid), Some(focus)) => (focus@, result.1) == known_pid_start(
                    *snapshot,
                    direction,
                    target,
                    pid,
                ),
                (None, None) => result.1 == FocusAction::FocusWindow(target),
                _ => false,
            }
        }),
{
    let focus_target_id: u64 = match split_view_same_space_focus_target(snapshot, direction) {
        Some(id) => id,
        None => target_window_id,
    };
    match pid_of_window(snapshot, focus_target_id) {
        Some(pid) => {
            let (focus, action) = focus_same_space_target_with_known_pid(
                snapshot,
                direction,
                focus_target_id,
                pid,
            );
            (Some(focus), action)
        },
        None => (None, FocusAction::FocusWindow(focus_target_id)),
    }
}

/// Starts moving the focus to a window of a known process.
pub fn focus_same_space_target_with_known_pid(
    snapshot: &NativeDesktopSnapshot,
    direction: NativeDirection,
    target_window_id: u64,
    pid: u32,
) -> (result: (SameSpaceFocus, FocusAction))
    ensures
        (result.0@, result.1) == known_pid_start(*snapshot, direction, target_window_id, pid),
{
    let same_pid_split_view: bool = match resolved_focused_native_window(snapshot) {
        Ok(focused) => if focused.pid == Some(pid) {
            match native_space(snapshot, focused.space_id) {
                Some(space) => space.kind == SpaceKind::SplitView,
                None => false,
            }
        } else {
            false
        },
        Err(_) => false,
    };
    let focus = SameSpaceFocus {
        direction,
        target_window_id,
        pid,
        same_pid_split_view,
        ax_window_ids: HashSet::new(),
        candidates: Vec::new(),
        answers: HashMap::new(),
        phase: if same_pid_split_view {
            FocusPhase::Preflight
        } else {
            FocusPhase::Focusing
        },
    };
    assert(focus@.answers =~= Map::<u32, Set<u64>>::empty());
    if same_pid_split_view {
        (focus, FocusAction::AxWindowIdsForPid(pid))
    } else {
        (focus, FocusAction::FocusWindowWithKnownPid(target_window_id, pid))
    }
}

impl SameSpaceFocus {
    /// Takes in what came of the last action and says what to do next. `snapshot` is the one that
    /// the focus change was planned on. A reply to something that was not asked for ends the
    /// change with an error.
    pub fn advance(&mut self, snapshot: &NativeDesktopSnapshot, reply: FocusReply) -> (action:
        FocusAction)
        ensures
            (final(self)@, action) == old(self)@.step(*snapshot, reply),
    {
        match (self.phase, reply) {
            (FocusPhase::Preflight, FocusReply::AxWindowIds(Ok(ids))) => {
                let known: HashSet<u64> = ids::set_of(&ids);
                if !known.contains(&self.target_window_id) {
                    if let Some(remapped) = self.remap(snapshot, &known) {
                        self.target_window_id = remapped;
                    }
                }
                self.ax_window_ids = known;
                self.phase = FocusPhase::Focusing;
                FocusAction::FocusWindowWithKnownPid(self.target_window_id, self.pid)
            },
            (FocusPhase::Focusing, FocusReply::Focused(result)) => {
                if let Err(MacosNativeOperationError::MissingWindow(id)) = result {
                    if id == self.target_window_id {
                        return self.after_miss(snapshot);
                    }
                }
                self.finish(result)
            },
            (FocusPhase::ProbingPeers, FocusReply::AxWindowIds(Ok(ids))) => {
                self.learn(&ids);
                self.with_peers(false)
            },
            (FocusPhase::ProbingRefreshedPeers, FocusReply::AxWindowIds(Ok(ids))) => {
                self.learn(&ids);
                self.with_peers(true)
            },
            (
                FocusPhase::Preflight
                | FocusPhase::ProbingPeers
                | FocusPhase::ProbingRefreshedPeers,
                FocusReply::AxWindowIds(Err(error)),
            ) => self.finish(Err(error)),
            (FocusPhase::Refreshing, FocusReply::Snapshot(Ok(refreshed))) => self.after_refresh(
                snapshot,
                &refreshed,
            ),
            (FocusPhase::Refreshing, FocusReply::Snapshot(Err(error))) => self.finish(
                Err(MacosNativeOperationError::Probe(error)),
            ),
            (FocusPhase::LastAttempt, FocusReply::Focused(result)) => self.finish(result),
            _ => self.finish(
                Err(MacosNativeOperationError::CallFailed("same_space_focus_reply_out_of_turn")),
            ),
        }
    }

    fn finish(&mut self, result: Result<(), MacosNativeOperationError>) -> (action: FocusAction)
        ensures
            (final(self)@, action) == old(self)@.finish(result),
    {
        self.phase = FocusPhase::Finished;
        FocusAction::Finish(result)
    }

    fn last(&mut self, attempt: FocusAction) -> (action: FocusAction)
        ensures
            (final(self)@, action) == old(self)@.last(attempt),
    {
        self.phase = FocusPhase::LastAttempt;
        attempt
    }

    fn give_up(&mut self) -> (action: FocusAction)
        ensures
            (final(self)@, action) == old(self)@.give_up(),
    {
        if self.same_pid_split_view {
            self.finish(Err(MacosNativeOperationError::MissingWindow(self.target_window_id)))
        } else {
            self.last(FocusAction::FocusWindow(self.target_window_id))
        }
    }

    fn remap(&self, snapshot: &NativeDesktopSnapshot, known: &HashSet<u64>) -> (result: Option<u64>)
        ensures
            result == ax_remap(*snapshot, self@, known@),
    {
        match native_ax_backed_same_pid_target(snapshot, self.direction, self.pid, known) {
            Some(id) => if id != self.target_window_id {
                Some(id)
            } else {
                None
            },
            None => None,
        }
    }

    fn learn(&mut self, ids: &Vec<u64>)
        ensures
            final(self)@ == old(self)@.learn(ids@.to_set()),
    {
        if let PeerStep::Ask(pid) = focusable_same_app_split_view_peer(
            &self.candidates,
            &self.answers,
        ) {
            let known: HashSet<u64> = ids::set_of(ids);
            self.answers.insert(pid, known);
            assert(self@.answers =~= old(self)@.answers.insert(pid, ids@.to_set()));
        }
    }

    fn with_peers(&mut self, refreshed: bool) -> (action: FocusAction)
        ensures
            (final(self)@, action) == old(self)@.with_peers(refreshed),
    {
        match focusable_same_app_split_view_peer(&self.candidates, &self.answers) {
            PeerStep::Ask(pid) => {
                self.phase = if refreshed {
                    FocusPhase::ProbingRefreshedPeers
                } else {
                    FocusPhase::ProbingPeers
                };
                FocusAction::AxWindowIdsForPid(pid)
            },
            PeerStep::Choose(Some((id, pid))) => self.last(
                FocusAction::FocusWindowWithKnownPid(id, pid),
            ),
            PeerStep::Choose(None) => if refreshed {
                self.give_up()
            } else {
                self.phase = FocusPhase::Refreshing;
                FocusAction::DesktopSnapshot
            },
        }
    }

    fn start_peers(
        &mut self,
        snapshot: &NativeDesktopSnapshot,
        source_id: u64,
        target_id: u64,
        refreshed: bool,
    ) -> (action: FocusAction)
        ensures
            (final(self)@, action) == old(self)@.start_peers(
                *snapshot,
                source_id,
                target_id,
                refreshed,
            ),
    {
        self.candidates =
        split_view_peer_candidates(snapshot, source_id, self.direction, target_id);
        self.answers = HashMap::new();
        assert(self@.answers =~= Map::<u32, Set<u64>>::empty());
        self.with_peers(refreshed)
    }

    fn after_miss(&mut self, snapshot: &NativeDesktopSnapshot) -> (action: FocusAction)
        ensures
            (final(self)@, action) == old(self)@.after_miss(*snapshot),
    {
        if self.same_pid_split_view {
            if let Some(remapped) = self.remap(snapshot, &self.ax_window_ids) {
                return self.last(FocusAction::FocusWindowWithKnownPid(remapped, self.pid));
            }
        }
        match resolved_focused_native_window(snapshot) {
            Ok(source) => self.start_peers(snapshot, source.id, self.target_window_id, false),
            Err(_) => self.give_up(),
        }
    }

    /// Decides what to do with the target that a fresh snapshot shows.
    fn after_refresh(
        &mut self,
        snapshot: &NativeDesktopSnapshot,
        refreshed: &NativeDesktopSnapshot,
    ) -> (action: FocusAction)
        ensures
            (final(self)@, action) == old(self)@.after_refresh(*snapshot, *refreshed),
    {
        let Ok(source) = resolved_focused_native_window(snapshot) else {
            return self.give_up();
        };
        let Some(target_id) = split_view_same_space_focus_target_from_source(
            refreshed,
            source.id,
            self.direction,
        ) else {
            return self.give_up();
        };
        let pid: Option<u32> = pid_of_window(refreshed, target_id);
        if target_id == self.target_window_id && pid == Some(self.pid) {
            self.start_peers(refreshed, source.id, target_id, true)
        } else {
            match pid {
                Some(pid) => self.last(FocusAction::FocusWindowWithKnownPid(target_id, pid)),
                None => self.last(FocusAction::FocusWindow(target_id)),
            }
        }
    }
}

/// How far a focus change has come.
pub open spec fn phase_number(phase: FocusPhase) -> int {
    match phase {
        FocusPhase::Preflight => 0,
        FocusPhase::Focusing => 1,
        FocusPhase::ProbingPeers => 2,
        FocusPhase::Refreshing => 3,
        FocusPhase::ProbingRefreshedPeers => 4,
        FocusPhase::LastAttempt => 5,
        FocusPhase::Finished => 6,
    }
}

/// A focus change never goes back: every reply moves it on, or, while stand-ins are being asked
/// about, adds the answer for one more process.
pub proof fn focus_change_advances(
    focus: FocusModel,
    snapshot: NativeDesktopSnapshot,
    reply: FocusReply,
)
    requires
        !(focus.phase is Finished),
        focus.phase is ProbingPeers || focus.phase is ProbingRefreshedPeers ==> peer_step(
            focus.candidates,
            focus.answers,
        ) is Ask,
    ensures
        ({
            let next = focus.step(snapshot, reply).0;
            ||| phase_number(next.phase) > phase_number(focus.phase)
            ||| next.phase == focus.phase && next.candidates == focus.candidates && exists|
                pid: u32,
                ids: Set<u64>,
            |
                !focus.answers.contains_key(pid) && next.answers == #[trigger] focus.answers.insert(
                    pid,
                    ids,
                )
        }),
{
    let next = focus.step(snapshot, reply).0;
    if next.phase == focus.phase {
        if let FocusReply::AxWindowIds(Ok(ids)) = reply {
            if let PeerStep::Ask(pid) = peer_step(focus.candidates, focus.answers) {
                assert(next.answers == focus.answers.insert(pid, ids@.to_set()));
            }
        }
    }
}

/// At most two windows are tried: an attempt is either the first, or the last, after which the
/// focus change is over whatever comes of it.
pub proof fn at_most_two_windows_are_tried(
    focus: FocusModel,
    snapshot: NativeDesktopSnapshot,
    reply: FocusReply,
)
    ensures
        ({
            let (next, action) = focus.step(snapshot, reply);
            &&& (action is FocusWindow || action is FocusWindowWithKnownPid) ==> next.phase
                is Focusing && focus.phase is Preflight || next.phase is LastAttempt && !(
            focus.phase is LastAttempt)
            &&& focus.phase is LastAttempt ==> action is Finish && next.phase is Finished
        }),
{
}

/// An attempt that did not miss its own window decides the outcome.
pub proof fn first_attempt_is_decisive_unless_it_misses(
    focus: FocusModel,
    snapshot: NativeDesktopSnapshot,
    result: Result<(), MacosNativeOperationError>,
)
    requires
        focus.phase is Focusing,
        result != Err::<(), MacosNativeOperationError>(
            MacosNativeOperationError::MissingWindow(focus.target_window_id),
        ),
    ensures
        focus.step(snapshot, FocusReply::Focused(result)).1 == FocusAction::Finish(result),
{
}

/// Stand-ins are gone through in their order: the first whose process was not asked about yet has it
/// asked about, the first that accessibility lists is chosen, and the very first if none is listed.
pub proof fn stand_ins_are_gone_through_in_order(
    candidates: Vec<(u64, u32)>,
    answers: HashMap<u32, HashSet<u64>>,
    result: PeerStep,
    at: int,
)
    requires
        call_ensures(focusable_same_app_split_view_peer, (&candidates, &answers), result),
    ensures
        candidates@.len() == 0 <==> result == PeerStep::Choose(None),
        (0 <= at < candidates@.len() && (forall|i: int|
            0 <= i < at ==> is_denied(#[trigger] candidates@[i], answers@))) ==> {
            let (id, pid) = candidates@[at];
            &&& !answers@.contains_key(pid) ==> result == PeerStep::Ask(pid)
            &&& answers@.contains_key(pid) && answers@[pid]@.contains(id) ==> result
                == PeerStep::Choose(Some((id, pid)))
        },
        (candidates@.len() > 0 && forall|i: int|
            0 <= i < candidates@.len() ==> is_denied(#[trigger] candidates@[i], answers@)) ==> result
            == PeerStep::Choose(Some(candidates@[0])),
{
    let known = known_answers(answers@);
    let flags = stopping_peers(candidates@, known);
    assert forall|i: int| 0 <= i < candidates@.len() implies flags[i] == !is_denied(
        #[trigger] candidates@[i],
        answers@,
    ) by {}
    select::first_set_finds_the_first(flags);
    if 0 <= at < candidates@.len() && (forall|i: int|
        0 <= i < at ==> is_denied(#[trigger] candidates@[i], answers@)) && flags[at] {
        assert(select::is_first_set(flags, at)) by {
            assert forall|i: int| 0 <= i < at implies !#[trigger] flags[i] by {
                assert(is_denied(candidates@[i], answers@));
            }
        }
        select::lemma_first_set(flags, at);
    }
    if forall|i: int|
        0 <= i < candidates@.len() ==> is_denied(#[trigger] candidates@[i], answers@) {
        assert forall|i: int| 0 <= i < flags.len() implies !#[trigger] flags[i] by {
            assert(is_denied(candidates@[i], answers@));
        }
        select::lemma_none_set(flags);
    }
}

/// The process of the stand-in was asked about, and accessibility does not list the stand-in.
pub open spec fn is_denied(candidate: (u64, u32), answers: Map<u32, HashSet<u64>>) -> bool {
    answers.contains_key(candidate.1) && !answers[candidate.1]@.contains(candidate.0)
}

/// A step goes to the window that the split view gives for it, and to the planned one elsewhere. A
/// window of an unknown process is simply focused; a known one too, unless it shares the process and
/// the split view of the focus: accessibility is then asked first.
pub proof fn steps_start_at_the_outermost_window(
    desktop: NativeDesktopSnapshot,
    direction: NativeDirection,
    planned: u64,
    stepped: Option<u64>,
    target: u64,
    window: Option<&NativeWindowSnapshot>,
    focused: Result<&NativeWindowSnapshot, MacosNativeProbeError>,
    space: Option<NativeSpaceSnapshot>,
    result: (Option<SameSpaceFocus>, FocusAction),
)
    requires
        call_ensures(focus_same_space_target_in_snapshot, (&desktop, direction, planned), result),
        call_ensures(split_view_same_space_focus_target, (&desktop, direction), stepped),
        stepped matches Some(id) ==> target == id,
        stepped is None ==> target == planned,
        call_ensures(native_window, (&desktop, target), window),
        call_ensures(resolved_focused_native_window, (&desktop,), focused),
        focused matches Ok(source) ==> call_ensures(
            native_space,
            (&desktop, source.space_id),
            space,
        ),
    ensures
        window is None || window->0.pid is None ==> result.0 is None && result.1
            == FocusAction::FocusWindow(target),
        window is Some && window->0.pid is Some ==> {
            let pid = window->0.pid->0;
            let shared = focused is Ok && focused->Ok_0.pid == Some(pid) && space is Some
                && space->0.kind is SplitView;
            &&& result.0 matches Some(focus)
            &&& focus.direction == direction
            &&& focus.target_window_id == target
            &&& focus.pid == pid
            &&& focus.same_pid_split_view == shared
            &&& shared ==> focus.phase is Preflight && result.1 == FocusAction::AxWindowIdsForPid(
                pid,
            )
            &&& !shared ==> focus.phase is Focusing && result.1
                == FocusAction::FocusWindowWithKnownPid(target, pid)
        },
{
}

/// A focus on a window of a known process starts the same way, with that window and that process.
pub proof fn known_processes_start_the_same_way(
    desktop: NativeDesktopSnapshot,
    direction: NativeDirection,
    target: u64,
    pid: u32,
    focused: Result<&NativeWindowSnapshot, MacosNativeProbeError>,
    space: Option<NativeSpaceSnapshot>,
    result: (SameSpaceFocus, FocusAction),
)
    requires
        call_ensures(
            focus_same_space_target_with_known_pid,
            (&desktop, direction, target, pid),
            result,
        ),
        call_ensures(resolved_focused_native_window, (&desktop,), focused),
        focused matches Ok(source) ==> call_ensures(
            native_space,
            (&desktop, source.space_id),
            space,
        ),
    ensures
        ({
            let shared = focused is Ok && focused->Ok_0.pid == Some(pid) && space is Some
                && space->0.kind is SplitView;
            &&& result.0.direction == direction
            &&& result.0.target_window_id == target
            &&& result.0.pid == pid
            &&& result.0.same_pid_split_view == shared
            &&& shared ==> result.0.phase is Preflight && result.1
                == FocusAction::AxWindowIdsForPid(pid)
            &&& !shared ==> result.0.phase is Focusing && result.1
                == FocusAction::FocusWindowWithKnownPid(target, pid)
        }),
{
}

/// What accessibility lists decides which window of the process is focused first: the target where it
/// is listed, and otherwise the outermost listed one where there is another.
pub proof fn listed_windows_are_focused_first(
    focus: FocusModel,
    desktop: NativeDesktopSnapshot,
    ids: Vec<u64>,
    known: HashSet<u64>,
    outermost: Option<u64>,
    error: MacosNativeOperationError,
)
    requires
        focus.phase is Preflight,
        known@ == ids@.to_set(),
        call_ensures(
            native_ax_backed_same_pid_target,
            (&desktop, focus.direction, focus.pid, &known),
            outermost,
        ),
    ensures
        ({
            let (next, action) = focus.step(desktop, FocusReply::AxWindowIds(Ok(ids)));
            let target = if !ids@.contains(focus.target_window_id) && outermost is Some {
                outermost->0
            } else {
                focus.target_window_id
            };
            &&& action == FocusAction::FocusWindowWithKnownPid(target, focus.pid)
            &&& next.phase is Focusing
            &&& next.target_window_id == target
            &&& next.ax_window_ids == known@
        }),
        focus.step(desktop, FocusReply::AxWindowIds(Err(error))).1 == FocusAction::Finish(
            Err(error),
        ),
{
}

/// A first attempt that missed its window is followed, where the split view belongs to one process, by
/// the outermost other window of it that accessibility listed, and otherwise by the stand-ins of the
/// missed window, seen from the focus.
pub proof fn misses_are_followed_by_other_windows(
    focus: FocusModel,
    desktop: NativeDesktopSnapshot,
    known: HashSet<u64>,
    outermost: Option<u64>,
    focused: Result<&NativeWindowSnapshot, MacosNativeProbeError>,
    candidates: Vec<(u64, u32)>,
    none: HashMap<u32, HashSet<u64>>,
    peer: PeerStep,
)
    requires
        focus.phase is Focusing,
        known@ == focus.ax_window_ids,
        call_ensures(
            native_ax_backed_same_pid_target,
            (&desktop, focus.direction, focus.pid, &known),
            outermost,
        ),
        call_ensures(resolved_focused_native_window, (&desktop,), focused),
        focused matches Ok(source) ==> call_ensures(
            split_view_peer_candidates,
            (&desktop, source.id, focus.direction, focus.target_window_id),
            candidates,
        ),
        none@ == Map::<u32, HashSet<u64>>::empty(),
        call_ensures(focusable_same_app_split_view_peer, (&candidates, &none), peer),
    ensures
        ({
            let missed = Err::<(), MacosNativeOperationError>(
                MacosNativeOperationError::MissingWindow(focus.target_window_id),
            );
            let (next, action) = focus.step(desktop, FocusReply::Focused(missed));
            let other = outermost is Some && outermost->0 != focus.target_window_id;
            if focus.same_pid_split_view && other {
                action == FocusAction::FocusWindowWithKnownPid(outermost->0, focus.pid)
                    && next.phase is LastAttempt
            } else if focused is Err {
                gives_up(focus, next, action)
            } else {
                match peer {
                    PeerStep::Ask(pid) => action == FocusAction::AxWindowIdsForPid(pid)
                        && next.phase is ProbingPeers && next.candidates == candidates@,
                    PeerStep::Choose(Some((id, pid))) => action
                        == FocusAction::FocusWindowWithKnownPid(id, pid) && next.phase
                        is LastAttempt,
                    PeerStep::Choose(None) => action is DesktopSnapshot && next.phase is Refreshing,
                }
            }
        }),
{
    assert(known_answers(none@) =~= Map::<u32, Set<u64>>::empty());
}

/// With no window left to try, the target is missing where the split view belongs to its process, and
/// is elsewhere focused whatever process it belongs to.
pub open spec fn gives_up(focus: FocusModel, next: FocusModel, action: FocusAction) -> bool {
    if focus.same_pid_split_view {
        action == FocusAction::Finish(
            Err(MacosNativeOperationError::MissingWindow(focus.target_window_id)),
        )
    } else {
        action == FocusAction::FocusWindow(focus.target_window_id) && next.phase is LastAttempt
    }
}

/// Each answer about the stand-ins is kept for the process that was asked about, and the stand-ins are
/// gone through again with it. Without any a fresh snapshot is asked for, and after that was seen the
/// focus gives up.
pub proof fn answers_about_stand_ins_are_kept(
    focus: FocusModel,
    desktop: NativeDesktopSnapshot,
    ids: Vec<u64>,
    pid: u32,
    error: MacosNativeOperationError,
)
    requires
        focus.phase is ProbingPeers || focus.phase is ProbingRefreshedPeers,
        peer_step(focus.candidates, focus.answers) == PeerStep::Ask(pid),
    ensures
        ({
            let (next, action) = focus.step(desktop, FocusReply::AxWindowIds(Ok(ids)));
            let answers = focus.answers.insert(pid, ids@.to_set());
            &&& next.answers == answers
            &&& next.candidates == focus.candidates
            &&& match peer_step(focus.candidates, answers) {
                PeerStep::Ask(other) => action == FocusAction::AxWindowIdsForPid(other)
                    && next.phase == focus.phase,
                PeerStep::Choose(Some((id, owner))) => action
                    == FocusAction::FocusWindowWithKnownPid(id, owner) && next.phase is LastAttempt,
                PeerStep::Choose(None) => if focus.phase is ProbingPeers {
                    action is DesktopSnapshot && next.phase is Refreshing
                } else {
                    gives_up(focus, next, action)
                },
            }
        }),
        focus.step(desktop, FocusReply::AxWindowIds(Err(error))).1 == FocusAction::Finish(
            Err(error),
        ),
{
}

/// A fresh snapshot is looked at from the former focus: the window that a step then leads to is focused
/// by its own process. Where that is the window that was missed, its stand-ins in the fresh snapshot are
/// gone through; where there is none, the focus gives up.
pub proof fn fresh_snapshots_are_seen_from_the_former_focus(
    focus: FocusModel,
    desktop: NativeDesktopSnapshot,
    refreshed: NativeDesktopSnapshot,
    focused: Result<&NativeWindowSnapshot, MacosNativeProbeError>,
    stepped: Option<u64>,
    window: Option<&NativeWindowSnapshot>,
    candidates: Vec<(u64, u32)>,
    none: HashMap<u32, HashSet<u64>>,
    peer: PeerStep,
    error: MacosNativeProbeError,
)
    requires
        focus.phase is Refreshing,
        call_ensures(resolved_focused_native_window, (&desktop,), focused),
        focused matches Ok(source) ==> call_ensures(
            split_view_same_space_focus_target_from_source,
            (&refreshed, source.id, focus.direction),
            stepped,
        ),
        stepped matches Some(id) ==> call_ensures(native_window, (&refreshed, id), window),
        (focused is Ok && stepped is Some) ==> call_ensures(
            split_view_peer_candidates,
            (&refreshed, focused->Ok_0.id, focus.direction, stepped->0),
            candidates,
        ),
        none@ == Map::<u32, HashSet<u64>>::empty(),
        call_ensures(focusable_same_app_split_view_peer, (&candidates, &none), peer),
    ensures
        focus.step(desktop, FocusReply::Snapshot(Err(error))).1 == FocusAction::Finish(
            Err(MacosNativeOperationError::Probe(error)),
        ),
        ({
            let (next, action) = focus.step(desktop, FocusReply::Snapshot(Ok(refreshed)));
            let pid = match window {
                Some(window) => window.pid,
                None => None,
            };
            if focused is Err || stepped is None {
                gives_up(focus, next, action)
            } else if stepped->0 == focus.target_window_id && pid == Some(focus.pid) {
                match peer {
                    PeerStep::Ask(pid) => action == FocusAction::AxWindowIdsForPid(pid)
                        && next.phase is ProbingRefreshedPeers && next.candidates == candidates@,
                    PeerStep::Choose(Some((id, pid))) => action
                        == FocusAction::FocusWindowWithKnownPid(id, pid) && next.phase
                        is LastAttempt,
                    PeerStep::Choose(None) => gives_up(focus, next, action),
                }
            } else {
                next.phase is LastAttempt && match pid {
                    Some(pid) => action == FocusAction::FocusWindowWithKnownPid(stepped->0, pid),
                    None => action == FocusAction::FocusWindow(stepped->0),
                }
            }
        }),
{
    assert(known_answers(none@) =~= Map::<u32, Set<u64>>::empty());
}

/// Every reply moves a focus change on by one step; the outcome of the last attempt is that of all, and
/// a reply to something that was not asked for ends the change with an error of its own.
pub proof fn replies_are_taken_in_step_by_step(
    focus: &mut SameSpaceFocus,
    desktop: NativeDesktopSnapshot,
    reply: FocusReply,
    action: FocusAction,
)
    requires
        call_ensures(SameSpaceFocus::advance, (focus, &desktop, reply), action),
    ensures
        (final(focus)@, action) == old(focus)@.step(desktop, reply),
        old(focus).phase is LastAttempt && reply is Focused ==> action == FocusAction::Finish(
            reply->Focused_0,
        ),
        match old(focus).phase {
            FocusPhase::Preflight | FocusPhase::ProbingPeers | FocusPhase::ProbingRefreshedPeers =>
                !(reply is AxWindowIds),
            FocusPhase::Focusing | FocusPhase::LastAttempt => !(reply is Focused),
            FocusPhase::Refreshing => !(reply is Snapshot),
            FocusPhase::Finished => true,
        } ==> action == FocusAction::Finish(
            Err(MacosNativeOperationError::CallFailed("same_space_focus_reply_out_of_turn")),
        ),
{
}

} // verus!
