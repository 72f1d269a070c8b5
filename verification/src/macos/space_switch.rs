//! Switching to another space.
//!
//! The switch is a dialogue: `SpaceSwitch` says what to do next, the caller does it and hands
//! back what came of it. Nothing here talks to the window server or reads a clock.
use crate::ids;
use crate::macos::snapshot;
use crate::macos::snapshot::{native_space, native_window};
use crate::macos::types::{
    MacosNativeOperationError, MacosNativeProbeError, NativeDesktopSnapshot, NativeDirection,
    NativeSpaceSnapshot, NativeWindowSnapshot, SpaceKind,
};
use crate::select;
use std::collections::HashSet;
use vstd::prelude::*;

verus! {

/// How many polls in a row must show the target before a lingering source window is ignored.
pub const SPACE_SWITCH_STABLE_TARGET_POLLS: usize = 3;

/// Which spaces are active on display `display_index`, other than `target_space_id`.
pub open spec fn active_sources(
    spaces: Seq<NativeSpaceSnapshot>,
    display_index: usize,
    target_space_id: u64,
) -> Seq<bool> {
    Seq::new(
        spaces.len(),
        |i: int|
            spaces[i].active && spaces[i].display_index == display_index && spaces[i].id
                != target_space_id,
    )
}

/// The space that a switch to `target_space_id` leaves: the active space of the same display.
pub open spec fn source_space(spaces: Seq<NativeSpaceSnapshot>, target_space_id: u64) -> Option<
    u64,
> {
    match snapshot::space_with_id(spaces, target_space_id) {
        Some(target) => match select::first_set(
            active_sources(spaces, target.display_index, target_space_id),
        ) {
            Some(at) => Some(spaces[at].id),
            None => None,
        },
        None => None,
    }
}

/// The space in which the window `window_id` lies.
pub open spec fn space_of_window(windows: Seq<NativeWindowSnapshot>, window_id: u64) -> Option<u64> {
    match snapshot::window_with_id(windows, window_id) {
        Some(window) => Some(window.space_id),
        None => None,
    }
}

/// The focused window, where it lies in the space that the switch leaves.
pub open spec fn source_focus(snapshot: NativeDesktopSnapshot, target_space_id: u64) -> Option<u64> {
    match snapshot.focused_window_id {
        Some(id) => if space_of_window(snapshot.windows@, id) == source_space(
            snapshot.spaces@,
            target_space_id,
        ) {
            Some(id)
        } else {
            None
        },
        None => None,
    }
}

/// The identifiers of the windows in space `space_id`.
pub open spec fn windows_in_space(windows: Seq<NativeWindowSnapshot>, space_id: u64) -> Set<u64> {
    Set::new(
        |id: u64|
            exists|i: int|
                0 <= i < windows.len() && (#[trigger] windows[i]).space_id == space_id
                    && windows[i].id == id,
    )
}

/// Finds the focused window that the switch leaves behind and the windows that it should show.
pub fn outer_space_transition_window_ids(
    snapshot: &NativeDesktopSnapshot,
    target_space_id: u64,
) -> (result: (Option<u64>, HashSet<u64>))
    ensures
        result.0 == source_focus(*snapshot, target_space_id),
        result.1@ == windows_in_space(snapshot.windows@, target_space_id),
{
    let source: Option<u64> = match native_space(snapshot, target_space_id) {
        Some(target) => active_source_space(
            &snapshot.spaces,
            target.display_index,
            target_space_id,
        ),
        None => None,
    };
    let focus: Option<u64> = match snapshot.focused_window_id {
        Some(id) => {
            let lies_in: Option<u64> = match native_window(snapshot, id) {
                Some(window) => Some(window.space_id),
                None => None,
            };
            if lies_in == source {
                Some(id)
            } else {
                None
            }
        },
        None => None,
    };
    (focus, window_ids_in_space(&snapshot.windows, target_space_id))
}

fn active_source_space(
    spaces: &Vec<NativeSpaceSnapshot>,
    display_index: usize,
    target_space_id: u64,
) -> (result: Option<u64>)
    ensures
        result == match select::first_set(
            active_sources(spaces@, display_index, target_space_id),
        ) {
            Some(at) => Some(spaces@[at].id),
            None => None,
        },
{
    let ghost flags = active_sources(spaces@, display_index, target_space_id);
    let mut at: usize = 0;
    while at < spaces.len()
        invariant
            at <= spaces.len(),
            flags == active_sources(spaces@, display_index, target_space_id),
            forall|i: int| 0 <= i < at ==> !#[trigger] flags[i],
        decreases spaces.len() - at,
    {
        let space: NativeSpaceSnapshot = spaces[at];
        if space.active && space.display_index == display_index && space.id != target_space_id {
            proof {
                select::lemma_first_set(flags, at as int);
            }
            return Some(space.id);
        }
        at += 1;
    }
    proof {
        select::lemma_none_set(flags);
    }
    None
}

fn window_ids_in_space(windows: &Vec<NativeWindowSnapshot>, space_id: u64) -> (result: HashSet<u64>)
    ensures
        result@ == windows_in_space(windows@, space_id),
{
    let mut result: HashSet<u64> = HashSet::new();
    let mut at: usize = 0;
    while at < windows.len()
        invariant
            at <= windows.len(),
            forall|id: u64|
                #[trigger] result@.contains(id) <==> exists|i: int|
                    0 <= i < at && (#[trigger] windows@[i]).space_id == space_id && windows@[i].id
                        == id,
        decreases windows.len() - at,
    {
        let ghost before = result@;
        if windows[at].space_id == space_id {
            result.insert(windows[at].id);
        }
        proof {
            let here = windows@[at as int];
            assert forall|id: u64| #[trigger] result@.contains(id) <==> exists|i: int|
                0 <= i < at + 1 && (#[trigger] windows@[i]).space_id == space_id && windows@[i].id
                    == id by {
                if before.contains(id) {
                    let i = choose|i: int|
                        0 <= i < at && (#[trigger] windows@[i]).space_id == space_id
                            && windows@[i].id == id;
                    assert(windows@[i].id == id);
                }
                if here.space_id == space_id && here.id == id {
                    assert(windows@[at as int].id == id);
                }
            }
        }
        at += 1;
    }
    assert(result@ =~= windows_in_space(windows@, space_id));
    result
}

/// What a switch is waiting for.
///
/// `exact_retry` says whether a failed wait may still be followed by an exact switch; `stable`
/// counts the polls in a row that showed the target.
#[derive(Clone, Copy, Debug, PartialEq, Eq)]
pub enum SwitchPhase {
    /// An exact switch was asked for.
    Switching,
    /// A switch to the neighbouring space was asked for.
    SwitchingAdjacent,
    /// The deadline is being set.
    Arming { exact_retry: bool },
    /// The active spaces were asked for.
    PollingActive { exact_retry: bool, stable: usize },
    /// The windows on screen were asked for.
    PollingOnscreen { exact_retry: bool, stable: usize, target_active: bool },
    /// The clock was asked whether the deadline has passed.
    CheckingDeadline { exact_retry: bool, stable: usize },
    /// A pause was asked for.
    Resting { exact_retry: bool, stable: usize },
    /// After a failed wait: is the target active after all?
    Rechecking { error: MacosNativeOperationError },
    /// After a failed wait: can the target's windows be trusted?
    Inspecting,
    /// Nothing is left to do.
    Finished,
}

/// What the caller is to do next.
#[derive(Clone, Copy, Debug, PartialEq, Eq)]
pub enum SwitchAction {
    /// Switch to this space directly.
    SwitchSpace(u64),
    /// Step to the neighbouring space in this direction, which should be this space.
    SwitchAdjacentSpace(NativeDirection, u64),
    /// Set the deadline for the switch to show.
    StartDeadline,
    /// Ask which spaces are active.
    ActiveSpaceIds,
    /// Ask which windows are on screen.
    OnscreenWindowIds,
    /// Ask whether the deadline has passed.
    CheckDeadline,
    /// Pause for one poll interval.
    Rest,
    /// The switch is over.
    Finish(Result<(), MacosNativeOperationError>),
}

/// What came of the last action.
#[derive(Debug)]
pub enum SwitchReply {
    /// A switch was carried out, or failed.
    Switched(Result<(), MacosNativeOperationError>),
    /// The deadline is set, or the pause is over.
    Continue,
    /// Identifiers of active spaces or of windows on screen.
    Ids(Result<HashSet<u64>, MacosNativeProbeError>),
    /// Whether the deadline has passed.
    DeadlinePassed(bool),
}

/// A switch in progress.
#[derive(Debug)]
pub struct SpaceSwitch {
    pub space_id: u64,
    pub source_focus: Option<u64>,
    pub target_window_ids: HashSet<u64>,
    pub phase: SwitchPhase,
}

/// The mathematical state of a switch.
pub struct SwitchModel {
    pub space_id: u64,
    pub source_focus: Option<u64>,
    pub target_window_ids: Set<u64>,
    pub phase: SwitchPhase,
}

impl View for SpaceSwitch {
    type V = SwitchModel;

    open spec fn view(&self) -> SwitchModel {
        SwitchModel {
            space_id: self.space_id,
            source_focus: self.source_focus,
            target_window_ids: self.target_window_ids@,
            phase: self.phase,
        }
    }
}

/// `reply` answers what the switch in `phase` asked for.
pub open spec fn reply_fits(phase: SwitchPhase, reply: SwitchReply) -> bool {
    match phase {
        SwitchPhase::Switching | SwitchPhase::SwitchingAdjacent => reply is Switched,
        SwitchPhase::Arming { .. } | SwitchPhase::Resting { .. } => reply is Continue,
        SwitchPhase::PollingActive { .. } | SwitchPhase::PollingOnscreen { .. }
        | SwitchPhase::Rechecking { .. } | SwitchPhase::Inspecting => reply is Ids,
        SwitchPhase::CheckingDeadline { .. } => reply is DeadlinePassed,
        SwitchPhase::Finished => false,
    }
}

/// The count of polls in a row that showed the target stays below the limit while polling goes on.
pub open spec fn phase_ok(phase: SwitchPhase) -> bool {
    match phase {
        SwitchPhase::PollingActive { stable, .. } | SwitchPhase::PollingOnscreen { stable, .. }
        | SwitchPhase::CheckingDeadline { stable, .. } | SwitchPhase::Resting { stable, .. } =>
            stable < SPACE_SWITCH_STABLE_TARGET_POLLS,
        _ => true,
    }
}

impl SwitchModel {
    /// The same switch in another phase.
    pub open spec fn at(self, phase: SwitchPhase) -> SwitchModel {
        SwitchModel { phase, ..self }
    }

    /// Some window of the target is on screen; a target without windows counts as visible.
    pub open spec fn target_visible(self, onscreen: Set<u64>) -> bool {
        self.target_window_ids == Set::<u64>::empty() || !self.target_window_ids.disjoint(onscreen)
    }

    /// The window that had the focus is no longer on screen.
    pub open spec fn source_hidden(self, onscreen: Set<u64>) -> bool {
        self.source_focus matches Some(id) ==> !onscreen.contains(id)
    }

    /// How many polls in a row show the target, counting this one.
    pub open spec fn polls_in_a_row(self, stable: usize, target_active: bool, onscreen: Set<u64>) -> int {
        if target_active && self.target_visible(onscreen) {
            stable + 1
        } else {
            0
        }
    }

    /// This poll shows that the switch has settled.
    pub open spec fn settled(self, stable: usize, target_active: bool, onscreen: Set<u64>) -> bool {
        &&& target_active
        &&& self.target_visible(onscreen)
        &&& self.source_hidden(onscreen) || self.polls_in_a_row(stable, target_active, onscreen)
            >= SPACE_SWITCH_STABLE_TARGET_POLLS
    }

    /// The switch ends with `result`.
    pub open spec fn finish(self, result: Result<(), MacosNativeOperationError>) -> (
        SwitchModel,
        SwitchAction,
    ) {
        (self.at(SwitchPhase::Finished), SwitchAction::Finish(result))
    }

    /// The wait for the target has failed: the switch ends with that error, unless an exact
    /// switch may still be tried, for which it is asked first whether the target is active.
    pub open spec fn wait_failed(
        self,
        exact_retry: bool,
        error: MacosNativeOperationError,
    ) -> (SwitchModel, SwitchAction) {
        if exact_retry {
            (self.at(SwitchPhase::Rechecking { error }), SwitchAction::ActiveSpaceIds)
        } else {
            self.finish(Err(error))
        }
    }

    /// What follows when `reply` comes in.
    pub open spec fn step(self, reply: SwitchReply) -> (SwitchModel, SwitchAction) {
        match (self.phase, reply) {
            (SwitchPhase::Switching, SwitchReply::Switched(Ok(_))) => (
                self.at(SwitchPhase::Arming { exact_retry: false }),
                SwitchAction::StartDeadline,
            ),
            (SwitchPhase::SwitchingAdjacent, SwitchReply::Switched(Ok(_))) => (
                self.at(SwitchPhase::Arming { exact_retry: true }),
                SwitchAction::StartDeadline,
            ),
            (
                SwitchPhase::Switching | SwitchPhase::SwitchingAdjacent,
                SwitchReply::Switched(Err(error)),
            ) => self.finish(Err(error)),
            (SwitchPhase::Arming { exact_retry }, SwitchReply::Continue) => (
                self.at(SwitchPhase::PollingActive { exact_retry, stable: 0 }),
                SwitchAction::ActiveSpaceIds,
            ),
            (SwitchPhase::Resting { exact_retry, stable }, SwitchReply::Continue) => (
                self.at(SwitchPhase::PollingActive { exact_retry, stable }),
                SwitchAction::ActiveSpaceIds,
            ),
            (
                SwitchPhase::PollingActive { exact_retry, stable },
                SwitchReply::Ids(Ok(active)),
            ) => (
                self.at(
                    SwitchPhase::PollingOnscreen {
                        exact_retry,
                        stable,
                        target_active: active@.contains(self.space_id),
                    },
                ),
                SwitchAction::OnscreenWindowIds,
            ),
            (SwitchPhase::PollingActive { exact_retry, .. }, SwitchReply::Ids(Err(error))) =>
                self.wait_failed(exact_retry, MacosNativeOperationError::Probe(error)),
            (
                SwitchPhase::PollingOnscreen { exact_retry, stable, target_active },
                SwitchReply::Ids(Ok(onscreen)),
            ) => if self.settled(stable, target_active, onscreen@) {
                self.finish(Ok(()))
            } else {
                (
                    self.at(
                        SwitchPhase::CheckingDeadline {
                            exact_retry,
                            stable: self.polls_in_a_row(stable, target_active, onscreen@) as usize,
                        },
                    ),
                    SwitchAction::CheckDeadline,
                )
            },
            (SwitchPhase::PollingOnscreen { exact_retry, .. }, SwitchReply::Ids(Err(error))) =>
                self.wait_failed(exact_retry, MacosNativeOperationError::Probe(error)),
            (
                SwitchPhase::CheckingDeadline { exact_retry, stable },
                SwitchReply::DeadlinePassed(passed),
            ) => if passed {
                self.wait_failed(
                    exact_retry,
                    MacosNativeOperationError::CallFailed("wait_for_active_space"),
                )
            } else {
                (self.at(SwitchPhase::Resting { exact_retry, stable }), SwitchAction::Rest)
            },
            (SwitchPhase::Rechecking { error }, SwitchReply::Ids(active)) => if active matches Ok(
                active,
            ) && active@.contains(self.space_id) {
                self.finish(Err(error))
            } else {
                (self.at(SwitchPhase::Inspecting), SwitchAction::OnscreenWindowIds)
            },
            (SwitchPhase::Inspecting, SwitchReply::Ids(onscreen)) => (
                SwitchModel {
                    target_window_ids: if onscreen matches Ok(onscreen)
                        && !self.target_window_ids.disjoint(onscreen@) {
                        Set::empty()
                    } else {
                        self.target_window_ids
                    },
                    phase: SwitchPhase::Switching,
                    ..self
                },
                SwitchAction::SwitchSpace(self.space_id),
            ),
            _ => self.finish(
                Err(MacosNativeOperationError::CallFailed("space_switch_reply_out_of_turn")),
            ),
        }
    }
}

/// What a switch to `space_id` starts with.
pub enum SwitchStart {
    /// There is nothing to switch.
    Over(Result<(), MacosNativeOperationError>),
    /// The switch begins in this state with this action.
    Begun(SwitchModel, SwitchAction),
}

/// How a switch to `space_id` starts, seen from `snapshot`.
///
/// Unknown spaces and spaces of Stage Manager are refused, and an active space needs no switch.
/// A neighbouring space is reached by a step in its direction, unless it shows no window: such a
/// step could pass it by.
pub open spec fn switch_start(
    snapshot: NativeDesktopSnapshot,
    space_id: u64,
    adjacent_direction: Option<NativeDirection>,
) -> SwitchStart {
    match snapshot::space_with_id(snapshot.spaces@, space_id) {
        None => SwitchStart::Over(Err(MacosNativeOperationError::MissingSpace(space_id))),
        Some(space) => if space.kind == SpaceKind::StageManagerOpaque {
            SwitchStart::Over(
                Err(MacosNativeOperationError::UnsupportedStageManagerSpace(space_id)),
            )
        } else if snapshot.active_space_ids@.contains(space_id) {
            SwitchStart::Over(Ok(()))
        } else {
            let targets = windows_in_space(snapshot.windows@, space_id);
            let adjacent = adjacent_direction is Some && targets != Set::<u64>::empty();
            SwitchStart::Begun(
                SwitchModel {
                    space_id,
                    source_focus: source_focus(snapshot, space_id),
                    target_window_ids: targets,
                    phase: if adjacent {
                        SwitchPhase::SwitchingAdjacent
                    } else {
                        SwitchPhase::Switching
                    },
                },
                if adjacent {
                    SwitchAction::SwitchAdjacentSpace(adjacent_direction->0, space_id)
                } else {
                    SwitchAction::SwitchSpace(space_id)
                },
            )
        },
    }
}

/// Starts a switch to `space_id`. With no switch to make, the result comes at once.
pub fn switch_space_in_snapshot(
    snapshot: &NativeDesktopSnapshot,
    space_id: u64,
    adjacent_direction: Option<NativeDirection>,
) -> (result: Result<Option<(SpaceSwitch, SwitchAction)>, MacosNativeOperationError>)
    ensures
        switch_start(*snapshot, space_id, adjacent_direction) == match result {
            Ok(Some((switch, action))) => SwitchStart::Begun(switch@, action),
            Ok(None) => SwitchStart::Over(Ok(())),
            Err(error) => SwitchStart::Over(Err(error)),
        },
        result matches Ok(Some((switch, _))) ==> phase_ok(switch.phase),
{
    let Some(target_space) = native_space(snapshot, space_id) else {
        return Err(MacosNativeOperationError::MissingSpace(space_id));
    };
    if target_space.kind == SpaceKind::StageManagerOpaque {
        return Err(MacosNativeOperationError::UnsupportedStageManagerSpace(space_id));
    }
    if snapshot.active_space_ids.contains(&space_id) {
        return Ok(None);
    }
    let (focus, targets) = outer_space_transition_window_ids(snapshot, space_id);
    let empty: bool = targets.is_empty();
    match adjacent_direction {
        Some(direction) if !empty => Ok(
            Some(
                (
                    SpaceSwitch {
                        space_id,
                        source_focus: focus,
                        target_window_ids: targets,
                        phase: SwitchPhase::SwitchingAdjacent,
                    },
                    SwitchAction::SwitchAdjacentSpace(direction, space_id),
                ),
            ),
        ),
        _ => Ok(
            Some(
                (
                    SpaceSwitch {
                        space_id,
                        source_focus: focus,
                        target_window_ids: targets,
                        phase: SwitchPhase::Switching,
                    },
                    SwitchAction::SwitchSpace(space_id),
                ),
            ),
        ),
    }
}

impl SpaceSwitch {
    /// Takes in what came of the last action and says what to do next. A reply to something that
    /// was not asked for ends the switch with an error.
    pub fn advance(&mut self, reply: SwitchReply) -> (action: SwitchAction)
        requires
            phase_ok(old(self).phase),
        ensures
            (final(self)@, action) == old(self)@.step(reply),
            phase_ok(final(self).phase),
    {
        match (self.phase, reply) {
            (SwitchPhase::Switching, SwitchReply::Switched(Ok(_))) => {
                self.phase = SwitchPhase::Arming { exact_retry: false };
                SwitchAction::StartDeadline
            },
            (SwitchPhase::SwitchingAdjacent, SwitchReply::Switched(Ok(_))) => {
                self.phase = SwitchPhase::Arming { exact_retry: true };
                SwitchAction::StartDeadline
            },
            (
                SwitchPhase::Switching | SwitchPhase::SwitchingAdjacent,
                SwitchReply::Switched(Err(error)),
            ) => self.finish(Err(error)),
            (SwitchPhase::Arming { exact_retry }, SwitchReply::Continue) => {
                self.phase = SwitchPhase::PollingActive { exact_retry, stable: 0 };
                SwitchAction::ActiveSpaceIds
            },
            (SwitchPhase::Resting { exact_retry, stable }, SwitchReply::Continue) => {
                self.phase = SwitchPhase::PollingActive { exact_retry, stable };
                SwitchAction::ActiveSpaceIds
            },
            (
                SwitchPhase::PollingActive { exact_retry, stable },
                SwitchReply::Ids(Ok(active)),
            ) => {
                let target_active: bool = active.contains(&self.space_id);
                self.phase = SwitchPhase::PollingOnscreen { exact_retry, stable, target_active };
                SwitchAction::OnscreenWindowIds
            },
            (SwitchPhase::PollingActive { exact_retry, .. }, SwitchReply::Ids(Err(error))) =>
                self.wait_failed(exact_retry, MacosNativeOperationError::Probe(error)),
            (
                SwitchPhase::PollingOnscreen { exact_retry, stable, target_active },
                SwitchReply::Ids(Ok(onscreen)),
            ) => self.poll(exact_retry, stable, target_active, &onscreen),
            (SwitchPhase::PollingOnscreen { exact_retry, .. }, SwitchReply::Ids(Err(error))) =>
                self.wait_failed(exact_retry, MacosNativeOperationError::Probe(error)),
            (
                SwitchPhase::CheckingDeadline { exact_retry, stable },
                SwitchReply::DeadlinePassed(passed),
            ) => if passed {
                self.wait_failed(
                    exact_retry,
                    MacosNativeOperationError::CallFailed("wait_for_active_space"),
                )
            } else {
                self.phase = SwitchPhase::Resting { exact_retry, stable };
                SwitchAction::Rest
            },
            (SwitchPhase::Rechecking { error }, SwitchReply::Ids(active)) => {
                let target_active: bool = match active {
                    Ok(active) => active.contains(&self.space_id),
                    Err(_) => false,
                };
                if target_active {
                    self.finish(Err(error))
                } else {
                    self.phase = SwitchPhase::Inspecting;
                    SwitchAction::OnscreenWindowIds
                }
            },
            (SwitchPhase::Inspecting, SwitchReply::Ids(onscreen)) => {
                if let Ok(onscreen) = onscreen {
                    if !ids::are_disjoint(&self.target_window_ids, &onscreen) {
                        self.target_window_ids = HashSet::new();
                    }
                }
                self.phase = SwitchPhase::Switching;
                SwitchAction::SwitchSpace(self.space_id)
            },
            _ => self.finish(
                Err(MacosNativeOperationError::CallFailed("space_switch_reply_out_of_turn")),
            ),
        }
    }

    fn finish(&mut self, result: Result<(), MacosNativeOperationError>) -> (action: SwitchAction)
        ensures
            (final(self)@, action) == old(self)@.finish(result),
    {
        self.phase = SwitchPhase::Finished;
        SwitchAction::Finish(result)
    }

    fn wait_failed(&mut self, exact_retry: bool, error: MacosNativeOperationError) -> (action:
        SwitchAction)
        ensures
            (final(self)@, action) == old(self)@.wait_failed(exact_retry, error),
    {
        if exact_retry {
            self.phase = SwitchPhase::Rechecking { error };
            SwitchAction::ActiveSpaceIds
        } else {
            self.finish(Err(error))
        }
    }

    fn poll(
        &mut self,
        exact_retry: bool,
        stable: usize,
        target_active: bool,
        onscreen: &HashSet<u64>,
    ) -> (action: SwitchAction)
        requires
            stable < SPACE_SWITCH_STABLE_TARGET_POLLS,
        ensures
            (final(self)@, action) == if old(self)@.settled(stable, target_active, onscreen@) {
                old(self)@.finish(Ok(()))
            } else {
                (
                    old(self)@.at(
                        SwitchPhase::CheckingDeadline {
                            exact_retry,
                            stable: old(self)@.polls_in_a_row(
                                stable,
                                target_active,
                                onscreen@,
                            ) as usize,
                        },
                    ),
                    SwitchAction::CheckDeadline,
                )
            },
            phase_ok(final(self).phase),
    {
        let target_visible: bool = self.target_window_ids.is_empty() || !ids::are_disjoint(
            &self.target_window_ids,
            onscreen,
        );
        let source_hidden: bool = match self.source_focus {
            Some(id) => !onscreen.contains(&id),
            None => true,
        };
        let in_a_row: usize = if target_active && target_visible {
            stable + 1
        } else {
            0
        };
        if target_active && target_visible && (source_hidden || in_a_row
            >= SPACE_SWITCH_STABLE_TARGET_POLLS) {
            self.finish(Ok(()))
        } else {
            self.phase = SwitchPhase::CheckingDeadline { exact_retry, stable: in_a_row };
            SwitchAction::CheckDeadline
        }
    }
}

/// A space of Stage Manager is never switched to, whatever else the snapshot says.
pub proof fn stage_manager_spaces_are_refused(
    snapshot: NativeDesktopSnapshot,
    space_id: u64,
    adjacent_direction: Option<NativeDirection>,
)
    requires
        snapshot::space_with_id(snapshot.spaces@, space_id) matches Some(space) && space.kind
            == SpaceKind::StageManagerOpaque,
    ensures
        switch_start(snapshot, space_id, adjacent_direction) == SwitchStart::Over(
            Err(MacosNativeOperationError::UnsupportedStageManagerSpace(space_id)),
        ),
{
}

/// A neighbouring space that shows no window is switched to directly, never by a step towards it.
pub proof fn empty_neighbors_are_switched_to_directly(
    snapshot: NativeDesktopSnapshot,
    space_id: u64,
    adjacent_direction: Option<NativeDirection>,
)
    requires
        windows_in_space(snapshot.windows@, space_id) == Set::<u64>::empty(),
    ensures
        switch_start(snapshot, space_id, adjacent_direction) matches SwitchStart::Begun(_, action)
            ==> action == SwitchAction::SwitchSpace(space_id),
{
}

/// A switch reports success only on a poll that shows its target active and visible, with the
/// former focus gone or the target seen in enough polls in a row.
pub proof fn success_means_the_target_is_shown(switch: SwitchModel, reply: SwitchReply)
    requires
        switch.step(reply).1 == SwitchAction::Finish(Ok(())),
    ensures
        switch.phase is PollingOnscreen,
        switch.phase->PollingOnscreen_target_active,
        reply matches SwitchReply::Ids(Ok(onscreen)) && switch.target_visible(onscreen@) && (
        switch.source_hidden(onscreen@) || switch.phase->PollingOnscreen_stable + 1
            >= SPACE_SWITCH_STABLE_TARGET_POLLS),
{
}

/// An exact switch is tried again only after a step to the neighbouring space, and only while the
/// target is not known to be active.
pub proof fn exact_retry_needs_an_inactive_target(switch: SwitchModel, reply: SwitchReply)
    requires
        switch.step(reply).0.phase is Inspecting,
    ensures
        switch.phase is Rechecking,
        reply matches SwitchReply::Ids(Ok(active)) ==> !active@.contains(switch.space_id),
{
}

/// Once an exact switch has been asked for, no second one follows: a wait that fails then ends
/// the switch.
pub proof fn exact_switch_is_not_repeated(switch: SwitchModel, reply: SwitchReply)
    requires
        switch.phase is Switching || switch.phase matches SwitchPhase::Arming { exact_retry: false }
            || switch.phase matches SwitchPhase::PollingActive { exact_retry: false, .. }
            || switch.phase matches SwitchPhase::PollingOnscreen { exact_retry: false, .. }
            || switch.phase matches SwitchPhase::CheckingDeadline { exact_retry: false, .. }
            || switch.phase matches SwitchPhase::Resting { exact_retry: false, .. },
    ensures
        !(switch.step(reply).1 is SwitchSpace),
        !(switch.step(reply).1 is SwitchAdjacentSpace),
        !(switch.step(reply).0.phase is Rechecking),
        !(switch.step(reply).0.phase is Inspecting),
{
}

/// A reply to something that was not asked for ends a switch with an error of its own.
pub proof fn replies_out_of_turn_end_the_switch(switch: SwitchModel, reply: SwitchReply)
    requires
        !reply_fits(switch.phase, reply),
    ensures
        switch.step(reply) == switch.finish(
            Err(MacosNativeOperationError::CallFailed("space_switch_reply_out_of_turn")),
        ),
{
}

/// No step of a switch changes which space it is for.
pub proof fn switch_keeps_its_target(switch: SwitchModel, reply: SwitchReply)
    ensures
        switch.step(reply).0.space_id == switch.space_id,
        switch.step(reply).0.source_focus == switch.source_focus,
        switch.step(reply).1 matches SwitchAction::SwitchSpace(id) ==> id == switch.space_id,
{
}

/// A switch leaves the focused window behind only where that lies in the first other active space of
/// the display on which the target is shown or, if there is no such space, in none. The windows to be
/// shown are all those of the target, and no others.
pub proof fn transitions_name_what_is_left_and_what_is_shown(
    desktop: NativeDesktopSnapshot,
    target_space_id: u64,
    target: Option<NativeSpaceSnapshot>,
    window: Option<&NativeWindowSnapshot>,
    result: (Option<u64>, HashSet<u64>),
    id: u64,
)
    requires
        call_ensures(outer_space_transition_window_ids, (&desktop, target_space_id), result),
        call_ensures(snapshot::native_space, (&desktop, target_space_id), target),
        desktop.focused_window_id matches Some(id) ==> call_ensures(
            snapshot::native_window,
            (&desktop, id),
            window,
        ),
    ensures
        result.1@.contains(id) <==> exists|i: int|
            0 <= i < desktop.windows@.len() && (#[trigger] desktop.windows@[i]).space_id
                == target_space_id && desktop.windows@[i].id == id,
        result.0 is Some ==> result.0 == desktop.focused_window_id,
        desktop.focused_window_id is Some && target is None ==> (result.0 is Some <==> window
            is None),
        desktop.focused_window_id is Some && target is Some && window is Some ==> (result.0 is Some
            <==> exists|at: int|
            #![trigger desktop.spaces@[at]]
            {
                let leaves = |space: NativeSpaceSnapshot|
                    space.active && space.display_index == target->0.display_index && space.id
                        != target_space_id;
                &&& 0 <= at < desktop.spaces@.len()
                &&& leaves(desktop.spaces@[at])
                &&& desktop.spaces@[at].id == window->0.space_id
                &&& forall|i: int| 0 <= i < at ==> !leaves(#[trigger] desktop.spaces@[i])
            }),
{
    if desktop.focused_window_id is Some && target is Some && window is Some {
        let spaces = desktop.spaces@;
        let flags = active_sources(spaces, target->0.display_index, target_space_id);
        let leaves = |space: NativeSpaceSnapshot|
            space.active && space.display_index == target->0.display_index && space.id
                != target_space_id;
        select::first_set_finds_the_first(flags);
        assert forall|i: int| 0 <= i < spaces.len() implies flags[i] == leaves(
            #[trigger] spaces[i],
        ) by {}
        if let Some(at) = select::first_set(flags) {
            assert(leaves(spaces[at]));
            assert forall|i: int| 0 <= i < at implies !leaves(#[trigger] spaces[i]) by {
                assert(!flags[i]);
            }
            assert(result.0 is Some <==> spaces[at].id == window->0.space_id);
        }
        if result.0 is None && exists|at: int|
            0 <= at < spaces.len() && leaves(#[trigger] spaces[at]) && spaces[at].id
                == window->0.space_id && forall|i: int|
                0 <= i < at ==> !leaves(#[trigger] spaces[i]) {
            let at = choose|at: int|
                0 <= at < spaces.len() && leaves(#[trigger] spaces[at]) && spaces[at].id
                    == window->0.space_id && forall|i: int|
                    0 <= i < at ==> !leaves(#[trigger] spaces[i]);
            assert(flags[at]);
            assert(select::is_first_set(flags, at));
            select::lemma_first_set(flags, at);
        }
    }
}

/// A switch starts only towards a known space outside Stage Manager that is not active yet: by a step
/// in the given direction if the target shows windows, and directly otherwise.
pub proof fn switches_start_towards_their_target(
    desktop: NativeDesktopSnapshot,
    space_id: u64,
    adjacent: Option<NativeDirection>,
    target: Option<NativeSpaceSnapshot>,
    transition: (Option<u64>, HashSet<u64>),
    result: Result<Option<(SpaceSwitch, SwitchAction)>, MacosNativeOperationError>,
    shown: u64,
)
    requires
        call_ensures(snapshot::native_space, (&desktop, space_id), target),
        call_ensures(outer_space_transition_window_ids, (&desktop, space_id), transition),
        call_ensures(switch_space_in_snapshot, (&desktop, space_id, adjacent), result),
    ensures
        target is None <==> result == Err::<Option<(SpaceSwitch, SwitchAction)>, _>(
            MacosNativeOperationError::MissingSpace(space_id),
        ),
        target is Some && target->0.kind is StageManagerOpaque <==> result == Err::<
            Option<(SpaceSwitch, SwitchAction)>,
            _,
        >(MacosNativeOperationError::UnsupportedStageManagerSpace(space_id)),
        target is Some && !(target->0.kind is StageManagerOpaque) ==> {
            &&& result is Ok
            &&& desktop.active_space_ids@.contains(space_id) <==> result->Ok_0 is None
            &&& result->Ok_0 matches Some((switch, action)) ==> {
                &&& switch.space_id == space_id
                &&& switch.source_focus == transition.0
                &&& switch.target_window_ids@ == transition.1@
                &&& switch.phase is Switching <==> action == SwitchAction::SwitchSpace(space_id)
                &&& switch.phase is SwitchingAdjacent <==> adjacent is Some && action
                    == SwitchAction::SwitchAdjacentSpace(adjacent->0, space_id)
                &&& switch.phase is Switching || switch.phase is SwitchingAdjacent
                &&& adjacent is None ==> switch.phase is Switching
                &&& adjacent is Some && transition.1@.contains(shown) ==> switch.phase
                    is SwitchingAdjacent
                &&& (forall|i: int|
                    0 <= i < desktop.windows@.len() ==> (#[trigger] desktop.windows@[i]).space_id
                        != space_id) ==> switch.phase is Switching
            }
        },
{
    let targets = windows_in_space(desktop.windows@, space_id);
    if forall|i: int|
        0 <= i < desktop.windows@.len() ==> (#[trigger] desktop.windows@[i]).space_id != space_id {
        assert(targets =~= Set::<u64>::empty());
    }
    if transition.1@.contains(shown) {
        assert(targets.contains(shown));
    }
}

/// A switch that was carried out is waited for, and only after a step may an exact switch follow; one
/// that failed is over. The wait polls which spaces are active, and then what is on screen.
pub proof fn switches_are_waited_for(
    switch: SwitchModel,
    error: MacosNativeOperationError,
    active: HashSet<u64>,
)
    ensures
        switch.phase is Switching ==> switch.step(SwitchReply::Switched(Ok(()))).1 is StartDeadline
            && switch.step(SwitchReply::Switched(Ok(()))).0.phase == (SwitchPhase::Arming {
            exact_retry: false,
        }),
        switch.phase is SwitchingAdjacent ==> switch.step(SwitchReply::Switched(Ok(()))).1
            is StartDeadline && switch.step(SwitchReply::Switched(Ok(()))).0.phase == (
        SwitchPhase::Arming { exact_retry: true }),
        switch.phase is Switching || switch.phase is SwitchingAdjacent ==> switch.step(
            SwitchReply::Switched(Err(error)),
        ).1 == SwitchAction::Finish(Err(error)),
        switch.phase matches SwitchPhase::Arming { exact_retry } ==> switch.step(
            SwitchReply::Continue,
        ).1 is ActiveSpaceIds && switch.step(SwitchReply::Continue).0.phase == (
        SwitchPhase::PollingActive { exact_retry, stable: 0 }),
        switch.phase matches SwitchPhase::Resting { exact_retry, stable } ==> switch.step(
            SwitchReply::Continue,
        ).1 is ActiveSpaceIds && switch.step(SwitchReply::Continue).0.phase == (
        SwitchPhase::PollingActive { exact_retry, stable }),
        switch.phase matches SwitchPhase::PollingActive { exact_retry, stable } ==> {
            let (next, action) = switch.step(SwitchReply::Ids(Ok(active)));
            &&& action is OnscreenWindowIds
            &&& next.phase matches SwitchPhase::PollingOnscreen {
                exact_retry: retry,
                stable: polls,
                target_active,
            }
            &&& retry == exact_retry
            &&& polls == stable
            &&& target_active <==> active@.contains(switch.space_id)
        },
{
}

/// A poll ends the switch well exactly if the target is active and one of its windows is on screen,
/// or it has none, and if the window that had the focus is off screen or this is the third such poll
/// in a row. Any other poll asks for the time, and one that does not show the target starts the count
/// anew.
pub proof fn polls_end_the_switch_once_the_target_is_shown(
    switch: SwitchModel,
    onscreen: HashSet<u64>,
)
    requires
        switch.phase is PollingOnscreen,
        phase_ok(switch.phase),
    ensures
        ({
            let (next, action) = switch.step(SwitchReply::Ids(Ok(onscreen)));
            let shown = switch.phase->PollingOnscreen_target_active && ((forall|id: u64|
                !#[trigger] switch.target_window_ids.contains(id)) || exists|id: u64|
                #[trigger] switch.target_window_ids.contains(id) && onscreen@.contains(id));
            let gone = switch.source_focus is None || !onscreen@.contains(switch.source_focus->0);
            let before = switch.phase->PollingOnscreen_stable;
            &&& action == SwitchAction::Finish(Ok(())) <==> shown && (gone || before == 2)
            &&& !(shown && (gone || before == 2)) ==> {
                &&& action is CheckDeadline
                &&& next.phase matches SwitchPhase::CheckingDeadline { exact_retry, stable }
                &&& exact_retry == switch.phase->PollingOnscreen_exact_retry
                &&& shown ==> stable == before + 1
                &&& !shown ==> stable == 0
            }
        }),
{
    let targets = switch.target_window_ids;
    if targets == Set::<u64>::empty() {
        assert(forall|id: u64| !#[trigger] targets.contains(id));
    } else {
        assert(!(targets =~= Set::<u64>::empty()));
        let member = choose|id: u64| targets.contains(id);
        assert(targets.contains(member));
    }
    if !targets.disjoint(onscreen@) {
        let id = choose|id: u64| targets.contains(id) && onscreen@.contains(id);
        assert(targets.contains(id) && onscreen@.contains(id));
    }
}

/// A wait goes on, after a rest, until the time is up. A failed wait ends a switch that was exact; after
/// a step it is asked once more which spaces are active.
pub proof fn failed_waits_are_followed_up_after_a_step(
    switch: SwitchModel,
    error: MacosNativeProbeError,
    exact_retry: bool,
)
    requires
        match switch.phase {
            SwitchPhase::PollingActive { exact_retry: retry, .. } => retry == exact_retry,
            SwitchPhase::PollingOnscreen { exact_retry: retry, .. } => retry == exact_retry,
            SwitchPhase::CheckingDeadline { exact_retry: retry, .. } => retry == exact_retry,
            _ => false,
        },
    ensures
        ({
            let (reply, failure) = if switch.phase is CheckingDeadline {
                (
                    SwitchReply::DeadlinePassed(true),
                    MacosNativeOperationError::CallFailed("wait_for_active_space"),
                )
            } else {
                (SwitchReply::Ids(Err(error)), MacosNativeOperationError::Probe(error))
            };
            let (next, action) = switch.step(reply);
            &&& exact_retry ==> action is ActiveSpaceIds && next.phase == (SwitchPhase::Rechecking {
                error: failure,
            })
            &&& !exact_retry ==> action == SwitchAction::Finish(Err(failure))
        }),
        switch.phase matches SwitchPhase::CheckingDeadline { stable, .. } ==> switch.step(
            SwitchReply::DeadlinePassed(false),
        ).1 is Rest && switch.step(SwitchReply::DeadlinePassed(false)).0.phase == (
        SwitchPhase::Resting { exact_retry, stable }),
{
}

/// If the target turns out to be active after a failed wait, that failure is the result. Otherwise an
/// exact switch to it is made; windows of the target that were on screen all along are then no sign of
/// its being shown.
pub proof fn exact_switches_follow_failed_steps(
    switch: SwitchModel,
    ids: Result<HashSet<u64>, MacosNativeProbeError>,
)
    ensures
        switch.phase matches SwitchPhase::Rechecking { error } ==> {
            let (next, action) = switch.step(SwitchReply::Ids(ids));
            if ids is Ok && ids->Ok_0@.contains(switch.space_id) {
                action == SwitchAction::Finish(Err(error))
            } else {
                action is OnscreenWindowIds && next.phase is Inspecting && next.target_window_ids
                    == switch.target_window_ids
            }
        },
        switch.phase is Inspecting ==> {
            let (next, action) = switch.step(SwitchReply::Ids(ids));
            &&& action == SwitchAction::SwitchSpace(switch.space_id)
            &&& next.phase is Switching
            &&& if ids is Ok && exists|id: u64|
                #[trigger] switch.target_window_ids.contains(id) && ids->Ok_0@.contains(id) {
                next.target_window_ids == Set::<u64>::empty()
            } else {
                next.target_window_ids == switch.target_window_ids
            }
        },
{
    if ids is Ok && !switch.target_window_ids.disjoint(ids->Ok_0@) {
        let id = choose|id: u64|
            switch.target_window_ids.contains(id) && ids->Ok_0@.contains(id);
        assert(switch.target_window_ids.contains(id));
    }
}

/// Every reply moves a switch on by one step.
pub proof fn replies_are_taken_in_step_by_step(
    switch: &mut SpaceSwitch,
    reply: SwitchReply,
    action: SwitchAction,
)
    requires
        phase_ok(old(switch).phase),
        call_ensures(SpaceSwitch::advance, (switch, reply), action),
    ensures
        (final(switch)@, action) == old(switch)@.step(reply),
        final(switch).space_id == old(switch).space_id,
        final(switch).source_focus == old(switch).source_focus,
        action matches SwitchAction::SwitchSpace(id) ==> id == old(switch).space_id,
{
}

} // verus!
