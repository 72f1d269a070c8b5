//! Bringing a window to the front.
//!
//! Accessibility learns of windows late, so raising a window is repeated until a deadline, and a
//! raise that still misses is checked against the window that has the focus by then.
use crate::ids;
use crate::macos::snapshot;
use crate::macos::snapshot::{active_space_ax_backed_same_pid_target, active_space_remap_place};
use crate::macos::types::{
    ActiveSpaceFocusTargetHint, MacosNativeOperationError, MacosNativeProbeError, NativeBounds,
    NativeDesktopSnapshot,
};
use crate::select;
use std::collections::HashSet;
use vstd::prelude::*;

verus! {

/// The window server's name for a process.
#[derive(Clone, Copy, Debug, PartialEq, Eq, Structural)]
pub struct ProcessSerialNumber {
    pub high_long_of_psn: u32,
    pub low_long_of_psn: u32,
}

/// What raising a window is waiting for.
#[derive(Clone, Copy, Debug, PartialEq, Eq, Structural)]
pub enum RaisePhase {
    /// The owner of the window was asked for.
    FindingPid,
    /// The serial number of the owner was asked for.
    FindingProcess { pid: u32 },
    /// The owner is being brought to the front.
    Fronting { pid: u32, process: ProcessSerialNumber },
    /// The window is being made the key window.
    MakingKey { pid: u32 },
    /// The deadline is being set.
    Arming { pid: u32 },
    /// The window is being raised.
    Raising { pid: u32 },
    /// The clock was asked whether the deadline has passed.
    CheckingDeadline { pid: u32 },
    /// A pause was asked for.
    Resting { pid: u32 },
    /// Nothing is left to do.
    Finished,
}

/// What the caller is to do next.
#[derive(Clone, Copy, Debug, PartialEq, Eq)]
pub enum RaiseAction {
    WindowPid(u64),
    ProcessSerialNumber(u32),
    FrontProcessWindow(ProcessSerialNumber, u64),
    MakeKeyWindow(ProcessSerialNumber, u64),
    StartDeadline,
    RaiseWindow(u64, u32),
    CheckDeadline,
    Rest,
    Finish(Result<(), MacosNativeOperationError>),
}

/// What came of the last action.
#[derive(Clone, Copy, Debug, PartialEq, Eq)]
pub enum RaiseReply {
    /// The owner of the window, where its description names one.
    Pid(Result<Option<u32>, MacosNativeOperationError>),
    /// The serial number of the owner.
    Process(Result<ProcessSerialNumber, MacosNativeOperationError>),
    /// A request was carried out, or failed.
    Done(Result<(), MacosNativeOperationError>),
    /// The deadline is set, or the pause is over.
    Continue,
    /// Whether the deadline has passed.
    DeadlinePassed(bool),
}

/// A window being raised.
#[derive(Clone, Copy, Debug, PartialEq, Eq, Structural)]
pub struct WindowRaise {
    pub window_id: u64,
    /// Whether the owner is brought to the front before its window becomes the key window.
    pub fronts_process: bool,
    pub phase: RaisePhase,
}

impl WindowRaise {
    /// The same raise in another phase.
    pub open spec fn at(self, phase: RaisePhase) -> WindowRaise {
        WindowRaise { phase, ..self }
    }

    /// The raise ends with `result`.
    pub open spec fn finished(self, result: Result<(), MacosNativeOperationError>) -> (
        WindowRaise,
        RaiseAction,
    ) {
        (self.at(RaisePhase::Finished), RaiseAction::Finish(result))
    }

    /// What raising this window fails with when accessibility does not know it.
    pub open spec fn missing(self) -> Result<(), MacosNativeOperationError> {
        Err(MacosNativeOperationError::MissingWindow(self.window_id))
    }

    /// What follows when `reply` comes in.
    pub open spec fn step(self, reply: RaiseReply) -> (WindowRaise, RaiseAction) {
        match (self.phase, reply) {
            (RaisePhase::FindingPid, RaiseReply::Pid(Ok(Some(pid)))) => (
                self.at(RaisePhase::FindingProcess { pid }),
                RaiseAction::ProcessSerialNumber(pid),
            ),
            (RaisePhase::FindingPid, RaiseReply::Pid(Ok(None))) => self.finished(
                Err(MacosNativeOperationError::MissingWindowPid(self.window_id)),
            ),
            (RaisePhase::FindingPid, RaiseReply::Pid(Err(error))) => self.finished(Err(error)),
            (RaisePhase::FindingProcess { pid }, RaiseReply::Process(Ok(process))) =>
                if self.fronts_process {
                    (
                        self.at(RaisePhase::Fronting { pid, process }),
                        RaiseAction::FrontProcessWindow(process, self.window_id),
                    )
                } else {
                    (
                        self.at(RaisePhase::MakingKey { pid }),
                        RaiseAction::MakeKeyWindow(process, self.window_id),
                    )
                },
            (RaisePhase::FindingProcess { .. }, RaiseReply::Process(Err(error))) => self.finished(
                Err(error),
            ),
            (RaisePhase::Fronting { pid, process }, RaiseReply::Done(Ok(_))) => (
                self.at(RaisePhase::MakingKey { pid }),
                RaiseAction::MakeKeyWindow(process, self.window_id),
            ),
            (RaisePhase::MakingKey { pid }, RaiseReply::Done(Ok(_))) => (
                self.at(RaisePhase::Arming { pid }),
                RaiseAction::StartDeadline,
            ),
            (
                RaisePhase::Fronting { .. } | RaisePhase::MakingKey { .. },
                RaiseReply::Done(Err(error)),
            ) => self.finished(Err(error)),
            (
                RaisePhase::Arming { pid } | RaisePhase::Resting { pid },
                RaiseReply::Continue,
            ) => (
                self.at(RaisePhase::Raising { pid }),
                RaiseAction::RaiseWindow(self.window_id, pid),
            ),
            (RaisePhase::Raising { pid }, RaiseReply::Done(result)) => if result == self.missing() {
                (self.at(RaisePhase::CheckingDeadline { pid }), RaiseAction::CheckDeadline)
            } else {
                self.finished(result)
            },
            (RaisePhase::CheckingDeadline { pid }, RaiseReply::DeadlinePassed(passed)) =>
                if passed {
                    self.finished(self.missing())
                } else {
                    (self.at(RaisePhase::Resting { pid }), RaiseAction::Rest)
                },
            _ => self.finished(
                Err(MacosNativeOperationError::CallFailed("window_raise_reply_out_of_turn")),
            ),
        }
    }

    /// Takes in what came of the last action and says what to do next. A reply to something that
    /// was not asked for ends the raise with an error.
    pub fn advance(&mut self, reply: RaiseReply) -> (action: RaiseAction)
        ensures
            (*final(self), action) == old(self).step(reply),
    {
        match (self.phase, reply) {
            (RaisePhase::FindingPid, RaiseReply::Pid(Ok(Some(pid)))) => {
                self.phase = RaisePhase::FindingProcess { pid };
                RaiseAction::ProcessSerialNumber(pid)
            },
            (RaisePhase::FindingPid, RaiseReply::Pid(Ok(None))) => self.finish(
                Err(MacosNativeOperationError::MissingWindowPid(self.window_id)),
            ),
            (RaisePhase::FindingPid, RaiseReply::Pid(Err(error))) => self.finish(Err(error)),
            (RaisePhase::FindingProcess { pid }, RaiseReply::Process(Ok(process))) =>
                if self.fronts_process {
                    self.phase = RaisePhase::Fronting { pid, process };
                    RaiseAction::FrontProcessWindow(process, self.window_id)
                } else {
                    self.phase = RaisePhase::MakingKey { pid };
                    RaiseAction::MakeKeyWindow(process, self.window_id)
                },
            (RaisePhase::FindingProcess { .. }, RaiseReply::Process(Err(error))) => self.finish(
                Err(error),
            ),
            (RaisePhase::Fronting { pid, process }, RaiseReply::Done(Ok(_))) => {
                self.phase = RaisePhase::MakingKey { pid };
                RaiseAction::MakeKeyWindow(process, self.window_id)
            },
            (RaisePhase::MakingKey { pid }, RaiseReply::Done(Ok(_))) => {
                self.phase = RaisePhase::Arming { pid };
                RaiseAction::StartDeadline
            },
            (
                RaisePhase::Fronting { .. } | RaisePhase::MakingKey { .. },
                RaiseReply::Done(Err(error)),
            ) => self.finish(Err(error)),
            (
                RaisePhase::Arming { pid } | RaisePhase::Resting { pid },
                RaiseReply::Continue,
            ) => {
                self.phase = RaisePhase::Raising { pid };
                RaiseAction::RaiseWindow(self.window_id, pid)
            },
            (RaisePhase::Raising { pid }, RaiseReply::Done(result)) => {
                if let Err(MacosNativeOperationError::MissingWindow(id)) = result {
                    if id == self.window_id {
                        self.phase = RaisePhase::CheckingDeadline { pid };
                        return RaiseAction::CheckDeadline;
                    }
                }
                self.finish(result)
            },
            (RaisePhase::CheckingDeadline { pid }, RaiseReply::DeadlinePassed(passed)) =>
                if passed {
                    self.finish(Err(MacosNativeOperationError::MissingWindow(self.window_id)))
                } else {
                    self.phase = RaisePhase::Resting { pid };
                    RaiseAction::Rest
                },
            _ => self.finish(
                Err(MacosNativeOperationError::CallFailed("window_raise_reply_out_of_turn")),
            ),
        }
    }

    fn finish(&mut self, result: Result<(), MacosNativeOperationError>) -> (action: RaiseAction)
        ensures
            (*final(self), action) == old(self).finished(result),
    {
        self.phase = RaisePhase::Finished;
        RaiseAction::Finish(result)
    }
}

/// Starts raising a window, its owner being brought to the front first.
pub fn focus_window_via_process_and_raise(window_id: u64) -> (result: (WindowRaise, RaiseAction))
    ensures
        result == (
            (WindowRaise { window_id, fronts_process: true, phase: RaisePhase::FindingPid }),
            RaiseAction::WindowPid(window_id),
        ),
{
    (
        WindowRaise { window_id, fronts_process: true, phase: RaisePhase::FindingPid },
        RaiseAction::WindowPid(window_id),
    )
}

/// Starts raising a window, its owner staying where it is.
pub fn focus_window_via_make_key_and_raise(window_id: u64) -> (result: (WindowRaise, RaiseAction))
    ensures
        result == (
            (WindowRaise { window_id, fronts_process: false, phase: RaisePhase::FindingPid }),
            RaiseAction::WindowPid(window_id),
        ),
{
    (
        WindowRaise { window_id, fronts_process: false, phase: RaisePhase::FindingPid },
        RaiseAction::WindowPid(window_id),
    )
}

/// Only the window itself is ever raised, fronted or made key; and without `fronts_process` no
/// process is brought to the front.
pub proof fn raise_touches_its_own_window_only(raise: WindowRaise, reply: RaiseReply)
    ensures
        raise.step(reply).0.window_id == raise.window_id,
        raise.step(reply).0.fronts_process == raise.fronts_process,
        raise.step(reply).1 matches RaiseAction::RaiseWindow(id, _) ==> id == raise.window_id,
        raise.step(reply).1 matches RaiseAction::MakeKeyWindow(_, id) ==> id == raise.window_id,
        raise.step(reply).1 matches RaiseAction::FrontProcessWindow(_, id) ==> id
            == raise.window_id && raise.fronts_process,
{
}

/// A raise is repeated only while accessibility misses the window and the deadline lies ahead.
/// Once the deadline is being set, a raise ends as missing exactly when the clock says that the
/// deadline has passed; before that, the error of the step that failed ends it.
pub proof fn raise_is_repeated_until_the_deadline(raise: WindowRaise, reply: RaiseReply)
    ensures
        raise.step(reply).1 is Rest ==> raise.phase is CheckingDeadline && reply
            == RaiseReply::DeadlinePassed(false),
        raise.phase is Raising && reply == RaiseReply::Done(raise.missing()) ==> raise.step(
            reply,
        ).1 is CheckDeadline,
        raise.phase is Raising && reply is Done && reply->Done_0 != raise.missing()
            ==> raise.step(reply).1 == RaiseAction::Finish(reply->Done_0),
        raise.phase is Arming || raise.phase is Raising || raise.phase is CheckingDeadline
            || raise.phase is Resting ==> (raise.step(reply).1 == RaiseAction::Finish(
            raise.missing(),
        ) <==> raise.phase is CheckingDeadline && reply == RaiseReply::DeadlinePassed(true)),
        raise.phase is FindingPid && reply is Pid && reply->Pid_0 is Err ==> raise.step(reply).1
            == RaiseAction::Finish(Err(reply->Pid_0->Err_0)),
        raise.phase is FindingProcess && reply is Process && reply->Process_0 is Err
            ==> raise.step(reply).1 == RaiseAction::Finish(Err(reply->Process_0->Err_0)),
        (raise.phase is Fronting || raise.phase is MakingKey) && reply is Done && reply->Done_0
            is Err ==> raise.step(reply).1 == RaiseAction::Finish(reply->Done_0),
{
}

/// What is left to try when a raise has missed its window until the deadline.
#[derive(Clone, Copy, Debug, PartialEq, Eq, Structural)]
pub enum MissPolicy {
    /// Nothing: the window is reported missing.
    Report,
    /// Another window of process `pid` at the same place.
    Replace { pid: u32, hint: Option<ActiveSpaceFocusTargetHint> },
}

/// What focusing a window of a known process is waiting for.
#[derive(Clone, Copy, Debug, PartialEq, Eq, Structural)]
pub enum KnownPidPhase {
    /// The window is being raised.
    Raising,
    /// The deadline for the focus to show is being set.
    Arming,
    /// The focused window was asked for.
    Confirming,
    /// The clock was asked whether the deadline has passed.
    CheckingDeadline,
    /// A pause was asked for.
    Resting,
    /// A fresh snapshot was asked for.
    Refreshing,
    /// Accessibility was asked for the windows of the process.
    ProbingAx { place: NativeBounds, space_id: u64 },
    /// The replacement is being focused.
    Replacing,
    /// Nothing is left to do.
    Finished,
}

/// What the caller is to do next.
#[derive(Clone, Copy, Debug, PartialEq, Eq)]
pub enum KnownPidAction {
    Raise(RaiseAction),
    StartDeadline,
    FocusedWindowId,
    CheckDeadline,
    Rest,
    DesktopSnapshot,
    AxWindowIdsForPid(u32),
    FocusWindowWithKnownPid(u64, u32),
    Finish(Result<(), MacosNativeOperationError>),
}

/// What came of the last action.
#[derive(Debug)]
pub enum KnownPidReply {
    Raise(RaiseReply),
    Continue,
    FocusedWindowId(Result<Option<u64>, MacosNativeProbeError>),
    DeadlinePassed(bool),
    Snapshot(Result<NativeDesktopSnapshot, MacosNativeProbeError>),
    AxWindowIds(Result<Vec<u64>, MacosNativeOperationError>),
    Focused(Result<(), MacosNativeOperationError>),
}

/// A window of a known process being focused.
#[derive(Debug)]
pub struct KnownPidFocus {
    pub raise: WindowRaise,
    pub policy: MissPolicy,
    /// The snapshot in which a replacement is looked for, once there is one.
    pub snapshot: Option<NativeDesktopSnapshot>,
    pub phase: KnownPidPhase,
}

impl KnownPidFocus {
    /// The same focus in another phase.
    pub open spec fn at(self, phase: KnownPidPhase) -> KnownPidFocus {
        KnownPidFocus { phase, ..self }
    }

    /// The focus ends with `result`.
    pub open spec fn finished(self, result: Result<(), MacosNativeOperationError>) -> (
        KnownPidFocus,
        KnownPidAction,
    ) {
        (self.at(KnownPidPhase::Finished), KnownPidAction::Finish(result))
    }

    /// The raise goes on, or is over with a result; a missing window may have got the focus all
    /// the same.
    pub open spec fn after_raise(self, raise: WindowRaise, action: RaiseAction) -> (
        KnownPidFocus,
        KnownPidAction,
    ) {
        let next = KnownPidFocus { raise, ..self };
        match action {
            RaiseAction::Finish(result) => if result == raise.missing() {
                (next.at(KnownPidPhase::Arming), KnownPidAction::StartDeadline)
            } else {
                next.finished(result)
            },
            _ => (next, KnownPidAction::Raise(action)),
        }
    }

    /// The window has not got the focus in time.
    pub open spec fn unconfirmed(self) -> (KnownPidFocus, KnownPidAction) {
        match self.policy {
            MissPolicy::Report => self.finished(self.raise.missing()),
            MissPolicy::Replace { .. } => (
                self.at(KnownPidPhase::Refreshing),
                KnownPidAction::DesktopSnapshot,
            ),
        }
    }

    /// What follows when `reply` comes in.
    pub open spec fn step(self, reply: KnownPidReply) -> (KnownPidFocus, KnownPidAction) {
        match (self.phase, reply) {
            (KnownPidPhase::Raising, KnownPidReply::Raise(reply)) => {
                let (raise, action) = self.raise.step(reply);
                self.after_raise(raise, action)
            },
            (KnownPidPhase::Arming | KnownPidPhase::Resting, KnownPidReply::Continue) => (
                self.at(KnownPidPhase::Confirming),
                KnownPidAction::FocusedWindowId,
            ),
            (KnownPidPhase::Confirming, KnownPidReply::FocusedWindowId(focused)) => if focused
                == Ok::<Option<u64>, MacosNativeProbeError>(Some(self.raise.window_id)) {
                self.finished(Ok(()))
            } else {
                (self.at(KnownPidPhase::CheckingDeadline), KnownPidAction::CheckDeadline)
            },
            (KnownPidPhase::CheckingDeadline, KnownPidReply::DeadlinePassed(passed)) => if passed {
                self.unconfirmed()
            } else {
                (self.at(KnownPidPhase::Resting), KnownPidAction::Rest)
            },
            (KnownPidPhase::Refreshing, KnownPidReply::Snapshot(Err(error))) => self.finished(
                Err(MacosNativeOperationError::Probe(error)),
            ),
            (KnownPidPhase::Refreshing, KnownPidReply::Snapshot(Ok(snapshot))) =>
                match self.policy {
                    MissPolicy::Replace { pid, hint } => if snapshot::remap_allowed(
                        snapshot,
                        self.raise.window_id,
                        pid,
                        hint,
                    ) {
                        let (place, space_id) = snapshot::remap_place(
                            snapshot,
                            self.raise.window_id,
                            hint,
                        )->0;
                        (
                            KnownPidFocus {
                                snapshot: Some(snapshot),
                                phase: KnownPidPhase::ProbingAx { place, space_id },
                                ..self
                            },
                            KnownPidAction::AxWindowIdsForPid(pid),
                        )
                    } else {
                        self.finished(self.raise.missing())
                    },
                    MissPolicy::Report => self.finished(self.raise.missing()),
                },
            (KnownPidPhase::ProbingAx { .. }, KnownPidReply::AxWindowIds(Err(error))) =>
                self.finished(Err(error)),
            (
                KnownPidPhase::ProbingAx { place, space_id },
                KnownPidReply::AxWindowIds(Ok(ids)),
            ) => match (self.policy, self.snapshot) {
                (MissPolicy::Replace { pid, .. }, Some(snapshot)) => match replacement(
                    snapshot,
                    self.raise.window_id,
                    place,
                    space_id,
                    pid,
                    ids@.to_set(),
                ) {
                    Some(id) => (
                        self.at(KnownPidPhase::Replacing),
                        KnownPidAction::FocusWindowWithKnownPid(id, pid),
                    ),
                    None => self.finished(self.raise.missing()),
                },
                _ => self.finished(self.raise.missing()),
            },
            (KnownPidPhase::Replacing, KnownPidReply::Focused(result)) => self.finished(result),
            _ => self.finished(
                Err(MacosNativeOperationError::CallFailed("known_pid_focus_reply_out_of_turn")),
            ),
        }
    }
}

/// The window that replaces a stale target: the one of process `pid` that covers its place best.
pub open spec fn replacement(
    snapshot: NativeDesktopSnapshot,
    target_id: u64,
    place: NativeBounds,
    space_id: u64,
    pid: u32,
    ax_window_ids: Set<u64>,
) -> Option<u64> {
    snapshot::chosen_id(
        snapshot.windows@,
        select::last_greatest(
            snapshot::replacement_ranks(
                snapshot.windows@,
                target_id,
                place,
                space_id,
                pid,
                ax_window_ids,
            ),
        ),
    )
}

/// Starts focusing a window of process `pid`, its owner being brought to the front.
pub fn focus_window_with_known_pid(window_id: u64, pid: u32) -> (result: (
    KnownPidFocus,
    KnownPidAction,
))
    ensures
        result == (
            (KnownPidFocus {
                raise: WindowRaise {
                    window_id,
                    fronts_process: true,
                    phase: RaisePhase::FindingProcess { pid },
                },
                policy: MissPolicy::Report,
                snapshot: None,
                phase: KnownPidPhase::Raising,
            }),
            KnownPidAction::Raise(RaiseAction::ProcessSerialNumber(pid)),
        ),
{
    let (mut raise, _) = focus_window_via_process_and_raise(window_id);
    let action = raise.advance(RaiseReply::Pid(Ok(Some(pid))));
    (
        KnownPidFocus {
            raise,
            policy: MissPolicy::Report,
            snapshot: None,
            phase: KnownPidPhase::Raising,
        },
        KnownPidAction::Raise(action),
    )
}

/// Starts focusing a window of process `pid` in the active space.
pub fn focus_window_in_active_space_with_known_pid(
    window_id: u64,
    pid: u32,
    target_hint: Option<ActiveSpaceFocusTargetHint>,
) -> (result: (KnownPidFocus, KnownPidAction))
    ensures
        result == (
            (KnownPidFocus {
                raise: WindowRaise {
                    window_id,
                    fronts_process: false,
                    phase: RaisePhase::FindingProcess { pid },
                },
                policy: MissPolicy::Replace { pid, hint: target_hint },
                snapshot: None,
                phase: KnownPidPhase::Raising,
            }),
            KnownPidAction::Raise(RaiseAction::ProcessSerialNumber(pid)),
        ),
{
    let (mut raise, _) = focus_window_via_make_key_and_raise(window_id);
    let action = raise.advance(RaiseReply::Pid(Ok(Some(pid))));
    (
        KnownPidFocus {
            raise,
            policy: MissPolicy::Replace { pid, hint: target_hint },
            snapshot: None,
            phase: KnownPidPhase::Raising,
        },
        KnownPidAction::Raise(action),
    )
}

impl KnownPidFocus {
    /// Takes in what came of the last action and says what to do next. A reply to something that
    /// was not asked for ends the focus with an error.
    pub fn advance(&mut self, reply: KnownPidReply) -> (action: KnownPidAction)
        ensures
            (*final(self), action) == old(self).step(reply),
    {
        match (self.phase, reply) {
            (KnownPidPhase::Raising, KnownPidReply::Raise(reply)) => {
                let action = self.raise.advance(reply);
                match action {
                    RaiseAction::Finish(result) => {
                        if let Err(MacosNativeOperationError::MissingWindow(id)) = result {
                            if id == self.raise.window_id {
                                self.phase = KnownPidPhase::Arming;
                                return KnownPidAction::StartDeadline;
                            }
                        }
                        self.finish(result)
                    },
                    _ => KnownPidAction::Raise(action),
                }
            },
            (KnownPidPhase::Arming | KnownPidPhase::Resting, KnownPidReply::Continue) => {
                self.phase = KnownPidPhase::Confirming;
                KnownPidAction::FocusedWindowId
            },
            (KnownPidPhase::Confirming, KnownPidReply::FocusedWindowId(focused)) => {
                if let Ok(Some(id)) = focused {
                    if id == self.raise.window_id {
                        return self.finish(Ok(()));
                    }
                }
                self.phase = KnownPidPhase::CheckingDeadline;
                KnownPidAction::CheckDeadline
            },
            (KnownPidPhase::CheckingDeadline, KnownPidReply::DeadlinePassed(passed)) => if passed {
                match self.policy {
                    MissPolicy::Report => self.finish_missing(),
                    MissPolicy::Replace { .. } => {
                        self.phase = KnownPidPhase::Refreshing;
                        KnownPidAction::DesktopSnapshot
                    },
                }
            } else {
                self.phase = KnownPidPhase::Resting;
                KnownPidAction::Rest
            },
            (KnownPidPhase::Refreshing, KnownPidReply::Snapshot(Err(error))) => self.finish(
                Err(MacosNativeOperationError::Probe(error)),
            ),
            (KnownPidPhase::Refreshing, KnownPidReply::Snapshot(Ok(snapshot))) =>
                match self.policy {
                    MissPolicy::Replace { pid, hint } => match active_space_remap_place(
                        &snapshot,
                        self.raise.window_id,
                        pid,
                        hint,
                    ) {
                        Some((place, space_id)) => {
                            self.snapshot = Some(snapshot);
                            self.phase = KnownPidPhase::ProbingAx { place, space_id };
                            KnownPidAction::AxWindowIdsForPid(pid)
                        },
                        None => self.finish_missing(),
                    },
                    MissPolicy::Report => self.finish_missing(),
                },
            (KnownPidPhase::ProbingAx { .. }, KnownPidReply::AxWindowIds(Err(error))) =>
                self.finish(Err(error)),
            (
                KnownPidPhase::ProbingAx { place, space_id },
                KnownPidReply::AxWindowIds(Ok(ids)),
            ) => {
                let known = ids::set_of(&ids);
                let chosen: Option<(u64, u32)> = match (self.policy, &self.snapshot) {
                    (
                        MissPolicy::Replace { pid, .. },
                        Some(snapshot),
                    ) => match active_space_ax_backed_same_pid_target(
                        snapshot,
                        self.raise.window_id,
                        place,
                        space_id,
                        pid,
                        &known,
                    ) {
                        Some(id) => Some((id, pid)),
                        None => None,
                    },
                    _ => None,
                };
                match chosen {
                    Some((id, pid)) => {
                        self.phase = KnownPidPhase::Replacing;
                        KnownPidAction::FocusWindowWithKnownPid(id, pid)
                    },
                    None => self.finish_missing(),
                }
            },
            (KnownPidPhase::Replacing, KnownPidReply::Focused(result)) => self.finish(result),
            _ => self.finish(
                Err(MacosNativeOperationError::CallFailed("known_pid_focus_reply_out_of_turn")),
            ),
        }
    }

    fn finish(&mut self, result: Result<(), MacosNativeOperationError>) -> (action: KnownPidAction)
        ensures
            (*final(self), action) == old(self).finished(result),
    {
        self.phase = KnownPidPhase::Finished;
        KnownPidAction::Finish(result)
    }

    fn finish_missing(&mut self) -> (action: KnownPidAction)
        ensures
            (*final(self), action) == old(self).finished(old(self).raise.missing()),
    {
        self.finish(Err(MacosNativeOperationError::MissingWindow(self.raise.window_id)))
    }
}

/// A window that accessibility misses still counts as focused when it turns out to have the
/// focus; nothing else turns a miss into success.
pub proof fn a_miss_succeeds_only_by_confirmation(focus: KnownPidFocus, reply: KnownPidReply)
    requires
        !(focus.phase is Raising),
        !(focus.phase is Replacing),
        focus.step(reply).1 == KnownPidAction::Finish(Ok(())),
    ensures
        focus.phase is Confirming,
        reply == KnownPidReply::FocusedWindowId(Ok(Some(focus.raise.window_id))),
{
}

/// A replacement is another window of the same process in the same space that accessibility
/// lists.
pub proof fn replacement_belongs_to_the_process(
    snapshot: NativeDesktopSnapshot,
    target_id: u64,
    place: NativeBounds,
    space_id: u64,
    pid: u32,
    ax_window_ids: Set<u64>,
)
    requires
        replacement(snapshot, target_id, place, space_id, pid, ax_window_ids) is Some,
    ensures
        ({
            let id = replacement(snapshot, target_id, place, space_id, pid, ax_window_ids)->0;
            &&& id != target_id
            &&& ax_window_ids.contains(id)
            &&& exists|i: int|
                0 <= i < snapshot.windows@.len() && (#[trigger] snapshot.windows@[i]).id == id
                    && snapshot.windows@[i].pid == Some(pid) && snapshot.windows@[i].space_id
                    == space_id && snapshot.windows@[i].level == 0
        }),
{
    let ranks = snapshot::replacement_ranks(
        snapshot.windows@,
        target_id,
        place,
        space_id,
        pid,
        ax_window_ids,
    );
    select::choices_are_optimal(ranks);
    let at = select::last_greatest(ranks)->0;
    assert(ranks[at] is Some);
    assert(snapshot.windows@[at].id != target_id);
}

/// A window is raised through its owner: the owner is found, brought to the front where that was asked
/// for, its window made the key window, and the window raised. Each step concerns the same window and
/// the owner that was found, and the first that fails is reported.
pub proof fn raises_go_through_the_owner(
    window_id: u64,
    pid: u32,
    process: ProcessSerialNumber,
    fronting: (WindowRaise, RaiseAction),
    keying: (WindowRaise, RaiseAction),
    error: MacosNativeOperationError,
)
    requires
        call_ensures(focus_window_via_process_and_raise, (window_id,), fronting),
        call_ensures(focus_window_via_make_key_and_raise, (window_id,), keying),
    ensures
        fronting.1 == RaiseAction::WindowPid(window_id) && keying.1 == fronting.1,
        ({
            let (found, ask) = fronting.0.step(RaiseReply::Pid(Ok(Some(pid))));
            let (fronted, front) = found.step(RaiseReply::Process(Ok(process)));
            let (keyed, key) = fronted.step(RaiseReply::Done(Ok(())));
            let (armed, arm) = keyed.step(RaiseReply::Done(Ok(())));
            let (raised, raise) = armed.step(RaiseReply::Continue);
            &&& ask == RaiseAction::ProcessSerialNumber(pid)
            &&& front == RaiseAction::FrontProcessWindow(process, window_id)
            &&& key == RaiseAction::MakeKeyWindow(process, window_id)
            &&& arm is StartDeadline
            &&& raise == RaiseAction::RaiseWindow(window_id, pid)
            &&& raised.step(RaiseReply::Done(Ok(()))).1 == RaiseAction::Finish(Ok(()))
            &&& fronting.0.step(RaiseReply::Pid(Ok(None))).1 == RaiseAction::Finish(
                Err(MacosNativeOperationError::MissingWindowPid(window_id)),
            )
            &&& fronting.0.step(RaiseReply::Pid(Err(error))).1 == RaiseAction::Finish(Err(error))
            &&& found.step(RaiseReply::Process(Err(error))).1 == RaiseAction::Finish(Err(error))
            &&& fronted.step(RaiseReply::Done(Err(error))).1 == RaiseAction::Finish(Err(error))
            &&& keyed.step(RaiseReply::Done(Err(error))).1 == RaiseAction::Finish(Err(error))
        }),
        ({
            let (found, ask) = keying.0.step(RaiseReply::Pid(Ok(Some(pid))));
            let (keyed, key) = found.step(RaiseReply::Process(Ok(process)));
            let (armed, arm) = keyed.step(RaiseReply::Done(Ok(())));
            &&& ask == RaiseAction::ProcessSerialNumber(pid)
            &&& key == RaiseAction::MakeKeyWindow(process, window_id)
            &&& arm is StartDeadline
            &&& armed.step(RaiseReply::Continue).1 == RaiseAction::RaiseWindow(window_id, pid)
        }),
{
}

/// A raise that misses its window is repeated after a rest until the time is up, and then reports the
/// window as missing; any other outcome of it stands.
pub proof fn raises_are_repeated_while_they_miss(
    raise: WindowRaise,
    pid: u32,
    result: Result<(), MacosNativeOperationError>,
)
    requires
        raise.phase == (RaisePhase::Raising { pid }),
    ensures
        result != Err::<(), MacosNativeOperationError>(
            MacosNativeOperationError::MissingWindow(raise.window_id),
        ) ==> raise.step(RaiseReply::Done(result)).1 == RaiseAction::Finish(result),
        ({
            let miss = Err::<(), MacosNativeOperationError>(
                MacosNativeOperationError::MissingWindow(raise.window_id),
            );
            let (missed, check) = raise.step(RaiseReply::Done(miss));
            let (rested, rest) = missed.step(RaiseReply::DeadlinePassed(false));
            let (again, repeat) = rested.step(RaiseReply::Continue);
            &&& check is CheckDeadline
            &&& rest is Rest
            &&& repeat == RaiseAction::RaiseWindow(raise.window_id, pid)
            &&& again == raise
            &&& missed.step(RaiseReply::DeadlinePassed(true)).1 == RaiseAction::Finish(miss)
        }),
{
}

/// A window of a known process is raised without asking for its owner; in the active space the owner
/// stays where it is and a missing window may be replaced, elsewhere it comes to the front and a
/// missing window is reported.
pub proof fn known_owners_are_not_asked_for(
    window_id: u64,
    pid: u32,
    hint: Option<ActiveSpaceFocusTargetHint>,
    anywhere: (KnownPidFocus, KnownPidAction),
    here: (KnownPidFocus, KnownPidAction),
    process: ProcessSerialNumber,
)
    requires
        call_ensures(focus_window_with_known_pid, (window_id, pid), anywhere),
        call_ensures(
            focus_window_in_active_space_with_known_pid,
            (window_id, pid, hint),
            here,
        ),
    ensures
        anywhere.1 == KnownPidAction::Raise(RaiseAction::ProcessSerialNumber(pid)),
        here.1 == anywhere.1,
        anywhere.0.step(KnownPidReply::Raise(RaiseReply::Process(Ok(process)))).1
            == KnownPidAction::Raise(RaiseAction::FrontProcessWindow(process, window_id)),
        here.0.step(KnownPidReply::Raise(RaiseReply::Process(Ok(process)))).1
            == KnownPidAction::Raise(RaiseAction::MakeKeyWindow(process, window_id)),
        anywhere.0.policy is Report,
        here.0.policy == (MissPolicy::Replace { pid, hint }),
        anywhere.0.raise.window_id == window_id && here.0.raise.window_id == window_id,
{
}

/// While the window is being raised its raise decides; once that is over its result stands, unless it
/// missed the window: whether that has the focus is then asked for until the time is up.
pub proof fn misses_are_checked_against_the_focus(
    focus: KnownPidFocus,
    reply: RaiseReply,
    focused: Result<Option<u64>, MacosNativeProbeError>,
)
    ensures
        focus.phase is Raising ==> {
            let (raise, action) = focus.raise.step(reply);
            let (next, told) = focus.step(KnownPidReply::Raise(reply));
            match action {
                RaiseAction::Finish(result) => if result == Err::<(), MacosNativeOperationError>(
                    MacosNativeOperationError::MissingWindow(focus.raise.window_id),
                ) {
                    told is StartDeadline && next.phase is Arming
                } else {
                    told == KnownPidAction::Finish(result)
                },
                _ => told == KnownPidAction::Raise(action) && next.raise == raise && next.phase
                    is Raising,
            }
        },
        focus.phase is Arming || focus.phase is Resting ==> focus.step(KnownPidReply::Continue).1
            is FocusedWindowId && focus.step(KnownPidReply::Continue).0.phase is Confirming,
        focus.phase is Confirming ==> {
            let (next, action) = focus.step(KnownPidReply::FocusedWindowId(focused));
            if focused is Ok && focused->Ok_0 is Some && focused->Ok_0->0 == focus.raise.window_id {
                action == KnownPidAction::Finish(Ok(()))
            } else {
                action is CheckDeadline && next.phase is CheckingDeadline
            }
        },
        focus.phase is CheckingDeadline ==> {
            &&& focus.step(KnownPidReply::DeadlinePassed(false)).1 is Rest
            &&& focus.step(KnownPidReply::DeadlinePassed(false)).0.phase is Resting
            &&& focus.policy is Report ==> focus.step(KnownPidReply::DeadlinePassed(true)).1
                == KnownPidAction::Finish(
                Err(MacosNativeOperationError::MissingWindow(focus.raise.window_id)),
            )
            &&& focus.policy is Replace ==> focus.step(KnownPidReply::DeadlinePassed(true)).1
                is DesktopSnapshot && focus.step(KnownPidReply::DeadlinePassed(true)).0.phase
                is Refreshing
        },
{
    raise_touches_its_own_window_only(focus.raise, reply);
}

/// A missing window is replaced by what stands in its place in a fresh snapshot, among the windows that
/// accessibility lists for its process. What cannot be replaced is reported missing, and any error on
/// the way as it is; the outcome for the replacement is the outcome of all.
pub proof fn missing_windows_are_replaced_in_their_place(
    focus: KnownPidFocus,
    pid: u32,
    hint: Option<ActiveSpaceFocusTargetHint>,
    desktop: NativeDesktopSnapshot,
    place: Option<(NativeBounds, u64)>,
    ids: Vec<u64>,
    known: HashSet<u64>,
    found: Option<u64>,
    probe_error: MacosNativeProbeError,
    error: MacosNativeOperationError,
    result: Result<(), MacosNativeOperationError>,
)
    requires
        focus.policy == (MissPolicy::Replace { pid, hint }),
        call_ensures(
            snapshot::active_space_remap_place,
            (&desktop, focus.raise.window_id, pid, hint),
            place,
        ),
        known@ == ids@.to_set(),
        place matches Some((bounds, space_id)) ==> call_ensures(
            snapshot::active_space_ax_backed_same_pid_target,
            (&desktop, focus.raise.window_id, bounds, space_id, pid, &known),
            found,
        ),
    ensures
        focus.phase is Refreshing ==> {
            let missing = KnownPidAction::Finish(
                Err(MacosNativeOperationError::MissingWindow(focus.raise.window_id)),
            );
            let (probing, action) = focus.step(KnownPidReply::Snapshot(Ok(desktop)));
            let (_, replaced) = probing.step(KnownPidReply::AxWindowIds(Ok(ids)));
            &&& focus.step(KnownPidReply::Snapshot(Err(probe_error))).1 == KnownPidAction::Finish(
                Err(MacosNativeOperationError::Probe(probe_error)),
            )
            &&& place is None ==> action == missing
            &&& place is Some ==> {
                &&& action == KnownPidAction::AxWindowIdsForPid(pid)
                &&& found matches Some(id) ==> replaced == KnownPidAction::FocusWindowWithKnownPid(
                    id,
                    pid,
                )
                &&& found is None ==> replaced == missing
                &&& probing.step(KnownPidReply::AxWindowIds(Err(error))).1
                    == KnownPidAction::Finish(Err(error))
            }
        },
        focus.phase is Replacing ==> focus.step(KnownPidReply::Focused(result)).1
            == KnownPidAction::Finish(result),
{
}

/// Every reply moves a raise, or a focus, on by one step; one to something that was not asked for ends
/// it with an error of its own.
pub proof fn replies_are_taken_in_step_by_step(
    raise: &mut WindowRaise,
    raise_reply: RaiseReply,
    raise_action: RaiseAction,
    focus: &mut KnownPidFocus,
    focus_reply: KnownPidReply,
    focus_action: KnownPidAction,
)
    requires
        call_ensures(WindowRaise::advance, (raise, raise_reply), raise_action),
        call_ensures(KnownPidFocus::advance, (focus, focus_reply), focus_action),
    ensures
        (*final(raise), raise_action) == old(raise).step(raise_reply),
        (*final(focus), focus_action) == old(focus).step(focus_reply),
        match old(raise).phase {
            RaisePhase::FindingPid => !(raise_reply is Pid),
            RaisePhase::FindingProcess { .. } => !(raise_reply is Process),
            RaisePhase::Fronting { .. } | RaisePhase::MakingKey { .. }
            | RaisePhase::Raising { .. } => !(raise_reply is Done),
            RaisePhase::Arming { .. } | RaisePhase::Resting { .. } => !(raise_reply is Continue),
            RaisePhase::CheckingDeadline { .. } => !(raise_reply is DeadlinePassed),
            RaisePhase::Finished => true,
        } ==> raise_action == RaiseAction::Finish(
            Err(MacosNativeOperationError::CallFailed("window_raise_reply_out_of_turn")),
        ),
        match old(focus).phase {
            KnownPidPhase::Raising => !(focus_reply is Raise),
            KnownPidPhase::Arming | KnownPidPhase::Resting => !(focus_reply is Continue),
            KnownPidPhase::Confirming => !(focus_reply is FocusedWindowId),
            KnownPidPhase::CheckingDeadline => !(focus_reply is DeadlinePassed),
            KnownPidPhase::Refreshing => !(focus_reply is Snapshot),
            KnownPidPhase::ProbingAx { .. } => !(focus_reply is AxWindowIds),
            KnownPidPhase::Replacing => !(focus_reply is Focused),
            KnownPidPhase::Finished => true,
        } ==> focus_action == KnownPidAction::Finish(
            Err(MacosNativeOperationError::CallFailed("known_pid_focus_reply_out_of_turn")),
        ),
{
}

} // verus!
