//! Focusing a window wherever it is.
//!
//! A window can be focused only in a space that is shown. `WindowFocus` finds out where the window
//! lies and has its space switched to first, where that is needed.
use crate::macos::raw_topology;
use crate::macos::raw_topology::{
    active_window_pid_from_topology, ensure_supported_target_space, space_id_for_window,
};
use crate::macos::types::{MacosNativeOperationError, MacosNativeProbeError, RawTopologySnapshot};
use vstd::prelude::*;

verus! {

/// What a focus is waiting for.
#[derive(Clone, Copy, Debug, PartialEq, Eq, Structural)]
pub enum WindowFocusPhase {
    /// The window is being looked for.
    Locating,
    /// Its space is being switched to.
    Switching,
    /// The window is being looked at again, in the space that was switched to.
    Relocating,
    /// The window is being focused.
    Focusing,
    /// Nothing is left to do.
    Finished,
}

/// What the caller is to do next.
#[derive(Clone, Copy, Debug, PartialEq, Eq)]
pub enum WindowFocusAction {
    /// Look at all spaces.
    Topology,
    /// Switch to a space.
    SwitchSpace(u64),
    /// Focus a window of a known process.
    FocusWindowWithKnownPid(u64, u32),
    /// Focus a window.
    FocusWindow(u64),
    Finish(Result<(), MacosNativeOperationError>),
}

/// What came of the last action.
pub enum WindowFocusReply<'a> {
    Topology(Result<&'a RawTopologySnapshot, MacosNativeProbeError>),
    Ran(Result<(), MacosNativeOperationError>),
}

/// A window being focused wherever it is.
#[derive(Clone, Copy, Debug, PartialEq, Eq, Structural)]
pub struct WindowFocus {
    pub window_id: u64,
    pub phase: WindowFocusPhase,
}

impl WindowFocus {
    /// The same focus in another phase.
    pub open spec fn at(self, phase: WindowFocusPhase) -> WindowFocus {
        WindowFocus { phase, ..self }
    }

    /// The focus ends with `result`.
    pub open spec fn finished(self, result: Result<(), MacosNativeOperationError>) -> (
        WindowFocus,
        WindowFocusAction,
    ) {
        (self.at(WindowFocusPhase::Finished), WindowFocusAction::Finish(result))
    }

    /// The window is shown, and belongs to process `pid` as far as that is known.
    pub open spec fn shown(self, pid: Option<u32>) -> (WindowFocus, WindowFocusAction) {
        (
            self.at(WindowFocusPhase::Focusing),
            match pid {
                Some(pid) => WindowFocusAction::FocusWindowWithKnownPid(self.window_id, pid),
                None => WindowFocusAction::FocusWindow(self.window_id),
            },
        )
    }

    /// The window lies in `space_id`.
    pub open spec fn located(
        self,
        topology: RawTopologySnapshot,
        space_id: Option<u64>,
        pid: Option<u32>,
    ) -> (WindowFocus, WindowFocusAction) {
        match space_id {
            None => self.finished(Err(MacosNativeOperationError::MissingWindow(self.window_id))),
            Some(space_id) => match raw_topology::supported_target(topology, space_id) {
                Err(error) => self.finished(Err(error)),
                Ok(_) => if topology.active_space_ids@.contains(space_id) {
                    self.shown(pid)
                } else {
                    (
                        self.at(WindowFocusPhase::Switching),
                        WindowFocusAction::SwitchSpace(space_id),
                    )
                },
            },
        }
    }

    /// `next` may follow when `reply` comes in. Where several spaces list the window, any of them
    /// may be taken for its own.
    pub open spec fn leads_to(
        self,
        reply: WindowFocusReply,
        next: (WindowFocus, WindowFocusAction),
    ) -> bool {
        match (self.phase, reply) {
            (WindowFocusPhase::Locating, WindowFocusReply::Topology(Ok(topology))) => exists|
                space_id: Option<u64>,
                pid: Option<u32>,
            |
                #[trigger] raw_topology::is_space_of_window(*topology, self.window_id, space_id)
                    && #[trigger] raw_topology::is_pid_of_window(*topology, self.window_id, pid)
                    && next == self.located(*topology, space_id, pid),
            (WindowFocusPhase::Relocating, WindowFocusReply::Topology(Ok(topology))) => exists|
                pid: Option<u32>,
            | #[trigger]
                raw_topology::is_pid_of_window(*topology, self.window_id, pid) && next
                    == self.shown(pid),
            (
                WindowFocusPhase::Locating | WindowFocusPhase::Relocating,
                WindowFocusReply::Topology(Err(error)),
            ) => next == self.finished(Err(MacosNativeOperationError::Probe(error))),
            (WindowFocusPhase::Switching, WindowFocusReply::Ran(Ok(_))) => next == (
                self.at(WindowFocusPhase::Relocating),
                WindowFocusAction::Topology,
            ),
            (WindowFocusPhase::Switching, WindowFocusReply::Ran(Err(error))) => next
                == self.finished(Err(error)),
            (WindowFocusPhase::Focusing, WindowFocusReply::Ran(result)) => next == self.finished(
                result,
            ),
            _ => next == self.finished(
                Err(MacosNativeOperationError::CallFailed("window_focus_reply_out_of_turn")),
            ),
        }
    }

    /// How many replies are still to come in at most.
    pub open spec fn remaining(self) -> nat {
        match self.phase {
            WindowFocusPhase::Locating => 4,
            WindowFocusPhase::Switching => 3,
            WindowFocusPhase::Relocating => 2,
            WindowFocusPhase::Focusing => 1,
            WindowFocusPhase::Finished => 0,
        }
    }
}

/// Starts focusing a window wherever it is.
pub fn focus_window_by_id(window_id: u64) -> (result: (WindowFocus, WindowFocusAction))
    ensures
        result == (
            (WindowFocus { window_id, phase: WindowFocusPhase::Locating }),
            WindowFocusAction::Topology,
        ),
{
    (WindowFocus { window_id, phase: WindowFocusPhase::Locating }, WindowFocusAction::Topology)
}

impl WindowFocus {
    /// Takes in what came of the last action and says what to do next. A reply to something that
    /// was not asked for ends the focus with an error.
    pub fn advance(&mut self, reply: WindowFocusReply) -> (action: WindowFocusAction)
        ensures
            old(self).leads_to(reply, (*final(self), action)),
    {
        match (self.phase, reply) {
            (WindowFocusPhase::Locating, WindowFocusReply::Topology(Ok(topology))) => self.locate(
                topology,
            ),
            (WindowFocusPhase::Relocating, WindowFocusReply::Topology(Ok(topology))) => {
                let pid: Option<u32> = active_window_pid_from_topology(topology, self.window_id);
                self.focus(pid)
            },
            (
                WindowFocusPhase::Locating | WindowFocusPhase::Relocating,
                WindowFocusReply::Topology(Err(error)),
            ) => self.finish(Err(MacosNativeOperationError::Probe(error))),
            (WindowFocusPhase::Switching, WindowFocusReply::Ran(Ok(_))) => {
                self.phase = WindowFocusPhase::Relocating;
                WindowFocusAction::Topology
            },
            (WindowFocusPhase::Switching, WindowFocusReply::Ran(Err(error))) => self.finish(
                Err(error),
            ),
            (WindowFocusPhase::Focusing, WindowFocusReply::Ran(result)) => self.finish(result),
            _ => self.finish(
                Err(MacosNativeOperationError::CallFailed("window_focus_reply_out_of_turn")),
            ),
        }
    }

    fn locate(&mut self, topology: &RawTopologySnapshot) -> (action: WindowFocusAction)
        ensures
            exists|space_id: Option<u64>, pid: Option<u32>|
                #[trigger] raw_topology::is_space_of_window(
                    *topology,
                    old(self).window_id,
                    space_id,
                ) && #[trigger] raw_topology::is_pid_of_window(
                    *topology,
                    old(self).window_id,
                    pid,
                ) && (*final(self), action) == old(self).located(*topology, space_id, pid),
    {
        let window_id: u64 = self.window_id;
        let found: Option<u64> = space_id_for_window(topology, window_id);
        let pid: Option<u32> = active_window_pid_from_topology(topology, window_id);
        assert(raw_topology::is_space_of_window(*topology, window_id, found));
        assert(raw_topology::is_pid_of_window(*topology, window_id, pid));
        let Some(space_id) = found else {
            return self.finish(Err(MacosNativeOperationError::MissingWindow(window_id)));
        };
        match ensure_supported_target_space(topology, space_id) {
            Err(error) => self.finish(Err(error)),
            Ok(_) => if topology.active_space_ids.contains(&space_id) {
                self.focus(pid)
            } else {
                self.phase = WindowFocusPhase::Switching;
                WindowFocusAction::SwitchSpace(space_id)
            },
        }
    }

    fn focus(&mut self, pid: Option<u32>) -> (action: WindowFocusAction)
        ensures
            (*final(self), action) == old(self).shown(pid),
    {
        self.phase = WindowFocusPhase::Focusing;
        match pid {
            Some(pid) => WindowFocusAction::FocusWindowWithKnownPid(self.window_id, pid),
            None => WindowFocusAction::FocusWindow(self.window_id),
        }
    }

    fn finish(&mut self, result: Result<(), MacosNativeOperationError>) -> (action:
        WindowFocusAction)
        ensures
            (*final(self), action) == old(self).finished(result),
    {
        self.phase = WindowFocusPhase::Finished;
        WindowFocusAction::Finish(result)
    }
}

/// No window but the one that was asked for is ever focused; and it is focused only once it lies
/// in a space that is shown, be it from the start or after its space was switched to. A space of
/// Stage Manager is never switched to.
pub proof fn windows_are_focused_where_they_are_shown(
    focus: WindowFocus,
    reply: WindowFocusReply,
    next: (WindowFocus, WindowFocusAction),
)
    requires
        focus.leads_to(reply, next),
    ensures
        next.0.window_id == focus.window_id,
        next.1 matches WindowFocusAction::FocusWindow(id) ==> id == focus.window_id,
        next.1 matches WindowFocusAction::FocusWindowWithKnownPid(id, _) ==> id == focus.window_id,
        next.1 is FocusWindow || next.1 is FocusWindowWithKnownPid ==> {
            &&& next.0.phase is Focusing
            &&& focus.phase is Locating || focus.phase is Relocating
            &&& focus.phase is Locating ==> (reply matches WindowFocusReply::Topology(
                Ok(topology),
            ) && exists|space_id: u64|
                #[trigger] raw_topology::is_space_of_window(
                    *topology,
                    focus.window_id,
                    Some(space_id),
                ) && topology.active_space_ids@.contains(space_id))
        },
        next.1 matches WindowFocusAction::SwitchSpace(space_id) ==> {
            &&& focus.phase is Locating
            &&& reply matches WindowFocusReply::Topology(Ok(topology))
                && raw_topology::supported_target(*topology, space_id) is Ok
                && raw_topology::is_space_of_window(*topology, focus.window_id, Some(space_id))
                && !topology.active_space_ids@.contains(space_id)
        },
        next.0.phase is Relocating ==> focus.phase is Switching && (reply matches WindowFocusReply::Ran(
            result,
        ) && result is Ok),
{
}

/// Every reply brings a focus closer to its end, so it is over after at most four replies, and it
/// ends by saying so.
pub proof fn focuses_come_to_an_end(
    focus: WindowFocus,
    reply: WindowFocusReply,
    next: (WindowFocus, WindowFocusAction),
)
    requires
        !(focus.phase is Finished),
        focus.leads_to(reply, next),
    ensures
        next.0.remaining() < focus.remaining(),
        next.0.phase is Finished <==> next.1 is Finish,
{
}

/// A focus starts by looking at all spaces. A space that was switched to is looked at again, and what
/// fails on the way, like the outcome of the focus itself, is the result.
pub proof fn focuses_look_before_and_after_the_switch(
    window_id: u64,
    started: (WindowFocus, WindowFocusAction),
    focus: &mut WindowFocus,
    reply: WindowFocusReply,
    action: WindowFocusAction,
)
    requires
        call_ensures(focus_window_by_id, (window_id,), started),
        call_ensures(WindowFocus::advance, (focus, reply), action),
    ensures
        started.0.window_id == window_id && started.0.phase is Locating && started.1 is Topology,
        final(focus).window_id == old(focus).window_id,
        old(focus).phase is Switching && reply is Ran && reply->Ran_0 is Ok ==> action is Topology
            && final(focus).phase is Relocating,
        old(focus).phase is Switching && reply is Ran && reply->Ran_0 is Err ==> action
            == WindowFocusAction::Finish(Err(reply->Ran_0->Err_0)),
        old(focus).phase is Focusing && reply is Ran ==> action == WindowFocusAction::Finish(
            reply->Ran_0,
        ),
        (old(focus).phase is Locating || old(focus).phase is Relocating) && reply is Topology
            && reply->Topology_0 is Err ==> action == WindowFocusAction::Finish(
            Err(MacosNativeOperationError::Probe(reply->Topology_0->Err_0)),
        ),
{
}

/// A window is focused at once where it lies in an active space, after a switch to its space where that
/// is inactive, and not at all where its space cannot be acted on or no space lists it. It is focused by
/// the process that an active space gives for it, if any does.
pub proof fn windows_are_focused_in_their_space(
    focus: &mut WindowFocus,
    desktop: RawTopologySnapshot,
    action: WindowFocusAction,
)
    requires
        call_ensures(
            WindowFocus::advance,
            (focus, WindowFocusReply::Topology(Ok(&desktop))),
            action,
        ),
    ensures
        old(focus).phase is Locating ==> exists|space: Option<u64>|
            #[trigger] raw_topology::is_space_of_window(desktop, old(focus).window_id, space) && match space {
                None => action == WindowFocusAction::Finish(
                    Err(MacosNativeOperationError::MissingWindow(old(focus).window_id)),
                ),
                Some(space_id) => match raw_topology::supported_target(desktop, space_id) {
                    Err(error) => action == WindowFocusAction::Finish(Err(error)),
                    Ok(_) => if desktop.active_space_ids@.contains(space_id) {
                        is_focus_of(desktop, old(focus).window_id, action)
                    } else {
                        action == WindowFocusAction::SwitchSpace(space_id) && final(focus).phase
                            is Switching
                    },
                },
            },
        old(focus).phase is Relocating ==> is_focus_of(desktop, old(focus).window_id, action)
            && final(focus).phase is Focusing,
{
    let id = old(focus).window_id;
    let next = (*final(focus), action);
    if old(focus).phase is Locating {
        let (space, pid) = choose|space: Option<u64>, pid: Option<u32>|
            #[trigger] raw_topology::is_space_of_window(desktop, id, space)
                && #[trigger] raw_topology::is_pid_of_window(desktop, id, pid) && next
                == old(focus).located(desktop, space, pid);
        assert(raw_topology::is_space_of_window(desktop, id, space));
        assert(raw_topology::is_pid_of_window(desktop, id, pid));
    } else if old(focus).phase is Relocating {
        let pid = choose|pid: Option<u32>|
            #[trigger] raw_topology::is_pid_of_window(desktop, id, pid) && next
                == old(focus).shown(pid);
        assert(raw_topology::is_pid_of_window(desktop, id, pid));
    }
}

/// `action` focuses the window, by the process that an active space gives for it if any does.
pub open spec fn is_focus_of(
    desktop: RawTopologySnapshot,
    window_id: u64,
    action: WindowFocusAction,
) -> bool {
    match action {
        WindowFocusAction::FocusWindowWithKnownPid(id, pid) => id == window_id
            && raw_topology::is_pid_of_window(desktop, window_id, Some(pid)),
        WindowFocusAction::FocusWindow(id) => id == window_id && raw_topology::is_pid_of_window(
            desktop,
            window_id,
            None,
        ),
        _ => false,
    }
}

/// A reply to something that was not asked for ends a focus with an error of its own.
pub proof fn replies_out_of_turn_end_the_focus(
    focus: &mut WindowFocus,
    reply: WindowFocusReply,
    action: WindowFocusAction,
)
    requires
        call_ensures(WindowFocus::advance, (focus, reply), action),
        match old(focus).phase {
            WindowFocusPhase::Locating | WindowFocusPhase::Relocating => !(reply is Topology),
            WindowFocusPhase::Switching | WindowFocusPhase::Focusing => !(reply is Ran),
            WindowFocusPhase::Finished => true,
        },
    ensures
        action == WindowFocusAction::Finish(
            Err(MacosNativeOperationError::CallFailed("window_focus_reply_out_of_turn")),
        ),
{
}

} // verus!
