//! Windows as accessibility knows them: finding them, and changing their frames.
use crate::macos::types::{MacosNativeOperationError, MacosNativeProbeError, NativeBounds};
use crate::select;
use vstd::prelude::*;

verus! {

/// Asks for the focused application, for its focused window and for the identifier of that, in
/// this order, and stops at the first that is missing or fails.
pub fn focused_window_id<App, Window, FocusedApplication, FocusedWindow, WindowId>(
    focused_application: FocusedApplication,
    focused_window: FocusedWindow,
    window_id: WindowId,
) -> (result: Result<Option<u64>, MacosNativeProbeError>) where
    FocusedApplication: FnOnce() -> Result<Option<App>, MacosNativeProbeError>,
    FocusedWindow: FnOnce(&App) -> Result<Option<Window>, MacosNativeProbeError>,
    WindowId: FnOnce(&Window) -> Result<u64, MacosNativeProbeError>,

    requires
        call_requires(focused_application, ()),
        forall|application: App| #[trigger] call_requires(focused_window, (&application,)),
        forall|window: Window| #[trigger] call_requires(window_id, (&window,)),
    ensures
        exists|application: Result<Option<App>, MacosNativeProbeError>|
            #[trigger] call_ensures(focused_application, (), application) && match application {
                Err(error) => result == Err::<Option<u64>, MacosNativeProbeError>(error),
                Ok(None) => result == Ok::<Option<u64>, MacosNativeProbeError>(None),
                Ok(Some(application)) => is_window_answer(
                    focused_window,
                    window_id,
                    application,
                    result,
                ),
            },
{
    match focused_application() {
        Ok(Some(application)) => match focused_window(&application) {
            Ok(Some(window)) => match window_id(&window) {
                Ok(id) => Ok(Some(id)),
                Err(error) => Err(error),
            },
            Ok(None) => Ok(None),
            Err(error) => Err(error),
        },
        Ok(None) => Ok(None),
        Err(error) => Err(error),
    }
}

/// `result` follows from what the focused application says of its focused window.
pub open spec fn is_window_answer<
    App,
    Window,
    FocusedWindow: FnOnce(&App) -> Result<Option<Window>, MacosNativeProbeError>,
    WindowId: FnOnce(&Window) -> Result<u64, MacosNativeProbeError>,
>(
    focused_window: FocusedWindow,
    window_id: WindowId,
    application: App,
    result: Result<Option<u64>, MacosNativeProbeError>,
) -> bool {
    exists|window: Result<Option<Window>, MacosNativeProbeError>|
        #[trigger] call_ensures(focused_window, (&application,), window) && match window {
            Err(error) => result == Err::<Option<u64>, MacosNativeProbeError>(error),
            Ok(None) => result == Ok::<Option<u64>, MacosNativeProbeError>(None),
            Ok(Some(window)) => exists|id: Result<u64, MacosNativeProbeError>|
                #[trigger] call_ensures(window_id, (&window,), id) && result == match id {
                    Ok(id) => Ok::<Option<u64>, MacosNativeProbeError>(Some(id)),
                    Err(error) => Err(error),
                },
        }
}

/// The identifier that accessibility gives for an element counts if the call succeeded and it is
/// not zero.
pub fn ax_window_id(status: i32, window_id: u32) -> (result: Result<u64, MacosNativeProbeError>)
    ensures
        result == if status == 0 && window_id != 0 {
            Ok::<u64, MacosNativeProbeError>(window_id as u64)
        } else {
            Err(MacosNativeProbeError::MissingFocusedWindow)
        },
{
    if status != 0 || window_id == 0 {
        Err(MacosNativeProbeError::MissingFocusedWindow)
    } else {
        Ok(window_id as u64)
    }
}

/// The process that accessibility gives for an element counts if the call succeeded and it is
/// positive.
pub fn ax_pid(status: i32, pid: i32) -> (result: Result<u32, MacosNativeProbeError>)
    ensures
        result == if status == 0 && pid > 0 {
            Ok::<u32, MacosNativeProbeError>(pid as u32)
        } else {
            Err(MacosNativeProbeError::MissingFocusedWindow)
        },
{
    if status != 0 || pid <= 0 {
        Err(MacosNativeProbeError::MissingFocusedWindow)
    } else {
        Ok(pid as u32)
    }
}

/// The window server answers zero where it has nothing to give.
pub fn nonzero(value: u64, call: &'static str) -> (result: Result<u64, MacosNativeProbeError>)
    ensures
        result == if value != 0 {
            Ok::<u64, MacosNativeProbeError>(value)
        } else {
            Err(MacosNativeProbeError::MissingTopology(call))
        },
{
    if value != 0 {
        Ok(value)
    } else {
        Err(MacosNativeProbeError::MissingTopology(call))
    }
}

/// Which elements stand for the window.
pub open spec fn stands_for(candidates: Seq<Option<u64>>, window_id: u64) -> Seq<bool> {
    Seq::new(candidates.len(), |i: int| candidates[i] == Some(window_id))
}

/// Finds the element that stands for a window among those of an application. An element without
/// an identifier stands for no window.
pub fn find_ax_window(candidates: &Vec<Option<u64>>, window_id: u64) -> (result: Result<
    usize,
    MacosNativeOperationError,
>)
    ensures
        match select::first_set(stands_for(candidates@, window_id)) {
            Some(at) => result is Ok && result->Ok_0 == at,
            None => result == Err::<usize, MacosNativeOperationError>(
                MacosNativeOperationError::MissingWindow(window_id),
            ),
        },
{
    let ghost flags = stands_for(candidates@, window_id);
    let mut at: usize = 0;
    while at < candidates.len()
        invariant
            at <= candidates.len(),
            flags == stands_for(candidates@, window_id),
            forall|i: int| 0 <= i < at ==> !#[trigger] flags[i],
        decreases candidates.len() - at,
    {
        if let Some(id) = candidates[at] {
            if id == window_id {
                proof {
                    select::lemma_first_set(flags, at as int);
                }
                return Ok(at);
            }
        }
        assert(!flags[at as int]);
        at += 1;
    }
    proof {
        select::lemma_none_set(flags);
    }
    Err(MacosNativeOperationError::MissingWindow(window_id))
}

/// The identifiers of those elements that have one.
pub open spec fn known_ids(candidates: Seq<Option<u64>>) -> Seq<u64> {
    candidates.filter(|candidate: Option<u64>| candidate is Some).map_values(
        |candidate: Option<u64>| candidate->0,
    )
}

/// Collects the identifiers of those elements that have one.
pub fn ax_window_ids(candidates: &Vec<Option<u64>>) -> (result: Vec<u64>)
    ensures
        result@ == known_ids(candidates@),
{
    let ghost keep = |candidate: Option<u64>| candidate is Some;
    let ghost named = |candidate: Option<u64>| candidate->0;
    let mut ids: Vec<u64> = Vec::new();
    let mut at: usize = 0;
    proof {
        reveal(Seq::filter);
        assert(candidates@.take(0) =~= Seq::empty());
        assert(ids@ =~= candidates@.take(0).filter(keep).map_values(named));
    }
    while at < candidates.len()
        invariant
            at <= candidates.len(),
            keep == (|candidate: Option<u64>| candidate is Some),
            named == (|candidate: Option<u64>| candidate->0),
            ids@ == candidates@.take(at as int).filter(keep).map_values(named),
        decreases candidates.len() - at,
    {
        let ghost kept = candidates@.take(at as int).filter(keep);
        proof {
            select::lemma_filter_step(candidates@, keep, at as int);
        }
        if let Some(id) = candidates[at] {
            ids.push(id);
            assert(ids@ =~= kept.push(candidates@[at as int]).map_values(named));
        }
        at += 1;
    }
    assert(candidates@.take(at as int) =~= candidates@);
    ids
}

/// What changing the frame of a window is waiting for.
#[derive(Clone, Copy, Debug, PartialEq, Eq, Structural)]
pub enum FramePhase {
    Finding,
    MakingPosition,
    SettingPosition,
    MakingSize,
    SettingSize,
    Finished,
}

/// What the caller is to do next.
#[derive(Clone, Copy, Debug, PartialEq, Eq)]
pub enum FrameAction {
    FindWindow { window_id: u64, pid: u32 },
    MakePosition { x: i32, y: i32 },
    SetPosition,
    MakeSize { width: i32, height: i32 },
    SetSize,
    Finish(Result<(), MacosNativeOperationError>),
}

/// What came of the last action.
#[derive(Clone, Copy, Debug, PartialEq, Eq)]
pub enum FrameReply {
    /// The window was found, or not.
    Found(Result<(), MacosNativeOperationError>),
    /// Whether the value was made.
    Made(bool),
    /// The status of the call.
    Status(i32),
}

/// The frame of a window being changed: first its place, then its size.
#[derive(Clone, Copy, Debug, PartialEq, Eq, Structural)]
pub struct FrameChange {
    pub window_id: u64,
    pub pid: u32,
    pub frame: NativeBounds,
    pub phase: FramePhase,
}

impl FrameChange {
    /// The same change in another phase.
    pub open spec fn at(self, phase: FramePhase) -> FrameChange {
        FrameChange { phase, ..self }
    }

    /// The change ends with `result`.
    pub open spec fn finished(self, result: Result<(), MacosNativeOperationError>) -> (
        FrameChange,
        FrameAction,
    ) {
        (self.at(FramePhase::Finished), FrameAction::Finish(result))
    }

    /// What follows when `reply` comes in.
    pub open spec fn step(self, reply: FrameReply) -> (FrameChange, FrameAction) {
        match (self.phase, reply) {
            (FramePhase::Finding, FrameReply::Found(Ok(_))) => (
                self.at(FramePhase::MakingPosition),
                FrameAction::MakePosition { x: self.frame.x, y: self.frame.y },
            ),
            (FramePhase::Finding, FrameReply::Found(Err(error))) => self.finished(Err(error)),
            (FramePhase::MakingPosition, FrameReply::Made(true)) => (
                self.at(FramePhase::SettingPosition),
                FrameAction::SetPosition,
            ),
            (FramePhase::SettingPosition, FrameReply::Status(status)) => if status == 0 {
                (
                    self.at(FramePhase::MakingSize),
                    FrameAction::MakeSize { width: self.frame.width, height: self.frame.height },
                )
            } else {
                self.finished(
                    Err(MacosNativeOperationError::CallFailed("AXUIElementSetAttributeValue")),
                )
            },
            (FramePhase::MakingSize, FrameReply::Made(true)) => (
                self.at(FramePhase::SettingSize),
                FrameAction::SetSize,
            ),
            (FramePhase::MakingPosition | FramePhase::MakingSize, FrameReply::Made(false)) =>
                self.finished(Err(MacosNativeOperationError::CallFailed("AXValueCreate"))),
            (FramePhase::SettingSize, FrameReply::Status(status)) => self.finished(
                if status == 0 {
                    Ok(())
                } else {
                    Err(MacosNativeOperationError::CallFailed("AXUIElementSetAttributeValue"))
                },
            ),
            _ => self.finished(
                Err(MacosNativeOperationError::CallFailed("frame_change_out_of_turn")),
            ),
        }
    }

    fn finish(&mut self, result: Result<(), MacosNativeOperationError>) -> (action: FrameAction)
        ensures
            (*final(self), action) == old(self).finished(result),
    {
        self.phase = FramePhase::Finished;
        FrameAction::Finish(result)
    }

    /// Takes in what came of the last action and says what to do next.
    pub fn advance(&mut self, reply: FrameReply) -> (action: FrameAction)
        ensures
            (*final(self), action) == old(self).step(reply),
    {
        match (self.phase, reply) {
            (FramePhase::Finding, FrameReply::Found(Ok(_))) => {
                self.phase = FramePhase::MakingPosition;
                FrameAction::MakePosition { x: self.frame.x, y: self.frame.y }
            },
            (FramePhase::Finding, FrameReply::Found(Err(error))) => self.finish(Err(error)),
            (FramePhase::MakingPosition, FrameReply::Made(true)) => {
                self.phase = FramePhase::SettingPosition;
                FrameAction::SetPosition
            },
            (FramePhase::SettingPosition, FrameReply::Status(status)) => {
                if status == 0 {
                    self.phase = FramePhase::MakingSize;
                    FrameAction::MakeSize { width: self.frame.width, height: self.frame.height }
                } else {
                    self.finish(
                        Err(MacosNativeOperationError::CallFailed("AXUIElementSetAttributeValue")),
                    )
                }
            },
            (FramePhase::MakingSize, FrameReply::Made(true)) => {
                self.phase = FramePhase::SettingSize;
                FrameAction::SetSize
            },
            (FramePhase::MakingPosition | FramePhase::MakingSize, FrameReply::Made(false)) =>
                self.finish(Err(MacosNativeOperationError::CallFailed("AXValueCreate"))),
            (FramePhase::SettingSize, FrameReply::Status(status)) => {
                if status == 0 {
                    self.finish(Ok(()))
                } else {
                    self.finish(
                        Err(MacosNativeOperationError::CallFailed("AXUIElementSetAttributeValue")),
                    )
                }
            },
            _ => self.finish(
                Err(MacosNativeOperationError::CallFailed("frame_change_out_of_turn")),
            ),
        }
    }
}

/// Starts to change the frame of a window.
pub fn set_window_frame_via_ax(window_id: u64, pid: u32, frame: NativeBounds) -> (result: (
    FrameChange,
    FrameAction,
))
    ensures
        result.0 == (FrameChange { window_id, pid, frame, phase: FramePhase::Finding }),
        result.1 == (FrameAction::FindWindow { window_id, pid }),
{
    (
        FrameChange { window_id, pid, frame, phase: FramePhase::Finding },
        FrameAction::FindWindow { window_id, pid },
    )
}

/// The size is touched only after the place was set, and success is reported only when the size
/// was set as well.
pub proof fn frames_are_placed_before_they_are_sized(change: FrameChange, reply: FrameReply)
    ensures
        change.step(reply).1 is MakeSize ==> change.phase is SettingPosition && reply
            == FrameReply::Status(0),
        change.step(reply).1 is SetSize ==> change.phase is MakingSize && reply
            == FrameReply::Made(true),
        change.step(reply).1 == FrameAction::Finish(Ok(())) <==> change.phase is SettingSize
            && reply == FrameReply::Status(0),
        change.step(reply).0.frame == change.frame,
        change.step(reply).0.window_id == change.window_id,
        change.step(reply).0.pid == change.pid,
{
}

/// What a swap of two frames is waiting for.
#[derive(Clone, Copy, Debug, PartialEq, Eq, Structural)]
pub enum SwapPhase {
    DescribingSource,
    DescribingTarget { source_pid: u32 },
    PlacingSource { target_pid: u32 },
    PlacingTarget,
    Finished,
}

/// What the caller is to do next.
#[derive(Clone, Copy, Debug, PartialEq, Eq)]
pub enum SwapAction {
    /// Find out who owns a window.
    Describe(u64),
    SetFrame { window_id: u64, pid: u32, frame: NativeBounds },
    Finish(Result<(), MacosNativeOperationError>),
}

/// What came of the last action.
#[derive(Clone, Copy, Debug, PartialEq, Eq)]
pub enum SwapReply {
    /// The owner of the window, if it has one.
    Described(Result<Option<u32>, MacosNativeOperationError>),
    /// A frame was set, or not.
    Done(Result<(), MacosNativeOperationError>),
}

/// Two windows trading places.
#[derive(Clone, Copy, Debug, PartialEq, Eq, Structural)]
pub struct FrameSwap {
    pub source_window_id: u64,
    pub source_frame: NativeBounds,
    pub target_window_id: u64,
    pub target_frame: NativeBounds,
    pub phase: SwapPhase,
}

impl FrameSwap {
    /// The same swap in another phase.
    pub open spec fn at(self, phase: SwapPhase) -> FrameSwap {
        FrameSwap { phase, ..self }
    }

    /// The swap ends with `result`.
    pub open spec fn finished(self, result: Result<(), MacosNativeOperationError>) -> (
        FrameSwap,
        SwapAction,
    ) {
        (self.at(SwapPhase::Finished), SwapAction::Finish(result))
    }

    /// What follows when `reply` comes in.
    pub open spec fn step(self, reply: SwapReply) -> (FrameSwap, SwapAction) {
        match (self.phase, reply) {
            (SwapPhase::DescribingSource, SwapReply::Described(Ok(Some(source_pid)))) => (
                self.at(SwapPhase::DescribingTarget { source_pid }),
                SwapAction::Describe(self.target_window_id),
            ),
            (SwapPhase::DescribingSource, SwapReply::Described(Ok(None))) => self.finished(
                Err(MacosNativeOperationError::MissingWindowPid(self.source_window_id)),
            ),
            (
                SwapPhase::DescribingTarget { source_pid },
                SwapReply::Described(Ok(Some(target_pid))),
            ) => (
                self.at(SwapPhase::PlacingSource { target_pid }),
                SwapAction::SetFrame {
                    window_id: self.source_window_id,
                    pid: source_pid,
                    frame: self.target_frame,
                },
            ),
            (SwapPhase::DescribingTarget { .. }, SwapReply::Described(Ok(None))) => self.finished(
                Err(MacosNativeOperationError::MissingWindowPid(self.target_window_id)),
            ),
            (
                SwapPhase::DescribingSource | SwapPhase::DescribingTarget { .. },
                SwapReply::Described(Err(error)),
            ) => self.finished(Err(error)),
            (SwapPhase::PlacingSource { target_pid }, SwapReply::Done(Ok(_))) => (
                self.at(SwapPhase::PlacingTarget),
                SwapAction::SetFrame {
                    window_id: self.target_window_id,
                    pid: target_pid,
                    frame: self.source_frame,
                },
            ),
            (SwapPhase::PlacingSource { .. }, SwapReply::Done(Err(error))) => self.finished(
                Err(error),
            ),
            (SwapPhase::PlacingTarget, SwapReply::Done(result)) => self.finished(result),
            _ => self.finished(
                Err(MacosNativeOperationError::CallFailed("frame_swap_out_of_turn")),
            ),
        }
    }

    fn finish(&mut self, result: Result<(), MacosNativeOperationError>) -> (action: SwapAction)
        ensures
            (*final(self), action) == old(self).finished(result),
    {
        self.phase = SwapPhase::Finished;
        SwapAction::Finish(result)
    }

    /// Takes in what came of the last action and says what to do next.
    pub fn advance(&mut self, reply: SwapReply) -> (action: SwapAction)
        ensures
            (*final(self), action) == old(self).step(reply),
    {
        match (self.phase, reply) {
            (SwapPhase::DescribingSource, SwapReply::Described(Ok(Some(source_pid)))) => {
                self.phase = SwapPhase::DescribingTarget { source_pid };
                SwapAction::Describe(self.target_window_id)
            },
            (SwapPhase::DescribingSource, SwapReply::Described(Ok(None))) => {
                let id: u64 = self.source_window_id;
                self.finish(Err(MacosNativeOperationError::MissingWindowPid(id)))
            },
            (
                SwapPhase::DescribingTarget { source_pid },
                SwapReply::Described(Ok(Some(target_pid))),
            ) => {
                self.phase = SwapPhase::PlacingSource { target_pid };
                SwapAction::SetFrame {
                    window_id: self.source_window_id,
                    pid: source_pid,
                    frame: self.target_frame,
                }
            },
            (SwapPhase::DescribingTarget { .. }, SwapReply::Described(Ok(None))) => {
                let id: u64 = self.target_window_id;
                self.finish(Err(MacosNativeOperationError::MissingWindowPid(id)))
            },
            (
                SwapPhase::DescribingSource | SwapPhase::DescribingTarget { .. },
                SwapReply::Described(Err(error)),
            ) => self.finish(Err(error)),
            (SwapPhase::PlacingSource { target_pid }, SwapReply::Done(Ok(_))) => {
                self.phase = SwapPhase::PlacingTarget;
                SwapAction::SetFrame {
                    window_id: self.target_window_id,
                    pid: target_pid,
                    frame: self.source_frame,
                }
            },
            (SwapPhase::PlacingSource { .. }, SwapReply::Done(Err(error))) => self.finish(
                Err(error),
            ),
            (SwapPhase::PlacingTarget, SwapReply::Done(result)) => self.finish(result),
            _ => self.finish(Err(MacosNativeOperationError::CallFailed("frame_swap_out_of_turn"))),
        }
    }
}

/// Starts to let two windows trade places.
pub fn swap_window_frames(
    source_window_id: u64,
    source_frame: NativeBounds,
    target_window_id: u64,
    target_frame: NativeBounds,
) -> (result: (FrameSwap, SwapAction))
    ensures
        result.0 == (FrameSwap {
            source_window_id,
            source_frame,
            target_window_id,
            target_frame,
            phase: SwapPhase::DescribingSource,
        }),
        result.1 == SwapAction::Describe(source_window_id),
{
    (
        FrameSwap {
            source_window_id,
            source_frame,
            target_window_id,
            target_frame,
            phase: SwapPhase::DescribingSource,
        },
        SwapAction::Describe(source_window_id),
    )
}

/// No window is touched before the owners of both are known. Then the source is given the frame of
/// the target, and after that the target the frame of the source; nothing else is ever moved.
pub proof fn swapped_windows_trade_frames(
    swap: FrameSwap,
    source_pid: u32,
    target_pid: u32,
    reply: SwapReply,
)
    requires
        swap.phase is DescribingSource,
    ensures
        ({
            let (described, first) = swap.step(SwapReply::Described(Ok(Some(source_pid))));
            let (placing, second) = described.step(SwapReply::Described(Ok(Some(target_pid))));
            let (placed, third) = placing.step(SwapReply::Done(Ok(())));
            &&& !(swap.step(reply).1 is SetFrame)
            &&& first == SwapAction::Describe(swap.target_window_id)
            &&& second == (SwapAction::SetFrame {
                window_id: swap.source_window_id,
                pid: source_pid,
                frame: swap.target_frame,
            })
            &&& third == (SwapAction::SetFrame {
                window_id: swap.target_window_id,
                pid: target_pid,
                frame: swap.source_frame,
            })
            &&& placed.step(SwapReply::Done(Ok(()))).1 == SwapAction::Finish(Ok(()))
            &&& described.step(reply).1 is SetFrame ==> reply matches SwapReply::Described(
                Ok(Some(_)),
            )
        }),
{
}

/// What accessibility and the window server answer counts only if the call succeeded and the answer is
/// not zero.
pub proof fn answers_count_unless_they_are_zero(
    status: i32,
    window_id: u32,
    pid: i32,
    value: u64,
    call: &'static str,
    id: Result<u64, MacosNativeProbeError>,
    process: Result<u32, MacosNativeProbeError>,
    number: Result<u64, MacosNativeProbeError>,
)
    requires
        call_ensures(ax_window_id, (status, window_id), id),
        call_ensures(ax_pid, (status, pid), process),
        call_ensures(nonzero, (value, call), number),
    ensures
        id is Ok <==> status == 0 && window_id != 0,
        id matches Ok(read) ==> read == window_id,
        id matches Err(error) ==> error is MissingFocusedWindow,
        process is Ok <==> status == 0 && pid > 0,
        process matches Ok(read) ==> read == pid,
        process matches Err(error) ==> error is MissingFocusedWindow,
        number is Ok <==> value != 0,
        number matches Ok(read) ==> read == value,
        number matches Err(error) ==> error == MacosNativeProbeError::MissingTopology(call),
{
}

/// A window is found as the first element that carries its identifier, and is missing where none does.
pub proof fn the_first_element_of_a_window_is_found(
    candidates: Vec<Option<u64>>,
    window_id: u64,
    result: Result<usize, MacosNativeOperationError>,
)
    requires
        call_ensures(find_ax_window, (&candidates, window_id), result),
    ensures
        match result {
            Ok(at) => at < candidates@.len() && candidates@[at as int] == Some(window_id) && forall|
                i: int,
            |
                0 <= i < at ==> #[trigger] candidates@[i] != Some(window_id),
            Err(error) => error == MacosNativeOperationError::MissingWindow(window_id)
                && !candidates@.contains(Some(window_id)),
        },
{
    let flags = stands_for(candidates@, window_id);
    select::first_set_finds_the_first(flags);
    assert forall|i: int| 0 <= i < candidates@.len() implies flags[i] == (
    #[trigger] candidates@[i] == Some(window_id)) by {}
}

/// The identifiers of an application's windows are those of its elements, in their order; elements
/// without one are passed over.
pub proof fn elements_without_identifier_are_passed_over(
    candidates: Vec<Option<u64>>,
    result: Vec<u64>,
) -> (places: Seq<int>)
    requires
        call_ensures(ax_window_ids, (&candidates,), result),
    ensures
        places.len() == result@.len(),
        forall|i: int, j: int|
            0 <= i < j < places.len() ==> #[trigger] places[i] < #[trigger] places[j],
        forall|i: int|
            0 <= i < places.len() ==> 0 <= #[trigger] places[i] < candidates@.len()
                && candidates@[places[i]] == Some(result@[i]),
        forall|k: int|
            0 <= k < candidates@.len() && (#[trigger] candidates@[k]) is Some ==> places.contains(
                k,
            ),
{
    let keep = |candidate: Option<u64>| candidate is Some;
    let pick = |candidate: Option<u64>| candidate->0;
    let places = select::lemma_filter_order(candidates@, keep);
    assert(result@ == candidates@.filter(keep).map_values(pick));
    assert forall|i: int| 0 <= i < places.len() implies 0 <= #[trigger] places[i]
        < candidates@.len() && candidates@[places[i]] == Some(result@[i]) by {
        assert(keep(candidates@[places[i]]));
        assert(result@[i] == pick(candidates@.filter(keep)[i]));
    }
    assert forall|k: int| 0 <= k < candidates@.len() && (
    #[trigger] candidates@[k]) is Some implies places.contains(k) by {
        assert(keep(candidates@[k]));
    }
    places
}

/// A frame is set by finding the window of its process, then its corner and then its extent; each is
/// made from the frame that was asked for, and the first step that fails is what is reported.
pub proof fn frames_are_set_as_asked(
    window_id: u64,
    pid: u32,
    frame: NativeBounds,
    started: (FrameChange, FrameAction),
    error: MacosNativeOperationError,
    status: i32,
)
    requires
        call_ensures(set_window_frame_via_ax, (window_id, pid, frame), started),
        status != 0,
    ensures
        ({
            let (change, first) = started;
            let (placing, second) = change.step(FrameReply::Found(Ok(())));
            let (placed, third) = placing.step(FrameReply::Made(true));
            let (sizing, fourth) = placed.step(FrameReply::Status(0));
            let (sized, fifth) = sizing.step(FrameReply::Made(true));
            &&& first == (FrameAction::FindWindow { window_id, pid })
            &&& change.step(FrameReply::Found(Err(error))).1 == FrameAction::Finish(Err(error))
            &&& second == (FrameAction::MakePosition { x: frame.x, y: frame.y })
            &&& placing.step(FrameReply::Made(false)).1 == FrameAction::Finish(
                Err(MacosNativeOperationError::CallFailed("AXValueCreate")),
            )
            &&& third is SetPosition
            &&& placed.step(FrameReply::Status(status)).1 == FrameAction::Finish(
                Err(MacosNativeOperationError::CallFailed("AXUIElementSetAttributeValue")),
            )
            &&& fourth == (FrameAction::MakeSize { width: frame.width, height: frame.height })
            &&& sizing.step(FrameReply::Made(false)).1 == FrameAction::Finish(
                Err(MacosNativeOperationError::CallFailed("AXValueCreate")),
            )
            &&& fifth is SetSize
            &&& sized.step(FrameReply::Status(status)).1 == FrameAction::Finish(
                Err(MacosNativeOperationError::CallFailed("AXUIElementSetAttributeValue")),
            )
            &&& sized.step(FrameReply::Status(0)).1 == FrameAction::Finish(Ok(()))
        }),
{
}

/// A swap starts at the source. A window without an owner is named in the error, and any other failure
/// is passed on as it is; what fails leaves the rest undone.
pub proof fn swaps_name_what_is_missing(
    source_window_id: u64,
    source_frame: NativeBounds,
    target_window_id: u64,
    target_frame: NativeBounds,
    started: (FrameSwap, SwapAction),
    source_pid: u32,
    target_pid: u32,
    error: MacosNativeOperationError,
)
    requires
        call_ensures(
            swap_window_frames,
            (source_window_id, source_frame, target_window_id, target_frame),
            started,
        ),
    ensures
        ({
            let (swap, first) = started;
            let (described, second) = swap.step(SwapReply::Described(Ok(Some(source_pid))));
            let (placing, third) = described.step(SwapReply::Described(Ok(Some(target_pid))));
            let (placed, fourth) = placing.step(SwapReply::Done(Ok(())));
            &&& first == SwapAction::Describe(source_window_id)
            &&& second == SwapAction::Describe(target_window_id)
            &&& third == (SwapAction::SetFrame {
                window_id: source_window_id,
                pid: source_pid,
                frame: target_frame,
            })
            &&& fourth == (SwapAction::SetFrame {
                window_id: target_window_id,
                pid: target_pid,
                frame: source_frame,
            })
            &&& placed.step(SwapReply::Done(Ok(()))).1 == SwapAction::Finish(Ok(()))
            &&& swap.step(SwapReply::Described(Ok(None))).1 == SwapAction::Finish(
                Err(MacosNativeOperationError::MissingWindowPid(source_window_id)),
            )
            &&& described.step(SwapReply::Described(Ok(None))).1 == SwapAction::Finish(
                Err(MacosNativeOperationError::MissingWindowPid(target_window_id)),
            )
            &&& swap.step(SwapReply::Described(Err(error))).1 == SwapAction::Finish(Err(error))
            &&& described.step(SwapReply::Described(Err(error))).1 == SwapAction::Finish(Err(error))
            &&& placing.step(SwapReply::Done(Err(error))).1 == SwapAction::Finish(Err(error))
            &&& placed.step(SwapReply::Done(Err(error))).1 == SwapAction::Finish(Err(error))
        }),
{
}

/// The focus is asked for step by step: whatever the application, its window or the identifier of that
/// is answered with decides, and nothing is asked for after a step that gave nothing.
pub proof fn the_focus_is_asked_for_step_by_step<
    App,
    Window,
    FocusedApplication: FnOnce() -> Result<Option<App>, MacosNativeProbeError>,
    FocusedWindow: FnOnce(&App) -> Result<Option<Window>, MacosNativeProbeError>,
    WindowId: FnOnce(&Window) -> Result<u64, MacosNativeProbeError>,
>(
    focused_application: FocusedApplication,
    focused_window: FocusedWindow,
    window_id: WindowId,
    application: Result<Option<App>, MacosNativeProbeError>,
    window: Result<Option<Window>, MacosNativeProbeError>,
    id: Result<u64, MacosNativeProbeError>,
    result: Result<Option<u64>, MacosNativeProbeError>,
)
    requires
        call_ensures(
            focused_window_id::<App, Window, FocusedApplication, FocusedWindow, WindowId>,
            (focused_application, focused_window, window_id),
            result,
        ),
        forall|answer: Result<Option<App>, MacosNativeProbeError>|
            call_ensures(focused_application, (), answer) ==> answer == application,
        application matches Ok(Some(found)) ==> forall|
            answer: Result<Option<Window>, MacosNativeProbeError>,
        | call_ensures(focused_window, (&found,), answer) ==> answer == window,
        window matches Ok(Some(found)) ==> forall|answer: Result<u64, MacosNativeProbeError>|
            call_ensures(window_id, (&found,), answer) ==> answer == id,
    ensures
        result == match application {
            Err(error) => Err::<Option<u64>, MacosNativeProbeError>(error),
            Ok(None) => Ok(None),
            Ok(Some(_)) => match window {
                Err(error) => Err(error),
                Ok(None) => Ok(None),
                Ok(Some(_)) => match id {
                    Err(error) => Err(error),
                    Ok(id) => Ok(Some(id)),
                },
            },
        },
{
}

/// Every reply moves a change of a frame, or a swap, on by one step; one to something that was not asked
/// for ends it with an error of its own.
pub proof fn replies_are_taken_in_step_by_step(
    change: &mut FrameChange,
    frame_reply: FrameReply,
    frame_action: FrameAction,
    swap: &mut FrameSwap,
    swap_reply: SwapReply,
    swap_action: SwapAction,
)
    requires
        call_ensures(FrameChange::advance, (change, frame_reply), frame_action),
        call_ensures(FrameSwap::advance, (swap, swap_reply), swap_action),
    ensures
        (*final(change), frame_action) == old(change).step(frame_reply),
        (*final(swap), swap_action) == old(swap).step(swap_reply),
        old(change).phase is Finding && !(frame_reply is Found) || (old(change).phase
            is MakingPosition || old(change).phase is MakingSize) && !(frame_reply is Made) || (old(
            change,
        ).phase is SettingPosition || old(change).phase is SettingSize) && !(frame_reply is Status)
            || old(change).phase is Finished ==> frame_action == FrameAction::Finish(
            Err(MacosNativeOperationError::CallFailed("frame_change_out_of_turn")),
        ),
        (old(swap).phase is DescribingSource || old(swap).phase is DescribingTarget) && !(swap_reply
            is Described) || (old(swap).phase is PlacingSource || old(swap).phase is PlacingTarget)
            && !(swap_reply is Done) || old(swap).phase is Finished ==> swap_action
            == SwapAction::Finish(
            Err(MacosNativeOperationError::CallFailed("frame_swap_out_of_turn")),
        ),
{
}

} // verus!
