//! What a session with the macOS desktop reports and how it carries out directional commands.
use crate::capability::{
    validate_declared_capabilities, CapabilitySupport, DirectionalCapability,
    PrimitiveWindowManagerCapabilities, WindowManagerCapabilities,
    WindowManagerCapabilityDescriptor,
};
use crate::error::WmError;
use crate::macos::message;
use crate::macos::outer;
use crate::macos::outer::{
    focus_rects, move_rects, outer_best_window_in_space, outer_topology_from_native_snapshot,
    resolved_outer_focused_window, select_focus_target_from_outer_topology,
    select_move_target_from_outer_topology, FocusTarget, MoveTarget, OuterMacosTopology,
    OuterMacosWindow, OuterModel,
};
use crate::macos::snapshot;
use crate::macos::snapshot::resolved_focused_native_window;
use crate::macos::types;
use crate::macos::types::{
    map_probe_error, native_bounds_from_outer, native_direction_from_outer,
    ActiveSpaceFocusTargetHint, DesktopError, MacosNativeConnectError, MacosNativeOperationError,
    MacosNativeProbeError, NativeBounds, NativeDesktopSnapshot, NativeDirection, NativeWindowSnapshot,
};
use crate::process;
use crate::process::ProcessId;
use crate::select;
use crate::session;
use crate::session::{FloatingFocusMode, FocusedWindowRecord, WindowRecord};
use crate::text;
use crate::topology;
use crate::topology::{DirectedRect, Direction};
use vstd::prelude::*;
use vstd::string::*;

verus! {

/// Talks to the macOS desktop.
#[derive(Debug)]
pub struct MacosNativeAdapter;

impl WindowManagerCapabilityDescriptor for MacosNativeAdapter {
    open spec fn label() -> Seq<char> {
        "macos_native"@
    }

    open spec fn declared() -> WindowManagerCapabilities {
        WindowManagerCapabilities {
            primitives: PrimitiveWindowManagerCapabilities {
                tear_out_right: false,
                move_column: false,
                consume_into_column_and_move: false,
                set_window_width: false,
                set_window_height: false,
            },
            tear_out: DirectionalCapability::all(CapabilitySupport::Unsupported),
            resize: DirectionalCapability::all(CapabilitySupport::Unsupported),
        }
    }

    fn name() -> (result: &'static str) {
        "macos_native"
    }

    fn capabilities() -> (result: WindowManagerCapabilities) {
        WindowManagerCapabilities {
            primitives: PrimitiveWindowManagerCapabilities {
                tear_out_right: false,
                move_column: false,
                consume_into_column_and_move: false,
                set_window_width: false,
                set_window_height: false,
            },
            tear_out: DirectionalCapability::uniform(CapabilitySupport::Unsupported),
            resize: DirectionalCapability::uniform(CapabilitySupport::Unsupported),
        }
    }
}

impl MacosNativeAdapter {
    /// Makes an adapter, given what came of looking at the environment. The capabilities that it
    /// declares are valid, so it works exactly if the environment is good.
    pub fn connect(environment: Result<(), MacosNativeConnectError>) -> (result: Result<
        MacosNativeAdapter,
        WmError,
    >)
        ensures
            match (environment, result) {
                (Ok(_), Ok(_)) => true,
                (Err(fault), Err(error)) => error matches WmError::Adapter(text) && text@
                    == message::connect_text(fault),
                _ => false,
            },
    {
        if let Err(error) = validate_declared_capabilities::<MacosNativeAdapter>() {
            return Err(error);
        }
        match environment {
            Ok(_) => Ok(MacosNativeAdapter),
            Err(fault) => Err(WmError::Adapter(fault.message())),
        }
    }

    /// Says which windows the focus moves between: windows float on this desktop.
    pub fn floating_focus_mode() -> (result: FloatingFocusMode)
        ensures
            result == FloatingFocusMode::FloatingOnly,
    {
        FloatingFocusMode::FloatingOnly
    }
}

/// The place of a window in its stack; zero where it has none.
pub open spec fn tile_index(order_index: Option<usize>) -> usize {
    match order_index {
        Some(index) => index,
        None => 0,
    }
}

/// The record of a window, given which window has the focus.
pub open spec fn window_record(window: NativeWindowSnapshot, focused: Option<u64>) -> WindowRecord {
    WindowRecord {
        id: window.id,
        app_id: window.app_id,
        title: window.title,
        pid: ProcessId::from_optional_number(window.pid),
        is_focused: focused == Some(window.id),
        original_tile_index: tile_index(window.order_index),
    }
}

/// The identifier of the focused window.
pub open spec fn focused_id(desktop: NativeDesktopSnapshot) -> Option<u64> {
    match snapshot::focused_window(desktop) {
        Some(window) => Some(window.id),
        None => None,
    }
}

/// Records every window of the desktop.
pub fn window_records_from_native(desktop: &NativeDesktopSnapshot) -> (result: Vec<WindowRecord>)
    ensures
        result@ == desktop.windows@.map_values(
            |window: NativeWindowSnapshot| window_record(window, focused_id(*desktop)),
        ),
{
    let focused: Option<u64> = match resolved_focused_native_window(desktop) {
        Ok(window) => Some(window.id),
        Err(_) => None,
    };
    let mut records: Vec<WindowRecord> = Vec::new();
    let mut at: usize = 0;
    while at < desktop.windows.len()
        invariant
            at <= desktop.windows.len(),
            focused == focused_id(*desktop),
            records.len() == at,
            forall|i: int|
                0 <= i < at ==> #[trigger] records@[i] == window_record(
                    desktop.windows@[i],
                    focused_id(*desktop),
                ),
        decreases desktop.windows.len() - at,
    {
        let window: NativeWindowSnapshot = desktop.windows[at].clone();
        let is_focused: bool = match focused {
            Some(id) => id == window.id,
            None => false,
        };
        records.push(
            WindowRecord {
                id: window.id,
                app_id: window.app_id,
                title: window.title,
                pid: ProcessId::from_optional(window.pid),
                is_focused,
                original_tile_index: match window.order_index {
                    Some(index) => index,
                    None => 0,
                },
            },
        );
        at += 1;
    }
    assert(records@ =~= desktop.windows@.map_values(
        |window: NativeWindowSnapshot| window_record(window, focused_id(*desktop)),
    ));
    records
}

/// Records the focused window of the desktop.
pub fn focused_window_record_from_native(desktop: &NativeDesktopSnapshot) -> (result: Result<
    FocusedWindowRecord,
    DesktopError,
>)
    ensures
        result == match snapshot::focused_window(*desktop) {
            Some(window) => Ok::<FocusedWindowRecord, DesktopError>(
                session::as_focused(window_record(window, Some(window.id))),
            ),
            None => Err(DesktopError::NoFocusedWindow),
        },
{
    match resolved_focused_native_window(desktop) {
        Ok(window) => {
            let window: NativeWindowSnapshot = window.clone();
            Ok(
                FocusedWindowRecord {
                    id: window.id,
                    app_id: window.app_id,
                    title: window.title,
                    pid: ProcessId::from_optional(window.pid),
                    original_tile_index: match window.order_index {
                        Some(index) => index,
                        None => 0,
                    },
                },
            )
        },
        Err(error) => Err(map_probe_error(error)),
    }
}

/// The application that has the focus.
#[derive(Debug, PartialEq, Eq)]
pub struct FocusedAppRecord {
    pub app_id: String,
    pub title: String,
    pub pid: ProcessId,
}

/// The text, or nothing where there is none.
pub open spec fn text_or_empty(s: Option<String>) -> Seq<char> {
    match s {
        Some(s) => s@,
        None => Seq::empty(),
    }
}

fn or_empty(s: Option<String>) -> (result: String)
    ensures
        result@ == text_or_empty(s),
{
    match s {
        Some(s) => s,
        None => {
            proof {
                reveal_strlit("");
            }
            let empty: String = "".to_owned();
            assert(empty@ =~= Seq::empty());
            empty
        },
    }
}

/// Records the application that has the focus. Without a focused window, or if its owner is not
/// known, there is none.
pub fn focused_app_record_from_native(desktop: &NativeDesktopSnapshot) -> (result: Result<
    FocusedAppRecord,
    DesktopError,
>)
    ensures
        match result {
            Ok(record) => {
                &&& snapshot::focused_window(*desktop) matches Some(window)
                &&& ProcessId::from_optional_number(window.pid) == Some(record.pid)
                &&& record.app_id@ == text_or_empty(window.app_id)
                &&& record.title@ == text_or_empty(window.title)
            },
            Err(error) => error == DesktopError::NoFocusedWindow && (snapshot::focused_window(
                *desktop,
            ) matches Some(window) ==> ProcessId::from_optional_number(window.pid) is None),
        },
{
    match focused_window_record_from_native(desktop) {
        Ok(focused) => match focused.pid {
            Some(pid) => Ok(
                FocusedAppRecord {
                    app_id: or_empty(focused.app_id),
                    title: or_empty(focused.title),
                    pid,
                },
            ),
            None => Err(map_probe_error(MacosNativeProbeError::MissingFocusedWindow)),
        },
        Err(error) => Err(error),
    }
}

/// At most one identifier is reported as focused, it is that of the focused window, and that
/// window is reported wherever there is one.
pub proof fn records_agree_on_the_focus(desktop: NativeDesktopSnapshot, at: int)
    requires
        0 <= at < desktop.windows@.len(),
    ensures
        ({
            let focused = focused_id(desktop);
            let record = window_record(desktop.windows@[at], focused);
            &&& record.is_focused <==> focused == Some(record.id)
            &&& focused matches Some(id) ==> exists|i: int|
                0 <= i < desktop.windows@.len() && #[trigger] window_record(
                    desktop.windows@[i],
                    focused,
                ) == window_record(snapshot::focused_window(desktop)->0, focused)
        }),
{
    let focused = focused_id(desktop);
    if focused is Some {
        snapshot::focused_window_is_listed(desktop);
        let i = choose|i: int|
            0 <= i < desktop.windows@.len() && #[trigger] desktop.windows@[i]
                == snapshot::focused_window(desktop)->0;
        assert(window_record(desktop.windows@[i], focused) == window_record(
            snapshot::focused_window(desktop)->0,
            focused,
        ));
    }
}

/// What a directional command does.
#[derive(Clone, Copy, Debug, PartialEq, Eq, Structural)]
pub enum CommandKind {
    Focus,
    Move,
}

/// What a directional command is waiting for.
#[derive(Debug, PartialEq, Eq)]
pub enum CommandPhase {
    /// The desktop is being inspected.
    Probing,
    /// The closest window towards the direction was asked for.
    Choosing { topology: OuterMacosTopology },
    /// The next space is being switched to.
    Switching { target_space_id: u64 },
    /// The desktop is being inspected again, after the switch.
    Landing { target_space_id: u64 },
    /// The last operation is under way.
    Finishing,
    /// Nothing is left to do.
    Finished,
}

/// A phase of a directional command, over plain sequences.
pub enum PhaseModel {
    Probing,
    Choosing { topology: OuterModel },
    Switching { target_space_id: u64 },
    Landing { target_space_id: u64 },
    Finishing,
    Finished,
}

/// What the caller is to do next.
#[derive(Clone, Copy, Debug, PartialEq, Eq)]
pub enum CommandAction {
    /// Inspect the desktop.
    Probe,
    /// Find the window closest to the given one among the command's choices, by the configured
    /// strategy where the command goes by it.
    Choose { focused_id: u64 },
    /// Focus a window in an active space.
    FocusSameSpace { window_id: u64, direction: NativeDirection },
    /// Switch to the adjacent space.
    SwitchSpace { space_id: u64, adjacent: NativeDirection },
    /// Focus a window in the space that was switched to, of a known owner.
    FocusInActiveSpace { window_id: u64, pid: u32, hint: Option<ActiveSpaceFocusTargetHint> },
    /// Focus a window in the space that was switched to.
    FocusWindow { window_id: u64 },
    /// Let two windows trade places.
    SwapFrames {
        source_window_id: u64,
        source_frame: NativeBounds,
        target_window_id: u64,
        target_frame: NativeBounds,
    },
    /// Move a window to another space.
    MoveToSpace { window_id: u64, space_id: u64 },
    Finish(Result<(), DesktopError>),
}

/// What came of the last action.
pub enum CommandReply<'a> {
    Probed(Result<&'a NativeDesktopSnapshot, MacosNativeProbeError>),
    Chosen(Option<u64>),
    Ran(Result<(), MacosNativeOperationError>),
}

/// A directional command that is being carried out.
#[derive(Debug, PartialEq, Eq)]
pub struct DirectionalCommand {
    pub kind: CommandKind,
    pub direction: Direction,
    pub phase: CommandPhase,
}

/// A directional command, over plain sequences.
pub struct CommandModel {
    pub kind: CommandKind,
    pub direction: Direction,
    pub phase: PhaseModel,
}

impl View for CommandPhase {
    type V = PhaseModel;

    open spec fn view(&self) -> PhaseModel {
        match self {
            CommandPhase::Probing => PhaseModel::Probing,
            CommandPhase::Choosing { topology } => PhaseModel::Choosing { topology: topology@ },
            CommandPhase::Switching { target_space_id } => PhaseModel::Switching {
                target_space_id: *target_space_id,
            },
            CommandPhase::Landing { target_space_id } => PhaseModel::Landing {
                target_space_id: *target_space_id,
            },
            CommandPhase::Finishing => PhaseModel::Finishing,
            CommandPhase::Finished => PhaseModel::Finished,
        }
    }
}

impl View for DirectionalCommand {
    type V = CommandModel;

    open spec fn view(&self) -> CommandModel {
        CommandModel { kind: self.kind, direction: self.direction, phase: self.phase@ }
    }
}

/// The outcome of an operation, as the outcome of a command.
pub open spec fn operation_outcome(result: Result<(), MacosNativeOperationError>) -> Result<
    (),
    DesktopError,
> {
    match result {
        Ok(_) => Ok(()),
        Err(error) => Err(DesktopError::Operation(error)),
    }
}

/// Where a window was last seen.
pub open spec fn hint_of(window: OuterMacosWindow) -> Option<ActiveSpaceFocusTargetHint> {
    match window.bounds {
        Some(rect) => Some(
            ActiveSpaceFocusTargetHint {
                space_id: window.space_id,
                bounds: types::bounds_of(rect),
            },
        ),
        None => None,
    }
}

impl CommandModel {
    /// The same command in another phase.
    pub open spec fn at(self, phase: PhaseModel) -> CommandModel {
        CommandModel { phase, ..self }
    }

    /// The command ends with `result`.
    pub open spec fn finished(self, result: Result<(), DesktopError>) -> (
        CommandModel,
        CommandAction,
    ) {
        (self.at(PhaseModel::Finished), CommandAction::Finish(result))
    }

    /// The closest window is to be found by the configured focus strategy.
    pub open spec fn goes_by_focus_strategy(self) -> bool {
        self.kind == CommandKind::Focus
    }

    /// The frames among which the closest window is to be found.
    pub open spec fn choices(self) -> Seq<DirectedRect> {
        match self.phase {
            PhaseModel::Choosing { topology } => match topology.focused() {
                Some(focused) => match self.kind {
                    CommandKind::Focus => topology.focus_rects(focused),
                    CommandKind::Move => topology.nearby_rects(focused.space_id),
                },
                None => Seq::empty(),
            },
            _ => Seq::empty(),
        }
    }

    /// What follows once the desktop was inspected.
    pub open spec fn after_probe(self, topology: OuterModel) -> (CommandModel, CommandAction) {
        match topology.focused() {
            Some(focused) => (
                self.at(PhaseModel::Choosing { topology }),
                CommandAction::Choose { focused_id: focused.id },
            ),
            None => self.finished(Err(DesktopError::NoFocusedWindow)),
        }
    }

    /// What follows once the closest window is known.
    pub open spec fn after_choice(self, topology: OuterModel, chosen: Option<u64>) -> (
        CommandModel,
        CommandAction,
    ) {
        match self.kind {
            CommandKind::Focus => match topology.focus_command(self.direction, chosen) {
                Ok(FocusTarget::SameSpace { window_id }) => (
                    self.at(PhaseModel::Finishing),
                    CommandAction::FocusSameSpace {
                        window_id,
                        direction: types::native_direction(self.direction),
                    },
                ),
                Ok(FocusTarget::CrossSpace { target_space_id }) => (
                    self.at(PhaseModel::Switching { target_space_id }),
                    CommandAction::SwitchSpace {
                        space_id: target_space_id,
                        adjacent: types::native_direction(self.direction),
                    },
                ),
                Err(error) => self.finished(Err(error)),
            },
            CommandKind::Move => match topology.move_command(self.direction, chosen) {
                Ok(
                    MoveTarget::NeighborSwap {
                        source_window_id,
                        source_frame,
                        target_window_id,
                        target_frame,
                    },
                ) => (
                    self.at(PhaseModel::Finishing),
                    CommandAction::SwapFrames {
                        source_window_id,
                        source_frame: types::bounds_of(source_frame),
                        target_window_id,
                        target_frame: types::bounds_of(target_frame),
                    },
                ),
                Ok(MoveTarget::CrossSpace { window_id, target_space_id }) => (
                    self.at(PhaseModel::Finishing),
                    CommandAction::MoveToSpace { window_id, space_id: target_space_id },
                ),
                Err(error) => self.finished(Err(error)),
            },
        }
    }

    /// What follows once the desktop was inspected after a switch. The space is entered at the
    /// side where it was left last, so its nearest window is the outermost one opposite to the
    /// direction of the command. A space without a window needs nothing more.
    pub open spec fn after_landing(self, topology: OuterModel, target_space_id: u64) -> (
        CommandModel,
        CommandAction,
    ) {
        match topology.best_window(target_space_id, self.direction.spec_opposite()) {
            Some(window) => match window.pid {
                Some(pid) => (
                    self.at(PhaseModel::Finishing),
                    CommandAction::FocusInActiveSpace {
                        window_id: window.id,
                        pid,
                        hint: hint_of(window),
                    },
                ),
                None => (
                    self.at(PhaseModel::Finishing),
                    CommandAction::FocusWindow { window_id: window.id },
                ),
            },
            None => self.finished(Ok(())),
        }
    }

    /// What follows when `reply` comes in.
    pub open spec fn step(self, reply: CommandReply) -> (CommandModel, CommandAction) {
        match (self.phase, reply) {
            (PhaseModel::Probing, CommandReply::Probed(Ok(desktop))) => self.after_probe(
                outer::outer_model(*desktop),
            ),
            (PhaseModel::Choosing { topology }, CommandReply::Chosen(chosen)) => self.after_choice(
                topology,
                chosen,
            ),
            (PhaseModel::Switching { target_space_id }, CommandReply::Ran(Ok(_))) => (
                self.at(PhaseModel::Landing { target_space_id }),
                CommandAction::Probe,
            ),
            (PhaseModel::Landing { target_space_id }, CommandReply::Probed(Ok(desktop))) =>
                self.after_landing(outer::outer_model(*desktop), target_space_id),
            (
                PhaseModel::Probing | PhaseModel::Landing { .. },
                CommandReply::Probed(Err(error)),
            ) => self.finished(Err(types::probe_failure(error))),
            (PhaseModel::Switching { .. }, CommandReply::Ran(Err(error))) => self.finished(
                Err(DesktopError::Operation(error)),
            ),
            (PhaseModel::Finishing, CommandReply::Ran(result)) => self.finished(
                operation_outcome(result),
            ),
            _ => self.finished(
                Err(
                    DesktopError::Operation(
                        MacosNativeOperationError::CallFailed("directional_command_out_of_turn"),
                    ),
                ),
            ),
        }
    }

    /// How many replies the command may still wait for.
    pub open spec fn remaining(self) -> nat {
        match self.phase {
            PhaseModel::Probing => 5,
            PhaseModel::Choosing { .. } => 4,
            PhaseModel::Switching { .. } => 3,
            PhaseModel::Landing { .. } => 2,
            PhaseModel::Finishing => 1,
            PhaseModel::Finished => 0,
        }
    }
}

/// Starts a command that focuses the next window or space towards `direction`.
pub fn focus_direction(direction: Direction) -> (result: (DirectionalCommand, CommandAction))
    ensures
        result.0@ == (CommandModel {
            kind: CommandKind::Focus,
            direction,
            phase: PhaseModel::Probing,
        }),
        result.1 == CommandAction::Probe,
{
    (
        DirectionalCommand { kind: CommandKind::Focus, direction, phase: CommandPhase::Probing },
        CommandAction::Probe,
    )
}

/// Starts a command that moves the focused window towards `direction`.
pub fn move_direction(direction: Direction) -> (result: (DirectionalCommand, CommandAction))
    ensures
        result.0@ == (CommandModel {
            kind: CommandKind::Move,
            direction,
            phase: PhaseModel::Probing,
        }),
        result.1 == CommandAction::Probe,
{
    (
        DirectionalCommand { kind: CommandKind::Move, direction, phase: CommandPhase::Probing },
        CommandAction::Probe,
    )
}

impl DirectionalCommand {
    /// Tells whether the closest window is to be found by the configured focus strategy. Only a
    /// command that focuses goes by it.
    pub fn goes_by_focus_strategy(&self) -> (result: bool)
        ensures
            result == (self.kind == CommandKind::Focus),
            result == self@.goes_by_focus_strategy(),
    {
        match self.kind {
            CommandKind::Focus => true,
            CommandKind::Move => false,
        }
    }

    /// Collects the frames among which the closest window is to be found.
    pub fn choices(&self) -> (result: Vec<DirectedRect>)
        ensures
            result@ == self@.choices(),
    {
        match &self.phase {
            CommandPhase::Choosing { topology } => match resolved_outer_focused_window(topology) {
                Some(focused) => match self.kind {
                    CommandKind::Focus => focus_rects(topology, &focused),
                    CommandKind::Move => move_rects(topology, &focused),
                },
                None => Vec::new(),
            },
            _ => Vec::new(),
        }
    }

    fn finish(&mut self, result: Result<(), DesktopError>) -> (action: CommandAction)
        ensures
            (final(self)@, action) == old(self)@.finished(result),
    {
        self.phase = CommandPhase::Finished;
        CommandAction::Finish(result)
    }

    fn probed(&mut self, desktop: &NativeDesktopSnapshot) -> (action: CommandAction)
        ensures
            (final(self)@, action) == old(self)@.after_probe(outer::outer_model(*desktop)),
    {
        let topology: OuterMacosTopology = outer_topology_from_native_snapshot(desktop);
        match resolved_outer_focused_window(&topology) {
            Some(focused) => {
                self.phase = CommandPhase::Choosing { topology };
                CommandAction::Choose { focused_id: focused.id }
            },
            None => self.finish(Err(DesktopError::NoFocusedWindow)),
        }
    }

    fn focus_chosen(&mut self, target: Result<FocusTarget, DesktopError>) -> (action:
        CommandAction)
        ensures
            final(self).kind == old(self).kind,
            final(self).direction == old(self).direction,
            (final(self)@, action) == match target {
                Ok(FocusTarget::SameSpace { window_id }) => (
                    old(self)@.at(PhaseModel::Finishing),
                    CommandAction::FocusSameSpace {
                        window_id,
                        direction: types::native_direction(old(self).direction),
                    },
                ),
                Ok(FocusTarget::CrossSpace { target_space_id }) => (
                    old(self)@.at(PhaseModel::Switching { target_space_id }),
                    CommandAction::SwitchSpace {
                        space_id: target_space_id,
                        adjacent: types::native_direction(old(self).direction),
                    },
                ),
                Err(error) => old(self)@.finished(Err(error)),
            },
    {
        match target {
            Ok(FocusTarget::SameSpace { window_id }) => {
                self.phase = CommandPhase::Finishing;
                CommandAction::FocusSameSpace {
                    window_id,
                    direction: native_direction_from_outer(self.direction),
                }
            },
            Ok(FocusTarget::CrossSpace { target_space_id }) => {
                self.phase = CommandPhase::Switching { target_space_id };
                CommandAction::SwitchSpace {
                    space_id: target_space_id,
                    adjacent: native_direction_from_outer(self.direction),
                }
            },
            Err(error) => self.finish(Err(error)),
        }
    }

    fn move_chosen(&mut self, target: Result<MoveTarget, DesktopError>) -> (action: CommandAction)
        ensures
            final(self).kind == old(self).kind,
            final(self).direction == old(self).direction,
            (final(self)@, action) == match target {
                Ok(
                    MoveTarget::NeighborSwap {
                        source_window_id,
                        source_frame,
                        target_window_id,
                        target_frame,
                    },
                ) => (
                    old(self)@.at(PhaseModel::Finishing),
                    CommandAction::SwapFrames {
                        source_window_id,
                        source_frame: types::bounds_of(source_frame),
                        target_window_id,
                        target_frame: types::bounds_of(target_frame),
                    },
                ),
                Ok(MoveTarget::CrossSpace { window_id, target_space_id }) => (
                    old(self)@.at(PhaseModel::Finishing),
                    CommandAction::MoveToSpace { window_id, space_id: target_space_id },
                ),
                Err(error) => old(self)@.finished(Err(error)),
            },
    {
        match target {
            Ok(
                MoveTarget::NeighborSwap {
                    source_window_id,
                    source_frame,
                    target_window_id,
                    target_frame,
                },
            ) => {
                self.phase = CommandPhase::Finishing;
                CommandAction::SwapFrames {
                    source_window_id,
                    source_frame: native_bounds_from_outer(source_frame),
                    target_window_id,
                    target_frame: native_bounds_from_outer(target_frame),
                }
            },
            Ok(MoveTarget::CrossSpace { window_id, target_space_id }) => {
                self.phase = CommandPhase::Finishing;
                CommandAction::MoveToSpace { window_id, space_id: target_space_id }
            },
            Err(error) => self.finish(Err(error)),
        }
    }

    fn landed(&mut self, desktop: &NativeDesktopSnapshot, target_space_id: u64) -> (action:
        CommandAction)
        ensures
            (final(self)@, action) == old(self)@.after_landing(
                outer::outer_model(*desktop),
                target_space_id,
            ),
    {
        let topology: OuterMacosTopology = outer_topology_from_native_snapshot(desktop);
        match outer_best_window_in_space(&topology, target_space_id, self.direction.opposite()) {
            Some(window) => {
                self.phase = CommandPhase::Finishing;
                match window.pid {
                    Some(pid) => {
                        let hint: Option<ActiveSpaceFocusTargetHint> = match window.bounds {
                            Some(rect) => Some(
                                ActiveSpaceFocusTargetHint {
                                    space_id: window.space_id,
                                    bounds: native_bounds_from_outer(rect),
                                },
                            ),
                            None => None,
                        };
                        CommandAction::FocusInActiveSpace { window_id: window.id, pid, hint }
                    },
                    None => CommandAction::FocusWindow { window_id: window.id },
                }
            },
            None => self.finish(Ok(())),
        }
    }

    /// Takes in what came of the last action and says what to do next.
    pub fn advance(&mut self, reply: CommandReply) -> (action: CommandAction)
        ensures
            (final(self)@, action) == old(self)@.step(reply),
    {
        match (&self.phase, reply) {
            (CommandPhase::Probing, CommandReply::Probed(Ok(desktop))) => self.probed(desktop),
            (CommandPhase::Choosing { topology }, CommandReply::Chosen(chosen)) => match self.kind {
                CommandKind::Focus => {
                    let target: Result<FocusTarget, DesktopError> =
                        select_focus_target_from_outer_topology(topology, self.direction, chosen);
                    self.focus_chosen(target)
                },
                CommandKind::Move => {
                    let target: Result<MoveTarget, DesktopError> =
                        select_move_target_from_outer_topology(topology, self.direction, chosen);
                    self.move_chosen(target)
                },
            },
            (CommandPhase::Switching { target_space_id }, CommandReply::Ran(Ok(_))) => {
                let target_space_id: u64 = *target_space_id;
                self.phase = CommandPhase::Landing { target_space_id };
                CommandAction::Probe
            },
            (CommandPhase::Landing { target_space_id }, CommandReply::Probed(Ok(desktop))) => {
                let target_space_id: u64 = *target_space_id;
                self.landed(desktop, target_space_id)
            },
            (
                CommandPhase::Probing | CommandPhase::Landing { .. },
                CommandReply::Probed(Err(error)),
            ) => self.finish(Err(map_probe_error(error))),
            (CommandPhase::Switching { .. }, CommandReply::Ran(Err(error))) => self.finish(
                Err(DesktopError::Operation(error)),
            ),
            (CommandPhase::Finishing, CommandReply::Ran(result)) => match result {
                Ok(()) => self.finish(Ok(())),
                Err(error) => self.finish(Err(DesktopError::Operation(error))),
            },
            _ => self.finish(
                Err(
                    DesktopError::Operation(
                        MacosNativeOperationError::CallFailed("directional_command_out_of_turn"),
                    ),
                ),
            ),
        }
    }
}

/// Every reply brings a command closer to its end, so it is over after at most five replies, and
/// it ends by saying so.
pub proof fn commands_come_to_an_end(command: CommandModel, reply: CommandReply)
    requires
        command.phase !is Finished,
    ensures
        command.step(reply).0.remaining() < command.remaining(),
        command.step(reply).0.phase is Finished <==> command.step(reply).1 is Finish,
        command.step(reply).0.kind == command.kind,
        command.step(reply).0.direction == command.direction,
{
}

/// A move command never switches spaces and never focuses anything, and a focus command never
/// moves a window.
pub proof fn commands_keep_to_their_kind(command: CommandModel, reply: CommandReply)
    requires
        command.kind == CommandKind::Move ==> !(command.phase is Switching || command.phase
            is Landing),
    ensures
        command.kind == CommandKind::Move ==> !(command.step(reply).0.phase is Switching
            || command.step(reply).0.phase is Landing) && !(command.step(reply).1 is SwitchSpace
            || command.step(reply).1 is FocusSameSpace || command.step(reply).1 is FocusWindow
            || command.step(reply).1 is FocusInActiveSpace),
        command.kind == CommandKind::Focus ==> !(command.step(reply).1 is SwapFrames
            || command.step(reply).1 is MoveToSpace),
{
}

/// Whether a command goes by the focus strategy is settled when it starts: no reply changes it.
pub proof fn commands_keep_their_strategy(command: CommandModel, reply: CommandReply)
    ensures
        command.step(reply).0.goes_by_focus_strategy() == command.goes_by_focus_strategy(),
{
}

/// A switch to an adjacent space that shows no ordinary window counts as success, and otherwise
/// the window to focus belongs to that space.
pub proof fn landing_focuses_within_the_space(
    command: CommandModel,
    desktop: NativeDesktopSnapshot,
    target_space_id: u64,
)
    requires
        command.phase == (PhaseModel::Landing { target_space_id }),
    ensures
        ({
            let model = outer::outer_model(desktop);
            let action = command.step(CommandReply::Probed(Ok(&desktop))).1;
            &&& action == CommandAction::Finish(Ok(())) <==> forall|i: int|
                0 <= i < model.windows.len() ==> (#[trigger] model.windows[i]).space_id
                    != target_space_id || model.windows[i].level != 0
            &&& action matches CommandAction::FocusInActiveSpace { window_id, pid, hint }
                ==> exists|i: int|
                0 <= i < model.windows.len() && (#[trigger] model.windows[i]).id == window_id
                    && model.windows[i].space_id == target_space_id && model.windows[i].pid
                    == Some(pid)
            &&& action matches CommandAction::FocusWindow { window_id } ==> exists|i: int|
                0 <= i < model.windows.len() && (#[trigger] model.windows[i]).id == window_id
                    && model.windows[i].space_id == target_space_id
        }),
{
    let model = outer::outer_model(desktop);
    let direction = command.direction.spec_opposite();
    outer::best_window_is_the_outermost(model, target_space_id, direction);
    if let Some(best) = model.best_window(target_space_id, direction) {
        let i = choose|i: int| 0 <= i < model.windows.len() && model.windows[i] == best;
        assert(model.windows[i] == best);
    }
}

/// What is said when a resize is asked for, which the desktop does not offer.
pub fn resize_refusal(direction: Direction) -> (result: WmError)
    ensures
        result matches WmError::Adapter(text) && text@ == "macos_native: resize "@
            + topology::direction_text(direction) + " is not implemented"@,
{
    let mut text: String = "macos_native: resize ".to_owned();
    text.append(direction.name());
    text.append(" is not implemented");
    WmError::Adapter(text)
}

/// What is said when a window is to be closed, which the desktop does not offer.
pub fn close_refusal(id: u64) -> (result: WmError)
    ensures
        result matches WmError::Adapter(text) && text@ == "macos_native: close_window_by_id("@
            + text::written(id as nat, 10) + ") is not implemented"@,
{
    let mut text: String = "macos_native: close_window_by_id(".to_owned();
    text.append(text::write_number(id, 10).as_str());
    text.append(") is not implemented");
    WmError::Adapter(text)
}

/// Splits a command line into the program and its arguments. It must name a program.
pub fn spawn_parts(command: &Vec<String>) -> (result: Result<(String, Vec<String>), WmError>)
    ensures
        match result {
            Ok(parts) => command@.len() > 0 && parts.0 == command@[0] && parts.1@ == command@.skip(
                1,
            ),
            Err(error) => command@.len() == 0 && (error matches WmError::Adapter(text) && text@
                == "spawn: empty command"@),
        },
{
    if command.len() == 0 {
        return Err(WmError::Adapter("spawn: empty command".to_owned()));
    }
    let mut arguments: Vec<String> = Vec::new();
    let mut at: usize = 1;
    while at < command.len()
        invariant
            1 <= at <= command.len(),
            arguments@ == command@.subrange(1, at as int),
        decreases command.len() - at,
    {
        arguments.push(command[at].clone());
        assert(arguments@ =~= command@.subrange(1, at + 1));
        at += 1;
    }
    assert(arguments@ =~= command@.skip(1));
    Ok((command[0].clone(), arguments))
}

/// Every window is recorded in its place with its own identifier, application and title, its owner
/// and its place in the stack, and as focused exactly if the focused window carries its identifier.
pub proof fn records_carry_what_the_desktop_says(
    desktop: NativeDesktopSnapshot,
    records: Vec<WindowRecord>,
    focused: Result<FocusedWindowRecord, DesktopError>,
    at: int,
)
    requires
        call_ensures(window_records_from_native, (&desktop,), records),
        call_ensures(focused_window_record_from_native, (&desktop,), focused),
        0 <= at < desktop.windows@.len(),
    ensures
        records@.len() == desktop.windows@.len(),
        ({
            let (record, window) = (records@[at], desktop.windows@[at]);
            &&& record.id == window.id
            &&& record.app_id == window.app_id
            &&& record.title == window.title
            &&& record.pid is Some <==> window.pid is Some && window.pid->0 != 0
            &&& record.pid matches Some(pid) ==> pid.number() == window.pid->0
            &&& window.order_index matches Some(index) ==> record.original_tile_index == index
            &&& window.order_index is None ==> record.original_tile_index == 0
            &&& record.is_focused <==> focused is Ok && focused->Ok_0.id == window.id
        }),
{
    let record = window_record(desktop.windows@[at], focused_id(desktop));
    assert(records@[at] == record);
    if let Some(raw) = desktop.windows@[at].pid {
        process::process_ids_are_their_numbers(raw, raw);
    }
}

/// The focused window and its application are recorded as the desktop says: with the identifier,
/// application, title, owner and place of the window that has the focus. An application without an
/// owner is not recorded.
pub proof fn the_focus_is_recorded_as_it_is(
    desktop: NativeDesktopSnapshot,
    window: Result<&NativeWindowSnapshot, MacosNativeProbeError>,
    record: Result<FocusedWindowRecord, DesktopError>,
    app: Result<FocusedAppRecord, DesktopError>,
)
    requires
        call_ensures(resolved_focused_native_window, (&desktop,), window),
        call_ensures(focused_window_record_from_native, (&desktop,), record),
        call_ensures(focused_app_record_from_native, (&desktop,), app),
    ensures
        window is Err ==> record == Err::<FocusedWindowRecord, DesktopError>(
            DesktopError::NoFocusedWindow,
        ) && app == Err::<FocusedAppRecord, DesktopError>(DesktopError::NoFocusedWindow),
        window matches Ok(window) ==> {
            &&& record matches Ok(record)
            &&& record.id == window.id
            &&& record.app_id == window.app_id
            &&& record.title == window.title
            &&& record.pid is Some <==> window.pid is Some && window.pid->0 != 0
            &&& record.pid matches Some(pid) ==> pid.number() == window.pid->0
            &&& window.order_index matches Some(index) ==> record.original_tile_index == index
            &&& window.order_index is None ==> record.original_tile_index == 0
            &&& app is Ok <==> record.pid is Some
            &&& app matches Ok(app) ==> {
                &&& Some(app.pid) == record.pid
                &&& window.app_id matches Some(app_id) ==> app.app_id@ == app_id@
                &&& window.app_id is None ==> app.app_id@.len() == 0
                &&& window.title matches Some(title) ==> app.title@ == title@
                &&& window.title is None ==> app.title@.len() == 0
            }
            &&& app matches Err(error) ==> error is NoFocusedWindow
        },
{
    if let Ok(window) = window {
        if let Some(raw) = window.pid {
            process::process_ids_are_their_numbers(raw, raw);
        }
    }
}

/// The frames that a command offers once the desktop was inspected are those among which its kind of
/// command may choose, seen from the window that has the focus; before and after nothing is offered.
pub proof fn commands_offer_the_frames_around_the_focus(
    command: DirectionalCommand,
    topology: OuterMacosTopology,
    focused: Option<OuterMacosWindow>,
    reached: Vec<DirectedRect>,
    moved: Vec<DirectedRect>,
    offered: Vec<DirectedRect>,
)
    requires
        call_ensures(DirectionalCommand::choices, (&command,), offered),
        command.phase matches CommandPhase::Choosing { topology: held } ==> held == topology,
        call_ensures(resolved_outer_focused_window, (&topology,), focused),
        focused matches Some(window) ==> call_ensures(focus_rects, (&topology, &window), reached)
            && call_ensures(move_rects, (&topology, &window), moved),
    ensures
        command.phase is Choosing && focused is Some && command.kind is Focus ==> offered@
            == reached@,
        command.phase is Choosing && focused is Some && command.kind is Move ==> offered@ == moved@,
        !(command.phase is Choosing) || focused is None ==> offered@.len() == 0,
{
}

/// Every frame that a move may choose belongs to a window on the display of the focused window, as
/// long as some frame on that display exists.
pub proof fn moves_stay_on_their_display(
    command: DirectionalCommand,
    topology: OuterMacosTopology,
    focused: OuterMacosWindow,
    display: usize,
    offered: Vec<DirectedRect>,
    some: int,
    at: int,
)
    requires
        call_ensures(DirectionalCommand::choices, (&command,), offered),
        command.kind is Move,
        command.phase == (CommandPhase::Choosing { topology }),
        topology@.focused() == Some(focused),
        topology@.display(focused.space_id) == Some(display),
        0 <= some < topology.rects@.len(),
        topology@.window(topology.rects@[some].id) matches Some(window) && topology@.display(
            window.space_id,
        ) == Some(display),
        0 <= at < offered@.len(),
    ensures
        topology@.window(offered@[at].id) matches Some(window) && topology@.display(window.space_id)
            == Some(display),
        topology.rects@.contains(offered@[at]),
        offered@.contains(topology.rects@[some]),
{
    let model = topology@;
    let here = |rect: DirectedRect| model.is_on_display(rect, display);
    select::lemma_filter_keeps(model.rects, here);
    assert(here(model.rects[some]));
    assert(model.rects.filter(here).contains(model.rects[some]));
    assert(offered@[at] == model.rects.filter(here)[at]);
}

/// A command starts by inspecting the desktop. Then the closest window to the focused one is asked
/// for, and without a focused window, or if the inspection fails, the command ends with that error.
pub proof fn commands_start_from_the_focus(
    direction: Direction,
    focus: (DirectionalCommand, CommandAction),
    moved: (DirectionalCommand, CommandAction),
    desktop: NativeDesktopSnapshot,
    topology: OuterMacosTopology,
    focused: Option<OuterMacosWindow>,
    error: MacosNativeProbeError,
)
    requires
        call_ensures(focus_direction, (direction,), focus),
        call_ensures(move_direction, (direction,), moved),
        call_ensures(outer_topology_from_native_snapshot, (&desktop,), topology),
        call_ensures(resolved_outer_focused_window, (&topology,), focused),
    ensures
        focus.0.kind is Focus && moved.0.kind is Move,
        focus.0.direction == direction && moved.0.direction == direction,
        focus.1 is Probe && moved.1 is Probe,
        focused matches Some(window) ==> {
            let (started, action) = focus.0@.step(CommandReply::Probed(Ok(&desktop)));
            let (other, same) = moved.0@.step(CommandReply::Probed(Ok(&desktop)));
            &&& action == (CommandAction::Choose { focused_id: window.id })
            &&& same == action
            &&& started.phase == (PhaseModel::Choosing { topology: topology@ })
            &&& other.phase == started.phase
            &&& started.kind is Focus && other.kind is Move
        },
        focused is None ==> focus.0@.step(CommandReply::Probed(Ok(&desktop))).1
            == CommandAction::Finish(Err(DesktopError::NoFocusedWindow)),
        focused is None ==> moved.0@.step(CommandReply::Probed(Ok(&desktop))).1
            == CommandAction::Finish(Err(DesktopError::NoFocusedWindow)),
        focus.0@.step(CommandReply::Probed(Err(error))).1 == CommandAction::Finish(
            Err(
                if error is MissingFocusedWindow {
                    DesktopError::NoFocusedWindow
                } else {
                    DesktopError::Probe(error)
                },
            ),
        ),
{
}

/// Once the closest window is known, a focus goes to the target, or to the next space on the side
/// that was asked for; a move swaps the frames of the two windows, or takes the window to the next
/// space. What has no target ends with the error that says so.
pub proof fn commands_carry_out_their_target(
    command: CommandModel,
    topology: OuterMacosTopology,
    chosen: Option<u64>,
    towards: NativeDirection,
    focus: Result<FocusTarget, DesktopError>,
    moved: Result<MoveTarget, DesktopError>,
)
    requires
        command.phase == (PhaseModel::Choosing { topology: topology@ }),
        call_ensures(native_direction_from_outer, (command.direction,), towards),
        call_ensures(
            select_focus_target_from_outer_topology,
            (&topology, command.direction, chosen),
            focus,
        ),
        call_ensures(
            select_move_target_from_outer_topology,
            (&topology, command.direction, chosen),
            moved,
        ),
    ensures
        ({
            let (next, action) = command.step(CommandReply::Chosen(chosen));
            if command.kind is Focus {
                match focus {
                    Ok(FocusTarget::SameSpace { window_id }) => next.phase is Finishing && action
                        == (CommandAction::FocusSameSpace { window_id, direction: towards }),
                    Ok(FocusTarget::CrossSpace { target_space_id }) => next.phase == (
                    PhaseModel::Switching { target_space_id }) && action == (
                    CommandAction::SwitchSpace { space_id: target_space_id, adjacent: towards }),
                    Err(error) => action == CommandAction::Finish(Err(error)),
                }
            } else {
                match moved {
                    Ok(
                        MoveTarget::NeighborSwap {
                            source_window_id,
                            source_frame,
                            target_window_id,
                            target_frame,
                        },
                    ) => next.phase is Finishing && action == (CommandAction::SwapFrames {
                        source_window_id,
                        source_frame: NativeBounds {
                            x: source_frame.x,
                            y: source_frame.y,
                            width: source_frame.w,
                            height: source_frame.h,
                        },
                        target_window_id,
                        target_frame: NativeBounds {
                            x: target_frame.x,
                            y: target_frame.y,
                            width: target_frame.w,
                            height: target_frame.h,
                        },
                    }),
                    Ok(MoveTarget::CrossSpace { window_id, target_space_id }) => next.phase
                        is Finishing && action == (CommandAction::MoveToSpace {
                        window_id,
                        space_id: target_space_id,
                    }),
                    Err(error) => action == CommandAction::Finish(Err(error)),
                }
            }
        }),
{
}

/// A switch is followed by another look at the desktop, and a last operation by its outcome; whatever
/// fails on the way ends the command with its error.
pub proof fn commands_end_with_the_outcome(
    command: CommandModel,
    result: Result<(), MacosNativeOperationError>,
)
    ensures
        command.phase is Switching && result is Ok ==> command.step(CommandReply::Ran(result)).1
            is Probe && command.step(CommandReply::Ran(result)).0.phase == (PhaseModel::Landing {
            target_space_id: command.phase->Switching_target_space_id,
        }),
        command.phase is Finishing && result is Ok ==> command.step(CommandReply::Ran(result)).1
            == CommandAction::Finish(Ok(())),
        (command.phase is Switching || command.phase is Finishing) && result is Err
            ==> command.step(CommandReply::Ran(result)).1 == CommandAction::Finish(
            Err(DesktopError::Operation(result->Err_0)),
        ),
{
}

/// A space that is entered shows its windows from the side of entry: going east the window that
/// begins furthest west is focused, going west the one that ends furthest east, and of those that
/// begin or end together none lies in front of it. It is focused by its own identifier and owner, and
/// with the frame and space in which it was seen.
pub proof fn landings_focus_the_side_that_was_entered(
    command: CommandModel,
    desktop: NativeDesktopSnapshot,
    target_space_id: u64,
    at: int,
)
    requires
        command.phase == (PhaseModel::Landing { target_space_id }),
        0 <= at < desktop.windows@.len(),
        desktop.windows@[at].space_id == target_space_id,
        desktop.windows@[at].level == 0,
        desktop.windows@[at].bounds is Some,
    ensures
        exists|best: int|
            #![trigger desktop.windows@[best]]
            {
                let action = command.step(CommandReply::Probed(Ok(&desktop))).1;
                let (window, other) = (desktop.windows@[best], desktop.windows@[at]);
                let (frame, rest) = (window.bounds->0, other.bounds->0);
                &&& 0 <= best < desktop.windows@.len()
                &&& window.space_id == target_space_id
                &&& window.level == 0
                &&& window.bounds is Some
                &&& command.direction is East ==> frame.x <= rest.x
                &&& command.direction is West ==> frame.x + frame.width >= rest.x + rest.width
                &&& command.direction is South ==> frame.y <= rest.y
                &&& command.direction is North ==> frame.y + frame.height >= rest.y + rest.height
                &&& match command.direction {
                    Direction::East => frame.x == rest.x,
                    Direction::West => frame.x + frame.width == rest.x + rest.width,
                    Direction::South => frame.y == rest.y,
                    Direction::North => frame.y + frame.height == rest.y + rest.height,
                } ==> !snapshot::comes_before(other.order_index, window.order_index)
                &&& match window.pid {
                    Some(pid) => action == (CommandAction::FocusInActiveSpace {
                        window_id: window.id,
                        pid,
                        hint: Some(
                            ActiveSpaceFocusTargetHint {
                                space_id: target_space_id,
                                bounds: frame,
                            },
                        ),
                    }),
                    None => action == (CommandAction::FocusWindow { window_id: window.id }),
                }
            },
{
    let model = outer::outer_model(desktop);
    let direction = command.direction.spec_opposite();
    assert(model.windows[at] == outer::outer_window_of(desktop.windows@[at]));
    outer::lemma_best_window(model, target_space_id, direction, at);
    let found = model.best_window(target_space_id, direction)->0;
    let best = choose|i: int| 0 <= i < model.windows.len() && model.windows[i] == found;
    assert(model.windows[best] == outer::outer_window_of(desktop.windows@[best]));
    assert(desktop.windows@[best].bounds is Some);
}

/// The native backend goes by its name, and neither tears windows out nor resizes them.
pub proof fn the_native_backend_declares_what_it_can_do(
    direction: Direction,
    name: &'static str,
    declared: WindowManagerCapabilities,
)
    requires
        call_ensures(MacosNativeAdapter::name, (), name),
        call_ensures(MacosNativeAdapter::capabilities, (), declared),
    ensures
        name@ == "macos_native"@,
        MacosNativeAdapter::label() == name@,
        MacosNativeAdapter::declared() == declared,
        declared.tear_out.towards(direction) is Unsupported,
        declared.resize.towards(direction) is Unsupported,
        !declared.primitives.tear_out_right,
        !declared.primitives.move_column,
        !declared.primitives.consume_into_column_and_move,
        !declared.primitives.set_window_width,
        !declared.primitives.set_window_height,
{
}

/// Only a focus goes by the configured strategy, and it moves between floating windows. What the
/// desktop does not offer is refused by name, and a program is started by its name and the rest of its
/// command line as arguments.
pub proof fn what_is_not_offered_is_refused(
    command: DirectionalCommand,
    strategic: bool,
    mode: FloatingFocusMode,
    direction: Direction,
    id: u64,
    resize: WmError,
    close: WmError,
    words: Vec<String>,
    parts: Result<(String, Vec<String>), WmError>,
)
    requires
        call_ensures(DirectionalCommand::goes_by_focus_strategy, (&command,), strategic),
        call_ensures(MacosNativeAdapter::floating_focus_mode, (), mode),
        call_ensures(resize_refusal, (direction,), resize),
        call_ensures(close_refusal, (id,), close),
        call_ensures(spawn_parts, (&words,), parts),
    ensures
        strategic <==> command.kind is Focus,
        mode is FloatingOnly,
        resize matches WmError::Adapter(text) && text@ == "macos_native: resize "@
            + topology::direction_text(direction) + " is not implemented"@,
        close matches WmError::Adapter(text) && text@ == "macos_native: close_window_by_id("@
            + text::written(id as nat, 10) + ") is not implemented"@,
        parts is Ok <==> words@.len() > 0,
        parts matches Ok((program, arguments)) ==> program == words@[0] && arguments@.len() + 1
            == words@.len() && forall|i: int|
            0 <= i < arguments@.len() ==> #[trigger] arguments@[i] == words@[i + 1],
        parts matches Err(error) ==> (error matches WmError::Adapter(text) && text@
            == "spawn: empty command"@),
{
}

/// The adapter is made exactly if the environment is good, and otherwise says what is amiss with it.
pub proof fn the_native_backend_needs_a_good_environment(
    environment: Result<(), MacosNativeConnectError>,
    message: String,
    result: Result<MacosNativeAdapter, WmError>,
)
    requires
        environment matches Err(fault) ==> call_ensures(
            MacosNativeConnectError::message,
            (&fault,),
            message,
        ),
        call_ensures(MacosNativeAdapter::connect, (environment,), result),
    ensures
        result is Ok <==> environment is Ok,
        result matches Err(error) ==> (error matches WmError::Adapter(text) && text@ == message@),
{
}

/// Every reply moves a command on by one step; one to something that was not asked for ends it with an
/// error of its own.
pub proof fn replies_are_taken_in_step_by_step(
    command: &mut DirectionalCommand,
    reply: CommandReply,
    action: CommandAction,
)
    requires
        call_ensures(DirectionalCommand::advance, (command, reply), action),
    ensures
        (final(command)@, action) == old(command)@.step(reply),
        final(command).direction == old(command).direction,
        final(command).kind == old(command).kind,
        match old(command).phase {
            CommandPhase::Probing | CommandPhase::Landing { .. } => !(reply is Probed),
            CommandPhase::Choosing { .. } => !(reply is Chosen),
            CommandPhase::Switching { .. } | CommandPhase::Finishing => !(reply is Ran),
            CommandPhase::Finished => true,
        } ==> action == CommandAction::Finish(
            Err(
                DesktopError::Operation(
                    MacosNativeOperationError::CallFailed("directional_command_out_of_turn"),
                ),
            ),
        ),
{
}

/// A space without an ordinary window is entered without focusing any. Where none of its ordinary
/// windows has a frame, one is focused that none of them lies in front of, and nothing is said about
/// where it was seen.
pub proof fn landings_make_do_without_frames(
    command: CommandModel,
    desktop: NativeDesktopSnapshot,
    target_space_id: u64,
    at: int,
)
    requires
        command.phase == (PhaseModel::Landing { target_space_id }),
        forall|i: int|
            0 <= i < desktop.windows@.len() && (#[trigger] desktop.windows@[i]).space_id
                == target_space_id && desktop.windows@[i].level == 0 ==> desktop.windows@[i].bounds
                is None,
    ensures
        (forall|i: int|
            0 <= i < desktop.windows@.len() && (#[trigger] desktop.windows@[i]).space_id
                == target_space_id ==> desktop.windows@[i].level != 0) ==> command.step(
            CommandReply::Probed(Ok(&desktop)),
        ).1 == CommandAction::Finish(Ok(())),
        0 <= at < desktop.windows@.len() && desktop.windows@[at].space_id == target_space_id
            && desktop.windows@[at].level == 0 ==> exists|best: int|
            #![trigger desktop.windows@[best]]
            {
                let action = command.step(CommandReply::Probed(Ok(&desktop))).1;
                let (window, other) = (desktop.windows@[best], desktop.windows@[at]);
                &&& 0 <= best < desktop.windows@.len()
                &&& window.space_id == target_space_id
                &&& window.level == 0
                &&& !snapshot::comes_before(other.order_index, window.order_index)
                &&& match window.pid {
                    Some(pid) => action == (CommandAction::FocusInActiveSpace {
                        window_id: window.id,
                        pid,
                        hint: None,
                    }),
                    None => action == (CommandAction::FocusWindow { window_id: window.id }),
                }
            },
{
    let model = outer::outer_model(desktop);
    let direction = command.direction.spec_opposite();
    assert forall|i: int| 0 <= i < desktop.windows@.len() implies model.windows[i]
        == outer::outer_window_of(#[trigger] desktop.windows@[i]) by {}
    outer::best_window_is_the_outermost(model, target_space_id, direction);
    if 0 <= at < desktop.windows@.len() && desktop.windows@[at].space_id == target_space_id
        && desktop.windows@[at].level == 0 {
        assert(model.windows[at] == outer::outer_window_of(desktop.windows@[at]));
        outer::lemma_best_window(model, target_space_id, direction, at);
        let found = model.best_window(target_space_id, direction)->0;
        let best = choose|i: int| 0 <= i < model.windows.len() && model.windows[i] == found;
        assert(model.windows[best] == outer::outer_window_of(desktop.windows@[best]));
        assert(desktop.windows@[best].bounds is None);
    } else if forall|i: int|
        0 <= i < desktop.windows@.len() && (#[trigger] desktop.windows@[i]).space_id
            == target_space_id ==> desktop.windows@[i].level != 0 {
        assert(model.best_window(target_space_id, direction) is None) by {
            if model.best_window(target_space_id, direction) is Some {
                let i = choose|i: int|
                    0 <= i < model.windows.len() && (#[trigger] model.windows[i]).space_id
                        == target_space_id && model.windows[i].level == 0;
                assert(model.windows[i] == outer::outer_window_of(desktop.windows@[i]));
                assert(desktop.windows@[i].space_id == target_space_id);
            }
        }
    }
}

} // verus!
