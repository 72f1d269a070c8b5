//! niri, a scrollable-tiling Wayland compositor.
use crate::backend::WmBackend;
use crate::capability::{
    validate_declared_capabilities, CapabilitySupport, DirectionalCapability,
    PrimitiveWindowManagerCapabilities, WindowManagerCapabilities,
    WindowManagerCapabilityDescriptor,
};
use crate::error::WmError;
use crate::process;
use crate::process::ProcessId;
use crate::session;
use crate::session::{to_focused_record, FocusedWindowRecord, ResizeIntent, WindowRecord};
use crate::topology::Direction;
use vstd::prelude::*;

verus! {

/// Talks to niri.
#[derive(Debug)]
pub struct NiriAdapter;

/// Says how to reach niri.
#[derive(Debug)]
pub struct NiriSpec;

impl NiriSpec {
    /// The backend that is reached.
    pub fn backend(&self) -> (result: WmBackend)
        ensures
            result == WmBackend::Niri,
    {
        WmBackend::Niri
    }

    /// The name of the adapter.
    pub fn name(&self) -> (result: &'static str)
        ensures
            result@ == NiriAdapter::label(),
    {
        NiriAdapter::name()
    }
}

impl NiriAdapter {
    /// Sets the adapter up, given what came of connecting a client to niri. The capabilities that
    /// it declares are valid, so it works exactly if the client is connected.
    pub fn connect(client: Result<(), WmError>) -> (result: Result<NiriAdapter, WmError>)
        ensures
            match (client, result) {
                (Ok(_), Ok(_)) => true,
                (Err(failure), Err(error)) => error == failure,
                _ => false,
            },
    {
        if let Err(error) = validate_declared_capabilities::<NiriAdapter>() {
            return Err(error);
        }
        match client {
            Ok(_) => Ok(NiriAdapter),
            Err(failure) => Err(failure),
        }
    }
}

impl WindowManagerCapabilityDescriptor for NiriAdapter {
    open spec fn label() -> Seq<char> {
        "niri"@
    }

    open spec fn declared() -> WindowManagerCapabilities {
        WindowManagerCapabilities {
            primitives: PrimitiveWindowManagerCapabilities {
                tear_out_right: true,
                move_column: true,
                consume_into_column_and_move: true,
                set_window_width: true,
                set_window_height: true,
            },
            tear_out: DirectionalCapability {
                west: CapabilitySupport::Composed,
                east: CapabilitySupport::Native,
                north: CapabilitySupport::Composed,
                south: CapabilitySupport::Composed,
            },
            resize: DirectionalCapability::all(CapabilitySupport::Native),
        }
    }

    fn name() -> (result: &'static str) {
        "niri"
    }

    fn capabilities() -> (result: WindowManagerCapabilities) {
        WindowManagerCapabilities {
            primitives: PrimitiveWindowManagerCapabilities {
                tear_out_right: true,
                move_column: true,
                consume_into_column_and_move: true,
                set_window_width: true,
                set_window_height: true,
            },
            tear_out: DirectionalCapability {
                west: CapabilitySupport::Composed,
                east: CapabilitySupport::Native,
                north: CapabilitySupport::Composed,
                south: CapabilitySupport::Composed,
            },
            resize: DirectionalCapability::uniform(CapabilitySupport::Native),
        }
    }
}

/// A window as niri describes it.
#[derive(Debug, PartialEq, Eq)]
pub struct NiriWindow {
    pub id: u64,
    pub app_id: Option<String>,
    pub title: Option<String>,
    pub pid: Option<i32>,
    pub is_focused: bool,
    /// The column of the window and its place in that, if it is tiled.
    pub pos_in_scrolling_layout: Option<(usize, usize)>,
}

/// The process of a window; none where niri gives no number, or one that is not positive.
pub open spec fn window_process(pid: Option<i32>) -> Option<ProcessId> {
    match pid {
        Some(raw) => if raw >= 0 {
            ProcessId::from_number(raw as u32)
        } else {
            None
        },
        None => None,
    }
}

/// The place of a window in its column. Windows that are not tiled count as first.
pub open spec fn place_in_column(position: Option<(usize, usize)>) -> usize {
    match position {
        Some((_, tile)) => tile,
        None => 1,
    }
}

/// The record of a window.
pub open spec fn record_of(window: NiriWindow) -> WindowRecord {
    WindowRecord {
        id: window.id,
        app_id: window.app_id,
        title: window.title,
        pid: window_process(window.pid),
        is_focused: window.is_focused,
        original_tile_index: place_in_column(window.pos_in_scrolling_layout),
    }
}

/// Records a window.
pub fn window_record(window: &NiriWindow) -> (result: WindowRecord)
    ensures
        result == record_of(*window),
{
    WindowRecord {
        id: window.id,
        app_id: window.app_id.clone(),
        title: window.title.clone(),
        pid: match window.pid {
            Some(raw) => if raw >= 0 {
                ProcessId::new(raw as u32)
            } else {
                None
            },
            None => None,
        },
        is_focused: window.is_focused,
        original_tile_index: match window.pos_in_scrolling_layout {
            Some((_, tile)) => tile,
            None => 1,
        },
    }
}

/// Records the focused window.
pub fn focused_window(window: &NiriWindow) -> (result: FocusedWindowRecord)
    ensures
        result == session::as_focused(record_of(*window)),
{
    to_focused_record(&window_record(window))
}

/// Records all windows.
pub fn windows(listed: &Vec<NiriWindow>) -> (result: Vec<WindowRecord>)
    ensures
        result@ == listed@.map_values(|window: NiriWindow| record_of(window)),
{
    let mut records: Vec<WindowRecord> = Vec::new();
    let mut at: usize = 0;
    while at < listed.len()
        invariant
            at <= listed.len(),
            records@.len() == at,
            forall|i: int| 0 <= i < at ==> #[trigger] records@[i] == record_of(listed@[i]),
        decreases listed.len() - at,
    {
        records.push(window_record(&listed[at]));
        at += 1;
    }
    assert(records@ =~= listed@.map_values(|window: NiriWindow| record_of(window)));
    records
}

/// A record carries what niri says of the window: its own identifier, application, title and
/// focus, its place in its column, and its process where that is a number above zero. So does every
/// record of a list, in the place of its window, and the record of the focused window.
pub proof fn records_carry_what_niri_says(
    window: NiriWindow,
    record: WindowRecord,
    focused: FocusedWindowRecord,
    listed: Vec<NiriWindow>,
    records: Vec<WindowRecord>,
    at: int,
)
    requires
        call_ensures(window_record, (&window,), record),
        call_ensures(focused_window, (&window,), focused),
        call_ensures(windows, (&listed,), records),
        0 <= at < listed@.len(),
        listed@[at] == window,
    ensures
        record.id == window.id,
        record.app_id == window.app_id,
        record.title == window.title,
        record.is_focused == window.is_focused,
        window.pos_in_scrolling_layout matches Some(position) ==> record.original_tile_index
            == position.1,
        window.pos_in_scrolling_layout is None ==> record.original_tile_index == 1,
        record.pid is Some <==> window.pid is Some && window.pid->0 > 0,
        record.pid matches Some(pid) ==> pid.number() == window.pid->0,
        focused.id == window.id,
        focused.app_id == window.app_id,
        focused.title == window.title,
        focused.pid == record.pid,
        focused.original_tile_index == record.original_tile_index,
        records@.len() == listed@.len(),
        records@[at] == record,
{
    if let Some(raw) = window.pid {
        process::process_ids_are_their_numbers(raw as u32, raw as u32);
    }
}

/// How a window is torn out of its column.
#[derive(Debug, Clone, Copy, PartialEq, Eq, Structural)]
pub enum TearOut {
    /// Its column is moved.
    MoveColumn(Direction),
    /// It is put into the next column, and moved there from the given place.
    ConsumeIntoColumnAndMove(Direction, usize),
}

/// Decides how a window is torn out: sideways with its column, upwards and downwards through a
/// column.
pub fn compose_tear_out(direction: Direction, source_tile_index: usize) -> (result: TearOut)
    ensures
        result == match direction {
            Direction::West | Direction::East => TearOut::MoveColumn(direction),
            Direction::North | Direction::South => TearOut::ConsumeIntoColumnAndMove(
                direction,
                source_tile_index,
            ),
        },
{
    match direction {
        Direction::West | Direction::East => TearOut::MoveColumn(direction),
        Direction::North | Direction::South => TearOut::ConsumeIntoColumnAndMove(
            direction,
            source_tile_index,
        ),
    }
}

/// What niri is asked to do to resize a window.
#[derive(Debug, Clone, Copy, PartialEq, Eq, Structural)]
pub struct ResizeRequest {
    pub direction: Direction,
    pub grow: bool,
    pub amount: i32,
}

/// Restates the wish to resize a window for niri. The most negative step has no counterpart.
pub fn resize_request(intent: ResizeIntent) -> (result: ResizeRequest)
    requires
        intent.step != i32::MIN,
    ensures
        result.direction == intent.direction,
        result.grow == (intent.kind == session::ResizeKind::Grow),
        result.amount == session::step_size(intent.step),
{
    ResizeRequest {
        direction: intent.direction,
        grow: intent.grow(),
        amount: session::step_size_of(intent.step),
    }
}

/// What niri declares to be put together from other operations is what it can put together: the
/// two ways of tearing out a window are both among its primitive operations.
pub proof fn tear_outs_are_composed_from_primitives(direction: Direction)
    ensures
        NiriAdapter::declared().tear_out.towards(direction) == CapabilitySupport::Composed
            ==> NiriAdapter::declared().can_compose_tear_out(direction),
        NiriAdapter::declared().is_valid(),
{
}

/// A window that is torn out goes where it was asked to: sideways its whole column moves, up and
/// down it leaves its place in the column.
pub proof fn tear_outs_keep_their_direction(direction: Direction, place: usize, plan: TearOut)
    requires
        call_ensures(compose_tear_out, (direction, place), plan),
    ensures
        plan is MoveColumn <==> direction == Direction::West || direction == Direction::East,
        plan matches TearOut::MoveColumn(towards) ==> towards == direction,
        plan matches TearOut::ConsumeIntoColumnAndMove(towards, from) ==> towards == direction
            && from == place,
{
}

/// A window is resized towards the side that was asked for, by the size of the step, and it grows
/// exactly if that was asked for.
pub proof fn resizes_keep_the_intent(intent: ResizeIntent, request: ResizeRequest)
    requires
        intent.step != i32::MIN,
        call_ensures(resize_request, (intent,), request),
    ensures
        request.direction == intent.direction,
        request.grow <==> intent.kind is Grow,
        intent.step > 0 ==> request.amount == intent.step,
        intent.step < 0 ==> request.amount + intent.step == 0,
        intent.step == 0 ==> request.amount == 1,
{
}

/// niri goes by its name. It tears windows out to the right by itself and in the other directions
/// with the help of its columns, and resizes in every direction by itself.
pub proof fn niri_declares_what_it_can_do(
    direction: Direction,
    name: &'static str,
    declared: WindowManagerCapabilities,
)
    requires
        call_ensures(NiriAdapter::name, (), name),
        call_ensures(NiriAdapter::capabilities, (), declared),
    ensures
        name@ == "niri"@,
        NiriAdapter::label() == name@,
        NiriAdapter::declared() == declared,
        declared.primitives.tear_out_right,
        declared.primitives.move_column,
        declared.primitives.consume_into_column_and_move,
        declared.primitives.set_window_width,
        declared.primitives.set_window_height,
        declared.tear_out.east is Native,
        declared.tear_out.west is Composed,
        declared.tear_out.north is Composed,
        declared.tear_out.south is Composed,
        declared.resize.west is Native,
        declared.resize.east is Native,
        declared.resize.north is Native,
        declared.resize.south is Native,
{
}

/// The adapter is set up exactly if a client is connected, and what the client fails with is passed on.
pub proof fn niri_needs_a_client(
    spec: NiriSpec,
    backend: WmBackend,
    name: &'static str,
    client: Result<(), WmError>,
    result: Result<NiriAdapter, WmError>,
)
    requires
        call_ensures(NiriSpec::backend, (&spec,), backend),
        call_ensures(NiriSpec::name, (&spec,), name),
        call_ensures(NiriAdapter::connect, (client,), result),
    ensures
        backend is Niri,
        name@ == "niri"@,
        result is Ok <==> client is Ok,
        result matches Err(error) ==> client == Err::<(), WmError>(error),
{
}

} // verus!
