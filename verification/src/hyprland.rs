//! Hyprland, a dynamic tiling Wayland compositor.
use crate::backend::WmBackend;
use crate::capability::{
    validate_declared_capabilities, CapabilitySupport, DirectionalCapability,
    PrimitiveWindowManagerCapabilities, WindowManagerCapabilities,
    WindowManagerCapabilityDescriptor,
};
use crate::error::WmError;
use crate::process;
use crate::process::ProcessId;
use crate::session;
use crate::text;
use crate::topology::Direction;
use vstd::prelude::*;
use vstd::string::*;

verus! {

/// Talks to Hyprland.
#[derive(Debug)]
pub struct HyprlandAdapter;

/// Says how to reach Hyprland.
#[derive(Debug)]
pub struct HyprlandSpec;

impl HyprlandSpec {
    /// The backend that is reached.
    pub fn backend(&self) -> (result: WmBackend)
        ensures
            result == WmBackend::Hyprland,
    {
        WmBackend::Hyprland
    }

    /// The name of the adapter.
    pub fn name(&self) -> (result: &'static str)
        ensures
            result@ == HyprlandAdapter::label(),
    {
        HyprlandAdapter::name()
    }
}

impl HyprlandAdapter {
    /// Sets the adapter up. Its declared capabilities are valid, so this succeeds.
    pub fn connect() -> (result: Result<HyprlandAdapter, WmError>)
        ensures
            result is Ok,
    {
        match validate_declared_capabilities::<HyprlandAdapter>() {
            Ok(_) => Ok(HyprlandAdapter),
            Err(error) => Err(error),
        }
    }
}

impl WindowManagerCapabilityDescriptor for HyprlandAdapter {
    open spec fn label() -> Seq<char> {
        "hyprland"@
    }

    open spec fn declared() -> WindowManagerCapabilities {
        WindowManagerCapabilities {
            primitives: PrimitiveWindowManagerCapabilities {
                tear_out_right: false,
                move_column: false,
                consume_into_column_and_move: false,
                set_window_width: true,
                set_window_height: true,
            },
            tear_out: DirectionalCapability::all(CapabilitySupport::Unsupported),
            resize: DirectionalCapability::all(CapabilitySupport::Native),
        }
    }

    fn name() -> (result: &'static str) {
        "hyprland"
    }

    fn capabilities() -> (result: WindowManagerCapabilities) {
        WindowManagerCapabilities {
            primitives: PrimitiveWindowManagerCapabilities {
                tear_out_right: false,
                move_column: false,
                consume_into_column_and_move: false,
                set_window_width: true,
                set_window_height: true,
            },
            tear_out: DirectionalCapability::uniform(CapabilitySupport::Unsupported),
            resize: DirectionalCapability::uniform(CapabilitySupport::Native),
        }
    }
}

/// What Hyprland says cannot be understood.
#[derive(Debug, Clone, Copy, PartialEq, Eq, Structural)]
pub enum HyprlandError {
    InvalidWindowAddress,
}

impl HyprlandError {
    /// Renders the error as text.
    pub fn message(&self) -> (result: String)
        ensures
            result@ == "invalid Hyprland window address"@,
    {
        "invalid Hyprland window address".to_owned()
    }
}

/// `s` without a leading `0x`.
pub open spec fn strip_hex_prefix(s: Seq<char>) -> Seq<char> {
    if s.len() >= 2 && s[0] == '0' && s[1] == 'x' {
        s.skip(2)
    } else {
        s
    }
}

/// The window address written in `raw`: a hexadecimal number, with or without `0x` before it and
/// white space around it.
pub open spec fn window_address(raw: Seq<char>) -> Option<int> {
    text::parsed_unsigned(strip_hex_prefix(text::trim(raw)), 16, u64::MAX as int)
}

/// Reads a window address.
pub fn parse_window_address(raw: &str) -> (result: Result<u64, HyprlandError>)
    ensures
        match result {
            Ok(address) => window_address(raw@) == Some(address as int),
            Err(_) => window_address(raw@) is None,
        },
{
    let trimmed: String = text::trimmed(raw);
    let chars: Vec<char> = text::chars_of(trimmed.as_str());
    let digits: &str = if chars.len() >= 2 && chars[0] == '0' && chars[1] == 'x' {
        trimmed.as_str().substring_char(2, chars.len())
    } else {
        trimmed.as_str()
    };
    assert(digits@ =~= strip_hex_prefix(text::trim(raw@)));
    match text::parse_unsigned(digits, 16, u64::MAX) {
        Some(address) => Ok(address),
        None => Err(HyprlandError::InvalidWindowAddress),
    }
}

/// The selector of the window with the given address.
pub open spec fn window_selector(id: u64) -> Seq<char> {
    "address:0x"@ + text::written(id as nat, 16)
}

/// Writes the selector of a window.
pub fn format_window_selector(id: u64) -> (result: String)
    ensures
        result@ == window_selector(id),
{
    let mut selector: String = "address:0x".to_owned();
    selector.append(text::write_number(id, 16).as_str());
    selector
}

/// What follows `address:` in the selector of a window reads back as its address.
pub proof fn selectors_read_back(id: u64)
    ensures
        window_selector(id).skip(8) == "0x"@ + text::written(id as nat, 16),
        window_address(window_selector(id).skip(8)) == Some(id as int),
{
    let digits = text::written(id as nat, 16);
    let address = window_selector(id).skip(8);
    reveal_strlit("address:0x");
    reveal_strlit("0x");
    assert(address =~= "0x"@ + digits);
    text::written_numbers_read_back(id as nat, 16);
    assert(digits.len() > 0);
    assert(text::digit_value(digits[digits.len() - 1]) is Some);
    assert(address.last() == digits[digits.len() - 1]);
    assert(!text::is_space(address[0]));
    assert(!text::is_space(address.last()));
    assert(text::trim_start(address) == address);
    assert(text::trim_end(address) == address);
    assert(strip_hex_prefix(address) =~= digits);
    assert(text::parsed_unsigned(digits, 16, u64::MAX as int) == Some(id as int));
}

/// How a window's far corner moves when it grows or shrinks towards `direction`. The vertical
/// axis points down, so growing northwards is a negative change.
pub open spec fn corner_change(direction: Direction, grow: bool, step: i32) -> (int, int) {
    let change = if grow {
        session::step_size(step)
    } else {
        -session::step_size(step)
    };
    match direction {
        Direction::West => (-change, 0),
        Direction::East => (change, 0),
        Direction::North => (0, -change),
        Direction::South => (0, change),
    }
}

/// Computes the change that a resize makes. The most negative step has no counterpart.
pub fn resize_delta(direction: Direction, grow: bool, step: i32) -> (result: (i32, i32))
    requires
        step != i32::MIN,
    ensures
        (result.0 as int, result.1 as int) == corner_change(direction, grow, step),
{
    let size: i32 = session::step_size_of(step);
    match (direction, grow) {
        (Direction::West, true) => (-size, 0),
        (Direction::West, false) => (size, 0),
        (Direction::East, true) => (size, 0),
        (Direction::East, false) => (-size, 0),
        (Direction::North, true) => (0, -size),
        (Direction::North, false) => (0, size),
        (Direction::South, true) => (0, size),
        (Direction::South, false) => (0, -size),
    }
}

/// Shrinking undoes growing, growing towards one side is shrinking as seen from the other, the
/// sign of the step does not matter, and every resize changes something.
pub proof fn resizing_is_symmetric(direction: Direction, grow: bool, step: i32, mirrored: i32)
    requires
        mirrored == -(step as int),
    ensures
        corner_change(direction, !grow, step).0 == -corner_change(direction, grow, step).0,
        corner_change(direction, !grow, step).1 == -corner_change(direction, grow, step).1,
        corner_change(direction.spec_opposite(), grow, step) == corner_change(
            direction,
            !grow,
            step,
        ),
        corner_change(direction, grow, mirrored) == corner_change(direction, grow, step),
        corner_change(direction, grow, step) != (0int, 0int),
{
}

/// A client as Hyprland lists it.
#[derive(Debug, PartialEq, Eq)]
pub struct HyprlandClient {
    pub address: String,
    pub class: Option<String>,
    pub title: Option<String>,
    pub pid: Option<u32>,
    pub mapped: Option<bool>,
}

impl HyprlandClient {
    /// The process of the client; none where Hyprland gives no number, or zero.
    pub fn process_id(&self) -> (result: Option<ProcessId>)
        ensures
            result == ProcessId::from_optional_number(self.pid),
    {
        ProcessId::from_optional(self.pid)
    }
}

/// A window that grows towards a side moves its corner towards that side, along that axis alone and
/// by the size of the step; one that shrinks moves it the other way by as much.
pub proof fn corners_move_towards_the_side(
    direction: Direction,
    step: i32,
    size: i32,
    grown: (i32, i32),
    shrunk: (i32, i32),
)
    requires
        step != i32::MIN,
        call_ensures(session::step_size_of, (step,), size),
        call_ensures(resize_delta, (direction, true, step), grown),
        call_ensures(resize_delta, (direction, false, step), shrunk),
    ensures
        size > 0,
        direction is West ==> grown.0 + size == 0 && grown.1 == 0,
        direction is East ==> grown.0 == size && grown.1 == 0,
        direction is North ==> grown.0 == 0 && grown.1 + size == 0,
        direction is South ==> grown.0 == 0 && grown.1 == size,
        grown.0 + shrunk.0 == 0,
        grown.1 + shrunk.1 == 0,
{
}

proof fn lemma_addresses(id: u64)
    ensures
        window_address("0x"@ + text::written(id as nat, 16)) == Some(id as int),
        window_address(text::written(id as nat, 16)) == Some(id as int),
{
    selectors_read_back(id);
    let digits = text::written(id as nat, 16);
    text::written_numbers_read_back(id as nat, 16);
    reveal_strlit("0x");
    assert(text::digit_value(digits[0]) is Some);
    assert(text::digit_value(digits.last()) is Some);
    assert(!text::is_space(digits[0]) && !text::is_space(digits.last()));
    text::lemma_trim_unchanged(digits);
    if digits.len() >= 2 {
        assert(text::digit_value(digits[1]) is Some);
    }
    assert(text::strip_plus(digits) == digits);
}

/// A window is selected by its address in hexadecimal, and an address is read whether or not `0x`
/// stands before it.
pub proof fn addresses_are_hexadecimal(id: u64, selector: String)
    requires
        call_ensures(format_window_selector, (id,), selector),
    ensures
        selector@ == "address:0x"@ + text::written(id as nat, 16),
        window_address("0x"@ + text::written(id as nat, 16)) == Some(id as int),
        window_address(text::written(id as nat, 16)) == Some(id as int),
{
    lemma_addresses(id);
}

/// The process of a client is the number that Hyprland gives, unless that is zero.
pub proof fn clients_belong_to_their_process(client: HyprlandClient, pid: Option<ProcessId>)
    requires
        call_ensures(HyprlandClient::process_id, (&client,), pid),
    ensures
        pid is Some <==> client.pid is Some && client.pid->0 != 0,
        pid matches Some(pid) ==> pid.number() == client.pid->0,
{
    if let Some(raw) = client.pid {
        process::process_ids_are_their_numbers(raw, raw);
    }
}

/// Hyprland goes by its name, resizes in every direction by itself and tears no windows out.
pub proof fn hyprland_declares_what_it_can_do(
    direction: Direction,
    name: &'static str,
    declared: WindowManagerCapabilities,
)
    requires
        call_ensures(HyprlandAdapter::name, (), name),
        call_ensures(HyprlandAdapter::capabilities, (), declared),
    ensures
        name@ == "hyprland"@,
        HyprlandAdapter::label() == name@,
        HyprlandAdapter::declared() == declared,
        declared.tear_out.towards(direction) is Unsupported,
        declared.resize.towards(direction) is Native,
        !declared.primitives.tear_out_right,
        !declared.primitives.move_column,
        !declared.primitives.consume_into_column_and_move,
        declared.primitives.set_window_width,
        declared.primitives.set_window_height,
{
}

/// An address is read in hexadecimal digits, with or without the mark for them; a text without digits,
/// or with anything else in it, is no address.
pub proof fn addresses_are_read_in_hexadecimal(
    raw: &str,
    result: Result<u64, HyprlandError>,
    id: u64,
)
    requires
        call_ensures(parse_window_address, (raw,), result),
    ensures
        raw@ == "0x"@ + text::written(id as nat, 16) || raw@ == text::written(id as nat, 16)
            ==> result is Ok && result->Ok_0 == id,
        raw@.len() == 0 || raw@ == "0x"@ ==> result is Err,
        result matches Ok(address) ==> window_address(raw@) == Some(address as int),
{
    reveal_strlit("0x");
    if raw@ == "0x"@ + text::written(id as nat, 16) || raw@ == text::written(id as nat, 16) {
        lemma_addresses(id);
    }
    if raw@.len() == 0 || raw@ == "0x"@ {
        text::lemma_trim_unchanged(raw@);
    }
}

/// The adapter can always be set up, and serves its own backend under its own name.
pub proof fn hyprland_needs_nothing(
    spec: HyprlandSpec,
    backend: WmBackend,
    name: &'static str,
    result: Result<HyprlandAdapter, WmError>,
)
    requires
        call_ensures(HyprlandSpec::backend, (&spec,), backend),
        call_ensures(HyprlandSpec::name, (&spec,), name),
        call_ensures(HyprlandAdapter::connect, (), result),
    ensures
        backend is Hyprland,
        name@ == "hyprland"@,
        result is Ok,
{
}

} // verus!
