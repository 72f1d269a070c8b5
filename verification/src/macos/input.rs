//! Events that are sent to the window server.
use crate::macos::types::{MacosNativeOperationError, NativeDirection};
use vstd::prelude::*;

verus! {

/// The keys that are held down together with a key.
#[derive(Clone, Copy, Debug, PartialEq, Eq, Structural)]
pub struct MissionControlModifiers {
    pub control: bool,
    pub option: bool,
    pub command: bool,
    pub shift: bool,
    pub function: bool,
}

/// A shortcut that switches to an adjacent space.
#[derive(Clone, Copy, Debug, PartialEq, Eq, Structural)]
pub struct MissionControlHotkey {
    pub key_code: u16,
    pub mission_control: MissionControlModifiers,
}

/// The shortcuts that lead to the spaces next to the current one.
#[derive(Clone, Copy, Debug, PartialEq, Eq, Structural)]
pub struct SpaceHotkeys {
    pub west_space_hotkey: MissionControlHotkey,
    pub east_space_hotkey: MissionControlHotkey,
}

pub const SHIFT_FLAG: u64 = 0x2_0000;

pub const CONTROL_FLAG: u64 = 0x4_0000;

pub const OPTION_FLAG: u64 = 0x8_0000;

pub const COMMAND_FLAG: u64 = 0x10_0000;

pub const FUNCTION_FLAG: u64 = 0x80_0000;

/// `flag` if it is wanted, and no flag otherwise.
pub open spec fn flag_if(wanted: bool, flag: u64) -> u64 {
    if wanted {
        flag
    } else {
        0
    }
}

/// The flags of an event that is sent while the given keys are held down.
pub open spec fn shortcut_flags(keys: MissionControlModifiers) -> u64 {
    flag_if(keys.shift, SHIFT_FLAG) | flag_if(keys.control, CONTROL_FLAG) | flag_if(
        keys.option,
        OPTION_FLAG,
    ) | flag_if(keys.command, COMMAND_FLAG) | flag_if(keys.function, FUNCTION_FLAG)
}

fn flag_of(wanted: bool, flag: u64) -> (result: u64)
    ensures
        result == flag_if(wanted, flag),
{
    if wanted {
        flag
    } else {
        0
    }
}

/// Computes the flags of an event.
pub fn mission_control_shortcut_flags(keys: &MissionControlModifiers) -> (result: u64)
    ensures
        result == shortcut_flags(*keys),
{
    flag_of(keys.shift, SHIFT_FLAG) | flag_of(keys.control, CONTROL_FLAG) | flag_of(
        keys.option,
        OPTION_FLAG,
    ) | flag_of(keys.command, COMMAND_FLAG) | flag_of(keys.function, FUNCTION_FLAG)
}

/// Each key that is held down sets its own flag, and nothing else is set.
pub proof fn flags_tell_the_keys(keys: MissionControlModifiers)
    ensures
        (shortcut_flags(keys) & SHIFT_FLAG != 0) == keys.shift,
        (shortcut_flags(keys) & CONTROL_FLAG != 0) == keys.control,
        (shortcut_flags(keys) & OPTION_FLAG != 0) == keys.option,
        (shortcut_flags(keys) & COMMAND_FLAG != 0) == keys.command,
        (shortcut_flags(keys) & FUNCTION_FLAG != 0) == keys.function,
        shortcut_flags(keys) & !(SHIFT_FLAG | CONTROL_FLAG | OPTION_FLAG | COMMAND_FLAG
            | FUNCTION_FLAG) == 0,
{
    let (a, b, c, d, e) = (
        flag_if(keys.shift, SHIFT_FLAG),
        flag_if(keys.control, CONTROL_FLAG),
        flag_if(keys.option, OPTION_FLAG),
        flag_if(keys.command, COMMAND_FLAG),
        flag_if(keys.function, FUNCTION_FLAG),
    );
    let all = a | b | c | d | e;
    assert((a == 0 || a == 0x2_0000u64) && (b == 0 || b == 0x4_0000u64) && (c == 0 || c
        == 0x8_0000u64) && (d == 0 || d == 0x10_0000u64) && (e == 0 || e == 0x80_0000u64) && all
        == a | b | c | d | e ==> (all & 0x2_0000u64 != 0) == (a != 0) && (all & 0x4_0000u64 != 0)
        == (b != 0) && (all & 0x8_0000u64 != 0) == (c != 0) && (all & 0x10_0000u64 != 0) == (d != 0)
        && (all & 0x80_0000u64 != 0) == (e != 0) && all & !(0x2_0000u64 | 0x4_0000u64 | 0x8_0000u64
        | 0x10_0000u64 | 0x80_0000u64) == 0) by (bit_vector);
}

/// The shortcut towards a direction. Spaces lie side by side, so there is none upwards or
/// downwards.
pub open spec fn hotkey_towards(hotkeys: SpaceHotkeys, direction: NativeDirection) -> Option<
    MissionControlHotkey,
> {
    match direction {
        NativeDirection::West => Some(hotkeys.west_space_hotkey),
        NativeDirection::East => Some(hotkeys.east_space_hotkey),
        NativeDirection::North | NativeDirection::South => None,
    }
}

/// Picks the shortcut towards a direction.
pub fn mission_control_shortcut(hotkeys: &SpaceHotkeys, direction: NativeDirection) -> (result:
    Result<MissionControlHotkey, MacosNativeOperationError>)
    ensures
        result == match hotkey_towards(*hotkeys, direction) {
            Some(hotkey) => Ok::<MissionControlHotkey, MacosNativeOperationError>(hotkey),
            None => Err(MacosNativeOperationError::CallFailed("adjacent_space_hotkey_direction")),
        },
{
    match direction {
        NativeDirection::West => Ok(hotkeys.west_space_hotkey),
        NativeDirection::East => Ok(hotkeys.east_space_hotkey),
        NativeDirection::North | NativeDirection::South => Err(
            MacosNativeOperationError::CallFailed("adjacent_space_hotkey_direction"),
        ),
    }
}

/// An event of the keyboard.
#[derive(Clone, Copy, Debug, PartialEq, Eq, Structural)]
pub struct KeyEvent {
    pub key_code: u16,
    pub key_down: bool,
    pub flags: u64,
}

/// The events that make up a shortcut, in their order: the key goes down, and comes up again.
pub open spec fn shortcut_events(hotkey: MissionControlHotkey) -> Seq<KeyEvent> {
    let down = KeyEvent {
        key_code: hotkey.key_code,
        key_down: true,
        flags: shortcut_flags(hotkey.mission_control),
    };
    seq![down, KeyEvent { key_down: false, ..down }]
}

/// Lists the events that make up the shortcut towards a direction. They are sent in their order,
/// each one only if all before it were.
pub fn switch_adjacent_space_via_hotkey(hotkeys: &SpaceHotkeys, direction: NativeDirection) -> (
    result: Result<Vec<KeyEvent>, MacosNativeOperationError>)
    ensures
        match (result, hotkey_towards(*hotkeys, direction)) {
            (Ok(events), Some(hotkey)) => events@ == shortcut_events(hotkey),
            (Err(error), None) => error == MacosNativeOperationError::CallFailed(
                "adjacent_space_hotkey_direction",
            ),
            _ => false,
        },
{
    match mission_control_shortcut(hotkeys, direction) {
        Ok(hotkey) => {
            let flags: u64 = mission_control_shortcut_flags(&hotkey.mission_control);
            let mut events: Vec<KeyEvent> = Vec::new();
            events.push(KeyEvent { key_code: hotkey.key_code, key_down: true, flags });
            events.push(KeyEvent { key_code: hotkey.key_code, key_down: false, flags });
            Ok(events)
        },
        Err(error) => Err(error),
    }
}

/// A call of the window server or of accessibility failed if its status is not zero.
pub fn check_status(status: i32, call: &'static str) -> (result: Result<
    (),
    MacosNativeOperationError,
>)
    ensures
        result == if status == 0 {
            Ok::<(), MacosNativeOperationError>(())
        } else {
            Err(MacosNativeOperationError::CallFailed(call))
        },
{
    if status == 0 {
        Ok(())
    } else {
        Err(MacosNativeOperationError::CallFailed(call))
    }
}

/// The length of an event record.
pub const EVENT_RECORD_LEN: usize = 0xf8;

/// The byte at `at` of the record that makes a window the key window. `id` is the identifier of
/// the window as it lies in memory.
pub open spec fn event_byte(id: Seq<u8>, press: bool, at: int) -> u8 {
    if at == 0x04 {
        0xf8
    } else if at == 0x08 {
        if press {
            0x01
        } else {
            0x02
        }
    } else if 0x20 <= at < 0x30 {
        0xff
    } else if at == 0x3a {
        0x10
    } else if 0x3c <= at < 0x40 {
        id[at - 0x3c]
    } else {
        0
    }
}

/// The record that makes a window the key window, for the press or for the release of the mouse
/// that it stands for.
pub open spec fn event_record(id: Seq<u8>, press: bool) -> Seq<u8> {
    Seq::new(EVENT_RECORD_LEN as nat, |at: int| event_byte(id, press, at))
}

/// Writes the record that makes a window the key window.
pub fn key_window_event(id: [u8; 4], press: bool) -> (result: Vec<u8>)
    ensures
        result@ == event_record(id@, press),
{
    let mut bytes: Vec<u8> = Vec::new();
    let mut at: usize = 0;
    while at < EVENT_RECORD_LEN
        invariant
            at <= EVENT_RECORD_LEN,
            bytes@.len() == at,
            forall|i: int| 0 <= i < at ==> #[trigger] bytes@[i] == event_byte(id@, press, i),
        decreases EVENT_RECORD_LEN - at,
    {
        let byte: u8 = if at == 0x04 {
            0xf8
        } else if at == 0x08 {
            if press {
                0x01
            } else {
                0x02
            }
        } else if 0x20 <= at && at < 0x30 {
            0xff
        } else if at == 0x3a {
            0x10
        } else if 0x3c <= at && at < 0x40 {
            id[at - 0x3c]
        } else {
            0
        };
        bytes.push(byte);
        at += 1;
    }
    assert(bytes@ =~= event_record(id@, press));
    bytes
}

/// Lists the records that make a window the key window: the press, and the release. They are sent
/// in their order, each one only if all before it were.
pub fn key_window_events(id: [u8; 4]) -> (result: Vec<Vec<u8>>)
    ensures
        result@.len() == 2,
        result@[0]@ == event_record(id@, true),
        result@[1]@ == event_record(id@, false),
{
    let mut records: Vec<Vec<u8>> = Vec::new();
    records.push(key_window_event(id, true));
    records.push(key_window_event(id, false));
    records
}

/// The window server knows windows by 32 bits. A larger identifier belongs to no window.
pub fn narrow_window_id(window_id: u64) -> (result: Result<u32, MacosNativeOperationError>)
    ensures
        match result {
            Ok(id) => id == window_id,
            Err(error) => window_id > u32::MAX && error == MacosNativeOperationError::MissingWindow(
                window_id,
            ),
        },
{
    if window_id <= u32::MAX as u64 {
        Ok(window_id as u32)
    } else {
        Err(MacosNativeOperationError::MissingWindow(window_id))
    }
}

/// The flags of a shortcut are the sum of those of the keys that are held down.
pub proof fn flags_add_up(keys: MissionControlModifiers, result: u64)
    requires
        call_ensures(mission_control_shortcut_flags, (&keys,), result),
    ensures
        result == (if keys.shift {
            0x2_0000int
        } else {
            0
        }) + (if keys.control {
            0x4_0000int
        } else {
            0
        }) + (if keys.option {
            0x8_0000int
        } else {
            0
        }) + (if keys.command {
            0x10_0000int
        } else {
            0
        }) + (if keys.function {
            0x80_0000int
        } else {
            0
        }),
{
    let (a, b, c, d, e) = (
        flag_if(keys.shift, SHIFT_FLAG),
        flag_if(keys.control, CONTROL_FLAG),
        flag_if(keys.option, OPTION_FLAG),
        flag_if(keys.command, COMMAND_FLAG),
        flag_if(keys.function, FUNCTION_FLAG),
    );
    assert(a | b | c | d | e == a + b + c + d + e) by (bit_vector)
        requires
            a == 0 || a == 0x2_0000,
            b == 0 || b == 0x4_0000,
            c == 0 || c == 0x8_0000,
            d == 0 || d == 0x10_0000,
            e == 0 || e == 0x80_0000,
    ;
}

/// West and east have their own shortcut, up and down have none. A shortcut is sent as its key going
/// down and then coming up, both times with the flags of the keys held down.
pub proof fn shortcuts_go_sideways(
    hotkeys: SpaceHotkeys,
    direction: NativeDirection,
    hotkey: Result<MissionControlHotkey, MacosNativeOperationError>,
    flags: u64,
    events: Result<Vec<KeyEvent>, MacosNativeOperationError>,
)
    requires
        call_ensures(mission_control_shortcut, (&hotkeys, direction), hotkey),
        hotkey matches Ok(hotkey) ==> call_ensures(
            mission_control_shortcut_flags,
            (&hotkey.mission_control,),
            flags,
        ),
        call_ensures(switch_adjacent_space_via_hotkey, (&hotkeys, direction), events),
    ensures
        direction is West ==> hotkey == Ok::<_, MacosNativeOperationError>(
            hotkeys.west_space_hotkey,
        ),
        direction is East ==> hotkey == Ok::<_, MacosNativeOperationError>(
            hotkeys.east_space_hotkey,
        ),
        direction is North || direction is South ==> hotkey == Err::<MissionControlHotkey, _>(
            MacosNativeOperationError::CallFailed("adjacent_space_hotkey_direction"),
        ) && events == Err::<Vec<KeyEvent>, _>(
            MacosNativeOperationError::CallFailed("adjacent_space_hotkey_direction"),
        ),
        hotkey matches Ok(hotkey) ==> {
            &&& events is Ok
            &&& events->Ok_0@.len() == 2
            &&& events->Ok_0@[0].key_code == hotkey.key_code
            &&& events->Ok_0@[1].key_code == hotkey.key_code
            &&& events->Ok_0@[0].key_down
            &&& !events->Ok_0@[1].key_down
            &&& events->Ok_0@[0].flags == flags
            &&& events->Ok_0@[1].flags == flags
        },
{
}

/// A call has failed exactly if its status is not zero, and is then named.
pub proof fn status_zero_is_success(
    status: i32,
    call: &'static str,
    result: Result<(), MacosNativeOperationError>,
)
    requires
        call_ensures(check_status, (status, call), result),
    ensures
        result is Ok <==> status == 0,
        result matches Err(error) ==> error == MacosNativeOperationError::CallFailed(call),
{
}

/// A record is as long as it says in its fifth byte. It tells the press from the release, carries the
/// identifier of the window, and is otherwise the same for every window.
pub proof fn records_carry_the_window(id: [u8; 4], press: bool, result: Vec<u8>, at: int)
    requires
        call_ensures(key_window_event, (id, press), result),
        0 <= at < 0xf8,
    ensures
        result@.len() == 0xf8,
        result@[0x04] == 0xf8,
        result@[0x08] == (if press {
            1u8
        } else {
            2u8
        }),
        0x20 <= at < 0x30 ==> result@[at] == 0xff,
        result@[0x3a] == 0x10,
        0 <= at < 4 ==> result@[0x3c + at] == id@[at],
        at != 0x04 && at != 0x08 && at != 0x3a && !(0x20 <= at < 0x30) && !(0x3c <= at < 0x40)
            ==> result@[at] == 0,
{
}

/// A window is made the key window by the press and then the release.
pub proof fn the_press_comes_before_the_release(
    id: [u8; 4],
    result: Vec<Vec<u8>>,
    press: Vec<u8>,
    release: Vec<u8>,
)
    requires
        call_ensures(key_window_events, (id,), result),
        call_ensures(key_window_event, (id, true), press),
        call_ensures(key_window_event, (id, false), release),
    ensures
        result@.len() == 2,
        result@[0]@ == press@,
        result@[1]@ == release@,
{
}

/// An identifier is narrowed only where that does not change it, and is otherwise missing.
pub proof fn narrowed_identifiers_stay_the_same(
    window_id: u64,
    result: Result<u32, MacosNativeOperationError>,
)
    requires
        call_ensures(narrow_window_id, (window_id,), result),
    ensures
        result is Ok <==> window_id <= 0xffff_ffff,
        result matches Ok(id) ==> id == window_id,
        result matches Err(error) ==> error == MacosNativeOperationError::MissingWindow(window_id),
{
}

} // verus!
