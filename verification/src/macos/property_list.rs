//! Property lists, in which the window server describes spaces and windows.
use crate::ids;
use crate::macos::types::{MacosNativeProbeError, NativeBounds, RawSpaceRecord, RawWindow};
use crate::select;
use crate::text;
use std::collections::HashMap;
use std::collections::HashSet;
use vstd::prelude::*;

verus! {

/// A value of a property list.
#[derive(Debug, PartialEq, Eq)]
pub enum PropertyValue {
    /// A number that fits in 64 bits.
    Number(i64),
    Text(String),
    Array(Vec<PropertyValue>),
    Dictionary(Vec<PropertyEntry>),
    /// Anything else.
    Other,
}

/// An entry of a dictionary.
#[derive(Debug, PartialEq, Eq)]
pub struct PropertyEntry {
    pub key: String,
    pub value: PropertyValue,
}

/// Which entries carry the given key.
pub open spec fn with_key(entries: Seq<PropertyEntry>, key: Seq<char>) -> Seq<bool> {
    Seq::new(entries.len(), |i: int| entries[i].key@ == key)
}

/// The value under a key.
pub open spec fn value_at(entries: Seq<PropertyEntry>, key: Seq<char>) -> Option<PropertyValue> {
    match select::first_set(with_key(entries, key)) {
        Some(at) => Some(entries[at].value),
        None => None,
    }
}

/// The number under a key, if it lies between `min` and `max`.
pub open spec fn number_at(
    entries: Seq<PropertyEntry>,
    key: Seq<char>,
    min: int,
    max: int,
) -> Option<int> {
    match value_at(entries, key) {
        Some(PropertyValue::Number(number)) => if min <= number <= max {
            Some(number as int)
        } else {
            None
        },
        _ => None,
    }
}

/// The unsigned number under a key.
pub open spec fn u64_at(entries: Seq<PropertyEntry>, key: Seq<char>) -> Option<u64> {
    match number_at(entries, key, 0, i64::MAX as int) {
        Some(number) => Some(number as u64),
        None => None,
    }
}

/// The unsigned 32-bit number under a key.
pub open spec fn u32_at(entries: Seq<PropertyEntry>, key: Seq<char>) -> Option<u32> {
    match number_at(entries, key, 0, u32::MAX as int) {
        Some(number) => Some(number as u32),
        None => None,
    }
}

/// The signed 32-bit number under a key.
pub open spec fn i32_at(entries: Seq<PropertyEntry>, key: Seq<char>) -> Option<i32> {
    match number_at(entries, key, i32::MIN as int, i32::MAX as int) {
        Some(number) => Some(number as i32),
        None => None,
    }
}

/// The text under a key.
pub open spec fn text_at(entries: Seq<PropertyEntry>, key: Seq<char>) -> Option<String> {
    match value_at(entries, key) {
        Some(PropertyValue::Text(text)) => Some(text),
        _ => None,
    }
}

/// The array under a key.
pub open spec fn array_at(entries: Seq<PropertyEntry>, key: Seq<char>) -> Option<
    Seq<PropertyValue>,
> {
    match value_at(entries, key) {
        Some(PropertyValue::Array(values)) => Some(values@),
        _ => None,
    }
}

/// The entries of the dictionary under a key.
pub open spec fn dictionary_at(entries: Seq<PropertyEntry>, key: Seq<char>) -> Option<
    Seq<PropertyEntry>,
> {
    match value_at(entries, key) {
        Some(PropertyValue::Dictionary(inner)) => Some(inner@),
        _ => None,
    }
}

/// `first`, or `second` where there is no `first`.
pub open spec fn either(first: Option<u64>, second: Option<u64>) -> Option<u64> {
    match first {
        Some(_) => first,
        None => second,
    }
}

fn find<'a>(entries: &'a Vec<PropertyEntry>, key: &str) -> (result: Option<&'a PropertyValue>)
    ensures
        match result {
            Some(value) => value_at(entries@, key@) == Some(*value),
            None => value_at(entries@, key@) is None,
        },
{
    let ghost flags = with_key(entries@, key@);
    let mut at: usize = 0;
    while at < entries.len()
        invariant
            at <= entries.len(),
            flags == with_key(entries@, key@),
            forall|i: int| 0 <= i < at ==> !#[trigger] flags[i],
        decreases entries.len() - at,
    {
        let found: bool = text::same_text(entries[at].key.as_str(), key);
        assert(found == flags[at as int]);
        if found {
            proof {
                select::lemma_first_set(flags, at as int);
            }
            return Some(&entries[at].value);
        }
        at += 1;
    }
    proof {
        select::lemma_none_set(flags);
    }
    None
}

/// Reads the unsigned number under a key.
pub fn dictionary_u64(entries: &Vec<PropertyEntry>, key: &str) -> (result: Option<u64>)
    ensures
        result == u64_at(entries@, key@),
{
    match find(entries, key) {
        Some(PropertyValue::Number(number)) => if *number >= 0 {
            Some(*number as u64)
        } else {
            None
        },
        _ => None,
    }
}

/// Reads the unsigned 32-bit number under a key.
pub fn dictionary_u32(entries: &Vec<PropertyEntry>, key: &str) -> (result: Option<u32>)
    ensures
        result == u32_at(entries@, key@),
{
    match find(entries, key) {
        Some(PropertyValue::Number(number)) => if *number >= 0 && *number <= u32::MAX as i64 {
            Some(*number as u32)
        } else {
            None
        },
        _ => None,
    }
}

/// Reads the signed 32-bit number under a key.
pub fn dictionary_i32(entries: &Vec<PropertyEntry>, key: &str) -> (result: Option<i32>)
    ensures
        result == i32_at(entries@, key@),
{
    match find(entries, key) {
        Some(PropertyValue::Number(number)) => if *number >= i32::MIN as i64 && *number
            <= i32::MAX as i64 {
            Some(*number as i32)
        } else {
            None
        },
        _ => None,
    }
}

/// Reads the text under a key.
pub fn dictionary_string(entries: &Vec<PropertyEntry>, key: &str) -> (result: Option<String>)
    ensures
        result == text_at(entries@, key@),
{
    match find(entries, key) {
        Some(PropertyValue::Text(text)) => Some(text.clone()),
        _ => None,
    }
}

/// Reads the array under a key.
pub fn dictionary_array<'a>(entries: &'a Vec<PropertyEntry>, key: &str) -> (result: Option<
    &'a Vec<PropertyValue>,
>)
    ensures
        match result {
            Some(values) => array_at(entries@, key@) == Some(values@),
            None => array_at(entries@, key@) is None,
        },
{
    match find(entries, key) {
        Some(PropertyValue::Array(values)) => Some(values),
        _ => None,
    }
}

/// Reads the dictionary under a key.
pub fn dictionary_dictionary<'a>(entries: &'a Vec<PropertyEntry>, key: &str) -> (result: Option<
    &'a Vec<PropertyEntry>,
>)
    ensures
        match result {
            Some(inner) => dictionary_at(entries@, key@) == Some(inner@),
            None => dictionary_at(entries@, key@) is None,
        },
{
    match find(entries, key) {
        Some(PropertyValue::Dictionary(inner)) => Some(inner),
        _ => None,
    }
}

/// The list of spaces cannot be understood.
pub open spec fn bad_spaces() -> MacosNativeProbeError {
    MacosNativeProbeError::MissingTopology("SLSCopyManagedDisplaySpaces")
}

/// The list of windows cannot be understood.
pub open spec fn bad_windows() -> MacosNativeProbeError {
    MacosNativeProbeError::MissingTopology("SLSCopyWindowsWithOptionsAndTags")
}

/// The description of a window cannot be understood.
pub open spec fn bad_description() -> MacosNativeProbeError {
    MacosNativeProbeError::MissingTopology("CGWindowListCreateDescriptionFromArray")
}

/// The window server takes signed numbers only.
pub fn number_from_u64(value: u64) -> (result: Result<i64, MacosNativeProbeError>)
    ensures
        match result {
            Ok(number) => number == value,
            Err(error) => value > i64::MAX && error == bad_windows(),
        },
{
    if value <= i64::MAX as u64 {
        Ok(value as i64)
    } else {
        Err(MacosNativeProbeError::MissingTopology("SLSCopyWindowsWithOptionsAndTags"))
    }
}

/// Restates a list of identifiers as signed numbers. It fails exactly if one of them is too large.
pub fn array_from_u64s(values: &Vec<u64>) -> (result: Result<Vec<i64>, MacosNativeProbeError>)
    ensures
        match result {
            Ok(numbers) => numbers@.len() == values@.len() && forall|i: int|
                0 <= i < values@.len() ==> #[trigger] numbers@[i] == values@[i],
            Err(error) => error == bad_windows() && exists|i: int|
                0 <= i < values@.len() && #[trigger] values@[i] > i64::MAX,
        },
{
    let mut numbers: Vec<i64> = Vec::new();
    let mut at: usize = 0;
    while at < values.len()
        invariant
            at <= values.len(),
            numbers@.len() == at,
            forall|i: int| 0 <= i < at ==> #[trigger] numbers@[i] == values@[i],
        decreases values.len() - at,
    {
        match number_from_u64(values[at]) {
            Ok(number) => {
                numbers.push(number);
            },
            Err(error) => {
                return Err(error);
            },
        }
        at += 1;
    }
    Ok(numbers)
}

/// The identifier of a display.
pub open spec fn display_identifier(display: PropertyValue) -> Option<String> {
    match display {
        PropertyValue::Dictionary(entries) => text_at(entries@, "Display Identifier"@),
        _ => None,
    }
}

/// Reads the identifiers of all displays. Each must have one.
pub fn parse_display_identifiers(payload: &Vec<PropertyValue>) -> (result: Result<
    Vec<String>,
    MacosNativeProbeError,
>)
    ensures
        match result {
            Ok(identifiers) => identifiers@.len() == payload@.len() && forall|i: int|
                0 <= i < payload@.len() ==> display_identifier(payload@[i]) == Some(
                    #[trigger] identifiers@[i],
                ),
            Err(error) => error == bad_spaces() && exists|i: int|
                0 <= i < payload@.len() && display_identifier(#[trigger] payload@[i]) is None,
        },
{
    let mut identifiers: Vec<String> = Vec::new();
    let mut at: usize = 0;
    while at < payload.len()
        invariant
            at <= payload.len(),
            identifiers@.len() == at,
            forall|i: int|
                0 <= i < at ==> display_identifier(payload@[i]) == Some(#[trigger] identifiers@[i]),
        decreases payload.len() - at,
    {
        let found: Option<String> = match &payload[at] {
            PropertyValue::Dictionary(entries) => dictionary_string(entries, "Display Identifier"),
            _ => None,
        };
        match found {
            Some(identifier) => {
                identifiers.push(identifier);
            },
            None => {
                return Err(MacosNativeProbeError::MissingTopology("SLSCopyManagedDisplaySpaces"));
            },
        }
        at += 1;
    }
    Ok(identifiers)
}

/// The space that a display shows, in any of the forms in which it may be given.
pub open spec fn current_space(display: PropertyValue) -> Option<u64> {
    match display {
        PropertyValue::Dictionary(entries) => either(
            u64_at(entries@, "Current Space ID"@),
            either(
                u64_at(entries@, "CurrentManagedSpaceID"@),
                match dictionary_at(entries@, "Current Space"@) {
                    Some(space) => either(
                        u64_at(space, "ManagedSpaceID"@),
                        u64_at(space, "id64"@),
                    ),
                    None => None,
                },
            ),
        ),
        _ => None,
    }
}

fn first_of(first: Option<u64>, second: Option<u64>) -> (result: Option<u64>)
    ensures
        result == either(first, second),
{
    match first {
        Some(value) => Some(value),
        None => second,
    }
}

fn current_space_of(display: &PropertyValue) -> (result: Option<u64>)
    ensures
        result == current_space(*display),
{
    match display {
        PropertyValue::Dictionary(entries) => {
            let nested: Option<u64> = match dictionary_dictionary(entries, "Current Space") {
                Some(space) => first_of(
                    dictionary_u64(space, "ManagedSpaceID"),
                    dictionary_u64(space, "id64"),
                ),
                None => None,
            };
            first_of(
                dictionary_u64(entries, "Current Space ID"),
                first_of(dictionary_u64(entries, "CurrentManagedSpaceID"), nested),
            )
        },
        _ => None,
    }
}

/// Reads which spaces are shown. There is at least one display, and each shows a space.
pub fn parse_active_space_ids(payload: &Vec<PropertyValue>) -> (result: Result<
    HashSet<u64>,
    MacosNativeProbeError,
>)
    ensures
        match result {
            Ok(ids) => {
                &&& payload@.len() > 0
                &&& forall|i: int|
                    0 <= i < payload@.len() ==> current_space(#[trigger] payload@[i]) is Some
                &&& forall|id: u64|
                    ids@.contains(id) <==> exists|i: int|
                        0 <= i < payload@.len() && current_space(#[trigger] payload@[i]) == Some(id)
            },
            Err(error) => error == bad_spaces() && (payload@.len() == 0 || exists|i: int|
                0 <= i < payload@.len() && current_space(#[trigger] payload@[i]) is None),
        },
{
    broadcast use vstd::std_specs::hash::group_hash_axioms;

    let mut ids: HashSet<u64> = HashSet::new();
    let mut at: usize = 0;
    while at < payload.len()
        invariant
            at <= payload.len(),
            forall|i: int| 0 <= i < at ==> current_space(#[trigger] payload@[i]) is Some,
            forall|id: u64|
                ids@.contains(id) <==> exists|i: int|
                    0 <= i < at && current_space(#[trigger] payload@[i]) == Some(id),
        decreases payload.len() - at,
    {
        let ghost before = ids@;
        match current_space_of(&payload[at]) {
            Some(id) => {
                ids.insert(id);
                proof {
                    assert forall|other: u64|
                        ids@.contains(other) <==> exists|i: int|
                            0 <= i < at + 1 && current_space(#[trigger] payload@[i]) == Some(
                                other,
                            ) by {
                        if other == id {
                            assert(current_space(payload@[at as int]) == Some(other));
                        } else {
                            assert(ids@.contains(other) == before.contains(other));
                        }
                    }
                }
            },
            None => {
                return Err(MacosNativeProbeError::MissingTopology("SLSCopyManagedDisplaySpaces"));
            },
        }
        at += 1;
    }
    if payload.len() > 0 {
        Ok(ids)
    } else {
        Err(MacosNativeProbeError::MissingTopology("SLSCopyManagedDisplaySpaces"))
    }
}

/// A space as the window server lists it, over plain sequences.
pub struct SpaceModel {
    pub managed_space_id: u64,
    pub display_index: usize,
    pub space_type: i32,
    pub tile_spaces: Seq<u64>,
    pub has_tile_layout_manager: bool,
    pub stage_manager_managed: bool,
}

impl View for RawSpaceRecord {
    type V = SpaceModel;

    open spec fn view(&self) -> SpaceModel {
        SpaceModel {
            managed_space_id: self.managed_space_id,
            display_index: self.display_index,
            space_type: self.space_type,
            tile_spaces: self.tile_spaces@,
            has_tile_layout_manager: self.has_tile_layout_manager,
            stage_manager_managed: self.stage_manager_managed,
        }
    }
}

/// What a list of spaces says.
pub open spec fn space_models(spaces: Seq<RawSpaceRecord>) -> Seq<SpaceModel> {
    Seq::new(spaces.len(), |i: int| spaces[i]@)
}

/// The identifier of a tile, in either of the forms in which it may be given.
pub open spec fn tile_id(tile: PropertyValue) -> Option<u64> {
    match tile {
        PropertyValue::Dictionary(entries) => either(
            u64_at(entries@, "ManagedSpaceID"@),
            u64_at(entries@, "id64"@),
        ),
        _ => None,
    }
}

/// The identifiers of those tiles that have one, in their order.
pub open spec fn tile_ids(tiles: Seq<PropertyValue>) -> Seq<u64> {
    tiles.filter(|tile: PropertyValue| tile_id(tile) is Some).map_values(
        |tile: PropertyValue| tile_id(tile)->0,
    )
}

/// The tiles of a space.
pub open spec fn space_tiles(space: Seq<PropertyEntry>) -> Seq<u64> {
    match dictionary_at(space, "TileLayoutManager"@) {
        Some(manager) => match array_at(manager, "TileSpaces"@) {
            Some(tiles) => tile_ids(tiles),
            None => Seq::empty(),
        },
        None => Seq::empty(),
    }
}

/// The space is in the hands of Stage Manager: one of the marks for that is there.
pub open spec fn is_stage_managed(space: Seq<PropertyEntry>) -> bool {
    ||| u64_at(space, "StageManagerManaged"@) is Some
    ||| u64_at(space, "StageManagerSpace"@) is Some
    ||| u64_at(space, "isStageManager"@) is Some
    ||| u64_at(space, "StageManager"@) is Some
}

/// The space that a dictionary describes. It must have an identifier and a type.
pub open spec fn described_space(space: Seq<PropertyEntry>, display_index: usize) -> Option<
    SpaceModel,
> {
    match (u64_at(space, "ManagedSpaceID"@), i32_at(space, "type"@)) {
        (Some(managed_space_id), Some(space_type)) => Some(
            SpaceModel {
                managed_space_id,
                display_index,
                space_type,
                tile_spaces: space_tiles(space),
                has_tile_layout_manager: dictionary_at(space, "TileLayoutManager"@) is Some,
                stage_manager_managed: is_stage_managed(space),
            },
        ),
        _ => None,
    }
}

fn parse_tile_ids(tiles: &Vec<PropertyValue>) -> (result: Vec<u64>)
    ensures
        result@ == tile_ids(tiles@),
{
    let ghost keep = |tile: PropertyValue| tile_id(tile) is Some;
    let ghost named = |tile: PropertyValue| tile_id(tile)->0;
    let mut ids: Vec<u64> = Vec::new();
    let mut at: usize = 0;
    proof {
        reveal(Seq::filter);
        assert(tiles@.take(0) =~= Seq::empty());
        assert(ids@ =~= tiles@.take(0).filter(keep).map_values(named));
    }
    while at < tiles.len()
        invariant
            at <= tiles.len(),
            keep == (|tile: PropertyValue| tile_id(tile) is Some),
            named == (|tile: PropertyValue| tile_id(tile)->0),
            ids@ == tiles@.take(at as int).filter(keep).map_values(named),
        decreases tiles.len() - at,
    {
        let found: Option<u64> = match &tiles[at] {
            PropertyValue::Dictionary(entries) => first_of(
                dictionary_u64(entries, "ManagedSpaceID"),
                dictionary_u64(entries, "id64"),
            ),
            _ => None,
        };
        let ghost kept = tiles@.take(at as int).filter(keep);
        proof {
            select::lemma_filter_step(tiles@, keep, at as int);
        }
        if let Some(id) = found {
            ids.push(id);
            assert(ids@ =~= kept.push(tiles@[at as int]).map_values(named));
        }
        at += 1;
    }
    assert(tiles@.take(at as int) =~= tiles@);
    ids
}

/// Tells whether a space is in the hands of Stage Manager.
pub fn stage_manager_managed(space: &Vec<PropertyEntry>) -> (result: bool)
    ensures
        result == is_stage_managed(space@),
{
    dictionary_u64(space, "StageManagerManaged").is_some() || dictionary_u64(
        space,
        "StageManagerSpace",
    ).is_some() || dictionary_u64(space, "isStageManager").is_some() || dictionary_u64(
        space,
        "StageManager",
    ).is_some()
}

/// Reads the description of a space.
pub fn parse_raw_space_record(space: &Vec<PropertyEntry>, display_index: usize) -> (result: Result<
    RawSpaceRecord,
    MacosNativeProbeError,
>)
    ensures
        match result {
            Ok(record) => described_space(space@, display_index) == Some(record@),
            Err(error) => described_space(space@, display_index) is None && error == bad_spaces(),
        },
{
    let managed_space_id: u64 = match dictionary_u64(space, "ManagedSpaceID") {
        Some(id) => id,
        None => {
            return Err(MacosNativeProbeError::MissingTopology("SLSCopyManagedDisplaySpaces"));
        },
    };
    let space_type: i32 = match dictionary_i32(space, "type") {
        Some(space_type) => space_type,
        None => {
            return Err(MacosNativeProbeError::MissingTopology("SLSCopyManagedDisplaySpaces"));
        },
    };
    let manager = dictionary_dictionary(space, "TileLayoutManager");
    let tile_spaces: Vec<u64> = match manager {
        Some(manager) => match dictionary_array(manager, "TileSpaces") {
            Some(tiles) => parse_tile_ids(tiles),
            None => Vec::new(),
        },
        None => Vec::new(),
    };
    assert(tile_spaces@ =~= space_tiles(space@));
    Ok(
        RawSpaceRecord {
            managed_space_id,
            display_index,
            space_type,
            tile_spaces,
            has_tile_layout_manager: manager.is_some(),
            stage_manager_managed: stage_manager_managed(space),
        },
    )
}

/// The spaces that a list describes, if each of them can be understood.
pub open spec fn described_spaces(spaces: Seq<PropertyValue>, display_index: usize) -> Option<
    Seq<SpaceModel>,
>
    decreases spaces.len(),
{
    if spaces.len() == 0 {
        Some(Seq::empty())
    } else {
        match (described_spaces(spaces.drop_last(), display_index), spaces.last()) {
            (Some(before), PropertyValue::Dictionary(space)) => match described_space(
                space@,
                display_index,
            ) {
                Some(model) => Some(before.push(model)),
                None => None,
            },
            _ => None,
        }
    }
}

/// The spaces of a display.
pub open spec fn display_spaces(display: PropertyValue, display_index: usize) -> Option<
    Seq<SpaceModel>,
> {
    match display {
        PropertyValue::Dictionary(entries) => match array_at(entries@, "Spaces"@) {
            Some(spaces) => described_spaces(spaces, display_index),
            None => None,
        },
        _ => None,
    }
}

/// The spaces of all displays, display after display.
pub open spec fn managed_spaces(payload: Seq<PropertyValue>) -> Option<Seq<SpaceModel>>
    decreases payload.len(),
{
    if payload.len() == 0 {
        Some(Seq::empty())
    } else {
        match (
            managed_spaces(payload.drop_last()),
            display_spaces(payload.last(), (payload.len() - 1) as usize),
        ) {
            (Some(before), Some(here)) => Some(before + here),
            _ => None,
        }
    }
}

proof fn lemma_described_prefix(spaces: Seq<PropertyValue>, display_index: usize, at: int)
    requires
        0 <= at <= spaces.len(),
        described_spaces(spaces.take(at), display_index) is None,
    ensures
        described_spaces(spaces, display_index) is None,
    decreases spaces.len(),
{
    if at == spaces.len() {
        assert(spaces.take(at) =~= spaces);
    } else {
        assert(spaces.drop_last().take(at) =~= spaces.take(at));
        lemma_described_prefix(spaces.drop_last(), display_index, at);
    }
}

proof fn lemma_managed_prefix(payload: Seq<PropertyValue>, at: int)
    requires
        0 <= at <= payload.len(),
        managed_spaces(payload.take(at)) is None,
    ensures
        managed_spaces(payload) is None,
    decreases payload.len(),
{
    if at == payload.len() {
        assert(payload.take(at) =~= payload);
    } else {
        assert(payload.drop_last().take(at) =~= payload.take(at));
        lemma_managed_prefix(payload.drop_last(), at);
    }
}

fn parse_display_spaces(
    values: &Vec<PropertyValue>,
    display_index: usize,
    spaces: &mut Vec<RawSpaceRecord>,
) -> (result: Result<(), MacosNativeProbeError>)
    ensures
        match result {
            Ok(_) => described_spaces(values@, display_index) is Some && space_models(
                final(spaces)@,
            ) == space_models(old(spaces)@) + described_spaces(values@, display_index)->0,
            Err(error) => described_spaces(values@, display_index) is None && error
                == bad_spaces(),
        },
{
    let ghost before = space_models(spaces@);
    let mut at: usize = 0;
    assert(values@.take(0) =~= Seq::empty());
    assert(before + described_spaces(values@.take(0), display_index)->0 =~= before);
    while at < values.len()
        invariant
            at <= values.len(),
            described_spaces(values@.take(at as int), display_index) is Some,
            space_models(spaces@) == before + described_spaces(
                values@.take(at as int),
                display_index,
            )->0,
        decreases values.len() - at,
    {
        let ghost after = values@.take(at + 1);
        assert(after.drop_last() =~= values@.take(at as int));
        assert(after.last() == values@[at as int]);
        match &values[at] {
            PropertyValue::Dictionary(space) => match parse_raw_space_record(space, display_index) {
                Ok(record) => {
                    let ghost listed = spaces@;
                    spaces.push(record);
                    assert(space_models(spaces@) =~= space_models(listed).push(record@));
                    assert(space_models(spaces@) =~= before + described_spaces(
                        after,
                        display_index,
                    )->0);
                },
                Err(error) => {
                    proof {
                        lemma_described_prefix(values@, display_index, at + 1);
                    }
                    return Err(error);
                },
            },
            _ => {
                proof {
                    lemma_described_prefix(values@, display_index, at + 1);
                }
                return Err(MacosNativeProbeError::MissingTopology("SLSCopyManagedDisplaySpaces"));
            },
        }
        at += 1;
    }
    assert(values@.take(at as int) =~= values@);
    Ok(())
}

/// Reads the spaces of all displays. It fails exactly if something cannot be understood.
pub fn parse_managed_spaces(payload: &Vec<PropertyValue>) -> (result: Result<
    Vec<RawSpaceRecord>,
    MacosNativeProbeError,
>)
    ensures
        match result {
            Ok(spaces) => managed_spaces(payload@) == Some(space_models(spaces@)),
            Err(error) => managed_spaces(payload@) is None && error == bad_spaces(),
        },
{
    let mut spaces: Vec<RawSpaceRecord> = Vec::new();
    let mut at: usize = 0;
    assert(payload@.take(0) =~= Seq::empty());
    assert(space_models(spaces@) =~= Seq::empty());
    while at < payload.len()
        invariant
            at <= payload.len(),
            managed_spaces(payload@.take(at as int)) == Some(space_models(spaces@)),
        decreases payload.len() - at,
    {
        let ghost after = payload@.take(at + 1);
        assert(after.drop_last() =~= payload@.take(at as int));
        assert(after.last() == payload@[at as int]);
        let here = match &payload[at] {
            PropertyValue::Dictionary(entries) => dictionary_array(entries, "Spaces"),
            _ => None,
        };
        match here {
            Some(values) => match parse_display_spaces(values, at, &mut spaces) {
                Ok(()) => {},
                Err(error) => {
                    proof {
                        lemma_managed_prefix(payload@, at + 1);
                    }
                    return Err(error);
                },
            },
            None => {
                proof {
                    lemma_managed_prefix(payload@, at + 1);
                }
                return Err(MacosNativeProbeError::MissingTopology("SLSCopyManagedDisplaySpaces"));
            },
        }
        at += 1;
    }
    assert(payload@.take(at as int) =~= payload@);
    Ok(spaces)
}

/// The identifier that a value of a list of windows stands for.
pub open spec fn listed_window_id(value: PropertyValue) -> Option<u64> {
    match value {
        PropertyValue::Number(number) => if number >= 0 {
            Some(number as u64)
        } else {
            None
        },
        _ => None,
    }
}

/// Reads a list of windows. Each must be an identifier.
pub fn parse_window_ids(payload: &Vec<PropertyValue>) -> (result: Result<
    Vec<u64>,
    MacosNativeProbeError,
>)
    ensures
        match result {
            Ok(ids) => ids@.len() == payload@.len() && forall|i: int|
                0 <= i < payload@.len() ==> listed_window_id(payload@[i]) == Some(
                    #[trigger] ids@[i],
                ),
            Err(error) => error == bad_windows() && exists|i: int|
                0 <= i < payload@.len() && listed_window_id(#[trigger] payload@[i]) is None,
        },
{
    let mut ids: Vec<u64> = Vec::new();
    let mut at: usize = 0;
    while at < payload.len()
        invariant
            at <= payload.len(),
            ids@.len() == at,
            forall|i: int|
                0 <= i < at ==> listed_window_id(payload@[i]) == Some(#[trigger] ids@[i]),
        decreases payload.len() - at,
    {
        let found: Option<u64> = match &payload[at] {
            PropertyValue::Number(number) => if *number >= 0 {
                Some(*number as u64)
            } else {
                None
            },
            _ => None,
        };
        match found {
            Some(id) => {
                ids.push(id);
            },
            None => {
                return Err(
                    MacosNativeProbeError::MissingTopology("SLSCopyWindowsWithOptionsAndTags"),
                );
            },
        }
        at += 1;
    }
    Ok(ids)
}

/// The identifier of the window that a description is about.
pub open spec fn described_window_id(description: PropertyValue) -> Option<u64> {
    match description {
        PropertyValue::Dictionary(entries) => u64_at(entries@, "kCGWindowNumber"@),
        _ => None,
    }
}

/// Reads the identifier of the window that a description is about.
pub fn described_id(description: &PropertyValue) -> (result: Option<u64>)
    ensures
        result == described_window_id(*description),
{
    match description {
        PropertyValue::Dictionary(entries) => dictionary_u64(entries, "kCGWindowNumber"),
        _ => None,
    }
}

/// `at` is the last position among the first `upto` whose description is about the window `id`.
pub open spec fn is_last_description(
    descriptions: Seq<PropertyValue>,
    upto: int,
    id: u64,
    at: int,
) -> bool {
    &&& 0 <= at < upto
    &&& described_window_id(descriptions[at]) == Some(id)
    &&& forall|i: int|
        at < i < upto ==> described_window_id(#[trigger] descriptions[i]) != Some(id)
}

/// `order` gives the wanted windows among the first `upto` descriptions their positions.
pub open spec fn is_visible_order(
    order: Map<u64, usize>,
    descriptions: Seq<PropertyValue>,
    upto: int,
    wanted: Set<u64>,
) -> bool {
    &&& forall|id: u64|
        #![trigger order.dom().contains(id)]
        order.dom().contains(id) ==> wanted.contains(id) && is_last_description(
            descriptions,
            upto,
            id,
            order[id] as int,
        )
    &&& forall|i: int|
        0 <= i < upto ==> (described_window_id(#[trigger] descriptions[i]) matches Some(id)
            ==> wanted.contains(id) ==> order.dom().contains(id))
}

/// Numbers the wanted windows by their position among the descriptions of the windows on screen,
/// front to back. Of several descriptions of one window the last counts.
pub fn query_visible_window_order(
    onscreen: &Vec<PropertyValue>,
    target_window_ids: &Vec<u64>,
) -> (result: HashMap<u64, usize>)
    ensures
        is_visible_order(
            result@,
            onscreen@,
            onscreen@.len() as int,
            target_window_ids@.to_set(),
        ),
{
    broadcast use vstd::std_specs::hash::group_hash_axioms;

    let wanted: HashSet<u64> = ids::set_of(target_window_ids);
    let mut order: HashMap<u64, usize> = HashMap::new();
    let mut at: usize = 0;
    while at < onscreen.len()
        invariant
            at <= onscreen.len(),
            wanted@ == target_window_ids@.to_set(),
            is_visible_order(order@, onscreen@, at as int, wanted@),
        decreases onscreen.len() - at,
    {
        let ghost before = order@;
        if let Some(id) = described_id(&onscreen[at]) {
            if wanted.contains(&id) {
                order.insert(id, at);
            }
        }
        proof {
            let last = described_window_id(onscreen@[at as int]);
            assert forall|id: u64| #[trigger] order@.dom().contains(id) implies wanted@.contains(id)
                && is_last_description(onscreen@, at + 1, id, order@[id] as int) by {
                if last == Some(id) {
                    assert(order@[id] == at);
                } else {
                    assert(before.dom().contains(id));
                    assert(order@[id] == before[id]);
                }
            }
            assert forall|i: int| 0 <= i < at + 1 implies (described_window_id(
                #[trigger] onscreen@[i],
            ) matches Some(id) ==> wanted@.contains(id) ==> order@.dom().contains(id)) by {
                if i < at {
                    if let Some(id) = described_window_id(onscreen@[i]) {
                        if wanted@.contains(id) {
                            assert(before.dom().contains(id));
                        }
                    }
                }
            }
        }
        at += 1;
    }
    order
}

/// Collects the identifiers of the windows on screen.
pub fn onscreen_window_ids_from_descriptions(payload: &Vec<PropertyValue>) -> (result: HashSet<u64>)
    ensures
        forall|id: u64| #[trigger]
            result@.contains(id) <==> exists|i: int|
                0 <= i < payload@.len() && described_window_id(#[trigger] payload@[i]) == Some(id),
{
    broadcast use vstd::std_specs::hash::group_hash_axioms;

    let mut ids: HashSet<u64> = HashSet::new();
    let mut at: usize = 0;
    while at < payload.len()
        invariant
            at <= payload.len(),
            forall|id: u64| #[trigger]
                ids@.contains(id) <==> exists|i: int|
                    0 <= i < at && described_window_id(#[trigger] payload@[i]) == Some(id),
        decreases payload.len() - at,
    {
        let ghost before = ids@;
        let found: Option<u64> = described_id(&payload[at]);
        if let Some(id) = found {
            ids.insert(id);
        }
        proof {
            assert forall|id: u64| #[trigger]
                ids@.contains(id) <==> exists|i: int|
                    0 <= i < at + 1 && described_window_id(#[trigger] payload@[i]) == Some(id) by {
                if found == Some(id) {
                    assert(described_window_id(payload@[at as int]) == Some(id));
                } else {
                    assert(ids@.contains(id) == before.contains(id));
                }
            }
        }
        at += 1;
    }
    ids
}

/// The frame that a description gives, if it is complete.
pub open spec fn described_frame(description: Seq<PropertyEntry>) -> Option<NativeBounds> {
    match dictionary_at(description, "kCGWindowBounds"@) {
        Some(bounds) => match (
            i32_at(bounds, "X"@),
            i32_at(bounds, "Y"@),
            i32_at(bounds, "Width"@),
            i32_at(bounds, "Height"@),
        ) {
            (Some(x), Some(y), Some(width), Some(height)) => Some(
                NativeBounds { x, y, width, height },
            ),
            _ => None,
        },
        None => None,
    }
}

fn cg_window_bounds(description: &Vec<PropertyEntry>) -> (result: Option<NativeBounds>)
    ensures
        result == described_frame(description@),
{
    match dictionary_dictionary(description, "kCGWindowBounds") {
        Some(bounds) => match (
            dictionary_i32(bounds, "X"),
            dictionary_i32(bounds, "Y"),
            dictionary_i32(bounds, "Width"),
            dictionary_i32(bounds, "Height"),
        ) {
            (Some(x), Some(y), Some(width), Some(height)) => Some(
                NativeBounds { x, y, width, height },
            ),
            _ => None,
        },
        None => None,
    }
}

/// The window that a dictionary describes. It must have an identifier.
pub open spec fn described_window(
    description: PropertyValue,
    visible_order: Map<u64, usize>,
) -> Option<RawWindow> {
    match description {
        PropertyValue::Dictionary(entries) => match u64_at(entries@, "kCGWindowNumber"@) {
            Some(id) => Some(
                RawWindow {
                    id,
                    pid: u32_at(entries@, "kCGWindowOwnerPID"@),
                    app_id: None,
                    title: text_at(entries@, "kCGWindowName"@),
                    level: match i32_at(entries@, "kCGWindowLayer"@) {
                        Some(level) => level,
                        None => 0,
                    },
                    visible_index: if visible_order.dom().contains(id) {
                        Some(visible_order[id])
                    } else {
                        None
                    },
                    frame: described_frame(entries@),
                },
            ),
            None => None,
        },
        _ => None,
    }
}

/// Reads the descriptions of windows. Each must be about a window.
pub fn parse_window_descriptions(
    payload: &Vec<PropertyValue>,
    visible_order: &HashMap<u64, usize>,
) -> (result: Result<Vec<RawWindow>, MacosNativeProbeError>)
    ensures
        match result {
            Ok(windows) => windows@.len() == payload@.len() && forall|i: int|
                0 <= i < payload@.len() ==> described_window(payload@[i], visible_order@) == Some(
                    #[trigger] windows@[i],
                ),
            Err(error) => error == bad_description() && exists|i: int|
                0 <= i < payload@.len() && described_window(
                    #[trigger] payload@[i],
                    visible_order@,
                ) is None,
        },
{
    broadcast use vstd::std_specs::hash::group_hash_axioms;

    let mut windows: Vec<RawWindow> = Vec::new();
    let mut at: usize = 0;
    while at < payload.len()
        invariant
            at <= payload.len(),
            windows@.len() == at,
            forall|i: int|
                0 <= i < at ==> described_window(payload@[i], visible_order@) == Some(
                    #[trigger] windows@[i],
                ),
        decreases payload.len() - at,
    {
        match (&payload[at], described_id(&payload[at])) {
            (PropertyValue::Dictionary(entries), Some(id)) => {
                let visible_index: Option<usize> = match visible_order.get(&id) {
                    Some(index) => Some(*index),
                    None => None,
                };
                windows.push(
                    RawWindow {
                        id,
                        pid: dictionary_u32(entries, "kCGWindowOwnerPID"),
                        app_id: None,
                        title: dictionary_string(entries, "kCGWindowName"),
                        level: match dictionary_i32(entries, "kCGWindowLayer") {
                            Some(level) => level,
                            None => 0,
                        },
                        visible_index,
                        frame: cg_window_bounds(entries),
                    },
                );
            },
            _ => {
                return Err(
                    MacosNativeProbeError::MissingTopology("CGWindowListCreateDescriptionFromArray"),
                );
            },
        }
        at += 1;
    }
    Ok(windows)
}

/// What stands under a key is the value of the first entry that carries the key, read as what it is
/// asked for: a number only within its range, and nothing where the value is of another kind.
pub proof fn values_stand_under_their_first_key(
    entries: Vec<PropertyEntry>,
    key: &str,
    at: int,
    as_u64: Option<u64>,
    as_u32: Option<u32>,
    as_i32: Option<i32>,
    as_text: Option<String>,
    as_array: Option<&Vec<PropertyValue>>,
    as_dictionary: Option<&Vec<PropertyEntry>>,
)
    requires
        0 <= at < entries@.len(),
        entries@[at].key@ == key@,
        forall|i: int| 0 <= i < at ==> (#[trigger] entries@[i]).key@ != key@,
        call_ensures(dictionary_u64, (&entries, key), as_u64),
        call_ensures(dictionary_u32, (&entries, key), as_u32),
        call_ensures(dictionary_i32, (&entries, key), as_i32),
        call_ensures(dictionary_string, (&entries, key), as_text),
        call_ensures(dictionary_array, (&entries, key), as_array),
        call_ensures(dictionary_dictionary, (&entries, key), as_dictionary),
    ensures
        match entries@[at].value {
            PropertyValue::Number(number) => {
                &&& as_u64 is Some <==> number >= 0
                &&& as_u64 matches Some(read) ==> read == number
                &&& as_u32 is Some <==> 0 <= number <= 0xffff_ffff
                &&& as_u32 matches Some(read) ==> read == number
                &&& as_i32 is Some <==> -0x8000_0000 <= number <= 0x7fff_ffff
                &&& as_i32 matches Some(read) ==> read == number
                &&& as_text is None && as_array is None && as_dictionary is None
            },
            PropertyValue::Text(text) => as_text == Some(text) && as_u64 is None && as_u32 is None
                && as_i32 is None && as_array is None && as_dictionary is None,
            PropertyValue::Array(values) => as_array is Some && as_array->0@ == values@ && as_u64
                is None && as_u32 is None && as_i32 is None && as_text is None && as_dictionary
                is None,
            PropertyValue::Dictionary(inner) => as_dictionary is Some && as_dictionary->0@
                == inner@ && as_u64 is None && as_u32 is None && as_i32 is None && as_text is None
                && as_array is None,
            PropertyValue::Other => as_u64 is None && as_u32 is None && as_i32 is None && as_text
                is None && as_array is None && as_dictionary is None,
        },
        u64_at(entries@, key@) == as_u64,
        u32_at(entries@, key@) == as_u32,
        i32_at(entries@, key@) == as_i32,
        text_at(entries@, key@) == as_text,
        array_at(entries@, key@) == (match as_array {
            Some(values) => Some(values@),
            None => None,
        }),
        dictionary_at(entries@, key@) == (match as_dictionary {
            Some(inner) => Some(inner@),
            None => None,
        }),
{
    let flags = with_key(entries@, key@);
    assert forall|i: int| 0 <= i < at implies !#[trigger] flags[i] by {
        assert(entries@[i].key@ != key@);
    }
    assert(select::is_first_set(flags, at));
    select::lemma_first_set(flags, at);
}

/// Nothing stands under a key that no entry carries.
pub proof fn nothing_stands_under_a_missing_key(
    entries: Vec<PropertyEntry>,
    key: &str,
    as_u64: Option<u64>,
    as_u32: Option<u32>,
    as_i32: Option<i32>,
    as_text: Option<String>,
    as_array: Option<&Vec<PropertyValue>>,
    as_dictionary: Option<&Vec<PropertyEntry>>,
)
    requires
        forall|i: int| 0 <= i < entries@.len() ==> (#[trigger] entries@[i]).key@ != key@,
        call_ensures(dictionary_u64, (&entries, key), as_u64),
        call_ensures(dictionary_u32, (&entries, key), as_u32),
        call_ensures(dictionary_i32, (&entries, key), as_i32),
        call_ensures(dictionary_string, (&entries, key), as_text),
        call_ensures(dictionary_array, (&entries, key), as_array),
        call_ensures(dictionary_dictionary, (&entries, key), as_dictionary),
    ensures
        as_u64 is None && as_u32 is None && as_i32 is None,
        as_text is None && as_array is None && as_dictionary is None,
{
    let flags = with_key(entries@, key@);
    assert forall|i: int| 0 <= i < flags.len() implies !#[trigger] flags[i] by {
        assert(entries@[i].key@ != key@);
    }
    select::lemma_none_set(flags);
}

/// What cannot be understood is reported by the name of the call that gave it.
pub proof fn errors_name_the_call(
    spaces: Vec<PropertyValue>,
    windows: Vec<PropertyValue>,
    value: u64,
    values: Vec<u64>,
    visible_order: HashMap<u64, usize>,
    displays: Result<Vec<String>, MacosNativeProbeError>,
    active: Result<HashSet<u64>, MacosNativeProbeError>,
    managed: Result<Vec<RawSpaceRecord>, MacosNativeProbeError>,
    ids: Result<Vec<u64>, MacosNativeProbeError>,
    number: Result<i64, MacosNativeProbeError>,
    numbers: Result<Vec<i64>, MacosNativeProbeError>,
    described: Result<Vec<RawWindow>, MacosNativeProbeError>,
)
    requires
        call_ensures(parse_display_identifiers, (&spaces,), displays),
        call_ensures(parse_active_space_ids, (&spaces,), active),
        call_ensures(parse_managed_spaces, (&spaces,), managed),
        call_ensures(parse_window_ids, (&windows,), ids),
        call_ensures(number_from_u64, (value,), number),
        call_ensures(array_from_u64s, (&values,), numbers),
        call_ensures(parse_window_descriptions, (&windows, &visible_order), described),
    ensures
        displays matches Err(error) ==> error == MacosNativeProbeError::MissingTopology(
            "SLSCopyManagedDisplaySpaces",
        ),
        active matches Err(error) ==> error == MacosNativeProbeError::MissingTopology(
            "SLSCopyManagedDisplaySpaces",
        ),
        managed matches Err(error) ==> error == MacosNativeProbeError::MissingTopology(
            "SLSCopyManagedDisplaySpaces",
        ),
        ids matches Err(error) ==> error == MacosNativeProbeError::MissingTopology(
            "SLSCopyWindowsWithOptionsAndTags",
        ),
        number matches Err(error) ==> error == MacosNativeProbeError::MissingTopology(
            "SLSCopyWindowsWithOptionsAndTags",
        ),
        numbers matches Err(error) ==> error == MacosNativeProbeError::MissingTopology(
            "SLSCopyWindowsWithOptionsAndTags",
        ),
        described matches Err(error) ==> error == MacosNativeProbeError::MissingTopology(
            "CGWindowListCreateDescriptionFromArray",
        ),
        number is Ok <==> value <= 0x7fff_ffff_ffff_ffff,
        number matches Ok(read) ==> read == value,
        numbers matches Ok(read) ==> read@.len() == values@.len() && forall|i: int|
            0 <= i < read@.len() ==> (#[trigger] read@[i]) == values@[i],
        numbers is Err <==> exists|i: int|
            0 <= i < values@.len() && (#[trigger] values@[i]) > 0x7fff_ffff_ffff_ffff,
{
    if numbers is Ok && exists|i: int|
        0 <= i < values@.len() && (#[trigger] values@[i]) > 0x7fff_ffff_ffff_ffff {
        let i = choose|i: int|
            0 <= i < values@.len() && (#[trigger] values@[i]) > 0x7fff_ffff_ffff_ffff;
        assert(numbers->Ok_0@[i] == values@[i]);
    }
}

/// Each display goes by the text under its own key, and all of them must have one.
pub proof fn displays_go_by_their_identifier(
    payload: Vec<PropertyValue>,
    result: Result<Vec<String>, MacosNativeProbeError>,
)
    requires
        call_ensures(parse_display_identifiers, (&payload,), result),
    ensures
        result is Ok <==> forall|i: int|
            0 <= i < payload@.len() ==> (#[trigger] payload@[i]) is Dictionary && text_at(
                payload@[i]->Dictionary_0@,
                "Display Identifier"@,
            ) is Some,
        result matches Ok(identifiers) ==> identifiers@.len() == payload@.len() && forall|i: int|
            0 <= i < payload@.len() ==> text_at(
                payload@[i]->Dictionary_0@,
                "Display Identifier"@,
            ) == Some(#[trigger] identifiers@[i]),
{
    if let Ok(identifiers) = result {
        assert forall|i: int| 0 <= i < payload@.len() implies (#[trigger] payload@[i]) is Dictionary
            && text_at(payload@[i]->Dictionary_0@, "Display Identifier"@) == Some(
            identifiers@[i],
        ) by {
            assert(display_identifier(payload@[i]) == Some(identifiers@[i]));
        }
    }
}

/// `display` shows the space `id`: it says so by number, by the number of the managed space, or in the
/// description of the space by either of two keys; what comes earlier counts.
pub open spec fn shows(display: PropertyValue, id: u64) -> bool {
    display matches PropertyValue::Dictionary(entries) && {
        let first = u64_at(entries@, "Current Space ID"@);
        let second = u64_at(entries@, "CurrentManagedSpaceID"@);
        let space = dictionary_at(entries@, "Current Space"@);
        ||| first == Some(id)
        ||| first is None && second == Some(id)
        ||| first is None && second is None && space is Some && u64_at(space->0, "ManagedSpaceID"@)
            == Some(id)
        ||| first is None && second is None && space is Some && u64_at(space->0, "ManagedSpaceID"@)
            is None && u64_at(space->0, "id64"@) == Some(id)
    }
}

/// The active spaces are those that the displays show, and every display must show one.
pub proof fn active_spaces_are_those_shown(
    payload: Vec<PropertyValue>,
    result: Result<HashSet<u64>, MacosNativeProbeError>,
    id: u64,
    at: int,
)
    requires
        call_ensures(parse_active_space_ids, (&payload,), result),
    ensures
        payload@.len() == 0 ==> result is Err,
        0 <= at < payload@.len() && (forall|id: u64| !#[trigger] shows(payload@[at], id)) ==> result
            is Err,
        result is Err ==> payload@.len() == 0 || exists|i: int|
            0 <= i < payload@.len() && forall|id: u64|
                !#[trigger] shows(#[trigger] payload@[i], id),
        result matches Ok(ids) ==> (ids@.contains(id) <==> exists|i: int|
            0 <= i < payload@.len() && shows(#[trigger] payload@[i], id)),
{
    assert forall|display: PropertyValue, id: u64| #[trigger] shows(display, id) <==> current_space(
        display,
    ) == Some(id) by {}
    assert forall|display: PropertyValue| #[trigger] current_space(display) is None implies forall|
        id: u64,
    | !#[trigger] shows(display, id) by {}
    if 0 <= at < payload@.len() && result is Ok {
        assert(current_space(payload@[at]) is Some);
        assert(shows(payload@[at], current_space(payload@[at])->0));
    }
    if let Ok(ids) = result {
        if ids@.contains(id) {
            let i = choose|i: int|
                0 <= i < payload@.len() && current_space(#[trigger] payload@[i]) == Some(id);
            assert(shows(payload@[i], id));
        }
        if exists|i: int| 0 <= i < payload@.len() && shows(#[trigger] payload@[i], id) {
            let i = choose|i: int| 0 <= i < payload@.len() && shows(#[trigger] payload@[i], id);
            assert(current_space(payload@[i]) == Some(id));
        }
    } else if payload@.len() > 0 {
        let i = choose|i: int|
            0 <= i < payload@.len() && current_space(#[trigger] payload@[i]) is None;
        assert(forall|id: u64| !#[trigger] shows(payload@[i], id));
    }
}

/// A space is recorded with the numbers under its own keys; it is tiled if it has a layout manager,
/// and Stage Manager's if any of the marks for that is there. Without an identifier or a type it
/// cannot be recorded.
pub proof fn spaces_are_recorded_as_described(
    space: Vec<PropertyEntry>,
    display_index: usize,
    staged: bool,
    result: Result<RawSpaceRecord, MacosNativeProbeError>,
)
    requires
        call_ensures(parse_raw_space_record, (&space, display_index), result),
        call_ensures(stage_manager_managed, (&space,), staged),
    ensures
        result is Ok <==> u64_at(space@, "ManagedSpaceID"@) is Some && i32_at(space@, "type"@)
            is Some,
        staged <==> u64_at(space@, "StageManagerManaged"@) is Some || u64_at(
            space@,
            "StageManagerSpace"@,
        ) is Some || u64_at(space@, "isStageManager"@) is Some || u64_at(space@, "StageManager"@)
            is Some,
        result matches Err(error) ==> error == MacosNativeProbeError::MissingTopology(
            "SLSCopyManagedDisplaySpaces",
        ),
        result matches Ok(record) ==> {
            let manager = dictionary_at(space@, "TileLayoutManager"@);
            &&& Some(record.managed_space_id) == u64_at(space@, "ManagedSpaceID"@)
            &&& Some(record.space_type) == i32_at(space@, "type"@)
            &&& record.display_index == display_index
            &&& record.has_tile_layout_manager <==> manager is Some
            &&& record.stage_manager_managed == staged
            &&& manager is None || array_at(manager->0, "TileSpaces"@) is None
                ==> record.tile_spaces@.len() == 0
        },
{
}

/// The tiles of a space are those that its layout manager lists with an identifier, in their order.
pub proof fn tiles_are_those_that_are_listed(
    space: Vec<PropertyEntry>,
    display_index: usize,
    result: Result<RawSpaceRecord, MacosNativeProbeError>,
    tiles: Seq<PropertyValue>,
) -> (places: Seq<int>)
    requires
        call_ensures(parse_raw_space_record, (&space, display_index), result),
        result is Ok,
        dictionary_at(space@, "TileLayoutManager"@) matches Some(manager) && array_at(
            manager,
            "TileSpaces"@,
        ) == Some(tiles),
    ensures
        places.len() == result->Ok_0.tile_spaces@.len(),
        forall|i: int, j: int|
            0 <= i < j < places.len() ==> #[trigger] places[i] < #[trigger] places[j],
        forall|i: int|
            0 <= i < places.len() ==> 0 <= #[trigger] places[i] < tiles.len() && is_tile(
                tiles[places[i]],
                result->Ok_0.tile_spaces@[i],
            ),
        forall|k: int, id: u64|
            0 <= k < tiles.len() && #[trigger] is_tile(tiles[k], id) ==> places.contains(k),
{
    let keep = |tile: PropertyValue| tile_id(tile) is Some;
    let pick = |tile: PropertyValue| tile_id(tile)->0;
    let places = select::lemma_filter_order(tiles, keep);
    let ids = result->Ok_0.tile_spaces@;
    assert(ids == tiles.filter(keep).map_values(pick));
    assert forall|i: int| 0 <= i < places.len() implies 0 <= #[trigger] places[i] < tiles.len()
        && is_tile(tiles[places[i]], ids[i]) by {
        assert(keep(tiles[places[i]]));
        assert(ids[i] == pick(tiles.filter(keep)[i]));
    }
    assert forall|k: int, id: u64|
        0 <= k < tiles.len() && #[trigger] is_tile(tiles[k], id) implies places.contains(k) by {
        assert(keep(tiles[k]));
    }
    places
}

/// `tile` carries the identifier `id`, under the key for managed spaces or else under the short one.
pub open spec fn is_tile(tile: PropertyValue, id: u64) -> bool {
    tile matches PropertyValue::Dictionary(entries) && {
        ||| u64_at(entries@, "ManagedSpaceID"@) == Some(id)
        ||| u64_at(entries@, "ManagedSpaceID"@) is None && u64_at(entries@, "id64"@) == Some(id)
    }
}

/// The spaces that a display lists.
pub open spec fn spaces_of(display: PropertyValue) -> Option<Seq<PropertyValue>> {
    match display {
        PropertyValue::Dictionary(entries) => array_at(entries@, "Spaces"@),
        _ => None,
    }
}

/// How many spaces the first `count` displays list.
pub open spec fn spaces_before(payload: Seq<PropertyValue>, count: int) -> nat
    decreases count,
{
    if count <= 0 {
        0
    } else {
        spaces_before(payload, count - 1) + spaces_of(payload[count - 1])->0.len()
    }
}

proof fn lemma_described_spaces(spaces: Seq<PropertyValue>, display_index: usize)
    ensures
        described_spaces(spaces, display_index) is Some <==> forall|i: int|
            0 <= i < spaces.len() ==> (#[trigger] spaces[i]) is Dictionary && described_space(
                spaces[i]->Dictionary_0@,
                display_index,
            ) is Some,
        described_spaces(spaces, display_index) matches Some(models) ==> models.len() == spaces.len()
            && forall|i: int|
            0 <= i < spaces.len() ==> Some(#[trigger] models[i]) == described_space(
                spaces[i]->Dictionary_0@,
                display_index,
            ),
    decreases spaces.len(),
{
    if spaces.len() > 0 {
        let init = spaces.drop_last();
        lemma_described_spaces(init, display_index);
        let last = spaces.len() - 1;
        if described_spaces(spaces, display_index) is Some {
            let models = described_spaces(spaces, display_index)->0;
            let before = described_spaces(init, display_index)->0;
            assert forall|i: int| 0 <= i < spaces.len() implies (
            #[trigger] spaces[i]) is Dictionary && Some(models[i]) == described_space(
                spaces[i]->Dictionary_0@,
                display_index,
            ) by {
                if i < last {
                    assert(init[i] == spaces[i]);
                    assert(before[i] == models[i]);
                }
            }
        } else if forall|i: int|
            0 <= i < spaces.len() ==> (#[trigger] spaces[i]) is Dictionary && described_space(
                spaces[i]->Dictionary_0@,
                display_index,
            ) is Some {
            assert forall|i: int| 0 <= i < init.len() implies (
            #[trigger] init[i]) is Dictionary && described_space(
                init[i]->Dictionary_0@,
                display_index,
            ) is Some by {
                assert(init[i] == spaces[i]);
            }
            assert(spaces[last] is Dictionary);
        }
    }
}

proof fn lemma_spaces_before(payload: Seq<PropertyValue>, count: int)
    requires
        0 <= count < payload.len(),
    ensures
        spaces_before(payload, count) == spaces_before(payload.drop_last(), count),
    decreases count,
{
    if count > 0 {
        lemma_spaces_before(payload, count - 1);
        assert(payload.drop_last()[count - 1] == payload[count - 1]);
    }
}

proof fn lemma_managed_spaces(payload: Seq<PropertyValue>, display: int, at: int)
    requires
        managed_spaces(payload) is Some,
        0 <= display < payload.len() <= usize::MAX,
    ensures
        managed_spaces(payload)->0.len() == spaces_before(payload, payload.len() as int),
        spaces_of(payload[display]) is Some,
        0 <= at < spaces_of(payload[display])->0.len() ==> {
            let space = spaces_of(payload[display])->0[at];
            &&& spaces_before(payload, display) + at < managed_spaces(payload)->0.len()
            &&& space is Dictionary
            &&& Some(managed_spaces(payload)->0[spaces_before(payload, display) + at])
                == described_space(space->Dictionary_0@, display as usize)
        },
    decreases payload.len(),
{
    let init = payload.drop_last();
    let last = payload.len() - 1;
    let here = display_spaces(payload.last(), last as usize)->0;
    lemma_described_spaces(spaces_of(payload.last())->0, last as usize);
    lemma_spaces_before(payload, last);
    if display < last {
        lemma_managed_spaces(init, display, at);
        lemma_spaces_before(payload, display);
        assert(init[display] == payload[display]);
    } else if last > 0 {
        lemma_managed_spaces(init, last - 1, at);
    }
    if display == last && 0 <= at < spaces_of(payload[display])->0.len() {
        assert(managed_spaces(payload)->0[spaces_before(payload, display) + at] == here[at]);
    }
}

/// The spaces of all displays are recorded display after display, each with the number of the display
/// that lists it and as it is described there.
pub proof fn spaces_are_recorded_display_after_display(
    payload: Vec<PropertyValue>,
    result: Result<Vec<RawSpaceRecord>, MacosNativeProbeError>,
    display: usize,
    at: int,
    record: Result<RawSpaceRecord, MacosNativeProbeError>,
)
    requires
        call_ensures(parse_managed_spaces, (&payload,), result),
        result is Ok,
        display < payload@.len(),
        spaces_of(payload@[display as int]) is Some && 0 <= at < spaces_of(
            payload@[display as int],
        )->0.len() ==> call_ensures(
            parse_raw_space_record,
            (&spaces_of(payload@[display as int])->0[at]->Dictionary_0, display),
            record,
        ),
    ensures
        spaces_of(payload@[display as int]) is Some,
        result->Ok_0@.len() == spaces_before(payload@, payload@.len() as int),
        0 <= at < spaces_of(payload@[display as int])->0.len() ==> {
            let found = spaces_before(payload@, display as int) + at;
            &&& found < result->Ok_0@.len()
            &&& record is Ok
            &&& result->Ok_0@[found]@ == record->Ok_0@
        },
{
    assert(payload.len() <= usize::MAX);
    lemma_managed_spaces(payload@, display as int, at);
    let models = space_models(result->Ok_0@);
    if 0 <= at < spaces_of(payload@[display as int])->0.len() {
        assert(models[spaces_before(payload@, display as int) + at]
            == result->Ok_0@[spaces_before(payload@, display as int) + at]@);
    }
}

proof fn lemma_unmanaged_spaces(payload: Seq<PropertyValue>)
    requires
        managed_spaces(payload) is None,
        payload.len() <= usize::MAX,
    ensures
        exists|display: int|
            0 <= display < payload.len() && (spaces_of(#[trigger] payload[display]) is None
                || exists|at: int|
                0 <= at < spaces_of(payload[display])->0.len() && (!((
                #[trigger] spaces_of(payload[display])->0[at]) is Dictionary) || described_space(
                    spaces_of(payload[display])->0[at]->Dictionary_0@,
                    display as usize,
                ) is None)),
    decreases payload.len(),
{
    let init = payload.drop_last();
    let last = payload.len() - 1;
    if managed_spaces(init) is None {
        lemma_unmanaged_spaces(init);
        let display = choose|display: int|
            0 <= display < init.len() && (spaces_of(#[trigger] init[display]) is None || exists|
                at: int,
            |
                0 <= at < spaces_of(init[display])->0.len() && (!((
                #[trigger] spaces_of(init[display])->0[at]) is Dictionary) || described_space(
                    spaces_of(init[display])->0[at]->Dictionary_0@,
                    display as usize,
                ) is None));
        assert(payload[display] == init[display]);
    } else if spaces_of(payload[last]) is Some {
        lemma_described_spaces(spaces_of(payload[last])->0, last as usize);
        assert(payload[last] == payload.last());
    } else {
        assert(spaces_of(payload[last]) is None);
    }
}

/// Spaces cannot be recorded only where some display lists none, or lists something that cannot be
/// recorded.
pub proof fn spaces_fail_only_with_their_displays(
    payload: Vec<PropertyValue>,
    result: Result<Vec<RawSpaceRecord>, MacosNativeProbeError>,
)
    requires
        call_ensures(parse_managed_spaces, (&payload,), result),
        result is Err,
    ensures
        exists|display: int|
            0 <= display < payload@.len() && (spaces_of(#[trigger] payload@[display]) is None
                || exists|at: int|
                0 <= at < spaces_of(payload@[display])->0.len() && (!((
                #[trigger] spaces_of(payload@[display])->0[at]) is Dictionary) || u64_at(
                    spaces_of(payload@[display])->0[at]->Dictionary_0@,
                    "ManagedSpaceID"@,
                ) is None || i32_at(
                    spaces_of(payload@[display])->0[at]->Dictionary_0@,
                    "type"@,
                ) is None)),
{
    assert(payload.len() <= usize::MAX);
    lemma_unmanaged_spaces(payload@);
}

/// A list of windows is read number by number, and fails with anything else in it.
pub proof fn windows_are_listed_by_number(
    payload: Vec<PropertyValue>,
    result: Result<Vec<u64>, MacosNativeProbeError>,
)
    requires
        call_ensures(parse_window_ids, (&payload,), result),
    ensures
        result is Ok <==> forall|i: int|
            0 <= i < payload@.len() ==> (#[trigger] payload@[i]) is Number && payload@[i]->Number_0
                >= 0,
        result matches Ok(ids) ==> ids@.len() == payload@.len() && forall|i: int|
            0 <= i < payload@.len() ==> #[trigger] ids@[i] == payload@[i]->Number_0,
{
    if let Ok(ids) = result {
        assert forall|i: int| 0 <= i < payload@.len() implies (#[trigger] payload@[i]) is Number
            && payload@[i]->Number_0 >= 0 && ids@[i] == payload@[i]->Number_0 by {
            assert(listed_window_id(payload@[i]) == Some(ids@[i]));
        }
    }
}

/// A description is about the window whose number it gives.
pub proof fn descriptions_are_about_their_number(description: PropertyValue, result: Option<u64>)
    requires
        call_ensures(described_id, (&description,), result),
    ensures
        !(description is Dictionary) ==> result is None,
        description matches PropertyValue::Dictionary(entries) ==> result == u64_at(
            entries@,
            "kCGWindowNumber"@,
        ),
        result == described_window_id(description),
{
}

/// A wanted window is numbered by the last place at which it is described, and no other is numbered.
pub proof fn windows_are_numbered_by_their_last_place(
    onscreen: Vec<PropertyValue>,
    wanted: Vec<u64>,
    result: HashMap<u64, usize>,
    at: int,
    id: Option<u64>,
    other: u64,
)
    requires
        call_ensures(query_visible_window_order, (&onscreen, &wanted), result),
        0 <= at < onscreen@.len(),
        call_ensures(described_id, (&onscreen@[at],), id),
    ensures
        (id matches Some(id) && wanted@.contains(id)) ==> result@.contains_key(id->0) && at
            <= result@[id->0] < onscreen@.len(),
        result@.contains_key(other) ==> wanted@.contains(other) && result@[other] < onscreen@.len()
            && described_window_id(onscreen@[result@[other] as int]) == Some(other),
{
    if let Some(id) = id {
        if wanted@.contains(id) {
            assert(wanted@.to_set().contains(id));
            assert(described_window_id(onscreen@[at]) == Some(id));
            assert(result@.dom().contains(id));
        }
    }
    if result@.contains_key(other) {
        assert(result@.dom().contains(other));
    }
}

/// The windows on screen are those that are described.
pub proof fn windows_on_screen_are_those_described(
    payload: Vec<PropertyValue>,
    result: HashSet<u64>,
    id: u64,
)
    requires
        call_ensures(onscreen_window_ids_from_descriptions, (&payload,), result),
    ensures
        result@.contains(id) <==> exists|i: int|
            0 <= i < payload@.len() && (#[trigger] payload@[i]) is Dictionary && u64_at(
                payload@[i]->Dictionary_0@,
                "kCGWindowNumber"@,
            ) == Some(id),
{
    if result@.contains(id) {
        let i = choose|i: int|
            0 <= i < payload@.len() && described_window_id(#[trigger] payload@[i]) == Some(id);
        assert(payload@[i] is Dictionary);
    }
    if exists|i: int|
        0 <= i < payload@.len() && (#[trigger] payload@[i]) is Dictionary && u64_at(
            payload@[i]->Dictionary_0@,
            "kCGWindowNumber"@,
        ) == Some(id) {
        let i = choose|i: int|
            0 <= i < payload@.len() && (#[trigger] payload@[i]) is Dictionary && u64_at(
                payload@[i]->Dictionary_0@,
                "kCGWindowNumber"@,
            ) == Some(id);
        assert(described_window_id(payload@[i]) == Some(id));
    }
}

/// Every window is read with what stands under its own keys: the number, the owner, the name, the
/// layer, and the frame where all four of its parts are given.
pub proof fn windows_are_read_as_described(
    payload: Vec<PropertyValue>,
    visible_order: HashMap<u64, usize>,
    result: Result<Vec<RawWindow>, MacosNativeProbeError>,
    at: int,
)
    requires
        call_ensures(parse_window_descriptions, (&payload, &visible_order), result),
        0 <= at < payload@.len(),
    ensures
        result is Err <==> exists|i: int|
            0 <= i < payload@.len() && (!((#[trigger] payload@[i]) is Dictionary) || u64_at(
                payload@[i]->Dictionary_0@,
                "kCGWindowNumber"@,
            ) is None),
        result matches Ok(windows) ==> windows@.len() == payload@.len() && payload@[at]
            is Dictionary && {
            let (window, entries) = (windows@[at], payload@[at]->Dictionary_0@);
            let bounds = dictionary_at(entries, "kCGWindowBounds"@);
            &&& Some(window.id) == u64_at(entries, "kCGWindowNumber"@)
            &&& window.pid == u32_at(entries, "kCGWindowOwnerPID"@)
            &&& window.app_id is None
            &&& window.title == text_at(entries, "kCGWindowName"@)
            &&& i32_at(entries, "kCGWindowLayer"@) matches Some(level) ==> window.level == level
            &&& i32_at(entries, "kCGWindowLayer"@) is None ==> window.level == 0
            &&& window.visible_index is Some <==> visible_order@.contains_key(window.id)
            &&& window.visible_index matches Some(index) ==> index == visible_order@[window.id]
            &&& window.frame is Some <==> bounds is Some && i32_at(bounds->0, "X"@) is Some
                && i32_at(bounds->0, "Y"@) is Some && i32_at(bounds->0, "Width"@) is Some && i32_at(
                bounds->0,
                "Height"@,
            ) is Some
            &&& window.frame matches Some(frame) ==> {
                &&& Some(frame.x) == i32_at(bounds->0, "X"@)
                &&& Some(frame.y) == i32_at(bounds->0, "Y"@)
                &&& Some(frame.width) == i32_at(bounds->0, "Width"@)
                &&& Some(frame.height) == i32_at(bounds->0, "Height"@)
            }
        },
{
    if let Ok(windows) = result {
        assert forall|i: int| 0 <= i < payload@.len() implies (#[trigger] payload@[i]) is Dictionary
            && u64_at(payload@[i]->Dictionary_0@, "kCGWindowNumber"@) is Some by {
            assert(described_window(payload@[i], visible_order@) == Some(windows@[i]));
        }
        assert(described_window(payload@[at], visible_order@) == Some(windows@[at]));
    } else {
        let i = choose|i: int|
            0 <= i < payload@.len() && described_window(
                #[trigger] payload@[i],
                visible_order@,
            ) is None;
        assert(!(payload@[i] is Dictionary) || u64_at(
            payload@[i]->Dictionary_0@,
            "kCGWindowNumber"@,
        ) is None);
    }
}

} // verus!
