//! Putting together what is known about the desktop, space by space.
use crate::ids;
use crate::macos::app_identity;
use crate::macos::app_identity::parse_lsappinfo_bundle_identifier;
use crate::macos::property_list;
use crate::macos::property_list::{
    parse_active_space_ids, parse_managed_spaces, PropertyValue,
};
use crate::macos::raw_topology;
use crate::macos::raw_topology::{
    active_window_snapshot, classify_space, focused_window_from_active_space_windows,
    snapshots_for_active_space,
};
use crate::macos::types::{
    MacosNativeOperationError, MacosNativeProbeError, RawSpaceRecord, RawTopologySnapshot,
    RawWindow, SpaceKind, WindowSnapshot,
};
use crate::select;
use crate::text;
use std::collections::HashMap;
use std::collections::HashSet;
use vstd::prelude::*;

verus! {

/// A desktop whose spaces are being gone through.
#[derive(Debug, PartialEq, Eq)]
pub struct TopologyScan {
    spaces: Vec<RawSpaceRecord>,
    active_space_ids: HashSet<u64>,
    next: usize,
    active_space_windows: HashMap<u64, Vec<RawWindow>>,
    inactive_space_window_ids: HashMap<u64, Vec<u64>>,
}

/// What the caller is to find out about a space.
#[derive(Clone, Copy, Debug, PartialEq, Eq)]
pub enum ScanStep {
    /// The windows of an active space, with their descriptions.
    Describe(u64),
    /// The identifiers of the windows of an inactive space.
    List(u64),
}

impl TopologyScan {
    /// The spaces to go through.
    pub closed spec fn spaces(self) -> Seq<RawSpaceRecord> {
        self.spaces@
    }

    /// The spaces that are shown.
    pub closed spec fn active(self) -> Set<u64> {
        self.active_space_ids@
    }

    /// How many spaces were gone through.
    pub closed spec fn done(self) -> nat {
        self.next as nat
    }

    /// What was found in active spaces.
    pub closed spec fn described(self) -> Map<u64, Vec<RawWindow>> {
        self.active_space_windows@
    }

    /// What was found in inactive spaces.
    pub closed spec fn listed(self) -> Map<u64, Vec<u64>> {
        self.inactive_space_window_ids@
    }

    /// No more spaces were gone through than there are.
    pub closed spec fn is_valid(self) -> bool {
        self.next <= self.spaces@.len()
    }

    /// What is to be found out next.
    pub open spec fn next_step(self) -> Option<ScanStep> {
        if self.done() < self.spaces().len() {
            let id = self.spaces()[self.done() as int].managed_space_id;
            Some(
                if self.active().contains(id) {
                    ScanStep::Describe(id)
                } else {
                    ScanStep::List(id)
                },
            )
        } else {
            None
        }
    }

    /// Starts to go through the spaces of all displays.
    pub fn start(payload: &Vec<PropertyValue>) -> (result: Result<
        TopologyScan,
        MacosNativeProbeError,
    >)
        ensures
            match result {
                Ok(scan) => {
                    &&& scan.is_valid()
                    &&& property_list::managed_spaces(payload@) == Some(
                        property_list::space_models(scan.spaces()),
                    )
                    &&& payload@.len() > 0
                    &&& forall|i: int|
                        0 <= i < payload@.len() ==> property_list::current_space(
                            #[trigger] payload@[i],
                        ) is Some
                    &&& forall|id: u64|
                        scan.active().contains(id) <==> exists|i: int|
                            0 <= i < payload@.len() && property_list::current_space(
                                #[trigger] payload@[i],
                            ) == Some(id)
                    &&& scan.done() == 0
                    &&& scan.described() == Map::<u64, Vec<RawWindow>>::empty()
                    &&& scan.listed() == Map::<u64, Vec<u64>>::empty()
                },
                Err(error) => error == property_list::bad_spaces() && (
                property_list::managed_spaces(payload@) is None || payload@.len() == 0 || exists|
                    i: int,
                |
                    0 <= i < payload@.len() && property_list::current_space(
                        #[trigger] payload@[i],
                    ) is None),
            },
    {
        broadcast use vstd::std_specs::hash::group_hash_axioms;

        let spaces: Vec<RawSpaceRecord> = match parse_managed_spaces(payload) {
            Ok(spaces) => spaces,
            Err(error) => {
                return Err(error);
            },
        };
        let active_space_ids: HashSet<u64> = match parse_active_space_ids(payload) {
            Ok(ids) => ids,
            Err(error) => {
                return Err(error);
            },
        };
        Ok(
            TopologyScan {
                spaces,
                active_space_ids,
                next: 0,
                active_space_windows: HashMap::new(),
                inactive_space_window_ids: HashMap::new(),
            },
        )
    }

    /// Says what to find out next; nothing, once all spaces were gone through.
    pub fn step(&self) -> (result: Option<ScanStep>)
        requires
            self.is_valid(),
        ensures
            result == self.next_step(),
    {
        if self.next < self.spaces.len() {
            let id: u64 = self.spaces[self.next].managed_space_id;
            if self.active_space_ids.contains(&id) {
                Some(ScanStep::Describe(id))
            } else {
                Some(ScanStep::List(id))
            }
        } else {
            None
        }
    }

    /// Takes in the windows of the active space that was asked for.
    pub fn describe(&mut self, windows: Vec<RawWindow>)
        requires
            old(self).is_valid(),
            old(self).next_step() matches Some(ScanStep::Describe(_)),
        ensures
            final(self).is_valid(),
            final(self).spaces() == old(self).spaces(),
            final(self).active() == old(self).active(),
            final(self).done() == old(self).done() + 1,
            final(self).described() == old(self).described().insert(
                old(self).spaces()[old(self).done() as int].managed_space_id,
                windows,
            ),
            final(self).listed() == old(self).listed(),
    {
        broadcast use vstd::std_specs::hash::group_hash_axioms;

        let id: u64 = self.spaces[self.next].managed_space_id;
        assert(self.next < self.spaces.len());
        self.active_space_windows.insert(id, windows);
        self.next = self.next + 1;
    }

    /// Takes in the identifiers of the windows of the inactive space that was asked for.
    pub fn list(&mut self, window_ids: Vec<u64>)
        requires
            old(self).is_valid(),
            old(self).next_step() matches Some(ScanStep::List(_)),
        ensures
            final(self).is_valid(),
            final(self).spaces() == old(self).spaces(),
            final(self).active() == old(self).active(),
            final(self).done() == old(self).done() + 1,
            final(self).described() == old(self).described(),
            final(self).listed() == old(self).listed().insert(
                old(self).spaces()[old(self).done() as int].managed_space_id,
                window_ids,
            ),
    {
        broadcast use vstd::std_specs::hash::group_hash_axioms;

        let id: u64 = self.spaces[self.next].managed_space_id;
        assert(self.next < self.spaces.len());
        self.inactive_space_window_ids.insert(id, window_ids);
        self.next = self.next + 1;
    }

    /// Hands out what was found, together with which window has the focus.
    pub fn finish(self, focused_window_id: Option<u64>) -> (result: RawTopologySnapshot)
        ensures
            result.spaces@ == self.spaces(),
            result.active_space_ids@ == self.active(),
            result.active_space_windows@ == self.described(),
            result.inactive_space_window_ids@ == self.listed(),
            result.focused_window_id == focused_window_id,
    {
        RawTopologySnapshot {
            spaces: self.spaces,
            active_space_ids: self.active_space_ids,
            active_space_windows: self.active_space_windows,
            inactive_space_window_ids: self.inactive_space_window_ids,
            focused_window_id,
        }
    }

    /// The spaces gone through so far are covered: the active ones are described, the others are
    /// listed, and no space is both.
    pub open spec fn covers_what_is_done(self) -> bool {
        &&& forall|i: int|
            0 <= i < self.done() ==> if self.active().contains(
                (#[trigger] self.spaces()[i]).managed_space_id,
            ) {
                self.described().contains_key(self.spaces()[i].managed_space_id)
            } else {
                self.listed().contains_key(self.spaces()[i].managed_space_id)
            }
        &&& forall|id: u64| #[trigger]
            self.described().contains_key(id) ==> self.active().contains(id)
        &&& forall|id: u64| #[trigger] self.listed().contains_key(id) ==> !self.active().contains(id)
    }
}

/// A scan covers every space that it has gone through: it does so at the start, and each answer
/// that is taken in keeps it so.
pub proof fn scans_cover_every_space(before: TopologyScan, after: TopologyScan)
    requires
        before.is_valid(),
        before.covers_what_is_done(),
        before.next_step() is Some,
        after.spaces() == before.spaces(),
        after.active() == before.active(),
        after.done() == before.done() + 1,
        match before.next_step()->0 {
            ScanStep::Describe(id) => after.listed() == before.listed() && exists|
                windows: Vec<RawWindow>,
            | #[trigger] before.described().insert(id, windows) == after.described(),
            ScanStep::List(id) => after.described() == before.described() && exists|ids: Vec<u64>|
                #[trigger] before.listed().insert(id, ids) == after.listed(),
        },
    ensures
        after.covers_what_is_done(),
{
    let last = before.done() as int;
    assert forall|i: int| 0 <= i < after.done() implies if after.active().contains(
        (#[trigger] after.spaces()[i]).managed_space_id,
    ) {
        after.described().contains_key(after.spaces()[i].managed_space_id)
    } else {
        after.listed().contains_key(after.spaces()[i].managed_space_id)
    } by {
        if i < last {
            assert(before.spaces()[i] == after.spaces()[i]);
        }
    }
}

/// Which spaces are shown, according to what each display answered. There is at least one.
pub fn active_space_ids_of(current_spaces: &Vec<u64>) -> (result: Result<
    HashSet<u64>,
    MacosNativeProbeError,
>)
    ensures
        match result {
            Ok(ids) => current_spaces@.len() > 0 && ids@ == current_spaces@.to_set(),
            Err(error) => current_spaces@.len() == 0 && error
                == MacosNativeProbeError::MissingTopology("SLSManagedDisplayGetCurrentSpace"),
        },
{
    if current_spaces.len() == 0 {
        return Err(MacosNativeProbeError::MissingTopology("SLSManagedDisplayGetCurrentSpace"));
    }
    Ok(ids::set_of(current_spaces))
}

/// Lists the spaces that are not shown.
pub fn inactive_spaces(spaces: &Vec<RawSpaceRecord>, active: &HashSet<u64>) -> (result: Vec<u64>)
    ensures
        result@ == spaces@.filter(
            |space: RawSpaceRecord| !active@.contains(space.managed_space_id),
        ).map_values(|space: RawSpaceRecord| space.managed_space_id),
{
    let ghost keep = |space: RawSpaceRecord| !active@.contains(space.managed_space_id);
    let ghost named = |space: RawSpaceRecord| space.managed_space_id;
    let mut result: Vec<u64> = Vec::new();
    let mut at: usize = 0;
    proof {
        reveal(Seq::filter);
        assert(spaces@.take(0) =~= Seq::empty());
        assert(result@ =~= spaces@.take(0).filter(keep).map_values(named));
    }
    while at < spaces.len()
        invariant
            at <= spaces.len(),
            keep == (|space: RawSpaceRecord| !active@.contains(space.managed_space_id)),
            named == (|space: RawSpaceRecord| space.managed_space_id),
            result@ == spaces@.take(at as int).filter(keep).map_values(named),
        decreases spaces.len() - at,
    {
        let id: u64 = spaces[at].managed_space_id;
        let ghost kept = spaces@.take(at as int).filter(keep);
        proof {
            select::lemma_filter_step(spaces@, keep, at as int);
        }
        if !active.contains(&id) {
            result.push(id);
            assert(result@ =~= kept.push(spaces@[at as int]).map_values(named));
        }
        at += 1;
    }
    assert(spaces@.take(at as int) =~= spaces@);
    result
}

/// Keeps the descriptions of the wanted windows, in their order.
pub fn filter_window_descriptions_raw(
    payload: Vec<PropertyValue>,
    target_window_ids: &Vec<u64>,
) -> (result: Vec<PropertyValue>)
    ensures
        result@ == payload@.filter(
            |description: PropertyValue|
                property_list::described_window_id(description) matches Some(id)
                    && target_window_ids@.to_set().contains(id),
        ),
{
    let wanted: HashSet<u64> = ids::set_of(target_window_ids);
    let ghost keep = |description: PropertyValue|
        property_list::described_window_id(description) matches Some(id)
            && target_window_ids@.to_set().contains(id);
    let mut result: Vec<PropertyValue> = Vec::new();
    let ghost all = payload@;
    proof {
        reveal(Seq::filter);
        assert(all.take(0) =~= Seq::empty());
    }
    for description in walk: payload
        invariant
            walk.seq() == all,
            wanted@ == target_window_ids@.to_set(),
            keep == (|description: PropertyValue|
                property_list::described_window_id(description) matches Some(id)
                    && target_window_ids@.to_set().contains(id)),
            result@ == all.take(walk.index() as int).filter(keep),
    {
        proof {
            select::lemma_filter_step(all, keep, walk.index() as int);
        }
        if let Some(id) = property_list::described_id(&description) {
            if wanted.contains(&id) {
                result.push(description);
            }
        }
    }
    assert(all.take(all.len() as int) =~= all);
    result
}

/// Picks the descriptions to go by: those that the window server gave for the wanted windows, and
/// where it gave none, those of the wanted windows among the windows on screen.
pub fn descriptions_or_onscreen(
    described: Vec<PropertyValue>,
    onscreen: Vec<PropertyValue>,
    ids: &Vec<u64>,
) -> (result: Vec<PropertyValue>)
    ensures
        result@ == if described@.len() > 0 {
            described@
        } else {
            onscreen@.filter(
                |description: PropertyValue|
                    property_list::described_window_id(description) matches Some(id)
                        && ids@.to_set().contains(id),
            )
        },
{
    if described.len() > 0 {
        described
    } else {
        filter_window_descriptions_raw(onscreen, ids)
    }
}

/// Finds the description of a window.
pub fn window_description(windows: &Vec<RawWindow>, window_id: u64) -> (result: Result<
    RawWindow,
    MacosNativeOperationError,
>)
    ensures
        result == match select::first_set(raw_topology::raw_with_id(windows@, window_id)) {
            Some(at) => Ok::<RawWindow, MacosNativeOperationError>(windows@[at]),
            None => Err(MacosNativeOperationError::MissingWindow(window_id)),
        },
{
    let ghost flags = raw_topology::raw_with_id(windows@, window_id);
    let mut at: usize = 0;
    while at < windows.len()
        invariant
            at <= windows.len(),
            flags == raw_topology::raw_with_id(windows@, window_id),
            forall|i: int| 0 <= i < at ==> !#[trigger] flags[i],
        decreases windows.len() - at,
    {
        if windows[at].id == window_id {
            proof {
                select::lemma_first_set(flags, at as int);
            }
            return Ok(windows[at].clone());
        }
        assert(!flags[at as int]);
        at += 1;
    }
    proof {
        select::lemma_none_set(flags);
    }
    Err(MacosNativeOperationError::MissingWindow(window_id))
}

/// A search for the focused window through the active spaces.
#[derive(Debug, PartialEq, Eq)]
pub struct FocusScan {
    pub focused_window_id: Option<u64>,
    pub seen: HashMap<u64, Vec<RawWindow>>,
}

impl FocusScan {
    /// Starts a search.
    pub fn start(focused_window_id: Option<u64>) -> (result: FocusScan)
        ensures
            result.focused_window_id == focused_window_id,
            result.seen@ == Map::<u64, Vec<RawWindow>>::empty(),
    {
        broadcast use vstd::std_specs::hash::group_hash_axioms;

        FocusScan { focused_window_id, seen: HashMap::new() }
    }

    /// The focused window, if it is among the windows of the given space.
    pub open spec fn found_in(self, space_id: u64, windows: Seq<RawWindow>) -> Option<
        WindowSnapshot,
    > {
        match self.focused_window_id {
            Some(id) => raw_topology::snapshot_in(space_id, windows, id),
            None => None,
        }
    }

    /// Takes in the windows of a space. If the focused window is among them the search is over;
    /// otherwise they are remembered.
    pub fn visit(&mut self, space_id: u64, windows: Vec<RawWindow>) -> (result: Option<
        WindowSnapshot,
    >)
        ensures
            result == old(self).found_in(space_id, windows@),
            final(self).focused_window_id == old(self).focused_window_id,
            final(self).seen@ == if result is Some {
                old(self).seen@
            } else {
                old(self).seen@.insert(space_id, windows)
            },
    {
        broadcast use vstd::std_specs::hash::group_hash_axioms;

        if let Some(id) = self.focused_window_id {
            if let Some(found) = active_window_snapshot(space_id, &windows, id) {
                return Some(found);
            }
        }
        self.seen.insert(space_id, windows);
        None
    }

    /// Falls back to the frontmost window of all that were seen.
    pub fn conclude(&self) -> (result: Result<WindowSnapshot, MacosNativeProbeError>)
        ensures
            match result {
                Ok(found) => raw_topology::describes_focus(
                    self.seen@,
                    self.focused_window_id,
                    found,
                ),
                Err(error) => error == MacosNativeProbeError::MissingFocusedWindow && forall|
                    space_id: u64,
                |
                    self.seen@.contains_key(space_id) ==> (#[trigger] self.seen@[space_id])@.len()
                        == 0,
            },
    {
        focused_window_from_active_space_windows(&self.seen, self.focused_window_id)
    }
}

/// Fills in the application of a window that has none, from the report about its process.
pub fn with_app_id(found: WindowSnapshot, report: Option<&str>) -> (result: WindowSnapshot)
    ensures
        result.id == found.id,
        result.pid == found.pid,
        result.title == found.title,
        result.space_id == found.space_id,
        result.order_index == found.order_index,
        text::optional_view(result.app_id) == match (found.app_id, found.pid, report) {
            (Some(app_id), _, _) => Some(app_id@),
            (None, Some(_), Some(report)) => app_identity::reported_identifier(report@),
            _ => None,
        },
{
    let app_id: Option<String> = match (found.app_id, found.pid, report) {
        (Some(app_id), _, _) => Some(app_id),
        (None, Some(_), Some(report)) => parse_lsappinfo_bundle_identifier(report),
        _ => None,
    };
    WindowSnapshot {
        id: found.id,
        pid: found.pid,
        app_id,
        title: found.title,
        space_id: found.space_id,
        order_index: found.order_index,
    }
}

/// A space, with its windows from front to back if it is active.
#[derive(Debug, PartialEq, Eq)]
pub struct SpaceSnapshot {
    pub id: u64,
    pub kind: SpaceKind,
    pub is_active: bool,
    pub ordered_window_ids: Option<Vec<u64>>,
}

/// `space` shows the space that `record` describes.
pub open spec fn shows_space(
    space: SpaceSnapshot,
    topology: RawTopologySnapshot,
    record: RawSpaceRecord,
) -> bool {
    &&& space.id == record.managed_space_id
    &&& space.kind == raw_topology::space_kind(record)
    &&& space.is_active == topology.active_space_ids@.contains(record.managed_space_id)
    &&& match space.ordered_window_ids {
        Some(ids) => space.is_active && ids@ == raw_topology::active_snapshots(
            space.id,
            raw_topology::listed_windows(topology, space.id),
        ).map_values(|window: WindowSnapshot| window.id),
        None => !space.is_active,
    }
}

fn ordered_ids(space_id: u64, windows: &Vec<RawWindow>) -> (result: Vec<u64>)
    ensures
        result@ == raw_topology::active_snapshots(space_id, windows@).map_values(
            |window: WindowSnapshot| window.id,
        ),
{
    let snapshots: Vec<WindowSnapshot> = snapshots_for_active_space(space_id, windows);
    let mut ids: Vec<u64> = Vec::new();
    let mut at: usize = 0;
    while at < snapshots.len()
        invariant
            at <= snapshots.len(),
            ids@.len() == at,
            forall|i: int| 0 <= i < at ==> #[trigger] ids@[i] == snapshots@[i].id,
        decreases snapshots.len() - at,
    {
        ids.push(snapshots[at].id);
        at += 1;
    }
    assert(ids@ =~= snapshots@.map_values(|window: WindowSnapshot| window.id));
    ids
}

/// Shows all spaces.
pub fn space_snapshots_from_topology(topology: &RawTopologySnapshot) -> (result: Vec<SpaceSnapshot>)
    ensures
        result@.len() == topology.spaces@.len(),
        forall|i: int|
            0 <= i < result@.len() ==> shows_space(
                #[trigger] result@[i],
                *topology,
                topology.spaces@[i],
            ),
{
    broadcast use vstd::std_specs::hash::group_hash_axioms;

    let mut result: Vec<SpaceSnapshot> = Vec::new();
    let mut at: usize = 0;
    while at < topology.spaces.len()
        invariant
            at <= topology.spaces.len(),
            result@.len() == at,
            forall|i: int|
                0 <= i < at ==> shows_space(#[trigger] result@[i], *topology, topology.spaces@[i]),
        decreases topology.spaces.len() - at,
    {
        let id: u64 = topology.spaces[at].managed_space_id;
        let is_active: bool = topology.active_space_ids.contains(&id);
        let ordered_window_ids: Option<Vec<u64>> = if is_active {
            match topology.active_space_windows.get(&id) {
                Some(windows) => Some(ordered_ids(id, windows)),
                None => {
                    let none: Vec<RawWindow> = Vec::new();
                    assert(none@ =~= Seq::empty());
                    Some(ordered_ids(id, &none))
                },
            }
        } else {
            None
        };
        result.push(
            SpaceSnapshot {
                id,
                kind: classify_space(&topology.spaces[at]),
                is_active,
                ordered_window_ids,
            },
        );
        at += 1;
    }
    result
}

/// What is taken in of an active space is kept under that space, and nothing else changes.
pub proof fn descriptions_are_kept_under_their_space(
    scan: &mut TopologyScan,
    windows: Vec<RawWindow>,
    id: u64,
)
    requires
        call_ensures(TopologyScan::describe, (scan, windows), ()),
        old(scan).next_step() == Some(ScanStep::Describe(id)),
    ensures
        final(scan).described() == old(scan).described().insert(id, windows),
        final(scan).listed() == old(scan).listed(),
        final(scan).done() == old(scan).done() + 1,
        final(scan).spaces() == old(scan).spaces(),
        final(scan).active() == old(scan).active(),
{
}

/// What is taken in of an inactive space is kept under that space, and nothing else changes.
pub proof fn lists_are_kept_under_their_space(scan: &mut TopologyScan, ids: Vec<u64>, id: u64)
    requires
        call_ensures(TopologyScan::list, (scan, ids), ()),
        old(scan).next_step() == Some(ScanStep::List(id)),
    ensures
        final(scan).listed() == old(scan).listed().insert(id, ids),
        final(scan).described() == old(scan).described(),
        final(scan).done() == old(scan).done() + 1,
        final(scan).spaces() == old(scan).spaces(),
        final(scan).active() == old(scan).active(),
{
}

/// A scan starts with the spaces and the active ones that the displays give, and with nothing found;
/// it cannot start where either cannot be read.
pub proof fn scans_start_with_what_the_displays_give(
    payload: Vec<PropertyValue>,
    spaces: Result<Vec<RawSpaceRecord>, MacosNativeProbeError>,
    active: Result<HashSet<u64>, MacosNativeProbeError>,
    result: Result<TopologyScan, MacosNativeProbeError>,
)
    requires
        call_ensures(parse_managed_spaces, (&payload,), spaces),
        call_ensures(parse_active_space_ids, (&payload,), active),
        call_ensures(TopologyScan::start, (&payload,), result),
    ensures
        result is Ok <==> spaces is Ok && active is Ok,
        result matches Err(error) ==> error == MacosNativeProbeError::MissingTopology(
            "SLSCopyManagedDisplaySpaces",
        ),
        result matches Ok(scan) ==> {
            &&& scan.spaces().len() == spaces->Ok_0@.len()
            &&& forall|i: int|
                0 <= i < scan.spaces().len() ==> (#[trigger] scan.spaces()[i])@
                    == spaces->Ok_0@[i]@
            &&& scan.active() == active->Ok_0@
            &&& scan.done() == 0
            &&& scan.described().dom() == Set::<u64>::empty()
            &&& scan.listed().dom() == Set::<u64>::empty()
        },
{
    if let Ok(scan) = result {
        if let Ok(spaces) = spaces {
            let found = property_list::space_models(scan.spaces());
            let read = property_list::space_models(spaces@);
            assert(found == read);
            assert(found.len() == scan.spaces().len() && read.len() == spaces@.len());
            assert forall|i: int| 0 <= i < scan.spaces().len() implies (
            #[trigger] scan.spaces()[i])@ == spaces@[i]@ by {
                assert(found[i] == scan.spaces()[i]@ && read[i] == spaces@[i]@);
            }
        }
        assert(scan.active() =~= active->Ok_0@);
    }
}

/// A scan asks for one space after the other: for descriptions where the space is active, and for
/// identifiers where it is not. It asks for nothing once all were gone through.
pub proof fn scans_ask_for_the_next_space(scan: TopologyScan, result: Option<ScanStep>)
    requires
        call_ensures(TopologyScan::step, (&scan,), result),
        scan.is_valid(),
    ensures
        result is None <==> scan.done() == scan.spaces().len(),
        result matches Some(ScanStep::Describe(id)) ==> id
            == scan.spaces()[scan.done() as int].managed_space_id && scan.active().contains(id),
        result matches Some(ScanStep::List(id)) ==> id
            == scan.spaces()[scan.done() as int].managed_space_id && !scan.active().contains(id),
{
}

/// What a scan hands out is what it started with and what it found, with the focus that it was told.
pub proof fn scans_hand_out_what_they_found(
    scan: TopologyScan,
    focused: Option<u64>,
    result: RawTopologySnapshot,
)
    requires
        call_ensures(TopologyScan::finish, (scan, focused), result),
    ensures
        result.spaces@ == scan.spaces(),
        result.active_space_ids@ == scan.active(),
        result.active_space_windows@ == scan.described(),
        result.inactive_space_window_ids@ == scan.listed(),
        result.focused_window_id == focused,
{
}

/// The active spaces are those that the displays answered with, and there must be one.
pub proof fn active_spaces_are_those_answered(
    current: Vec<u64>,
    result: Result<HashSet<u64>, MacosNativeProbeError>,
    id: u64,
)
    requires
        call_ensures(active_space_ids_of, (&current,), result),
    ensures
        result is Ok <==> current@.len() > 0,
        result matches Ok(ids) ==> (ids@.contains(id) <==> current@.contains(id)),
        result matches Err(error) ==> error == MacosNativeProbeError::MissingTopology(
            "SLSManagedDisplayGetCurrentSpace",
        ),
{
}

/// The spaces that are not shown are listed by identifier, all of them, in their order and no others.
pub proof fn hidden_spaces_are_listed_in_order(
    spaces: Vec<RawSpaceRecord>,
    active: HashSet<u64>,
    result: Vec<u64>,
) -> (places: Seq<int>)
    requires
        call_ensures(inactive_spaces, (&spaces, &active), result),
    ensures
        places.len() == result@.len(),
        forall|i: int, j: int|
            0 <= i < j < places.len() ==> #[trigger] places[i] < #[trigger] places[j],
        forall|i: int|
            0 <= i < places.len() ==> 0 <= #[trigger] places[i] < spaces@.len() && result@[i]
                == spaces@[places[i]].managed_space_id && !active@.contains(result@[i]),
        forall|k: int|
            0 <= k < spaces@.len() && !active@.contains((#[trigger] spaces@[k]).managed_space_id)
                ==> places.contains(k),
{
    let keep = |space: RawSpaceRecord| !active@.contains(space.managed_space_id);
    let pick = |space: RawSpaceRecord| space.managed_space_id;
    let places = select::lemma_filter_order(spaces@, keep);
    assert(result@ == spaces@.filter(keep).map_values(pick));
    assert forall|i: int| 0 <= i < places.len() implies 0 <= #[trigger] places[i] < spaces@.len()
        && result@[i] == spaces@[places[i]].managed_space_id && !active@.contains(result@[i]) by {
        assert(keep(spaces@[places[i]]));
        assert(result@[i] == pick(spaces@.filter(keep)[i]));
    }
    assert forall|k: int|
        0 <= k < spaces@.len() && !active@.contains(
            (#[trigger] spaces@[k]).managed_space_id,
        ) implies places.contains(k) by {
        assert(keep(spaces@[k]));
    }
    places
}

/// Of the descriptions those of wanted windows are kept, all of them, in their order and no others.
pub proof fn wanted_descriptions_are_kept_in_order(
    payload: Vec<PropertyValue>,
    wanted: Vec<u64>,
    result: Vec<PropertyValue>,
) -> (places: Seq<int>)
    requires
        call_ensures(filter_window_descriptions_raw, (payload, &wanted), result),
    ensures
        places.len() == result@.len(),
        forall|i: int, j: int|
            0 <= i < j < places.len() ==> #[trigger] places[i] < #[trigger] places[j],
        forall|i: int|
            0 <= i < places.len() ==> 0 <= #[trigger] places[i] < payload@.len() && result@[i]
                == payload@[places[i]] && is_about(result@[i], wanted@),
        forall|k: int|
            0 <= k < payload@.len() && is_about(#[trigger] payload@[k], wanted@)
                ==> places.contains(k),
{
    let keep = |description: PropertyValue|
        property_list::described_window_id(description) matches Some(id)
            && wanted@.to_set().contains(id);
    let places = select::lemma_filter_order(payload@, keep);
    assert(result@ == payload@.filter(keep));
    assert forall|i: int| 0 <= i < places.len() implies 0 <= #[trigger] places[i] < payload@.len()
        && result@[i] == payload@[places[i]] && is_about(result@[i], wanted@) by {
        assert(keep(payload@[places[i]]));
    }
    assert forall|k: int|
        0 <= k < payload@.len() && is_about(#[trigger] payload@[k], wanted@) implies places.contains(
        k,
    ) by {
        assert(keep(payload@[k]));
    }
    places
}

/// `description` gives the number of a wanted window.
pub open spec fn is_about(description: PropertyValue, wanted: Seq<u64>) -> bool {
    description matches PropertyValue::Dictionary(entries) && property_list::u64_at(
        entries@,
        "kCGWindowNumber"@,
    ) matches Some(id) && wanted.contains(id)
}

/// The descriptions that were given count, and only where there are none those of the wanted windows
/// on screen.
pub proof fn given_descriptions_come_first(
    described: Vec<PropertyValue>,
    onscreen: Vec<PropertyValue>,
    ids: Vec<u64>,
    filtered: Vec<PropertyValue>,
    result: Vec<PropertyValue>,
)
    requires
        call_ensures(descriptions_or_onscreen, (described, onscreen, &ids), result),
        call_ensures(filter_window_descriptions_raw, (onscreen, &ids), filtered),
    ensures
        described@.len() > 0 ==> result@ == described@,
        described@.len() == 0 ==> result@ == filtered@,
{
    let keep = |description: PropertyValue|
        property_list::described_window_id(description) matches Some(id) && ids@.to_set().contains(
            id,
        );
    assert(filtered@ == onscreen@.filter(keep));
    assert(described@.len() == 0 ==> result@ == onscreen@.filter(keep));
}

/// A window is described by the first description of it, and one without is missing.
pub proof fn windows_go_by_their_first_description(
    windows: Vec<RawWindow>,
    window_id: u64,
    result: Result<RawWindow, MacosNativeOperationError>,
)
    requires
        call_ensures(window_description, (&windows, window_id), result),
    ensures
        match result {
            Ok(window) => exists|at: int|
                0 <= at < windows@.len() && #[trigger] windows@[at] == window && window.id
                    == window_id && forall|i: int|
                    0 <= i < at ==> (#[trigger] windows@[i]).id != window_id,
            Err(error) => error == MacosNativeOperationError::MissingWindow(window_id) && forall|
                i: int,
            |
                0 <= i < windows@.len() ==> (#[trigger] windows@[i]).id != window_id,
        },
{
    let flags = raw_topology::raw_with_id(windows@, window_id);
    select::first_set_finds_the_first(flags);
    assert forall|i: int| 0 <= i < windows@.len() implies flags[i] == ((#[trigger] windows@[i]).id
        == window_id) by {}
    if let Some(at) = select::first_set(flags) {
        assert(windows@[at].id == window_id);
    }
}

/// A search for the focus ends in the space that lists the named window, with its place there; every
/// other space that is visited is remembered with its windows, and no other is forgotten.
pub proof fn searches_end_at_the_named_window(
    scan: &mut FocusScan,
    space_id: u64,
    windows: Vec<RawWindow>,
    named: Option<WindowSnapshot>,
    result: Option<WindowSnapshot>,
)
    requires
        call_ensures(FocusScan::visit, (scan, space_id, windows), result),
        old(scan).focused_window_id matches Some(id) ==> call_ensures(
            active_window_snapshot,
            (space_id, &windows, id),
            named,
        ),
        old(scan).focused_window_id is None ==> named is None,
    ensures
        result == named,
        final(scan).focused_window_id == old(scan).focused_window_id,
        result is Some ==> final(scan).seen@ == old(scan).seen@,
        result is None ==> final(scan).seen@ == old(scan).seen@.insert(space_id, windows),
{
}

/// A search starts with nothing seen; it ends with the focus among all that was seen.
pub proof fn searches_fall_back_to_what_was_seen(
    focused: Option<u64>,
    started: FocusScan,
    scan: FocusScan,
    found: Result<WindowSnapshot, MacosNativeProbeError>,
    space_id: u64,
    at: int,
)
    requires
        call_ensures(FocusScan::start, (focused,), started),
        call_ensures(FocusScan::conclude, (&scan,), found),
    ensures
        started.focused_window_id == focused,
        started.seen@.dom() == Set::<u64>::empty(),
        scan.seen@.contains_key(space_id) && 0 <= at < scan.seen@[space_id]@.len() ==> found is Ok,
        found matches Err(error) ==> error is MissingFocusedWindow,
        found matches Ok(window) ==> scan.seen@.contains_key(window.space_id) && exists|i: int|
            0 <= i < scan.seen@[window.space_id]@.len() && (
            #[trigger] scan.seen@[window.space_id]@[i]).id == window.id,
        (found is Ok && scan.seen@.contains_key(space_id) && 0 <= at < scan.seen@[space_id]@.len()
            && scan.focused_window_id is None) ==> exists|i: int|
            #![trigger scan.seen@[found->Ok_0.space_id]@[i]]
            0 <= i < scan.seen@[found->Ok_0.space_id]@.len()
                && scan.seen@[found->Ok_0.space_id]@[i].id == found->Ok_0.id
                && raw_topology::is_in_front(
                scan.seen@[found->Ok_0.space_id]@[i],
                scan.seen@[space_id]@[at],
            ),
{
    if let Ok(window) = found {
        let held = scan.seen@[window.space_id]@;
        raw_topology::listed_windows_are_found(window.space_id, held, window.id);
        if scan.focused_window_id is None && scan.seen@.contains_key(space_id) && 0 <= at
            < scan.seen@[space_id]@.len() {
            let i = choose|i: int|
                raw_topology::is_frontmost(scan.seen@, window.space_id, i) && held[i].id
                    == window.id;
            assert(!select::rank_lt(
                raw_topology::front_rank(scan.seen@[space_id]@[at]),
                raw_topology::front_rank(held[i]),
            ));
            assert(held[i].id == window.id);
        }
    }
}

/// A window keeps the application that it has, and one without gets that of the report about its
/// process; nothing else about it changes.
pub proof fn reports_fill_in_the_application(
    found: WindowSnapshot,
    report: Option<&str>,
    reported: Option<String>,
    result: WindowSnapshot,
)
    requires
        call_ensures(with_app_id, (found, report), result),
        report matches Some(report) ==> call_ensures(
            parse_lsappinfo_bundle_identifier,
            (report,),
            reported,
        ),
    ensures
        result.id == found.id && result.pid == found.pid && result.title == found.title,
        result.space_id == found.space_id && result.order_index == found.order_index,
        found.app_id matches Some(app_id) ==> result.app_id is Some && result.app_id->0@ == app_id@,
        found.app_id is None && found.pid is Some && report is Some ==> text::optional_view(
            result.app_id,
        ) == text::optional_view(reported),
        found.app_id is None && (found.pid is None || report is None) ==> result.app_id is None,
{
}

/// Every space is shown with its own identifier and use; an active one with its windows from front to
/// back, and no other with any.
pub proof fn spaces_are_shown_with_their_windows(
    topology: RawTopologySnapshot,
    result: Vec<SpaceSnapshot>,
    at: int,
    kind: SpaceKind,
    listed: Vec<RawWindow>,
    windows: Vec<WindowSnapshot>,
)
    requires
        call_ensures(space_snapshots_from_topology, (&topology,), result),
        0 <= at < topology.spaces@.len(),
        call_ensures(classify_space, (&topology.spaces@[at],), kind),
        topology.active_space_windows@.contains_key(topology.spaces@[at].managed_space_id)
            ==> listed == topology.active_space_windows@[topology.spaces@[at].managed_space_id],
        !topology.active_space_windows@.contains_key(topology.spaces@[at].managed_space_id)
            ==> listed@.len() == 0,
        call_ensures(
            snapshots_for_active_space,
            (topology.spaces@[at].managed_space_id, &listed),
            windows,
        ),
    ensures
        result@.len() == topology.spaces@.len(),
        result@[at].id == topology.spaces@[at].managed_space_id,
        result@[at].kind == kind,
        result@[at].is_active <==> topology.active_space_ids@.contains(result@[at].id),
        result@[at].ordered_window_ids is Some <==> result@[at].is_active,
        result@[at].ordered_window_ids matches Some(ids) ==> ids@.len() == windows@.len() && forall|
            i: int,
        |
            0 <= i < ids@.len() ==> #[trigger] ids@[i] == windows@[i].id,
{
    assert(shows_space(result@[at], topology, topology.spaces@[at]));
    let id = topology.spaces@[at].managed_space_id;
    assert(listed@ =~= raw_topology::listed_windows(topology, id));
}

} // verus!
