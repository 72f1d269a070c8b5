//! The windows that mangowc announces, and the identifiers by which they are known here.
use crate::error::WmError;
use crate::process::ProcessId;
use crate::select;
use crate::session;
use crate::session::{to_focused_record, FocusedWindowRecord, WindowRecord};
use crate::text;
use std::collections::HashMap;
use vstd::prelude::*;
use vstd::string::*;

verus! {

/// A window as mangowc announces it.
#[derive(Debug, PartialEq, Eq)]
pub struct ToplevelSnapshotEntry {
    pub handle_id: u64,
    pub app_id: Option<String>,
    pub title: Option<String>,
    pub pid: Option<ProcessId>,
    pub activated: bool,
}

impl Clone for ToplevelSnapshotEntry {
    fn clone(&self) -> (copy: Self)
        ensures
            copy == *self,
    {
        ToplevelSnapshotEntry {
            handle_id: self.handle_id,
            app_id: self.app_id.clone(),
            title: self.title.clone(),
            pid: self.pid,
            activated: self.activated,
        }
    }
}

/// The windows that are known, with an identifier for each that stays the same as long as the
/// window is announced.
#[derive(Debug)]
pub struct ToplevelStore {
    next_window_id: u64,
    handle_to_window_id: HashMap<u64, u64>,
    window_id_to_handle: HashMap<u64, u64>,
    windows: Vec<WindowRecord>,
}

/// The windows that are known, over plain maps.
#[verifier::ext_equal]
pub struct StoreModel {
    /// The identifier that was given out last.
    pub last_id: u64,
    /// The identifier of each handle.
    pub ids: Map<u64, u64>,
    /// The handle of each identifier.
    pub handles: Map<u64, u64>,
    pub windows: Seq<WindowRecord>,
}

impl View for ToplevelStore {
    type V = StoreModel;

    closed spec fn view(&self) -> StoreModel {
        StoreModel {
            last_id: self.next_window_id,
            ids: self.handle_to_window_id@,
            handles: self.window_id_to_handle@,
            windows: self.windows@,
        }
    }
}

/// The identifier after `id`. The last one there is stays the last.
pub open spec fn id_after(id: u64) -> u64 {
    if id < u64::MAX {
        (id + 1) as u64
    } else {
        id
    }
}

/// The record of a window that is announced.
pub open spec fn record_of(entry: ToplevelSnapshotEntry, id: u64, place: int) -> WindowRecord {
    WindowRecord {
        id,
        app_id: entry.app_id,
        title: entry.title,
        pid: entry.pid,
        is_focused: entry.activated,
        original_tile_index: place as usize,
    }
}

impl StoreModel {
    /// Nothing is known.
    pub open spec fn empty() -> StoreModel {
        StoreModel {
            last_id: 0,
            ids: Map::empty(),
            handles: Map::empty(),
            windows: Seq::empty(),
        }
    }

    /// What is known after the given windows were announced in place of all others. A handle that
    /// was known keeps its identifier, and any other gets the next one.
    pub open spec fn replaced(self, entries: Seq<ToplevelSnapshotEntry>) -> StoreModel
        decreases entries.len(),
    {
        if entries.len() == 0 {
            StoreModel {
                last_id: self.last_id,
                ids: Map::empty(),
                handles: Map::empty(),
                windows: Seq::empty(),
            }
        } else {
            let before = self.replaced(entries.drop_last());
            let entry = entries.last();
            let known = self.ids.contains_key(entry.handle_id);
            let id = if known {
                self.ids[entry.handle_id]
            } else {
                id_after(before.last_id)
            };
            StoreModel {
                last_id: if known {
                    before.last_id
                } else {
                    id
                },
                ids: before.ids.insert(entry.handle_id, id),
                handles: before.handles.insert(id, entry.handle_id),
                windows: before.windows.push(record_of(entry, id, entries.len() - 1)),
            }
        }
    }

    /// How many of the windows that are announced have a handle that is not known yet. Each of
    /// them uses up an identifier.
    pub open spec fn newcomers(self, entries: Seq<ToplevelSnapshotEntry>) -> nat {
        entries.filter(
            |entry: ToplevelSnapshotEntry| !self.ids.contains_key(entry.handle_id),
        ).len()
    }

    /// The windows that are activated.
    pub open spec fn activated(self) -> Seq<bool> {
        Seq::new(self.windows.len(), |i: int| self.windows[i].is_focused)
    }

    /// Different handles have different identifiers, each leads back to its handle, and none is
    /// zero or beyond the last one that was given out. The windows are those that have an identifier.
    pub open spec fn is_consistent(self) -> bool {
        &&& forall|handle: u64| #[trigger]
            self.ids.contains_key(handle) ==> 0 < self.ids[handle] <= self.last_id
                && self.handles.contains_key(self.ids[handle]) && self.handles[self.ids[handle]]
                == handle
        &&& forall|id: u64| #[trigger]
            self.handles.contains_key(id) ==> 0 < id <= self.last_id && exists|i: int|
                0 <= i < self.windows.len() && (#[trigger] self.windows[i]).id == id
        &&& forall|i: int|
            0 <= i < self.windows.len() ==> self.handles.contains_key(
                (#[trigger] self.windows[i]).id,
            )
    }
}

impl Default for ToplevelStore {
    fn default() -> (result: Self)
        ensures
            result@ == StoreModel::empty(),
    {
        broadcast use vstd::std_specs::hash::group_hash_axioms;

        ToplevelStore {
            next_window_id: 0,
            handle_to_window_id: HashMap::new(),
            window_id_to_handle: HashMap::new(),
            windows: Vec::new(),
        }
    }
}

impl ToplevelStore {
    /// Takes in the windows that are announced, in place of all that were known.
    pub fn replace_snapshot(&mut self, snapshot: &[ToplevelSnapshotEntry])
        ensures
            final(self)@ == old(self)@.replaced(snapshot@),
    {
        broadcast use vstd::std_specs::hash::group_hash_axioms;

        let ghost known = self@;
        let mut last_id: u64 = self.next_window_id;
        let mut ids: HashMap<u64, u64> = HashMap::new();
        let mut handles: HashMap<u64, u64> = HashMap::new();
        let mut windows: Vec<WindowRecord> = Vec::new();
        let mut at: usize = 0;
        assert(snapshot@.take(0) =~= Seq::empty());
        assert((StoreModel { last_id, ids: ids@, handles: handles@, windows: windows@ })
            =~= known.replaced(snapshot@.take(0)));
        while at < snapshot.len()
            invariant
                at <= snapshot.len(),
                self@ == known,
                (StoreModel { last_id, ids: ids@, handles: handles@, windows: windows@ })
                    == known.replaced(snapshot@.take(at as int)),
            decreases snapshot.len() - at,
        {
            let ghost after = snapshot@.take(at + 1);
            assert(after.drop_last() =~= snapshot@.take(at as int));
            assert(after.last() == snapshot@[at as int]);
            let entry: ToplevelSnapshotEntry = snapshot[at].clone();
            let id: u64 = match self.handle_to_window_id.get(&entry.handle_id) {
                Some(id) => *id,
                None => {
                    if last_id < u64::MAX {
                        last_id = last_id + 1;
                    }
                    last_id
                },
            };
            ids.insert(entry.handle_id, id);
            handles.insert(id, entry.handle_id);
            windows.push(
                WindowRecord {
                    id,
                    app_id: entry.app_id,
                    title: entry.title,
                    pid: entry.pid,
                    is_focused: entry.activated,
                    original_tile_index: at,
                },
            );
            assert((StoreModel { last_id, ids: ids@, handles: handles@, windows: windows@ })
                =~= known.replaced(after));
            at += 1;
        }
        assert(snapshot@.take(at as int) =~= snapshot@);
        self.next_window_id = last_id;
        self.handle_to_window_id = ids;
        self.window_id_to_handle = handles;
        self.windows = windows;
    }

    /// Lists the windows that are known.
    pub fn windows(&self) -> (result: &[WindowRecord])
        ensures
            result@ == self@.windows,
    {
        self.windows.as_slice()
    }

    /// Picks the first window that is activated.
    pub fn focused_window(&self) -> (result: Result<FocusedWindowRecord, WmError>)
        ensures
            match (result, select::first_set(self@.activated())) {
                (Ok(record), Some(at)) => record == session::as_focused(self@.windows[at]),
                (Err(WmError::Adapter(text)), None) => text@
                    == "mangowc: no activated foreign toplevel window"@,
                _ => false,
            },
    {
        let ghost flags = self@.activated();
        let mut at: usize = 0;
        while at < self.windows.len()
            invariant
                at <= self.windows.len(),
                flags == self@.activated(),
                forall|i: int| 0 <= i < at ==> !#[trigger] flags[i],
            decreases self.windows.len() - at,
        {
            if self.windows[at].is_focused {
                proof {
                    select::lemma_first_set(flags, at as int);
                }
                return Ok(to_focused_record(&self.windows[at]));
            }
            assert(!flags[at as int]);
            at += 1;
        }
        proof {
            select::lemma_none_set(flags);
        }
        Err(WmError::Adapter("mangowc: no activated foreign toplevel window".to_owned()))
    }

    /// Finds the handle of a window. An identifier that is not known any more is refused.
    pub fn handle_for_window_id(&self, id: u64) -> (result: Result<u64, WmError>)
        ensures
            match result {
                Ok(handle) => self@.handles.contains_key(id) && self@.handles[id] == handle,
                Err(error) => !self@.handles.contains_key(id) && is_stale_error(error, id),
            },
    {
        broadcast use vstd::std_specs::hash::group_hash_axioms;

        match self.window_id_to_handle.get(&id) {
            Some(handle) => Ok(*handle),
            None => Err(stale_error(id)),
        }
    }
}

/// `error` says that a window is not known any more.
pub open spec fn is_stale_error(error: WmError, id: u64) -> bool {
    error matches WmError::Adapter(text) && text@ == "mangowc: stale window id "@ + text::written(
        id as nat,
        10,
    )
}

/// Says that a window is not known any more.
pub fn stale_error(id: u64) -> (result: WmError)
    ensures
        is_stale_error(result, id),
{
    let mut text: String = "mangowc: stale window id ".to_owned();
    text.append(text::write_number(id, 10).as_str());
    WmError::Adapter(text)
}

/// The last window that is announced is a newcomer exactly if its handle is not known.
proof fn lemma_newcomers(store: StoreModel, entries: Seq<ToplevelSnapshotEntry>)
    requires
        entries.len() > 0,
    ensures
        store.newcomers(entries) == store.newcomers(entries.drop_last()) + if store.ids.contains_key(
            entries.last().handle_id,
        ) {
            0nat
        } else {
            1nat
        },
{
    reveal(Seq::filter);
}

/// Where an identifier comes from: it belongs to a known handle that is announced, or it was given
/// to a newcomer and is beyond all that were given out before, unless these had run out.
proof fn lemma_origins(store: StoreModel, entries: Seq<ToplevelSnapshotEntry>, id: u64)
    requires
        store.replaced(entries).handles.contains_key(id),
    ensures
        (exists|i: int|
            0 <= i < entries.len() && store.ids.contains_key((#[trigger] entries[i]).handle_id)
                && store.ids[entries[i].handle_id] == id) || (store.newcomers(entries) > 0 && (id
            > store.last_id || id == u64::MAX)),
    decreases entries.len(),
{
    if entries.len() > 0 {
        let init = entries.drop_last();
        let last = entries.len() - 1;
        let handle = entries[last].handle_id;
        lemma_newcomers(store, entries);
        lemma_last_id_grows(store, init);
        if store.replaced(init).handles.contains_key(id) {
            lemma_origins(store, init, id);
            if exists|i: int|
                0 <= i < init.len() && store.ids.contains_key((#[trigger] init[i]).handle_id)
                    && store.ids[init[i].handle_id] == id {
                let i = choose|i: int|
                    0 <= i < init.len() && store.ids.contains_key((#[trigger] init[i]).handle_id)
                        && store.ids[init[i].handle_id] == id;
                assert(entries[i] == init[i]);
            }
        } else if store.ids.contains_key(handle) {
            assert(entries[last].handle_id == handle);
        }
    }
}

/// Taking in announcements never lowers the last identifier.
proof fn lemma_last_id_grows(store: StoreModel, entries: Seq<ToplevelSnapshotEntry>)
    ensures
        store.last_id <= store.replaced(entries).last_id,
    decreases entries.len(),
{
    if entries.len() > 0 {
        lemma_last_id_grows(store, entries.drop_last());
    }
}

/// Taking in announcements keeps the store consistent, gives each window that is announced a
/// record in its place, lets every handle that was known keep its identifier, and gives every
/// other handle an identifier that was never given out before. This holds as long as there is an
/// identifier left for each newcomer.
pub proof fn identifiers_are_stable_and_fresh(
    store: StoreModel,
    entries: Seq<ToplevelSnapshotEntry>,
)
    requires
        store.is_consistent(),
        store.last_id + store.newcomers(entries) <= u64::MAX,
    ensures
        ({
            let after = store.replaced(entries);
            &&& after.is_consistent()
            &&& after.last_id == store.last_id + store.newcomers(entries)
            &&& after.windows.len() == entries.len()
            &&& forall|i: int|
                0 <= i < entries.len() ==> {
                    let handle = (#[trigger] entries[i]).handle_id;
                    &&& after.windows[i] == record_of(entries[i], after.windows[i].id, i)
                    &&& after.handles.contains_key(after.windows[i].id)
                    &&& after.handles[after.windows[i].id] == handle
                    &&& after.ids.contains_key(handle)
                    &&& if store.ids.contains_key(handle) {
                        after.windows[i].id == store.ids[handle]
                    } else {
                        after.windows[i].id > store.last_id
                    }
                }
            &&& forall|handle: u64| #[trigger]
                after.ids.contains_key(handle) ==> exists|i: int|
                    0 <= i < entries.len() && (#[trigger] entries[i]).handle_id == handle
        }),
    decreases entries.len(),
{
    if entries.len() > 0 {
        let init = entries.drop_last();
        let before = store.replaced(init);
        let after = store.replaced(entries);
        let last = entries.len() - 1;
        let handle = entries[last].handle_id;
        let id = after.windows[last].id;
        lemma_newcomers(store, entries);
        identifiers_are_stable_and_fresh(store, init);
        let known = store.ids.contains_key(handle);
        assert(id == if known {
            store.ids[handle]
        } else {
            id_after(before.last_id)
        });
        // An identifier that is already in use stands for the same handle.
        assert(before.handles.contains_key(id) ==> before.handles[id] == handle) by {
            if before.handles.contains_key(id) {
                let j = choose|j: int|
                    0 <= j < before.windows.len() && (#[trigger] before.windows[j]).id == id;
                let other = init[j].handle_id;
                assert(before.windows[j] == record_of(init[j], before.windows[j].id, j));
                if known {
                    assert(store.ids.contains_key(other));
                    assert(store.handles[store.ids[other]] == other);
                    assert(store.handles[store.ids[handle]] == handle);
                }
            }
        }
        assert forall|h: u64| #[trigger] after.ids.contains_key(h) implies 0 < after.ids[h]
            <= after.last_id && after.handles.contains_key(after.ids[h])
            && after.handles[after.ids[h]] == h by {
            if h != handle {
                assert(before.ids.contains_key(h));
            }
        }
        assert forall|i: int| 0 <= i < after.windows.len() implies after.handles.contains_key(
            (#[trigger] after.windows[i]).id,
        ) by {
            if i < last {
                assert(after.windows[i] == before.windows[i]);
            }
        }
        assert forall|other: u64| #[trigger] after.handles.contains_key(other) implies 0 < other
            <= after.last_id && exists|i: int|
            0 <= i < after.windows.len() && (#[trigger] after.windows[i]).id == other by {
            if other == id {
                assert(after.windows[last].id == other);
            } else {
                assert(before.handles.contains_key(other));
                let j = choose|j: int|
                    0 <= j < before.windows.len() && (#[trigger] before.windows[j]).id == other;
                assert(after.windows[j] == before.windows[j]);
            }
        }
        assert forall|i: int| 0 <= i < entries.len() implies {
            let h = (#[trigger] entries[i]).handle_id;
            &&& after.windows[i] == record_of(entries[i], after.windows[i].id, i)
            &&& after.handles.contains_key(after.windows[i].id)
            &&& after.handles[after.windows[i].id] == h
            &&& after.ids.contains_key(h)
            &&& if store.ids.contains_key(h) {
                after.windows[i].id == store.ids[h]
            } else {
                after.windows[i].id > store.last_id
            }
        } by {
            if i < last {
                assert(init[i] == entries[i]);
                assert(after.windows[i] == before.windows[i]);
            }
        }
        assert forall|h: u64| #[trigger] after.ids.contains_key(h) implies exists|i: int|
            0 <= i < entries.len() && (#[trigger] entries[i]).handle_id == h by {
            if h == handle {
                assert(entries[last].handle_id == h);
            } else {
                assert(before.ids.contains_key(h));
                let j = choose|j: int| 0 <= j < init.len() && (#[trigger] init[j]).handle_id == h;
                assert(entries[j] == init[j]);
            }
        }
    }
}

/// A new store is consistent.
pub proof fn empty_store_is_consistent()
    ensures
        StoreModel::empty().is_consistent(),
{
}

/// A window that is no longer announced is no longer found, and its identifier is not given to
/// another window. Only the very last identifier there is may be given to a newcomer again.
pub proof fn identifiers_of_gone_windows_are_stale(
    store: StoreModel,
    entries: Seq<ToplevelSnapshotEntry>,
    handle: u64,
)
    requires
        store.is_consistent(),
        store.ids.contains_key(handle),
        store.ids[handle] < u64::MAX || store.newcomers(entries) == 0,
        forall|i: int| 0 <= i < entries.len() ==> (#[trigger] entries[i]).handle_id != handle,
    ensures
        !store.replaced(entries).handles.contains_key(store.ids[handle]),
{
    let id = store.ids[handle];
    if store.replaced(entries).handles.contains_key(id) {
        lemma_origins(store, entries, id);
        let i = choose|i: int|
            0 <= i < entries.len() && store.ids.contains_key((#[trigger] entries[i]).handle_id)
                && store.ids[entries[i].handle_id] == id;
        let other = entries[i].handle_id;
        assert(store.handles[store.ids[other]] == other);
        assert(store.handles[store.ids[handle]] == handle);
    }
}

/// Which of the services that are needed the display offers.
#[derive(Debug, Clone, Copy, PartialEq, Eq, Structural)]
pub struct RegistrySnapshot {
    pub has_wl_seat: bool,
    pub has_foreign_toplevel_manager: bool,
}

impl Default for RegistrySnapshot {
    fn default() -> (result: Self)
        ensures
            !result.has_wl_seat,
            !result.has_foreign_toplevel_manager,
    {
        RegistrySnapshot { has_wl_seat: false, has_foreign_toplevel_manager: false }
    }
}

/// Refuses a display that lacks a service.
pub fn ensure_required_globals(registry: RegistrySnapshot) -> (result: Result<(), WmError>)
    ensures
        match result {
            Ok(_) => registry.has_wl_seat && registry.has_foreign_toplevel_manager,
            Err(error) => error matches WmError::Adapter(text)
                && if !registry.has_foreign_toplevel_manager {
                text@ == "mangowc: missing zwlr_foreign_toplevel_manager_v1"@
            } else {
                !registry.has_wl_seat && text@ == "mangowc: missing wl_seat"@
            },
        },
{
    if !registry.has_foreign_toplevel_manager {
        return Err(
            WmError::Adapter("mangowc: missing zwlr_foreign_toplevel_manager_v1".to_owned()),
        );
    }
    if !registry.has_wl_seat {
        return Err(WmError::Adapter("mangowc: missing wl_seat".to_owned()));
    }
    Ok(())
}

/// The windows that the display has announced so far.
#[derive(Debug)]
pub struct ToplevelRegistry {
    next_handle_id: u64,
    protocol_to_handle_id: HashMap<u32, u64>,
    snapshots: HashMap<u64, ToplevelSnapshotEntry>,
}

/// The windows that the display has announced so far, over plain maps.
#[verifier::ext_equal]
pub struct RegistryModel {
    /// The handle that was given out last.
    pub last_handle: u64,
    /// The handle of each object of the display.
    pub handles: Map<u32, u64>,
    /// What is known about each handle.
    pub entries: Map<u64, ToplevelSnapshotEntry>,
}

impl View for ToplevelRegistry {
    type V = RegistryModel;

    closed spec fn view(&self) -> RegistryModel {
        RegistryModel {
            last_handle: self.next_handle_id,
            handles: self.protocol_to_handle_id@,
            entries: self.snapshots@,
        }
    }
}

/// Something that the display says about a window.
#[derive(Debug, PartialEq, Eq)]
pub enum ToplevelEvent {
    Title(String),
    AppId(String),
    /// Whether the window is activated.
    Activated(bool),
    /// The window is gone.
    Closed,
}

/// A window of which nothing is known yet.
pub open spec fn unknown_window(handle_id: u64) -> ToplevelSnapshotEntry {
    ToplevelSnapshotEntry { handle_id, app_id: None, title: None, pid: None, activated: false }
}

/// Describes a window of which nothing is known yet.
pub fn default_snapshot(handle_id: u64) -> (result: ToplevelSnapshotEntry)
    ensures
        result == unknown_window(handle_id),
{
    ToplevelSnapshotEntry { handle_id, app_id: None, title: None, pid: None, activated: false }
}

impl RegistryModel {
    /// Nothing was announced.
    pub open spec fn empty() -> RegistryModel {
        RegistryModel { last_handle: 0, handles: Map::empty(), entries: Map::empty() }
    }

    /// The handle of an object, after it was registered.
    pub open spec fn handle_of(self, protocol_id: u32) -> u64 {
        if self.handles.contains_key(protocol_id) {
            self.handles[protocol_id]
        } else {
            id_after(self.last_handle)
        }
    }

    /// There is a handle for an object: it has one, or the last one there is was not given out.
    pub open spec fn can_name(self, protocol_id: u32) -> bool {
        self.handles.contains_key(protocol_id) || forall|other: u32| #[trigger]
            self.handles.contains_key(other) ==> self.handles[other] < u64::MAX
    }

    /// What is known after an object was registered.
    pub open spec fn registered(self, protocol_id: u32) -> RegistryModel {
        if self.handles.contains_key(protocol_id) {
            self
        } else {
            RegistryModel {
                last_handle: self.handle_of(protocol_id),
                handles: self.handles.insert(protocol_id, self.handle_of(protocol_id)),
                ..self
            }
        }
    }

    /// What is known about a handle, be it only that.
    pub open spec fn entry(self, handle: u64) -> ToplevelSnapshotEntry {
        if self.entries.contains_key(handle) {
            self.entries[handle]
        } else {
            unknown_window(handle)
        }
    }

    /// What is known after a window was announced.
    pub open spec fn announced(self, protocol_id: u32) -> RegistryModel {
        let handle = self.handle_of(protocol_id);
        RegistryModel {
            entries: self.entries.insert(handle, self.entry(handle)),
            ..self.registered(protocol_id)
        }
    }

    /// What is known after the display said something about a window. What is said about an object
    /// that was never announced, or is gone, is not heard.
    pub open spec fn heard(self, protocol_id: u32, event: ToplevelEvent) -> RegistryModel {
        if !self.handles.contains_key(protocol_id) {
            self
        } else {
            let handle = self.handles[protocol_id];
            match event {
                ToplevelEvent::Title(title) => RegistryModel {
                    entries: self.entries.insert(
                        handle,
                        ToplevelSnapshotEntry { title: Some(title), ..self.entry(handle) },
                    ),
                    ..self
                },
                ToplevelEvent::AppId(app_id) => RegistryModel {
                    entries: self.entries.insert(
                        handle,
                        ToplevelSnapshotEntry { app_id: Some(app_id), ..self.entry(handle) },
                    ),
                    ..self
                },
                ToplevelEvent::Activated(activated) => RegistryModel {
                    entries: self.entries.insert(
                        handle,
                        ToplevelSnapshotEntry { activated, ..self.entry(handle) },
                    ),
                    ..self
                },
                ToplevelEvent::Closed => RegistryModel {
                    handles: self.handles.remove(protocol_id),
                    entries: self.entries.remove(handle),
                    ..self
                },
            }
        }
    }

    /// What is known about a window is filed under its handle.
    pub open spec fn is_filed(self) -> bool {
        forall|handle: u64| #[trigger]
            self.entries.contains_key(handle) ==> self.entries[handle].handle_id == handle
    }

    /// Different objects have different handles, what is known is filed under the right handle, and
    /// no handle is zero or beyond the last one that was given out.
    pub open spec fn is_consistent(self) -> bool {
        &&& self.is_filed()
        &&& forall|protocol_id: u32| #[trigger]
            self.handles.contains_key(protocol_id) ==> 0 < self.handles[protocol_id]
                <= self.last_handle
        &&& forall|handle: u64| #[trigger]
            self.entries.contains_key(handle) ==> 0 < handle <= self.last_handle
        &&& forall|a: u32, b: u32|
            (#[trigger] self.handles.contains_key(a)) && (#[trigger] self.handles.contains_key(b))
                && self.handles[a] == self.handles[b] ==> a == b
    }
}

/// `listing` holds what is known about every window, in the order of the handles.
pub open spec fn is_listing(
    listing: Seq<ToplevelSnapshotEntry>,
    entries: Map<u64, ToplevelSnapshotEntry>,
) -> bool {
    &&& forall|i: int, j: int|
        0 <= i < j < listing.len() ==> (#[trigger] listing[i]).handle_id < (
        #[trigger] listing[j]).handle_id
    &&& forall|i: int|
        0 <= i < listing.len() ==> entries.contains_key((#[trigger] listing[i]).handle_id)
            && entries[listing[i].handle_id] == listing[i]
    &&& forall|handle: u64| #[trigger]
        entries.contains_key(handle) ==> exists|i: int|
            0 <= i < listing.len() && (#[trigger] listing[i]).handle_id == handle
}

impl Default for ToplevelRegistry {
    fn default() -> (result: Self)
        ensures
            result@ == RegistryModel::empty(),
            result@.is_filed(),
    {
        broadcast use vstd::std_specs::hash::group_hash_axioms;

        ToplevelRegistry {
            next_handle_id: 0,
            protocol_to_handle_id: HashMap::new(),
            snapshots: HashMap::new(),
        }
    }
}

impl ToplevelRegistry {
    /// Gives an object of the display a handle, unless it has one.
    pub fn register_protocol_handle(&mut self, protocol_id: u32) -> (result: u64)
        ensures
            result == old(self)@.handle_of(protocol_id),
            final(self)@ == old(self)@.registered(protocol_id),
            old(self)@.is_filed() ==> final(self)@.is_filed(),
    {
        broadcast use vstd::std_specs::hash::group_hash_axioms;

        if let Some(handle_id) = self.protocol_to_handle_id.get(&protocol_id) {
            return *handle_id;
        }
        if self.next_handle_id < u64::MAX {
            self.next_handle_id = self.next_handle_id + 1;
        }
        let handle_id: u64 = self.next_handle_id;
        self.protocol_to_handle_id.insert(protocol_id, handle_id);
        handle_id
    }

    /// Finds the handle of an object.
    pub fn handle_id_for_protocol(&self, protocol_id: u32) -> (result: Option<u64>)
        ensures
            result == if self@.handles.contains_key(protocol_id) {
                Some(self@.handles[protocol_id])
            } else {
                None
            },
    {
        broadcast use vstd::std_specs::hash::group_hash_axioms;

        match self.protocol_to_handle_id.get(&protocol_id) {
            Some(handle_id) => Some(*handle_id),
            None => None,
        }
    }

    /// Takes the handle of an object away.
    pub fn unregister_protocol_handle(&mut self, protocol_id: u32) -> (result: Option<u64>)
        ensures
            result == if old(self)@.handles.contains_key(protocol_id) {
                Some(old(self)@.handles[protocol_id])
            } else {
                None
            },
            final(self)@ == (RegistryModel {
                handles: old(self)@.handles.remove(protocol_id),
                ..old(self)@
            }),
            old(self)@.is_filed() ==> final(self)@.is_filed(),
    {
        broadcast use vstd::std_specs::hash::group_hash_axioms;

        self.protocol_to_handle_id.remove(&protocol_id)
    }

    fn entry(&self, handle_id: u64) -> (result: ToplevelSnapshotEntry)
        ensures
            result == self@.entry(handle_id),
    {
        broadcast use vstd::std_specs::hash::group_hash_axioms;

        match self.snapshots.get(&handle_id) {
            Some(entry) => entry.clone(),
            None => default_snapshot(handle_id),
        }
    }

    /// Takes in that a window was announced, and says under which handle.
    pub fn announce(&mut self, protocol_id: u32) -> (result: u64)
        ensures
            result == old(self)@.handle_of(protocol_id),
            final(self)@ == old(self)@.announced(protocol_id),
            old(self)@.is_filed() ==> final(self)@.is_filed(),
    {
        broadcast use vstd::std_specs::hash::group_hash_axioms;

        let ghost before = self@;
        let handle_id: u64 = self.register_protocol_handle(protocol_id);
        let entry: ToplevelSnapshotEntry = self.entry(handle_id);
        self.snapshots.insert(handle_id, entry);
        assert(self@ =~= before.announced(protocol_id));
        handle_id
    }

    /// Takes in what the display says about a window, and says which handle is gone, if any is.
    pub fn hear(&mut self, protocol_id: u32, event: ToplevelEvent) -> (result: Option<u64>)
        ensures
            final(self)@ == old(self)@.heard(protocol_id, event),
            old(self)@.is_filed() ==> final(self)@.is_filed(),
            result == if event is Closed && old(self)@.handles.contains_key(protocol_id) {
                Some(old(self)@.handles[protocol_id])
            } else {
                None
            },
    {
        broadcast use vstd::std_specs::hash::group_hash_axioms;

        let ghost before = self@;
        let handle_id: u64 = match self.handle_id_for_protocol(protocol_id) {
            Some(handle_id) => handle_id,
            None => {
                return None;
            },
        };
        let mut entry: ToplevelSnapshotEntry = self.entry(handle_id);
        match event {
            ToplevelEvent::Title(title) => {
                entry.title = Some(title);
            },
            ToplevelEvent::AppId(app_id) => {
                entry.app_id = Some(app_id);
            },
            ToplevelEvent::Activated(activated) => {
                entry.activated = activated;
            },
            ToplevelEvent::Closed => {
                let gone: Option<u64> = self.unregister_protocol_handle(protocol_id);
                self.snapshots.remove(&handle_id);
                assert(self@ =~= before.heard(protocol_id, event));
                return gone;
            },
        }
        self.snapshots.insert(handle_id, entry);
        assert(self@ =~= before.heard(protocol_id, event));
        None
    }

    /// Lists what is known about every window, in the order of the handles.
    pub fn snapshot(&self) -> (result: Vec<ToplevelSnapshotEntry>)
        requires
            self@.is_filed(),
        ensures
            is_listing(result@, self@.entries),
    {
        broadcast use vstd::std_specs::hash::group_hash_axioms;

        let mut handles: Vec<u64> = Vec::new();
        for handle in walk: self.snapshots.keys()
            invariant
                walk.seq().unref().to_set() == self@.entries.dom(),
                is_increasing(handles@),
                forall|h: u64| #[trigger] handles@.contains(h) ==> self@.entries.contains_key(h),
                forall|i: int|
                    0 <= i < walk.index() ==> handles@.contains(*#[trigger] walk.seq()[i]),
        {
            insert_in_order(&mut handles, *handle);
            assert(walk.seq().unref()[walk.index() as int] == *handle);
            assert(walk.seq().unref().to_set().contains(*handle));
        }
        assert forall|h: u64| #[trigger] self@.entries.contains_key(h) implies handles@.contains(
            h,
        ) by {}
        let mut result: Vec<ToplevelSnapshotEntry> = Vec::new();
        let mut at: usize = 0;
        while at < handles.len()
            invariant
                at <= handles.len(),
                self@.is_filed(),
                forall|h: u64| #[trigger] handles@.contains(h) ==> self@.entries.contains_key(h),
                result@.len() == at,
                forall|i: int|
                    0 <= i < at ==> (#[trigger] result@[i]).handle_id == handles@[i]
                        && self@.entries.contains_key(handles@[i])
                        && self@.entries[handles@[i]] == result@[i],
            decreases handles.len() - at,
        {
            assert(handles@.contains(handles@[at as int]));
            result.push(self.entry(handles[at]));
            at += 1;
        }
        assert forall|h: u64| #[trigger] self@.entries.contains_key(h) implies exists|i: int|
            0 <= i < result@.len() && (#[trigger] result@[i]).handle_id == h by {
            assert(handles@.contains(h));
            let i = handles@.index_of(h);
            assert(result@[i].handle_id == h);
        }
        result
    }
}

/// Each number is larger than those before it.
pub open spec fn is_increasing(s: Seq<u64>) -> bool {
    forall|i: int, j: int| 0 <= i < j < s.len() ==> #[trigger] s[i] < #[trigger] s[j]
}

fn insert_in_order(handles: &mut Vec<u64>, handle: u64)
    requires
        is_increasing(old(handles)@),
    ensures
        is_increasing(final(handles)@),
        forall|h: u64| #[trigger]
            final(handles)@.contains(h) <==> old(handles)@.contains(h) || h == handle,
{
    let ghost before = handles@;
    let mut at: usize = 0;
    while at < handles.len() && handles[at] < handle
        invariant
            at <= handles.len(),
            handles@ == before,
            forall|i: int| 0 <= i < at ==> #[trigger] before[i] < handle,
        decreases handles.len() - at,
    {
        at += 1;
    }
    if at < handles.len() && handles[at] == handle {
        assert(before.contains(handle));
        return ;
    }
    handles.insert(at, handle);
    assert forall|h: u64| #[trigger] handles@.contains(h) <==> before.contains(h) || h == handle by {
        if before.contains(h) {
            let i = before.index_of(h);
            if i < at {
                assert(handles@[i] == h);
            } else {
                assert(handles@[i + 1] == h);
            }
        }
        if h == handle {
            assert(handles@[at as int] == h);
        }
        if handles@.contains(h) && h != handle {
            let i = handles@.index_of(h);
            if i < at {
                assert(before[i] == h);
            } else {
                assert(before[i - 1] == h);
            }
        }
    }
}

/// A window is activated if one of its states says so. States are numbers of four bytes each, and
/// `mark` is the number that says so, as it lies in memory.
pub open spec fn says_activated(states: Seq<u8>, mark: Seq<u8>) -> bool {
    exists|k: int| 0 <= k && 4 * k + 4 <= states.len() && #[trigger] state_is(states, k, mark)
}

/// The state at place `k` is `mark`.
pub open spec fn state_is(states: Seq<u8>, k: int, mark: Seq<u8>) -> bool {
    states.subrange(4 * k, 4 * k + 4) == mark
}

/// The number of the state that says that a window is activated.
pub const ACTIVATED_STATE: u32 = 2;

/// Tells whether the states of a window say that it is activated. Bytes that are left over at the
/// end say nothing.
pub fn is_activated(states: &[u8], mark: [u8; 4]) -> (result: bool)
    ensures
        result == says_activated(states@, mark@),
{
    let total: usize = states.len();
    let count: usize = total / 4;
    let mut k: usize = 0;
    while k < count
        invariant
            k <= count,
            total == states@.len(),
            count == total / 4,
            forall|i: int| 0 <= i < k ==> !#[trigger] state_is(states@, i, mark@),
        decreases count - k,
    {
        let at: usize = 4 * k;
        if states[at] == mark[0] && states[at + 1] == mark[1] && states[at + 2] == mark[2]
            && states[at + 3] == mark[3] {
            assert(states@.subrange(4 * k as int, 4 * k + 4) =~= mark@);
            assert(state_is(states@, k as int, mark@));
            return true;
        }
        assert(!state_is(states@, k as int, mark@)) by {
            let state = states@.subrange(4 * k as int, 4 * k + 4);
            assert(state[0] == states@[at as int]);
            assert(state[1] == states@[at + 1]);
            assert(state[2] == states@[at + 2]);
            assert(state[3] == states@[at + 3]);
        }
        k += 1;
    }
    false
}

/// A registry is consistent at the start, and stays so whatever the display announces or says, as
/// long as the last handle there is does not have to be given out twice.
pub proof fn registries_stay_consistent(
    registry: RegistryModel,
    protocol_id: u32,
    event: ToplevelEvent,
)
    requires
        registry.is_consistent(),
    ensures
        RegistryModel::empty().is_consistent(),
        registry.can_name(protocol_id) ==> registry.registered(protocol_id).is_consistent()
            && registry.announced(protocol_id).is_consistent(),
        registry.heard(protocol_id, event).is_consistent(),
{
    let registered = registry.registered(protocol_id);
    assert forall|a: u32, b: u32|
        registry.can_name(protocol_id) && (#[trigger] registered.handles.contains_key(a)) && (
        #[trigger] registered.handles.contains_key(b)) && registered.handles[a]
            == registered.handles[b] implies a == b by {
        assert(a != protocol_id ==> registry.handles.contains_key(a));
        assert(b != protocol_id ==> registry.handles.contains_key(b));
    }
    let heard = registry.heard(protocol_id, event);
    assert forall|a: u32, b: u32|
        (#[trigger] heard.handles.contains_key(a)) && (#[trigger] heard.handles.contains_key(b))
            && heard.handles[a] == heard.handles[b] implies a == b by {
        assert(registry.handles.contains_key(a) && registry.handles.contains_key(b));
    }
}

/// An object that the display uses anew after its window was closed gets a handle of its own, so
/// that what was known about the old window is not taken for the new one. Only the very last
/// handle there is may be given out again.
pub proof fn reused_objects_get_fresh_handles(registry: RegistryModel, protocol_id: u32)
    requires
        registry.is_consistent(),
        registry.handles.contains_key(protocol_id),
        registry.handles[protocol_id] < u64::MAX,
    ensures
        ({
            let closed = registry.heard(protocol_id, ToplevelEvent::Closed);
            let again = closed.announced(protocol_id);
            let handle = closed.handle_of(protocol_id);
            &&& handle != registry.handles[protocol_id]
            &&& !closed.entries.contains_key(registry.handles[protocol_id])
            &&& again.handles[protocol_id] == handle
            &&& !registry.entries.contains_key(u64::MAX) ==> again.entries[handle]
                == unknown_window(handle)
        }),
{
}

/// What is said about one window changes nothing that is known about the others.
pub proof fn windows_are_heard_separately(
    registry: RegistryModel,
    protocol_id: u32,
    other: u32,
    event: ToplevelEvent,
)
    requires
        registry.is_consistent(),
        registry.handles.contains_key(other),
        other != protocol_id,
    ensures
        ({
            let heard = registry.heard(protocol_id, event);
            let handle = registry.handles[other];
            &&& heard.handles.contains_key(other)
            &&& heard.handles[other] == handle
            &&& heard.entries.contains_key(handle) == registry.entries.contains_key(handle)
            &&& heard.entry(handle) == registry.entry(handle)
        }),
{
    if registry.handles.contains_key(protocol_id) {
        assert(registry.handles[protocol_id] != registry.handles[other]);
    }
}

proof fn lemma_records(store: StoreModel, entries: Seq<ToplevelSnapshotEntry>, at: int)
    requires
        0 <= at < entries.len(),
    ensures
        store.replaced(entries).windows.len() == entries.len(),
        ({
            let record = store.replaced(entries).windows[at];
            &&& record.app_id == entries[at].app_id
            &&& record.title == entries[at].title
            &&& record.pid == entries[at].pid
            &&& record.is_focused == entries[at].activated
            &&& record.original_tile_index == at as usize
            &&& store.ids.contains_key(entries[at].handle_id) ==> record.id
                == store.ids[entries[at].handle_id]
            &&& !store.ids.contains_key(entries[at].handle_id) && store.last_id
                < u64::MAX ==> record.id > store.last_id
        }),
    decreases entries.len(),
{
    let init = entries.drop_last();
    lemma_last_id_grows(store, init);
    if at < init.len() {
        lemma_records(store, init, at);
        assert(init[at] == entries[at]);
    } else if init.len() > 0 {
        lemma_records(store, init, 0);
    }
}

/// Every window that is announced is recorded in its place with its own application, title, process and
/// state. One that was known keeps its identifier, and any other gets a new one.
pub proof fn announced_windows_are_recorded_as_they_are(
    store: &mut ToplevelStore,
    entries: &[ToplevelSnapshotEntry],
    listed: &[WindowRecord],
    at: int,
)
    requires
        call_ensures(ToplevelStore::replace_snapshot, (store, entries), ()),
        call_ensures(ToplevelStore::windows, (final(store),), listed),
        0 <= at < entries@.len() <= usize::MAX,
    ensures
        listed@.len() == entries@.len(),
        ({
            let (record, entry) = (listed@[at], entries@[at]);
            &&& record.app_id == entry.app_id
            &&& record.title == entry.title
            &&& record.pid == entry.pid
            &&& record.is_focused == entry.activated
            &&& record.original_tile_index == at
            &&& old(store)@.ids.contains_key(entry.handle_id) ==> record.id
                == old(store)@.ids[entry.handle_id]
            &&& !old(store)@.ids.contains_key(entry.handle_id) && old(store)@.last_id
                < u64::MAX ==> record.id > old(store)@.last_id
        }),
{
    lemma_records(old(store)@, entries@, at);
}

/// The focus is on the first window that is activated, and is reported with the fields of its record;
/// where none is activated there is none.
pub proof fn the_first_activated_window_has_the_focus(
    store: ToplevelStore,
    listed: &[WindowRecord],
    result: Result<FocusedWindowRecord, WmError>,
)
    requires
        call_ensures(ToplevelStore::windows, (&store,), listed),
        call_ensures(ToplevelStore::focused_window, (&store,), result),
    ensures
        match result {
            Ok(focused) => exists|at: int|
                #![trigger listed@[at]]
                {
                    &&& 0 <= at < listed@.len()
                    &&& listed@[at].is_focused
                    &&& forall|i: int| 0 <= i < at ==> !(#[trigger] listed@[i]).is_focused
                    &&& focused.id == listed@[at].id
                    &&& focused.app_id == listed@[at].app_id
                    &&& focused.title == listed@[at].title
                    &&& focused.pid == listed@[at].pid
                    &&& focused.original_tile_index == listed@[at].original_tile_index
                },
            Err(error) => (error matches WmError::Adapter(text) && text@
                == "mangowc: no activated foreign toplevel window"@) && forall|i: int|
                0 <= i < listed@.len() ==> !(#[trigger] listed@[i]).is_focused,
        },
{
    let flags = store@.activated();
    select::first_set_finds_the_first(flags);
    assert forall|i: int| 0 <= i < listed@.len() implies flags[i] == (
    #[trigger] listed@[i]).is_focused by {}
    if let Some(at) = select::first_set(flags) {
        assert(listed@[at].is_focused);
    }
}

/// A window is found by the handle that its identifier was given for, and is stale where it has none.
pub proof fn identifiers_lead_to_their_handle(
    store: ToplevelStore,
    id: u64,
    result: Result<u64, WmError>,
    stale: WmError,
    fresh: ToplevelStore,
)
    requires
        call_ensures(ToplevelStore::handle_for_window_id, (&store, id), result),
        call_ensures(stale_error, (id,), stale),
        call_ensures(ToplevelStore::default, (), fresh),
    ensures
        result is Ok <==> store@.handles.contains_key(id),
        result matches Ok(handle) ==> handle == store@.handles[id],
        result matches Err(WmError::Adapter(text)) ==> text@ == "mangowc: stale window id "@
            + text::written(id as nat, 10),
        result is Err ==> result->Err_0 is Adapter,
        stale matches WmError::Adapter(text) && text@ == "mangowc: stale window id "@
            + text::written(id as nat, 10),
        fresh@.windows.len() == 0,
        !fresh@.handles.contains_key(id),
        !fresh@.ids.contains_key(id),
        fresh@.last_id == 0,
{
}

/// A display is refused if it lacks a service, and a missing manager is reported before a missing seat.
pub proof fn displays_need_both_services(
    registry: RegistrySnapshot,
    result: Result<(), WmError>,
    unseen: RegistrySnapshot,
)
    requires
        call_ensures(ensure_required_globals, (registry,), result),
        call_ensures(RegistrySnapshot::default, (), unseen),
    ensures
        result is Ok <==> registry.has_wl_seat && registry.has_foreign_toplevel_manager,
        !registry.has_foreign_toplevel_manager ==> (result matches Err(WmError::Adapter(text))
            && text@ == "mangowc: missing zwlr_foreign_toplevel_manager_v1"@),
        registry.has_foreign_toplevel_manager && !registry.has_wl_seat ==> (result matches Err(
            WmError::Adapter(text),
        ) && text@ == "mangowc: missing wl_seat"@),
        !unseen.has_wl_seat && !unseen.has_foreign_toplevel_manager,
{
}

/// An object that has a handle keeps it, and any other gets the one after the last that was given out;
/// no other object is touched. Taking a handle away touches no other object either.
pub proof fn objects_keep_their_handles(
    registry: &mut ToplevelRegistry,
    protocol_id: u32,
    other: u32,
    handle: u64,
)
    requires
        call_ensures(ToplevelRegistry::register_protocol_handle, (registry, protocol_id), handle),
    ensures
        old(registry)@.handles.contains_key(protocol_id) ==> handle
            == old(registry)@.handles[protocol_id] && final(registry)@ == old(registry)@,
        !old(registry)@.handles.contains_key(protocol_id) && old(registry)@.last_handle
            < u64::MAX ==> handle == old(registry)@.last_handle + 1
            && final(registry)@.last_handle == handle,
        final(registry)@.handles.contains_key(protocol_id),
        final(registry)@.handles[protocol_id] == handle,
        final(registry)@.entries == old(registry)@.entries,
        other != protocol_id ==> final(registry)@.handles.contains_key(other)
            == old(registry)@.handles.contains_key(other) && final(registry)@.handles[other]
            == old(registry)@.handles[other],
{
}

/// A handle is looked up and taken away by its object.
pub proof fn handles_are_taken_away_by_object(
    registry: &mut ToplevelRegistry,
    protocol_id: u32,
    other: u32,
    found: Option<u64>,
    taken: Option<u64>,
)
    requires
        call_ensures(
            ToplevelRegistry::handle_id_for_protocol,
            (old(registry), protocol_id),
            found,
        ),
        call_ensures(ToplevelRegistry::unregister_protocol_handle, (registry, protocol_id), taken),
    ensures
        found is Some <==> old(registry)@.handles.contains_key(protocol_id),
        found matches Some(handle) ==> handle == old(registry)@.handles[protocol_id],
        taken == found,
        !final(registry)@.handles.contains_key(protocol_id),
        other != protocol_id ==> final(registry)@.handles.contains_key(other)
            == old(registry)@.handles.contains_key(other) && final(registry)@.handles[other]
            == old(registry)@.handles[other],
        final(registry)@.entries == old(registry)@.entries,
        final(registry)@.last_handle == old(registry)@.last_handle,
{
}

/// A window that is announced is known under its handle: with all that was known of it, and with nothing
/// but the handle if it is new.
pub proof fn announcements_keep_what_is_known(
    registry: &mut ToplevelRegistry,
    protocol_id: u32,
    handle: u64,
    blank: ToplevelSnapshotEntry,
    other: u64,
)
    requires
        call_ensures(ToplevelRegistry::announce, (registry, protocol_id), handle),
        call_ensures(default_snapshot, (handle,), blank),
    ensures
        blank.handle_id == handle && blank.app_id is None && blank.title is None && blank.pid is None
            && !blank.activated,
        final(registry)@.handles.contains_key(protocol_id),
        final(registry)@.handles[protocol_id] == handle,
        final(registry)@.entries.contains_key(handle),
        final(registry)@.entries[handle] == if old(registry)@.entries.contains_key(handle) {
            old(registry)@.entries[handle]
        } else {
            blank
        },
        old(registry)@.handles.contains_key(protocol_id) ==> handle
            == old(registry)@.handles[protocol_id],
        other != handle ==> final(registry)@.entries.contains_key(other)
            == old(registry)@.entries.contains_key(other) && final(registry)@.entries[other]
            == old(registry)@.entries[other],
{
}

/// What the display says about a window changes that and nothing else that is known of it; a window that
/// is closed is forgotten, and its handle reported. An object without a handle is not heard.
pub proof fn events_change_what_they_speak_of(
    registry: &mut ToplevelRegistry,
    protocol_id: u32,
    event: ToplevelEvent,
    gone: Option<u64>,
)
    requires
        call_ensures(ToplevelRegistry::hear, (registry, protocol_id, event), gone),
    ensures
        !old(registry)@.handles.contains_key(protocol_id) ==> final(registry)@ == old(registry)@
            && gone is None,
        old(registry)@.handles.contains_key(protocol_id) ==> {
            let handle = old(registry)@.handles[protocol_id];
            let known = old(registry)@.entries.contains_key(handle);
            let (before, after) = (
                old(registry)@.entries[handle],
                final(registry)@.entries[handle],
            );
            &&& event is Closed ==> {
                &&& gone == Some(handle)
                &&& !final(registry)@.handles.contains_key(protocol_id)
                &&& !final(registry)@.entries.contains_key(handle)
            }
            &&& !(event is Closed) ==> {
                &&& gone is None
                &&& final(registry)@.handles == old(registry)@.handles
                &&& final(registry)@.entries.contains_key(handle)
                &&& after.handle_id == if known {
                    before.handle_id
                } else {
                    handle
                }
                &&& after.pid == if known {
                    before.pid
                } else {
                    None
                }
                &&& event matches ToplevelEvent::Title(title) ==> after.title == Some(title)
                &&& event matches ToplevelEvent::AppId(app_id) ==> after.app_id == Some(app_id)
                &&& event matches ToplevelEvent::Activated(activated) ==> after.activated
                    == activated
                &&& !(event is Title) ==> after.title == if known {
                    before.title
                } else {
                    None
                }
                &&& !(event is AppId) ==> after.app_id == if known {
                    before.app_id
                } else {
                    None
                }
                &&& !(event is Activated) ==> after.activated == (known && before.activated)
            }
        },
{
}

/// All that is known is listed, once for each handle and in the order of the handles.
pub proof fn what_is_known_is_listed_by_handle(
    registry: ToplevelRegistry,
    result: Vec<ToplevelSnapshotEntry>,
    handle: u64,
    early: int,
    late: int,
)
    requires
        registry@.is_filed(),
        call_ensures(ToplevelRegistry::snapshot, (&registry,), result),
    ensures
        0 <= early < late < result@.len() ==> result@[early].handle_id < result@[late].handle_id,
        0 <= early < result@.len() ==> registry@.entries.contains_key(result@[early].handle_id)
            && registry@.entries[result@[early].handle_id] == result@[early],
        registry@.entries.contains_key(handle) ==> result@.contains(registry@.entries[handle]),
{
    if registry@.entries.contains_key(handle) {
        let i = choose|i: int|
            0 <= i < result@.len() && (#[trigger] result@[i]).handle_id == handle;
        assert(result@[i] == registry@.entries[handle]);
    }
}

/// A window is activated exactly if four bytes in a row, counted in fours from the start, are those of
/// the mark.
pub proof fn states_are_read_four_bytes_at_a_time(states: &[u8], mark: [u8; 4], result: bool)
    requires
        call_ensures(is_activated, (states, mark), result),
    ensures
        ACTIVATED_STATE == 2,
        result <==> exists|k: int|
            #![trigger states@[4 * k]]
            0 <= k && 4 * k + 4 <= states@.len() && states@[4 * k] == mark@[0] && states@[4 * k + 1]
                == mark@[1] && states@[4 * k + 2] == mark@[2] && states@[4 * k + 3] == mark@[3],
{
    assert forall|k: int| 0 <= k && 4 * k + 4 <= states@.len() implies #[trigger] state_is(
        states@,
        k,
        mark@,
    ) == (states@[4 * k] == mark@[0] && states@[4 * k + 1] == mark@[1] && states@[4 * k + 2]
        == mark@[2] && states@[4 * k + 3] == mark@[3]) by {
        let part = states@.subrange(4 * k, 4 * k + 4);
        assert(part[0] == states@[4 * k]);
        assert(part[1] == states@[4 * k + 1]);
        assert(part[2] == states@[4 * k + 2]);
        assert(part[3] == states@[4 * k + 3]);
        if part[0] == mark@[0] && part[1] == mark@[1] && part[2] == mark@[2] && part[3]
            == mark@[3] {
            assert(part =~= mark@);
        }
    }
    if result {
        let k = choose|k: int|
            0 <= k && 4 * k + 4 <= states@.len() && #[trigger] state_is(states@, k, mark@);
        assert(states@[4 * k] == mark@[0]);
    }
    if exists|k: int|
        #![trigger states@[4 * k]]
        0 <= k && 4 * k + 4 <= states@.len() && states@[4 * k] == mark@[0] && states@[4 * k + 1]
            == mark@[1] && states@[4 * k + 2] == mark@[2] && states@[4 * k + 3] == mark@[3] {
        let k = choose|k: int|
            #![trigger states@[4 * k]]
            0 <= k && 4 * k + 4 <= states@.len() && states@[4 * k] == mark@[0] && states@[4 * k + 1]
                == mark@[1] && states@[4 * k + 2] == mark@[2] && states@[4 * k + 3] == mark@[3];
        assert(state_is(states@, k, mark@));
    }
}

} // verus!
