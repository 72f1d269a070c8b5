//! i3, a tiling window manager for X11.
use crate::backend::WmBackend;
use crate::capability::{
    validate_declared_capabilities, CapabilitySupport, DirectionalCapability,
    PrimitiveWindowManagerCapabilities, WindowManagerCapabilities,
    WindowManagerCapabilityDescriptor,
};
use crate::error::WmError;
use crate::process;
use crate::process::ProcessId;
use crate::select;
use crate::session;
use crate::session::{FocusedWindowRecord, ResizeIntent, WindowRecord};
use crate::text;
use crate::topology::Direction;
use vstd::prelude::*;
use vstd::string::*;

verus! {

/// Talks to i3.
#[derive(Debug)]
pub struct I3Adapter;

/// Says how to reach i3.
#[derive(Debug)]
pub struct I3Spec;

impl I3Adapter {
    /// Makes an adapter. The capabilities that it declares are valid, so nothing can go wrong.
    pub fn connect() -> (result: Result<I3Adapter, WmError>)
        ensures
            result is Ok,
    {
        match validate_declared_capabilities::<I3Adapter>() {
            Ok(()) => Ok(I3Adapter),
            Err(error) => Err(error),
        }
    }
}

impl I3Spec {
    /// The backend that is reached.
    pub fn backend(&self) -> (result: WmBackend)
        ensures
            result == WmBackend::I3,
    {
        WmBackend::I3
    }

    /// The name of the adapter.
    pub fn name(&self) -> (result: &'static str)
        ensures
            result@ == I3Adapter::label(),
    {
        I3Adapter::name()
    }
}

impl WindowManagerCapabilityDescriptor for I3Adapter {
    open spec fn label() -> Seq<char> {
        "i3"@
    }

    open spec fn declared() -> WindowManagerCapabilities {
        WindowManagerCapabilities {
            primitives: PrimitiveWindowManagerCapabilities {
                tear_out_right: false,
                move_column: false,
                consume_into_column_and_move: false,
                set_window_width: true,
                set_window_height: true,
            },
            tear_out: DirectionalCapability::all(CapabilitySupport::Unsupported),
            resize: DirectionalCapability::all(CapabilitySupport::Native),
        }
    }

    fn name() -> (result: &'static str) {
        "i3"
    }

    fn capabilities() -> (result: WindowManagerCapabilities) {
        WindowManagerCapabilities {
            primitives: PrimitiveWindowManagerCapabilities {
                tear_out_right: false,
                move_column: false,
                consume_into_column_and_move: false,
                set_window_width: true,
                set_window_height: true,
            },
            tear_out: DirectionalCapability::uniform(CapabilitySupport::Unsupported),
            resize: DirectionalCapability::uniform(CapabilitySupport::Native),
        }
    }
}

/// What X11 says about a window.
#[derive(Debug, PartialEq, Eq)]
pub struct I3WindowProperties {
    pub class: Option<String>,
    pub title: Option<String>,
}

/// A node of the tree in which i3 keeps its windows.
#[derive(Debug, PartialEq, Eq)]
pub struct I3Node {
    pub id: u64,
    pub focused: bool,
    pub app_id: Option<String>,
    pub name: Option<String>,
    pub pid: Option<u32>,
    pub window: Option<u64>,
    pub window_properties: Option<I3WindowProperties>,
    pub nodes: Vec<I3Node>,
    pub floating_nodes: Vec<I3Node>,
}

/// A window of the tree.
#[derive(Debug, PartialEq, Eq)]
pub struct I3WindowData {
    pub id: u64,
    pub app_id: Option<String>,
    pub title: Option<String>,
    pub pid: Option<ProcessId>,
    pub is_focused: bool,
}

/// A window of the tree, over plain text.
pub struct I3WindowModel {
    pub id: u64,
    pub app_id: Option<Seq<char>>,
    pub title: Option<Seq<char>>,
    pub pid: Option<ProcessId>,
    pub is_focused: bool,
}

impl View for I3WindowData {
    type V = I3WindowModel;

    open spec fn view(&self) -> I3WindowModel {
        I3WindowModel {
            id: self.id,
            app_id: text::optional_view(self.app_id),
            title: text::optional_view(self.title),
            pid: self.pid,
            is_focused: self.is_focused,
        }
    }
}

/// The windows that a list stands for.
pub open spec fn models(windows: Seq<I3WindowData>) -> Seq<I3WindowModel> {
    Seq::new(windows.len(), |i: int| windows[i]@)
}

/// A node without children that shows a window.
pub open spec fn is_leaf(node: I3Node) -> bool {
    &&& node.nodes@.len() == 0
    &&& node.floating_nodes@.len() == 0
    &&& node.window is Some || node.app_id is Some || node.window_properties is Some || node.pid
        is Some
}

/// The text that X11 gives, where it does.
pub open spec fn property_class(node: I3Node) -> Option<Seq<char>> {
    match node.window_properties {
        Some(properties) => text::optional_view(properties.class),
        None => None,
    }
}

/// The title that X11 gives, where it does.
pub open spec fn property_title(node: I3Node) -> Option<Seq<char>> {
    match node.window_properties {
        Some(properties) => text::optional_view(properties.title),
        None => None,
    }
}

/// `first`, or `second` where there is no `first`.
pub open spec fn or_else(first: Option<Seq<char>>, second: Option<Seq<char>>) -> Option<Seq<char>> {
    match first {
        Some(_) => first,
        None => second,
    }
}

/// The window that a node shows. The node's own application and name come before what X11 says.
pub open spec fn window_of(node: I3Node) -> I3WindowModel {
    I3WindowModel {
        id: node.id,
        app_id: text::non_blank(or_else(text::optional_view(node.app_id), property_class(node))),
        title: text::non_blank(or_else(text::optional_view(node.name), property_title(node))),
        pid: ProcessId::from_optional_number(node.pid),
        is_focused: node.focused,
    }
}

/// The windows below a node, depth first; tiled children come before floating ones.
pub open spec fn windows_below(node: I3Node) -> Seq<I3WindowModel>
    decreases node,
{
    if is_leaf(node) {
        seq![window_of(node)]
    } else {
        windows_below_all(node.nodes@) + windows_below_all(node.floating_nodes@)
    }
}

/// The windows below each of the nodes in turn.
pub open spec fn windows_below_all(nodes: Seq<I3Node>) -> Seq<I3WindowModel>
    decreases nodes,
{
    if nodes.len() == 0 {
        Seq::empty()
    } else {
        windows_below_all(nodes.drop_last()) + windows_below(nodes.last())
    }
}

/// The first focused window node below a node, depth first.
pub open spec fn focused_below(node: I3Node) -> Option<I3Node>
    decreases node,
{
    if is_leaf(node) && node.focused {
        Some(node)
    } else {
        match focused_below_all(node.nodes@) {
            Some(found) => Some(found),
            None => focused_below_all(node.floating_nodes@),
        }
    }
}

/// The first focused window node below any of the nodes.
pub open spec fn focused_below_all(nodes: Seq<I3Node>) -> Option<I3Node>
    decreases nodes,
{
    if nodes.len() == 0 {
        None
    } else {
        match focused_below_all(nodes.drop_last()) {
            Some(found) => Some(found),
            None => focused_below(nodes.last()),
        }
    }
}

/// Tells whether a node shows a window.
pub fn is_window_leaf(node: &I3Node) -> (result: bool)
    ensures
        result == is_leaf(*node),
{
    let has_children: bool = node.nodes.len() > 0 || node.floating_nodes.len() > 0;
    !has_children && (node.window.is_some() || node.app_id.is_some()
        || node.window_properties.is_some() || node.pid.is_some())
}

impl I3WindowData {
    /// Describes the window that a node shows.
    pub fn from_node(node: &I3Node) -> (result: I3WindowData)
        ensures
            result@ == window_of(*node),
    {
        let class: Option<String> = match &node.window_properties {
            Some(properties) => properties.class.clone(),
            None => None,
        };
        let property_title: Option<String> = match &node.window_properties {
            Some(properties) => properties.title.clone(),
            None => None,
        };
        let app_id: Option<String> = match &node.app_id {
            Some(app_id) => Some(app_id.clone()),
            None => class,
        };
        let title: Option<String> = match &node.name {
            Some(name) => Some(name.clone()),
            None => property_title,
        };
        I3WindowData {
            id: node.id,
            app_id: text::non_blank_of(&app_id),
            title: text::non_blank_of(&title),
            pid: ProcessId::from_optional(node.pid),
            is_focused: node.focused,
        }
    }
}

/// Appends the windows below a node.
pub fn collect_windows(node: &I3Node, out: &mut Vec<I3WindowData>)
    ensures
        models(final(out)@) == models(old(out)@) + windows_below(*node),
    decreases *node,
{
    let ghost before = models(out@);
    if is_window_leaf(node) {
        out.push(I3WindowData::from_node(node));
        assert(models(out@) =~= before + seq![window_of(*node)]);
        return ;
    }
    let mut at: usize = 0;
    assert(node.nodes@.take(0) =~= Seq::empty());
    assert(before + windows_below_all(node.nodes@.take(0)) =~= before);
    while at < node.nodes.len()
        invariant
            at <= node.nodes.len(),
            models(out@) == before + windows_below_all(node.nodes@.take(at as int)),
        decreases node.nodes.len() - at,
    {
        let ghost after = node.nodes@.take(at + 1);
        assert(after.drop_last() =~= node.nodes@.take(at as int));
        collect_windows(&node.nodes[at], out);
        assert(models(out@) =~= before + windows_below_all(after));
        at += 1;
    }
    assert(node.nodes@.take(node.nodes@.len() as int) =~= node.nodes@);
    let ghost tiled = models(out@);
    let mut at: usize = 0;
    assert(node.floating_nodes@.take(0) =~= Seq::empty());
    assert(tiled + windows_below_all(node.floating_nodes@.take(0)) =~= tiled);
    while at < node.floating_nodes.len()
        invariant
            at <= node.floating_nodes.len(),
            models(out@) == tiled + windows_below_all(node.floating_nodes@.take(at as int)),
        decreases node.floating_nodes.len() - at,
    {
        let ghost after = node.floating_nodes@.take(at + 1);
        assert(after.drop_last() =~= node.floating_nodes@.take(at as int));
        collect_windows(&node.floating_nodes[at], out);
        assert(models(out@) =~= tiled + windows_below_all(after));
        at += 1;
    }
    assert(node.floating_nodes@.take(node.floating_nodes@.len() as int) =~= node.floating_nodes@);
    assert(models(out@) =~= before + windows_below(*node));
}

/// Finds the first focused window node below a node.
pub fn focused_leaf<'a>(node: &'a I3Node) -> (result: Option<&'a I3Node>)
    ensures
        match result {
            Some(found) => focused_below(*node) == Some(*found),
            None => focused_below(*node) is None,
        },
    decreases *node,
{
    if is_window_leaf(node) && node.focused {
        return Some(node);
    }
    let mut at: usize = 0;
    while at < node.nodes.len()
        invariant
            at <= node.nodes.len(),
            !(is_leaf(*node) && node.focused),
            focused_below_all(node.nodes@.take(at as int)) is None,
        decreases node.nodes.len() - at,
    {
        let ghost after = node.nodes@.take(at + 1);
        assert(after.drop_last() =~= node.nodes@.take(at as int));
        if let Some(found) = focused_leaf(&node.nodes[at]) {
            proof {
                lemma_focused_prefix(node.nodes@, at + 1);
            }
            return Some(found);
        }
        at += 1;
    }
    assert(node.nodes@.take(node.nodes@.len() as int) =~= node.nodes@);
    let mut at: usize = 0;
    while at < node.floating_nodes.len()
        invariant
            at <= node.floating_nodes.len(),
            !(is_leaf(*node) && node.focused),
            focused_below_all(node.nodes@) is None,
            focused_below_all(node.floating_nodes@.take(at as int)) is None,
        decreases node.floating_nodes.len() - at,
    {
        let ghost after = node.floating_nodes@.take(at + 1);
        assert(after.drop_last() =~= node.floating_nodes@.take(at as int));
        if let Some(found) = focused_leaf(&node.floating_nodes[at]) {
            proof {
                lemma_focused_prefix(node.floating_nodes@, at + 1);
            }
            return Some(found);
        }
        at += 1;
    }
    assert(node.floating_nodes@.take(node.floating_nodes@.len() as int) =~= node.floating_nodes@);
    None
}

proof fn lemma_focused_prefix(nodes: Seq<I3Node>, at: int)
    requires
        0 <= at <= nodes.len(),
        focused_below_all(nodes.take(at)) is Some,
    ensures
        focused_below_all(nodes) == focused_below_all(nodes.take(at)),
    decreases nodes.len(),
{
    if at == nodes.len() {
        assert(nodes.take(at) =~= nodes);
    } else {
        let init = nodes.drop_last();
        assert(init.take(at) =~= nodes.take(at));
        lemma_focused_prefix(init, at);
    }
}

/// The first focused window of a list.
pub open spec fn first_focused(windows: Seq<I3WindowModel>) -> Option<int> {
    select::first_set(Seq::new(windows.len(), |i: int| windows[i].is_focused))
}

/// The window that counts as focused: the first that says so, or else the first one at all.
pub open spec fn focused_window_of(tree: I3Node) -> Option<I3WindowModel> {
    let windows = windows_below(tree);
    match first_focused(windows) {
        Some(at) => Some(windows[at]),
        None => if windows.len() > 0 {
            Some(windows[0])
        } else {
            None
        },
    }
}

proof fn lemma_focused_search(node: I3Node)
    ensures
        focused_below(node) is Some <==> exists|i: int|
            0 <= i < windows_below(node).len() && #[trigger] windows_below(node)[i].is_focused,
        focused_below(node) matches Some(found) ==> exists|i: int|
            first_focused(windows_below(node)) == Some(i) && #[trigger] windows_below(node)[i]
                == window_of(found),
    decreases node, 1nat,
{
    let windows = windows_below(node);
    let flags = Seq::new(windows.len(), |i: int| windows[i].is_focused);
    if is_leaf(node) {
        assert(windows[0] == window_of(node));
        assert(focused_below_all(node.nodes@) is None);
        assert(focused_below_all(node.floating_nodes@) is None);
        if node.focused {
            select::lemma_first_set(flags, 0);
        }
    } else {
        let tiled = windows_below_all(node.nodes@);
        let floating = windows_below_all(node.floating_nodes@);
        lemma_focused_search_all(node.nodes@);
        lemma_focused_search_all(node.floating_nodes@);
        lemma_focused_in_either(tiled, floating);
        assert(windows == tiled + floating);
    }
}

proof fn lemma_focused_search_all(nodes: Seq<I3Node>)
    ensures
        focused_below_all(nodes) is Some <==> exists|i: int|
            0 <= i < windows_below_all(nodes).len() && #[trigger] windows_below_all(
                nodes,
            )[i].is_focused,
        focused_below_all(nodes) matches Some(found) ==> exists|i: int|
            first_focused(windows_below_all(nodes)) == Some(i) && #[trigger] windows_below_all(
                nodes,
            )[i] == window_of(found),
    decreases nodes, 0nat,
{
    if nodes.len() > 0 {
        let init = windows_below_all(nodes.drop_last());
        let last = windows_below(nodes.last());
        lemma_focused_search_all(nodes.drop_last());
        lemma_focused_search(nodes.last());
        lemma_focused_in_either(init, last);
        assert(windows_below_all(nodes) == init + last);
    }
}

/// The first focused window of two lists is in the first list, if that has one.
proof fn lemma_focused_in_either(left: Seq<I3WindowModel>, right: Seq<I3WindowModel>)
    ensures
        (exists|i: int| 0 <= i < (left + right).len() && #[trigger] (left + right)[i].is_focused)
            <==> ((exists|i: int| 0 <= i < left.len() && #[trigger] left[i].is_focused) || (exists|
            i: int,
        | 0 <= i < right.len() && #[trigger] right[i].is_focused)),
        match (first_focused(left), first_focused(right)) {
            (Some(at), _) => first_focused(left + right) == Some(at) && (left + right)[at]
                == left[at],
            (None, Some(at)) => first_focused(left + right) == Some(left.len() + at) && (left
                + right)[left.len() + at] == right[at],
            (None, None) => first_focused(left + right) is None,
        },
{
    let both = left + right;
    let flags = Seq::new(both.len(), |i: int| both[i].is_focused);
    let left_flags = Seq::new(left.len(), |i: int| left[i].is_focused);
    let right_flags = Seq::new(right.len(), |i: int| right[i].is_focused);
    select::first_set_finds_the_first(left_flags);
    select::first_set_finds_the_first(right_flags);
    assert forall|i: int| 0 <= i < left.len() implies #[trigger] left[i] == both[i] by {}
    assert forall|i: int| 0 <= i < right.len() implies #[trigger] right[i] == both[left.len()
        + i] by {}
    match (first_focused(left), first_focused(right)) {
        (Some(at), _) => {
            assert(left_flags[at]);
            assert forall|i: int| 0 <= i < at implies !#[trigger] flags[i] by {
                assert(!left_flags[i]);
            }
            select::lemma_first_set(flags, at);
        },
        (None, Some(at)) => {
            assert(right_flags[at]);
            assert forall|i: int| 0 <= i < left.len() + at implies !#[trigger] flags[i] by {
                if i < left.len() {
                    assert(!left_flags[i]);
                } else {
                    assert(!right_flags[i - left.len()]);
                }
            }
            select::lemma_first_set(flags, left.len() + at);
        },
        (None, None) => {
            assert forall|i: int| 0 <= i < flags.len() implies !#[trigger] flags[i] by {
                if i < left.len() {
                    assert(!left_flags[i]);
                } else {
                    assert(!right_flags[i - left.len()]);
                }
            }
            select::lemma_none_set(flags);
        },
    }
}

/// The search for the focused node agrees with the list of windows: it finds something exactly
/// when some listed window is focused, and then it finds the node of the first such window, which
/// is the window that counts as focused.
pub proof fn focus_search_agrees_with_the_list(tree: I3Node)
    ensures
        focused_below(tree) is Some <==> exists|i: int|
            0 <= i < windows_below(tree).len() && #[trigger] windows_below(tree)[i].is_focused,
        focused_below(tree) matches Some(found) ==> focused_window_of(tree) == Some(
            window_of(found),
        ),
        focused_window_of(tree) is None <==> windows_below(tree).len() == 0,
{
    lemma_focused_search(tree);
    let windows = windows_below(tree);
    let flags = Seq::new(windows.len(), |i: int| windows[i].is_focused);
    select::first_set_finds_the_first(flags);
}

/// Lists the windows of a tree.
pub fn windows_from_tree(tree: &I3Node) -> (result: Vec<I3WindowData>)
    ensures
        models(result@) == windows_below(*tree),
{
    let mut windows: Vec<I3WindowData> = Vec::new();
    collect_windows(tree, &mut windows);
    assert(models(windows@) =~= windows_below(*tree));
    windows
}

impl Clone for I3WindowData {
    fn clone(&self) -> (copy: Self)
        ensures
            copy == *self,
    {
        I3WindowData {
            id: self.id,
            app_id: self.app_id.clone(),
            title: self.title.clone(),
            pid: self.pid,
            is_focused: self.is_focused,
        }
    }
}

/// Picks the focused window of a tree. There is none exactly where the tree shows no window.
pub fn focused_window_data(tree: &I3Node) -> (result: Result<I3WindowData, WmError>)
    ensures
        match result {
            Ok(window) => focused_window_of(*tree) == Some(window@),
            Err(error) => focused_window_of(*tree) is None && (error matches WmError::Adapter(text)
                && text@ == "no focused i3 window found"@),
        },
{
    let windows: Vec<I3WindowData> = windows_from_tree(tree);
    let ghost listed = windows_below(*tree);
    let ghost flags = Seq::new(listed.len(), |i: int| listed[i].is_focused);
    let mut at: usize = 0;
    while at < windows.len()
        invariant
            at <= windows.len(),
            listed == windows_below(*tree),
            models(windows@) == listed,
            flags == Seq::new(listed.len(), |i: int| listed[i].is_focused),
            forall|i: int| 0 <= i < at ==> !#[trigger] flags[i],
        decreases windows.len() - at,
    {
        assert(models(windows@)[at as int] == windows[at as int]@);
        if windows[at].is_focused {
            proof {
                select::lemma_first_set(flags, at as int);
            }
            return Ok(windows[at].clone());
        }
        assert(!flags[at as int]);
        at += 1;
    }
    proof {
        select::lemma_none_set(flags);
        focus_search_agrees_with_the_list(*tree);
    }
    if let Some(node) = focused_leaf(tree) {
        return Ok(I3WindowData::from_node(node));
    }
    if windows.len() > 0 {
        assert(models(windows@)[0] == windows[0]@);
        Ok(windows[0].clone())
    } else {
        Err(WmError::Adapter("no focused i3 window found".to_owned()))
    }
}

/// The record of a window that the tree shows. i3 numbers no tiles: each counts as the first.
pub open spec fn record_of(window: I3WindowModel) -> session::WindowModel {
    session::WindowModel {
        id: window.id,
        app_id: window.app_id,
        title: window.title,
        pid: window.pid,
        is_focused: window.is_focused,
        original_tile_index: 1,
    }
}

/// Records the focused window of a tree.
pub fn focused_window(tree: &I3Node) -> (result: Result<FocusedWindowRecord, WmError>)
    ensures
        match result {
            Ok(record) => focused_window_of(*tree) is Some && record@ == (
            session::FocusedWindowModel {
                id: focused_window_of(*tree)->0.id,
                app_id: focused_window_of(*tree)->0.app_id,
                title: focused_window_of(*tree)->0.title,
                pid: focused_window_of(*tree)->0.pid,
                original_tile_index: 1,
            }),
            Err(error) => focused_window_of(*tree) is None && (error matches WmError::Adapter(text)
                && text@ == "no focused i3 window found"@),
        },
{
    match focused_window_data(tree) {
        Ok(focused) => Ok(
            FocusedWindowRecord {
                id: focused.id,
                app_id: focused.app_id,
                title: focused.title,
                pid: focused.pid,
                original_tile_index: 1,
            },
        ),
        Err(error) => Err(error),
    }
}

/// Records every window of a tree.
pub fn windows(tree: &I3Node) -> (result: Vec<WindowRecord>)
    ensures
        session::window_models(result@) == windows_below(*tree).map_values(
            |window: I3WindowModel| record_of(window),
        ),
{
    let windows: Vec<I3WindowData> = windows_from_tree(tree);
    let mut records: Vec<WindowRecord> = Vec::new();
    let mut at: usize = 0;
    while at < windows.len()
        invariant
            at <= windows.len(),
            models(windows@) == windows_below(*tree),
            records@.len() == at,
            forall|i: int|
                0 <= i < at ==> (#[trigger] records@[i])@ == record_of(windows_below(*tree)[i]),
        decreases windows.len() - at,
    {
        assert(models(windows@)[at as int] == windows[at as int]@);
        let window: I3WindowData = windows[at].clone();
        records.push(
            WindowRecord {
                id: window.id,
                app_id: window.app_id,
                title: window.title,
                pid: window.pid,
                is_focused: window.is_focused,
                original_tile_index: 1,
            },
        );
        at += 1;
    }
    assert(models(windows@).len() == windows@.len());
    assert(session::window_models(records@) =~= windows_below(*tree).map_values(
        |window: I3WindowModel| record_of(window),
    ));
    records
}

/// What i3 calls a direction.
pub open spec fn direction_word(direction: Direction) -> Seq<char> {
    match direction {
        Direction::West => "left"@,
        Direction::East => "right"@,
        Direction::North => "up"@,
        Direction::South => "down"@,
    }
}

/// Says what i3 calls a direction.
pub fn direction_name(direction: Direction) -> (result: &'static str)
    ensures
        result@ == direction_word(direction),
{
    match direction {
        Direction::West => "left",
        Direction::East => "right",
        Direction::North => "up",
        Direction::South => "down",
    }
}

/// The message that asks for the tree.
pub fn tree_message() -> (result: Vec<String>)
    ensures
        text::views(result@) == seq!["-t"@, "get_tree"@],
{
    text::owned_pair("-t", "get_tree")
}

/// The message that focuses the next window towards `direction`.
pub fn focus_message(direction: Direction) -> (result: Vec<String>)
    ensures
        text::views(result@) == seq!["focus"@, direction_word(direction)],
{
    text::owned_pair("focus", direction_name(direction))
}

/// The message that moves the focused window towards `direction`.
pub fn move_message(direction: Direction) -> (result: Vec<String>)
    ensures
        text::views(result@) == seq!["move"@, direction_word(direction)],
{
    text::owned_pair("move", direction_name(direction))
}

/// The message that resizes the focused window. The most negative step has no counterpart.
pub fn resize_message(intent: ResizeIntent) -> (result: Vec<String>)
    requires
        intent.step != i32::MIN,
    ensures
        text::views(result@) == seq![
            "resize"@,
            if intent.kind == session::ResizeKind::Grow { "grow"@ } else { "shrink"@ },
            match intent.direction {
                Direction::West | Direction::East => "width"@,
                Direction::North | Direction::South => "height"@,
            },
            text::written(session::step_size(intent.step) as nat, 10),
            "px"@,
        ],
{
    let change: &'static str = if intent.grow() {
        "grow"
    } else {
        "shrink"
    };
    let axis: &'static str = match intent.direction {
        Direction::West | Direction::East => "width",
        Direction::North | Direction::South => "height",
    };
    let amount: u64 = session::step_size_of(intent.step) as u64;
    let written: String = text::write_number(amount, 10);
    let message: Vec<String> = text::with_piece(
        text::with_piece(
            text::with_piece(text::owned_pair("resize", change), axis),
            written.as_str(),
        ),
        "px",
    );
    assert(text::views(message@) =~= seq![
        "resize"@,
        if intent.kind == session::ResizeKind::Grow { "grow"@ } else { "shrink"@ },
        match intent.direction {
            Direction::West | Direction::East => "width"@,
            Direction::North | Direction::South => "height"@,
        },
        text::written(session::step_size(intent.step) as nat, 10),
        "px"@,
    ]);
    message
}

/// The message that starts a program; its words are separated by spaces.
pub fn spawn_message(command: &Vec<String>) -> (result: Vec<String>)
    ensures
        text::views(result@) == seq![
            "exec"@,
            "--no-startup-id"@,
            text::join(text::views(command@), " "@),
        ],
{
    let joined: String = text::joined(command, " ");
    let message: Vec<String> = text::with_piece(
        text::owned_pair("exec", "--no-startup-id"),
        joined.as_str(),
    );
    assert(text::views(message@) =~= seq![
        "exec"@,
        "--no-startup-id"@,
        text::join(text::views(command@), " "@),
    ]);
    message
}

/// The words that single out the window with the given identifier.
pub open spec fn criteria_text(id: u64) -> Seq<char> {
    "[con_id=\""@ + text::written(id as nat, 10) + "\"]"@
}

fn criteria(id: u64) -> (result: String)
    ensures
        result@ == criteria_text(id),
{
    let mut criteria: String = "[con_id=\"".to_owned();
    criteria.append(text::write_number(id, 10).as_str());
    criteria.append("\"]");
    criteria
}

/// The message that focuses the window with the given identifier.
pub fn focus_window_message(id: u64) -> (result: Vec<String>)
    ensures
        text::views(result@) == seq![criteria_text(id), "focus"@],
{
    text::owned_pair(criteria(id).as_str(), "focus")
}

/// The message that closes the window with the given identifier.
pub fn close_window_message(id: u64) -> (result: Vec<String>)
    ensures
        text::views(result@) == seq![criteria_text(id), "kill"@],
{
    text::owned_pair(criteria(id).as_str(), "kill")
}

/// A node without children that shows a window is that window: it keeps its identifier, focus and
/// process, and is named by its own application and name before what X11 says of it. A node without
/// children that shows nothing is none.
pub proof fn leaves_are_windows(node: I3Node, shown: bool, window: I3WindowData)
    requires
        call_ensures(is_window_leaf, (&node,), shown),
        call_ensures(I3WindowData::from_node, (&node,), window),
    ensures
        shown <==> node.nodes@.len() == 0 && node.floating_nodes@.len() == 0 && (node.window is Some
            || node.app_id is Some || node.window_properties is Some || node.pid is Some),
        window.id == node.id,
        window.is_focused == node.focused,
        window.pid is Some <==> node.pid is Some && node.pid->0 != 0,
        window.pid matches Some(pid) ==> pid.number() == node.pid->0,
        text::optional_view(window.app_id) == if node.app_id is Some {
            text::non_blank(Some(node.app_id->0@))
        } else if node.window_properties is Some {
            text::non_blank(text::optional_view(node.window_properties->0.class))
        } else {
            None
        },
        text::optional_view(window.title) == if node.name is Some {
            text::non_blank(Some(node.name->0@))
        } else if node.window_properties is Some {
            text::non_blank(text::optional_view(node.window_properties->0.title))
        } else {
            None
        },
        window@.id == window.id,
        window@.app_id == text::optional_view(window.app_id),
        window@.title == text::optional_view(window.title),
        window@.pid == window.pid,
        window@.is_focused == window.is_focused,
{
    if let Some(raw) = node.pid {
        process::process_ids_are_their_numbers(raw, raw);
    }
}

proof fn lemma_windows_of_children(nodes: Seq<I3Node>)
    ensures
        windows_below_all(nodes) == nodes.fold_left(
            Seq::empty(),
            |listed: Seq<I3WindowModel>, child: I3Node| listed + windows_below(child),
        ),
    decreases nodes.len(),
{
    if nodes.len() > 0 {
        lemma_windows_of_children(nodes.drop_last());
    }
}

/// The windows of a node that has children are the windows of its children, one child after the
/// other, those that float last. Each is listed as often as its node stands in the tree.
pub proof fn windows_are_listed_child_by_child(tree: I3Node, windows: Vec<I3WindowData>)
    requires
        call_ensures(windows_from_tree, (&tree,), windows),
    ensures
        tree.nodes@.len() > 0 || tree.floating_nodes@.len() > 0 ==> models(windows@)
            == tree.nodes@.fold_left(
            Seq::empty(),
            |listed: Seq<I3WindowModel>, child: I3Node| listed + windows_below(child),
        ) + tree.floating_nodes@.fold_left(
            Seq::empty(),
            |listed: Seq<I3WindowModel>, child: I3Node| listed + windows_below(child),
        ),
        tree.nodes@.len() == 0 && tree.floating_nodes@.len() == 0 ==> if is_leaf(tree) {
            models(windows@) == seq![window_of(tree)]
        } else {
            windows@.len() == 0
        },
        models(windows@) == windows_below(tree),
{
    lemma_windows_of_children(tree.nodes@);
    lemma_windows_of_children(tree.floating_nodes@);
    assert(models(windows@).len() == windows@.len());
    if tree.nodes@.len() == 0 && tree.floating_nodes@.len() == 0 {
        assert(windows_below_all(tree.nodes@) =~= Seq::empty());
        assert(windows_below_all(tree.floating_nodes@) =~= Seq::empty());
    }
}

/// Every window of the tree is recorded in its place with what is known of it. i3 numbers no tiles.
pub proof fn records_carry_what_the_tree_says(
    tree: I3Node,
    listed: Vec<I3WindowData>,
    records: Vec<WindowRecord>,
    at: int,
)
    requires
        call_ensures(windows_from_tree, (&tree,), listed),
        call_ensures(windows, (&tree,), records),
        0 <= at < listed@.len(),
    ensures
        records@.len() == listed@.len(),
        records@[at].id == listed@[at].id,
        text::optional_view(records@[at].app_id) == text::optional_view(listed@[at].app_id),
        text::optional_view(records@[at].title) == text::optional_view(listed@[at].title),
        records@[at].pid == listed@[at].pid,
        records@[at].is_focused == listed@[at].is_focused,
        records@[at].original_tile_index == 1,
{
    let models = models(listed@);
    assert(models[at] == listed@[at]@);
    let recorded = session::window_models(records@);
    assert(recorded.len() == models.len());
    assert(recorded[at] == records@[at]@);
    assert(recorded[at] == record_of(models[at]));
}

/// The focused window is the first window of the tree that has the focus, or the first window at
/// all where none has it; there is none only where the tree shows no window.
pub proof fn the_first_focused_window_is_recorded(
    tree: I3Node,
    records: Vec<WindowRecord>,
    result: Result<FocusedWindowRecord, WmError>,
)
    requires
        call_ensures(windows, (&tree,), records),
        call_ensures(focused_window, (&tree,), result),
    ensures
        result is Err <==> records@.len() == 0,
        result matches Ok(record) ==> exists|at: int|
            #![trigger records@[at]]
            {
                &&& 0 <= at < records@.len()
                &&& record.id == records@[at].id
                &&& text::optional_view(record.app_id) == text::optional_view(records@[at].app_id)
                &&& text::optional_view(record.title) == text::optional_view(records@[at].title)
                &&& record.pid == records@[at].pid
                &&& record.original_tile_index == 1
                &&& if records@[at].is_focused {
                    forall|i: int| 0 <= i < at ==> !(#[trigger] records@[i]).is_focused
                } else {
                    at == 0 && forall|i: int|
                        0 <= i < records@.len() ==> !(#[trigger] records@[i]).is_focused
                }
            },
{
    let windows = windows_below(tree);
    let recorded = session::window_models(records@);
    assert(recorded.len() == windows.len());
    assert forall|i: int| 0 <= i < windows.len() implies (#[trigger] records@[i])@ == record_of(
        windows[i],
    ) by {
        assert(recorded[i] == record_of(windows[i]));
    }
    let flags = Seq::new(windows.len(), |i: int| windows[i].is_focused);
    select::first_set_finds_the_first(flags);
    if let Ok(record) = result {
        let at = match first_focused(windows) {
            Some(at) => at,
            None => 0,
        };
        assert(focused_window_of(tree) == Some(windows[at]));
        assert(records@[at]@ == record_of(windows[at]));
        assert forall|i: int| 0 <= i < windows.len() implies (#[trigger] records@[i]).is_focused
            == flags[i] by {
            assert(records@[i]@ == record_of(windows[i]));
        }
    }
}

/// i3 is told what to do in its own words: which way to focus or to move, how to resize, which
/// window to focus or to close, and what to start. A window is singled out by the digits of its
/// identifier.
pub proof fn messages_say_what_is_wanted(
    direction: Direction,
    word: &'static str,
    id: u64,
    focus: Vec<String>,
    moved: Vec<String>,
    focus_window: Vec<String>,
    close_window: Vec<String>,
    tree: Vec<String>,
)
    requires
        call_ensures(direction_name, (direction,), word),
        call_ensures(focus_message, (direction,), focus),
        call_ensures(move_message, (direction,), moved),
        call_ensures(focus_window_message, (id,), focus_window),
        call_ensures(close_window_message, (id,), close_window),
        call_ensures(tree_message, (), tree),
    ensures
        direction is West ==> word@ == "left"@,
        direction is East ==> word@ == "right"@,
        direction is North ==> word@ == "up"@,
        direction is South ==> word@ == "down"@,
        text::views(focus@) == seq!["focus"@, word@],
        text::views(moved@) == seq!["move"@, word@],
        text::views(focus_window@) == seq![
            "[con_id=\""@ + text::written(id as nat, 10) + "\"]"@,
            "focus"@,
        ],
        text::views(close_window@) == seq![
            "[con_id=\""@ + text::written(id as nat, 10) + "\"]"@,
            "kill"@,
        ],
        text::views(tree@) == seq!["-t"@, "get_tree"@],
{
}

/// A resize names the side of the window that changes, whether it grows, and by how many pixels.
/// Starting a program hands its words on, separated by spaces.
pub proof fn resize_and_spawn_messages_say_what_is_wanted(
    intent: ResizeIntent,
    resize: Vec<String>,
    command: Vec<String>,
    spawn: Vec<String>,
)
    requires
        intent.step != i32::MIN,
        call_ensures(resize_message, (intent,), resize),
        call_ensures(spawn_message, (&command,), spawn),
    ensures
        resize@.len() == 5,
        resize@[0]@ == "resize"@,
        intent.kind is Grow ==> resize@[1]@ == "grow"@,
        intent.kind is Shrink ==> resize@[1]@ == "shrink"@,
        intent.direction is West || intent.direction is East ==> resize@[2]@ == "width"@,
        intent.direction is North || intent.direction is South ==> resize@[2]@ == "height"@,
        intent.step > 0 ==> resize@[3]@ == text::written(intent.step as nat, 10),
        intent.step < 0 ==> resize@[3]@ == text::written((-intent.step) as nat, 10),
        intent.step == 0 ==> resize@[3]@ == text::written(1, 10),
        resize@[4]@ == "px"@,
        spawn@.len() == 3,
        spawn@[0]@ == "exec"@,
        spawn@[1]@ == "--no-startup-id"@,
        spawn@[2]@ == text::join(text::views(command@), " "@),
{
    let words = text::views(resize@);
    assert(words.len() == 5);
    assert(words[0] == resize@[0]@ && words[1] == resize@[1]@ && words[2] == resize@[2]@ && words[3]
        == resize@[3]@ && words[4] == resize@[4]@);
    let started = text::views(spawn@);
    assert(started.len() == 3);
    assert(started[0] == spawn@[0]@ && started[1] == spawn@[1]@ && started[2] == spawn@[2]@);
}

/// i3 goes by its name, resizes in every direction by itself and tears no windows out.
pub proof fn i3_declares_what_it_can_do(
    direction: Direction,
    name: &'static str,
    declared: WindowManagerCapabilities,
)
    requires
        call_ensures(I3Adapter::name, (), name),
        call_ensures(I3Adapter::capabilities, (), declared),
    ensures
        name@ == "i3"@,
        I3Adapter::label() == name@,
        I3Adapter::declared() == declared,
        declared.tear_out.towards(direction) is Unsupported,
        declared.resize.towards(direction) is Native,
        !declared.primitives.tear_out_right,
        !declared.primitives.move_column,
        !declared.primitives.consume_into_column_and_move,
        declared.primitives.set_window_width,
        declared.primitives.set_window_height,
{
}

/// Windows are added behind those that are there, those of the tree in their order; the first focused
/// one is found among them, and without one the first window counts.
pub proof fn windows_are_added_behind_the_others(
    tree: I3Node,
    out: &mut Vec<I3WindowData>,
    listed: Vec<I3WindowData>,
    leaf: Option<&I3Node>,
    shown: I3WindowData,
    focused: Result<I3WindowData, WmError>,
)
    requires
        call_ensures(collect_windows, (&tree, out), ()),
        call_ensures(windows_from_tree, (&tree,), listed),
        call_ensures(focused_leaf, (&tree,), leaf),
        leaf matches Some(leaf) ==> call_ensures(I3WindowData::from_node, (leaf,), shown),
        call_ensures(focused_window_data, (&tree,), focused),
    ensures
        models(final(out)@) == models(old(out)@) + models(listed@),
        leaf matches Some(leaf) ==> leaf.focused && focused is Ok && focused->Ok_0@ == shown@,
        leaf is Some <==> exists|i: int|
            0 <= i < listed@.len() && (#[trigger] listed@[i]).is_focused,
        focused is Ok <==> listed@.len() > 0,
        focused matches Err(error) ==> (error matches WmError::Adapter(text) && text@
            == "no focused i3 window found"@),
        focused matches Ok(window) ==> exists|at: int|
            #![trigger listed@[at]]
            0 <= at < listed@.len() && window@ == listed@[at]@ && if listed@[at].is_focused {
                forall|i: int| 0 <= i < at ==> !(#[trigger] listed@[i]).is_focused
            } else {
                at == 0 && forall|i: int|
                    0 <= i < listed@.len() ==> !(#[trigger] listed@[i]).is_focused
            },
{
    let windows = windows_below(tree);
    focus_search_agrees_with_the_list(tree);
    assert(models(listed@) == windows);
    assert forall|i: int| 0 <= i < listed@.len() implies windows[i] == (#[trigger] listed@[i])@
        && windows[i].is_focused == listed@[i].is_focused by {
        assert(models(listed@)[i] == listed@[i]@);
    }
    lemma_focused_search(tree);
    let flags = Seq::new(windows.len(), |i: int| windows[i].is_focused);
    select::first_set_finds_the_first(flags);
    if leaf is Some {
        let i = choose|i: int| 0 <= i < windows.len() && #[trigger] windows[i].is_focused;
        assert(listed@[i].is_focused);
        assert(flags[i]);
    }
    if exists|i: int| 0 <= i < listed@.len() && (#[trigger] listed@[i]).is_focused {
        let i = choose|i: int| 0 <= i < listed@.len() && (#[trigger] listed@[i]).is_focused;
        assert(windows[i].is_focused);
    }
    if let Ok(window) = focused {
        match select::first_set(flags) {
            Some(at) => {
                assert(listed@[at].is_focused);
                assert forall|i: int| 0 <= i < at implies !(#[trigger] listed@[i]).is_focused by {
                    assert(!flags[i]);
                }
                assert(window@ == listed@[at]@);
            },
            None => {
                assert forall|i: int| 0 <= i < listed@.len() implies !(
                #[trigger] listed@[i]).is_focused by {
                    assert(!flags[i]);
                }
                assert(window@ == listed@[0]@);
            },
        }
    }
}

/// The adapter can always be made, and serves its own backend under its own name.
pub proof fn i3_needs_nothing(
    spec: I3Spec,
    backend: WmBackend,
    name: &'static str,
    result: Result<I3Adapter, WmError>,
)
    requires
        call_ensures(I3Spec::backend, (&spec,), backend),
        call_ensures(I3Spec::name, (&spec,), name),
        call_ensures(I3Adapter::connect, (), result),
    ensures
        backend is I3,
        name@ == "i3"@,
        result is Ok,
{
}

} // verus!
