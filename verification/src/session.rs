//! Sessions with a window manager.
use crate::capability::WindowManagerCapabilities;
use crate::error::WmError;
use crate::process::ProcessId;
use crate::text;
use crate::topology::Direction;
use vstd::prelude::*;

verus! {

/// Whether a window grows or shrinks.
#[derive(Debug, Clone, Copy, PartialEq, Eq, Structural)]
pub enum ResizeKind {
    Grow,
    Shrink,
}

/// A wish to resize a window.
#[derive(Debug, Clone, Copy, PartialEq, Eq, Structural)]
pub struct ResizeIntent {
    pub direction: Direction,
    pub kind: ResizeKind,
    pub step: i32,
}

impl ResizeIntent {
    /// States a wish to resize a window.
    pub fn new(direction: Direction, kind: ResizeKind, step: i32) -> (result: ResizeIntent)
        ensures
            result == (ResizeIntent { direction, kind, step }),
    {
        ResizeIntent { direction, kind, step }
    }

    /// Tells whether the window is to grow.
    pub fn grow(self) -> (result: bool)
        ensures
            result == (self.kind == ResizeKind::Grow),
    {
        match self.kind {
            ResizeKind::Grow => true,
            ResizeKind::Shrink => false,
        }
    }
}

/// The size of a resize step, at least one.
pub open spec fn step_size(step: i32) -> int {
    if step >= 1 {
        step as int
    } else if step == 0 {
        1
    } else {
        -(step as int)
    }
}

/// Computes the size of a resize step. The most negative step has no counterpart.
pub fn step_size_of(step: i32) -> (result: i32)
    requires
        step != i32::MIN,
    ensures
        result == step_size(step),
        result >= 1,
{
    if step >= 1 {
        step
    } else if step == 0 {
        1
    } else {
        -step
    }
}

/// A window as a session reports it.
#[derive(Debug, PartialEq, Eq)]
pub struct WindowRecord {
    pub id: u64,
    pub app_id: Option<String>,
    pub title: Option<String>,
    pub pid: Option<ProcessId>,
    pub is_focused: bool,
    pub original_tile_index: usize,
}

impl Clone for WindowRecord {
    fn clone(&self) -> (copy: Self)
        ensures
            copy == *self,
    {
        WindowRecord {
            id: self.id,
            app_id: self.app_id.clone(),
            title: self.title.clone(),
            pid: self.pid,
            is_focused: self.is_focused,
            original_tile_index: self.original_tile_index,
        }
    }
}

/// A window record, over plain text.
pub struct WindowModel {
    pub id: u64,
    pub app_id: Option<Seq<char>>,
    pub title: Option<Seq<char>>,
    pub pid: Option<ProcessId>,
    pub is_focused: bool,
    pub original_tile_index: usize,
}

impl View for WindowRecord {
    type V = WindowModel;

    open spec fn view(&self) -> WindowModel {
        WindowModel {
            id: self.id,
            app_id: text::optional_view(self.app_id),
            title: text::optional_view(self.title),
            pid: self.pid,
            is_focused: self.is_focused,
            original_tile_index: self.original_tile_index,
        }
    }
}

/// What a list of window records says.
pub open spec fn window_models(windows: Seq<WindowRecord>) -> Seq<WindowModel> {
    Seq::new(windows.len(), |i: int| windows[i]@)
}

/// The focused window as a session reports it.
#[derive(Debug, PartialEq, Eq)]
pub struct FocusedWindowRecord {
    pub id: u64,
    pub app_id: Option<String>,
    pub title: Option<String>,
    pub pid: Option<ProcessId>,
    pub original_tile_index: usize,
}

impl Clone for FocusedWindowRecord {
    fn clone(&self) -> (copy: Self)
        ensures
            copy == *self,
    {
        FocusedWindowRecord {
            id: self.id,
            app_id: self.app_id.clone(),
            title: self.title.clone(),
            pid: self.pid,
            original_tile_index: self.original_tile_index,
        }
    }
}

/// A record of the focused window, over plain text.
pub struct FocusedWindowModel {
    pub id: u64,
    pub app_id: Option<Seq<char>>,
    pub title: Option<Seq<char>>,
    pub pid: Option<ProcessId>,
    pub original_tile_index: usize,
}

impl View for FocusedWindowRecord {
    type V = FocusedWindowModel;

    open spec fn view(&self) -> FocusedWindowModel {
        FocusedWindowModel {
            id: self.id,
            app_id: text::optional_view(self.app_id),
            title: text::optional_view(self.title),
            pid: self.pid,
            original_tile_index: self.original_tile_index,
        }
    }
}

/// A window record, seen as that of the focused window.
pub open spec fn as_focused(window: WindowRecord) -> FocusedWindowRecord {
    FocusedWindowRecord {
        id: window.id,
        app_id: window.app_id,
        title: window.title,
        pid: window.pid,
        original_tile_index: window.original_tile_index,
    }
}

/// Restates a window record as that of the focused window.
pub fn to_focused_record(window: &WindowRecord) -> (result: FocusedWindowRecord)
    ensures
        result == as_focused(*window),
{
    FocusedWindowRecord {
        id: window.id,
        app_id: window.app_id.clone(),
        title: window.title.clone(),
        pid: window.pid,
        original_tile_index: window.original_tile_index,
    }
}

/// Which windows a directional focus moves between.
#[derive(Debug, Clone, Copy, PartialEq, Eq, Structural)]
pub enum FloatingFocusMode {
    /// All windows float, so it moves between floating windows only.
    FloatingOnly,
}

/// One request to a session, with its outcome.
pub enum SessionCall {
    FocusedWindow(Result<FocusedWindowRecord, WmError>),
    Windows(Result<Vec<WindowRecord>, WmError>),
    FocusDirection(Direction, Result<(), WmError>),
    MoveDirection(Direction, Result<(), WmError>),
    ResizeWithIntent(ResizeIntent, Result<(), WmError>),
    Spawn(Seq<Seq<char>>, Result<(), WmError>),
    FocusWindowById(u64, Result<(), WmError>),
    CloseWindowById(u64, Result<(), WmError>),
}

/// A session with a window manager. What a request leads to is up to the window manager; that it
/// was made, with what and with what outcome, is on the session's record. No request changes the
/// name of the adapter or what it declares.
pub trait WindowManagerSession: Send {
    /// The name of the adapter.
    open spec fn label(&self) -> Seq<char> {
        arbitrary()
    }

    /// What the adapter declares that it can do.
    open spec fn declared(&self) -> WindowManagerCapabilities {
        arbitrary()
    }

    /// The requests made so far.
    open spec fn record(&self) -> Seq<SessionCall> {
        arbitrary()
    }

    fn adapter_name(&self) -> (result: &'static str)
        ensures
            result@ == self.label(),
    ;

    fn capabilities(&self) -> (result: WindowManagerCapabilities)
        ensures
            result == self.declared(),
    ;

    fn focused_window(&mut self) -> (result: Result<FocusedWindowRecord, WmError>)
        ensures
            final(self).record() == old(self).record().push(SessionCall::FocusedWindow(result)),
            final(self).label() == old(self).label(),
            final(self).declared() == old(self).declared(),
    ;

    fn windows(&mut self) -> (result: Result<Vec<WindowRecord>, WmError>)
        ensures
            final(self).record() == old(self).record().push(SessionCall::Windows(result)),
            final(self).label() == old(self).label(),
            final(self).declared() == old(self).declared(),
    ;

    fn focus_direction(&mut self, direction: Direction) -> (result: Result<(), WmError>)
        ensures
            final(self).record() == old(self).record().push(
                SessionCall::FocusDirection(direction, result),
            ),
            final(self).label() == old(self).label(),
            final(self).declared() == old(self).declared(),
    ;

    fn move_direction(&mut self, direction: Direction) -> (result: Result<(), WmError>)
        ensures
            final(self).record() == old(self).record().push(
                SessionCall::MoveDirection(direction, result),
            ),
            final(self).label() == old(self).label(),
            final(self).declared() == old(self).declared(),
    ;

    fn resize_with_intent(&mut self, intent: ResizeIntent) -> (result: Result<(), WmError>)
        ensures
            final(self).record() == old(self).record().push(
                SessionCall::ResizeWithIntent(intent, result),
            ),
            final(self).label() == old(self).label(),
            final(self).declared() == old(self).declared(),
    ;

    fn spawn(&mut self, command: Vec<String>) -> (result: Result<(), WmError>)
        ensures
            final(self).record() == old(self).record().push(
                SessionCall::Spawn(text::views(command@), result),
            ),
            final(self).label() == old(self).label(),
            final(self).declared() == old(self).declared(),
    ;

    fn focus_window_by_id(&mut self, id: u64) -> (result: Result<(), WmError>)
        ensures
            final(self).record() == old(self).record().push(
                SessionCall::FocusWindowById(id, result),
            ),
            final(self).label() == old(self).label(),
            final(self).declared() == old(self).declared(),
    ;

    fn close_window_by_id(&mut self, id: u64) -> (result: Result<(), WmError>)
        ensures
            final(self).record() == old(self).record().push(
                SessionCall::CloseWindowById(id, result),
            ),
            final(self).label() == old(self).label(),
            final(self).declared() == old(self).declared(),
    ;
}

/// The identifier of a domain of windows.
#[derive(Debug, Clone, Copy, PartialEq, Eq, Structural)]
pub struct DomainId {
    pub raw: u64,
}

/// A domain of windows whose kind is not known here.
pub trait ErasedDomain: Send {
}

/// Makes domains of windows.
pub trait WindowManagerDomainFactory: Send {
    fn create_domain(&self, domain_id: DomainId) -> Result<Box<dyn ErasedDomain>, WmError>;
}

/// A wish to focus a window of an application, or the next one.
#[derive(Debug, PartialEq, Eq)]
pub struct WindowCycleRequest {
    pub app_id: Option<String>,
    pub title: Option<String>,
    pub spawn: Option<String>,
    pub new: bool,
    pub summon: bool,
}

/// Walks through the windows of an application.
pub trait WindowCycleProvider: Send {
    fn focus_or_cycle(&mut self, request: &WindowCycleRequest) -> Result<(), WmError>;
}

/// Puts tearing out together from primitive operations.
pub trait WindowTearOutComposer: Send {
    fn compose_tear_out(&mut self, direction: Direction, source_tile_index: usize) -> Result<
        (),
        WmError,
    >;
}

/// What a window manager offers beyond a plain session.
pub struct WindowManagerFeatures {
    pub domain_factory: Option<Box<dyn WindowManagerDomainFactory>>,
    pub window_cycle: Option<Box<dyn WindowCycleProvider>>,
    pub tear_out_composer: Option<Box<dyn WindowTearOutComposer>>,
}

impl Default for WindowManagerFeatures {
    fn default() -> (result: Self)
        ensures
            result.domain_factory is None,
            result.window_cycle is None,
            result.tear_out_composer is None,
    {
        WindowManagerFeatures { domain_factory: None, window_cycle: None, tear_out_composer: None }
    }
}

/// Holds a value exactly as it was handed in.
struct Held<T> {
    value: T,
}

/// A window manager that is connected to and ready for use.
pub struct ConfiguredWindowManager {
    core: Held<Box<dyn WindowManagerSession>>,
    features: WindowManagerFeatures,
}

impl ConfiguredWindowManager {
    /// What is offered beyond the session.
    pub closed spec fn offered(&self) -> WindowManagerFeatures {
        self.features
    }

    /// Puts a session and its features together.
    pub fn new(core: Box<dyn WindowManagerSession>, features: WindowManagerFeatures) -> (result:
        ConfiguredWindowManager)
        ensures
            result.label() == core.label(),
            result.declared() == core.declared(),
            result.record() == core.record(),
            result.offered() == features,
    {
        let core = Held { value: core };
        ConfiguredWindowManager { core, features }
    }

    /// Names the adapter.
    pub fn adapter_name(&self) -> (result: &'static str)
        ensures
            result@ == self.label(),
    {
        self.core.value.adapter_name()
    }

    /// Says what the adapter can do.
    pub fn capabilities(&self) -> (result: WindowManagerCapabilities)
        ensures
            result == self.declared(),
    {
        self.core.value.capabilities()
    }

    /// Asks the session for the focused window.
    pub fn focused_window(&mut self) -> (result: Result<FocusedWindowRecord, WmError>)
        ensures
            final(self).record() == old(self).record().push(
                SessionCall::FocusedWindow(result),
            ),
            final(self).label() == old(self).label(),
            final(self).declared() == old(self).declared(),
            final(self).offered() == old(self).offered(),
    {
        self.core.value.focused_window()
    }

    /// Asks the session for all windows.
    pub fn windows(&mut self) -> (result: Result<Vec<WindowRecord>, WmError>)
        ensures
            final(self).record() == old(self).record().push(
                SessionCall::Windows(result),
            ),
            final(self).label() == old(self).label(),
            final(self).declared() == old(self).declared(),
            final(self).offered() == old(self).offered(),
    {
        self.core.value.windows()
    }

    /// Asks the session to move the focus.
    pub fn focus_direction(&mut self, direction: Direction) -> (result: Result<(), WmError>)
        ensures
            final(self).record() == old(self).record().push(
                SessionCall::FocusDirection(direction, result),
            ),
            final(self).label() == old(self).label(),
            final(self).declared() == old(self).declared(),
            final(self).offered() == old(self).offered(),
    {
        self.core.value.focus_direction(direction)
    }

    /// Asks the session to move the focused window.
    pub fn move_direction(&mut self, direction: Direction) -> (result: Result<(), WmError>)
        ensures
            final(self).record() == old(self).record().push(
                SessionCall::MoveDirection(direction, result),
            ),
            final(self).label() == old(self).label(),
            final(self).declared() == old(self).declared(),
            final(self).offered() == old(self).offered(),
    {
        self.core.value.move_direction(direction)
    }

    /// Asks the session to resize the focused window.
    pub fn resize_with_intent(&mut self, intent: ResizeIntent) -> (result: Result<(), WmError>)
        ensures
            final(self).record() == old(self).record().push(
                SessionCall::ResizeWithIntent(intent, result),
            ),
            final(self).label() == old(self).label(),
            final(self).declared() == old(self).declared(),
            final(self).offered() == old(self).offered(),
    {
        self.core.value.resize_with_intent(intent)
    }

    /// Asks the session to start a program.
    pub fn spawn(&mut self, command: Vec<String>) -> (result: Result<(), WmError>)
        ensures
            final(self).record() == old(self).record().push(
                SessionCall::Spawn(text::views(command@), result),
            ),
            final(self).label() == old(self).label(),
            final(self).declared() == old(self).declared(),
            final(self).offered() == old(self).offered(),
    {
        self.core.value.spawn(command)
    }

    /// Asks the session to focus a window.
    pub fn focus_window_by_id(&mut self, id: u64) -> (result: Result<(), WmError>)
        ensures
            final(self).record() == old(self).record().push(
                SessionCall::FocusWindowById(id, result),
            ),
            final(self).label() == old(self).label(),
            final(self).declared() == old(self).declared(),
            final(self).offered() == old(self).offered(),
    {
        self.core.value.focus_window_by_id(id)
    }

    /// Asks the session to close a window.
    pub fn close_window_by_id(&mut self, id: u64) -> (result: Result<(), WmError>)
        ensures
            final(self).record() == old(self).record().push(
                SessionCall::CloseWindowById(id, result),
            ),
            final(self).label() == old(self).label(),
            final(self).declared() == old(self).declared(),
            final(self).offered() == old(self).offered(),
    {
        self.core.value.close_window_by_id(id)
    }

    /// The maker of domains, where there is one.
    pub fn domain_factory(&self) -> (result: Option<&Box<dyn WindowManagerDomainFactory>>)
        ensures
            match (result, self.offered().domain_factory) {
                (Some(factory), Some(held)) => *factory == held,
                (None, None) => true,
                _ => false,
            },
    {
        self.features.domain_factory.as_ref()
    }

    /// The window cycler, where there is one.
    pub fn window_cycle(&self) -> (result: Option<&Box<dyn WindowCycleProvider>>)
        ensures
            match (result, self.offered().window_cycle) {
                (Some(provider), Some(held)) => *provider == held,
                (None, None) => true,
                _ => false,
            },
    {
        self.features.window_cycle.as_ref()
    }

    /// The window cycler, for use, where there is one.
    pub fn window_cycle_mut(&mut self) -> (result: Option<&mut Box<dyn WindowCycleProvider>>)
        ensures
            match (result, old(self).offered().window_cycle) {
                (Some(provider), Some(held)) => *provider == held
                    && final(self).offered().window_cycle == Some(*final(provider)),
                (None, None) => final(self).offered().window_cycle is None,
                _ => false,
            },
            final(self).record() == old(self).record(),
            final(self).label() == old(self).label(),
            final(self).declared() == old(self).declared(),
            final(self).offered().domain_factory == old(self).offered().domain_factory,
            final(self).offered().tear_out_composer == old(self).offered().tear_out_composer,
    {
        self.features.window_cycle.as_mut()
    }

    /// The composer of tear-outs, where there is one.
    pub fn tear_out_composer(&self) -> (result: Option<&Box<dyn WindowTearOutComposer>>)
        ensures
            match (result, self.offered().tear_out_composer) {
                (Some(composer), Some(held)) => *composer == held,
                (None, None) => true,
                _ => false,
            },
    {
        self.features.tear_out_composer.as_ref()
    }

    /// The composer of tear-outs, for use, where there is one.
    pub fn tear_out_composer_mut(&mut self) -> (result: Option<&mut Box<dyn WindowTearOutComposer>>)
        ensures
            match (result, old(self).offered().tear_out_composer) {
                (Some(composer), Some(held)) => *composer == held
                    && final(self).offered().tear_out_composer == Some(*final(composer)),
                (None, None) => final(self).offered().tear_out_composer is None,
                _ => false,
            },
            final(self).record() == old(self).record(),
            final(self).label() == old(self).label(),
            final(self).declared() == old(self).declared(),
            final(self).offered().domain_factory == old(self).offered().domain_factory,
            final(self).offered().window_cycle == old(self).offered().window_cycle,
    {
        self.features.tear_out_composer.as_mut()
    }
}

/// A configured window manager is itself a session: it passes every request on.
impl WindowManagerSession for ConfiguredWindowManager {
    closed spec fn label(&self) -> Seq<char> {
        self.core.value.label()
    }

    closed spec fn declared(&self) -> WindowManagerCapabilities {
        self.core.value.declared()
    }

    closed spec fn record(&self) -> Seq<SessionCall> {
        self.core.value.record()
    }

    fn adapter_name(&self) -> (result: &'static str) {
        self.core.value.adapter_name()
    }

    fn capabilities(&self) -> (result: WindowManagerCapabilities) {
        self.core.value.capabilities()
    }

    fn focused_window(&mut self) -> (result: Result<FocusedWindowRecord, WmError>) {
        self.core.value.focused_window()
    }

    fn windows(&mut self) -> (result: Result<Vec<WindowRecord>, WmError>) {
        self.core.value.windows()
    }

    fn focus_direction(&mut self, direction: Direction) -> (result: Result<(), WmError>) {
        self.core.value.focus_direction(direction)
    }

    fn move_direction(&mut self, direction: Direction) -> (result: Result<(), WmError>) {
        self.core.value.move_direction(direction)
    }

    fn resize_with_intent(&mut self, intent: ResizeIntent) -> (result: Result<(), WmError>) {
        self.core.value.resize_with_intent(intent)
    }

    fn spawn(&mut self, command: Vec<String>) -> (result: Result<(), WmError>) {
        self.core.value.spawn(command)
    }

    fn focus_window_by_id(&mut self, id: u64) -> (result: Result<(), WmError>) {
        self.core.value.focus_window_by_id(id)
    }

    fn close_window_by_id(&mut self, id: u64) -> (result: Result<(), WmError>) {
        self.core.value.close_window_by_id(id)
    }
}

/// A step is as large as its number says, whatever its sign, and never less than one.
pub proof fn steps_are_as_large_as_they_say(step: i32, size: i32)
    requires
        step != i32::MIN,
        call_ensures(step_size_of, (step,), size),
    ensures
        size >= 1,
        step > 0 ==> size == step,
        step < 0 ==> size + step == 0,
        step == 0 ==> size == 1,
        size == step_size(step),
{
}

/// The record of the focused window says what the record of the window says.
pub proof fn focused_records_keep_what_is_recorded(
    window: WindowRecord,
    record: FocusedWindowRecord,
)
    requires
        call_ensures(to_focused_record, (&window,), record),
    ensures
        record.id == window.id,
        record.app_id == window.app_id,
        record.title == window.title,
        record.pid == window.pid,
        record.original_tile_index == window.original_tile_index,
        record == as_focused(window),
{
}

/// What a record says is what its fields hold.
pub proof fn views_say_what_records_hold(window: WindowRecord, focused: FocusedWindowRecord)
    ensures
        window@.id == window.id,
        window@.app_id == text::optional_view(window.app_id),
        window@.title == text::optional_view(window.title),
        window@.pid == window.pid,
        window@.is_focused == window.is_focused,
        window@.original_tile_index == window.original_tile_index,
        focused@.id == focused.id,
        focused@.app_id == text::optional_view(focused.app_id),
        focused@.title == text::optional_view(focused.title),
        focused@.pid == focused.pid,
        focused@.original_tile_index == focused.original_tile_index,
{
}

/// A wish to resize holds what was wished for.
pub proof fn intents_hold_what_was_wished(
    direction: Direction,
    kind: ResizeKind,
    step: i32,
    intent: ResizeIntent,
    grows: bool,
)
    requires
        call_ensures(ResizeIntent::new, (direction, kind, step), intent),
        call_ensures(ResizeIntent::grow, (intent,), grows),
    ensures
        intent.direction == direction && intent.kind == kind && intent.step == step,
        grows <==> kind is Grow,
{
}

/// A configured window manager goes by the name of its session and declares what that can do; no
/// feature is offered by default.
pub proof fn window_managers_go_by_their_session(
    manager: ConfiguredWindowManager,
    name: &'static str,
    declared: WindowManagerCapabilities,
    none: WindowManagerFeatures,
)
    requires
        call_ensures(ConfiguredWindowManager::adapter_name, (&manager,), name),
        call_ensures(ConfiguredWindowManager::capabilities, (&manager,), declared),
        call_ensures(WindowManagerFeatures::default, (), none),
    ensures
        name@ == manager.label(),
        declared == manager.declared(),
        none.domain_factory is None && none.window_cycle is None && none.tear_out_composer is None,
{
}

/// Every question is put to the session once, and its answer handed on; nothing else changes.
pub proof fn questions_are_put_to_the_session(
    asking: &mut ConfiguredWindowManager,
    listing: &mut ConfiguredWindowManager,
    focused: Result<FocusedWindowRecord, WmError>,
    windows: Result<Vec<WindowRecord>, WmError>,
)
    requires
        call_ensures(ConfiguredWindowManager::focused_window, (asking,), focused),
        call_ensures(ConfiguredWindowManager::windows, (listing,), windows),
    ensures
        final(asking).record() == old(asking).record().push(SessionCall::FocusedWindow(focused)),
        final(listing).record() == old(listing).record().push(SessionCall::Windows(windows)),
        final(asking).offered() == old(asking).offered(),
        final(listing).offered() == old(listing).offered(),
        final(asking).label() == old(asking).label(),
        final(listing).label() == old(listing).label(),
{
}

/// Every request is passed on to the session once, with what was asked for, and its outcome handed on.
pub proof fn requests_are_passed_on_as_they_are(
    focusing: &mut ConfiguredWindowManager,
    moving: &mut ConfiguredWindowManager,
    resizing: &mut ConfiguredWindowManager,
    spawning: &mut ConfiguredWindowManager,
    choosing: &mut ConfiguredWindowManager,
    closing: &mut ConfiguredWindowManager,
    direction: Direction,
    intent: ResizeIntent,
    command: Vec<String>,
    id: u64,
    focused: Result<(), WmError>,
    moved: Result<(), WmError>,
    resized: Result<(), WmError>,
    spawned: Result<(), WmError>,
    chosen: Result<(), WmError>,
    closed: Result<(), WmError>,
)
    requires
        call_ensures(ConfiguredWindowManager::focus_direction, (focusing, direction), focused),
        call_ensures(ConfiguredWindowManager::move_direction, (moving, direction), moved),
        call_ensures(ConfiguredWindowManager::resize_with_intent, (resizing, intent), resized),
        call_ensures(ConfiguredWindowManager::spawn, (spawning, command), spawned),
        call_ensures(ConfiguredWindowManager::focus_window_by_id, (choosing, id), chosen),
        call_ensures(ConfiguredWindowManager::close_window_by_id, (closing, id), closed),
    ensures
        final(focusing).record() == old(focusing).record().push(
            SessionCall::FocusDirection(direction, focused),
        ),
        final(moving).record() == old(moving).record().push(
            SessionCall::MoveDirection(direction, moved),
        ),
        final(resizing).record() == old(resizing).record().push(
            SessionCall::ResizeWithIntent(intent, resized),
        ),
        final(spawning).record() == old(spawning).record().push(
            SessionCall::Spawn(text::views(command@), spawned),
        ),
        final(choosing).record() == old(choosing).record().push(
            SessionCall::FocusWindowById(id, chosen),
        ),
        final(closing).record() == old(closing).record().push(
            SessionCall::CloseWindowById(id, closed),
        ),
        final(focusing).offered() == old(focusing).offered(),
        final(moving).offered() == old(moving).offered(),
        final(resizing).offered() == old(resizing).offered(),
        final(spawning).offered() == old(spawning).offered(),
        final(choosing).offered() == old(choosing).offered(),
        final(closing).offered() == old(closing).offered(),
{
}

/// Each feature is handed out as it was handed in, and only where there is one.
pub proof fn features_are_handed_out_as_they_are(
    manager: ConfiguredWindowManager,
    factory: Option<&Box<dyn WindowManagerDomainFactory>>,
    cycle: Option<&Box<dyn WindowCycleProvider>>,
    composer: Option<&Box<dyn WindowTearOutComposer>>,
)
    requires
        call_ensures(ConfiguredWindowManager::domain_factory, (&manager,), factory),
        call_ensures(ConfiguredWindowManager::window_cycle, (&manager,), cycle),
        call_ensures(ConfiguredWindowManager::tear_out_composer, (&manager,), composer),
    ensures
        factory is Some <==> manager.offered().domain_factory is Some,
        factory matches Some(found) ==> manager.offered().domain_factory == Some(*found),
        cycle is Some <==> manager.offered().window_cycle is Some,
        cycle matches Some(found) ==> manager.offered().window_cycle == Some(*found),
        composer is Some <==> manager.offered().tear_out_composer is Some,
        composer matches Some(found) ==> manager.offered().tear_out_composer == Some(*found),
{
}

/// What is done with a feature that is handed out for use is done to the feature that is offered, and to
/// no other; no request is made on the way.
pub proof fn features_are_used_where_they_are(
    cycling: &mut ConfiguredWindowManager,
    composing: &mut ConfiguredWindowManager,
    cycle: Option<&mut Box<dyn WindowCycleProvider>>,
    composer: Option<&mut Box<dyn WindowTearOutComposer>>,
)
    requires
        call_ensures(ConfiguredWindowManager::window_cycle_mut, (cycling,), cycle),
        call_ensures(ConfiguredWindowManager::tear_out_composer_mut, (composing,), composer),
    ensures
        cycle is Some <==> old(cycling).offered().window_cycle is Some,
        cycle matches Some(found) ==> old(cycling).offered().window_cycle == Some(*found)
            && final(cycling).offered().window_cycle == Some(*final(found)),
        composer is Some <==> old(composing).offered().tear_out_composer is Some,
        composer matches Some(found) ==> old(composing).offered().tear_out_composer == Some(*found)
            && final(composing).offered().tear_out_composer == Some(*final(found)),
        final(cycling).record() == old(cycling).record(),
        final(composing).record() == old(composing).record(),
        final(cycling).offered().domain_factory == old(cycling).offered().domain_factory,
        final(composing).offered().domain_factory == old(composing).offered().domain_factory,
        final(cycling).offered().tear_out_composer == old(cycling).offered().tear_out_composer,
        final(composing).offered().window_cycle == old(composing).offered().window_cycle,
{
}

} // verus!
