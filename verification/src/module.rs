//! The callback adapter's decision layer.
//!
//! The host drives a registered module through a fixed table of callback
//! entries, handing each raw argument encodings: a render-mode integer, a
//! key code, object handles to resolve.  Every entry's decision — what
//! typed event to dispatch to the user's callback implementation, or that
//! the arguments violate the interface and the process must abort — is
//! taken here, on plain values.  A [`HostEvent`] is one raw invocation as
//! received, [`decode_event`] translates it, and [`AdapterState`] follows
//! the one registration through its life: registered by the host's
//! registration call, destroyed by the destroy entry, after which the
//! host calls no entry again.
//!
//! The numeric step and time-warp payloads of the stepping callbacks ride
//! beside these decisions unchanged; nothing here reads them.

use vstd::prelude::*;

use crate::error::FatalError;
use crate::vessel::{Vessel, VesselQuery};

verus! {

/// The graphics mode the host reports when a simulation session starts.
#[derive(Clone, Copy, PartialEq, Eq, Structural, Debug)]
pub enum RenderMode {
    /// No graphics support.
    NoGraphics,
    /// Fullscreen mode.
    Fullscreen,
    /// Window mode.
    Window,
}

/// What decoding a raw render-mode value yields: the three defined
/// encodings map to their variant, anything else is an interface
/// violation carrying the offending value.
pub open spec fn spec_render_mode(value: i32) -> Result<RenderMode, FatalError> {
    if value == 0 {
        Ok(RenderMode::NoGraphics)
    } else if value == 1 {
        Ok(RenderMode::Fullscreen)
    } else if value == 2 {
        Ok(RenderMode::Window)
    } else {
        Err(FatalError::UnknownRenderMode(value))
    }
}

impl RenderMode {
    /// Decodes the raw render-mode value of a simulation start.
    pub fn from(value: i32) -> (r: Result<RenderMode, FatalError>)
        ensures
            r == spec_render_mode(value),
    {
        if value == 0 {
            Ok(RenderMode::NoGraphics)
        } else if value == 1 {
            Ok(RenderMode::Fullscreen)
        } else if value == 2 {
            Ok(RenderMode::Window)
        } else {
            Err(FatalError::UnknownRenderMode(value))
        }
    }
}

/// A key of the host's key table, identified by its scan code.
#[derive(Clone, Copy, PartialEq, Eq, Structural, Debug)]
pub struct Key {
    /// The key's scan code.
    pub code: u8,
}

/// What decoding a raw buffered-key value yields: a code that fits the
/// key table maps to its key, anything wider is an interface violation.
pub open spec fn spec_key(code: u32) -> Result<Key, FatalError> {
    if code < 256 {
        Ok(Key { code: code as u8 })
    } else {
        Err(FatalError::KeyOutOfRange(code))
    }
}

impl Key {
    /// Decodes the raw key code of a buffered key event.
    pub fn from_code(code: u32) -> (r: Result<Key, FatalError>)
        ensures
            r == spec_key(code),
    {
        if code < 256 {
            Ok(Key { code: code as u8 })
        } else {
            Err(FatalError::KeyOutOfRange(code))
        }
    }
}

/// The number of entries in the host's immediate key-state buffer, one
/// per scan code.
pub const KEY_STATE_LEN: usize = 256;

/// The host's immediate keyboard state: one entry per scan code, the
/// high bit of an entry set while its key is held down.
#[derive(PartialEq, Debug)]
pub struct KeyStates {
    states: Vec<u8>,
}

impl View for KeyStates {
    type V = Seq<u8>;

    closed spec fn view(&self) -> Seq<u8> {
        self.states@
    }
}

/// Whether a key is reported as held down in a key-state buffer.
pub open spec fn spec_key_down(states: Seq<u8>, key: Key) -> bool {
    states[key.code as int] & 0x80 != 0
}

impl KeyStates {
    /// A well-formed buffer holds exactly one entry per scan code.
    pub open spec fn well_formed(&self) -> bool {
        self@.len() == KEY_STATE_LEN
    }

    /// Wraps the key-state bytes the host handed a keyboard callback.
    pub fn from_bytes(states: Vec<u8>) -> (r: KeyStates)
        requires
            states@.len() == KEY_STATE_LEN,
        ensures
            r@ == states@,
            r.well_formed(),
    {
        KeyStates { states }
    }

    /// The buffer's bytes, for writing consumed state back to the host.
    pub fn into_bytes(self) -> (r: Vec<u8>)
        ensures
            r@ == self@,
    {
        self.states
    }

    /// Whether `key` is held down in this buffer.
    pub fn pressed(&self, key: Key) -> (r: bool)
        requires
            self.well_formed(),
        ensures
            r == spec_key_down(self@, key),
    {
        self.states[key.code as usize] & 0x80 != 0
    }
}

/// A mouse event as the host hands it to the mouse callback: the event
/// kind, the button and modifier state, and the cursor position.
#[derive(Clone, Copy, PartialEq, Eq, Structural, Debug)]
pub struct MouseEvent {
    /// The host's event kind code.
    pub event: u32,
    /// The host's button and modifier state word.
    pub state: u32,
    /// Cursor x position in viewport pixels.
    pub x: u32,
    /// Cursor y position in viewport pixels.
    pub y: u32,
}

impl MouseEvent {
    /// Bundles the raw words of a mouse callback into one event.
    pub fn from(event: u32, state: u32, x: u32, y: u32) -> (r: MouseEvent)
        ensures
            r == (MouseEvent { event, state, x, y }),
    {
        MouseEvent { event, state, x, y }
    }
}

/// One raw invocation of a callback-table entry, as the host made it:
/// the entry, with its arguments as plain values.  Handles that name
/// vessels arrive together with the host's resolution of them.
#[derive(PartialEq, Debug)]
pub enum HostEvent {
    /// A simulation session starts; carries the raw render-mode value.
    SimulationStart { render_mode: i32 },
    /// The simulation session ends.
    SimulationEnd,
    /// A physics step is about to be taken.
    PreStep,
    /// A physics step has been taken.
    PostStep,
    /// The simulation time jumped discontinuously.
    TimeJump,
    /// The input focus moved to another vessel; both the gaining and the
    /// losing handle arrive resolved.
    FocusChanged { new_focus: VesselQuery, old_focus: VesselQuery },
    /// The time acceleration factor changed.
    TimeAccChanged,
    /// A vessel was created; its handle arrives resolved.
    NewVessel { vessel: VesselQuery },
    /// A vessel is about to be deleted; its handle arrives resolved.
    DeleteVessel { vessel: VesselQuery },
    /// A vessel's state was set discontinuously; its handle arrives
    /// resolved.
    VesselJump { vessel: VesselQuery },
    /// The pause state toggled.
    Pause { pause: bool },
    /// A mouse event; carries the host's raw words.
    Mouse { event: u32, state: u32, x: u32, y: u32 },
    /// The per-frame immediate keyboard state.
    KeyboardImmediate { key_states: KeyStates, sim_running: bool },
    /// A buffered key press; carries the raw key code.
    KeyboardBuffered { key: u32, key_states: KeyStates, sim_running: bool },
    /// The host tears the registration down.
    Destroy,
}

/// One decoded callback event, ready to dispatch to the matching hook of
/// the user's callback implementation.
#[derive(PartialEq, Debug)]
pub enum ModuleEvent {
    /// Dispatches to the simulation-start hook with the decoded mode.
    SimulationStart(RenderMode),
    /// Dispatches to the simulation-end hook.
    SimulationEnd,
    /// Dispatches to the pre-step hook.
    PreStep,
    /// Dispatches to the post-step hook.
    PostStep,
    /// Dispatches to the time-jump hook.
    TimeJump,
    /// Dispatches to the focus-changed hook.  The gaining handle must
    /// have resolved; the losing one may not have (no vessel held the
    /// focus before).
    FocusChanged { new_focus: Vessel, old_focus: Option<Vessel> },
    /// Dispatches to the time-acceleration hook.
    TimeAccChanged,
    /// Dispatches to the vessel-created hook.
    NewVessel(Vessel),
    /// Dispatches to the vessel-deleted hook.
    DeleteVessel(Vessel),
    /// Dispatches to the vessel-jump hook.
    VesselJump(Vessel),
    /// Dispatches to the pause hook.
    Pause(bool),
    /// Dispatches to the mouse hook.
    Mouse(MouseEvent),
    /// Dispatches to the immediate keyboard hook.
    KeyboardImmediate { key_states: KeyStates, sim_running: bool },
    /// Dispatches to the buffered keyboard hook.
    KeyboardBuffered { key: Key, key_states: KeyStates, sim_running: bool },
    /// The registration is being torn down; no hook is dispatched.
    Destroy,
}

/// What decoding a raw invocation yields: the typed event for its entry,
/// or the interface violation that forbids dispatching it.
///
/// Three entries can refuse: a simulation start with a render mode
/// outside the three defined values, a buffered key outside the key
/// table, and any vessel-carrying entry whose gaining or created vessel
/// did not resolve.  The losing side of a focus change alone may fail to
/// resolve without fault — no vessel need have held the focus.
pub open spec fn spec_decode(raw: HostEvent) -> Result<ModuleEvent, FatalError> {
    match raw {
        HostEvent::SimulationStart { render_mode } => match spec_render_mode(render_mode) {
            Ok(mode) => Ok(ModuleEvent::SimulationStart(mode)),
            Err(e) => Err(e),
        },
        HostEvent::SimulationEnd => Ok(ModuleEvent::SimulationEnd),
        HostEvent::PreStep => Ok(ModuleEvent::PreStep),
        HostEvent::PostStep => Ok(ModuleEvent::PostStep),
        HostEvent::TimeJump => Ok(ModuleEvent::TimeJump),
        HostEvent::FocusChanged { new_focus, old_focus } => match crate::vessel::spec_from_obj(
            new_focus,
        ) {
            Some(v) => Ok(
                ModuleEvent::FocusChanged {
                    new_focus: v,
                    old_focus: crate::vessel::spec_from_obj(old_focus),
                },
            ),
            None => Err(FatalError::VesselInterfaceExpected),
        },
        HostEvent::TimeAccChanged => Ok(ModuleEvent::TimeAccChanged),
        HostEvent::NewVessel { vessel } => match crate::vessel::spec_from_obj(vessel) {
            Some(v) => Ok(ModuleEvent::NewVessel(v)),
            None => Err(FatalError::VesselInterfaceExpected),
        },
        HostEvent::DeleteVessel { vessel } => match crate::vessel::spec_from_obj(vessel) {
            Some(v) => Ok(ModuleEvent::DeleteVessel(v)),
            None => Err(FatalError::VesselInterfaceExpected),
        },
        HostEvent::VesselJump { vessel } => match crate::vessel::spec_from_obj(vessel) {
            Some(v) => Ok(ModuleEvent::VesselJump(v)),
            None => Err(FatalError::VesselInterfaceExpected),
        },
        HostEvent::Pause { pause } => Ok(ModuleEvent::Pause(pause)),
        HostEvent::Mouse { event, state, x, y } => Ok(
            ModuleEvent::Mouse(MouseEvent { event, state, x, y }),
        ),
        HostEvent::KeyboardImmediate { key_states, sim_running } => Ok(
            ModuleEvent::KeyboardImmediate { key_states, sim_running },
        ),
        HostEvent::KeyboardBuffered { key, key_states, sim_running } => match spec_key(key) {
            Ok(k) => Ok(ModuleEvent::KeyboardBuffered { key: k, key_states, sim_running }),
            Err(e) => Err(e),
        },
        HostEvent::Destroy => Ok(ModuleEvent::Destroy),
    }
}

/// Decodes one raw callback invocation into its typed event, or into the
/// interface violation that forbids dispatching it.
pub fn decode_event(raw: HostEvent) -> (r: Result<ModuleEvent, FatalError>)
    ensures
        r == spec_decode(raw),
{
    match raw {
        HostEvent::SimulationStart { render_mode } => match RenderMode::from(render_mode) {
            Ok(mode) => Ok(ModuleEvent::SimulationStart(mode)),
            Err(e) => Err(e),
        },
        HostEvent::SimulationEnd => Ok(ModuleEvent::SimulationEnd),
        HostEvent::PreStep => Ok(ModuleEvent::PreStep),
        HostEvent::PostStep => Ok(ModuleEvent::PostStep),
        HostEvent::TimeJump => Ok(ModuleEvent::TimeJump),
        HostEvent::FocusChanged { new_focus, old_focus } => match Vessel::from_obj(new_focus) {
            Some(v) => Ok(
                ModuleEvent::FocusChanged { new_focus: v, old_focus: Vessel::from_obj(old_focus) },
            ),
            None => Err(FatalError::VesselInterfaceExpected),
        },
        HostEvent::TimeAccChanged => Ok(ModuleEvent::TimeAccChanged),
        HostEvent::NewVessel { vessel } => match Vessel::from_obj(vessel) {
            Some(v) => Ok(ModuleEvent::NewVessel(v)),
            None => Err(FatalError::VesselInterfaceExpected),
        },
        HostEvent::DeleteVessel { vessel } => match Vessel::from_obj(vessel) {
            Some(v) => Ok(ModuleEvent::DeleteVessel(v)),
            None => Err(FatalError::VesselInterfaceExpected),
        },
        HostEvent::VesselJump { vessel } => match Vessel::from_obj(vessel) {
            Some(v) => Ok(ModuleEvent::VesselJump(v)),
            None => Err(FatalError::VesselInterfaceExpected),
        },
        HostEvent::Pause { pause } => Ok(ModuleEvent::Pause(pause)),
        HostEvent::Mouse { event, state, x, y } => Ok(
            ModuleEvent::Mouse(MouseEvent::from(event, state, x, y)),
        ),
        HostEvent::KeyboardImmediate { key_states, sim_running } => Ok(
            ModuleEvent::KeyboardImmediate { key_states, sim_running },
        ),
        HostEvent::KeyboardBuffered { key, key_states, sim_running } => match Key::from_code(key) {
            Ok(k) => Ok(ModuleEvent::KeyboardBuffered { key: k, key_states, sim_running }),
            Err(e) => Err(e),
        },
        HostEvent::Destroy => Ok(ModuleEvent::Destroy),
    }
}

/// Where one registration stands in its life.
///
/// A registration is made exactly once, the host then owns the adapter's
/// context until its destroy entry runs, and nothing may touch the
/// registration afterwards.
#[derive(Clone, Copy, PartialEq, Eq, Structural, Debug)]
pub enum AdapterState {
    /// No callback implementation has been registered yet.
    Unregistered,
    /// The host holds the context and drives the callback table.
    Registered,
    /// The destroy entry ran; the context is gone.
    Destroyed,
}

/// What the adapter must do with one raw invocation: dispatch its typed
/// event to the user's hook, release the registration's context, or
/// abort the process on an interface violation.
#[derive(PartialEq, Debug)]
pub enum Action {
    /// Call the hook the event belongs to and forward its result.
    Dispatch(ModuleEvent),
    /// Reclaim and release the registration's context; the host calls no
    /// entry after this.
    Release,
    /// The host broke the interface contract; terminate.
    Abort(FatalError),
}

/// What one raw invocation does to a registration: a decode failure
/// aborts, the destroy entry releases the context and ends the
/// registration, and every other event is dispatched with the
/// registration kept alive.
pub open spec fn spec_transition(state: AdapterState, raw: HostEvent) -> (AdapterState, Action) {
    match spec_decode(raw) {
        Err(e) => (state, Action::Abort(e)),
        Ok(ModuleEvent::Destroy) => (AdapterState::Destroyed, Action::Release),
        Ok(event) => (state, Action::Dispatch(event)),
    }
}

impl AdapterState {
    /// The one-time registration: the module has handed the host its
    /// callback table and context, and the host owns them from here on.
    pub fn register(self) -> (r: AdapterState)
        requires
            self is Unregistered,
        ensures
            r == AdapterState::Registered,
    {
        AdapterState::Registered
    }
}

/// Takes one raw callback invocation against the registration's state.
///
/// The host guarantees that its callback entries run only between
/// registration and destruction; under that guarantee this yields the
/// next state of the registration together with the action the entry
/// must perform.
pub fn transition(state: AdapterState, raw: HostEvent) -> (r: (AdapterState, Action))
    requires
        state is Registered,
    ensures
        r == spec_transition(state, raw),
{
    match decode_event(raw) {
        Err(e) => (state, Action::Abort(e)),
        Ok(event) => match event {
            ModuleEvent::Destroy => (AdapterState::Destroyed, Action::Release),
            other => (state, Action::Dispatch(other)),
        },
    }
}

/// The simulation-start path of a registered adapter: the three defined
/// render-mode encodings dispatch the start hook with the matching
/// variant, and every other value aborts instead of dispatching.
pub proof fn lemma_simulation_start_modes(state: AdapterState, value: i32)
    ensures
        value == 0 ==> spec_transition(state, (HostEvent::SimulationStart { render_mode: value }))
            == (state, Action::Dispatch(ModuleEvent::SimulationStart(RenderMode::NoGraphics))),
        value == 1 ==> spec_transition(state, (HostEvent::SimulationStart { render_mode: value }))
            == (state, Action::Dispatch(ModuleEvent::SimulationStart(RenderMode::Fullscreen))),
        value == 2 ==> spec_transition(state, (HostEvent::SimulationStart { render_mode: value }))
            == (state, Action::Dispatch(ModuleEvent::SimulationStart(RenderMode::Window))),
        !(value == 0 || value == 1 || value == 2) ==> spec_transition(
            state,
            (HostEvent::SimulationStart { render_mode: value }),
        ) == (state, Action::Abort(FatalError::UnknownRenderMode(value))),
{
}

} // verus!
