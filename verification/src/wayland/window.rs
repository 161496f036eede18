//! Windows: when they are painted, how large they are, and what waits to be done with them.

use std::collections::HashMap;

use vstd::prelude::*;
use vstd::std_specs::hash::*;

use crate::geometry::{DpPoint, DpSize};
use crate::text::{Event, TextFieldToken};
use crate::wayland::seat::TextInputProperties;
use crate::wayland::{SeatName, SurfaceId};
use crate::window::{IdleToken, TimerToken, WindowLevel, WindowState};

verus! {

/// The window properties of a window without text fields.
pub fn no_text_fields() -> (props: TextInputProperties)
    ensures
        props == (TextInputProperties {
            active_text_field: None,
            next_text_field: None,
            active_text_field_updated: false,
            active_text_layout_changed: false,
        }),
{
    TextInputProperties {
        active_text_field: None,
        next_text_field: None,
        active_text_field_updated: false,
        active_text_layout_changed: false,
    }
}

impl TextInputProperties {
    /// The properties without a text field.
    pub open spec fn without(self, token: TextFieldToken) -> TextInputProperties {
        TextInputProperties {
            active_text_field: if self.active_text_field == Some(token) {
                None
            } else {
                self.active_text_field
            },
            next_text_field: if self.next_text_field == Some(token) {
                None
            } else {
                self.next_text_field
            },
            active_text_field_updated: self.active_text_field_updated || self.active_text_field
                == Some(token),
            ..self
        }
    }

    /// The properties once the application changed a text field.
    pub open spec fn changed(self, token: TextFieldToken, update: Event) -> TextInputProperties {
        if self.active_text_field != Some(token) {
            self
        } else if update == Event::LayoutChanged {
            TextInputProperties { active_text_layout_changed: true, ..self }
        } else {
            TextInputProperties { active_text_field_updated: true, ..self }
        }
    }

    /// A text field is gone. Returns whether that has to be followed.
    pub fn remove_text_field(&mut self, token: TextFieldToken) -> (updated: bool)
        ensures
            updated == (old(self).active_text_field == Some(token) || old(self).next_text_field
                == Some(token)),
            *final(self) == old(self).without(token),
    {
        let mut updated = false;
        if self.active_text_field == Some(token) {
            self.active_text_field = None;
            self.active_text_field_updated = true;
            updated = true;
        }
        if self.next_text_field == Some(token) {
            self.next_text_field = None;
            updated = true;
        }
        updated
    }

    /// Focuses a text field, or none. That always has to be followed.
    pub fn set_focused_text_field(&mut self, active_field: Option<TextFieldToken>)
        ensures
            *final(self) == (TextInputProperties { next_text_field: active_field, ..*old(self) }),
    {
        self.next_text_field = active_field;
    }

    /// The application changed a text field. Returns whether that has to be followed: only changes
    /// of the active field have to.
    pub fn update_text_field(&mut self, token: TextFieldToken, update: Event) -> (updated: bool)
        ensures
            updated == (old(self).active_text_field == Some(token)),
            *final(self) == old(self).changed(token, update),
    {
        if self.active_text_field == Some(token) {
            match update {
                Event::LayoutChanged => {
                    self.active_text_layout_changed = true;
                },
                Event::SelectionChanged | Event::Reset => {
                    self.active_text_field_updated = true;
                },
            }
            true
        } else {
            false
        }
    }
}

/// The size that a window should stay below, in pixels.
#[derive(Clone, Copy, Debug, PartialEq, Eq, Structural)]
pub struct Bounds {
    pub width: u32,
    pub height: u32,
}

/// How the compositor wants a window to be.
#[derive(Clone, Copy, Debug, PartialEq, Eq, Structural)]
pub struct WindowConfigure {
    pub maximized: bool,
    pub resizing: bool,
    /// The size that the compositor suggests to stay below.
    pub suggested_bounds: Option<Bounds>,
    /// The width and the height that the compositor asks for, where it does.
    pub new_width: Option<u32>,
    pub new_height: Option<u32>,
}

/// What is measured of a window when its size is calculated: of the size that is requested just
/// then, and of the configuration that is in force just then.
#[derive(Clone, Copy, Debug, PartialEq, Eq, Structural)]
pub struct Measures {
    /// Whether the requested size is smaller than the suggested bounds. It does not count if there
    /// are no bounds, or no size is requested.
    pub within_bounds: bool,
    /// The sides that the compositor asks for, and the current ones where it does not.
    pub compositor_size: DpSize,
}

/// The bits of a double that is 600.
pub const DEFAULT_WIDTH: u64 = 0x4082_c000_0000_0000;

/// The bits of a double that is 800.
pub const DEFAULT_HEIGHT: u64 = 0x4089_0000_0000_0000;

/// The bits of a double that is 1.
pub const UNSCALED: u64 = 0x3ff0_0000_0000_0000;

/// The context do_paint is called in
#[derive(Clone, Copy, Debug, PartialEq, Eq, Structural)]
pub enum PaintContext {
    /// Painting occurs during a `frame` callback and finished, we know that there are no more frame callbacks
    Frame,
    Requested,
    Configure,
}

/// What to do about painting.
#[derive(Clone, Copy, Debug, PartialEq, Eq, Structural)]
pub struct PaintPlan {
    /// Whether to ask the compositor for a frame callback, before anything else.
    pub request_frame: bool,
    /// Whether the handler prepares and paints.
    pub paint: bool,
}

/// The state of a window that its handles share.
#[derive(Clone, Copy, Debug, PartialEq, Eq, Structural)]
pub struct WindowProperties {
    /// Requested size is used in configure, if it's supported
    pub requested_size: Option<DpSize>,
    pub configure: Option<WindowConfigure>,
    /// The dimensions of the surface we reported to the handler, and so report in
    /// [`Self::get_size`]
    pub current_size: DpSize,
    /// The number of pixels in a display point, as the bits of a double.
    pub current_scale: u64,
    /// Wayland requires frame (throttling) callbacks be requested *before* running commit.
    /// However, user code controls when commit is called (generally through wgpu's
    /// `present` in `paint`).
    /// To allow using the frame throttling hints properly we:
    /// - Always request a throttling hint before `paint`ing
    /// - Only action that hint if a request_anim_frame (or equivalent) was called
    /// - If there is no running hint, manually run this process when calling request_anim_frame
    pub will_repaint: bool,
    /// Whether a `frame` callback has been skipped
    /// If this is false, and painting is requested, we need to manually run our own painting
    pub pending_frame_callback: bool,
    /// We can't draw before being configured
    pub configured: bool,
}

impl WindowProperties {
    /// A window that the compositor has not configured yet.
    pub open spec fn unconfigured(requested_size: Option<DpSize>) -> WindowProperties {
        WindowProperties {
            requested_size,
            configure: None,
            current_size: DpSize { width: DEFAULT_WIDTH, height: DEFAULT_HEIGHT },
            current_scale: UNSCALED,
            will_repaint: false,
            pending_frame_callback: false,
            configured: false,
        }
    }

    /// A window that the compositor has not configured yet. Its current size is just used as the
    /// default, as the handler is not told a size until the requested size is used.
    pub fn new(requested_size: Option<DpSize>) -> (props: WindowProperties)
        ensures
            props == Self::unconfigured(requested_size),
    {
        WindowProperties {
            requested_size,
            configure: None,
            current_size: DpSize { width: DEFAULT_WIDTH, height: DEFAULT_HEIGHT },
            current_scale: UNSCALED,
            will_repaint: false,
            pending_frame_callback: false,
            configured: false,
        }
    }

    /// The size that was reported to the handler last.
    pub fn get_size(&self) -> (size: DpSize)
        ensures
            size == self.current_size,
    {
        self.current_size
    }

    /// Whether the size that the application requested is taken: unless the window is maximized or
    /// being resized, or there are bounds that the size is not smaller than.
    pub open spec fn takes_request(self, measures: Measures) -> bool {
        let configure = self.configure->0;
        &&& self.requested_size is Some
        &&& !configure.maximized
        &&& !configure.resizing
        &&& configure.suggested_bounds is Some ==> measures.within_bounds
    }

    /// The size of the window from now on: what the application requested, or else what the
    /// compositor asks for.
    pub open spec fn next_size(self, measures: Measures) -> DpSize {
        if self.takes_request(measures) {
            self.requested_size->0
        } else {
            measures.compositor_size
        }
    }

    /// The window once its size is calculated. The request is used up.
    pub open spec fn resized(self, measures: Measures) -> WindowProperties {
        WindowProperties {
            requested_size: None,
            current_size: self.next_size(measures),
            ..self
        }
    }

    /// Calculate the size that this window should be, given the current configuration
    /// Called in response to a configure event or a resize being requested
    ///
    /// Returns the size that the handler is told, which is also the current size from now on.
    ///
    /// We consume the requested size, as that is considered to be a one-shot affair
    /// Without doing so, the window would never be resizable
    pub fn calculate_size(&mut self, measures: &Measures) -> (size: DpSize)
        requires
            old(self).configure is Some,
        ensures
            size == old(self).next_size(*measures),
            *final(self) == old(self).resized(*measures),
            size == final(self).current_size,
    {
        let requested = self.requested_size.take();
        let configure = self.configure.unwrap();
        let mut size = measures.compositor_size;
        if let Some(wanted) = requested {
            if !configure.maximized && !configure.resizing {
                if configure.suggested_bounds.is_none() || measures.within_bounds {
                    size = wanted;
                }
            }
        }
        self.current_size = size;
        size
    }

    /// The window with a configuration of the compositor.
    pub open spec fn with_configuration(self, configure: WindowConfigure) -> WindowProperties {
        WindowProperties { configure: Some(configure), ..self }
    }

    /// The compositor configures the window. Returns the size that the handler is told.
    pub fn configure(&mut self, configure: WindowConfigure, measures: &Measures) -> (size: DpSize)
        ensures
            size == old(self).with_configuration(configure).next_size(*measures),
            *final(self) == (WindowProperties {
                configured: true,
                ..old(self).with_configuration(configure).resized(*measures)
            }),
    {
        self.configure = Some(configure);
        let size = self.calculate_size(measures);
        self.configured = true;
        size
    }

    /// The scale of the window changed. `size` is the current size in that scale, which the handler
    /// is told after the scale.
    pub fn scale_factor_changed(&mut self, scale: u64, size: DpSize)
        ensures
            *final(self) == (WindowProperties {
                current_scale: scale,
                current_size: size,
                ..*old(self)
            }),
    {
        self.current_scale = scale;
        self.current_size = size;
    }

    /// The window, once a new paint is requested.
    pub open spec fn asked_to_paint(self) -> WindowProperties {
        WindowProperties { will_repaint: true, ..self }
    }

    /// Request a new paint, but without invalidating anything. Returns whether painting has to be
    /// started: a frame callback that is under way will paint.
    pub fn request_anim_frame(&mut self) -> (start: bool)
        ensures
            start == !old(self).pending_frame_callback,
            *final(self) == old(self).asked_to_paint(),
    {
        self.will_repaint = true;
        !self.pending_frame_callback
    }

    /// Whether the window is painted now.
    pub open spec fn paints(self, force: bool) -> bool {
        self.configured && (self.will_repaint || force)
    }

    /// Whether a frame callback is under way, seen from a context: it no longer is in the callback.
    pub open spec fn in_flight(self, context: PaintContext) -> bool {
        self.pending_frame_callback && context != PaintContext::Frame
    }

    /// The window after it was painted or not, and what is done about it.
    pub open spec fn painted(self, force: bool, context: PaintContext) -> (
        WindowProperties,
        PaintPlan,
    ) {
        let paint = self.paints(force);
        (
            WindowProperties {
                will_repaint: self.will_repaint && !paint,
                pending_frame_callback: paint || self.in_flight(context),
                ..self
            },
            PaintPlan { request_frame: paint && !self.in_flight(context), paint },
        )
    }

    /// Decides whether to paint now, and whether to ask for a frame callback.
    pub fn do_paint(&mut self, force: bool, context: PaintContext) -> (plan: PaintPlan)
        ensures
            (*final(self), plan) == old(self).painted(force, context),
    {
        if let PaintContext::Frame = context {
            self.pending_frame_callback = false;
        }
        if !self.configured || (!self.will_repaint && !force) {
            return PaintPlan { request_frame: false, paint: false };
        }
        self.will_repaint = false;
        // If there is not a frame callback in flight, we request it here
        // This branch could be skipped e.g. on `configure`, which ignores frame throttling hints and
        // always paints eagerly, even if there is a frame callback running
        let mut request_frame = false;
        if !self.pending_frame_callback {
            self.pending_frame_callback = true;
            request_frame = true;
        }
        PaintPlan { request_frame, paint: true }
    }
}

/// A paint that was requested is not lost: without a frame callback under way it is painted at once,
/// and otherwise as soon as that callback comes. Whenever it is painted a callback is under way
/// afterwards, and one is only asked for while there is none.
pub proof fn law_requested_paint_happens(window: WindowProperties, context: PaintContext)
    requires
        window.configured,
    ensures
        window.asked_to_paint().painted(false, PaintContext::Requested).1.paint,
        window.asked_to_paint().painted(false, PaintContext::Frame).1.paint,
        window.asked_to_paint().painted(false, context).0.pending_frame_callback,
        window.asked_to_paint().painted(false, context).1.request_frame == (
        !window.pending_frame_callback || context == PaintContext::Frame),
        !window.asked_to_paint().painted(false, context).0.will_repaint,
{
}

/// A size that is requested is used at most once, and held to the bounds by itself: whatever became
/// of an earlier request, the next one is taken exactly if it fits, and without a new request the
/// compositor decides.
pub proof fn law_size_request_is_used_once(
    window: WindowProperties,
    earlier: Measures,
    later: Measures,
    size: DpSize,
)
    requires
        window.configure is Some,
    ensures
        window.resized(earlier).requested_size is None,
        window.resized(earlier).next_size(later) == later.compositor_size,
        ({
            let again = window.resized(earlier).with_request(size);
            let configure = window.configure->0;
            &&& again.next_size(later) == if !configure.maximized && !configure.resizing && (
            configure.suggested_bounds is None || later.within_bounds) {
                size
            } else {
                later.compositor_size
            }
            &&& again.resized(later).current_size == again.next_size(later)
        }),
{
}

/// How to bring a window into a state. Being minimized cannot be undone.
#[derive(Clone, Copy, Debug, PartialEq, Eq, Structural)]
pub enum StateRequest {
    SetMaximized,
    SetMinimized,
    UnsetMaximized,
}

/// What to ask of the compositor to bring a window into a state.
pub open spec fn request_for(state: WindowState) -> StateRequest {
    match state {
        WindowState::Maximized => StateRequest::SetMaximized,
        WindowState::Minimized => StateRequest::SetMinimized,
        WindowState::Restored => StateRequest::UnsetMaximized,
    }
}

/// What to ask of the compositor to bring a window into a state.
pub fn state_request(state: WindowState) -> (request: StateRequest)
    ensures
        request == request_for(state),
{
    match state {
        WindowState::Maximized => StateRequest::SetMaximized,
        WindowState::Minimized => StateRequest::SetMinimized,
        WindowState::Restored => StateRequest::UnsetMaximized,
    }
}

/// The state of a window that the backend keeps.
#[derive(Clone, Copy, Debug, PartialEq, Eq, Structural)]
pub struct WaylandWindowState {
    pub properties: WindowProperties,
    /// The seat whose keyboard is focused on the window.
    pub text_input_seat: Option<SeatName>,
}

impl WaylandWindowState {
    /// A seat focuses on the window. None does yet.
    pub fn set_input_seat(&mut self, seat: SeatName)
        requires
            old(self).text_input_seat is None,
        ensures
            *final(self) == (WaylandWindowState { text_input_seat: Some(seat), ..*old(self) }),
    {
        self.text_input_seat = Some(seat);
    }

    /// The seat no longer focuses on the window.
    pub fn remove_input_seat(&mut self, seat: SeatName)
        requires
            old(self).text_input_seat == Some(seat),
        ensures
            *final(self) == (WaylandWindowState { text_input_seat: None, ..*old(self) }),
    {
        self.text_input_seat = None;
    }
}

/// Something to do with a window, once no code of the application is running.
#[derive(Clone, Copy, Debug, PartialEq, Eq, Structural)]
pub enum WindowAction {
    /// Change the window size, based on `requested_size`
    ///
    /// `requested_size` must be set before this is called
    ResizeRequested,
    /// Close the Window
    Close,
    Create(WaylandWindowState),
    AnimationRequested,
    /// A text field of the window changed
    TextField,
}

/// What a window action comes to.
#[derive(Clone, Copy, Debug, PartialEq, Eq, Structural)]
pub enum WindowOutcome {
    /// The window is not there.
    Gone,
    /// Tell the handler its size, and paint.
    Resized { size: DpSize, paint: PaintPlan },
    Painted(PaintPlan),
    /// The window is closed. The seat that was focused on it has to be told, and if it was the last
    /// window, the event loop stops.
    Closed { seat: Option<SeatName>, stop: bool },
    /// Tell the handler about its window.
    Connected,
    /// The seat has to follow the change of the text field.
    FollowTextField(SeatName),
    /// No seat is focused on the window.
    NotFocused,
}

/// All windows, by their surfaces.
pub struct Windows {
    map: HashMap<u64, WaylandWindowState>,
}

impl View for Windows {
    type V = Map<u64, WaylandWindowState>;

    closed spec fn view(&self) -> Map<u64, WaylandWindowState> {
        self.map@
    }
}

/// The window with a surface.
pub open spec fn lookup(windows: Map<u64, WaylandWindowState>, id: SurfaceId) -> Option<
    WaylandWindowState,
> {
    if windows.dom().contains(id.0) {
        Some(windows[id.0])
    } else {
        None
    }
}

/// What a window action comes to, and the windows after it.
pub open spec fn ran(
    windows: Map<u64, WaylandWindowState>,
    action: WindowAction,
    id: SurfaceId,
    measures: Measures,
) -> (Map<u64, WaylandWindowState>, WindowOutcome) {
    match (action, lookup(windows, id)) {
        (WindowAction::Create(state), None) => (
            windows.insert(id.0, state),
            WindowOutcome::Connected,
        ),
        (WindowAction::Create(_), Some(_)) => (windows, WindowOutcome::Connected),
        (_, None) => (windows, WindowOutcome::Gone),
        (WindowAction::ResizeRequested, Some(window)) => {
            let sized = window.properties.resized(measures);
            let (properties, paint) = sized.painted(true, PaintContext::Requested);
            (
                windows.insert(id.0, WaylandWindowState { properties, ..window }),
                WindowOutcome::Resized { size: sized.current_size, paint },
            )
        },
        (WindowAction::AnimationRequested, Some(window)) => {
            let (properties, paint) = window.properties.painted(false, PaintContext::Requested);
            (
                windows.insert(id.0, WaylandWindowState { properties, ..window }),
                WindowOutcome::Painted(paint),
            )
        },
        (WindowAction::Close, Some(window)) => (
            windows.remove(id.0),
            WindowOutcome::Closed {
                seat: window.text_input_seat,
                stop: windows.remove(id.0) == Map::<u64, WaylandWindowState>::empty(),
            },
        ),
        (WindowAction::TextField, Some(window)) => (
            windows,
            match window.text_input_seat {
                Some(seat) => WindowOutcome::FollowTextField(seat),
                None => WindowOutcome::NotFocused,
            },
        ),
    }
}

impl Windows {
    pub fn new() -> (windows: Windows)
        ensures
            windows@ == Map::<u64, WaylandWindowState>::empty(),
    {
        Windows { map: HashMap::new() }
    }

    /// The window with a surface.
    pub fn get(&self, id: SurfaceId) -> (window: Option<WaylandWindowState>)
        ensures
            window == lookup(self@, id),
    {
        broadcast use vstd::std_specs::hash::group_hash_axioms;

        match self.map.get(&id.0) {
            Some(window) => Some(*window),
            None => None,
        }
    }

    /// Puts a window back.
    pub fn put(&mut self, id: SurfaceId, window: WaylandWindowState)
        ensures
            final(self)@ == old(self)@.insert(id.0, window),
    {
        broadcast use vstd::std_specs::hash::group_hash_axioms;

        let _ = self.map.insert(id.0, window);
    }

    /// A frame callback came for a window. If the window is gone, there is nothing to paint.
    pub fn frame(&mut self, id: SurfaceId) -> (plan: Option<PaintPlan>)
        ensures
            match lookup(old(self)@, id) {
                None => plan is None && final(self)@ == old(self)@,
                Some(window) => {
                    let (properties, paint) = window.properties.painted(false, PaintContext::Frame);
                    &&& plan == Some(paint)
                    &&& final(self)@ == old(self)@.insert(
                        id.0,
                        WaylandWindowState { properties, ..window },
                    )
                },
            },
    {
        match self.get(id) {
            None => None,
            Some(window) => {
                let mut window = window;
                let plan = window.properties.do_paint(false, PaintContext::Frame);
                self.put(id, window);
                Some(plan)
            },
        }
    }

    /// The compositor configures a window. If the window is gone, nothing is known of it. The
    /// handler is told the size, and the window painted in any case.
    pub fn configure(
        &mut self,
        id: SurfaceId,
        configure: WindowConfigure,
        measures: &Measures,
    ) -> (outcome: WindowOutcome)
        ensures
            match lookup(old(self)@, id) {
                None => outcome == WindowOutcome::Gone && final(self)@ == old(self)@,
                Some(window) => {
                    let configured = WindowProperties {
                        configured: true,
                        ..window.properties.with_configuration(configure).resized(*measures)
                    };
                    let (properties, paint) = configured.painted(true, PaintContext::Configure);
                    &&& outcome == (WindowOutcome::Resized { size: configured.current_size, paint })
                    &&& paint.paint
                    &&& final(self)@ == old(self)@.insert(
                        id.0,
                        WaylandWindowState { properties, ..window },
                    )
                },
            },
    {
        match self.get(id) {
            None => WindowOutcome::Gone,
            Some(window) => {
                let mut window = window;
                let size = window.properties.configure(configure, measures);
                let paint = window.properties.do_paint(true, PaintContext::Configure);
                self.put(id, window);
                WindowOutcome::Resized { size, paint }
            },
        }
    }

    /// Runs an action on a window. A window is only resized once it has been configured. `measures`
    /// are those of the window as it is now; they only count when it is resized.
    pub fn run(&mut self, action: WindowAction, id: SurfaceId, measures: &Measures) -> (outcome:
        WindowOutcome)
        requires
            action == WindowAction::ResizeRequested ==> (lookup(old(self)@, id) matches Some(window)
                ==> window.properties.configure is Some),
        ensures
            (final(self)@, outcome) == ran(old(self)@, action, id, *measures),
    {
        broadcast use vstd::std_specs::hash::group_hash_axioms;

        let found = self.get(id);
        match action {
            WindowAction::Create(state) => {
                if found.is_none() {
                    self.put(id, state);
                }
                WindowOutcome::Connected
            },
            WindowAction::ResizeRequested => match found {
                None => WindowOutcome::Gone,
                Some(window) => {
                    let mut window = window;
                    let size = window.properties.calculate_size(measures);
                    // Force repainting now that the size has changed.
                    let paint = window.properties.do_paint(true, PaintContext::Requested);
                    self.put(id, window);
                    WindowOutcome::Resized { size, paint }
                },
            },
            WindowAction::AnimationRequested => match found {
                None => WindowOutcome::Gone,
                Some(window) => {
                    let mut window = window;
                    let plan = window.properties.do_paint(false, PaintContext::Requested);
                    self.put(id, window);
                    WindowOutcome::Painted(plan)
                },
            },
            WindowAction::Close => match found {
                None => WindowOutcome::Gone,
                Some(window) => {
                    let _ = self.map.remove(&id.0);
                    let stop = self.map.is_empty();
                    proof {
                        assert(self.map@ =~= old(self)@.remove(id.0));
                        if stop {
                            assert(self.map@ =~= Map::<u64, WaylandWindowState>::empty());
                        }
                    }
                    WindowOutcome::Closed { seat: window.text_input_seat, stop }
                },
            },
            WindowAction::TextField => match found {
                None => WindowOutcome::Gone,
                Some(window) => match window.text_input_seat {
                    Some(seat) => WindowOutcome::FollowTextField(seat),
                    None => WindowOutcome::NotFocused,
                },
            },
        }
    }
}

/// Something that waits for an idle moment.
#[derive(Clone, Copy, Debug, PartialEq, Eq, Structural)]
pub enum IdleAction {
    /// Run the callback that was stored under this number.
    Callback(u64),
    Token(SurfaceId, IdleToken),
}

/// What the queue of idle actions answers.
#[derive(Clone, Copy, Debug, PartialEq, Eq, Structural)]
pub enum IdlePoll {
    Ready(IdleAction),
    Empty,
}

/// What to do in an idle moment.
#[derive(Clone, Copy, Debug, PartialEq, Eq, Structural)]
pub enum IdleStep {
    RunCallback(u64),
    /// Hand a token to a window's handler.
    Idle(SurfaceId, IdleToken),
    /// The window that a token was meant for is gone.
    Skip,
    /// Go back to waiting for events.
    Wait,
}

/// What to do with the next of the actions that wait for an idle moment.
pub open spec fn idle_step_for(
    windows: Map<u64, WaylandWindowState>,
    poll: IdlePoll,
) -> IdleStep {
    match poll {
        IdlePoll::Empty => IdleStep::Wait,
        IdlePoll::Ready(IdleAction::Callback(number)) => IdleStep::RunCallback(number),
        IdlePoll::Ready(IdleAction::Token(window, token)) => if lookup(windows, window) is Some {
            IdleStep::Idle(window, token)
        } else {
            IdleStep::Skip
        },
    }
}

impl Windows {
    /// Decides what to do with the next of the actions that wait for an idle moment. They are taken
    /// one by one until none is left.
    pub fn idle_step(&self, poll: IdlePoll) -> (step: IdleStep)
        ensures
            step == idle_step_for(self@, poll),
    {
        match poll {
            IdlePoll::Empty => IdleStep::Wait,
            IdlePoll::Ready(IdleAction::Callback(number)) => IdleStep::RunCallback(number),
            IdlePoll::Ready(IdleAction::Token(window, token)) => {
                if self.get(window).is_some() {
                    IdleStep::Idle(window, token)
                } else {
                    IdleStep::Skip
                }
            },
        }
    }
}

/// A window that is closed is gone for whatever comes later, and does not come back by itself.
pub proof fn law_closed_window_is_gone(
    windows: Map<u64, WaylandWindowState>,
    id: SurfaceId,
    later: WindowAction,
    measures: Measures,
)
    requires
        !(later is Create),
    ensures
        ({
            let closed = ran(windows, WindowAction::Close, id, measures).0;
            &&& ran(closed, later, id, measures).1 == WindowOutcome::Gone
            &&& lookup(ran(closed, later, id, measures).0, id) is None
        }),
{
}

/// The name under which windows are known to the compositor.
pub open spec fn app_id() -> Seq<char> {
    "org.linebender.glazier.user_app"@
}

/// Builder abstraction for creating new windows
#[derive(Debug)]
pub struct WindowBuilder {
    pub title: String,
    pub position: Option<DpPoint>,
    pub level: WindowLevel,
    pub state: Option<WindowState>,
    pub size: Option<DpSize>,
    pub min_size: Option<DpSize>,
    pub resizable: bool,
    pub show_titlebar: bool,
}

/// How a window is to be created.
#[derive(Debug)]
pub struct CreationPlan {
    pub title: String,
    pub app_id: String,
    pub state: WaylandWindowState,
    pub text: TextInputProperties,
}

impl WindowBuilder {
    pub fn new() -> (builder: WindowBuilder)
        ensures
            builder.title@ == Seq::<char>::empty(),
            builder.position is None,
            builder.level == WindowLevel::AppWindow,
            builder.state is None,
            builder.size is None,
            builder.min_size is None,
            builder.resizable,
            builder.show_titlebar,
    {
        WindowBuilder {
            title: String::new(),
            position: None,
            level: WindowLevel::AppWindow,
            state: None,
            size: None,
            min_size: None,
            resizable: true,
            show_titlebar: true,
        }
    }

    /// Sets the size.
    pub fn size(self, size: DpSize) -> (builder: WindowBuilder)
        ensures
            builder == (WindowBuilder { size: Some(size), ..self }),
    {
        let mut builder = self;
        builder.size = Some(size);
        builder
    }

    /// Sets the smallest size.
    pub fn min_size(self, size: DpSize) -> (builder: WindowBuilder)
        ensures
            builder == (WindowBuilder { min_size: Some(size), ..self }),
    {
        let mut builder = self;
        builder.min_size = Some(size);
        builder
    }

    /// Sets whether the window can be resized.
    pub fn resizable(self, resizable: bool) -> (builder: WindowBuilder)
        ensures
            builder == (WindowBuilder { resizable, ..self }),
    {
        let mut builder = self;
        builder.resizable = resizable;
        builder
    }

    /// Sets whether the window has a title bar.
    pub fn show_titlebar(self, show_titlebar: bool) -> (builder: WindowBuilder)
        ensures
            builder == (WindowBuilder { show_titlebar, ..self }),
    {
        let mut builder = self;
        builder.show_titlebar = show_titlebar;
        builder
    }

    /// Sets where the window goes.
    pub fn position(self, position: DpPoint) -> (builder: WindowBuilder)
        ensures
            builder == (WindowBuilder { position: Some(position), ..self }),
    {
        let mut builder = self;
        builder.position = Some(position);
        builder
    }

    /// Sets the level.
    pub fn level(self, level: WindowLevel) -> (builder: WindowBuilder)
        ensures
            builder == (WindowBuilder { level, ..self }),
    {
        let mut builder = self;
        builder.level = level;
        builder
    }

    /// Sets the state that the window starts in.
    pub fn window_state(self, state: WindowState) -> (builder: WindowBuilder)
        ensures
            builder == (WindowBuilder { state: Some(state), ..self }),
    {
        let mut builder = self;
        builder.state = Some(state);
        builder
    }

    /// Sets the title.
    pub fn title(self, title: String) -> (builder: WindowBuilder)
        ensures
            builder == (WindowBuilder { title, ..self }),
    {
        let mut builder = self;
        builder.title = title;
        builder
    }

    /// Windows can be transparent in any case.
    pub fn transparent(self, _transparent: bool) -> (builder: WindowBuilder)
        ensures
            builder == self,
    {
        self
    }

    /// Decides how the window is created. Of the settings, only the title and the size count yet.
    pub fn build(self) -> (plan: CreationPlan)
        ensures
            plan.title == self.title,
            plan.app_id@ == app_id(),
            plan.state.properties == WindowProperties::unconfigured(self.size),
            plan.state.text_input_seat is None,
            plan.text == (TextInputProperties {
                active_text_field: None,
                next_text_field: None,
                active_text_field_updated: false,
                active_text_layout_changed: false,
            }),
    {
        CreationPlan {
            title: self.title,
            app_id: "org.linebender.glazier.user_app".to_owned(),
            state: WaylandWindowState {
                properties: WindowProperties::new(self.size),
                text_input_seat: None,
            },
            text: no_text_fields(),
        }
    }
}

/// Who draws the decorations of a window.
#[derive(Clone, Copy, Debug, PartialEq, Eq, Structural)]
pub enum DecorationMode {
    Server,
    Client,
}

/// Who is asked to draw the decorations of a window.
pub open spec fn decoration_for(shown: bool) -> DecorationMode {
    if shown {
        DecorationMode::Server
    } else {
        DecorationMode::Client
    }
}

/// Who is asked to draw the decorations of a window. Without a title bar the window draws them,
/// which is none.
pub fn show_titlebar(shown: bool) -> (mode: DecorationMode)
    ensures
        mode == decoration_for(shown),
{
    if shown {
        DecorationMode::Server
    } else {
        DecorationMode::Client
    }
}

impl WindowProperties {
    /// The window, once the application wants a size.
    pub open spec fn with_request(self, size: DpSize) -> WindowProperties {
        WindowProperties { requested_size: Some(size), ..self }
    }

    /// The application wants a size. That is followed once no code of the application is running.
    pub fn set_size(&mut self, size: DpSize) -> (action: WindowAction)
        ensures
            action == WindowAction::ResizeRequested,
            *final(self) == old(self).with_request(size),
    {
        self.requested_size = Some(size);
        WindowAction::ResizeRequested
    }
}

impl Windows {
    /// The scale of a window changed. `size` is its current size in that scale. The handler is told
    /// both.
    pub fn scale_factor_changed(&mut self, id: SurfaceId, scale: u64, size: DpSize)
        requires
            lookup(old(self)@, id) is Some,
        ensures
            final(self)@ == old(self)@.insert(
                id.0,
                ({
                    let window = lookup(old(self)@, id)->0;
                    WaylandWindowState {
                        properties: WindowProperties {
                            current_scale: scale,
                            current_size: size,
                            ..window.properties
                        },
                        ..window
                    }
                }),
            ),
    {
        if let Some(window) = self.get(id) {
            let mut window = window;
            window.properties.scale_factor_changed(scale, size);
            self.put(id, window);
        }
    }

    /// A timer of a window is due. Returns the token for its handler, if the window still exists.
    pub fn timer_due(&self, id: SurfaceId, token: TimerToken) -> (due: Option<TimerToken>)
        ensures
            due == due_for(self@, id, token),
    {
        match self.get(id) {
            Some(_) => Some(token),
            None => None,
        }
    }
}

/// A text field that is gone is neither active nor about to be, and nothing else is forgotten with
/// it. That has to be followed exactly if anything changed by it.
pub proof fn law_removed_fields_are_forgotten(
    props: TextInputProperties,
    token: TextFieldToken,
    other: TextFieldToken,
)
    requires
        other != token,
    ensures
        ({
            let after = props.without(token);
            &&& after.active_text_field != Some(token) && after.next_text_field != Some(token)
            &&& (after.active_text_field == Some(other)) == (props.active_text_field == Some(other))
            &&& (after.next_text_field == Some(other)) == (props.next_text_field == Some(other))
            &&& after.active_text_layout_changed == props.active_text_layout_changed
            &&& props.active_text_field == Some(token) ==> after.active_text_field_updated
            &&& props.active_text_field != Some(token) ==> after.active_text_field_updated
                == props.active_text_field_updated
            &&& (after != props) == (props.active_text_field == Some(token)
                || props.next_text_field == Some(token))
            &&& after.without(token) == after
        }),
{
}

/// A change of the active field is noted until it is followed: as a change of its layout, or as an
/// update of anything else. Changes of other fields are not noted, and no change hides another.
pub proof fn law_changes_of_the_active_field_are_noted(
    props: TextInputProperties,
    token: TextFieldToken,
    update: Event,
)
    ensures
        ({
            let after = props.changed(token, update);
            &&& after.active_text_field == props.active_text_field && after.next_text_field
                == props.next_text_field
            &&& props.active_text_field != Some(token) ==> after == props
            &&& props.active_text_field == Some(token) ==> {
                &&& after.active_text_layout_changed <==> props.active_text_layout_changed || update
                    == Event::LayoutChanged
                &&& after.active_text_field_updated <==> props.active_text_field_updated || update
                    != Event::LayoutChanged
            }
        }),
{
}

/// A window is painted only once it is configured, and then if it was asked to or has to be; a paint
/// that was asked for is done with by it, and waits otherwise. A frame callback is asked for only
/// with a paint, and only if none is under way.
pub proof fn law_windows_are_painted_when_asked(
    window: WindowProperties,
    force: bool,
    context: PaintContext,
)
    ensures
        ({
            let (after, plan) = window.painted(force, context);
            &&& plan.paint ==> window.configured
            &&& window.configured ==> (plan.paint <==> window.will_repaint || force)
            &&& plan.paint ==> !after.will_repaint && after.pending_frame_callback
            &&& !plan.paint ==> after.will_repaint == window.will_repaint && !plan.request_frame
            &&& !plan.paint ==> (after.pending_frame_callback <==> window.pending_frame_callback
                && context != PaintContext::Frame)
            &&& plan.request_frame ==> !window.pending_frame_callback || context
                == PaintContext::Frame
            &&& plan.paint && !plan.request_frame ==> window.pending_frame_callback
            &&& after.current_size == window.current_size && after.requested_size
                == window.requested_size && after.configured == window.configured && after.configure
                == window.configure && after.current_scale == window.current_scale
        }),
{
}

/// A request for a size is taken only if nothing stands against it, and the compositor's size
/// otherwise; the window is then as large as the handler is told.
pub proof fn law_requested_sizes_are_taken(
    window: WindowProperties,
    configure: WindowConfigure,
    measures: Measures,
)
    requires
        window.configure == Some(configure),
    ensures
        ({
            let size = window.next_size(measures);
            let against = configure.maximized || configure.resizing || (
            configure.suggested_bounds is Some && !measures.within_bounds);
            &&& size == (match window.requested_size {
                Some(wanted) => if against {
                    measures.compositor_size
                } else {
                    wanted
                },
                None => measures.compositor_size,
            })
            &&& window.resized(measures).current_size == size
            &&& window.resized(measures).requested_size is None
            &&& window.resized(measures).will_repaint == window.will_repaint
            &&& window.resized(measures).configured == window.configured
            &&& window.resized(measures).pending_frame_callback == window.pending_frame_callback
        }),
{
}

/// Whatever is done with a window leaves the other windows alone.
pub proof fn law_other_windows_are_left_alone(
    windows: Map<u64, WaylandWindowState>,
    action: WindowAction,
    id: SurfaceId,
    other: SurfaceId,
    measures: Measures,
)
    requires
        other != id,
    ensures
        lookup(ran(windows, action, id, measures).0, other) == lookup(windows, other),
{
}

/// What an action on a window comes to: a window that is not there can only be created, and creating
/// one that is there keeps it. A resized window is painted and as large as is told; a closed one is
/// gone, its seat is told, and the last one stops the loop.
pub proof fn law_actions_reach_their_window(
    windows: Map<u64, WaylandWindowState>,
    action: WindowAction,
    id: SurfaceId,
    measures: Measures,
)
    ensures
        ({
            let (after, outcome) = ran(windows, action, id, measures);
            let found = lookup(windows, id);
            &&& outcome == WindowOutcome::Gone <==> found is None && !(action is Create)
            &&& outcome == WindowOutcome::Gone ==> after == windows
            &&& action matches WindowAction::Create(state) ==> outcome == WindowOutcome::Connected
                && lookup(after, id) == Some(
                match found {
                    Some(window) => window,
                    None => state,
                },
            )
            &&& found matches Some(window) ==> {
                &&& action is ResizeRequested ==> (outcome matches WindowOutcome::Resized {
                    size,
                    paint,
                } && {
                    &&& size == window.properties.next_size(measures)
                    &&& lookup(after, id)->0.properties.current_size == size
                    &&& paint.paint == window.properties.configured
                    &&& lookup(after, id)->0.text_input_seat == window.text_input_seat
                })
                &&& action is AnimationRequested ==> (outcome matches WindowOutcome::Painted(paint)
                    && paint.paint == (window.properties.configured
                    && window.properties.will_repaint))
                &&& action is Close ==> lookup(after, id) is None && (
                outcome matches WindowOutcome::Closed { seat, stop } && seat
                    == window.text_input_seat && (stop <==> forall|surface: u64|
                    surface == id.0 || !#[trigger] windows.dom().contains(surface)))
                &&& action is TextField ==> after == windows && (match window.text_input_seat {
                    Some(seat) => outcome == WindowOutcome::FollowTextField(seat),
                    None => outcome == WindowOutcome::NotFocused,
                })
            }
        }),
{
    let rest = windows.remove(id.0);
    if forall|surface: u64| surface == id.0 || !#[trigger] windows.dom().contains(surface) {
        assert(rest =~= Map::<u64, WaylandWindowState>::empty());
    } else {
        let surface = choose|surface: u64|
            surface != id.0 && #[trigger] windows.dom().contains(surface);
        assert(rest.dom().contains(surface));
        assert(!Map::<u64, WaylandWindowState>::empty().dom().contains(surface));
    }
}

/// Idle actions are run in turn until there is none: callbacks always, and tokens for windows that
/// are still there.
pub proof fn law_idle_tokens_need_their_window(
    windows: Map<u64, WaylandWindowState>,
    poll: IdlePoll,
)
    ensures
        idle_step_for(windows, poll) == IdleStep::Wait <==> poll == IdlePoll::Empty,
        poll matches IdlePoll::Ready(IdleAction::Callback(number)) ==> idle_step_for(windows, poll)
            == IdleStep::RunCallback(number),
        poll matches IdlePoll::Ready(IdleAction::Token(window, token)) ==> {
            &&& windows.dom().contains(window.0) ==> idle_step_for(windows, poll) == IdleStep::Idle(
                window,
                token,
            )
            &&& !windows.dom().contains(window.0) ==> idle_step_for(windows, poll) == IdleStep::Skip
        },
{
}

/// No two states are asked for in the same way, and only the minimized one cannot be undone. The
/// server draws a title bar that is shown, and none otherwise.
pub proof fn law_states_are_asked_for(first: WindowState, second: WindowState, shown: bool)
    ensures
        request_for(first) == request_for(second) <==> first == second,
        request_for(first) == StateRequest::SetMaximized <==> first == WindowState::Maximized,
        request_for(first) == StateRequest::SetMinimized <==> first == WindowState::Minimized,
        decoration_for(shown) == DecorationMode::Server <==> shown,
{
}

/// The timer that a window is told of, if it still exists.
pub open spec fn due_for(
    windows: Map<u64, WaylandWindowState>,
    id: SurfaceId,
    token: TimerToken,
) -> Option<TimerToken> {
    if lookup(windows, id) is Some {
        Some(token)
    } else {
        None
    }
}

/// A window that exists is told of its own timer, and one that is gone of none.
pub proof fn law_timers_reach_their_windows(
    windows: Map<u64, WaylandWindowState>,
    id: SurfaceId,
    token: TimerToken,
)
    ensures
        due_for(windows, id, token) == Some(token) <==> windows.dom().contains(id.0),
        due_for(windows, id, token) is Some ==> due_for(windows, id, token)->0 == token,
{
}

impl WindowProperties {
    /// A configuration replaces the one before and leaves the rest.
    pub proof fn law_last_configuration_counts(self, first: WindowConfigure, second: WindowConfigure)
        ensures
            self.with_configuration(first).configure == Some(first),
            self.with_configuration(first).with_configuration(second) == self.with_configuration(second),
            self.with_configuration(first).current_size == self.current_size,
            self.with_configuration(first).requested_size == self.requested_size,
            self.with_configuration(first).current_scale == self.current_scale,
            self.with_configuration(first).configured == self.configured,
    {
    }

    /// A new window wants the size that was asked for, and is not drawn before it is configured.
    pub proof fn law_new_windows_wait_to_be_configured(requested_size: Option<DpSize>)
        ensures
            !Self::unconfigured(requested_size).configured,
            Self::unconfigured(requested_size).configure is None,
            Self::unconfigured(requested_size).requested_size == requested_size,
            !Self::unconfigured(requested_size).will_repaint,
            !Self::unconfigured(requested_size).pending_frame_callback,
            Self::unconfigured(requested_size).current_scale == UNSCALED,
    {
    }
}

} // verus!
