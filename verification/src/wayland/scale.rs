//! The scale of windows, as compositors ask for it in several ways, and when windows are painted.

use std::collections::HashMap;

use vstd::prelude::*;
use vstd::std_specs::hash::*;

use crate::wayland::outputs::{MonitorId, Outputs};
use crate::wayland::window::PaintContext;
use crate::window::{WindowDescription, WindowId};

verus! {

/// Fractional scales are multiples of one part in this many.
pub const FRACTIONAL_DENOMINATOR: i32 = 120;

/// A scale, and how the compositor asked for it.
#[derive(Clone, Copy, Debug, PartialEq, Eq, Structural)]
pub enum ScaleSource {
    /// Stored as a multiple of 120ths of the 'actual' scale.
    ///
    /// This avoids doing floating point comparisons
    Fractional(u32),
    Buffer(i32),
    /// The compositor did not ask for a scale, so it is that of the monitors.
    Fallback(i32),
}

impl ScaleSource {
    /// The scale, in 120ths.
    pub open spec fn parts(self) -> int {
        match self {
            ScaleSource::Fractional(parts) => parts as int,
            ScaleSource::Buffer(scale) | ScaleSource::Fallback(scale) => scale
                * FRACTIONAL_DENOMINATOR,
        }
    }

    /// Whether the scale is one that makes sense.
    pub open spec fn is_sensible(self) -> bool {
        i32::MIN <= self.parts() <= i32::MAX
    }

    /// The scale, in 120ths.
    pub fn normalise(&self) -> (parts: i32)
        requires
            self.is_sensible(),
        ensures
            parts == self.parts(),
    {
        match *self {
            ScaleSource::Fractional(parts) => parts as i32,
            ScaleSource::Buffer(scale) => scale * FRACTIONAL_DENOMINATOR,
            ScaleSource::Fallback(scale) => scale * FRACTIONAL_DENOMINATOR,
        }
    }

    /// Whether two scales are the same, however the compositor asked for them.
    pub fn equal(&self, other: &Self) -> (equal: bool)
        requires
            self.is_sensible(),
            other.is_sensible(),
        ensures
            equal == (self.parts() == other.parts()),
    {
        self.normalise() == other.normalise()
    }

    /// Whether the scale has to follow the monitors.
    pub fn needs_fallback(&self) -> (needs: bool)
        ensures
            needs == (*self is Fallback),
    {
        match self {
            ScaleSource::Fractional(_) => false,
            ScaleSource::Buffer(_) => false,
            ScaleSource::Fallback(_) => true,
        }
    }

    /// How precise a way of asking for a scale is.
    pub open spec fn rank(self) -> int {
        match self {
            ScaleSource::Fractional(_) => 2,
            ScaleSource::Buffer(_) => 1,
            ScaleSource::Fallback(_) => 0,
        }
    }

    /// The scale that was asked for in the more precise way; of two that were asked for in the same
    /// way, the newer.
    pub open spec fn preferred(old: Self, new: Self) -> Self {
        if new.rank() >= old.rank() {
            new
        } else {
            old
        }
    }

    /// The scale that was asked for in the more precise way; of two that were asked for in the same
    /// way, the newer. One of them has to come from the compositor.
    pub fn better(old: &Self, new: &Self) -> (better: Self)
        requires
            !(*old is Fallback && *new is Fallback),
        ensures
            better == Self::preferred(*old, *new),
    {
        match *new {
            ScaleSource::Fractional(_) => *new,
            ScaleSource::Buffer(_) => match *old {
                ScaleSource::Fractional(_) => *old,
                _ => *new,
            },
            ScaleSource::Fallback(_) => *old,
        }
    }
}

/// The preferred of two scales is one of them, and neither was asked for in a more precise way.
pub proof fn law_preferred_scale(old: ScaleSource, new: ScaleSource)
    ensures
        ScaleSource::preferred(old, new) == old || ScaleSource::preferred(old, new) == new,
        ScaleSource::preferred(old, new).rank() >= old.rank(),
        ScaleSource::preferred(old, new).rank() >= new.rank(),
{
}

/// What painting comes to.
#[derive(Clone, Copy, Debug, PartialEq, Eq, Structural)]
pub enum Painting {
    /// Nothing is painted now.
    Later,
    /// The window is painted; a frame callback has to be requested before, if there is none.
    Now { request_frame: bool },
}

/// The state of a window.
#[derive(Debug)]
pub struct PerWindowState {
    /// Whether the window should be resizable.
    pub resizable: bool,
    /// The scale requested by the app, as the bits of a double
    pub app_requested_scale: Option<u64>,
    /// The monitors this window is located within
    pub monitors: Vec<MonitorId>,
    /// Whether a `frame` callback is currently active
    ///
    /// ## Context
    /// Wayland requires frame (repainting) callbacks be requested *before* running commit.
    /// However, user code controls when commit is called (generally through calling
    /// wgpu's `present`). Generally, this would mean we would need to know whether the hint
    /// needed to be requested *before* drawing the previous frame, which isn't ideal.
    /// Instead, we follow this procedure:
    /// - Always request a throttling hint before `paint`ing
    /// - Only `paint` in response to that hint *if* the app requested to be redrawn
    /// - `paint` in response to an app request to redraw *only* if there is no running hint
    pub pending_frame_callback: bool,
    /// Whether an (app launched) repaint request will be sent when the latest callback comes
    pub will_repaint: bool,
    /// We can't draw until the initial configure is complete
    pub initial_configure_complete: bool,
    pub platform_requested_scale: Option<ScaleSource>,
    pub is_closing: bool,
}

impl PerWindowState {
    pub fn new(resizable: bool) -> (window: PerWindowState)
        ensures
            window.resizable == resizable,
            window.app_requested_scale is None,
            window.monitors@.len() == 0,
            !window.pending_frame_callback,
            !window.will_repaint,
            !window.initial_configure_complete,
            window.platform_requested_scale is None,
            !window.is_closing,
    {
        PerWindowState {
            resizable,
            app_requested_scale: None,
            monitors: Vec::new(),
            pending_frame_callback: false,
            will_repaint: false,
            initial_configure_complete: false,
            platform_requested_scale: None,
            is_closing: false,
        }
    }

    /// Every monitor that the window is on is known, and its scales make sense.
    pub open spec fn fits(self, outputs: Outputs) -> bool {
        &&& forall|i: int|
            0 <= i < self.monitors@.len() ==> outputs.data().dom().contains(
                (#[trigger] self.monitors@[i]).0,
            )
        &&& self.platform_requested_scale matches Some(scale) ==> scale.is_sensible()
    }

    /// Whether a frame callback is active, as far as the context tells.
    pub open spec fn in_flight(self, context: PaintContext) -> bool {
        self.pending_frame_callback && context != PaintContext::Frame
    }

    /// Whether the window is painted.
    pub open spec fn paints(self, context: PaintContext, force: bool) -> bool {
        &&& self.initial_configure_complete
        &&& self.will_repaint || force
        &&& context == PaintContext::Requested && self.pending_frame_callback ==> force
    }

    /// The window after it was painted or not, and what painting comes to.
    pub open spec fn painted(self, context: PaintContext, force: bool) -> (
        PerWindowState,
        Painting,
    ) {
        let paints = self.paints(context, force);
        (
            PerWindowState {
                pending_frame_callback: paints || self.in_flight(context),
                will_repaint: self.will_repaint && !paints,
                ..self
            },
            if paints {
                Painting::Now { request_frame: !self.in_flight(context) }
            } else {
                Painting::Later
            },
        )
    }

    /// Request that the application paint the window
    pub fn do_paint(&mut self, context: PaintContext, force: bool) -> (painting: Painting)
        ensures
            (*final(self), painting) == old(self).painted(context, force),
    {
        if context == PaintContext::Frame {
            self.pending_frame_callback = false;
        }
        if context == PaintContext::Requested && self.pending_frame_callback && !force {
            // This is handled in the frame callback, when that occurs, which respects throttling.
            return Painting::Later;
        }
        if !self.initial_configure_complete || (!self.will_repaint && !force) {
            return Painting::Later;
        }
        self.will_repaint = false;
        if !self.pending_frame_callback {
            self.pending_frame_callback = true;
            Painting::Now { request_frame: true }
        } else {
            Painting::Now { request_frame: false }
        }
    }

    /// The scale that the monitors of the window give, if the window has to follow them, and it is
    /// another one than before.
    pub open spec fn fallback_change(self, monitors: Seq<MonitorId>, outputs: Outputs) -> Option<
        ScaleSource,
    > {
        let scale = ScaleSource::Fallback(outputs.fallback_scale(monitors) as i32);
        match self.platform_requested_scale {
            Some(existing) if existing is Fallback && existing.parts() != scale.parts() => Some(
                scale,
            ),
            _ => None,
        }
    }

    /// The scale of the monitors, where the window follows them.
    pub open spec fn followed(self, monitors: Seq<MonitorId>, outputs: Outputs) -> Option<
        ScaleSource,
    > {
        match self.platform_requested_scale {
            Some(existing) if existing is Fallback => Some(
                ScaleSource::Fallback(outputs.fallback_scale(monitors) as i32),
            ),
            requested => requested,
        }
    }

    /// Follows the monitors of the window. Returns the scale to propose to the application, if it
    /// changed.
    pub fn did_fallback_scale_change(&mut self, outputs: &Outputs) -> (proposed: Option<
        ScaleSource,
    >)
        requires
            old(self).fits(*outputs),
            ScaleSource::Fallback(
                outputs.fallback_scale(old(self).monitors@) as i32,
            ).is_sensible(),
        ensures
            proposed == old(self).fallback_change(old(self).monitors@, *outputs),
            *final(self) == (PerWindowState {
                platform_requested_scale: old(self).followed(old(self).monitors@, *outputs),
                ..*old(self)
            }),
    {
        // Without an existing scale, the fallback was not requested yet.
        if let Some(existing) = self.platform_requested_scale {
            if existing.needs_fallback() {
                let new_factor = ScaleSource::Fallback(outputs.max_integer_scale(&self.monitors));
                let was_same = new_factor.equal(&existing);
                self.platform_requested_scale = Some(new_factor);
                if !was_same {
                    return Some(new_factor);
                }
            }
        }
        None
    }

    /// The window is on another monitor. Returns the scale to propose to the application, if it
    /// changed. A window that is closing takes no part any more.
    pub fn surface_entered(&mut self, monitor: Option<MonitorId>, outputs: &Outputs) -> (proposed:
        Option<ScaleSource>)
        requires
            old(self).fits(*outputs),
            monitor matches Some(monitor) ==> outputs.data().dom().contains(monitor.0)
                && ScaleSource::Fallback(
                outputs.fallback_scale(old(self).monitors@.push(monitor)) as i32,
            ).is_sensible(),
        ensures
            old(self).on_monitor(monitor, *outputs, *final(self), proposed),
    {
        if self.is_closing {
            return None;
        }
        match monitor {
            None => None,
            Some(monitor) => {
                self.monitors.push(monitor);
                self.did_fallback_scale_change(outputs)
            },
        }
    }

    /// The window is no longer on a monitor. Returns the scale to propose to the application, if it
    /// changed. A window that is closing takes no part any more.
    pub fn surface_left(&mut self, monitor: Option<MonitorId>, outputs: &Outputs) -> (proposed:
        Option<ScaleSource>)
        requires
            old(self).fits(*outputs),
            monitor matches Some(monitor) ==> ScaleSource::Fallback(
                outputs.fallback_scale(without(old(self).monitors@, monitor)) as i32,
            ).is_sensible(),
        ensures
            old(self).off_monitor(monitor, *outputs, *final(self), proposed),
    {
        if self.is_closing {
            return None;
        }
        match monitor {
            None => None,
            Some(monitor) => {
                let existing_len: usize = self.monitors.len();
                let kept = keep_others(&self.monitors, monitor);
                proof {
                    lemma_without(self.monitors@, monitor);
                }
                self.monitors = kept;
                if self.monitors.len() == existing_len {
                    return None;
                }
                self.did_fallback_scale_change(outputs)
            },
        }
    }

    /// The scale to propose when the compositor asks for one.
    pub open spec fn proposal(self, source: ScaleSource) -> Option<ScaleSource> {
        match self.platform_requested_scale {
            None => Some(source),
            Some(existing) => {
                let new = ScaleSource::preferred(existing, source);
                if existing.parts() == new.parts() {
                    None
                } else {
                    Some(new)
                }
            },
        }
    }

    /// The scale that is requested once the compositor asks for one: the better of the two. A
    /// window that got one no longer follows its monitors.
    pub open spec fn requested_after(self, source: ScaleSource) -> ScaleSource {
        match self.platform_requested_scale {
            None => source,
            Some(existing) => ScaleSource::preferred(existing, source),
        }
    }

    /// The compositor asks for a scale. Returns the scale to propose to the application, if there
    /// is anything new to propose.
    pub fn preferred_scale(&mut self, source: ScaleSource) -> (proposed: Option<ScaleSource>)
        requires
            !(source is Fallback),
            source.is_sensible(),
            old(self).platform_requested_scale matches Some(scale) ==> scale.is_sensible(),
        ensures
            old(self).scale_asked(source, *final(self), proposed),
    {
        if self.is_closing {
            return None;
        }
        match self.platform_requested_scale {
            Some(existing) => {
                let new = ScaleSource::better(&existing, &source);
                self.platform_requested_scale = Some(new);
                if existing.equal(&new) {
                    None
                } else {
                    Some(new)
                }
            },
            None => {
                self.platform_requested_scale = Some(source);
                Some(source)
            },
        }
    }

    /// The window once it is configured, and the scale that is proposed.
    pub open spec fn configured(self, outputs: Outputs) -> (PerWindowState, Option<ScaleSource>) {
        let fallback = Some(
            ScaleSource::Fallback(outputs.fallback_scale(self.monitors@) as i32),
        );
        if self.is_closing {
            (self, None)
        } else if self.platform_requested_scale is None {
            (
                PerWindowState {
                    initial_configure_complete: true,
                    platform_requested_scale: fallback,
                    ..self
                },
                fallback,
            )
        } else {
            (PerWindowState { initial_configure_complete: true, ..self }, None)
        }
    }

    /// The compositor has finished configuring the window. Returns the scale to propose to the
    /// application, if no scale was requested yet.
    pub fn configure(&mut self, outputs: &Outputs) -> (proposed: Option<ScaleSource>)
        requires
            old(self).fits(*outputs),
        ensures
            (*final(self), proposed) == old(self).configured(*outputs),
    {
        if self.is_closing {
            return None;
        }
        if !self.initial_configure_complete {
            self.initial_configure_complete = true;
        }
        if self.platform_requested_scale.is_none() {
            let new_factor = ScaleSource::Fallback(outputs.max_integer_scale(&self.monitors));
            self.platform_requested_scale = Some(new_factor);
            return Some(new_factor);
        }
        None
    }

    /// Whether a configuration is acknowledged, once the application was told of the scale.
    pub fn acknowledges(&self) -> (yes: bool)
        ensures
            yes == !self.is_closing,
    {
        !self.is_closing
    }
}

/// The monitors but one.
pub open spec fn without(monitors: Seq<MonitorId>, monitor: MonitorId) -> Seq<MonitorId> {
    monitors.filter(|other: MonitorId| other != monitor)
}

/// The monitors but one, in order.
fn keep_others(monitors: &Vec<MonitorId>, monitor: MonitorId) -> (kept: Vec<MonitorId>)
    ensures
        kept@ == without(monitors@, monitor),
{
    let mut kept: Vec<MonitorId> = Vec::new();
    let mut i: usize = 0;
    proof {
        reveal(Seq::filter);
        assert(monitors@.take(0) =~= Seq::<MonitorId>::empty());
    }
    while i < monitors.len()
        invariant
            i <= monitors@.len(),
            kept@ == without(monitors@.take(i as int), monitor),
        decreases monitors.len() - i,
    {
        proof {
            reveal(Seq::filter);
            assert(monitors@.take(i as int + 1).drop_last() =~= monitors@.take(i as int));
        }
        if monitors[i] != monitor {
            kept.push(monitors[i]);
        }
        i += 1;
    }
    assert(monitors@.take(i as int) =~= monitors@);
    kept
}

/// Leaving out a monitor makes the list shorter just if it was there, and adds none.
proof fn lemma_without(monitors: Seq<MonitorId>, monitor: MonitorId)
    ensures
        without(monitors, monitor).len() <= monitors.len(),
        (without(monitors, monitor).len() == monitors.len()) == !monitors.contains(monitor),
        !monitors.contains(monitor) ==> without(monitors, monitor) == monitors,
        forall|i: int|
            0 <= i < without(monitors, monitor).len() ==> monitors.contains(
                #[trigger] without(monitors, monitor)[i],
            ),
    decreases monitors.len(),
{
    reveal(Seq::filter);
    if monitors.len() > 0 {
        let others = monitors.drop_last();
        lemma_without(others, monitor);
        assert(monitors =~= others.push(monitors.last()));
        assert(monitors.contains(monitor) == (others.contains(monitor) || monitors.last()
            == monitor)) by {
            if others.contains(monitor) {
                let i = choose|i: int| 0 <= i < others.len() && others[i] == monitor;
                assert(monitors[i] == monitor);
            }
            if monitors.last() == monitor {
                assert(monitors[monitors.len() - 1] == monitor);
            }
            if monitors.contains(monitor) {
                let i = choose|i: int| 0 <= i < monitors.len() && monitors[i] == monitor;
                if i < others.len() {
                    assert(others[i] == monitor);
                }
            }
        }
        assert forall|i: int| 0 <= i < without(monitors, monitor).len() implies monitors.contains(
            #[trigger] without(monitors, monitor)[i],
        ) by {
            if i < without(others, monitor).len() {
                let kept = without(others, monitor)[i];
                assert(without(monitors, monitor)[i] == kept);
                let j = choose|j: int| 0 <= j < others.len() && others[j] == kept;
                assert(monitors[j] == kept);
            } else {
                assert(without(monitors, monitor)[i] == monitors[monitors.len() - 1]);
            }
        }
    }
}

/// A window that entered a monitor it was not on, and left it again, has the scale that it had.
pub proof fn law_leaving_undoes_entering(
    window: PerWindowState,
    monitor: MonitorId,
    outputs: Outputs,
)
    requires
        !window.monitors@.contains(monitor),
    ensures
        without(window.monitors@.push(monitor), monitor) == window.monitors@,
        window.followed(without(window.monitors@.push(monitor), monitor), outputs)
            == window.followed(window.monitors@, outputs),
{
    reveal(Seq::filter);
    lemma_without(window.monitors@, monitor);
    assert(window.monitors@.push(monitor).drop_last() =~= window.monitors@);
}

/// A compositor that says which scale it wants has it kept: whatever monitors the window is on later,
/// their scale is neither proposed nor kept instead.
pub proof fn law_requested_scale_ends_the_fallback(
    window: PerWindowState,
    source: ScaleSource,
    monitors: Seq<MonitorId>,
    outputs: Outputs,
)
    requires
        !(source is Fallback),
    ensures
        ({
            let kept = Some(window.requested_after(source));
            let asked = PerWindowState { platform_requested_scale: kept, ..window };
            &&& asked.fallback_change(monitors, outputs) is None
            &&& asked.followed(monitors, outputs) == kept
        }),
{
}

/// A repaint that was requested happens at once, or in the frame callback that is active, once the
/// window is configured.
pub proof fn law_requested_repaint_happens(window: PerWindowState)
    requires
        window.initial_configure_complete,
        window.will_repaint,
    ensures
        window.paints(PaintContext::Requested, false) || window.pending_frame_callback,
        window.paints(PaintContext::Frame, false),
{
}

/// The windows that there are.
#[derive(Debug)]
pub struct Windowing {
    windows: HashMap<u64, PerWindowState>,
}

impl View for Windowing {
    type V = Map<u64, PerWindowState>;

    closed spec fn view(&self) -> Map<u64, PerWindowState> {
        self.windows@
    }
}

impl Windowing {
    pub fn new() -> (windowing: Windowing)
        ensures
            windowing@ == Map::<u64, PerWindowState>::empty(),
    {
        broadcast use vstd::std_specs::hash::group_hash_axioms;

        Windowing { windows: HashMap::new() }
    }

    /// Starts to keep track of a window, under the identifier that it has.
    pub fn new_window(&mut self, desc: &WindowDescription, id: WindowId)
        ensures
            final(self)@.dom() == old(self)@.dom().insert(id.number()),
            forall|other: u64|
                other != id.number() ==> #[trigger] final(self)@[other] == old(self)@[other],
            ({
                let window = final(self)@[id.number()];
                &&& window.resizable == desc.resizable
                &&& window.app_requested_scale is None
                &&& window.monitors@.len() == 0
                &&& !window.pending_frame_callback
                &&& !window.will_repaint
                &&& !window.initial_configure_complete
                &&& window.platform_requested_scale is None
                &&& !window.is_closing
            }),
    {
        broadcast use vstd::std_specs::hash::group_hash_axioms;

        self.windows.insert(id.to_raw(), PerWindowState::new(desc.resizable));
        assert(self@.dom() =~= old(self)@.dom().insert(id.number()));
    }

    /// The application wants a scale for a window, as the bits of a double. Returns whether there is
    /// such a window.
    pub fn set_window_scale(&mut self, win: WindowId, scale: u64) -> (known: bool)
        ensures
            known == old(self)@.dom().contains(win.number()),
            final(self)@ == with_app_scale(old(self)@, win, scale),
    {
        broadcast use vstd::std_specs::hash::group_hash_axioms;

        match self.windows.remove(&win.to_raw()) {
            None => {
                assert(self@ =~= old(self)@);
                false
            },
            Some(mut window) => {
                window.app_requested_scale = Some(scale);
                self.windows.insert(win.to_raw(), window);
                assert(self@ =~= old(self)@.insert(
                    win.number(),
                    PerWindowState {
                        app_requested_scale: Some(scale),
                        ..old(self)@[win.number()]
                    },
                ));
                true
            },
        }
    }
}

/// What the compositor can do with a window.
#[derive(Clone, Copy, Debug, PartialEq, Eq, Structural)]
pub struct WindowManagerCapabilities {
    pub window_menu: bool,
    pub maximize: bool,
    pub fullscreen: bool,
    pub minimize: bool,
}

/// The number at a place of four bytes.
pub open spec fn word(bytes: Seq<u8>, place: int, little_endian: bool) -> int {
    let start = 4 * place;
    if little_endian {
        bytes[start] + 0x100 * bytes[start + 1] + 0x1_0000 * bytes[start + 2] + 0x100_0000
            * bytes[start + 3]
    } else {
        0x100_0000 * bytes[start] + 0x1_0000 * bytes[start + 1] + 0x100 * bytes[start + 2]
            + bytes[start + 3]
    }
}

/// Whether a list of numbers of four bytes each holds a number.
pub open spec fn lists(bytes: Seq<u8>, little_endian: bool, number: int) -> bool {
    exists|place: int|
        0 <= place < bytes.len() / 4 && #[trigger] word(bytes, place, little_endian) == number
}

/// What a list of numbers says that the compositor can do.
pub open spec fn capabilities_in(
    bytes: Seq<u8>,
    little_endian: bool,
) -> WindowManagerCapabilities {
    WindowManagerCapabilities {
        window_menu: lists(bytes, little_endian, 1),
        maximize: lists(bytes, little_endian, 2),
        fullscreen: lists(bytes, little_endian, 3),
        minimize: lists(bytes, little_endian, 4),
    }
}

/// Whether the first of the numbers are enough to find one.
pub open spec fn lists_among(bytes: Seq<u8>, little_endian: bool, count: int, number: int) -> bool {
    exists|place: int|
        0 <= place < count && #[trigger] word(bytes, place, little_endian) == number
}

/// Reads what the compositor can do with a window, from a list of numbers of four bytes each, in
/// the byte order of the machine. Numbers that are not known, and bytes left over at the end, are
/// left out of account.
pub fn wm_capabilities(bytes: &[u8], little_endian: bool) -> (capabilities:
    WindowManagerCapabilities)
    ensures
        capabilities == capabilities_in(bytes@, little_endian),
{
    let mut capabilities = WindowManagerCapabilities {
        window_menu: false,
        maximize: false,
        fullscreen: false,
        minimize: false,
    };
    let len: usize = bytes.len();
    let count: usize = len / 4;
    let mut place: usize = 0;
    while place < count
        invariant
            place <= count,
            len == bytes@.len(),
            count == len / 4,
            capabilities == (WindowManagerCapabilities {
                window_menu: lists_among(bytes@, little_endian, place as int, 1),
                maximize: lists_among(bytes@, little_endian, place as int, 2),
                fullscreen: lists_among(bytes@, little_endian, place as int, 3),
                minimize: lists_among(bytes@, little_endian, place as int, 4),
            }),
        decreases count - place,
    {
        let first: u32 = bytes[4 * place] as u32;
        let second: u32 = bytes[4 * place + 1] as u32;
        let third: u32 = bytes[4 * place + 2] as u32;
        let fourth: u32 = bytes[4 * place + 3] as u32;
        let number: u32 = if little_endian {
            first + 0x100 * second + 0x1_0000 * third + 0x100_0000 * fourth
        } else {
            0x100_0000 * first + 0x1_0000 * second + 0x100 * third + fourth
        };
        proof {
            assert(number == word(bytes@, place as int, little_endian));
            assert forall|value: int| lists_among(bytes@, little_endian, place + 1, value) == (
            lists_among(bytes@, little_endian, place as int, value) || number == value) by {
                if lists_among(bytes@, little_endian, place as int, value) {
                    let at = choose|at: int|
                        0 <= at < place && #[trigger] word(bytes@, at, little_endian) == value;
                    assert(0 <= at < place + 1);
                }
            }
        }
        if number == 1 {
            capabilities.window_menu = true;
        } else if number == 2 {
            capabilities.maximize = true;
        } else if number == 3 {
            capabilities.fullscreen = true;
        } else if number == 4 {
            capabilities.minimize = true;
        }
        place += 1;
    }
    capabilities
}

/// A scale is the same however it was asked for: a whole scale is 120 parts for each unit, and the
/// parts of a fractional one are what was asked for.
pub proof fn law_scales_are_counted_in_parts(scale: i32, parts: u32)
    ensures
        ScaleSource::Buffer(scale).parts() == ScaleSource::Fallback(scale).parts(),
        ScaleSource::Buffer(scale).parts() == 120 * scale,
        ScaleSource::Fractional(parts).parts() == parts,
        parts == 120 * scale ==> ScaleSource::Fractional(parts).parts() == ScaleSource::Buffer(
            scale,
        ).parts(),
{
}

/// A fractional scale is preferred to a whole one, and one that the compositor asks for to that of
/// the monitors, whichever came first; of two that are asked for in the same way, the newer one.
pub proof fn law_precise_scales_are_preferred(
    fraction: u32,
    whole: i32,
    monitors: i32,
    newer: ScaleSource,
    older: ScaleSource,
)
    ensures
        ({
            let fractional = ScaleSource::Fractional(fraction);
            let buffer = ScaleSource::Buffer(whole);
            let fallback = ScaleSource::Fallback(monitors);
            &&& ScaleSource::preferred(fractional, buffer) == fractional && ScaleSource::preferred(
                buffer,
                fractional,
            ) == fractional
            &&& ScaleSource::preferred(buffer, fallback) == buffer && ScaleSource::preferred(
                fallback,
                buffer,
            ) == buffer
            &&& ScaleSource::preferred(fractional, fallback) == fractional
                && ScaleSource::preferred(fallback, fractional) == fractional
        }),
        (newer is Fractional && older is Fractional) || (newer is Buffer && older is Buffer)
            ==> ScaleSource::preferred(older, newer) == newer,
{
}

/// A window is painted unless something stands against it: it is not configured yet, nobody asked,
/// or a frame callback that will paint is under way and painting does not have to be now.
pub proof fn law_painting_waits_for_its_frame(
    window: PerWindowState,
    context: PaintContext,
    force: bool,
)
    ensures
        ({
            let (after, painting) = window.painted(context, force);
            let now = painting is Now;
            &&& !window.initial_configure_complete ==> !now
            &&& !window.will_repaint && !force ==> !now
            &&& context == PaintContext::Requested && window.pending_frame_callback && !force
                ==> !now && after == window
            &&& window.initial_configure_complete && force ==> now
            &&& window.initial_configure_complete && window.will_repaint && (context
                != PaintContext::Requested || !window.pending_frame_callback) ==> now
            &&& now ==> !after.will_repaint && after.pending_frame_callback
            &&& !now ==> after.will_repaint == window.will_repaint
            &&& !now && context == PaintContext::Frame ==> !after.pending_frame_callback
            &&& painting matches Painting::Now { request_frame } ==> (request_frame
                <==> !window.pending_frame_callback || context == PaintContext::Frame)
        }),
{
}

/// The scale of the monitors is proposed only to a window that follows them, only if it is another
/// one, and it is the highest of theirs.
pub proof fn law_windows_follow_their_monitors(
    window: PerWindowState,
    monitors: Seq<MonitorId>,
    outputs: Outputs,
    was: i32,
)
    requires
        i32::MIN <= outputs.fallback_scale(monitors) <= i32::MAX,
    ensures
        ({
            let change = window.fallback_change(monitors, outputs);
            &&& change matches Some(scale) ==> {
                &&& scale is Fallback && scale.parts() == 120 * outputs.fallback_scale(monitors)
                &&& window.followed(monitors, outputs) == Some(scale)
                &&& window.platform_requested_scale != Some(scale)
            }
            &&& window.platform_requested_scale == Some(ScaleSource::Fallback(was)) ==> (
            change is None <==> was == outputs.fallback_scale(monitors))
            &&& window.platform_requested_scale is None ==> change is None && window.followed(
                monitors,
                outputs,
            ) is None
            &&& window.platform_requested_scale matches Some(scale) ==> (!(scale is Fallback)
                ==> change is None && window.followed(monitors, outputs) == Some(scale))
        }),
{
}

/// A window that is configured gets the scale of its monitors if no other was asked for, and is told
/// of it once. One that is closing takes no part.
pub proof fn law_configured_windows_have_a_scale(window: PerWindowState, outputs: Outputs)
    requires
        i32::MIN <= outputs.fallback_scale(window.monitors@) <= i32::MAX,
    ensures
        ({
            let (after, proposed) = window.configured(outputs);
            &&& window.is_closing ==> after == window && proposed is None
            &&& !window.is_closing ==> {
                &&& after.initial_configure_complete
                &&& after.platform_requested_scale is Some
                &&& proposed is Some <==> window.platform_requested_scale is None
                &&& proposed matches Some(scale) ==> after.platform_requested_scale == Some(scale)
                    && scale is Fallback && scale.parts() == 120 * outputs.fallback_scale(
                    window.monitors@,
                )
                &&& window.platform_requested_scale is Some ==> after.platform_requested_scale
                    == window.platform_requested_scale
                &&& after.configured(outputs).1 is None
            }
        }),
{
}

/// What the compositor asks for is proposed exactly if it makes a difference, and is kept.
pub proof fn law_different_scales_are_proposed(window: PerWindowState, source: ScaleSource)
    ensures
        window.platform_requested_scale is None ==> window.proposal(source) == Some(source)
            && window.requested_after(source) == source,
        window.platform_requested_scale matches Some(existing) ==> {
            let kept = window.requested_after(source);
            &&& window.proposal(source) is Some <==> kept.parts() != existing.parts()
            &&& window.proposal(source) matches Some(proposed) ==> proposed == kept
            &&& kept == existing || kept == source
            &&& existing is Fractional && !(source is Fractional) ==> kept == existing
            &&& source is Fractional || (source is Buffer && !(existing is Fractional)) ==> kept
                == source
        },
{
}

/// A number that is added to a list is found in it, in the byte order of the machine, and so is what
/// was in it before; a piece of a number at the end adds nothing.
pub proof fn law_listed_numbers_are_found(bytes: Seq<u8>, added: u8, number: int)
    requires
        bytes.len() % 4 == 0,
    ensures
        lists(bytes + seq![added, 0u8, 0u8, 0u8], true, number) <==> lists(bytes, true, number)
            || number == added,
        lists(bytes + seq![0u8, 0u8, 0u8, added], false, number) <==> lists(bytes, false, number)
            || number == added,
        lists(bytes.push(added), true, number) <==> lists(bytes, true, number),
        !lists(Seq::empty(), true, number) && !lists(Seq::empty(), false, number),
{
    let count = bytes.len() as int / 4;
    let little = bytes + seq![added, 0u8, 0u8, 0u8];
    let big = bytes + seq![0u8, 0u8, 0u8, added];
    let more = bytes.push(added);
    assert(word(little, count, true) == added);
    assert(word(big, count, false) == added);
    assert forall|place: int| 0 <= place < count implies #[trigger] word(little, place, true)
        == word(bytes, place, true) && #[trigger] word(big, place, false) == word(
        bytes,
        place,
        false,
    ) && #[trigger] word(more, place, true) == word(bytes, place, true) by {}
    if lists(bytes, true, number) {
        let place = choose|place: int|
            0 <= place < bytes.len() / 4 && #[trigger] word(bytes, place, true) == number;
        assert(word(little, place, true) == number);
        assert(word(more, place, true) == number);
    }
    if lists(bytes, false, number) {
        let place = choose|place: int|
            0 <= place < bytes.len() / 4 && #[trigger] word(bytes, place, false) == number;
        assert(word(big, place, false) == number);
    }
    if lists(little, true, number) {
        let place = choose|place: int|
            0 <= place < little.len() / 4 && #[trigger] word(little, place, true) == number;
        if place < count {
            assert(word(bytes, place, true) == number);
        }
    }
    if lists(big, false, number) {
        let place = choose|place: int|
            0 <= place < big.len() / 4 && #[trigger] word(big, place, false) == number;
        if place < count {
            assert(word(bytes, place, false) == number);
        }
    }
    if lists(more, true, number) {
        let place = choose|place: int|
            0 <= place < more.len() / 4 && #[trigger] word(more, place, true) == number;
        assert(word(bytes, place, true) == number);
    }
}

/// Each capability has a number of its own, and needs no other.
pub proof fn law_capabilities_have_their_numbers(bytes: Seq<u8>, little_endian: bool)
    ensures
        capabilities_in(bytes, little_endian).window_menu == lists(bytes, little_endian, 1),
        capabilities_in(bytes, little_endian).maximize == lists(bytes, little_endian, 2),
        capabilities_in(bytes, little_endian).fullscreen == lists(bytes, little_endian, 3),
        capabilities_in(bytes, little_endian).minimize == lists(bytes, little_endian, 4),
{
}

impl PerWindowState {
    /// The window once it is on another monitor, and the scale that is proposed to it then.
    pub open spec fn on_monitor(
        self,
        monitor: Option<MonitorId>,
        outputs: Outputs,
        after: PerWindowState,
        proposed: Option<ScaleSource>,
    ) -> bool {
        &&& self.is_closing || monitor is None ==> proposed is None && after == self
        &&& !self.is_closing ==> (monitor matches Some(monitor) ==> {
            let monitors = self.monitors@.push(monitor);
            &&& after.monitors@ == monitors
            &&& proposed == self.fallback_change(monitors, outputs)
            &&& after == (PerWindowState {
                monitors: after.monitors,
                platform_requested_scale: self.followed(monitors, outputs),
                ..self
            })
        })
    }

    /// The window once it is off a monitor, and the scale that is proposed to it then.
    pub open spec fn off_monitor(
        self,
        monitor: Option<MonitorId>,
        outputs: Outputs,
        after: PerWindowState,
        proposed: Option<ScaleSource>,
    ) -> bool {
        &&& self.is_closing || monitor is None ==> proposed is None && after == self
        &&& !self.is_closing ==> (monitor matches Some(monitor) ==> {
            let monitors = without(self.monitors@, monitor);
            let was_on = self.monitors@.contains(monitor);
            &&& after.monitors@ == monitors
            &&& proposed == if was_on {
                self.fallback_change(monitors, outputs)
            } else {
                None
            }
            &&& after == (PerWindowState {
                monitors: after.monitors,
                platform_requested_scale: if was_on {
                    self.followed(monitors, outputs)
                } else {
                    self.platform_requested_scale
                },
                ..self
            })
        })
    }

    /// The window once the compositor asks for a scale, and the scale that is proposed to it then.
    pub open spec fn scale_asked(
        self,
        source: ScaleSource,
        after: PerWindowState,
        proposed: Option<ScaleSource>,
    ) -> bool {
        &&& self.is_closing ==> proposed is None && after == self
        &&& !self.is_closing ==> {
            &&& proposed == self.proposal(source)
            &&& after == (PerWindowState {
                platform_requested_scale: Some(self.requested_after(source)),
                ..self
            })
        }
    }

    /// A window that is closing is not scaled any more, whatever monitors it enters or leaves and
    /// whatever is asked for.
    pub proof fn law_closing_windows_stay_as_they_are(
        self,
        monitor: Option<MonitorId>,
        outputs: Outputs,
        source: ScaleSource,
        after: PerWindowState,
        proposed: Option<ScaleSource>,
    )
        requires
            self.is_closing,
            self.on_monitor(monitor, outputs, after, proposed) || self.off_monitor(
                monitor,
                outputs,
                after,
                proposed,
            ) || self.scale_asked(source, after, proposed),
        ensures
            after == self,
            proposed is None,
    {
    }

    /// A window is on the monitors that it entered and did not leave. One that leaves a monitor that
    /// it was not on is not scaled for it.
    pub proof fn law_windows_know_their_monitors(
        self,
        monitor: MonitorId,
        outputs: Outputs,
        entered: PerWindowState,
        proposed: Option<ScaleSource>,
        left: PerWindowState,
        then_proposed: Option<ScaleSource>,
    )
        requires
            !self.is_closing,
            self.on_monitor(Some(monitor), outputs, entered, proposed),
            self.off_monitor(Some(monitor), outputs, left, then_proposed),
        ensures
            entered.monitors@.contains(monitor),
            entered.monitors@.len() == self.monitors@.len() + 1,
            self.monitors@.is_prefix_of(entered.monitors@),
            !left.monitors@.contains(monitor),
            !self.monitors@.contains(monitor) ==> then_proposed is None
                && left.platform_requested_scale == self.platform_requested_scale,
            entered.app_requested_scale == self.app_requested_scale,
            left.app_requested_scale == self.app_requested_scale,
            entered.will_repaint == self.will_repaint,
            left.will_repaint == self.will_repaint,
    {
        assert(entered.monitors@[entered.monitors@.len() - 1] == monitor);
        lemma_without(self.monitors@, monitor);
    }
}

/// The windows once the application asks for the scale of one of them.
pub open spec fn with_app_scale(
    windows: Map<u64, PerWindowState>,
    win: WindowId,
    scale: u64,
) -> Map<u64, PerWindowState> {
    if windows.dom().contains(win.number()) {
        windows.insert(
            win.number(),
            PerWindowState { app_requested_scale: Some(scale), ..windows[win.number()] },
        )
    } else {
        windows
    }
}

/// A window that exists has the scale that the application asked for last; other windows, and what
/// the platform asked for, are left alone. A window that does not exist does not come to exist.
pub proof fn law_applications_scale_their_windows(
    windows: Map<u64, PerWindowState>,
    win: WindowId,
    scale: u64,
    other: u64,
)
    ensures
        with_app_scale(windows, win, scale).dom() == windows.dom(),
        windows.dom().contains(win.number()) ==> with_app_scale(
            windows,
            win,
            scale,
        )[win.number()].app_requested_scale == Some(scale) && with_app_scale(
            windows,
            win,
            scale,
        )[win.number()].platform_requested_scale == windows[win.number()].platform_requested_scale,
        other != win.number() ==> with_app_scale(windows, win, scale)[other] == windows[other],
{
    assert(with_app_scale(windows, win, scale).dom() =~= windows.dom());
}

} // verus!
