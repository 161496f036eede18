//! Outputs: the monitors that the compositor tells of, and the windows that are on them.

use std::collections::{HashMap, HashSet};

use vstd::prelude::*;
use vstd::std_specs::hash::*;

use crate::window::WindowId;

verus! {

/// The unique identifier of a monitor.
#[derive(Clone, Copy, Debug, PartialEq, Eq, Structural, Hash)]
pub struct MonitorId(pub u64);

/// Names an output object of the protocol.
#[derive(Clone, Copy, Debug, PartialEq, Eq, Structural, Hash)]
pub struct OutputId(pub u64);

/// The only version of outputs that is supported. All known compositors implement it, and it moves
/// the name into core wayland.
pub const OUTPUT_VERSION: u32 = 4;

/// How the pixels of an output are made up.
#[derive(Clone, Copy, Debug, PartialEq, Eq, Structural)]
pub enum Subpixel {
    Unknown,
    /// One of the other layouts, by its number in the protocol.
    Layout(u32),
}

/// How what is shown on an output is turned.
#[derive(Clone, Copy, Debug, PartialEq, Eq, Structural)]
pub enum Transform {
    Normal,
    /// One of the other transforms, by its number in the protocol.
    Turned(u32),
}

/// The size of an output in pixels, and how often it is refreshed.
#[derive(Clone, Copy, Debug, PartialEq, Eq, Structural)]
pub struct Mode {
    pub width: i32,
    pub height: i32,
    pub refresh_rate: i32,
    pub current: bool,
    pub preferred: bool,
}

/// The (non-deprecated) fields of an output, i.e. a display
#[derive(Debug)]
pub struct OutputInfo {
    pub subpixel: Subpixel,
    pub transform: Transform,
    pub scale_factor: i32,
    pub mode: Mode,
    pub logical_x: i32,
    pub logical_y: i32,
    pub logical_width: i32,
    pub logical_height: i32,
    pub name: String,
    pub description: String,
}

/// What is known of an output, with its texts as sequences of characters.
#[verifier::ext_equal]
pub ghost struct Info {
    pub subpixel: Subpixel,
    pub transform: Transform,
    pub scale_factor: i32,
    pub mode: Mode,
    pub logical_x: i32,
    pub logical_y: i32,
    pub logical_width: i32,
    pub logical_height: i32,
    pub name: Seq<char>,
    pub description: Seq<char>,
}

impl View for OutputInfo {
    type V = Info;

    open spec fn view(&self) -> Info {
        Info {
            subpixel: self.subpixel,
            transform: self.transform,
            scale_factor: self.scale_factor,
            mode: self.mode,
            logical_x: self.logical_x,
            logical_y: self.logical_y,
            logical_width: self.logical_width,
            logical_height: self.logical_height,
            name: self.name@,
            description: self.description@,
        }
    }
}

impl OutputInfo {
    /// What is taken to hold before the compositor says anything.
    pub fn new() -> (info: OutputInfo)
        ensures
            info@ == initial_info(),
    {
        let info = OutputInfo {
            subpixel: Subpixel::Unknown,
            transform: Transform::Normal,
            scale_factor: 1,
            mode: Mode { width: 0, height: 0, refresh_rate: 0, current: false, preferred: false },
            logical_x: 0,
            logical_y: 0,
            logical_width: 0,
            logical_height: 0,
            name: String::new(),
            description: String::new(),
        };
        info
    }

    /// The same information again.
    pub fn copy(&self) -> (info: OutputInfo)
        ensures
            info@ == self@,
    {
        OutputInfo {
            subpixel: self.subpixel,
            transform: self.transform,
            scale_factor: self.scale_factor,
            mode: self.mode,
            logical_x: self.logical_x,
            logical_y: self.logical_y,
            logical_width: self.logical_width,
            logical_height: self.logical_height,
            name: self.name.clone(),
            description: self.description.clone(),
        }
    }
}

/// What is taken to hold before the compositor says anything.
pub open spec fn initial_info() -> Info {
    Info {
        subpixel: Subpixel::Unknown,
        transform: Transform::Normal,
        scale_factor: 1,
        mode: Mode { width: 0, height: 0, refresh_rate: 0, current: false, preferred: false },
        logical_x: 0,
        logical_y: 0,
        logical_width: 0,
        logical_height: 0,
        name: Seq::empty(),
        description: Seq::empty(),
    }
}

/// What the compositor says of an output. Values that the protocol does not know are absent.
#[derive(Debug)]
pub enum OutputEvent {
    Geometry { subpixel: Option<Subpixel>, transform: Option<Transform> },
    /// A mode, with its flags, if those are known: whether it is the current one, and whether it is
    /// preferred.
    Mode { known: bool, current: bool, preferred: bool, width: i32, height: i32, refresh: i32 },
    Scale(i32),
    Name(String),
    Description(String),
    LogicalPosition { x: i32, y: i32 },
    LogicalSize { width: i32, height: i32 },
    /// Everything that was said applies from now on, all at once.
    Done,
    /// An event that is deprecated, and left out of account.
    Deprecated,
}

/// What is pending after an event.
pub open spec fn pending_after(pending: Info, event: OutputEvent) -> Info {
    match event {
        OutputEvent::Geometry { subpixel, transform } => Info {
            subpixel: match subpixel {
                Some(subpixel) => subpixel,
                None => pending.subpixel,
            },
            transform: match transform {
                Some(transform) => transform,
                None => pending.transform,
            },
            ..pending
        },
        OutputEvent::Mode { known, current, preferred, width, height, refresh } => if known
            && current {
            Info {
                mode: Mode { width, height, refresh_rate: refresh, current: true, preferred },
                ..pending
            }
        } else {
            pending
        },
        OutputEvent::Scale(factor) => Info { scale_factor: factor, ..pending },
        OutputEvent::Name(name) => Info { name: name@, ..pending },
        OutputEvent::Description(description) => Info { description: description@, ..pending },
        OutputEvent::LogicalPosition { x, y } => Info { logical_x: x, logical_y: y, ..pending },
        OutputEvent::LogicalSize { width, height } => Info {
            logical_width: width,
            logical_height: height,
            ..pending
        },
        OutputEvent::Done | OutputEvent::Deprecated => pending,
    }
}

/// What changed for everyone when the compositor was done.
#[derive(Clone, Copy, Debug, PartialEq, Eq, Structural)]
pub struct OutputChange {
    /// Whether the windows on the output have to follow another scale.
    pub scale_factor_changed: bool,
    /// Whether nothing was known of the output before.
    pub new: bool,
}

/// What changes for everyone when what was pending applies.
pub open spec fn change_between(before: Option<Info>, pending: Info) -> OutputChange {
    OutputChange {
        new: before is None,
        scale_factor_changed: match before {
            None => true,
            Some(info) => info.scale_factor != pending.scale_factor,
        },
    }
}

/// An output.
#[derive(Debug)]
pub struct OutputData {
    pub output: OutputId,
    /// What applies, once the compositor has said everything.
    pub info: Option<OutputInfo>,
    /// What will apply.
    pub pending: OutputInfo,
    /// The windows that are on the output.
    pub windows: HashSet<u64>,
}

/// What applies to an output, if anything does.
pub open spec fn known(info: Option<OutputInfo>) -> Option<Info> {
    match info {
        Some(info) => Some(info@),
        None => None,
    }
}

impl OutputData {
    pub fn new(output: OutputId) -> (data: OutputData)
        ensures
            data.output == output,
            data.info is None,
            data.pending@ == initial_info(),
            data.windows@ == Set::<u64>::empty(),
    {
        broadcast use vstd::std_specs::hash::group_hash_axioms;

        OutputData { output, info: None, pending: OutputInfo::new(), windows: HashSet::new() }
    }

    /// The compositor says something of the output. Only when it is done, that applies.
    pub fn event(&mut self, event: OutputEvent) -> (change: Option<OutputChange>)
        ensures
            final(self).output == old(self).output,
            final(self).windows == old(self).windows,
            final(self).pending@ == pending_after(old(self).pending@, event),
            event !is Done ==> change is None && known(final(self).info) == known(old(self).info),
            event is Done ==> {
                &&& known(final(self).info) == Some(old(self).pending@)
                &&& change == Some(change_between(known(old(self).info), old(self).pending@))
            },
    {
        match event {
            OutputEvent::Geometry { subpixel, transform } => {
                if let Some(subpixel) = subpixel {
                    self.pending.subpixel = subpixel;
                }
                if let Some(transform) = transform {
                    self.pending.transform = transform;
                }
                None
            },
            OutputEvent::Mode { known, current, preferred, width, height, refresh } => {
                if known && current {
                    self.pending.mode = Mode {
                        width,
                        height,
                        refresh_rate: refresh,
                        current,
                        preferred,
                    };
                }
                None
            },
            OutputEvent::Scale(factor) => {
                self.pending.scale_factor = factor;
                None
            },
            OutputEvent::Name(name) => {
                self.pending.name = name;
                None
            },
            OutputEvent::Description(description) => {
                self.pending.description = description;
                None
            },
            OutputEvent::LogicalPosition { x, y } => {
                self.pending.logical_x = x;
                self.pending.logical_y = y;
                None
            },
            OutputEvent::LogicalSize { width, height } => {
                self.pending.logical_width = width;
                self.pending.logical_height = height;
                None
            },
            OutputEvent::Done => {
                let (scale_factor_changed, new) = match &self.info {
                    None => (true, true),
                    Some(old_info) => (
                        old_info.scale_factor != self.pending.scale_factor,
                        false,
                    ),
                };
                self.info = Some(self.pending.copy());
                Some(OutputChange { scale_factor_changed, new })
            },
            OutputEvent::Deprecated => None,
        }
    }
}

/// Everything that is pending after a series of events.
pub open spec fn pending_after_all(pending: Info, events: Seq<OutputEvent>) -> Info
    decreases events.len(),
{
    if events.len() == 0 {
        pending
    } else {
        pending_after(pending_after_all(pending, events.drop_last()), events.last())
    }
}

/// What applies after a series of events.
pub open spec fn known_after_all(start: Option<Info>, pending: Info, events: Seq<OutputEvent>) -> Option<
    Info,
>
    decreases events.len(),
{
    if events.len() == 0 {
        start
    } else if events.last() is Done {
        Some(pending_after_all(pending, events.drop_last()))
    } else {
        known_after_all(start, pending, events.drop_last())
    }
}

/// Updates are atomic: while the compositor is not done, nothing that it says applies.
pub proof fn law_updates_are_atomic(start: Option<Info>, pending: Info, events: Seq<OutputEvent>)
    requires
        forall|i: int| 0 <= i < events.len() ==> !(#[trigger] events[i] is Done),
    ensures
        known_after_all(start, pending, events) == start,
        known_after_all(start, pending, events.push(OutputEvent::Done)) == Some(
            pending_after_all(pending, events),
        ),
    decreases events.len(),
{
    if events.len() > 0 {
        law_updates_are_atomic(start, pending, events.drop_last());
    }
    assert(events.push(OutputEvent::Done).drop_last() =~= events);
}

/// The outputs that there are.
#[derive(Debug)]
pub struct Outputs {
    outputs: HashMap<u64, OutputData>,
    output_to_monitor: HashMap<u64, u64>,
    global_name_to_monitor: HashMap<u64, u64>,
}

impl Outputs {
    /// The outputs, by monitor.
    pub closed spec fn data(self) -> Map<u64, OutputData> {
        self.outputs@
    }

    /// The monitor of each output object.
    pub closed spec fn by_output(self) -> Map<u64, u64> {
        self.output_to_monitor@
    }

    /// The monitor of each global of the registry.
    pub closed spec fn by_name(self) -> Map<u64, u64> {
        self.global_name_to_monitor@
    }

    /// Every monitor that can be found is there, under the output that leads to it.
    pub open spec fn wf(self) -> bool {
        &&& forall|output: u64| #[trigger]
            self.by_output().dom().contains(output) ==> self.data().dom().contains(
                self.by_output()[output],
            ) && self.data()[self.by_output()[output]].output.0 == output
        &&& forall|name: u64| #[trigger]
            self.by_name().dom().contains(name) ==> self.data().dom().contains(
                self.by_name()[name],
            )
        &&& forall|first: u64, second: u64|
            #![trigger self.by_name()[first], self.by_name()[second]]
            self.by_name().dom().contains(first) && self.by_name().dom().contains(second)
                && self.by_name()[first] == self.by_name()[second] ==> first == second
    }

    pub fn new() -> (outputs: Outputs)
        ensures
            outputs.wf(),
            outputs.data() == Map::<u64, OutputData>::empty(),
            outputs.by_output() == Map::<u64, u64>::empty(),
            outputs.by_name() == Map::<u64, u64>::empty(),
    {
        broadcast use vstd::std_specs::hash::group_hash_axioms;

        Outputs {
            outputs: HashMap::new(),
            output_to_monitor: HashMap::new(),
            global_name_to_monitor: HashMap::new(),
        }
    }

    /// Starts to keep track of an output, under a monitor that is new.
    pub fn setup(&mut self, monitor: MonitorId, output: OutputId, name: u32)
        requires
            old(self).wf(),
            !old(self).data().dom().contains(monitor.0),
            !old(self).by_output().dom().contains(output.0),
        ensures
            final(self).wf(),
            final(self).by_name() == old(self).by_name().insert(name as u64, monitor.0),
            final(self).by_output() == old(self).by_output().insert(output.0, monitor.0),
            final(self).data().dom() == old(self).data().dom().insert(monitor.0),
            forall|other: u64|
                other != monitor.0 ==> #[trigger] final(self).data()[other]
                    == old(self).data()[other],
            final(self).data()[monitor.0].output == output,
            final(self).data()[monitor.0].info is None,
            final(self).data()[monitor.0].pending@ == initial_info(),
            final(self).data()[monitor.0].windows@ == Set::<u64>::empty(),
    {
        broadcast use vstd::std_specs::hash::group_hash_axioms;

        self.global_name_to_monitor.insert(name as u64, monitor.0);
        self.output_to_monitor.insert(output.0, monitor.0);
        self.outputs.insert(monitor.0, OutputData::new(output));
        proof {
            assert(self.data().dom() =~= old(self).data().dom().insert(monitor.0));
            assert forall|other: u64| #[trigger] self.by_output().dom().contains(other) implies
                self.data().dom().contains(self.by_output()[other])
                && self.data()[self.by_output()[other]].output.0 == other by {
                if other != output.0 {
                    assert(old(self).by_output().dom().contains(other));
                }
            }
            assert forall|other: u64| #[trigger] self.by_name().dom().contains(other) implies
                self.data().dom().contains(self.by_name()[other]) by {
                if other != name as u64 {
                    assert(old(self).by_name().dom().contains(other));
                }
            }
            assert forall|first: u64, second: u64|
                #![trigger self.by_name()[first], self.by_name()[second]]
                self.by_name().dom().contains(first) && self.by_name().dom().contains(second)
                && self.by_name()[first] == self.by_name()[second] implies first == second by {
                if first != name as u64 {
                    assert(old(self).by_name().dom().contains(first));
                    assert(self.by_name()[first] == old(self).by_name()[first]);
                }
                if second != name as u64 {
                    assert(old(self).by_name().dom().contains(second));
                    assert(self.by_name()[second] == old(self).by_name()[second]);
                }
            }
        }
    }

    /// A global of the registry is gone. If it was an output, that output is gone.
    pub fn remove_global(&mut self, name: u32) -> (removed: Option<OutputData>)
        requires
            old(self).wf(),
        ensures
            final(self).wf(),
            removed is None ==> *final(self) == *old(self),
            old(self).without_global(name, *final(self), removed),
    {
        broadcast use vstd::std_specs::hash::group_hash_axioms;

        match self.global_name_to_monitor.get(&(name as u64)) {
            None => None,
            Some(monitor) => {
                let monitor: u64 = *monitor;
                assert(self.by_name().dom().contains(name as u64));
                self.global_name_to_monitor.remove(&(name as u64));
                match self.outputs.remove(&monitor) {
                    None => None,
                    Some(data) => {
                        self.output_to_monitor.remove(&data.output.0);
                        Some(data)
                    },
                }
            },
        }
    }

    /// The compositor says something of an output. Of one that is not known, it is left out of
    /// account.
    pub fn event(&mut self, monitor: MonitorId, event: OutputEvent) -> (change: Option<
        OutputChange,
    >)
        requires
            old(self).wf(),
        ensures
            final(self).wf(),
            final(self).by_name() == old(self).by_name(),
            final(self).by_output() == old(self).by_output(),
            final(self).data().dom() == old(self).data().dom(),
            forall|other: u64|
                other != monitor.0 ==> #[trigger] final(self).data()[other]
                    == old(self).data()[other],
            !old(self).data().dom().contains(monitor.0) ==> change is None,
            old(self).data().dom().contains(monitor.0) ==> {
                let before = old(self).data()[monitor.0];
                let after = final(self).data()[monitor.0];
                &&& after.output == before.output
                &&& after.windows == before.windows
                &&& after.pending@ == pending_after(before.pending@, event)
                &&& known(after.info) == if event is Done {
                    Some(before.pending@)
                } else {
                    known(before.info)
                }
                &&& (change is Some) == (event is Done)
                &&& event is Done ==> change == Some(
                    change_between(known(before.info), before.pending@),
                )
            },
    {
        broadcast use vstd::std_specs::hash::group_hash_axioms;

        match self.outputs.remove(&monitor.0) {
            None => {
                proof {
                    assert(self.outputs@ =~= old(self).outputs@);
                    lemma_same_outputs(*old(self), *self);
                }
                None
            },
            Some(mut data) => {
                let change = data.event(event);
                self.outputs.insert(monitor.0, data);
                proof {
                    assert(self.data().dom() =~= old(self).data().dom());
                    lemma_same_outputs(*old(self), *self);
                }
                change
            },
        }
    }

    /// A window is on an output now. Returns the monitor, if the output is known.
    pub fn window_entered_output(&mut self, output: OutputId, window: WindowId) -> (monitor: Option<
        MonitorId,
    >)
        requires
            old(self).wf(),
        ensures
            final(self).wf(),
            final(self).by_name() == old(self).by_name(),
            final(self).by_output() == old(self).by_output(),
            final(self).data().dom() == old(self).data().dom(),
            monitor is None ==> *final(self) == *old(self),
            old(self).shows(output, window, *final(self), monitor, true),
    {
        broadcast use vstd::std_specs::hash::group_hash_axioms;

        let monitor: u64 = match self.output_to_monitor.get(&output.0) {
            None => {
                return None;
            },
            Some(monitor) => *monitor,
        };
        match self.outputs.remove(&monitor) {
            None => None,
            Some(mut data) => {
                data.windows.insert(window.to_raw());
                self.outputs.insert(monitor, data);
                proof {
                    assert(self.data().dom() =~= old(self).data().dom());
                    lemma_same_outputs(*old(self), *self);
                }
                Some(MonitorId(monitor))
            },
        }
    }

    /// A window is no longer on an output. Returns the monitor, if the output is known.
    pub fn window_left_output(&mut self, output: OutputId, window: WindowId) -> (monitor: Option<
        MonitorId,
    >)
        requires
            old(self).wf(),
        ensures
            final(self).wf(),
            final(self).by_name() == old(self).by_name(),
            final(self).by_output() == old(self).by_output(),
            final(self).data().dom() == old(self).data().dom(),
            monitor is None ==> *final(self) == *old(self),
            old(self).shows(output, window, *final(self), monitor, false),
    {
        broadcast use vstd::std_specs::hash::group_hash_axioms;

        let monitor: u64 = match self.output_to_monitor.get(&output.0) {
            None => {
                return None;
            },
            Some(monitor) => *monitor,
        };
        match self.outputs.remove(&monitor) {
            None => None,
            Some(mut data) => {
                data.windows.remove(&window.to_raw());
                self.outputs.insert(monitor, data);
                proof {
                    assert(self.data().dom() =~= old(self).data().dom());
                    lemma_same_outputs(*old(self), *self);
                }
                Some(MonitorId(monitor))
            },
        }
    }

    /// The scale of a monitor, if it is known yet.
    pub open spec fn scale_of(self, monitor: MonitorId) -> Option<int> {
        match self.data()[monitor.0].info {
            Some(info) => Some(info.scale_factor as int),
            None => None,
        }
    }

    /// The highest of the scales that are known of some monitors, if any is.
    pub open spec fn highest_scale(self, monitors: Seq<MonitorId>) -> Option<int>
        decreases monitors.len(),
    {
        if monitors.len() == 0 {
            None
        } else {
            let others = self.highest_scale(monitors.drop_last());
            match (others, self.scale_of(monitors.last())) {
                (None, scale) => scale,
                (others, None) => others,
                (Some(others), Some(scale)) => Some(
                    if others >= scale {
                        others
                    } else {
                        scale
                    },
                ),
            }
        }
    }

    /// The scale to use on some monitors.
    pub open spec fn fallback_scale(self, monitors: Seq<MonitorId>) -> int {
        match self.highest_scale(monitors) {
            Some(scale) => scale,
            None => 1,
        }
    }

    /// The scale to use on some monitors: the highest of theirs, as far as they are known, or else
    /// 1. All monitors have to be known ones.
    pub fn max_integer_scale(&self, monitors: &Vec<MonitorId>) -> (scale: i32)
        requires
            forall|i: int|
                0 <= i < monitors@.len() ==> self.data().dom().contains((#[trigger] monitors@[i]).0),
        ensures
            scale == self.fallback_scale(monitors@),
    {
        broadcast use vstd::std_specs::hash::group_hash_axioms;

        let mut highest: Option<i32> = None;
        let mut i: usize = 0;
        while i < monitors.len()
            invariant
                i <= monitors@.len(),
                forall|j: int|
                    0 <= j < monitors@.len() ==> self.data().dom().contains(
                        (#[trigger] monitors@[j]).0,
                    ),
                match highest {
                    None => self.highest_scale(monitors@.take(i as int)) is None,
                    Some(scale) => self.highest_scale(monitors@.take(i as int)) == Some(
                        scale as int,
                    ),
                },
            decreases monitors.len() - i,
        {
            proof {
                assert(monitors@.take(i as int + 1).drop_last() =~= monitors@.take(i as int));
            }
            let monitor = monitors[i];
            match self.outputs.get(&monitor.0) {
                None => {},
                Some(data) => {
                    if let Some(info) = &data.info {
                        highest =
                        match highest {
                            None => Some(info.scale_factor),
                            Some(others) => if others >= info.scale_factor {
                                Some(others)
                            } else {
                                Some(info.scale_factor)
                            },
                        };
                    }
                },
            }
            i += 1;
        }
        assert(monitors@.take(i as int) =~= monitors@);
        match highest {
            Some(scale) => scale,
            None => 1,
        }
    }
}

/// The scale of several monitors is that of the one with the highest: no known one has a higher,
/// and if any is known, one of them has this one.
pub proof fn law_highest_scale(outputs: Outputs, monitors: Seq<MonitorId>, i: int)
    requires
        0 <= i < monitors.len(),
        outputs.scale_of(monitors[i]) is Some,
    ensures
        outputs.fallback_scale(monitors) >= outputs.scale_of(monitors[i])->0,
        exists|j: int|
            0 <= j < monitors.len() && outputs.scale_of(#[trigger] monitors[j]) == Some(
                outputs.fallback_scale(monitors),
            ),
    decreases monitors.len(),
{
    let others = monitors.drop_last();
    let last = monitors.len() - 1;
    if exists|k: int| 0 <= k < others.len() && outputs.scale_of(#[trigger] others[k]) is Some {
        let k = choose|k: int|
            0 <= k < others.len() && outputs.scale_of(#[trigger] others[k]) is Some;
        let start = if i < last {
            i
        } else {
            k
        };
        assert(others[start] == monitors[start]);
        law_highest_scale(outputs, others, start);
        lemma_highest_scale_known(outputs, others, start);
        let j = choose|j: int|
            0 <= j < others.len() && outputs.scale_of(#[trigger] others[j]) == Some(
                outputs.fallback_scale(others),
            );
        assert(others[j] == monitors[j]);
        assert(outputs.scale_of(monitors[last]) == outputs.scale_of(monitors.last()));
    } else {
        if i < last {
            assert(others[i] == monitors[i]);
        }
        lemma_no_scale_known(outputs, others);
        assert(outputs.scale_of(monitors[last]) == Some(outputs.fallback_scale(monitors)));
    }
}

/// Outputs that are found as before are still found.
proof fn lemma_same_outputs(before: Outputs, after: Outputs)
    requires
        before.wf(),
        after.by_output() == before.by_output(),
        after.by_name() == before.by_name(),
        after.data().dom() == before.data().dom(),
        forall|monitor: u64|
            before.data().dom().contains(monitor) ==> (#[trigger] after.data()[monitor]).output
                == before.data()[monitor].output,
    ensures
        after.wf(),
{
    assert forall|output: u64| #[trigger] after.by_output().dom().contains(output) implies
        after.data().dom().contains(after.by_output()[output])
        && after.data()[after.by_output()[output]].output.0 == output by {
        assert(before.by_output().dom().contains(output));
    }
    assert forall|name: u64| #[trigger] after.by_name().dom().contains(name) implies
        after.data().dom().contains(after.by_name()[name]) by {
        assert(before.by_name().dom().contains(name));
    }
}

proof fn lemma_highest_scale_known(outputs: Outputs, monitors: Seq<MonitorId>, i: int)
    requires
        0 <= i < monitors.len(),
        outputs.scale_of(monitors[i]) is Some,
    ensures
        outputs.highest_scale(monitors) is Some,
    decreases monitors.len(),
{
    if i < monitors.len() - 1 {
        assert(monitors.drop_last()[i] == monitors[i]);
        lemma_highest_scale_known(outputs, monitors.drop_last(), i);
    }
}

proof fn lemma_no_scale_known(outputs: Outputs, monitors: Seq<MonitorId>)
    requires
        forall|k: int| 0 <= k < monitors.len() ==> outputs.scale_of(#[trigger] monitors[k]) is None,
    ensures
        outputs.highest_scale(monitors) is None,
    decreases monitors.len(),
{
    if monitors.len() > 0 {
        let others = monitors.drop_last();
        assert forall|k: int| 0 <= k < others.len() implies outputs.scale_of(
            #[trigger] others[k],
        ) is None by {
            assert(others[k] == monitors[k]);
        }
        lemma_no_scale_known(outputs, others);
        assert(outputs.scale_of(monitors[monitors.len() - 1]) is None);
    }
}

/// What the compositor says of an output is taken over as it is said, and nothing else with it; what
/// it says in terms that are not known, and of modes that are not the current one, is not.
pub proof fn law_what_is_said_is_taken_over(pending: Info, event: OutputEvent)
    ensures
        ({
            let after = pending_after(pending, event);
            &&& match event {
                OutputEvent::Geometry { subpixel, transform } => {
                    &&& subpixel matches Some(said) ==> after.subpixel == said
                    &&& transform matches Some(said) ==> after.transform == said
                    &&& subpixel is None ==> after.subpixel == pending.subpixel
                    &&& transform is None ==> after.transform == pending.transform
                },
                OutputEvent::Mode { known, current, preferred, width, height, refresh } => {
                    &&& known && current ==> after.mode.width == width && after.mode.height == height
                        && after.mode.refresh_rate == refresh && after.mode.preferred == preferred
                        && after.mode.current
                    &&& !known || !current ==> after == pending
                },
                OutputEvent::Scale(factor) => after.scale_factor == factor,
                OutputEvent::Name(name) => after.name == name@,
                OutputEvent::Description(text) => after.description == text@,
                OutputEvent::LogicalPosition { x, y } => after.logical_x == x && after.logical_y
                    == y,
                OutputEvent::LogicalSize { width, height } => after.logical_width == width
                    && after.logical_height == height,
                OutputEvent::Done | OutputEvent::Deprecated => after == pending,
            }
            &&& !(event is Geometry) ==> after.subpixel == pending.subpixel && after.transform
                == pending.transform
            &&& !(event is Mode) ==> after.mode == pending.mode
            &&& !(event is Scale) ==> after.scale_factor == pending.scale_factor
            &&& !(event is Name) ==> after.name == pending.name
            &&& !(event is Description) ==> after.description == pending.description
            &&& !(event is LogicalPosition) ==> after.logical_x == pending.logical_x
                && after.logical_y == pending.logical_y
            &&& !(event is LogicalSize) ==> after.logical_width == pending.logical_width
                && after.logical_height == pending.logical_height
            // Saying it again changes nothing.
            &&& pending_after(after, event) == after
        }),
{
}

/// Windows follow an output exactly if its scale is another one than before, or nothing was known
/// of it.
pub proof fn law_changed_scales_are_followed(before: Info, pending: Info)
    ensures
        change_between(None, pending).new && change_between(None, pending).scale_factor_changed,
        !change_between(Some(before), pending).new,
        change_between(Some(before), pending).scale_factor_changed <==> before.scale_factor
            != pending.scale_factor,
{
}

/// As long as no scale is known of any of the monitors, they are not scaled.
pub proof fn law_unknown_monitors_are_not_scaled(outputs: Outputs, monitors: Seq<MonitorId>)
    requires
        forall|k: int| 0 <= k < monitors.len() ==> outputs.scale_of(#[trigger] monitors[k]) is None,
    ensures
        outputs.fallback_scale(monitors) == 1,
        initial_info().scale_factor == 1,
{
    lemma_no_scale_known(outputs, monitors);
}

/// The scale of a monitor is the one that the compositor was done with.
pub proof fn law_scale_is_the_known_one(outputs: Outputs, monitor: MonitorId)
    ensures
        outputs.scale_of(monitor) is Some <==> known(outputs.data()[monitor.0].info) is Some,
        known(outputs.data()[monitor.0].info) matches Some(info) ==> outputs.scale_of(monitor)
            == Some(info.scale_factor as int),
{
}

impl Outputs {
    /// The outputs without the one that a global of the registry stood for.
    pub open spec fn without_global(
        self,
        name: u32,
        after: Outputs,
        removed: Option<OutputData>,
    ) -> bool {
        match removed {
            None => !self.by_name().dom().contains(name as u64),
            Some(data) => {
                let monitor = self.by_name()[name as u64];
                &&& self.by_name().dom().contains(name as u64)
                &&& data == self.data()[monitor]
                &&& after.by_name() == self.by_name().remove(name as u64)
                &&& after.data() == self.data().remove(monitor)
                &&& after.by_output() == self.by_output().remove(data.output.0)
            },
        }
    }

    /// A global that is removed takes its monitor along, by whatever it is looked up; the other
    /// monitors stay.
    pub proof fn law_removed_globals_take_their_monitor(
        self,
        name: u32,
        after: Outputs,
        removed: Option<OutputData>,
        other: u64,
    )
        requires
            self.without_global(name, after, removed),
        ensures
            (removed is Some) == self.by_name().dom().contains(name as u64),
            removed matches Some(data) ==> {
                &&& !after.by_name().dom().contains(name as u64)
                &&& !after.data().dom().contains(self.by_name()[name as u64])
                &&& !after.by_output().dom().contains(data.output.0)
                &&& data == self.data()[self.by_name()[name as u64]]
                &&& other != self.by_name()[name as u64] ==> after.data().dom().contains(other)
                    == self.data().dom().contains(other) && after.data()[other]
                    == self.data()[other]
            },
    {
    }

    /// The outputs after a window came to be on one of them, or is no longer. `monitor` is the
    /// monitor of that output.
    pub open spec fn shows(
        self,
        output: OutputId,
        window: WindowId,
        after: Outputs,
        monitor: Option<MonitorId>,
        is_on: bool,
    ) -> bool {
        match monitor {
            None => !self.by_output().dom().contains(output.0),
            Some(monitor) => {
                let windows = self.data()[monitor.0].windows@;
                &&& self.by_output().dom().contains(output.0)
                &&& monitor.0 == self.by_output()[output.0]
                &&& after.data()[monitor.0].windows@ == if is_on {
                    windows.insert(window.number())
                } else {
                    windows.remove(window.number())
                }
                &&& after.data()[monitor.0].info == self.data()[monitor.0].info
                &&& after.data()[monitor.0].pending == self.data()[monitor.0].pending
                &&& forall|other: u64|
                    other != monitor.0 ==> #[trigger] after.data()[other] == self.data()[other]
            },
        }
    }

    /// A window is on the monitors that it entered and did not leave since; other windows and other
    /// monitors are not concerned.
    pub proof fn law_windows_are_where_they_entered(
        self,
        output: OutputId,
        window: WindowId,
        after: Outputs,
        monitor: Option<MonitorId>,
        is_on: bool,
        other_window: u64,
        other_monitor: u64,
    )
        requires
            self.shows(output, window, after, monitor, is_on),
        ensures
            (monitor is Some) == self.by_output().dom().contains(output.0),
            monitor matches Some(monitor) ==> {
                &&& monitor.0 == self.by_output()[output.0]
                &&& after.data()[monitor.0].windows@.contains(window.number()) == is_on
                &&& other_window != window.number()
                    ==> after.data()[monitor.0].windows@.contains(other_window)
                    == self.data()[monitor.0].windows@.contains(other_window)
                &&& other_monitor != monitor.0 ==> after.data()[other_monitor]
                    == self.data()[other_monitor]
                &&& known(after.data()[monitor.0].info) == known(self.data()[monitor.0].info)
            },
    {
    }
}

/// A monitor that nothing was said of is not scaled and has neither extent nor name.
pub proof fn law_new_monitors_are_plain()
    ensures
        initial_info().scale_factor == 1,
        initial_info().mode.width == 0 && initial_info().mode.height == 0,
        initial_info().mode.refresh_rate == 0,
        !initial_info().mode.current && !initial_info().mode.preferred,
        initial_info().logical_x == 0 && initial_info().logical_y == 0,
        initial_info().logical_width == 0 && initial_info().logical_height == 0,
        initial_info().name.len() == 0 && initial_info().description.len() == 0,
        initial_info().transform is Normal && initial_info().subpixel is Unknown,
{
}

} // verus!
