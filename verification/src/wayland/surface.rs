//! Surfaces that keep track of their damage and paint only that.

use vstd::prelude::*;

use crate::geometry::{fits, DpRect, DpSize, RawRect, RawSize};
use crate::text::TextFieldToken;

verus! {

/// Something to do once the handler has returned.
#[derive(Clone, Copy, Debug, PartialEq, Eq, Structural)]
pub enum DeferredTask {
    Paint,
    AnimationClear,
}

/// Whether something is different now.
#[derive(Clone, Copy, Debug, PartialEq, Eq, Structural)]
pub enum Changed {
    Changed,
    Unchanged,
}

impl Changed {
    pub fn is_changed(self) -> (yes: bool)
        ensures
            yes == (self == Changed::Changed),
    {
        self == Changed::Changed
    }
}

/// An area that has to be repainted.
#[derive(Clone, Copy, Debug, PartialEq, Eq, Structural)]
pub struct Damage {
    /// The area as the application knows it.
    pub area: DpRect,
    /// The smallest whole numbers around it.
    pub raw: RawRect,
}

/// An area of the buffer, in physical pixels.
#[derive(Clone, Copy, Debug, PartialEq, Eq, Structural)]
pub struct BufferDamage {
    pub x: i32,
    pub y: i32,
    pub width: i32,
    pub height: i32,
}

/// What to tell the compositor about the damage, and what to paint.
#[derive(Debug)]
pub struct Painting {
    /// Whether there is anything to paint. If not, the frame is left out.
    pub paint: bool,
    /// Whether the whole surface is damaged.
    pub damage_all: bool,
    /// The parts of the buffer that are damaged.
    pub damage: Vec<BufferDamage>,
    /// The areas for the handler to paint, after which the surface is committed. Without any, there
    /// is nothing to do.
    pub areas: Vec<Damage>,
}

/// A surface moves onto a screen or off it.
#[derive(Clone, Copy, Debug, PartialEq, Eq, Structural)]
pub enum SurfaceEvent {
    Enter(u32),
    Leave(u32),
    Other,
}

/// The state of a surface.
#[derive(Debug)]
pub struct Data {
    /// The outputs that our surface is present on, each of them once.
    pub outputs: Vec<u32>,
    /// The logical size of the next frame.
    pub logical_size: DpSize,
    /// The scale we are rendering to (defaults to 1)
    pub scale: i32,
    pub active_text_input: Option<TextFieldToken>,
    /// Whether we have requested an animation frame. This stops us requesting more than 1.
    pub anim_frame_requested: bool,
    /// Rects of the image that are damaged and need repainting.
    pub damaged_region: Vec<Damage>,
    /// Tasks that were requested in user code.
    ///
    /// These call back into user code, and so should only be run after all user code has returned,
    /// to avoid possible re-entrancy.
    pub deferred_tasks: Vec<DeferredTask>,
}

/// The part of the buffer that a damaged area covers.
pub open spec fn buffer_part(raw: RawRect, scale: int) -> BufferDamage {
    BufferDamage {
        x: (raw.x0 * scale) as i32,
        y: (raw.y0 * scale) as i32,
        width: (raw.x1 * scale - raw.x0 * scale) as i32,
        height: (raw.y1 * scale - raw.y0 * scale) as i32,
    }
}

/// The part of the buffer can be named in the machine's numbers.
pub open spec fn part_fits(raw: RawRect, scale: int) -> bool {
    &&& fits(raw.x0 * scale)
    &&& fits(raw.y0 * scale)
    &&& fits(raw.x1 * scale)
    &&& fits(raw.y1 * scale)
    &&& fits(raw.x1 * scale - raw.x0 * scale)
    &&& fits(raw.y1 * scale - raw.y0 * scale)
}

/// The outputs that a surface is on after an event.
pub open spec fn outputs_after(outputs: Set<u32>, event: SurfaceEvent) -> Set<u32> {
    match event {
        SurfaceEvent::Enter(id) => outputs.insert(id),
        SurfaceEvent::Leave(id) => outputs.remove(id),
        SurfaceEvent::Other => outputs,
    }
}

/// Whether any of the tasks is to paint.
pub open spec fn any_paint(tasks: Seq<DeferredTask>) -> bool {
    tasks.contains(DeferredTask::Paint)
}

/// Whether any of the tasks ends the animation frame.
pub open spec fn any_clear(tasks: Seq<DeferredTask>) -> bool {
    tasks.contains(DeferredTask::AnimationClear)
}

impl Data {
    /// A surface that is on no screen yet.
    pub fn new(initial_size: DpSize) -> (data: Data)
        ensures
            data.outputs@.len() == 0,
            data.logical_size == initial_size,
            data.scale == 1,
            data.active_text_input is None,
            !data.anim_frame_requested,
            data.damaged_region@.len() == 0,
            data.deferred_tasks@.len() == 0,
    {
        Data {
            outputs: Vec::new(),
            logical_size: initial_size,
            scale: 1,
            active_text_input: None,
            anim_frame_requested: false,
            damaged_region: Vec::new(),
            deferred_tasks: Vec::new(),
        }
    }

    /// Everything but the outputs, the scale and the tasks is the same.
    pub open spec fn same_content(self, other: Data) -> bool {
        &&& self.logical_size == other.logical_size
        &&& self.active_text_input == other.active_text_input
        &&& self.anim_frame_requested == other.anim_frame_requested
        &&& self.damaged_region@ == other.damaged_region@
    }

    /// The surface shows up on an output, or leaves it.
    fn note_output(&mut self, event: SurfaceEvent)
        requires
            old(self).outputs@.no_duplicates(),
        ensures
            final(self).outputs@.no_duplicates(),
            final(self).outputs@.to_set() == outputs_after(old(self).outputs@.to_set(), event),
            final(self).scale == old(self).scale,
            final(self).deferred_tasks@ == old(self).deferred_tasks@,
            final(self).same_content(*old(self)),
    {
        let ghost before = self.outputs@;
        match event {
            SurfaceEvent::Enter(id) => {
                match self.find_output(id) {
                    Some(_) => {
                        assert(before.to_set().insert(id) =~= before.to_set());
                    },
                    None => {
                        self.outputs.push(id);
                        proof {
                            assert(self.outputs@.to_set() =~= before.to_set().insert(id)) by {
                                assert forall|x: u32|
                                    before.to_set().insert(id).contains(
                                        x,
                                    ) implies self.outputs@.to_set().contains(x) by {
                                    if x == id {
                                        assert(self.outputs@[before.len() as int] == id);
                                    } else {
                                        let i = choose|i: int|
                                            0 <= i < before.len() && before[i] == x;
                                        assert(self.outputs@[i] == x);
                                    }
                                }
                            }
                        }
                    },
                }
            },
            SurfaceEvent::Leave(id) => {
                match self.find_output(id) {
                    Some(i) => {
                        let _ = self.outputs.remove(i);
                        proof {
                            let after = self.outputs@;
                            assert(after =~= before.remove(i as int));
                            assert forall|x: u32| after.to_set().contains(x) == #[trigger]
                                before.to_set().remove(id).contains(x) by {
                                if after.contains(x) {
                                    let k = choose|k: int| 0 <= k < after.len() && after[k] == x;
                                    let k0 = if k < i {
                                        k
                                    } else {
                                        k + 1
                                    };
                                    assert(before[k0] == x);
                                }
                                if before.contains(x) && x != id {
                                    let k = choose|k: int| 0 <= k < before.len() && before[k] == x;
                                    let k1 = if k < i {
                                        k
                                    } else {
                                        k - 1
                                    };
                                    assert(after[k1] == x);
                                }
                            }
                            assert(after.to_set() =~= before.to_set().remove(id));
                        }
                    },
                    None => {
                        assert(before.to_set().remove(id) =~= before.to_set());
                    },
                }
            },
            SurfaceEvent::Other => {},
        }
    }

    /// The position of an output in the list.
    fn find_output(&self, id: u32) -> (found: Option<usize>)
        ensures
            match found {
                Some(i) => i < self.outputs@.len() && self.outputs@[i as int] == id,
                None => !self.outputs@.contains(id),
            },
    {
        let mut i: usize = 0;
        while i < self.outputs.len()
            invariant
                i <= self.outputs@.len(),
                forall|j: int| 0 <= j < i ==> self.outputs@[j] != id,
            decreases self.outputs.len() - i,
        {
            if self.outputs[i] == id {
                return Some(i);
            }
            i += 1;
        }
        None
    }

    /// Sets the scale. The handler has to be told if it changed.
    pub fn set_scale(&mut self, new_scale: i32) -> (changed: Changed)
        ensures
            changed == (if old(self).scale != new_scale {
                Changed::Changed
            } else {
                Changed::Unchanged
            }),
            *final(self) == (Data { scale: new_scale, ..*old(self) }),
    {
        if self.scale != new_scale {
            self.scale = new_scale;
            Changed::Changed
        } else {
            Changed::Unchanged
        }
    }

    /// Takes in an event of the surface. `new_scale` is the largest scale of the outputs after it,
    /// unless the compositor does not let surfaces choose their scale. Returns whether the handler
    /// has to be told of a new scale; the surface is then always repainted.
    pub fn consume_surface_event(&mut self, event: SurfaceEvent, new_scale: Option<i32>) -> (rescaled:
        bool)
        requires
            old(self).outputs@.no_duplicates(),
        ensures
            final(self).outputs@.no_duplicates(),
            final(self).outputs@.to_set() == outputs_after(old(self).outputs@.to_set(), event),
            old(self).rescaled_by(new_scale, *final(self), rescaled),
            final(self).same_content(*old(self)),
    {
        self.note_output(event);
        if let Some(scale) = new_scale {
            if self.set_scale(scale).is_changed() {
                // always repaint, because the scale changed.
                self.schedule_deferred_task(DeferredTask::Paint);
                return true;
            }
        }
        false
    }

    /// The size of the surface changes, if it `differs`. Returns whether the handler is told.
    pub fn update_dimensions(&mut self, size: DpSize, differs: bool) -> (tell: bool)
        ensures
            tell == differs,
            *final(self) == (if differs {
                Data { logical_size: size, ..*old(self) }
            } else {
                *old(self)
            }),
    {
        if differs {
            self.logical_size = size;
        }
        differs
    }

    /// What painting the next frame comes to.
    pub open spec fn painted(
        self,
        after: Data,
        damage_buffer_supported: bool,
        window: Damage,
        painting: Painting,
    ) -> bool {
        &&& painting.damage_all == !damage_buffer_supported
        &&& painting.paint == (painting.areas@.len() > 0)
        &&& damage_buffer_supported ==> painting.areas@ == self.damaged_region@ && painting.damage@
            == self.damaged_region@.map_values(
            |damage: Damage| buffer_part(damage.raw, self.scale as int),
        ) && after.deferred_tasks@ == self.deferred_tasks@
        &&& !damage_buffer_supported ==> painting.areas@ == self.damaged_region@.push(window)
            && painting.damage@.len() == 0 && after.deferred_tasks@ == self.deferred_tasks@.push(
            DeferredTask::Paint,
        )
        &&& after.damaged_region@.len() == 0
        &&& after.outputs@ == self.outputs@
        &&& after.scale == self.scale
        &&& after.logical_size == self.logical_size
        &&& after.active_text_input == self.active_text_input
        &&& after.anim_frame_requested == self.anim_frame_requested
    }

    /// Paint the next frame.
    ///
    /// Old compositors do not let buffers be damaged. For them the whole surface, which is
    /// `window`, is damaged: buffer coordinates are not turned into surface coordinates.
    ///
    /// This calls into user code. To avoid re-entrancy, ensure that we are not already in user
    /// code (defer this call if necessary).
    pub fn paint(&mut self, damage_buffer_supported: bool, window: Damage) -> (painting: Painting)
        requires
            damage_buffer_supported ==> forall|i: int|
                0 <= i < old(self).damaged_region@.len() ==> part_fits(
                    (#[trigger] old(self).damaged_region@[i]).raw,
                    old(self).scale as int,
                ),
        ensures
            old(self).painted(*final(self), damage_buffer_supported, window, painting),
    {
        let ghost before = self.damaged_region@;
        let ghost scale = self.scale as int;
        let mut damage: Vec<BufferDamage> = Vec::new();
        if !damage_buffer_supported {
            self.invalidate(window);
        } else {
            let mut i: usize = 0;
            while i < self.damaged_region.len()
                invariant
                    *self == *old(self),
                    before == self.damaged_region@,
                    scale == self.scale,
                    i <= before.len(),
                    forall|i: int|
                        0 <= i < before.len() ==> part_fits((#[trigger] before[i]).raw, scale),
                    damage@ == before.take(i as int).map_values(
                        |damage: Damage| buffer_part(damage.raw, scale),
                    ),
                decreases before.len() - i,
            {
                assert(part_fits(before[i as int].raw, scale));
                // Convert it to physical coordinate space.
                let rect = self.damaged_region[i].raw.scale(self.scale);
                damage.push(
                    BufferDamage {
                        x: rect.x0,
                        y: rect.y0,
                        width: rect.x1 - rect.x0,
                        height: rect.y1 - rect.y0,
                    },
                );
                i += 1;
                assert(damage@ =~= before.take(i as int).map_values(
                    |damage: Damage| buffer_part(damage.raw, scale),
                ));
            }
            assert(before.take(i as int) =~= before);
        }
        // reset damage ready for next frame.
        let mut areas: Vec<Damage> = Vec::new();
        std::mem::swap(&mut areas, &mut self.damaged_region);
        Painting {
            paint: areas.len() > 0,
            damage_all: !damage_buffer_supported,
            damage,
            areas,
        }
    }

    /// Request invalidation of the entire window contents, which are `window`.
    pub fn invalidate(&mut self, window: Damage)
        ensures
            final(self).damaged_region@ == old(self).damaged_region@.push(window),
            final(self).deferred_tasks@ == old(self).deferred_tasks@.push(DeferredTask::Paint),
            final(self).outputs@ == old(self).outputs@,
            final(self).scale == old(self).scale,
            final(self).logical_size == old(self).logical_size,
            final(self).active_text_input == old(self).active_text_input,
            final(self).anim_frame_requested == old(self).anim_frame_requested,
    {
        self.damaged_region.push(window);
        self.schedule_deferred_task(DeferredTask::Paint);
    }

    /// Request invalidation of one rectangle. One that is not visible at all is skipped.
    pub fn invalidate_rect(&mut self, rect: Damage, visible: bool)
        ensures
            !visible ==> *final(self) == *old(self),
            old(self).invalidated(rect, visible, *final(self)),
            final(self).outputs@ == old(self).outputs@,
            final(self).scale == old(self).scale,
            final(self).logical_size == old(self).logical_size,
            final(self).active_text_input == old(self).active_text_input,
            final(self).anim_frame_requested == old(self).anim_frame_requested,
    {
        if visible {
            self.damaged_region.push(rect);
            self.schedule_deferred_task(DeferredTask::Paint);
        }
    }

    /// Queues a task until the handler has returned.
    pub fn schedule_deferred_task(&mut self, task: DeferredTask)
        ensures
            final(self).deferred_tasks@ == old(self).deferred_tasks@.push(task),
            *final(self) == (Data { deferred_tasks: final(self).deferred_tasks, ..*old(self) }),
    {
        self.deferred_tasks.push(task);
    }

    /// Runs the tasks that were queued. Returns whether to paint, which happens once however often
    /// it was asked for.
    pub fn run_deferred_tasks(&mut self) -> (should_paint: bool)
        ensures
            should_paint == any_paint(old(self).deferred_tasks@),
            final(self).anim_frame_requested == (old(self).anim_frame_requested && !any_clear(
                old(self).deferred_tasks@,
            )),
            final(self).deferred_tasks@.len() == 0,
            final(self).outputs@ == old(self).outputs@,
            final(self).scale == old(self).scale,
            final(self).logical_size == old(self).logical_size,
            final(self).active_text_input == old(self).active_text_input,
            final(self).damaged_region@ == old(self).damaged_region@,
    {
        let mut tasks: Vec<DeferredTask> = Vec::new();
        std::mem::swap(&mut tasks, &mut self.deferred_tasks);
        let mut should_paint = false;
        let mut clear = false;
        let mut i: usize = 0;
        while i < tasks.len()
            invariant
                i <= tasks@.len(),
                should_paint == exists|j: int| 0 <= j < i && tasks@[j] == DeferredTask::Paint,
                clear == exists|j: int| 0 <= j < i && tasks@[j] == DeferredTask::AnimationClear,
            decreases tasks.len() - i,
        {
            match tasks[i] {
                DeferredTask::Paint => {
                    should_paint = true;
                    assert(tasks@[i as int] == DeferredTask::Paint);
                },
                DeferredTask::AnimationClear => {
                    clear = true;
                    assert(tasks@[i as int] == DeferredTask::AnimationClear);
                },
            }
            i += 1;
        }
        if clear {
            self.anim_frame_requested = false;
        }
        should_paint
    }

    /// Asks for an animation frame. Returns whether the handler is to prepare one in the next idle
    /// moment; while one is under way, no other is asked for.
    pub fn request_anim_frame(&mut self) -> (start: bool)
        ensures
            old(self).frame_requested(*final(self), start),
            final(self).outputs@ == old(self).outputs@,
            final(self).scale == old(self).scale,
            final(self).logical_size == old(self).logical_size,
            final(self).active_text_input == old(self).active_text_input,
            final(self).damaged_region@ == old(self).damaged_region@,
    {
        if self.anim_frame_requested {
            return false;
        }
        self.anim_frame_requested = true;
        self.schedule_deferred_task(DeferredTask::AnimationClear);
        true
    }

    /// A text field is gone. If it was the focused one, none is focused any more.
    pub fn remove_text_field(&mut self, token: TextFieldToken)
        ensures
            *final(self) == (Data {
                active_text_input: crate::text::focused_without(
                    old(self).active_text_input,
                    token,
                ),
                ..*old(self)
            }),
    {
        if self.active_text_input == Some(token) {
            self.active_text_input = None;
        }
    }

    /// Focuses a text field, or none.
    pub fn set_focused_text_field(&mut self, active_field: Option<TextFieldToken>)
        ensures
            *final(self) == (Data { active_text_input: active_field, ..*old(self) }),
    {
        self.active_text_input = active_field;
    }
}

/// A surface that is not there. Whatever is asked of it has no effect.
#[derive(Clone, Copy, Debug, PartialEq, Eq, Structural)]
pub struct Dead;

impl Default for Dead {
    fn default() -> (dead: Dead)
        ensures
            dead == Dead,
    {
        Dead
    }
}

/// The number of the parent that is not valid.
#[derive(Clone, Copy, Debug, PartialEq, Eq, Structural)]
pub struct InvalidParent(pub u32);

impl Dead {
    /// It has no extent.
    pub fn get_size(&self) -> (size: RawSize)
        ensures
            size == (RawSize { width: 0, height: 0 }),
    {
        RawSize::zero()
    }

    /// It has the scale that stands for no scaling.
    pub fn get_scale(&self) -> (scale: i32)
        ensures
            scale == 1,
    {
        1
    }

    /// It cannot be the parent of a popup.
    pub fn surface(&self) -> (popup: Result<u64, InvalidParent>)
        ensures
            popup == Err::<u64, InvalidParent>(InvalidParent(0)),
    {
        Err(InvalidParent(0))
    }
}

/// A surface that comes onto an output is on it until it leaves it, and on no other by that.
pub proof fn law_surfaces_are_on_what_they_entered(outputs: Set<u32>, id: u32, other: u32)
    requires
        other != id,
    ensures
        outputs_after(outputs, SurfaceEvent::Enter(id)).contains(id),
        !outputs_after(outputs, SurfaceEvent::Leave(id)).contains(id),
        outputs_after(outputs, SurfaceEvent::Enter(id)).contains(other) == outputs.contains(other),
        outputs_after(outputs, SurfaceEvent::Leave(id)).contains(other) == outputs.contains(other),
        outputs_after(outputs, SurfaceEvent::Other) == outputs,
{
}

/// The damaged part of a buffer has the corners of the damaged area, each of them scaled.
pub proof fn law_buffers_are_damaged_in_scale(raw: RawRect, scale: int)
    requires
        part_fits(raw, scale),
    ensures
        ({
            let part = buffer_part(raw, scale);
            &&& part.x == raw.x0 * scale && part.y == raw.y0 * scale
            &&& part.x + part.width == raw.x1 * scale && part.y + part.height == raw.y1 * scale
        }),
{
}

/// Everything that is damaged is painted, in order, and once: after it nothing is damaged. A
/// compositor that knows of buffers is told of each damaged part; one that does not has all of the
/// window painted, behind whatever else there is. Without damage there is nothing to paint.
pub proof fn law_damage_is_painted_once(
    before: Data,
    after: Data,
    supported: bool,
    window: Damage,
    painting: Painting,
)
    requires
        before.painted(after, supported, window, painting),
    ensures
        painting.damage_all == !supported,
        painting.areas@.take(before.damaged_region@.len() as int) == before.damaged_region@,
        after.damaged_region@ == Seq::<Damage>::empty(),
        supported ==> painting.areas@.len() == before.damaged_region@.len()
            && painting.damage@.len() == painting.areas@.len(),
        supported ==> forall|i: int|
            0 <= i < painting.damage@.len() ==> (#[trigger] painting.damage@[i]) == buffer_part(
                before.damaged_region@[i].raw,
                before.scale as int,
            ),
        !supported ==> painting.areas@.last() == window && painting.damage@.len() == 0,
        painting.paint <==> !supported || before.damaged_region@.len() > 0,
        supported ==> after.deferred_tasks@ == before.deferred_tasks@,
        !supported ==> any_paint(after.deferred_tasks@),
        before.deferred_tasks@.is_prefix_of(after.deferred_tasks@),
        after.outputs@ == before.outputs@,
        after.scale == before.scale,
        after.logical_size == before.logical_size,
        after.active_text_input == before.active_text_input,
        after.anim_frame_requested == before.anim_frame_requested,
{
    assert(painting.areas@.take(before.damaged_region@.len() as int) =~= before.damaged_region@);
    if !supported {
        assert(after.deferred_tasks@.last() == DeferredTask::Paint);
    }
}

/// However often a paint is asked for, it is one paint, and an animation that ends is no paint.
pub proof fn law_tasks_are_told_apart(tasks: Seq<DeferredTask>)
    ensures
        any_paint(tasks.push(DeferredTask::Paint)),
        any_paint(tasks.push(DeferredTask::AnimationClear)) == any_paint(tasks),
        any_clear(tasks.push(DeferredTask::AnimationClear)),
        any_clear(tasks.push(DeferredTask::Paint)) == any_clear(tasks),
        !any_paint(Seq::empty()) && !any_clear(Seq::empty()),
{
    let painted = tasks.push(DeferredTask::Paint);
    let cleared = tasks.push(DeferredTask::AnimationClear);
    assert(painted[tasks.len() as int] == DeferredTask::Paint);
    assert(cleared[tasks.len() as int] == DeferredTask::AnimationClear);
    if any_paint(tasks) {
        let i = choose|i: int| 0 <= i < tasks.len() && tasks[i] == DeferredTask::Paint;
        assert(cleared[i] == DeferredTask::Paint);
    }
    if any_clear(tasks) {
        let i = choose|i: int| 0 <= i < tasks.len() && tasks[i] == DeferredTask::AnimationClear;
        assert(painted[i] == DeferredTask::AnimationClear);
    }
    if any_paint(cleared) {
        let i = choose|i: int| 0 <= i < cleared.len() && cleared[i] == DeferredTask::Paint;
        assert(tasks[i] == DeferredTask::Paint);
    }
    if any_clear(painted) {
        let i = choose|i: int| 0 <= i < painted.len() && painted[i] == DeferredTask::AnimationClear;
        assert(tasks[i] == DeferredTask::AnimationClear);
    }
}

impl Data {
    /// The surface after its outputs suggest a scale, and whether that is another one.
    pub open spec fn rescaled_by(self, new_scale: Option<i32>, after: Data, rescaled: bool) -> bool {
        &&& rescaled == (new_scale is Some && new_scale != Some(self.scale))
        &&& after.scale == match new_scale {
            Some(scale) => scale,
            None => self.scale,
        }
        &&& after.deferred_tasks@ == if rescaled {
            self.deferred_tasks@.push(DeferredTask::Paint)
        } else {
            self.deferred_tasks@
        }
    }

    /// A surface is painted anew exactly if its scale changed, which then is the suggested one.
    pub proof fn law_rescaled_surfaces_are_painted(
        self,
        new_scale: Option<i32>,
        after: Data,
        rescaled: bool,
    )
        requires
            self.rescaled_by(new_scale, after, rescaled),
        ensures
            rescaled == (after.scale != self.scale),
            new_scale matches Some(scale) ==> after.scale == scale,
            new_scale is None ==> after.scale == self.scale,
            rescaled ==> after.deferred_tasks@.len() == self.deferred_tasks@.len() + 1
                && after.deferred_tasks@.last() is Paint,
            !rescaled ==> after.deferred_tasks@ == self.deferred_tasks@,
            self.deferred_tasks@.is_prefix_of(after.deferred_tasks@),
    {
    }

    /// The surface after a part of it was damaged. One that cannot be seen is left alone.
    pub open spec fn invalidated(self, rect: Damage, visible: bool, after: Data) -> bool {
        &&& visible ==> after.damaged_region@ == self.damaged_region@.push(rect)
            && after.deferred_tasks@ == self.deferred_tasks@.push(DeferredTask::Paint)
        &&& !visible ==> after.damaged_region@ == self.damaged_region@ && after.deferred_tasks@
            == self.deferred_tasks@
    }

    /// What is damaged is noted and painted later, if it can be seen. What was noted before stays.
    pub proof fn law_damage_is_noted(self, rect: Damage, visible: bool, after: Data)
        requires
            self.invalidated(rect, visible, after),
        ensures
            after.damaged_region@.len() == self.damaged_region@.len() + if visible {
                1int
            } else {
                0
            },
            visible ==> after.damaged_region@.last() == rect && after.deferred_tasks@.len() > 0
                && after.deferred_tasks@.last() is Paint,
            self.damaged_region@.is_prefix_of(after.damaged_region@),
            self.deferred_tasks@.is_prefix_of(after.deferred_tasks@),
    {
    }

    /// The surface after an animation frame was requested, and whether that starts one.
    pub open spec fn frame_requested(self, after: Data, start: bool) -> bool {
        &&& start == !self.anim_frame_requested
        &&& after.anim_frame_requested
        &&& after.deferred_tasks@ == if start {
            self.deferred_tasks@.push(DeferredTask::AnimationClear)
        } else {
            self.deferred_tasks@
        }
    }

    /// Of several requests for an animation frame only the first starts one.
    pub proof fn law_frames_are_started_once(self, after: Data, start: bool, later: Data, again: bool)
        requires
            self.frame_requested(after, start),
            after.frame_requested(later, again),
        ensures
            !again && later.deferred_tasks@ == after.deferred_tasks@,
            start == !self.anim_frame_requested,
            start ==> after.deferred_tasks@.len() == self.deferred_tasks@.len() + 1
                && after.deferred_tasks@.last() is AnimationClear,
    {
    }
}

impl Data {
    /// A surface that enters or leaves an output shows what it showed before.
    pub proof fn law_outputs_do_not_change_the_content(self, other: Data)
        requires
            self.same_content(other),
        ensures
            other.same_content(self),
            self.logical_size == other.logical_size,
            self.active_text_input == other.active_text_input,
            self.anim_frame_requested == other.anim_frame_requested,
            self.damaged_region@ == other.damaged_region@,
    {
    }
}

} // verus!
