//! Pointing devices.

use std::collections::HashMap;

use vstd::prelude::*;

verus! {

/// Whether `needle` stands at a place of `haystack`.
pub open spec fn occurs_at(haystack: Seq<u8>, needle: Seq<u8>, at: int) -> bool {
    0 <= at && at + needle.len() <= haystack.len() && haystack.subrange(at, at + needle.len())
        == needle
}

/// Whether `needle` stands anywhere in `haystack`.
pub open spec fn occurs_in(haystack: Seq<u8>, needle: Seq<u8>) -> bool {
    exists|at: int| occurs_at(haystack, needle, at)
}

/// `memchr::memmem::find`: the first place at which `needle` stands in `haystack`, if there is any.
#[verifier::external_body]
fn find(haystack: &[u8], needle: &[u8]) -> (found: Option<usize>)
    ensures
        match found {
            Some(at) => occurs_at(haystack@, needle@, at as int) && forall|earlier: int|
                0 <= earlier < at ==> !#[trigger] occurs_at(haystack@, needle@, earlier),
            None => forall|at: int| !#[trigger] occurs_at(haystack@, needle@, at),
        },
{
    memchr::memmem::find(haystack, needle)
}

/// A number with 32 bits after the point, as an integer of 64 bits.
#[derive(Clone, Copy, Debug, PartialEq, Eq, Structural)]
pub struct Fp3232 {
    pub integral: i32,
    pub frac: u32,
}

impl Fp3232 {
    /// The number, in units of the last bit.
    pub open spec fn scaled(self) -> int {
        self.integral * 0x1_0000_0000 + self.frac
    }

    /// The number, in units of the last bit.
    pub fn to_scaled(self) -> (scaled: i64)
        ensures
            scaled == self.scaled(),
    {
        self.integral as i64 * 0x1_0000_0000 + self.frac as i64
    }
}

/// An axis of a device. Its limits are in units of the last bit of what the device reports.
#[derive(Clone, Copy, Debug, PartialEq, Eq, Structural)]
pub struct ValuatorInfo {
    pub idx: usize,
    pub min: i64,
    pub max: i64,
    pub resolution: u32,
}

/// A number, moved into a range.
pub open spec fn clamped(value: int, min: int, max: int) -> int {
    if value < min {
        min
    } else if value > max {
        max
    } else {
        value
    }
}

/// A number that is in the range is left alone; others become the end that they are beyond.
pub proof fn law_numbers_are_moved_no_further_than_needed(value: int, other: int, min: int, max: int)
    requires
        min <= max,
    ensures
        min <= clamped(value, min, max) <= max,
        min <= value <= max ==> clamped(value, min, max) == value,
        value <= other ==> clamped(value, min, max) <= clamped(other, min, max),
        min <= other <= max ==> clamped(value, min, max) == other || (clamped(value, min, max) < other)
            == (value < other),
{
}

impl ValuatorInfo {
    /// Whether a value is the one that a device reported for the axis, as far as the limits allow.
    pub open spec fn reads(self, axisvalues: Seq<Fp3232>, value: Option<i64>) -> bool {
        &&& self.idx >= axisvalues.len() ==> value is None
        &&& self.idx < axisvalues.len() ==> value is Some && value->0 == clamped(
            axisvalues[self.idx as int].scaled(),
            self.min as int,
            self.max as int,
        ) && self.min <= value->0 <= self.max
    }

    /// An axis is read at its own place, and what is reported for other axes does not matter.
    pub proof fn law_axes_are_read_at_their_place(
        self,
        axisvalues: Seq<Fp3232>,
        others: Seq<Fp3232>,
        value: Option<i64>,
        same: Option<i64>,
    )
        requires
            self.min <= self.max,
            self.reads(axisvalues, value),
            self.reads(others, same),
        ensures
            (value is Some) == (self.idx < axisvalues.len()),
            value is Some ==> self.min <= value->0 <= self.max,
            value is Some && self.min <= axisvalues[self.idx as int].scaled() <= self.max ==> value->0
                == axisvalues[self.idx as int].scaled(),
            value is Some && same is Some && axisvalues[self.idx as int] == others[self.idx as int]
                ==> value == same,
    {
    }

    /// The value of the axis, in units of the last bit, as far as the limits allow. `None` if the
    /// device did not report the axis.
    pub fn read(&self, axisvalues: &[Fp3232]) -> (value: Option<i64>)
        requires
            self.min <= self.max,
        ensures
            self.reads(axisvalues@, value),
    {
        if self.idx < axisvalues.len() {
            let value: i64 = axisvalues[self.idx].to_scaled();
            if value < self.min {
                Some(self.min)
            } else if value > self.max {
                Some(self.max)
            } else {
                Some(value)
            }
        } else {
            None
        }
    }
}

/// The kind of a pointing device.
#[derive(Clone, Copy, Debug, PartialEq, Eq, Structural)]
pub enum DeviceKind {
    Pen,
    Eraser,
    Touch,
    Mouse,
}

/// What a device is connected to.
#[derive(Clone, Copy, Debug, PartialEq, Eq, Structural)]
pub enum DeviceType {
    MasterPointer,
    SlavePointer,
    /// A keyboard, or a device that is not connected to anything.
    Other,
}

/// Something that a device has.
#[derive(Clone, Copy, Debug, PartialEq, Eq, Structural)]
pub enum DeviceClass {
    Valuator { label: u32, number: u16, min: Fp3232, max: Fp3232, resolution: u32 },
    Touch { num_touches: u8 },
    Other,
}

/// The labels of the axes of a pen.
#[derive(Clone, Copy, Debug, PartialEq, Eq, Structural)]
pub struct PenLabels {
    pub pressure: u32,
    pub x_tilt: u32,
    pub y_tilt: u32,
}

/// The axes of a pen.
#[derive(Clone, Copy, Debug, PartialEq, Eq, Structural)]
pub struct PenValuators {
    pub pressure: Option<ValuatorInfo>,
    pub x_tilt: Option<ValuatorInfo>,
    pub y_tilt: Option<ValuatorInfo>,
}

/// The axis that a class describes.
pub open spec fn axis_of(class: DeviceClass) -> ValuatorInfo {
    match class {
        DeviceClass::Valuator { number, min, max, resolution, .. } => ValuatorInfo {
            idx: number as usize,
            min: min.scaled() as i64,
            max: max.scaled() as i64,
            resolution,
        },
        _ => arbitrary(),
    }
}

/// Whether a class describes an axis with a label.
pub open spec fn is_labelled(class: DeviceClass, wanted: u32) -> bool {
    class matches DeviceClass::Valuator { label, .. } && label == wanted
}

/// The first axis with a label.
pub open spec fn first_axis(classes: Seq<DeviceClass>, label: u32) -> Option<ValuatorInfo>
    decreases classes.len(),
{
    if classes.len() == 0 {
        None
    } else if first_axis(classes.drop_last(), label) is Some {
        first_axis(classes.drop_last(), label)
    } else if is_labelled(classes.last(), label) {
        Some(axis_of(classes.last()))
    } else {
        None
    }
}

impl PenLabels {
    /// The axes have different labels.
    pub open spec fn distinct(self) -> bool {
        self.pressure != self.x_tilt && self.pressure != self.y_tilt && self.x_tilt != self.y_tilt
    }

    /// The axes once another class was looked at. Pressure is tried before the tilt to the side, and
    /// that before the other; an axis that was found already is left alone.
    pub open spec fn found(self, valuators: PenValuators, class: DeviceClass) -> PenValuators {
        let info = Some(axis_of(class));
        if is_labelled(class, self.pressure) && valuators.pressure is None {
            PenValuators { pressure: info, ..valuators }
        } else if is_labelled(class, self.x_tilt) && valuators.x_tilt is None {
            PenValuators { x_tilt: info, ..valuators }
        } else if is_labelled(class, self.y_tilt) && valuators.y_tilt is None {
            PenValuators { y_tilt: info, ..valuators }
        } else {
            valuators
        }
    }

    /// The axes of a pen among some classes, which are looked at in order.
    pub open spec fn axes(self, classes: Seq<DeviceClass>) -> PenValuators
        decreases classes.len(),
    {
        if classes.len() == 0 {
            PenValuators { pressure: None, x_tilt: None, y_tilt: None }
        } else {
            self.found(self.axes(classes.drop_last()), classes.last())
        }
    }

    /// Labels that differ each name the first axis that has them.
    pub proof fn law_first_axis_counts(self, classes: Seq<DeviceClass>)
        requires
            self.distinct(),
        ensures
            self.axes(classes).pressure == first_axis(classes, self.pressure),
            self.axes(classes).x_tilt == first_axis(classes, self.x_tilt),
            self.axes(classes).y_tilt == first_axis(classes, self.y_tilt),
        decreases classes.len(),
    {
        if classes.len() > 0 {
            self.law_first_axis_counts(classes.drop_last());
        }
    }
}

impl Default for PenValuators {
    fn default() -> (valuators: PenValuators)
        ensures
            valuators == (PenValuators { pressure: None, x_tilt: None, y_tilt: None }),
    {
        PenValuators { pressure: None, x_tilt: None, y_tilt: None }
    }
}

impl PenValuators {
    /// Finds the axes of a pen.
    pub fn new(classes: &Vec<DeviceClass>, labels: &PenLabels) -> (valuators: PenValuators)
        ensures
            valuators == labels.axes(classes@),
    {
        let mut valuators = PenValuators::default();
        let mut i: usize = 0;
        while i < classes.len()
            invariant
                i <= classes@.len(),
                valuators == labels.axes(classes@.take(i as int)),
            decreases classes.len() - i,
        {
            proof {
                assert(classes@.take(i as int + 1).drop_last() =~= classes@.take(i as int));
            }
            if let DeviceClass::Valuator { label, number, min, max, resolution } = classes[i] {
                let info = ValuatorInfo {
                    idx: number as usize,
                    min: min.to_scaled(),
                    max: max.to_scaled(),
                    resolution,
                };
                if label == labels.pressure && valuators.pressure.is_none() {
                    valuators.pressure = Some(info);
                } else if label == labels.x_tilt && valuators.x_tilt.is_none() {
                    valuators.x_tilt = Some(info);
                } else if label == labels.y_tilt && valuators.y_tilt.is_none() {
                    valuators.y_tilt = Some(info);
                }
            }
            i += 1;
        }
        assert(classes@.take(i as int) =~= classes@);
        valuators
    }

    /// Whether the device has no axis of a pen.
    pub open spec fn none_found(self) -> bool {
        self.pressure is None && self.x_tilt is None && self.y_tilt is None
    }

    pub fn is_empty(&self) -> (empty: bool)
        ensures
            empty == self.none_found(),
    {
        self.pressure.is_none() && self.x_tilt.is_none() && self.y_tilt.is_none()
    }
}

/// A device, as the server describes it.
#[derive(Debug)]
pub struct DeviceDescription {
    pub id: u16,
    pub name: Vec<u8>,
    pub device_type: DeviceType,
    pub classes: Vec<DeviceClass>,
}

/// What is known of a device.
#[derive(Debug)]
pub struct DeviceInfo {
    pub id: u16,
    pub name: Vec<u8>,
    pub device_type: DeviceType,
    pub device_kind: DeviceKind,
    pub valuators: PenValuators,
}

/// Whether a class says that the device can be touched.
pub open spec fn touches(class: DeviceClass) -> bool {
    class matches DeviceClass::Touch { num_touches } && num_touches > 0
}

fn is_touch_class(class: &DeviceClass) -> (yes: bool)
    ensures
        yes == touches(*class),
{
    match class {
        DeviceClass::Touch { num_touches } => *num_touches > 0,
        _ => false,
    }
}

/// The letters that make up the name of an eraser.
pub open spec fn eraser() -> Seq<u8> {
    seq![101u8, 114u8, 97u8, 115u8, 101u8, 114u8]
}

/// The kind of a device.
///
/// xinput doesn't tell us directly what "kind" a pointer device is, so we need to infer it.
/// We mainly do this by looking at the classes: if there's a touch-related class,
/// we declare it as a touch device. Otherwise, if it has pressure or tilt classes, we declare
/// that it's a pen or an eraser (distinguishing between the two by looking at the device name).
/// Otherwise, it's a mouse.
pub open spec fn kind_of(name: Seq<u8>, classes: Seq<DeviceClass>, valuators: PenValuators) -> DeviceKind {
    if exists|i: int| 0 <= i < classes.len() && touches(#[trigger] classes[i]) {
        DeviceKind::Touch
    } else if valuators.none_found() {
        DeviceKind::Mouse
    } else if occurs_in(name, eraser()) {
        DeviceKind::Eraser
    } else {
        DeviceKind::Pen
    }
}

impl DeviceInfo {
    /// Infers the kind of a device.
    pub fn detect_device_kind(
        name: &Vec<u8>,
        classes: &Vec<DeviceClass>,
        valuators: &PenValuators,
    ) -> (kind: DeviceKind)
        ensures
            kind == kind_of(name@, classes@, *valuators),
    {
        let mut i: usize = 0;
        while i < classes.len()
            invariant
                i <= classes@.len(),
                forall|j: int| 0 <= j < i ==> !touches(#[trigger] classes@[j]),
            decreases classes.len() - i,
        {
            if is_touch_class(&classes[i]) {
                assert(touches(classes@[i as int]));
                return DeviceKind::Touch;
            }
            i += 1;
        }
        if valuators.is_empty() {
            return DeviceKind::Mouse;
        }
        let word: [u8; 6] = [101, 114, 97, 115, 101, 114];
        assert(word@ =~= eraser());
        if find(name.as_slice(), word.as_slice()).is_some() {
            DeviceKind::Eraser
        } else {
            DeviceKind::Pen
        }
    }

    /// Works out what is known of a device.
    pub fn new(dev: DeviceDescription, labels: &PenLabels) -> (info: DeviceInfo)
        ensures
            info.id == dev.id,
            info.name == dev.name,
            info.device_type == dev.device_type,
            info.valuators == labels.axes(dev.classes@),
            info.device_kind == kind_of(dev.name@, dev.classes@, info.valuators),
    {
        let valuators = PenValuators::new(&dev.classes, labels);
        let device_kind = Self::detect_device_kind(&dev.name, &dev.classes, &valuators);
        DeviceInfo {
            id: dev.id,
            name: dev.name,
            device_type: dev.device_type,
            device_kind,
            valuators,
        }
    }
}

/// Whether a version of xinput is 2.2 or later.
pub open spec fn can_be_used(major: u16, minor: u16) -> bool {
    major > 2 || (major == 2 && minor >= 2)
}

/// Versions are in order: one that is not earlier than one that can be used can be used. The first
/// that can be used is 2.2.
pub proof fn law_later_versions_can_be_used(major: u16, minor: u16, later_major: u16, later_minor: u16)
    requires
        later_major * 0x1_0000 + later_minor >= major * 0x1_0000 + minor,
    ensures
        can_be_used(major, minor) ==> can_be_used(later_major, later_minor),
        can_be_used(major, minor) == (major * 0x1_0000 + minor >= 0x2_0002),
{
}

/// Whether the server's version of xinput can be used. Version 2.2 added multitouch; xorg has
/// supported it since 2012.
pub fn is_supported_version(major: u16, minor: u16) -> (supported: bool)
    ensures
        supported == can_be_used(major, minor),
{
    major > 2 || (major == 2 && minor >= 2)
}

/// Whether a device is one to know of: a pointer.
pub open spec fn is_pointer(device_type: DeviceType) -> bool {
    device_type == DeviceType::MasterPointer || device_type == DeviceType::SlavePointer
}

/// Whether the entry of a device says what its description does.
pub open spec fn describes(info: DeviceInfo, dev: DeviceDescription, labels: PenLabels) -> bool {
    &&& info.id == dev.id
    &&& info.name@ == dev.name@
    &&& info.device_type == dev.device_type
    &&& info.valuators == labels.axes(dev.classes@)
    &&& info.device_kind == kind_of(dev.name@, dev.classes@, info.valuators)
}

/// The last description of a pointer with a number.
pub open spec fn last_description(devices: Seq<DeviceDescription>, id: u64) -> Option<
    DeviceDescription,
>
    decreases devices.len(),
{
    if devices.len() == 0 {
        None
    } else if devices.last().id == id && is_pointer(devices.last().device_type) {
        Some(devices.last())
    } else {
        last_description(devices.drop_last(), id)
    }
}

/// All pointing devices, by their numbers.
pub struct PointersState {
    device_infos: HashMap<u64, DeviceInfo>,
}

impl View for PointersState {
    type V = Map<u64, DeviceInfo>;

    closed spec fn view(&self) -> Map<u64, DeviceInfo> {
        self.device_infos@
    }
}

impl PointersState {
    /// No devices.
    pub fn new() -> (state: PointersState)
        ensures
            state@ == Map::<u64, DeviceInfo>::empty(),
    {
        PointersState { device_infos: HashMap::new() }
    }

    /// What is known of a device.
    pub fn device_info(&self, id: u16) -> (info: Option<&DeviceInfo>)
        ensures
            match info {
                Some(info) => self@.dom().contains(id as u64) && *info == self@[id as u64],
                None => !self@.dom().contains(id as u64),
            },
    {
        broadcast use vstd::std_specs::hash::group_hash_axioms;

        let key: u64 = id as u64;
        self.device_infos.get(&key)
    }

    /// Collects the pointers among the devices that the server knows of.
    pub fn initialize_pointers(devices: Vec<DeviceDescription>, labels: &PenLabels) -> (state:
        PointersState)
        ensures
            forall|id: u64|
                #![trigger state@.dom().contains(id)]
                state@.dom().contains(id) == (last_description(devices@, id) is Some)
                    && (state@.dom().contains(id) ==> describes(
                    state@[id],
                    last_description(devices@, id)->0,
                    *labels,
                )),
    {
        broadcast use vstd::std_specs::hash::group_hash_axioms;

        let ghost all = devices@;
        let mut state = PointersState::new();
        let mut rest: Vec<DeviceDescription> = devices;
        // Taken from the end, so that the last description of a device is the one that counts
        while rest.len() > 0
            invariant
                rest@.len() <= all.len(),
                rest@ == all.take(rest@.len() as int),
                forall|id: u64|
                    #![trigger state@.dom().contains(id)]
                    state@.dom().contains(id) ==> last_description(all, id) is Some && describes(
                        state@[id],
                        last_description(all, id)->0,
                        *labels,
                    ),
                forall|id: u64|
                    #![trigger last_description(all, id)]
                    !state@.dom().contains(id) ==> last_description(all, id) == last_description(
                        rest@,
                        id,
                    ),
            decreases rest.len(),
        {
            let ghost before = rest@;
            let last = rest.pop();
            if let Some(dev) = last {
                proof {
                    assert(rest@ =~= before.drop_last());
                    assert(rest@ =~= all.take(rest@.len() as int));
                    assert(dev == before.last());
                }
                let key: u64 = dev.id as u64;
                let wanted = dev.device_type == DeviceType::MasterPointer || dev.device_type
                    == DeviceType::SlavePointer;
                if wanted && !state.device_infos.contains_key(&key) {
                    let ghost known = state@;
                    assert(last_description(before, key) == Some(dev));
                    assert(last_description(all, key) == Some(dev));
                    let info = DeviceInfo::new(dev, labels);
                    let _ = state.device_infos.insert(key, info);
                    assert(state@ =~= known.insert(key, info));
                }
            }
        }
        assert(rest@ =~= Seq::<DeviceDescription>::empty());
        state
    }
}

/// Numbers are in order by their whole parts, and where those agree by what is after the point.
pub proof fn law_numbers_are_in_order(first: Fp3232, second: Fp3232)
    ensures
        (first.scaled() < second.scaled()) == (first.integral < second.integral || (first.integral
            == second.integral && first.frac < second.frac)),
        first.scaled() == second.scaled() ==> first == second,
        first.scaled() / 0x1_0000_0000 == first.integral,
        first.scaled() % 0x1_0000_0000 == first.frac,
{
}

/// An axis has the number, the limits and the resolution that the device says it has.
pub proof fn law_axes_are_as_described(
    label: u32,
    number: u16,
    min: Fp3232,
    max: Fp3232,
    resolution: u32,
)
    ensures
        ({
            let axis = axis_of(DeviceClass::Valuator { label, number, min, max, resolution });
            &&& axis.idx == number
            &&& axis.min == min.scaled()
            &&& axis.max == max.scaled()
            &&& axis.resolution == resolution
        }),
{
}

/// The first axis with a label is the one that has no other with the label before it; there is one
/// if any class describes such an axis.
pub proof fn law_first_axis_has_none_before_it(classes: Seq<DeviceClass>, label: u32, i: int)
    requires
        0 <= i < classes.len(),
        is_labelled(classes[i], label),
        forall|j: int| 0 <= j < i ==> !is_labelled(#[trigger] classes[j], label),
    ensures
        first_axis(classes, label) == Some(axis_of(classes[i])),
    decreases classes.len(),
{
    let before = classes.drop_last();
    if i < before.len() {
        assert forall|j: int| 0 <= j < i implies !is_labelled(#[trigger] before[j], label) by {
            assert(before[j] == classes[j]);
        }
        law_first_axis_has_none_before_it(before, label, i);
    } else {
        assert forall|j: int| 0 <= j < before.len() implies !is_labelled(
            #[trigger] before[j],
            label,
        ) by {
            assert(before[j] == classes[j]);
        }
        law_no_axis_without_its_label(before, label);
    }
}

/// Where no class describes an axis with a label, there is none.
pub proof fn law_no_axis_without_its_label(classes: Seq<DeviceClass>, label: u32)
    requires
        forall|j: int| 0 <= j < classes.len() ==> !is_labelled(#[trigger] classes[j], label),
    ensures
        first_axis(classes, label) is None,
    decreases classes.len(),
{
    if classes.len() > 0 {
        let before = classes.drop_last();
        assert forall|j: int| 0 <= j < before.len() implies !is_labelled(
            #[trigger] before[j],
            label,
        ) by {
            assert(before[j] == classes[j]);
        }
        law_no_axis_without_its_label(before, label);
        assert(!is_labelled(classes[classes.len() - 1], label));
    }
}

/// A device that can be touched is a touch device, whatever else it has and whatever its name is.
/// Of the others, one without any axis of a pen is a mouse; the name only tells pens and erasers
/// apart.
pub proof fn law_kinds_follow_from_what_devices_have(
    name: Seq<u8>,
    other_name: Seq<u8>,
    classes: Seq<DeviceClass>,
    valuators: PenValuators,
    i: int,
)
    ensures
        0 <= i < classes.len() && touches(classes[i]) ==> kind_of(name, classes, valuators) is Touch,
        kind_of(name, classes, valuators) is Touch ==> exists|j: int|
            0 <= j < classes.len() && touches(#[trigger] classes[j]),
        kind_of(name, classes, valuators) is Mouse ==> valuators.pressure is None
            && valuators.x_tilt is None && valuators.y_tilt is None,
        kind_of(name, classes, valuators) is Pen || kind_of(name, classes, valuators) is Eraser
            ==> valuators.pressure is Some || valuators.x_tilt is Some || valuators.y_tilt is Some,
        kind_of(name, classes, valuators) is Eraser ==> occurs_in(name, eraser()),
        kind_of(name, classes, valuators) is Pen ==> !occurs_in(name, eraser()),
        kind_of(name, classes, valuators) is Touch == kind_of(other_name, classes, valuators) is Touch,
        kind_of(name, classes, valuators) is Mouse == kind_of(other_name, classes, valuators) is Mouse,
{
    if 0 <= i < classes.len() && touches(classes[i]) {
        assert(exists|j: int| 0 <= j < classes.len() && touches(#[trigger] classes[j]));
    }
}

/// Only a class for touches says that a device can be touched, and only if it counts any.
pub proof fn law_touches_are_counted(class: DeviceClass)
    ensures
        touches(class) == (class is Touch && class->num_touches != 0),
{
}

/// Of several descriptions of a pointer the last counts. A device that is no pointer is not known.
pub proof fn law_last_description_counts(devices: Seq<DeviceDescription>, id: u64, i: int)
    requires
        0 <= i < devices.len(),
        devices[i].id == id,
        is_pointer(devices[i].device_type),
        forall|j: int|
            i < j < devices.len() ==> !((#[trigger] devices[j]).id == id && is_pointer(
                devices[j].device_type,
            )),
    ensures
        last_description(devices, id) == Some(devices[i]),
        devices[i].device_type !is Other,
    decreases devices.len(),
{
    let before = devices.drop_last();
    if i < before.len() {
        assert forall|j: int| i < j < before.len() implies !((#[trigger] before[j]).id == id
            && is_pointer(before[j].device_type)) by {
            assert(before[j] == devices[j]);
        }
        law_last_description_counts(before, id, i);
        assert(!(devices[devices.len() - 1].id == id && is_pointer(
            devices[devices.len() - 1].device_type,
        )));
    }
}

/// A device is known only if some description is of it, as a pointer.
pub proof fn law_known_devices_were_described(devices: Seq<DeviceDescription>, id: u64)
    ensures
        last_description(devices, id) matches Some(dev) ==> devices.contains(dev) && dev.id == id
            && dev.device_type !is Other,
    decreases devices.len(),
{
    if devices.len() > 0 {
        let before = devices.drop_last();
        law_known_devices_were_described(before, id);
        if let Some(dev) = last_description(devices, id) {
            if devices.last().id == id && is_pointer(devices.last().device_type) {
                assert(devices[devices.len() - 1] == dev);
            } else {
                let k = choose|k: int| 0 <= k < before.len() && before[k] == dev;
                assert(devices[k] == dev);
            }
        }
    }
}

/// What is known of a device is what the server said of it, and its kind follows from that.
pub proof fn law_known_devices_are_as_described(
    info: DeviceInfo,
    dev: DeviceDescription,
    labels: PenLabels,
)
    requires
        labels.distinct(),
        describes(info, dev, labels),
    ensures
        info.id == dev.id,
        info.name@ == dev.name@,
        info.device_type == dev.device_type,
        info.valuators.pressure == first_axis(dev.classes@, labels.pressure),
        info.valuators.x_tilt == first_axis(dev.classes@, labels.x_tilt),
        info.valuators.y_tilt == first_axis(dev.classes@, labels.y_tilt),
        info.device_kind is Mouse ==> info.valuators.none_found(),
{
    labels.law_first_axis_counts(dev.classes@);
}

} // verus!
