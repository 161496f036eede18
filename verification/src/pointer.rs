//! Input from any kind of pointing device.

use vstd::prelude::*;

use crate::bits;
use crate::geometry::DpSize;
use crate::keyboard::Modifiers;
use crate::mouse;
use crate::mouse::{MouseButton, MouseButtons, MouseEvent, PixelPoint, WheelDelta};

verus! {

/// Tilt X and tilt Y are another representation of the pen inclination, in whole degrees.
#[derive(Clone, Copy, Debug, PartialEq, Eq, Structural)]
pub struct PenInclinationTilt {
    pub tilt_x: i8,
    pub tilt_y: i8,
}

/// Various properties of a mouse event.
#[derive(Clone, Copy, Debug, PartialEq, Eq, Structural)]
pub struct MouseInfo {
    pub wheel_delta: WheelDelta,
}

/// An indicator of which pointer button was pressed.
#[derive(Clone, Copy, Debug, PartialEq, Eq, Structural)]
pub enum PointerButton {
    /// No pointer button.
    NoButton,
    /// Primary button, commonly the left mouse button, touch contact, pen contact.
    Primary,
    /// Secondary button, commonly the right mouse button, pen barrel button.
    Secondary,
    /// Auxiliary button, commonly the middle mouse button.
    Auxiliary,
    /// First X button, back.
    X1,
    /// Second X button, forward.
    X2,
}

/// The bit that stands for a button.
fn button_bit(button: PointerButton) -> (bit: u8)
    ensures
        bit == bit_of(button),
{
    match button {
        PointerButton::NoButton => 0,
        PointerButton::Primary => 1,
        PointerButton::Secondary => 2,
        PointerButton::Auxiliary => 4,
        PointerButton::X1 => 8,
        PointerButton::X2 => 16,
    }
}

impl PointerButton {
    /// Returns `true` if this is [`PointerButton::Primary`].
    pub fn is_primary(self) -> (yes: bool)
        ensures
            yes == (self == PointerButton::Primary),
    {
        self == PointerButton::Primary
    }

    /// Returns `true` if this is [`PointerButton::Secondary`].
    pub fn is_secondary(self) -> (yes: bool)
        ensures
            yes == (self == PointerButton::Secondary),
    {
        self == PointerButton::Secondary
    }

    /// Returns `true` if this is [`PointerButton::Auxiliary`].
    pub fn is_auxiliary(self) -> (yes: bool)
        ensures
            yes == (self == PointerButton::Auxiliary),
    {
        self == PointerButton::Auxiliary
    }

    /// Returns `true` if this is [`PointerButton::X1`].
    pub fn is_x1(self) -> (yes: bool)
        ensures
            yes == (self == PointerButton::X1),
    {
        self == PointerButton::X1
    }

    /// Returns `true` if this is [`PointerButton::X2`].
    pub fn is_x2(self) -> (yes: bool)
        ensures
            yes == (self == PointerButton::X2),
    {
        self == PointerButton::X2
    }
}

/// The bit that stands for a button.
pub open spec fn bit_of(button: PointerButton) -> u8 {
    match button {
        PointerButton::NoButton => 0,
        PointerButton::Primary => 1,
        PointerButton::Secondary => 2,
        PointerButton::Auxiliary => 4,
        PointerButton::X1 => 8,
        PointerButton::X2 => 16,
    }
}

/// A set of [`PointerButton`]s.
#[derive(Clone, Copy, Debug, PartialEq, Eq, Structural)]
pub struct PointerButtons {
    bits: u8,
}

impl View for PointerButtons {
    type V = Set<PointerButton>;

    /// The buttons in the set. `PointerButton::NoButton` is never one of them.
    open spec fn view(&self) -> Set<PointerButton> {
        Set::new(|button: PointerButton| bits::any8(self.bits(), bit_of(button)))
    }
}

/// Setting and clearing the bit of a button leaves the other buttons alone.
proof fn lemma_button_bits(bits: u8)
    ensures
        forall|button: PointerButton, other: PointerButton|
            #![trigger bit_of(button), bit_of(other)]
            (bits::any8(bits | bit_of(button), bit_of(other)) <==> bits::any8(bits, bit_of(other))
                || (button == other && other != PointerButton::NoButton)) && (bits::any8(
                bits & !bit_of(button),
                bit_of(other),
            ) <==> bits::any8(bits, bit_of(other)) && button != other),
        !bits::any8(bits, bit_of(PointerButton::NoButton)),
{
    assert forall|button: PointerButton, other: PointerButton|
        #![trigger bit_of(button), bit_of(other)]
        (bits::any8(bits | bit_of(button), bit_of(other)) <==> bits::any8(bits, bit_of(other)) || (
        button == other && other != PointerButton::NoButton)) && (bits::any8(
            bits & !bit_of(button),
            bit_of(other),
        ) <==> bits::any8(bits, bit_of(other)) && button != other) by {
        let b = bit_of(button);
        let o = bit_of(other);
        assert(((bits | b) & o != 0 <==> (bits & o != 0 || (b == o && o != 0))) && ((bits & !b) & o
            != 0 <==> bits & o != 0 && b != o)) by (bit_vector)
            requires
                b == 0 || b == 1 || b == 2 || b == 4 || b == 8 || b == 16,
                o == 0 || o == 1 || o == 2 || o == 4 || o == 8 || o == 16,
        ;
    }
    assert(bits & 0 == 0) by (bit_vector);
}

impl PointerButtons {
    /// The set, one bit for each button.
    pub closed spec fn bits(self) -> u8 {
        self.bits
    }

    /// Only the bits of buttons are used.
    #[verifier::type_invariant]
    pub closed spec fn wf(self) -> bool {
        self.bits & !0x1fu8 == 0
    }

    /// Create a new empty set.
    pub fn new() -> (buttons: PointerButtons)
        ensures
            buttons.bits() == 0,
            buttons@ == Set::<PointerButton>::empty(),
    {
        proof {
            assert(forall|m: u8| 0u8 & m == 0) by (bit_vector);
        }
        let buttons = PointerButtons { bits: 0 };
        assert(buttons@ =~= Set::<PointerButton>::empty());
        buttons
    }

    /// Add the `button` to the set.
    pub fn insert(&mut self, button: PointerButton)
        ensures
            final(self).bits() == old(self).bits() | bit_of(button),
            button != PointerButton::NoButton ==> final(self)@ == old(self)@.insert(button),
            button == PointerButton::NoButton ==> final(self)@ == old(self)@,
    {
        *self = self.with(button);
    }

    /// Remove the `button` from the set.
    pub fn remove(&mut self, button: PointerButton)
        ensures
            final(self).bits() == old(self).bits() & !bit_of(button),
            final(self)@ == old(self)@.remove(button),
    {
        *self = self.without(button);
    }

    /// Builder-style method for adding the `button` to the set.
    pub fn with(self, button: PointerButton) -> (buttons: PointerButtons)
        ensures
            buttons.bits() == self.bits() | bit_of(button),
            button != PointerButton::NoButton ==> buttons@ == self@.insert(button),
            button == PointerButton::NoButton ==> buttons@ == self@,
    {
        let bit: u8 = button_bit(button);
        let old_bits: u8 = self.bits;
        proof {
            use_type_invariant(&self);
            lemma_button_bits(self.bits);
            assert((old_bits | bit) & !0x1fu8 == 0) by (bit_vector)
                requires
                    old_bits & !0x1fu8 == 0,
                    bit == 0 || bit == 1 || bit == 2 || bit == 4 || bit == 8 || bit == 16,
            ;
        }
        let buttons = PointerButtons { bits: old_bits | bit };
        assert(button != PointerButton::NoButton ==> buttons@ =~= self@.insert(button));
        assert(button == PointerButton::NoButton ==> buttons@ =~= self@);
        buttons
    }

    /// Builder-style method for removing the `button` from the set.
    pub fn without(self, button: PointerButton) -> (buttons: PointerButtons)
        ensures
            buttons.bits() == self.bits() & !bit_of(button),
            buttons@ == self@.remove(button),
    {
        let bit: u8 = button_bit(button);
        let old_bits: u8 = self.bits;
        proof {
            use_type_invariant(&self);
            lemma_button_bits(self.bits);
            assert((old_bits & !bit) & !0x1fu8 == 0) by (bit_vector)
                requires
                    old_bits & !0x1fu8 == 0,
            ;
        }
        let buttons = PointerButtons { bits: old_bits & !bit };
        assert(buttons@ =~= self@.remove(button));
        buttons
    }

    /// Returns `true` if the `button` is in the set.
    pub fn contains(self, button: PointerButton) -> (found: bool)
        ensures
            found == self@.contains(button),
    {
        self.bits & button_bit(button) != 0
    }

    /// Returns `true` if the set is empty.
    pub fn is_empty(self) -> (empty: bool)
        ensures
            empty == (self.bits() == 0),
            empty == (self@ == Set::<PointerButton>::empty()),
    {
        proof {
            use_type_invariant(&self);
            self.lemma_no_buttons();
        }
        self.bits == 0
    }

    /// The empty set is the one without any bit.
    proof fn lemma_no_buttons(self)
        requires
            self.wf(),
        ensures
            (self.bits() == 0) == (self@ == Set::<PointerButton>::empty()),
    {
        let bits = self.bits;
        assert((bits & 1 == 0 && bits & 2 == 0 && bits & 4 == 0 && bits & 8 == 0 && bits & 16 == 0)
            <==> bits == 0) by (bit_vector)
            requires
                bits & !0x1fu8 == 0,
        ;
        assert(forall|m: u8| 0u8 & m == 0) by (bit_vector);
        if bits == 0 {
            assert(self@ =~= Set::<PointerButton>::empty());
        } else {
            assert(self@.contains(PointerButton::Primary) || self@.contains(
                PointerButton::Secondary,
            ) || self@.contains(PointerButton::Auxiliary) || self@.contains(PointerButton::X1)
                || self@.contains(PointerButton::X2));
        }
    }

    /// Returns `true` if all the `buttons` are in the set.
    pub fn is_superset(self, buttons: PointerButtons) -> (all: bool)
        ensures
            all == (self.bits() & buttons.bits() == buttons.bits()),
            all == buttons@.subset_of(self@),
    {
        let a: u8 = self.bits;
        let b: u8 = buttons.bits;
        proof {
            use_type_invariant(&buttons);
            assert((a & b == b) <==> ((b & 1 != 0 ==> a & 1 != 0) && (b & 2 != 0 ==> a & 2 != 0) && (
            b & 4 != 0 ==> a & 4 != 0) && (b & 8 != 0 ==> a & 8 != 0) && (b & 16 != 0 ==> a & 16
                != 0))) by (bit_vector)
                requires
                    b & !0x1fu8 == 0,
            ;
            lemma_button_bits(b);
            if a & b == b {
                assert(buttons@.subset_of(self@));
            } else {
                assert(!(self@.contains(PointerButton::Primary) || !buttons@.contains(
                    PointerButton::Primary,
                )) || !(self@.contains(PointerButton::Secondary) || !buttons@.contains(
                    PointerButton::Secondary,
                )) || !(self@.contains(PointerButton::Auxiliary) || !buttons@.contains(
                    PointerButton::Auxiliary,
                )) || !(self@.contains(PointerButton::X1) || !buttons@.contains(PointerButton::X1))
                    || !(self@.contains(PointerButton::X2) || !buttons@.contains(
                    PointerButton::X2,
                )));
            }
        }
        self.bits & buttons.bits == buttons.bits
    }

    /// Returns `true` if [`PointerButton::Primary`] is in the set.
    pub fn has_primary(self) -> (found: bool)
        ensures
            found == self@.contains(PointerButton::Primary),
    {
        self.contains(PointerButton::Primary)
    }

    /// Returns `true` if [`PointerButton::Secondary`] is in the set.
    pub fn has_secondary(self) -> (found: bool)
        ensures
            found == self@.contains(PointerButton::Secondary),
    {
        self.contains(PointerButton::Secondary)
    }

    /// Returns `true` if [`PointerButton::Auxiliary`] is in the set.
    pub fn has_auxiliary(self) -> (found: bool)
        ensures
            found == self@.contains(PointerButton::Auxiliary),
    {
        self.contains(PointerButton::Auxiliary)
    }

    /// Returns `true` if [`PointerButton::X1`] is in the set.
    pub fn has_x1(self) -> (found: bool)
        ensures
            found == self@.contains(PointerButton::X1),
    {
        self.contains(PointerButton::X1)
    }

    /// Returns `true` if [`PointerButton::X2`] is in the set.
    pub fn has_x2(self) -> (found: bool)
        ensures
            found == self@.contains(PointerButton::X2),
    {
        self.contains(PointerButton::X2)
    }

    /// Adds all the `buttons` to the set.
    pub fn extend(&mut self, buttons: PointerButtons)
        ensures
            final(self).bits() == old(self).bits() | buttons.bits(),
            final(self)@ == old(self)@.union(buttons@),
    {
        *self = self.union(buttons);
    }

    /// Returns a union of the values in `self` and `other`.
    pub fn union(self, other: PointerButtons) -> (buttons: PointerButtons)
        ensures
            buttons.bits() == self.bits() | other.bits(),
            buttons@ == self@.union(other@),
    {
        let a: u8 = self.bits;
        let b: u8 = other.bits;
        proof {
            use_type_invariant(&self);
            use_type_invariant(&other);
            assert((a | b) & !0x1fu8 == 0) by (bit_vector)
                requires
                    a & !0x1fu8 == 0,
                    b & !0x1fu8 == 0,
            ;
            assert(forall|m: u8|
                #![trigger bits::any8(a | b, m)]
                ((a | b) & m != 0) <==> (a & m != 0 || b & m != 0)) by (bit_vector);
        }
        let buttons = PointerButtons { bits: a | b };
        assert(buttons@ =~= self@.union(other@));
        buttons
    }

    /// Clear the set.
    pub fn clear(&mut self)
        ensures
            final(self).bits() == 0,
            final(self)@ == Set::<PointerButton>::empty(),
    {
        *self = Self::new();
    }

    /// Count the number of pressed buttons in the set.
    pub fn count(self) -> (count: u32)
        ensures
            count == self@.len(),
            self@.finite(),
    {
        let ghost mut counted: Set<PointerButton> = Set::empty();
        let mut count: u32 = 0;
        if self.has_primary() {
            count = count + 1;
            proof {
                counted = counted.insert(PointerButton::Primary);
            }
        }
        if self.has_secondary() {
            count = count + 1;
            proof {
                counted = counted.insert(PointerButton::Secondary);
            }
        }
        if self.has_auxiliary() {
            count = count + 1;
            proof {
                counted = counted.insert(PointerButton::Auxiliary);
            }
        }
        if self.has_x1() {
            count = count + 1;
            proof {
                counted = counted.insert(PointerButton::X1);
            }
        }
        if self.has_x2() {
            count = count + 1;
            proof {
                counted = counted.insert(PointerButton::X2);
            }
        }
        proof {
            lemma_button_bits(self.bits);
        }
        assert(counted =~= self@);
        count
    }

    /// A zero, and a digit for each bit but the lowest, highest first.
    pub open spec fn in_digits(self) -> Seq<char> {
        seq![
            '0',
            mouse::digit(self@.contains(PointerButton::X2)),
            mouse::digit(self@.contains(PointerButton::X1)),
            mouse::digit(self@.contains(PointerButton::Auxiliary)),
            mouse::digit(self@.contains(PointerButton::Secondary)),
        ]
    }

    /// The digits of a set name its buttons but the primary one, and begin with a zero.
    pub proof fn law_digits_name_the_buttons(self)
        ensures
            self.in_digits().len() == 5,
            (self.in_digits()[4] == '1') == self@.contains(PointerButton::Secondary),
            (self.in_digits()[3] == '1') == self@.contains(PointerButton::Auxiliary),
            (self.in_digits()[2] == '1') == self@.contains(PointerButton::X1),
            (self.in_digits()[1] == '1') == self@.contains(PointerButton::X2),
            self.in_digits()[0] == '0',
            forall|i: int|
                0 <= i < 5 ==> #[trigger] self.in_digits()[i] == '0' || self.in_digits()[i] == '1',
    {
    }

    /// The set as text, for logging: a zero, and a digit for each bit but the lowest, highest
    /// first.
    pub fn debug_text(self) -> (text: String)
        ensures
            text@ == ("PointerButtons("@ + self.in_digits()).push(')'),
    {
        let mut text = "PointerButtons(".to_owned();
        text.push('0');
        text.push(mouse::bit_digit(self.has_x2()));
        text.push(mouse::bit_digit(self.has_x1()));
        text.push(mouse::bit_digit(self.has_auxiliary()));
        text.push(mouse::bit_digit(self.has_secondary()));
        text.push(')');
        assert(text@ =~= ("PointerButtons("@ + self.in_digits()).push(')'));
        text
    }
}

impl Default for PointerButtons {
    fn default() -> (buttons: PointerButtons)
        ensures
            buttons@ == Set::<PointerButton>::empty(),
            buttons.bits() == 0,
    {
        PointerButtons::new()
    }
}

impl vstd::std_specs::convert::FromSpecImpl<MouseButton> for PointerButton {
    open spec fn obeys_from_spec() -> bool {
        true
    }

    open spec fn from_spec(m: MouseButton) -> PointerButton {
        match m {
            MouseButton::NoButton => PointerButton::NoButton,
            MouseButton::Primary => PointerButton::Primary,
            MouseButton::Secondary => PointerButton::Secondary,
            MouseButton::Auxiliary => PointerButton::Auxiliary,
            MouseButton::X1 => PointerButton::X1,
            MouseButton::X2 => PointerButton::X2,
        }
    }
}

impl From<MouseButton> for PointerButton {
    fn from(m: MouseButton) -> (button: PointerButton) {
        match m {
            MouseButton::NoButton => PointerButton::NoButton,
            MouseButton::Primary => PointerButton::Primary,
            MouseButton::Secondary => PointerButton::Secondary,
            MouseButton::Auxiliary => PointerButton::Auxiliary,
            MouseButton::X1 => PointerButton::X1,
            MouseButton::X2 => PointerButton::X2,
        }
    }
}

/// The pointer button that a mouse button is.
pub open spec fn pointer_button(button: MouseButton) -> PointerButton {
    <PointerButton as vstd::std_specs::convert::FromSpec<MouseButton>>::from_spec(button)
}

impl PointerButtons {
    /// The same buttons, as pointer buttons. The bits of mouse buttons lie one above theirs.
    pub closed spec fn same_buttons(buttons: MouseButtons) -> PointerButtons {
        PointerButtons { bits: buttons.bits() >> 1 }
    }

    /// A set of mouse buttons and the set of pointer buttons that it becomes hold the same buttons.
    pub proof fn law_conversion_keeps_buttons(buttons: MouseButtons, button: MouseButton)
        ensures
            Self::same_buttons(buttons)@.contains(pointer_button(button)) == buttons@.contains(
                button,
            ),
    {
        let bits = buttons.bits();
        let above = mouse::bit_of(button);
        let bit = bit_of(pointer_button(button));
        assert(((bits >> 1) & bit != 0) == (bits & above != 0)) by (bit_vector)
            requires
                (above == 0 && bit == 0) || (above == 2 && bit == 1) || (above == 4 && bit == 2) || (
                above == 8 && bit == 4) || (above == 16 && bit == 8) || (above == 32 && bit == 16),
        ;
    }
}

impl vstd::std_specs::convert::FromSpecImpl<MouseButtons> for PointerButtons {
    open spec fn obeys_from_spec() -> bool {
        true
    }

    open spec fn from_spec(m: MouseButtons) -> PointerButtons {
        PointerButtons::same_buttons(m)
    }
}

impl From<MouseButtons> for PointerButtons {
    fn from(m: MouseButtons) -> (buttons: PointerButtons)
        ensures
            forall|button: MouseButton|
                #![trigger m@.contains(button)]
                #![trigger pointer_button(button)]
                buttons@.contains(pointer_button(button)) == m@.contains(button),
    {
        let bits: u8 = m.raw_bits();
        proof {
            assert((bits >> 1) & !0x1fu8 == 0) by (bit_vector)
                requires
                    bits & !0x3eu8 == 0,
            ;
            assert forall|button: MouseButton|
                Self::same_buttons(m)@.contains(pointer_button(button)) == m@.contains(button) by {
                Self::law_conversion_keeps_buttons(m, button);
            }
        }
        PointerButtons { bits: bits >> 1 }
    }
}

/// Names a pointer.
#[derive(Clone, Copy, Debug, PartialEq, Eq, Structural, Hash)]
pub struct PointerId(pub u64);

/// The bits of a double that is 0.5.
pub const HALF: u64 = 0x3fe0_0000_0000_0000;

/// The bits of a double that is 1.
pub const ONE: u64 = 0x3ff0_0000_0000_0000;

/// The bits of a double that is a quarter of a full turn, in radians.
pub const QUARTER_TURN: u64 = 0x3ff9_21fb_5444_2d18;

/// The bits of a single that is 0.5.
pub const HALF_SINGLE: u32 = 0x3f00_0000;

/// An angle, carried as the bits of a double.
#[derive(Clone, Copy, Debug, PartialEq, Eq, Structural)]
pub struct Angle {
    radians: u64,
}

impl Angle {
    /// The angle in radians.
    pub closed spec fn in_radians(self) -> u64 {
        self.radians
    }

    pub fn radians(radians: u64) -> (angle: Angle)
        ensures
            angle.in_radians() == radians,
    {
        Angle { radians }
    }

    pub fn to_radians(self) -> (radians: u64)
        ensures
            radians == self.in_radians(),
    {
        self.radians
    }
}

/// For pens that support tilt, this specifies where the pen is tilted.
///
/// Imagine that the tablet is on the x-y plane, with the positive x-axis pointing to the user's right. The pen's tip
/// is at the origin of the x-y plane. Then the `altitude` is the angle between the pen and the tablet (so an altitude
/// of zero means that the pen is lying on the tablet, and an altitude of 90 degrees means that the pen is sticking
/// straight up). The `azimuth` is the angle formed by projecting the plane onto the tablet and measuring the
/// clockwise rotation from the positive x-axis (so an azimuth of zero means the eraser is pointing at 3 o'clock
/// and an azimuth of 90 degrees means the eraser is pointing at 6 o'clock).
#[derive(Clone, Copy, Debug, PartialEq, Eq, Structural)]
pub struct PenInclination {
    pub azimuth: Angle,
    pub altitude: Angle,
}

impl PenInclination {
    /// The pen is straight up.
    pub open spec fn is_upright(self) -> bool {
        self.azimuth.in_radians() == 0 && self.altitude.in_radians() == QUARTER_TURN
    }
}

impl Default for PenInclination {
    /// The default pen inclination is straight up.
    fn default() -> (inclination: PenInclination)
        ensures
            inclination.is_upright(),
    {
        PenInclination { azimuth: Angle::radians(0), altitude: Angle::radians(QUARTER_TURN) }
    }
}

/// Various properties of a pen event. Numbers are carried as the bits of doubles.
#[derive(Clone, Copy, Debug, PartialEq, Eq, Structural)]
pub struct PenInfo {
    /// The pressure of the pen against the tablet ranging from `0.0` (no pressure) to `1.0` (maximum pressure).
    pub pressure: u64,
    /// Another pressure parameter, often controlled by an additional physical control (like the a finger wheel
    /// on an airbrush stylus). Ranges from `-1.0` to `1.0`.
    pub tangential_pressure: u64,
    /// The inclination (or tilt) of the pen relative to the tablet.
    pub inclination: PenInclination,
    /// How much has the pen been twisted around its axis.
    pub twist: Angle,
}

impl Default for PenInfo {
    /// A pen straight up. Hardware that doesn't support pressure is taken to press half.
    fn default() -> (info: PenInfo)
        ensures
            info.pressure == HALF,
            info.tangential_pressure == 0,
            info.twist.in_radians() == 0,
            info.inclination.is_upright(),
    {
        PenInfo {
            pressure: HALF,
            tangential_pressure: 0,
            twist: Angle::radians(0),
            inclination: PenInclination {
                altitude: Angle::radians(QUARTER_TURN),
                azimuth: Angle::radians(0),
            },
        }
    }
}

/// Various properties of a touch event.
#[derive(Clone, Copy, Debug, PartialEq, Eq, Structural)]
pub struct TouchInfo {
    pub contact_geometry: DpSize,
    /// The pressure, as the bits of a single.
    pub pressure: u32,
}

impl Default for TouchInfo {
    /// A single point. Hardware that doesn't support pressure is taken to press half.
    fn default() -> (info: TouchInfo)
        ensures
            info == (TouchInfo {
                contact_geometry: DpSize { width: ONE, height: ONE },
                pressure: HALF_SINGLE,
            }),
    {
        TouchInfo {
            pressure: HALF_SINGLE,
            contact_geometry: DpSize { width: ONE, height: ONE },
        }
    }
}

/// The kind of device that a pointer event comes from.
#[derive(Clone, Copy, Debug, PartialEq, Eq, Structural)]
pub enum PointerType {
    Mouse(MouseInfo),
    Pen(PenInfo),
    Eraser(PenInfo),
    Touch(TouchInfo),
}

/// What a pointer event reports.
#[derive(Clone, Copy, Debug, PartialEq, Eq, Structural)]
pub struct PointerEvent {
    pub pointer_id: PointerId,
    pub is_primary: bool,
    pub pointer_type: PointerType,
    pub pos: PixelPoint,
    pub buttons: PointerButtons,
    pub modifiers: Modifiers,
    /// The button that was pressed down in the case of mouse-down,
    /// or the button that was released in the case of mouse-up.
    /// This will always be `PointerButton::NoButton` in the case of mouse-move/touch.
    pub button: PointerButton,
    /// Focus is `true` on macOS when the mouse-down event (or its companion mouse-up event)
    /// with `MouseButton::Primary` was the event that caused the window to gain focus.
    pub focus: bool,
    pub count: u8,
}

impl Default for PointerEvent {
    fn default() -> (event: PointerEvent)
        ensures
            event.pos == (PixelPoint { x: 0, y: 0 }),
            event.buttons@ == Set::<PointerButton>::empty(),
            event.modifiers == Modifiers::of(0),
            event.button == PointerButton::NoButton,
            !event.focus,
            event.count == 0,
            event.pointer_id == PointerId(0),
            event.is_primary,
            event.pointer_type == PointerType::Mouse(
                MouseInfo { wheel_delta: WheelDelta { x: 0, y: 0 } },
            ),
    {
        PointerEvent {
            pos: PixelPoint { x: 0, y: 0 },
            buttons: PointerButtons::new(),
            modifiers: Modifiers::empty(),
            button: PointerButton::NoButton,
            focus: false,
            count: 0,
            pointer_id: PointerId(0),
            is_primary: true,
            pointer_type: PointerType::Mouse(MouseInfo { wheel_delta: WheelDelta { x: 0, y: 0 } }),
        }
    }
}

impl vstd::std_specs::convert::FromSpecImpl<MouseEvent> for PointerEvent {
    open spec fn obeys_from_spec() -> bool {
        true
    }

    open spec fn from_spec(m: MouseEvent) -> PointerEvent {
        PointerEvent {
            pointer_id: PointerId(0),
            is_primary: true,
            pointer_type: PointerType::Mouse(MouseInfo { wheel_delta: m.wheel_delta }),
            pos: m.pos,
            buttons: PointerButtons::same_buttons(m.buttons),
            modifiers: m.mods,
            button: <PointerButton as vstd::std_specs::convert::FromSpec<MouseButton>>::from_spec(
                m.button,
            ),
            focus: m.focus,
            count: m.count,
        }
    }
}

impl From<MouseEvent> for PointerEvent {
    fn from(m: MouseEvent) -> (event: PointerEvent)
        ensures
            forall|button: MouseButton|
                #![trigger m.buttons@.contains(button)]
                #![trigger pointer_button(button)]
                event.buttons@.contains(pointer_button(button)) == m.buttons@.contains(button),
    {
        PointerEvent {
            pointer_id: PointerId(0),
            is_primary: true,
            pointer_type: PointerType::Mouse(MouseInfo { wheel_delta: m.wheel_delta }),
            pos: m.pos,
            buttons: PointerButtons::from(m.buttons),
            modifiers: m.mods,
            button: PointerButton::from(m.button),
            focus: m.focus,
            count: m.count,
        }
    }
}

impl PointerEvent {
    pub fn is_touch(&self) -> (yes: bool)
        ensures
            yes == (self.pointer_type is Touch),
    {
        matches!(self.pointer_type, PointerType::Touch(_))
    }

    pub fn is_mouse(&self) -> (yes: bool)
        ensures
            yes == (self.pointer_type is Mouse),
    {
        matches!(self.pointer_type, PointerType::Mouse(_))
    }

    pub fn is_pen(&self) -> (yes: bool)
        ensures
            yes == (self.pointer_type is Pen),
    {
        matches!(self.pointer_type, PointerType::Pen(_))
    }
}

/// Each button has a bit of its own, twice the bit of the button before it. No button has none.
pub proof fn law_buttons_have_their_bits(button: PointerButton, other: PointerButton)
    ensures
        bit_of(button) == bit_of(other) ==> button == other,
        (bit_of(button) == 0) == (button is NoButton),
        bit_of(PointerButton::Primary) == 1,
        bit_of(PointerButton::Secondary) == 2 * bit_of(PointerButton::Primary),
        bit_of(PointerButton::Auxiliary) == 2 * bit_of(PointerButton::Secondary),
        bit_of(PointerButton::X1) == 2 * bit_of(PointerButton::Auxiliary),
        bit_of(PointerButton::X2) == 2 * bit_of(PointerButton::X1),
{
}

/// A mouse button becomes the pointer button of the same name.
pub proof fn law_buttons_keep_their_names(button: MouseButton)
    ensures
        (pointer_button(button) is NoButton) == (button is NoButton),
        (pointer_button(button) is Primary) == (button is Primary),
        (pointer_button(button) is Secondary) == (button is Secondary),
        (pointer_button(button) is Auxiliary) == (button is Auxiliary),
        (pointer_button(button) is X1) == (button is X1),
        (pointer_button(button) is X2) == (button is X2),
        2 * bit_of(pointer_button(button)) == mouse::bit_of(button),
{
}

/// The pointer event that a mouse event is.
pub open spec fn pointer_event(event: MouseEvent) -> PointerEvent {
    <PointerEvent as vstd::std_specs::convert::FromSpec<MouseEvent>>::from_spec(event)
}

/// A mouse is the primary pointer, and what its event reports is what the pointer event reports.
/// Mouse events that differ become pointer events that differ.
pub proof fn law_mouse_events_lose_nothing(event: MouseEvent, other: MouseEvent)
    ensures
        pointer_event(event).is_primary,
        pointer_event(event).pointer_id == PointerId(0),
        pointer_event(event).pointer_type is Mouse,
        pointer_event(event).pos == event.pos,
        pointer_event(event).modifiers == event.mods,
        pointer_event(event).count == event.count,
        pointer_event(event).focus == event.focus,
        pointer_event(event).pointer_type matches PointerType::Mouse(info) ==> info.wheel_delta
            == event.wheel_delta,
        pointer_event(event) == pointer_event(other) ==> event.pos == other.pos && event.mods
            == other.mods && event.count == other.count && event.focus == other.focus
            && event.button == other.button && event.wheel_delta == other.wheel_delta && event.buttons@
            == other.buttons@,
{
    if pointer_event(event) == pointer_event(other) {
        assert forall|button: MouseButton| event.buttons@.contains(button)
            == other.buttons@.contains(button) by {
            PointerButtons::law_conversion_keeps_buttons(event.buttons, button);
            PointerButtons::law_conversion_keeps_buttons(other.buttons, button);
        }
        assert(event.buttons@ =~= other.buttons@);
        law_buttons_keep_their_names(event.button);
        law_buttons_keep_their_names(other.button);
        assert(pointer_button(event.button) == pointer_button(other.button));
    }
}

/// The button that an event is about is one of those held in the pointer event exactly if it is in
/// the mouse event.
pub proof fn law_held_buttons_stay_held(event: MouseEvent)
    ensures
        pointer_event(event).button == pointer_button(event.button),
        pointer_event(event).buttons@.contains(pointer_event(event).button)
            == event.buttons@.contains(event.button),
{
    PointerButtons::law_conversion_keeps_buttons(event.buttons, event.button);
}

} // verus!
