//! Mouse input.

use vstd::prelude::*;

use crate::bits;
use crate::keyboard::Modifiers;

verus! {

/// A position on a window, in physical pixels from its top left corner.
#[derive(Clone, Copy, Debug, PartialEq, Eq, Structural)]
pub struct PixelPoint {
    pub x: i32,
    pub y: i32,
}

/// A wheel movement, in the units that the platform reports.
///
/// The polarity is the amount to be added to the scroll position,
/// in other words the opposite of the direction the content should
/// move on scrolling.
#[derive(Clone, Copy, Debug, PartialEq, Eq, Structural)]
pub struct WheelDelta {
    pub x: i32,
    pub y: i32,
}

/// Information about the mouse event.
#[derive(Clone, Copy, Debug, PartialEq, Eq, Structural)]
pub struct MouseEvent {
    /// The location of the mouse in relation to the current window.
    pub pos: PixelPoint,
    /// Mouse buttons being held down during a move or after a click event.
    /// Thus it will contain the `button` that triggered a mouse-down event,
    /// and it will not contain the `button` that triggered a mouse-up event.
    pub buttons: MouseButtons,
    /// Keyboard modifiers at the time of the event.
    pub mods: Modifiers,
    /// The number of mouse clicks associated with this event. This will always
    /// be `0` for a mouse-up and mouse-move events.
    pub count: u8,
    /// Focus is `true` on macOS when the mouse-down event (or its companion mouse-up event)
    /// with `MouseButton::Primary` was the event that caused the window to gain focus.
    pub focus: bool,
    /// The button that was pressed down in the case of mouse-down,
    /// or the button that was released in the case of mouse-up.
    /// This will always be `MouseButton::NoButton` in the case of mouse-move.
    pub button: MouseButton,
    /// The wheel movement.
    pub wheel_delta: WheelDelta,
}

/// An indicator of which mouse button was pressed.
#[derive(Clone, Copy, Debug, PartialEq, Eq, Structural)]
pub enum MouseButton {
    /// No mouse button.
    NoButton,
    /// Primary button, commonly the left mouse button.
    Primary,
    /// Secondary button, commonly the right mouse button.
    Secondary,
    /// Auxiliary button, commonly the middle mouse button.
    Auxiliary,
    /// First X button.
    X1,
    /// Second X button.
    X2,
}

/// The bit that stands for a button.
fn button_bit(button: MouseButton) -> (bit: u8)
    ensures
        bit == bit_of(button),
{
    match button {
        MouseButton::NoButton => 0,
        MouseButton::Primary => 2,
        MouseButton::Secondary => 4,
        MouseButton::Auxiliary => 8,
        MouseButton::X1 => 16,
        MouseButton::X2 => 32,
    }
}

impl MouseButton {
    /// Returns `true` if this is [`MouseButton::Primary`].
    pub fn is_primary(self) -> (yes: bool)
        ensures
            yes == (self == MouseButton::Primary),
    {
        self == MouseButton::Primary
    }

    /// Returns `true` if this is [`MouseButton::Secondary`].
    pub fn is_secondary(self) -> (yes: bool)
        ensures
            yes == (self == MouseButton::Secondary),
    {
        self == MouseButton::Secondary
    }

    /// Returns `true` if this is [`MouseButton::Auxiliary`].
    pub fn is_auxiliary(self) -> (yes: bool)
        ensures
            yes == (self == MouseButton::Auxiliary),
    {
        self == MouseButton::Auxiliary
    }

    /// Returns `true` if this is [`MouseButton::X1`].
    pub fn is_x1(self) -> (yes: bool)
        ensures
            yes == (self == MouseButton::X1),
    {
        self == MouseButton::X1
    }

    /// Returns `true` if this is [`MouseButton::X2`].
    pub fn is_x2(self) -> (yes: bool)
        ensures
            yes == (self == MouseButton::X2),
    {
        self == MouseButton::X2
    }
}

/// The bit that stands for a button.
pub open spec fn bit_of(button: MouseButton) -> u8 {
    match button {
        MouseButton::NoButton => 0,
        MouseButton::Primary => 2,
        MouseButton::Secondary => 4,
        MouseButton::Auxiliary => 8,
        MouseButton::X1 => 16,
        MouseButton::X2 => 32,
    }
}

/// A set of [`MouseButton`]s.
#[derive(Clone, Copy, Debug, PartialEq, Eq, Structural)]
pub struct MouseButtons {
    bits: u8,
}

impl View for MouseButtons {
    type V = Set<MouseButton>;

    /// The buttons in the set. `MouseButton::NoButton` is never one of them.
    open spec fn view(&self) -> Set<MouseButton> {
        Set::new(|button: MouseButton| bits::any8(self.bits(), bit_of(button)))
    }
}

/// Setting and clearing the bit of a button leaves the other buttons alone.
proof fn lemma_button_bits(bits: u8)
    ensures
        forall|button: MouseButton, other: MouseButton|
            #![trigger bit_of(button), bit_of(other)]
            (bits::any8(bits | bit_of(button), bit_of(other)) <==> bits::any8(bits, bit_of(other))
                || (button == other && other != MouseButton::NoButton)) && (bits::any8(
                bits & !bit_of(button),
                bit_of(other),
            ) <==> bits::any8(bits, bit_of(other)) && button != other),
        !bits::any8(bits, bit_of(MouseButton::NoButton)),
{
    assert forall|button: MouseButton, other: MouseButton|
        #![trigger bit_of(button), bit_of(other)]
        (bits::any8(bits | bit_of(button), bit_of(other)) <==> bits::any8(bits, bit_of(other)) || (
        button == other && other != MouseButton::NoButton)) && (bits::any8(
            bits & !bit_of(button),
            bit_of(other),
        ) <==> bits::any8(bits, bit_of(other)) && button != other) by {
        let b = bit_of(button);
        let o = bit_of(other);
        assert(((bits | b) & o != 0 <==> (bits & o != 0 || (b == o && o != 0))) && ((bits & !b) & o
            != 0 <==> bits & o != 0 && b != o)) by (bit_vector)
            requires
                b == 0 || b == 2 || b == 4 || b == 8 || b == 16 || b == 32,
                o == 0 || o == 2 || o == 4 || o == 8 || o == 16 || o == 32,
        ;
    }
    assert(bits & 0 == 0) by (bit_vector);
}

impl MouseButtons {
    /// The set, one bit for each button.
    pub closed spec fn bits(self) -> u8 {
        self.bits
    }

    /// Only the bits of buttons are used.
    #[verifier::type_invariant]
    pub closed spec fn wf(self) -> bool {
        self.bits & !0x3eu8 == 0
    }

    /// The set, one bit for each button.
    pub(crate) fn raw_bits(self) -> (bits: u8)
        ensures
            bits == self.bits(),
            bits & !0x3eu8 == 0,
    {
        proof {
            use_type_invariant(&self);
        }
        self.bits
    }

    /// Create a new empty set.
    pub fn new() -> (buttons: MouseButtons)
        ensures
            buttons.bits() == 0,
            buttons@ == Set::<MouseButton>::empty(),
    {
        proof {
            assert(forall|m: u8| 0u8 & m == 0) by (bit_vector);
        }
        let buttons = MouseButtons { bits: 0 };
        assert(buttons@ =~= Set::<MouseButton>::empty());
        buttons
    }

    /// Add the `button` to the set.
    pub fn insert(&mut self, button: MouseButton)
        ensures
            final(self).bits() == old(self).bits() | bit_of(button),
            button != MouseButton::NoButton ==> final(self)@ == old(self)@.insert(button),
            button == MouseButton::NoButton ==> final(self)@ == old(self)@,
    {
        *self = self.with(button);
    }

    /// Remove the `button` from the set.
    pub fn remove(&mut self, button: MouseButton)
        ensures
            final(self).bits() == old(self).bits() & !bit_of(button),
            final(self)@ == old(self)@.remove(button),
    {
        *self = self.without(button);
    }

    /// Builder-style method for adding the `button` to the set.
    pub fn with(self, button: MouseButton) -> (buttons: MouseButtons)
        ensures
            buttons.bits() == self.bits() | bit_of(button),
            button != MouseButton::NoButton ==> buttons@ == self@.insert(button),
            button == MouseButton::NoButton ==> buttons@ == self@,
    {
        let bit: u8 = button_bit(button);
        let old_bits: u8 = self.bits;
        proof {
            use_type_invariant(&self);
            lemma_button_bits(self.bits);
            assert((old_bits | bit) & !0x3eu8 == 0) by (bit_vector)
                requires
                    old_bits & !0x3eu8 == 0,
                    bit == 0 || bit == 2 || bit == 4 || bit == 8 || bit == 16 || bit == 32,
            ;
        }
        let buttons = MouseButtons { bits: old_bits | bit };
        assert(button != MouseButton::NoButton ==> buttons@ =~= self@.insert(button));
        assert(button == MouseButton::NoButton ==> buttons@ =~= self@);
        buttons
    }

    /// Builder-style method for removing the `button` from the set.
    pub fn without(self, button: MouseButton) -> (buttons: MouseButtons)
        ensures
            buttons.bits() == self.bits() & !bit_of(button),
            buttons@ == self@.remove(button),
    {
        let bit: u8 = button_bit(button);
        let old_bits: u8 = self.bits;
        proof {
            use_type_invariant(&self);
            lemma_button_bits(self.bits);
            assert((old_bits & !bit) & !0x3eu8 == 0) by (bit_vector)
                requires
                    old_bits & !0x3eu8 == 0,
            ;
        }
        let buttons = MouseButtons { bits: old_bits & !bit };
        assert(buttons@ =~= self@.remove(button));
        buttons
    }

    /// Returns `true` if the `button` is in the set.
    pub fn contains(self, button: MouseButton) -> (found: bool)
        ensures
            found == self@.contains(button),
    {
        self.bits & button_bit(button) != 0
    }

    /// Returns `true` if the set is empty.
    pub fn is_empty(self) -> (empty: bool)
        ensures
            empty == (self.bits() == 0),
            empty == (self@ == Set::<MouseButton>::empty()),
    {
        proof {
            use_type_invariant(&self);
            self.lemma_no_buttons();
        }
        self.bits == 0
    }

    /// The empty set is the one without any bit.
    proof fn lemma_no_buttons(self)
        requires
            self.wf(),
        ensures
            (self.bits() == 0) == (self@ == Set::<MouseButton>::empty()),
    {
        let bits = self.bits;
        assert((bits & 2 == 0 && bits & 4 == 0 && bits & 8 == 0 && bits & 16 == 0 && bits & 32 == 0)
            <==> bits == 0) by (bit_vector)
            requires
                bits & !0x3eu8 == 0,
        ;
        assert(forall|m: u8| 0u8 & m == 0) by (bit_vector);
        if bits == 0 {
            assert(self@ =~= Set::<MouseButton>::empty());
        } else {
            assert(self@.contains(MouseButton::Primary) || self@.contains(MouseButton::Secondary)
                || self@.contains(MouseButton::Auxiliary) || self@.contains(MouseButton::X1)
                || self@.contains(MouseButton::X2));
        }
    }

    /// Returns `true` if all the `buttons` are in the set.
    pub fn is_superset(self, buttons: MouseButtons) -> (all: bool)
        ensures
            all == (self.bits() & buttons.bits() == buttons.bits()),
            all == buttons@.subset_of(self@),
    {
        let a: u8 = self.bits;
        let b: u8 = buttons.bits;
        proof {
            use_type_invariant(&buttons);
            assert((a & b == b) <==> ((b & 2 != 0 ==> a & 2 != 0) && (b & 4 != 0 ==> a & 4 != 0) && (
            b & 8 != 0 ==> a & 8 != 0) && (b & 16 != 0 ==> a & 16 != 0) && (b & 32 != 0 ==> a & 32
                != 0))) by (bit_vector)
                requires
                    b & !0x3eu8 == 0,
            ;
            lemma_button_bits(b);
            if a & b == b {
                assert(buttons@.subset_of(self@));
            } else {
                assert(!(self@.contains(MouseButton::Primary) || !buttons@.contains(
                    MouseButton::Primary,
                )) || !(self@.contains(MouseButton::Secondary) || !buttons@.contains(
                    MouseButton::Secondary,
                )) || !(self@.contains(MouseButton::Auxiliary) || !buttons@.contains(
                    MouseButton::Auxiliary,
                )) || !(self@.contains(MouseButton::X1) || !buttons@.contains(MouseButton::X1))
                    || !(self@.contains(MouseButton::X2) || !buttons@.contains(MouseButton::X2)));
            }
        }
        self.bits & buttons.bits == buttons.bits
    }

    /// Returns `true` if [`MouseButton::Primary`] is in the set.
    pub fn has_primary(self) -> (found: bool)
        ensures
            found == self@.contains(MouseButton::Primary),
    {
        self.contains(MouseButton::Primary)
    }

    /// Returns `true` if [`MouseButton::Secondary`] is in the set.
    pub fn has_secondary(self) -> (found: bool)
        ensures
            found == self@.contains(MouseButton::Secondary),
    {
        self.contains(MouseButton::Secondary)
    }

    /// Returns `true` if [`MouseButton::Auxiliary`] is in the set.
    pub fn has_auxiliary(self) -> (found: bool)
        ensures
            found == self@.contains(MouseButton::Auxiliary),
    {
        self.contains(MouseButton::Auxiliary)
    }

    /// Returns `true` if [`MouseButton::X1`] is in the set.
    pub fn has_x1(self) -> (found: bool)
        ensures
            found == self@.contains(MouseButton::X1),
    {
        self.contains(MouseButton::X1)
    }

    /// Returns `true` if [`MouseButton::X2`] is in the set.
    pub fn has_x2(self) -> (found: bool)
        ensures
            found == self@.contains(MouseButton::X2),
    {
        self.contains(MouseButton::X2)
    }

    /// Adds all the `buttons` to the set.
    pub fn extend(&mut self, buttons: MouseButtons)
        ensures
            final(self).bits() == old(self).bits() | buttons.bits(),
            final(self)@ == old(self)@.union(buttons@),
    {
        *self = self.union(buttons);
    }

    /// Returns a union of the values in `self` and `other`.
    pub fn union(self, other: MouseButtons) -> (buttons: MouseButtons)
        ensures
            buttons.bits() == self.bits() | other.bits(),
            buttons@ == self@.union(other@),
    {
        let a: u8 = self.bits;
        let b: u8 = other.bits;
        proof {
            use_type_invariant(&self);
            use_type_invariant(&other);
            assert((a | b) & !0x3eu8 == 0) by (bit_vector)
                requires
                    a & !0x3eu8 == 0,
                    b & !0x3eu8 == 0,
            ;
            assert(forall|m: u8|
                #![trigger bits::any8(a | b, m)]
                ((a | b) & m != 0) <==> (a & m != 0 || b & m != 0)) by (bit_vector);
        }
        let buttons = MouseButtons { bits: a | b };
        assert(buttons@ =~= self@.union(other@));
        buttons
    }

    /// Clear the set.
    pub fn clear(&mut self)
        ensures
            final(self).bits() == 0,
            final(self)@ == Set::<MouseButton>::empty(),
    {
        *self = Self::new();
    }

    /// Count the number of pressed buttons in the set.
    pub fn count(self) -> (count: u32)
        ensures
            count == self@.len(),
            self@.finite(),
    {
        let ghost mut counted: Set<MouseButton> = Set::empty();
        let mut count: u32 = 0;
        if self.has_primary() {
            count = count + 1;
            proof {
                counted = counted.insert(MouseButton::Primary);
            }
        }
        if self.has_secondary() {
            count = count + 1;
            proof {
                counted = counted.insert(MouseButton::Secondary);
            }
        }
        if self.has_auxiliary() {
            count = count + 1;
            proof {
                counted = counted.insert(MouseButton::Auxiliary);
            }
        }
        if self.has_x1() {
            count = count + 1;
            proof {
                counted = counted.insert(MouseButton::X1);
            }
        }
        if self.has_x2() {
            count = count + 1;
            proof {
                counted = counted.insert(MouseButton::X2);
            }
        }
        proof {
            lemma_button_bits(self.bits);
        }
        assert(counted =~= self@);
        count
    }

    /// A digit for each bit but the lowest, highest first.
    pub open spec fn in_digits(self) -> Seq<char> {
        seq![
            digit(bits::any8(self.bits(), 32)),
            digit(bits::any8(self.bits(), 16)),
            digit(bits::any8(self.bits(), 8)),
            digit(bits::any8(self.bits(), 4)),
            digit(bits::any8(self.bits(), 2)),
        ]
    }

    /// The digits of a set name its buttons, the last of which is the primary one.
    pub proof fn law_digits_name_the_buttons(self)
        ensures
            self.in_digits().len() == 5,
            (self.in_digits()[4] == '1') == self@.contains(MouseButton::Primary),
            (self.in_digits()[3] == '1') == self@.contains(MouseButton::Secondary),
            (self.in_digits()[2] == '1') == self@.contains(MouseButton::Auxiliary),
            (self.in_digits()[1] == '1') == self@.contains(MouseButton::X1),
            (self.in_digits()[0] == '1') == self@.contains(MouseButton::X2),
            forall|i: int|
                0 <= i < 5 ==> #[trigger] self.in_digits()[i] == '0' || self.in_digits()[i] == '1',
    {
    }

    /// The set as text, for logging: a digit for each bit but the lowest, highest first.
    pub fn debug_text(self) -> (text: String)
        ensures
            text@ == ("MouseButtons("@ + self.in_digits()).push(')'),
    {
        let mut text = "MouseButtons(".to_owned();
        text.push(bit_digit(self.bits & 32 != 0));
        text.push(bit_digit(self.bits & 16 != 0));
        text.push(bit_digit(self.bits & 8 != 0));
        text.push(bit_digit(self.bits & 4 != 0));
        text.push(bit_digit(self.bits & 2 != 0));
        text.push(')');
        assert(text@ =~= ("MouseButtons("@ + self.in_digits()).push(')'));
        text
    }
}

impl Default for MouseButtons {
    fn default() -> (buttons: MouseButtons)
        ensures
            buttons@ == Set::<MouseButton>::empty(),
            buttons.bits() == 0,
    {
        MouseButtons::new()
    }
}

/// A binary digit.
pub open spec fn digit(set: bool) -> char {
    if set {
        '1'
    } else {
        '0'
    }
}

/// A binary digit.
pub(crate) fn bit_digit(set: bool) -> (ch: char)
    ensures
        ch == digit(set),
{
    if set {
        '1'
    } else {
        '0'
    }
}

/// Mouse cursors. A custom cursor is named by the number that the platform knows it by.
#[derive(Clone, Copy, Debug, PartialEq, Eq, Structural)]
pub enum Cursor {
    /// The default arrow cursor.
    Arrow,
    /// A vertical I-beam, for indicating insertion points in text.
    IBeam,
    Pointer,
    Crosshair,
    /// Not available on Windows.
    OpenHand,
    NotAllowed,
    ResizeLeftRight,
    ResizeUpDown,
    Custom(u64),
}

impl Cursor {
    /// The cursor as text, for logging.
    pub open spec fn name(self) -> Seq<char> {
        match self {
            Cursor::Arrow => "Cursor::Arrow"@,
            Cursor::IBeam => "Cursor::IBeam"@,
            Cursor::Pointer => "Cursor::Pointer"@,
            Cursor::Crosshair => "Cursor::Crosshair"@,
            Cursor::OpenHand => "Cursor::OpenHand"@,
            Cursor::NotAllowed => "Cursor::NotAllowed"@,
            Cursor::ResizeLeftRight => "Cursor::ResizeLeftRight"@,
            Cursor::ResizeUpDown => "Cursor::ResizeUpDown"@,
            Cursor::Custom(_) => "Cursor::Custom"@,
        }
    }

    /// The cursor as text, for logging. Custom cursors all read the same.
    pub fn debug_text(self) -> (text: String)
        ensures
            text@ == self.name(),
    {
        match self {
            Cursor::Arrow => "Cursor::Arrow".to_owned(),
            Cursor::IBeam => "Cursor::IBeam".to_owned(),
            Cursor::Pointer => "Cursor::Pointer".to_owned(),
            Cursor::Crosshair => "Cursor::Crosshair".to_owned(),
            Cursor::OpenHand => "Cursor::OpenHand".to_owned(),
            Cursor::NotAllowed => "Cursor::NotAllowed".to_owned(),
            Cursor::ResizeLeftRight => "Cursor::ResizeLeftRight".to_owned(),
            Cursor::ResizeUpDown => "Cursor::ResizeUpDown".to_owned(),
            Cursor::Custom(_) => "Cursor::Custom".to_owned(),
        }
    }
}

/// A platform-independent description of a custom cursor.
#[derive(Clone, Copy, Debug, PartialEq, Eq, Structural)]
pub struct CursorDesc {
    pub hot: PixelPoint,
}

impl CursorDesc {
    /// Creates a new `CursorDesc`.
    ///
    /// `hot` is the "hot spot" of the cursor, measured in terms of the pixels in its image with
    /// `(0, 0)` at the top left. The hot spot is the logical position of the mouse cursor within
    /// the image. For example, if the image is a picture of a arrow, the hot spot might be the
    /// coordinates of the arrow's tip.
    pub fn new(hot: PixelPoint) -> (desc: CursorDesc)
        ensures
            desc.hot == hot,
    {
        CursorDesc { hot }
    }
}

/// Each button has a bit of its own, twice the bit of the button before it. No button has none.
pub proof fn law_buttons_have_their_bits(button: MouseButton, other: MouseButton)
    ensures
        bit_of(button) == bit_of(other) ==> button == other,
        (bit_of(button) == 0) == (button is NoButton),
        bit_of(MouseButton::Secondary) == 2 * bit_of(MouseButton::Primary),
        bit_of(MouseButton::Auxiliary) == 2 * bit_of(MouseButton::Secondary),
        bit_of(MouseButton::X1) == 2 * bit_of(MouseButton::Auxiliary),
        bit_of(MouseButton::X2) == 2 * bit_of(MouseButton::X1),
{
}

/// Cursors that are not made by the application read differently from each other and from those
/// that are.
pub proof fn law_cursors_read_differently(first: Cursor, second: Cursor)
    requires
        first.name() == second.name(),
    ensures
        first == second || (first is Custom && second is Custom),
{
    reveal_strlit("Cursor::Arrow");
    reveal_strlit("Cursor::IBeam");
    reveal_strlit("Cursor::Pointer");
    reveal_strlit("Cursor::Crosshair");
    reveal_strlit("Cursor::OpenHand");
    reveal_strlit("Cursor::NotAllowed");
    reveal_strlit("Cursor::ResizeLeftRight");
    reveal_strlit("Cursor::ResizeUpDown");
    reveal_strlit("Cursor::Custom");
    let name = first.name();
    let other = second.name();
    assert(name[8] == other[8] && name[9] == other[9]);
    assert(name.len() == other.len());
}

} // verus!
