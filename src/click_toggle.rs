use vstd::prelude::*;

verus! {

/// Which of the two logical buttons are latched on.
///
/// The four values stand for two independent bits, one for the left button
/// and one for the right button.
#[derive(Clone, Copy, PartialEq, Eq, Debug, Structural)]
pub enum ClickToggle {
    Left,
    Right,
    Both,
    Neither,
}

impl ClickToggle {
    /// The left bit.
    pub open spec fn left_on(self) -> bool {
        self == ClickToggle::Left || self == ClickToggle::Both
    }

    /// The right bit.
    pub open spec fn right_on(self) -> bool {
        self == ClickToggle::Right || self == ClickToggle::Both
    }

    /// The state whose bits are `left` and `right`.
    pub open spec fn from_bits(left: bool, right: bool) -> ClickToggle {
        if left && right {
            ClickToggle::Both
        } else if left {
            ClickToggle::Left
        } else if right {
            ClickToggle::Right
        } else {
            ClickToggle::Neither
        }
    }

    pub open spec fn spec_toggle_left(self) -> ClickToggle {
        ClickToggle::from_bits(!self.left_on(), self.right_on())
    }

    pub open spec fn spec_toggle_right(self) -> ClickToggle {
        ClickToggle::from_bits(self.left_on(), !self.right_on())
    }

    pub open spec fn spec_set_left(self, pressed: bool) -> ClickToggle {
        ClickToggle::from_bits(pressed, self.right_on())
    }

    pub open spec fn spec_set_right(self, pressed: bool) -> ClickToggle {
        ClickToggle::from_bits(self.left_on(), pressed)
    }

    /// The text shown for a state: the names of the bits that are set.
    pub open spec fn label(self) -> Seq<char> {
        match self {
            ClickToggle::Both => "left, right"@,
            ClickToggle::Left => "left"@,
            ClickToggle::Right => "right"@,
            ClickToggle::Neither => ""@,
        }
    }

    /// Flips the left bit and keeps the right one.
    pub fn toggle_left(&self) -> (r: ClickToggle)
        ensures
            r == self.spec_toggle_left(),
    {
        match self {
            ClickToggle::Left => ClickToggle::Neither,
            ClickToggle::Right => ClickToggle::Both,
            ClickToggle::Both => ClickToggle::Right,
            ClickToggle::Neither => ClickToggle::Left,
        }
    }

    /// Flips the right bit and keeps the left one.
    pub fn toggle_right(&self) -> (r: ClickToggle)
        ensures
            r == self.spec_toggle_right(),
    {
        match self {
            ClickToggle::Left => ClickToggle::Both,
            ClickToggle::Right => ClickToggle::Neither,
            ClickToggle::Both => ClickToggle::Left,
            ClickToggle::Neither => ClickToggle::Right,
        }
    }

    /// True when the left bit is clear.
    pub fn not_left(&self) -> (r: bool)
        ensures
            r == !(*self == ClickToggle::Left || *self == ClickToggle::Both),
            r == !self.left_on(),
    {
        match self {
            ClickToggle::Left | ClickToggle::Both => false,
            ClickToggle::Right | ClickToggle::Neither => true,
        }
    }

    /// True when the right bit is clear.
    pub fn not_right(&self) -> (r: bool)
        ensures
            r == !(*self == ClickToggle::Right || *self == ClickToggle::Both),
            r == !self.right_on(),
    {
        match self {
            ClickToggle::Left | ClickToggle::Neither => true,
            ClickToggle::Right | ClickToggle::Both => false,
        }
    }

    /// Sets the left bit to `pressed` and keeps the right one.
    pub fn set_left(&self, pressed: bool) -> (r: ClickToggle)
        ensures
            r == self.spec_set_left(pressed),
    {
        if pressed {
            self.press_left()
        } else {
            self.unpress_left()
        }
    }

    /// Sets the right bit to `pressed` and keeps the left one.
    pub fn set_right(&self, pressed: bool) -> (r: ClickToggle)
        ensures
            r == self.spec_set_right(pressed),
    {
        if pressed {
            self.press_right()
        } else {
            self.unpress_right()
        }
    }

    fn press_right(&self) -> (r: ClickToggle)
        ensures
            r == ClickToggle::from_bits(self.left_on(), true),
    {
        match self {
            ClickToggle::Left => ClickToggle::Both,
            ClickToggle::Right | ClickToggle::Neither => ClickToggle::Right,
            ClickToggle::Both => ClickToggle::Both,
        }
    }

    fn unpress_right(&self) -> (r: ClickToggle)
        ensures
            r == ClickToggle::from_bits(self.left_on(), false),
    {
        match self {
            ClickToggle::Right => ClickToggle::Neither,
            ClickToggle::Both => ClickToggle::Left,
            ClickToggle::Left | ClickToggle::Neither => *self,
        }
    }

    fn press_left(&self) -> (r: ClickToggle)
        ensures
            r == ClickToggle::from_bits(true, self.right_on()),
    {
        match self {
            ClickToggle::Right => ClickToggle::Both,
            ClickToggle::Neither => ClickToggle::Left,
            ClickToggle::Left | ClickToggle::Both => *self,
        }
    }

    fn unpress_left(&self) -> (r: ClickToggle)
        ensures
            r == ClickToggle::from_bits(false, self.right_on()),
    {
        match self {
            ClickToggle::Left => ClickToggle::Neither,
            ClickToggle::Both => ClickToggle::Right,
            ClickToggle::Right | ClickToggle::Neither => *self,
        }
    }

    /// The names of the set bits, for display.
    pub fn render(&self) -> (r: String)
        ensures
            r@ == self.label(),
    {
        let text: &str = match self {
            ClickToggle::Both => "left, right",
            ClickToggle::Left => "left",
            ClickToggle::Right => "right",
            ClickToggle::Neither => "",
        };
        text.to_string()
    }
}

impl Default for ClickToggle {
    /// Nothing is latched at first.
    fn default() -> (r: ClickToggle)
        ensures
            r == ClickToggle::Neither,
    {
        ClickToggle::Neither
    }
}

/// Toggling the same bit twice gives back the state one started from.
pub proof fn lemma_toggle_involution(s: ClickToggle)
    ensures
        s.spec_toggle_left().spec_toggle_left() == s,
        s.spec_toggle_right().spec_toggle_right() == s,
{
}

/// Setting a bit to a value a second time changes nothing.
pub proof fn lemma_set_idempotent(s: ClickToggle, pressed: bool)
    ensures
        s.spec_set_left(pressed).spec_set_left(pressed) == s.spec_set_left(pressed),
        s.spec_set_right(pressed).spec_set_right(pressed) == s.spec_set_right(pressed),
{
}

} // verus!
