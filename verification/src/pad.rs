//! The controller: eight buttons, each either held or not.
use vstd::prelude::*;

verus! {

/// The buttons of one controller.
#[derive(PartialEq, Eq, Copy, Clone, Debug, Structural)]
pub enum PadButton {
    A,
    B,
    Select,
    Start,
    Up,
    Down,
    Left,
    Right,
}

/// The bit that stands for `button` in the controller's state byte.
pub open spec fn button_mask(button: PadButton) -> u8 {
    match button {
        PadButton::A => 0x01,
        PadButton::B => 0x02,
        PadButton::Select => 0x04,
        PadButton::Start => 0x08,
        PadButton::Up => 0x10,
        PadButton::Down => 0x20,
        PadButton::Left => 0x40,
        PadButton::Right => 0x80,
    }
}

/// One controller. Bit `button_mask(b)` of `buttons` is set while `b` is held.
#[derive(PartialEq, Eq, Copy, Clone, Debug, Structural)]
pub struct Pad {
    pub buttons: u8,
}

proof fn lemma_mask_set(state: u8, m: u8, k: u8)
    by (bit_vector)
    requires
        m == 0x01 || m == 0x02 || m == 0x04 || m == 0x08 || m == 0x10 || m == 0x20 || m == 0x40
            || m == 0x80,
        k == 0x01 || k == 0x02 || k == 0x04 || k == 0x08 || k == 0x10 || k == 0x20 || k == 0x40
            || k == 0x80,
    ensures
        ((state | m) & k != 0) == (k == m || state & k != 0),
        ((state & !m) & k != 0) == (k != m && state & k != 0),
{
}

impl Pad {
    /// Whether `button` is held.
    pub open spec fn is_pressed(self, button: PadButton) -> bool {
        self.buttons & button_mask(button) != 0
    }

    /// The buttons that are held.
    pub open spec fn pressed(self) -> Set<PadButton> {
        Set::new(|button: PadButton| self.is_pressed(button))
    }

    /// A controller with no button held.
    pub fn new() -> (pad: Pad)
        ensures
            pad.buttons == 0,
            pad.pressed() == Set::<PadButton>::empty(),
    {
        let pad = Pad { buttons: 0 };
        proof {
            assert forall|button: PadButton| !pad.is_pressed(button) by {
                let m = button_mask(button);
                assert(0u8 & m == 0) by (bit_vector);
            }
            assert(pad.pressed() =~= Set::<PadButton>::empty());
        }
        pad
    }

    fn mask(button: PadButton) -> (m: u8)
        ensures
            m == button_mask(button),
    {
        match button {
            PadButton::A => 0x01,
            PadButton::B => 0x02,
            PadButton::Select => 0x04,
            PadButton::Start => 0x08,
            PadButton::Up => 0x10,
            PadButton::Down => 0x20,
            PadButton::Left => 0x40,
            PadButton::Right => 0x80,
        }
    }

    /// Holds `button` down; the others stay as they are.
    pub fn push_button(&mut self, button: PadButton)
        ensures
            final(self).buttons == old(self).buttons | button_mask(button),
            final(self).pressed() == old(self).pressed().insert(button),
    {
        let m = Self::mask(button);
        self.buttons = self.buttons | m;
        proof {
            assert forall|other: PadButton|
                self.is_pressed(other) == (other == button || old(self).is_pressed(other)) by {
                lemma_mask_set(old(self).buttons, m, button_mask(other));
            }
            assert(self.pressed() =~= old(self).pressed().insert(button));
        }
    }

    /// Lets `button` go; the others stay as they are.
    pub fn release_button(&mut self, button: PadButton)
        ensures
            final(self).buttons == old(self).buttons & !button_mask(button),
            final(self).pressed() == old(self).pressed().remove(button),
    {
        let m = Self::mask(button);
        self.buttons = self.buttons & !m;
        proof {
            assert forall|other: PadButton|
                self.is_pressed(other) == (other != button && old(self).is_pressed(other)) by {
                lemma_mask_set(old(self).buttons, m, button_mask(other));
            }
            assert(self.pressed() =~= old(self).pressed().remove(button));
        }
    }

    /// Whether `button` is held.
    pub fn button_pressed(&self, button: PadButton) -> (held: bool)
        ensures
            held == self.is_pressed(button),
    {
        (self.buttons & Self::mask(button)) != 0
    }
}

} // verus!
