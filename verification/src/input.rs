//! The decisions of the input mapper: which mouse buttons and modifier keys
//! are held, which key presses become actions, and when a middle-button
//! drag pans.
//!
//! The window system's events are read outside the library, which hands
//! over the button or key and whether it was pressed; positions (screen
//! and world coordinates) stay outside too.

use vstd::prelude::*;

verus! {

/// A mouse button, as the input mapper distinguishes them.
#[derive(Debug, Clone, Copy, PartialEq, Eq, Structural)]
pub enum MouseButton {
    Left,
    Middle,
    Right,
    /// Any other button (ignored).
    Other,
}

/// A key, as the input mapper distinguishes them.
#[derive(Debug, Clone, Copy, PartialEq, Eq, Structural)]
pub enum Key {
    Escape,
    Enter,
    /// Either Shift key.
    Shift,
    /// Either Control key.
    Control,
    /// Either Alt key.
    Alt,
    /// Any other key, with the first character of the text it produces, if
    /// any.
    Other(Option<char>),
}

/// What a key press asks of the application.
#[derive(Debug, Clone, Copy, PartialEq, Eq, Structural)]
pub enum KeyAction {
    /// Abort the current operation (Escape).
    Cancel,
    /// Confirm the current operation (Enter).
    Confirm,
    /// A typed character.
    Text(char),
}

/// What the middle-button pan tracking does after an event.
#[derive(Debug, Clone, Copy, PartialEq, Eq, Structural)]
pub enum PanStep {
    /// The middle button is up: no pan.
    Idle,
    /// First event of a drag: the current cursor position becomes the
    /// reference, without panning.
    Baseline,
    /// Pan by the cursor's movement since the reference (when it moved),
    /// which then moves to the current position.
    Delta,
}

/// The buttons and modifier keys held, and the pan-reference flag.
#[derive(Debug, Clone, Copy, PartialEq, Eq, Structural)]
pub struct InputButtons {
    /// Is the left mouse button held down?
    pub left_down: bool,
    /// Is the middle mouse button held down? (used for pan)
    pub middle_down: bool,
    /// Is the right mouse button held down? (reserved for a context menu)
    pub right_down: bool,
    /// Is Shift held?
    pub shift: bool,
    /// Is Ctrl held?
    pub ctrl: bool,
    /// Is Alt held?
    pub alt: bool,
    /// Whether the next pan step takes a new reference position (set when
    /// the middle button goes down).
    pub needs_pan_baseline: bool,
}

/// The state after `button` went down (`pressed`) or up.
pub open spec fn button_after(s: InputButtons, button: MouseButton, pressed: bool) -> InputButtons {
    match button {
        MouseButton::Left => InputButtons { left_down: pressed, ..s },
        MouseButton::Middle => InputButtons {
            middle_down: pressed,
            needs_pan_baseline: pressed || s.needs_pan_baseline,
            ..s
        },
        MouseButton::Right => InputButtons { right_down: pressed, ..s },
        MouseButton::Other => s,
    }
}

/// What the pan tracking does in state `s`.
pub open spec fn pan_decision(s: InputButtons) -> PanStep {
    if !s.middle_down {
        PanStep::Idle
    } else if s.needs_pan_baseline {
        PanStep::Baseline
    } else {
        PanStep::Delta
    }
}

/// The state after a pan step: a pending reference is taken while the
/// middle button is held.
pub open spec fn pan_after(s: InputButtons) -> InputButtons {
    InputButtons { needs_pan_baseline: s.needs_pan_baseline && !s.middle_down, ..s }
}

impl InputButtons {
    /// Nothing held, no pan reference pending.
    pub fn new() -> (s: Self)
        ensures
            !s.left_down && !s.middle_down && !s.right_down,
            !s.shift && !s.ctrl && !s.alt,
            !s.needs_pan_baseline,
    {
        InputButtons {
            left_down: false,
            middle_down: false,
            right_down: false,
            shift: false,
            ctrl: false,
            alt: false,
            needs_pan_baseline: false,
        }
    }

    /// A mouse button went down (`pressed`) or up.  Returns whether the
    /// event is a click (the left button going down), which the caller
    /// reports at the cursor's world position.  The middle button going
    /// down asks for a new pan reference.
    pub fn on_button(&mut self, button: MouseButton, pressed: bool) -> (click: bool)
        ensures
            click == (pressed && button is Left),
            *final(self) == button_after(*old(self), button, pressed),
    {
        match button {
            MouseButton::Left => {
                self.left_down = pressed;
                pressed
            },
            MouseButton::Middle => {
                self.middle_down = pressed;
                if pressed {
                    self.needs_pan_baseline = true;
                }
                false
            },
            MouseButton::Right => {
                self.right_down = pressed;
                false
            },
            MouseButton::Other => false,
        }
    }

    /// A key went down (`pressed`) or up.  Modifier keys update the
    /// modifier flags; pressing Escape cancels, Enter confirms, and another
    /// key that produces text types its first character.
    pub fn on_key(&mut self, key: Key, pressed: bool) -> (action: Option<KeyAction>)
        ensures
            final(self).shift == (if key is Shift { pressed } else { old(self).shift }),
            final(self).ctrl == (if key is Control { pressed } else { old(self).ctrl }),
            final(self).alt == (if key is Alt { pressed } else { old(self).alt }),
            final(self).left_down == old(self).left_down,
            final(self).middle_down == old(self).middle_down,
            final(self).right_down == old(self).right_down,
            final(self).needs_pan_baseline == old(self).needs_pan_baseline,
            action == (if !pressed {
                None
            } else {
                match key {
                    Key::Escape => Some(KeyAction::Cancel),
                    Key::Enter => Some(KeyAction::Confirm),
                    Key::Other(Some(c)) => Some(KeyAction::Text(c)),
                    _ => None,
                }
            }),
    {
        match key {
            Key::Shift => {
                self.shift = pressed;
                None
            },
            Key::Control => {
                self.ctrl = pressed;
                None
            },
            Key::Alt => {
                self.alt = pressed;
                None
            },
            Key::Escape => if pressed { Some(KeyAction::Cancel) } else { None },
            Key::Enter => if pressed { Some(KeyAction::Confirm) } else { None },
            Key::Other(c) => match c {
                Some(ch) => if pressed { Some(KeyAction::Text(ch)) } else { None },
                None => None,
            },
        }
    }

    /// The pan tracking that closes the handling of every event: while the
    /// middle button is held, the first event takes the reference and the
    /// later ones pan.
    pub fn pan_step(&mut self) -> (step: PanStep)
        ensures
            step == pan_decision(*old(self)),
            *final(self) == pan_after(*old(self)),
    {
        if !self.middle_down {
            PanStep::Idle
        } else if self.needs_pan_baseline {
            self.needs_pan_baseline = false;
            PanStep::Baseline
        } else {
            PanStep::Delta
        }
    }
}

impl Default for InputButtons {
    fn default() -> (s: Self)
        ensures
            !s.left_down && !s.middle_down && !s.right_down,
            !s.shift && !s.ctrl && !s.alt,
            !s.needs_pan_baseline,
    {
        InputButtons::new()
    }
}

/// A middle-button drag never pans on its first event: after the middle
/// button goes down the next pan step takes the reference, and the steps
/// after it pan while the button stays down.
pub proof fn law_middle_press_takes_baseline(s: InputButtons)
    ensures
        pan_decision(button_after(s, MouseButton::Middle, true)) == PanStep::Baseline,
        pan_decision(pan_after(button_after(s, MouseButton::Middle, true))) == PanStep::Delta,
        pan_after(pan_after(button_after(s, MouseButton::Middle, true)))
            == pan_after(button_after(s, MouseButton::Middle, true)),
{
}

/// Releasing the middle button stops panning.
pub proof fn law_middle_release_stops_pan(s: InputButtons)
    ensures
        pan_decision(button_after(s, MouseButton::Middle, false)) == PanStep::Idle,
{
}

} // verus!
