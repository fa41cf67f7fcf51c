//! The buttons of the handheld, as the host reports them.

use vstd::prelude::*;

verus! {

/// A source of button states. The host implements it: `get_updates`
/// returns the newest state when the buttons changed since the last call.
pub trait GpioInterface {
    fn get_updates(&self) -> Option<GpioButtonState>;
}

/// The fourteen inputs of the device.
#[derive(PartialEq, Eq, Structural, Copy, Clone, Debug)]
pub enum GpioButton {
    Up,
    Down,
    Left,
    Right,
    Power,
    Menu,
    UpsideUp,
    UpsideDown,
    ScreenTopLeft,
    ScreenTopRight,
    ScreenBottomLeft,
    ScreenBottomRight,
    Action,
    Mute,
}

/// Which buttons are held down.
#[derive(Clone, Copy, Debug, PartialEq, Eq, Structural)]
pub struct GpioButtonState {
    pub up: bool,
    pub down: bool,
    pub left: bool,
    pub right: bool,
    pub power: bool,
    pub menu: bool,
    pub upside_up: bool,
    pub upside_down: bool,
    pub screen_top_left: bool,
    pub screen_top_right: bool,
    pub screen_bottom_left: bool,
    pub screen_bottom_right: bool,
    pub action: bool,
    pub mute: bool,
}

impl GpioButtonState {
    /// Whether `button` is held down in this state.
    pub open spec fn pressed(self, button: GpioButton) -> bool {
        match button {
            GpioButton::Up => self.up,
            GpioButton::Down => self.down,
            GpioButton::Left => self.left,
            GpioButton::Right => self.right,
            GpioButton::Power => self.power,
            GpioButton::Menu => self.menu,
            GpioButton::UpsideUp => self.upside_up,
            GpioButton::UpsideDown => self.upside_down,
            GpioButton::ScreenTopLeft => self.screen_top_left,
            GpioButton::ScreenTopRight => self.screen_top_right,
            GpioButton::ScreenBottomLeft => self.screen_bottom_left,
            GpioButton::ScreenBottomRight => self.screen_bottom_right,
            GpioButton::Action => self.action,
            GpioButton::Mute => self.mute,
        }
    }

    /// The state with no button held down.
    pub open spec fn released() -> GpioButtonState {
        GpioButtonState {
            up: false,
            down: false,
            left: false,
            right: false,
            power: false,
            menu: false,
            upside_up: false,
            upside_down: false,
            screen_top_left: false,
            screen_top_right: false,
            screen_bottom_left: false,
            screen_bottom_right: false,
            action: false,
            mute: false,
        }
    }

    /// The state in which `button` is held down or not as `pressed` says, and
    /// every other button is as in `self`.
    pub open spec fn with_button(self, button: GpioButton, pressed: bool) -> GpioButtonState {
        match button {
            GpioButton::Up => GpioButtonState { up: pressed, ..self },
            GpioButton::Down => GpioButtonState { down: pressed, ..self },
            GpioButton::Left => GpioButtonState { left: pressed, ..self },
            GpioButton::Right => GpioButtonState { right: pressed, ..self },
            GpioButton::Power => GpioButtonState { power: pressed, ..self },
            GpioButton::Menu => GpioButtonState { menu: pressed, ..self },
            GpioButton::UpsideUp => GpioButtonState { upside_up: pressed, ..self },
            GpioButton::UpsideDown => GpioButtonState { upside_down: pressed, ..self },
            GpioButton::ScreenTopLeft => GpioButtonState { screen_top_left: pressed, ..self },
            GpioButton::ScreenTopRight => GpioButtonState { screen_top_right: pressed, ..self },
            GpioButton::ScreenBottomLeft => GpioButtonState { screen_bottom_left: pressed, ..self },
            GpioButton::ScreenBottomRight => GpioButtonState { screen_bottom_right: pressed, ..self },
            GpioButton::Action => GpioButtonState { action: pressed, ..self },
            GpioButton::Mute => GpioButtonState { mute: pressed, ..self },
        }
    }

    /// Records whether `button` is held down; the other buttons keep their state.
    pub fn set(&mut self, button: GpioButton, pressed: bool)
        ensures
            *final(self) == old(self).with_button(button, pressed),
    {
        let state = *self;
        *self = match button {
            GpioButton::Up => GpioButtonState { up: pressed, ..state },
            GpioButton::Down => GpioButtonState { down: pressed, ..state },
            GpioButton::Left => GpioButtonState { left: pressed, ..state },
            GpioButton::Right => GpioButtonState { right: pressed, ..state },
            GpioButton::Power => GpioButtonState { power: pressed, ..state },
            GpioButton::Menu => GpioButtonState { menu: pressed, ..state },
            GpioButton::UpsideUp => GpioButtonState { upside_up: pressed, ..state },
            GpioButton::UpsideDown => GpioButtonState { upside_down: pressed, ..state },
            GpioButton::ScreenTopLeft => GpioButtonState { screen_top_left: pressed, ..state },
            GpioButton::ScreenTopRight => GpioButtonState { screen_top_right: pressed, ..state },
            GpioButton::ScreenBottomLeft => GpioButtonState { screen_bottom_left: pressed, ..state },
            GpioButton::ScreenBottomRight => GpioButtonState { screen_bottom_right: pressed, ..state },
            GpioButton::Action => GpioButtonState { action: pressed, ..state },
            GpioButton::Mute => GpioButtonState { mute: pressed, ..state },
        };
    }

    pub fn get(&self, button: GpioButton) -> (pressed: bool)
        ensures
            pressed == self.pressed(button),
    {
        match button {
            GpioButton::Up => self.up,
            GpioButton::Down => self.down,
            GpioButton::Left => self.left,
            GpioButton::Right => self.right,
            GpioButton::Power => self.power,
            GpioButton::Menu => self.menu,
            GpioButton::UpsideUp => self.upside_up,
            GpioButton::UpsideDown => self.upside_down,
            GpioButton::ScreenTopLeft => self.screen_top_left,
            GpioButton::ScreenTopRight => self.screen_top_right,
            GpioButton::ScreenBottomLeft => self.screen_bottom_left,
            GpioButton::ScreenBottomRight => self.screen_bottom_right,
            GpioButton::Action => self.action,
            GpioButton::Mute => self.mute,
        }
    }
}

impl Default for GpioButtonState {
    fn default() -> (state: Self)
        ensures
            state == GpioButtonState::released(),
    {
        GpioButtonState {
            up: false,
            down: false,
            left: false,
            right: false,
            power: false,
            menu: false,
            upside_up: false,
            upside_down: false,
            screen_top_left: false,
            screen_top_right: false,
            screen_bottom_left: false,
            screen_bottom_right: false,
            action: false,
            mute: false,
        }
    }
}

} // verus!
