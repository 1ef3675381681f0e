//! Input aggregation over the available devices.
//!
//! Each device keeps a current and a previous state; the engine advances the
//! boundary between them exactly once per tick, after the tick's render, by
//! calling [`Input::update`]. Queries made during a tick's updates therefore
//! see the events collected since the previous tick.

use vstd::prelude::*;
use crate::window::{ButtonState, Key, MouseButton};
use super::keyboard::{key_event_applied, keyboard_boundary, Keyboard};
use super::mouse::{button_event_applied, mouse_boundary, sat_add_i64, seq_has_button, Mouse};

verus! {

/// The input devices the engine polls. A device that is absent ignores events
/// and answers every query negatively.
pub struct Input {
    pub keyboard: Option<Keyboard>,
    pub mouse: Option<Mouse>,
}

/// Whether `post` is `pre` right after a tick boundary on every present
/// device; which devices are present never changes.
pub open spec fn input_boundary(pre: Input, post: Input) -> bool {
    &&& (pre.keyboard is Some) == (post.keyboard is Some)
    &&& (pre.mouse is Some) == (post.mouse is Some)
    &&& pre.keyboard matches Some(k) ==> post.keyboard matches Some(k2) && keyboard_boundary(k, k2)
    &&& pre.mouse matches Some(m) ==> post.mouse matches Some(m2) && mouse_boundary(m, m2)
}

impl Input {
    /// Every present device is well formed.
    pub open spec fn wf(&self) -> bool {
        &&& self.keyboard matches Some(k) ==> k.wf()
        &&& self.mouse matches Some(m) ==> m.wf()
    }

    /// Keyboard and mouse are active from the start; further device classes
    /// would be discovered here.
    pub fn new() -> (input: Input)
        ensures
            input.wf(),
            input.keyboard matches Some(k) && k.pressed_keys@.len() == 0
                && k.last_pressed_keys@.len() == 0,
            input.mouse matches Some(m) && m.pressed_buttons@.len() == 0
                && m.last_pressed_buttons@.len() == 0 && m.position == (0i32, 0i32)
                && m.last_position == (0i32, 0i32) && m.scroll_delta == 0,
    {
        Input { keyboard: Some(Keyboard::new()), mouse: Some(Mouse::new()) }
    }

    /// Tick boundary on every present device.
    pub fn update(&mut self)
        requires
            old(self).wf(),
        ensures
            final(self).wf(),
            input_boundary(*old(self), *final(self)),
    {
        let keyboard = self.keyboard.take();
        match keyboard {
            Some(mut k) => {
                k.update();
                self.keyboard = Some(k);
            },
            None => {},
        }
        let mouse = self.mouse.take();
        match mouse {
            Some(mut m) => {
                m.update();
                self.mouse = Some(m);
            },
            None => {},
        }
    }

    /// Whether `key` went down this tick on a present keyboard.
    pub fn is_key_pressed(&self, key: Key) -> (pressed: bool)
        ensures
            pressed == (self.keyboard matches Some(k) && k.pressed_spec(key)),
    {
        match &self.keyboard {
            Some(k) => k.is_key_pressed(key),
            None => false,
        }
    }

    /// Whether `key` went up this tick on a present keyboard.
    pub fn is_key_released(&self, key: Key) -> (released: bool)
        ensures
            released == (self.keyboard matches Some(k) && k.released_spec(key)),
    {
        match &self.keyboard {
            Some(k) => k.is_key_released(key),
            None => false,
        }
    }

    /// Whether `key` is down now on a present keyboard.
    pub fn is_key_held_down(&self, key: Key) -> (held: bool)
        ensures
            held == (self.keyboard matches Some(k) && k.held_spec(key)),
    {
        match &self.keyboard {
            Some(k) => k.is_key_held_down(key),
            None => false,
        }
    }

    /// Records a raw key event on a present keyboard.
    pub fn handle_keyboard_event(&mut self, key: Key, state: ButtonState)
        requires
            old(self).wf(),
        ensures
            final(self).wf(),
            final(self).mouse == old(self).mouse,
            (final(self).keyboard is Some) == (old(self).keyboard is Some),
            old(self).keyboard matches Some(k) ==> final(self).keyboard matches Some(k2)
                && key_event_applied(k, k2, key, state),
    {
        let keyboard = self.keyboard.take();
        match keyboard {
            Some(mut k) => {
                k.pressed(key, state);
                self.keyboard = Some(k);
            },
            None => {},
        }
    }

    /// Records a raw mouse button event on a present mouse.
    pub fn handle_mouse_button_event(&mut self, button: MouseButton, state: ButtonState)
        requires
            old(self).wf(),
        ensures
            final(self).wf(),
            final(self).keyboard == old(self).keyboard,
            (final(self).mouse is Some) == (old(self).mouse is Some),
            old(self).mouse matches Some(m) ==> final(self).mouse matches Some(m2)
                && button_event_applied(m, m2, button, state),
    {
        let mouse = self.mouse.take();
        match mouse {
            Some(mut m) => {
                m.button_click(button, state);
                self.mouse = Some(m);
            },
            None => {},
        }
    }

    /// Records an absolute cursor position, in pixels, on a present mouse.
    pub fn handle_cursor_moved_event(&mut self, x: i32, y: i32)
        requires
            old(self).wf(),
        ensures
            final(self).wf(),
            final(self).keyboard == old(self).keyboard,
            (final(self).mouse is Some) == (old(self).mouse is Some),
            old(self).mouse matches Some(m) ==> final(self).mouse == Some(
                (Mouse { position: (x, y), ..m }),
            ),
    {
        let mouse = self.mouse.take();
        match mouse {
            Some(mut m) => {
                m.update_position(x, y);
                self.mouse = Some(m);
            },
            None => {},
        }
    }

    /// Accumulates a scroll amount, in the event source's integer unit, on a
    /// present mouse.
    pub fn handle_mouse_wheel_event(&mut self, delta: i64)
        requires
            old(self).wf(),
        ensures
            final(self).wf(),
            final(self).keyboard == old(self).keyboard,
            (final(self).mouse is Some) == (old(self).mouse is Some),
            old(self).mouse matches Some(m) ==> final(self).mouse == Some(
                (Mouse {
                    scroll_delta: sat_add_i64(m.scroll_delta as int, delta as int) as i64,
                    ..m
                }),
            ),
    {
        let mouse = self.mouse.take();
        match mouse {
            Some(mut m) => {
                m.update_scroll(delta);
                self.mouse = Some(m);
            },
            None => {},
        }
    }

    /// Whether `button` is down now on a present mouse.
    pub fn is_button_pressed(&self, button: MouseButton) -> (pressed: bool)
        ensures
            pressed == (self.mouse matches Some(m) && seq_has_button(m.pressed_buttons@, button)),
    {
        match &self.mouse {
            Some(m) => m.is_button_pressed(button),
            None => false,
        }
    }
}

} // verus!
