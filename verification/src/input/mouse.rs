//! Mouse state: cursor position, button edge state, and scroll accumulation.
//!
//! Buttons are double-buffered like keyboard keys. The cursor position is kept
//! across tick boundaries even when no motion event arrives, so that
//! `position_delta` reports the motion since the previous tick and the
//! absolute position never snaps back to the origin on a quiet tick.
//! Positions are whole pixels; scroll accumulates in whatever integer unit
//! the event source reports.

use vstd::prelude::*;
use crate::window::{ButtonState, MouseButton};

verus! {

/// Whether `buttons` contains `button`.
pub open spec fn seq_has_button(buttons: Seq<MouseButton>, button: MouseButton) -> bool {
    exists|i: int| 0 <= i < buttons.len() && buttons[i] == button
}

/// Whether `buttons` holds no button twice.
pub open spec fn distinct_buttons(buttons: Seq<MouseButton>) -> bool {
    forall|i: int, j: int| 0 <= i < j < buttons.len() ==> buttons[i] != buttons[j]
}

/// The saturating sum of two values within the signed 64-bit range.
pub open spec fn sat_add_i64(a: int, b: int) -> int {
    if a + b > i64::MAX {
        i64::MAX as int
    } else if a + b < i64::MIN {
        i64::MIN as int
    } else {
        a + b
    }
}

/// Cursor position, double-buffered button sets, and the scroll accumulated
/// since the previous tick boundary.
pub struct Mouse {
    pub position: (i32, i32),
    pub last_position: (i32, i32),
    pub pressed_buttons: Vec<MouseButton>,
    pub last_pressed_buttons: Vec<MouseButton>,
    pub scroll_delta: i64,
}

/// Whether `post` is the state right after a tick boundary of `pre`: the
/// current button set became the previous one with a fresh empty current set,
/// the position was latched as the previous position and kept as the current
/// one, and the scroll accumulator was cleared.
pub open spec fn mouse_boundary(pre: Mouse, post: Mouse) -> bool {
    &&& post.last_position == pre.position
    &&& post.position == pre.position
    &&& post.last_pressed_buttons@ == pre.pressed_buttons@
    &&& post.pressed_buttons@.len() == 0
    &&& post.scroll_delta == 0
}

/// Whether `post` is `pre` with one raw press or release of `button`
/// recorded: everything untouched but the current button set, where `button`
/// is now present exactly when the event was a press and every other button
/// is as before.
pub open spec fn button_event_applied(
    pre: Mouse,
    post: Mouse,
    button: MouseButton,
    state: ButtonState,
) -> bool {
    &&& post.last_pressed_buttons@ == pre.last_pressed_buttons@
    &&& post.position == pre.position
    &&& post.last_position == pre.last_position
    &&& post.scroll_delta == pre.scroll_delta
    &&& seq_has_button(post.pressed_buttons@, button) == (state is Pressed)
    &&& forall|other: MouseButton| other != button ==> seq_has_button(post.pressed_buttons@, other)
        == seq_has_button(pre.pressed_buttons@, other)
}

/// Whether `buttons` holds `button`.
fn vec_has_button(buttons: &Vec<MouseButton>, button: MouseButton) -> (found: bool)
    ensures
        found == seq_has_button(buttons@, button),
{
    let mut i: usize = 0;
    while i < buttons.len()
        invariant
            i <= buttons@.len(),
            forall|j: int| 0 <= j < i ==> buttons@[j] != button,
        decreases buttons@.len() - i,
    {
        if buttons[i] == button {
            return true;
        }
        i = i + 1;
    }
    false
}

/// Adds `button` to the set if it is absent, keeping it duplicate-free.
fn insert_button(buttons: &mut Vec<MouseButton>, button: MouseButton)
    requires
        distinct_buttons(old(buttons)@),
    ensures
        distinct_buttons(final(buttons)@),
        seq_has_button(final(buttons)@, button),
        forall|other: MouseButton| other != button ==> seq_has_button(final(buttons)@, other)
            == seq_has_button(old(buttons)@, other),
{
    if !vec_has_button(buttons, button) {
        let ghost pre = buttons@;
        buttons.push(button);
        proof {
            let post = buttons@;
            assert(post[pre.len() as int] == button);
            assert forall|a: int, b: int| 0 <= a < b < post.len() implies post[a] != post[b] by {
                if b == pre.len() {
                    assert(post[a] == pre[a]);
                    assert(!seq_has_button(pre, button));
                } else {
                    assert(post[a] == pre[a] && post[b] == pre[b]);
                }
            }
            assert forall|other: MouseButton| other != button implies seq_has_button(post, other)
                == seq_has_button(pre, other) by {
                if seq_has_button(pre, other) {
                    let w = choose|w: int| 0 <= w < pre.len() && pre[w] == other;
                    assert(post[w] == other);
                }
                if seq_has_button(post, other) {
                    let w = choose|w: int| 0 <= w < post.len() && post[w] == other;
                    assert(pre[w] == other);
                }
            }
        }
    }
}

/// Removes `button` from the set if it is present, keeping it duplicate-free.
fn remove_button(buttons: &mut Vec<MouseButton>, button: MouseButton)
    requires
        distinct_buttons(old(buttons)@),
    ensures
        distinct_buttons(final(buttons)@),
        !seq_has_button(final(buttons)@, button),
        forall|other: MouseButton| other != button ==> seq_has_button(final(buttons)@, other)
            == seq_has_button(old(buttons)@, other),
{
    let mut i: usize = 0;
    while i < buttons.len()
        invariant
            distinct_buttons(buttons@),
            buttons@ == old(buttons)@,
            i <= buttons@.len(),
            forall|j: int| 0 <= j < i ==> buttons@[j] != button,
        decreases buttons@.len() - i,
    {
        if buttons[i] == button {
            let ghost pre = buttons@;
            let ghost at = i as int;
            buttons.remove(i);
            proof {
                let post = buttons@;
                assert(post == pre.remove(at));
                assert forall|j: int| 0 <= j < post.len() implies post[j] == (if j < at {
                    pre[j]
                } else {
                    pre[j + 1]
                }) by {}
                assert forall|j: int| 0 <= j < post.len() implies post[j] != button by {
                    if j >= at {
                        assert(pre[at] != pre[j + 1]);
                    }
                }
                assert forall|other: MouseButton| other != button implies seq_has_button(
                    post,
                    other,
                ) == seq_has_button(pre, other) by {
                    if seq_has_button(pre, other) {
                        let w = choose|w: int| 0 <= w < pre.len() && pre[w] == other;
                        if w < at {
                            assert(post[w] == other);
                        } else {
                            assert(post[w - 1] == other);
                        }
                    }
                    if seq_has_button(post, other) {
                        let w = choose|w: int| 0 <= w < post.len() && post[w] == other;
                        if w < at {
                            assert(pre[w] == other);
                        } else {
                            assert(pre[w + 1] == other);
                        }
                    }
                }
                assert forall|a: int, b: int| 0 <= a < b < post.len() implies post[a] != post[b] by {
                    let pa: int = if a < at { a } else { a + 1 };
                    let pb: int = if b < at { b } else { b + 1 };
                    assert(post[a] == pre[pa] && post[b] == pre[pb]);
                    assert(pre[pa] != pre[pb]);
                }
            }
            return;
        }
        i = i + 1;
    }
}

impl Mouse {
    /// Both button sets are duplicate-free.
    pub open spec fn wf(&self) -> bool {
        &&& distinct_buttons(self.pressed_buttons@)
        &&& distinct_buttons(self.last_pressed_buttons@)
    }

    /// A mouse at the origin with nothing pressed and no scroll.
    pub fn new() -> (mouse: Mouse)
        ensures
            mouse.wf(),
            mouse.position == (0i32, 0i32),
            mouse.last_position == (0i32, 0i32),
            mouse.pressed_buttons@.len() == 0,
            mouse.last_pressed_buttons@.len() == 0,
            mouse.scroll_delta == 0,
    {
        Mouse {
            position: (0, 0),
            last_position: (0, 0),
            pressed_buttons: Vec::new(),
            last_pressed_buttons: Vec::new(),
            scroll_delta: 0,
        }
    }

    /// Tick boundary: latches the position and the button set as the previous
    /// ones, keeps the current position, and clears the scroll accumulator.
    pub fn update(&mut self)
        requires
            old(self).wf(),
        ensures
            final(self).wf(),
            mouse_boundary(*old(self), *final(self)),
    {
        self.last_position = self.position;
        core::mem::swap(&mut self.last_pressed_buttons, &mut self.pressed_buttons);
        self.pressed_buttons.clear();
        self.scroll_delta = 0;
    }

    /// The cursor position now, in pixels.
    pub fn position(&self) -> (position: (i32, i32))
        ensures
            position == self.position,
    {
        self.position
    }

    /// The cursor motion since the previous tick boundary, in pixels.
    pub fn position_delta(&self) -> (delta: (i64, i64))
        ensures
            delta.0 == self.position.0 - self.last_position.0,
            delta.1 == self.position.1 - self.last_position.1,
    {
        (
            self.position.0 as i64 - self.last_position.0 as i64,
            self.position.1 as i64 - self.last_position.1 as i64,
        )
    }

    /// Whether `button` is down now.
    pub fn is_button_pressed(&self, button: MouseButton) -> (pressed: bool)
        ensures
            pressed == seq_has_button(self.pressed_buttons@, button),
    {
        vec_has_button(&self.pressed_buttons, button)
    }

    /// The scroll accumulated since the previous tick boundary.
    pub fn scroll_delta(&self) -> (delta: i64)
        ensures
            delta == self.scroll_delta,
    {
        self.scroll_delta
    }

    /// Records an absolute cursor position.
    pub fn update_position(&mut self, x: i32, y: i32)
        ensures
            *final(self) == (Mouse { position: (x, y), ..*old(self) }),
    {
        self.position = (x, y);
    }

    /// Accumulates a scroll amount, saturating at the signed 64-bit range.
    pub fn update_scroll(&mut self, delta: i64)
        ensures
            *final(self) == (Mouse {
                scroll_delta: sat_add_i64(old(self).scroll_delta as int, delta as int) as i64,
                ..*old(self)
            }),
    {
        let current = self.scroll_delta;
        self.scroll_delta = if delta >= 0 {
            if current > i64::MAX - delta {
                i64::MAX
            } else {
                current + delta
            }
        } else {
            if current < i64::MIN - delta {
                i64::MIN
            } else {
                current + delta
            }
        };
    }

    /// Records a raw press or release of `button` in the current button set.
    pub fn button_click(&mut self, button: MouseButton, state: ButtonState)
        requires
            old(self).wf(),
        ensures
            final(self).wf(),
            button_event_applied(*old(self), *final(self), button, state),
    {
        match state {
            ButtonState::Pressed => insert_button(&mut self.pressed_buttons, button),
            ButtonState::Released => remove_button(&mut self.pressed_buttons, button),
        }
    }
}

} // verus!
