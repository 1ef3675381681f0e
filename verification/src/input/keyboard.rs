//! Keyboard edge state.
//!
//! The keyboard keeps a current and a previous pressed-set. At each tick
//! boundary the current set becomes the previous one and a fresh current set
//! starts collecting the raw events of the next tick, so that "pressed" and
//! "released" are edges between consecutive ticks while "held" is a level.

use vstd::prelude::*;
use crate::window::{ButtonState, Key};

verus! {

/// Whether `keys` contains `key`.
pub open spec fn seq_has_key(keys: Seq<Key>, key: Key) -> bool {
    exists|i: int| 0 <= i < keys.len() && keys[i] == key
}

/// Whether `keys` holds no key twice.
pub open spec fn distinct_keys(keys: Seq<Key>) -> bool {
    forall|i: int, j: int| 0 <= i < j < keys.len() ==> keys[i] != keys[j]
}

/// Current and previous pressed-sets, each a duplicate-free list of keys.
pub struct Keyboard {
    pub pressed_keys: Vec<Key>,
    pub last_pressed_keys: Vec<Key>,
}

/// Whether `post` is the state right after a tick boundary of `pre`: the
/// current set became the previous one and the new current set is empty.
pub open spec fn keyboard_boundary(pre: Keyboard, post: Keyboard) -> bool {
    &&& post.last_pressed_keys@ == pre.pressed_keys@
    &&& post.pressed_keys@.len() == 0
}

/// Whether `post` is `pre` with one raw press or release of `key` recorded:
/// the previous set untouched, `key` now in the current set exactly when the
/// event was a press, every other key as before.
pub open spec fn key_event_applied(
    pre: Keyboard,
    post: Keyboard,
    key: Key,
    state: ButtonState,
) -> bool {
    &&& post.last_pressed_keys@ == pre.last_pressed_keys@
    &&& seq_has_key(post.pressed_keys@, key) == (state is Pressed)
    &&& forall|other: Key| other != key ==> seq_has_key(post.pressed_keys@, other) == seq_has_key(
        pre.pressed_keys@,
        other,
    )
}

/// Whether `keys` holds `key`.
fn vec_has_key(keys: &Vec<Key>, key: Key) -> (found: bool)
    ensures
        found == seq_has_key(keys@, key),
{
    let mut i: usize = 0;
    while i < keys.len()
        invariant
            i <= keys@.len(),
            forall|j: int| 0 <= j < i ==> keys@[j] != key,
        decreases keys@.len() - i,
    {
        if keys[i] == key {
            return true;
        }
        i = i + 1;
    }
    false
}

/// Adds `key` to the set if it is absent, keeping it duplicate-free.
fn insert_key(keys: &mut Vec<Key>, key: Key)
    requires
        distinct_keys(old(keys)@),
    ensures
        distinct_keys(final(keys)@),
        seq_has_key(final(keys)@, key),
        forall|other: Key| other != key ==> seq_has_key(final(keys)@, other) == seq_has_key(
            old(keys)@,
            other,
        ),
{
    if !vec_has_key(keys, key) {
        let ghost pre = keys@;
        keys.push(key);
        proof {
            let post = keys@;
            assert(post[pre.len() as int] == key);
            assert forall|a: int, b: int| 0 <= a < b < post.len() implies post[a] != post[b] by {
                if b == pre.len() {
                    assert(post[a] == pre[a]);
                    assert(!seq_has_key(pre, key));
                } else {
                    assert(post[a] == pre[a] && post[b] == pre[b]);
                }
            }
            assert forall|other: Key| other != key implies seq_has_key(post, other)
                == seq_has_key(pre, other) by {
                if seq_has_key(pre, other) {
                    let w = choose|w: int| 0 <= w < pre.len() && pre[w] == other;
                    assert(post[w] == other);
                }
                if seq_has_key(post, other) {
                    let w = choose|w: int| 0 <= w < post.len() && post[w] == other;
                    assert(pre[w] == other);
                }
            }
        }
    }
}

/// Removes `key` from the set if it is present, keeping it duplicate-free.
fn remove_key(keys: &mut Vec<Key>, key: Key)
    requires
        distinct_keys(old(keys)@),
    ensures
        distinct_keys(final(keys)@),
        !seq_has_key(final(keys)@, key),
        forall|other: Key| other != key ==> seq_has_key(final(keys)@, other) == seq_has_key(
            old(keys)@,
            other,
        ),
{
    let mut i: usize = 0;
    while i < keys.len()
        invariant
            distinct_keys(keys@),
            keys@ == old(keys)@,
            i <= keys@.len(),
            forall|j: int| 0 <= j < i ==> keys@[j] != key,
        decreases keys@.len() - i,
    {
        if keys[i] == key {
            let ghost pre = keys@;
            let ghost at = i as int;
            keys.remove(i);
            proof {
                let post = keys@;
                assert(post == pre.remove(at));
                assert forall|j: int| 0 <= j < post.len() implies post[j] == (if j < at {
                    pre[j]
                } else {
                    pre[j + 1]
                }) by {}
                assert forall|j: int| 0 <= j < post.len() implies post[j] != key by {
                    if j >= at {
                        assert(pre[at] != pre[j + 1]);
                    }
                }
                assert forall|other: Key| other != key implies seq_has_key(post, other)
                    == seq_has_key(pre, other) by {
                    if seq_has_key(pre, other) {
                        let w = choose|w: int| 0 <= w < pre.len() && pre[w] == other;
                        if w < at {
                            assert(post[w] == other);
                        } else {
                            assert(post[w - 1] == other);
                        }
                    }
                    if seq_has_key(post, other) {
                        let w = choose|w: int| 0 <= w < post.len() && post[w] == other;
                        if w < at {
                            assert(pre[w] == other);
                        } else {
                            assert(pre[w + 1] == other);
                        }
                    }
                }
                assert forall|a: int, b: int| 0 <= a < b < post.len() implies post[a] != post[b] by {
                    let pa: int = if a < at { a } else { a + 1 };
                    let pb: int = if b < at { b } else { b + 1 };
                    assert(post[a] == pre[pa] && post[b] == pre[pb]);
                    assert(pre[pa] != pre[pb]);
                }
            }
            return;
        }
        i = i + 1;
    }
}

impl Keyboard {
    /// Both pressed-sets are duplicate-free.
    pub open spec fn wf(&self) -> bool {
        &&& distinct_keys(self.pressed_keys@)
        &&& distinct_keys(self.last_pressed_keys@)
    }

    /// Edge: down now and not down during the previous tick.
    pub open spec fn pressed_spec(&self, key: Key) -> bool {
        seq_has_key(self.pressed_keys@, key) && !seq_has_key(self.last_pressed_keys@, key)
    }

    /// Edge: down during the previous tick and no longer down.
    pub open spec fn released_spec(&self, key: Key) -> bool {
        !seq_has_key(self.pressed_keys@, key) && seq_has_key(self.last_pressed_keys@, key)
    }

    /// Level: down now.
    pub open spec fn held_spec(&self, key: Key) -> bool {
        seq_has_key(self.pressed_keys@, key)
    }

    /// A keyboard with nothing pressed now or during the previous tick.
    pub fn new() -> (keyboard: Keyboard)
        ensures
            keyboard.wf(),
            keyboard.pressed_keys@.len() == 0,
            keyboard.last_pressed_keys@.len() == 0,
    {
        Keyboard { pressed_keys: Vec::new(), last_pressed_keys: Vec::new() }
    }

    /// Tick boundary: the current set becomes the previous one and a fresh
    /// current set starts collecting events.
    pub fn update(&mut self)
        requires
            old(self).wf(),
        ensures
            final(self).wf(),
            keyboard_boundary(*old(self), *final(self)),
    {
        core::mem::swap(&mut self.last_pressed_keys, &mut self.pressed_keys);
        self.pressed_keys.clear();
    }

    /// Whether `key` went down this tick (an edge, not a level).
    pub fn is_key_pressed(&self, key: Key) -> (pressed: bool)
        ensures
            pressed == self.pressed_spec(key),
    {
        vec_has_key(&self.pressed_keys, key) && !vec_has_key(&self.last_pressed_keys, key)
    }

    /// Whether `key` went up this tick (an edge, not a level).
    pub fn is_key_released(&self, key: Key) -> (released: bool)
        ensures
            released == self.released_spec(key),
    {
        !vec_has_key(&self.pressed_keys, key) && vec_has_key(&self.last_pressed_keys, key)
    }

    /// Whether `key` is down now.
    pub fn is_key_held_down(&self, key: Key) -> (held: bool)
        ensures
            held == self.held_spec(key),
    {
        vec_has_key(&self.pressed_keys, key)
    }

    /// Records a raw press or release of `key` in the current pressed-set.
    pub fn pressed(&mut self, key: Key, state: ButtonState)
        requires
            old(self).wf(),
        ensures
            final(self).wf(),
            key_event_applied(*old(self), *final(self), key, state),
    {
        match state {
            ButtonState::Pressed => insert_key(&mut self.pressed_keys, key),
            ButtonState::Released => remove_key(&mut self.pressed_keys, key),
        }
    }
}

} // verus!
