//! Decoded device events and the per-key history they describe.

use vstd::prelude::*;

verus! {

/// Transition of a key.
#[derive(Debug, Clone, Copy, PartialEq, Eq, Structural)]
pub enum KeyState {
    Pressed,
    Released,
}

/// One raw event of the device stream, as handed over by the event source.
#[derive(Debug, Clone, Copy, PartialEq, Eq, Structural)]
pub enum InputEvent {
    /// A key transition, with the raw scan code as the device reported it.
    Key { code: u32, state: KeyState },
    /// A vertical scroll; only the sign of `value` matters.
    Scroll { value: i32 },
}

/// The sign of `v`: -1, 0 or 1.
pub open spec fn sign(v: i32) -> i32 {
    if v > 0 {
        1i32
    } else if v < 0 {
        -1i32
    } else {
        0i32
    }
}

/// Whether the key with scan code `c` is down after `evs`, given whether it
/// was down before them: the last transition of `c` decides, and without
/// one the key keeps its earlier state.
pub open spec fn held(was_down: bool, evs: Seq<InputEvent>, c: u32) -> bool
    decreases evs.len(),
{
    if evs.len() == 0 {
        was_down
    } else {
        match evs.last() {
            InputEvent::Key { code, state } => {
                if code == c {
                    state == KeyState::Pressed
                } else {
                    held(was_down, evs.drop_last(), c)
                }
            },
            InputEvent::Scroll { .. } => held(was_down, evs.drop_last(), c),
        }
    }
}

/// Whether some event of `evs` presses `c` while `c` is up: the key went
/// down during `evs`, not merely stayed down.
pub open spec fn fresh(was_down: bool, evs: Seq<InputEvent>, c: u32) -> bool
    decreases evs.len(),
{
    if evs.len() == 0 {
        false
    } else {
        fresh(was_down, evs.drop_last(), c) || (evs.last() == InputEvent::Key {
            code: c,
            state: KeyState::Pressed,
        } && !held(was_down, evs.drop_last(), c))
    }
}

/// The sign of the last scroll among `evs`, or 0 when there is none.
pub open spec fn last_scroll(evs: Seq<InputEvent>) -> i32
    decreases evs.len(),
{
    if evs.len() == 0 {
        0i32
    } else {
        match evs.last() {
            InputEvent::Scroll { value } => sign(value),
            InputEvent::Key { .. } => last_scroll(evs.drop_last()),
        }
    }
}

/// Whether `evs` holds a release of `c`.
pub open spec fn released_in(evs: Seq<InputEvent>, c: u32) -> bool {
    exists|i: int|
        0 <= i < evs.len() && #[trigger] evs[i] == (InputEvent::Key {
            code: c,
            state: KeyState::Released,
        })
}

/// A key that is down when a cycle starts, and that no event of the cycle
/// releases, stays down and is never reported as freshly pressed: repeated
/// presses of a held key are no new edge.
pub proof fn lemma_held_key_not_fresh(evs: Seq<InputEvent>, c: u32)
    requires
        !released_in(evs, c),
    ensures
        held(true, evs, c),
        !fresh(true, evs, c),
    decreases evs.len(),
{
    if evs.len() > 0 {
        let rest = evs.drop_last();
        assert(!released_in(rest, c)) by {
            if released_in(rest, c) {
                let i = choose|i: int|
                    0 <= i < rest.len() && #[trigger] rest[i] == (InputEvent::Key {
                        code: c,
                        state: KeyState::Released,
                    });
                assert(evs[i] == rest[i]);
            }
        }
        lemma_held_key_not_fresh(rest, c);
        assert(evs[evs.len() - 1] == evs.last());
    }
}

/// The sign of a scroll value.
pub fn scroll_sign(v: i32) -> (r: i32)
    ensures
        r == sign(v),
{
    if v > 0 {
        1
    } else if v < 0 {
        -1
    } else {
        0
    }
}

/// A prefix of `evs` one event longer ends with that event.
pub proof fn lemma_take_step(evs: Seq<InputEvent>, i: int)
    requires
        0 <= i < evs.len(),
    ensures
        evs.take(i + 1).drop_last() == evs.take(i),
        evs.take(i + 1).last() == evs[i],
        evs.take(i + 1).len() == i + 1,
{
    assert(evs.take(i + 1).drop_last() =~= evs.take(i));
}

} // verus!
