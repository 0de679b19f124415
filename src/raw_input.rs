//! Key tracking by raw scan code: every code the device reports is kept,
//! known to the key table or not.

use std::collections::HashSet;

use vstd::prelude::*;

use crate::events::{held, last_scroll, lemma_take_step, scroll_sign, InputEvent, KeyState};

verus! {

broadcast use vstd::std_specs::hash::group_hash_axioms;

/// Whether every code of `codes` is in `keys`.
pub open spec fn all_codes_in(keys: Set<u32>, codes: Seq<u32>) -> bool {
    forall|i: int| 0 <= i < codes.len() ==> keys.contains(#[trigger] codes[i])
}

/// Whether, at some key event of `evs`, every code of `targets` is down,
/// all keys being up before `evs`.
pub open spec fn chord_reached(evs: Seq<InputEvent>, targets: Seq<u32>) -> bool {
    exists|i: int|
        0 <= i < evs.len() && (evs[i] is Key) && #[trigger] all_held_after(evs.take(i + 1), targets)
}

/// Whether every code of `targets` is down after `evs`, all keys being up
/// before them.
pub open spec fn all_held_after(evs: Seq<InputEvent>, targets: Seq<u32>) -> bool {
    forall|j: int| 0 <= j < targets.len() ==> held(false, evs, #[trigger] targets[j])
}

/// Listener state over raw scan codes.
#[derive(Debug)]
pub struct InputState {
    pressed_keys: HashSet<u32>,
    wheel_delta: i32,
}

fn codes_all_in(keys: &HashSet<u32>, codes: &[u32]) -> (r: bool)
    ensures
        r == all_codes_in(keys@, codes@),
{
    let mut i: usize = 0;
    while i < codes.len()
        invariant
            0 <= i <= codes@.len(),
            forall|j: int| 0 <= j < i ==> keys@.contains(#[trigger] codes@[j]),
        decreases codes@.len() - i,
    {
        if !keys.contains(&codes[i]) {
            return false;
        }
        i = i + 1;
    }
    true
}

/// Applies one key transition to a set of held codes.
fn apply_key(keys: &mut HashSet<u32>, code: u32, state: KeyState)
    ensures
        final(keys)@ == match state {
            KeyState::Pressed => old(keys)@.insert(code),
            KeyState::Released => old(keys)@.remove(code),
        },
{
    match state {
        KeyState::Pressed => {
            keys.insert(code);
        },
        KeyState::Released => {
            keys.remove(&code);
        },
    }
}

impl Default for InputState {
    fn default() -> (r: Self)
        ensures
            r.pressed() == Set::<u32>::empty(),
            r.wheel() == 0,
    {
        InputState::new()
    }
}

impl InputState {
    /// The scan codes currently held.
    pub closed spec fn pressed(&self) -> Set<u32> {
        self.pressed_keys@
    }

    /// The direction of the last cycle's last scroll: -1, 0 or 1.
    pub closed spec fn wheel(&self) -> i32 {
        self.wheel_delta
    }

    /// No key held, no scroll.
    pub fn new() -> (r: Self)
        ensures
            r.pressed() == Set::<u32>::empty(),
            r.wheel() == 0,
    {
        InputState { pressed_keys: HashSet::new(), wheel_delta: 0 }
    }

    /// Runs one cycle over the events drained from the device; held codes
    /// carry over, the scroll is this cycle's alone.
    pub fn update(&mut self, events: &[InputEvent])
        ensures
            forall|c: u32|
                #[trigger] final(self).pressed().contains(c) == held(
                    old(self).pressed().contains(c),
                    events@,
                    c,
                ),
            final(self).wheel() == last_scroll(events@),
    {
        let ghost init = self.pressed();
        self.wheel_delta = 0;
        let n = events.len();
        let mut i: usize = 0;
        while i < n
            invariant
                n == events@.len(),
                0 <= i <= n,
                forall|c: u32|
                    #[trigger] self.pressed().contains(c) == held(
                        init.contains(c),
                        events@.take(i as int),
                        c,
                    ),
                self.wheel() == last_scroll(events@.take(i as int)),
            decreases n - i,
        {
            proof {
                lemma_take_step(events@, i as int);
            }
            let ghost before = *self;
            match events[i] {
                InputEvent::Key { code, state } => {
                    apply_key(&mut self.pressed_keys, code, state);
                },
                InputEvent::Scroll { value } => {
                    self.wheel_delta = scroll_sign(value);
                },
            }
            assert forall|c: u32|
                #[trigger] self.pressed().contains(c) == held(
                    init.contains(c),
                    events@.take(i + 1),
                    c,
                ) by {
                assert(before.pressed().contains(c) == held(
                    init.contains(c),
                    events@.take(i as int),
                    c,
                ));
            }
            i = i + 1;
        }
        assert(events@.take(n as int) =~= events@);
    }

    /// Whether every code of `keys` is held.
    pub fn keys_fully_pressed(&self, keys: &[u32]) -> (r: bool)
        ensures
            r == all_codes_in(self.pressed(), keys@),
    {
        codes_all_in(&self.pressed_keys, keys)
    }

    /// The cycle's scroll direction when every modifier is held, else 0.
    pub fn mouse_wheel_scrolled(&self, modifiers: &[u32]) -> (r: i32)
        ensures
            r == if all_codes_in(self.pressed(), modifiers@) {
                self.wheel()
            } else {
                0
            },
    {
        if codes_all_in(&self.pressed_keys, modifiers) {
            self.wheel_delta
        } else {
            0
        }
    }
}

/// Whether all of `key_arr` are down together at some key event of
/// `events`, starting from no key held.
pub fn keys_fully_pressed(key_arr: Vec<u32>, events: &[InputEvent]) -> (r: bool)
    ensures
        r == chord_reached(events@, key_arr@),
{
    let mut pressed: HashSet<u32> = HashSet::new();
    let n = events.len();
    let mut i: usize = 0;
    while i < n
        invariant
            n == events@.len(),
            0 <= i <= n,
            forall|c: u32| #[trigger] pressed@.contains(c) == held(false, events@.take(i as int), c),
            forall|j: int|
                0 <= j < i && (events@[j] is Key) ==> !#[trigger] all_held_after(
                    events@.take(j + 1),
                    key_arr@,
                ),
        decreases n - i,
    {
        proof {
            lemma_take_step(events@, i as int);
        }
        if let InputEvent::Key { code, state } = events[i] {
            apply_key(&mut pressed, code, state);
            let all = codes_all_in(&pressed, key_arr.as_slice());
            assert(all == all_held_after(events@.take(i + 1), key_arr@)) by {
                if all {
                    assert forall|j: int| 0 <= j < key_arr@.len() implies held(
                        false,
                        events@.take(i + 1),
                        #[trigger] key_arr@[j],
                    ) by {
                        assert(pressed@.contains(key_arr@[j]));
                    }
                } else {
                    let j = choose|j: int| 0 <= j < key_arr@.len() && !pressed@.contains(#[trigger] key_arr@[j]);
                    assert(!held(false, events@.take(i + 1), key_arr@[j]));
                }
            }
            if all {
                return true;
            }
        }
        i = i + 1;
    }
    false
}

} // verus!
