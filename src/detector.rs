//! Chord and scroll detection: which keys are down, which went down in the
//! current cycle, and the direction of the cycle's last scroll.

use std::collections::HashSet;

use vstd::prelude::*;

use crate::events::{
    fresh, held, last_scroll, lemma_held_key_not_fresh, lemma_take_step, released_in, scroll_sign,
    InputEvent, KeyState,
};
use crate::keys::{code_of, is_known_code, KeyCode};

verus! {

broadcast use vstd::std_specs::hash::group_hash_axioms;

/// Listener state, updated once per cycle from the events of that cycle.
#[derive(Debug)]
pub struct InputState {
    pressed_keys: HashSet<u32>,
    just_pressed: HashSet<u32>,
    wheel_delta: i32,
}

/// Whether every key of `modifiers` is in `keys`.
pub open spec fn all_in(keys: Set<KeyCode>, modifiers: Seq<KeyCode>) -> bool {
    forall|i: int| 0 <= i < modifiers.len() ==> keys.contains(#[trigger] modifiers[i])
}

impl Default for InputState {
    fn default() -> (r: Self)
        ensures
            r.wf(),
            r.pressed() == Set::<KeyCode>::empty(),
            r.just() == Set::<KeyCode>::empty(),
            r.wheel() == 0,
    {
        InputState::new()
    }
}

impl InputState {
    /// The keys currently held.
    pub closed spec fn pressed(&self) -> Set<KeyCode> {
        Set::new(|k: KeyCode| self.pressed_keys@.contains(code_of(k)))
    }

    /// The keys that went down during the last cycle.
    pub closed spec fn just(&self) -> Set<KeyCode> {
        Set::new(|k: KeyCode| self.just_pressed@.contains(code_of(k)))
    }

    /// The direction of the last cycle's last scroll: -1, 0 or 1.
    pub closed spec fn wheel(&self) -> i32 {
        self.wheel_delta
    }

    /// Only scan codes of known keys are recorded.
    pub closed spec fn wf(&self) -> bool {
        &&& forall|c: u32| #[trigger] self.pressed_keys@.contains(c) ==> is_known_code(c)
        &&& forall|c: u32| #[trigger] self.just_pressed@.contains(c) ==> is_known_code(c)
    }

    /// No key held, none pressed, no scroll.
    pub fn new() -> (r: Self)
        ensures
            r.wf(),
            r.pressed() == Set::<KeyCode>::empty(),
            r.just() == Set::<KeyCode>::empty(),
            r.wheel() == 0,
    {
        let r = InputState { pressed_keys: HashSet::new(), just_pressed: HashSet::new(), wheel_delta: 0 };
        assert(r.pressed() =~= Set::<KeyCode>::empty());
        assert(r.just() =~= Set::<KeyCode>::empty());
        r
    }

    /// Runs one cycle over the events drained from the device: the keys
    /// pressed and the scroll are those of this cycle alone, while the held
    /// keys carry over. Events with a scan code that names no key are
    /// ignored.
    pub fn update(&mut self, events: &[InputEvent])
        requires
            old(self).wf(),
        ensures
            final(self).wf(),
            forall|k: KeyCode|
                #[trigger] final(self).pressed().contains(k) == held(
                    old(self).pressed().contains(k),
                    events@,
                    code_of(k),
                ),
            forall|k: KeyCode|
                #[trigger] final(self).just().contains(k) == fresh(
                    old(self).pressed().contains(k),
                    events@,
                    code_of(k),
                ),
            final(self).wheel() == last_scroll(events@),
    {
        let ghost init = self.pressed();
        self.wheel_delta = 0;
        self.just_pressed.clear();
        let n = events.len();
        let mut i: usize = 0;
        while i < n
            invariant
                n == events@.len(),
                0 <= i <= n,
                self.wf(),
                forall|k: KeyCode|
                    #[trigger] self.pressed().contains(k) == held(
                        init.contains(k),
                        events@.take(i as int),
                        code_of(k),
                    ),
                forall|k: KeyCode|
                    #[trigger] self.just().contains(k) == fresh(
                        init.contains(k),
                        events@.take(i as int),
                        code_of(k),
                    ),
                self.wheel() == last_scroll(events@.take(i as int)),
            decreases n - i,
        {
            proof {
                lemma_take_step(events@, i as int);
            }
            let ghost before = *self;
            match events[i] {
                InputEvent::Key { code, state } => {
                    if let Some(key) = KeyCode::from_code(code) {
                        let c = key.code();
                        match state {
                            KeyState::Pressed => {
                                if !self.pressed_keys.contains(&c) {
                                    self.just_pressed.insert(c);
                                }
                                self.pressed_keys.insert(c);
                            },
                            KeyState::Released => {
                                self.pressed_keys.remove(&c);
                            },
                        }
                    }
                },
                InputEvent::Scroll { value } => {
                    self.wheel_delta = scroll_sign(value);
                },
            }
            assert forall|k: KeyCode|
                #[trigger] self.pressed().contains(k) == held(
                    init.contains(k),
                    events@.take(i + 1),
                    code_of(k),
                ) by {
                assert(before.pressed().contains(k) == before.pressed_keys@.contains(code_of(k)));
                assert(self.pressed().contains(k) == self.pressed_keys@.contains(code_of(k)));
            }
            assert forall|k: KeyCode|
                #[trigger] self.just().contains(k) == fresh(
                    init.contains(k),
                    events@.take(i + 1),
                    code_of(k),
                ) by {
                assert(before.pressed().contains(k) == before.pressed_keys@.contains(code_of(k)));
                assert(before.just().contains(k) == before.just_pressed@.contains(code_of(k)));
                assert(self.just().contains(k) == self.just_pressed@.contains(code_of(k)));
            }
            i = i + 1;
        }
        assert(events@.take(n as int) =~= events@);
    }

    fn all_held(&self, modifiers: &[KeyCode]) -> (r: bool)
        ensures
            r == all_in(self.pressed(), modifiers@),
    {
        let mut i: usize = 0;
        while i < modifiers.len()
            invariant
                0 <= i <= modifiers@.len(),
                forall|j: int| 0 <= j < i ==> self.pressed().contains(#[trigger] modifiers@[j]),
            decreases modifiers@.len() - i,
        {
            let c = modifiers[i].code();
            if !self.pressed_keys.contains(&c) {
                assert(!self.pressed().contains(modifiers@[i as int]));
                return false;
            }
            assert(self.pressed().contains(modifiers@[i as int]));
            i = i + 1;
        }
        true
    }

    /// Whether the chord has just completed: every modifier is held and
    /// `main` went down during this cycle. A chord kept held over later
    /// cycles does not fire again.
    pub fn key_bind_pressed(&self, modifiers: &[KeyCode], main: KeyCode) -> (r: bool)
        ensures
            r == (all_in(self.pressed(), modifiers@) && self.just().contains(main)),
            (exists|i: int| 0 <= i < modifiers@.len() && !self.pressed().contains(#[trigger] modifiers@[i]))
                ==> !r,
    {
        let c = main.code();
        self.all_held(modifiers) && self.just_pressed.contains(&c)
    }

    /// The cycle's scroll direction when every modifier is held, else 0.
    pub fn scrolled(&self, modifiers: &[KeyCode]) -> (r: i32)
        ensures
            r == if all_in(self.pressed(), modifiers@) {
                self.wheel()
            } else {
                0
            },
    {
        if self.all_held(modifiers) {
            self.wheel_delta
        } else {
            0
        }
    }
}

/// A key held when a cycle starts and not released during it is still
/// held afterwards and is not among the keys just pressed.
pub proof fn lemma_held_key_is_no_edge(events: Seq<InputEvent>, k: KeyCode)
    requires
        !released_in(events, code_of(k)),
    ensures
        held(true, events, code_of(k)),
        !fresh(true, events, code_of(k)),
{
    lemma_held_key_not_fresh(events, code_of(k));
}

} // verus!
