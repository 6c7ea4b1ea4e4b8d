//! Hotkey recognizer: a small state machine that consumes key-transition
//! events and decides when the shortcut chord (both modifiers held, trigger
//! key pressed) fires an "activate" signal.

use vstd::prelude::*;

verus! {

/// A key as the recognizer distinguishes them: the two chord modifiers, the
/// trigger key, and everything else.
#[derive(Clone, Copy, PartialEq, Eq, Structural, Debug)]
pub enum KeyId {
    PrimaryModifier,
    SecondaryModifier,
    Trigger,
    Other,
}

/// One instantaneous key transition delivered by the input hook.
#[derive(Clone, Copy, PartialEq, Eq, Structural, Debug)]
pub enum KeyEvent {
    Press(KeyId),
    Release(KeyId),
}

/// The held/not-held flags for the two chord modifiers. All other keys leave
/// this state unchanged.
#[derive(Clone, Copy, PartialEq, Eq, Structural, Debug)]
pub struct HotkeyState {
    pub primary_held: bool,
    pub secondary_held: bool,
}

/// The starting state: no modifier held.
pub open spec fn init_state() -> HotkeyState {
    HotkeyState { primary_held: false, secondary_held: false }
}

/// The transition function of the recognizer: modifier presses and releases
/// set and clear the corresponding flag; every other event leaves the state
/// unchanged.
pub open spec fn spec_step(s: HotkeyState, e: KeyEvent) -> HotkeyState {
    match e {
        KeyEvent::Press(KeyId::PrimaryModifier) => HotkeyState { primary_held: true, ..s },
        KeyEvent::Release(KeyId::PrimaryModifier) => HotkeyState { primary_held: false, ..s },
        KeyEvent::Press(KeyId::SecondaryModifier) => HotkeyState { secondary_held: true, ..s },
        KeyEvent::Release(KeyId::SecondaryModifier) => HotkeyState { secondary_held: false, ..s },
        _ => s,
    }
}

/// Whether handling event `e` in state `s` fires the activate signal: exactly
/// a press of the trigger key while both modifier flags are true.
pub open spec fn spec_fires(s: HotkeyState, e: KeyEvent) -> bool {
    e == KeyEvent::Press(KeyId::Trigger) && s.primary_held && s.secondary_held
}

/// The state after running a whole sequence of events from state `s`.
pub open spec fn spec_run(s: HotkeyState, events: Seq<KeyEvent>) -> HotkeyState
    decreases events.len(),
{
    if events.len() == 0 {
        s
    } else {
        spec_step(spec_run(s, events.drop_last()), events.last())
    }
}

/// Whether an event concerns the given modifier key (press or release).
pub open spec fn concerns(e: KeyEvent, k: KeyId) -> bool {
    e == KeyEvent::Press(k) || e == KeyEvent::Release(k)
}

/// Whether `events` contains some event for modifier `k`.
pub open spec fn has_event_for(events: Seq<KeyEvent>, k: KeyId) -> bool {
    exists|i: int| 0 <= i < events.len() && concerns(events[i], k)
}

/// Whether the most recent event for modifier `k` in `events` is a press:
/// some press of `k` occurs and no event for `k` follows it.
pub open spec fn last_event_is_press(events: Seq<KeyEvent>, k: KeyId) -> bool {
    exists|i: int|
        0 <= i < events.len() && events[i] == KeyEvent::Press(k) && (forall|j: int|
            i < j < events.len() ==> !concerns(events[j], k))
}

/// Whether modifier `k` is held after the whole history `events` has been
/// processed, characterized purely by the event history: held exactly when
/// the most recent event for `k` is a press.
pub open spec fn held_by_history(events: Seq<KeyEvent>, k: KeyId) -> bool {
    last_event_is_press(events, k)
}

/// Reads the named modifier flag out of a state.
pub open spec fn flag_of(s: HotkeyState, k: KeyId) -> bool {
    if k == KeyId::PrimaryModifier {
        s.primary_held
    } else {
        s.secondary_held
    }
}

impl HotkeyState {
    /// A fresh recognizer state with no modifier held.
    pub fn new() -> (s: HotkeyState)
        ensures
            s == init_state(),
    {
        HotkeyState { primary_held: false, secondary_held: false }
    }

    /// Handles one key-transition event: updates the modifier flags by the
    /// transition function and reports whether the activate signal fires.
    pub fn on_event(&mut self, e: KeyEvent) -> (activate: bool)
        ensures
            *final(self) == spec_step(*old(self), e),
            activate == spec_fires(*old(self), e),
    {
        let fires: bool = match e {
            KeyEvent::Press(KeyId::PrimaryModifier) => {
                self.primary_held = true;
                false
            },
            KeyEvent::Release(KeyId::PrimaryModifier) => {
                self.primary_held = false;
                false
            },
            KeyEvent::Press(KeyId::SecondaryModifier) => {
                self.secondary_held = true;
                false
            },
            KeyEvent::Release(KeyId::SecondaryModifier) => {
                self.secondary_held = false;
                false
            },
            KeyEvent::Press(KeyId::Trigger) => self.primary_held && self.secondary_held,
            _ => false,
        };
        fires
    }
}

/// A modifier flag after a run is determined by the history: it is true
/// exactly when the most recent event for that modifier is a press, or, when
/// the history holds no event for that modifier, when the flag was already
/// true in the starting state.
pub proof fn lemma_flag_characterization(s0: HotkeyState, events: Seq<KeyEvent>, k: KeyId)
    requires
        k == KeyId::PrimaryModifier || k == KeyId::SecondaryModifier,
    ensures
        flag_of(spec_run(s0, events), k) == if has_event_for(events, k) {
            held_by_history(events, k)
        } else {
            flag_of(s0, k)
        },
    decreases events.len(),
{
    if events.len() == 0 {
    } else {
        let prefix = events.drop_last();
        let e = events.last();
        let n = events.len() - 1;
        lemma_flag_characterization(s0, prefix, k);
        assert(forall|i: int| 0 <= i < n ==> prefix[i] == events[i]);
        if concerns(e, k) {
            assert(has_event_for(events, k)) by {
                assert(concerns(events[n], k));
            }
            if e == KeyEvent::Press(k) {
                assert(last_event_is_press(events, k)) by {
                    assert(events[n] == KeyEvent::Press(k));
                }
            } else {
                if last_event_is_press(events, k) {
                    let i = choose|i: int|
                        0 <= i < events.len() && events[i] == KeyEvent::Press(k) && (forall|j: int|
                            i < j < events.len() ==> !concerns(events[j], k));
                    if i == n {
                        assert(events[n] == KeyEvent::Release(k));
                        assert(false);
                    } else {
                        assert(!concerns(events[n], k));
                        assert(false);
                    }
                }
            }
        } else {
            assert(flag_of(spec_run(s0, events), k) == flag_of(spec_run(s0, prefix), k));
            if has_event_for(events, k) {
                let i = choose|i: int| 0 <= i < events.len() && concerns(events[i], k);
                assert(i != n);
                assert(concerns(prefix[i], k));
                assert(has_event_for(prefix, k));
            }
            if has_event_for(prefix, k) {
                let i = choose|i: int| 0 <= i < prefix.len() && concerns(prefix[i], k);
                assert(concerns(events[i], k));
                assert(has_event_for(events, k));
            }
            if last_event_is_press(prefix, k) {
                let i = choose|i: int|
                    0 <= i < prefix.len() && prefix[i] == KeyEvent::Press(k) && (forall|j: int|
                        i < j < prefix.len() ==> !concerns(prefix[j], k));
                assert(events[i] == KeyEvent::Press(k));
                assert(forall|j: int| i < j < events.len() ==> !concerns(events[j], k)) by {
                    assert(!concerns(events[n], k));
                }
                assert(last_event_is_press(events, k));
            }
            if last_event_is_press(events, k) {
                let i = choose|i: int|
                    0 <= i < events.len() && events[i] == KeyEvent::Press(k) && (forall|j: int|
                        i < j < events.len() ==> !concerns(events[j], k));
                assert(i != n);
                assert(prefix[i] == KeyEvent::Press(k));
                assert(forall|j: int| i < j < prefix.len() ==> !concerns(prefix[j], k));
                assert(last_event_is_press(prefix, k));
            }
        }
    }
}

/// The activate signal fires on the event at position `i` of a run started
/// in the all-released state exactly when that event is a press of the
/// trigger key and, at that instant, the most recent event for each modifier
/// is a press of it.
pub proof fn lemma_activation_characterization(events: Seq<KeyEvent>, i: int)
    requires
        0 <= i < events.len(),
    ensures
        spec_fires(spec_run(init_state(), events.take(i)), events[i]) == (events[i]
            == KeyEvent::Press(KeyId::Trigger) && held_by_history(
            events.take(i),
            KeyId::PrimaryModifier,
        ) && held_by_history(events.take(i), KeyId::SecondaryModifier)),
{
    let prefix = events.take(i);
    lemma_flag_characterization(init_state(), prefix, KeyId::PrimaryModifier);
    lemma_flag_characterization(init_state(), prefix, KeyId::SecondaryModifier);
    assert(!has_event_for(prefix, KeyId::PrimaryModifier) ==> !last_event_is_press(
        prefix,
        KeyId::PrimaryModifier,
    ));
    assert(!has_event_for(prefix, KeyId::SecondaryModifier) ==> !last_event_is_press(
        prefix,
        KeyId::SecondaryModifier,
    ));
}

/// Releasing either modifier suppresses a trigger press that immediately
/// follows: no false positive once the chord is broken.
pub proof fn lemma_release_suppresses(s: HotkeyState, k: KeyId)
    requires
        k == KeyId::PrimaryModifier || k == KeyId::SecondaryModifier,
    ensures
        !spec_fires(spec_step(s, KeyEvent::Release(k)), KeyEvent::Press(KeyId::Trigger)),
{
}

/// Pressing both modifiers again restores the ability to trigger, from any
/// state: no permanent lockout.
pub proof fn lemma_repress_restores(s: HotkeyState)
    ensures
        spec_fires(
            spec_step(
                spec_step(s, KeyEvent::Press(KeyId::PrimaryModifier)),
                KeyEvent::Press(KeyId::SecondaryModifier),
            ),
            KeyEvent::Press(KeyId::Trigger),
        ),
{
}

} // verus!
