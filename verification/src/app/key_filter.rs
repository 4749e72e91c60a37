//! Key event de-duplication.
//!
//! Some consoles report every keystroke twice, once as a press and once as a
//! release; dispatching both makes every hotkey fire twice. Releases cannot
//! simply be discarded either: after some child processes have run, a
//! console may report certain keys (Escape, modified keys) only as releases.
//!
//! [`KeyEventFilter`] pairs releases with the presses before them. A release
//! whose press was dispatched is a duplicate and is dropped; a release with
//! no press seen is dispatched when the key is one that the broken console
//! mode would otherwise make unreachable.

use crate::text::ascii_lower;
use crate::app::keys::{KeyCode, KeyEvent, KeyEventKind};
use vstd::prelude::*;

verus! {

/// How many held keys are tracked. The slots form a ring: once all are in
/// use the oldest is overwritten, so a press whose release never arrives
/// cannot hold a slot forever.
pub const PRESSED_SLOTS: usize = 16;

/// What to do with a key event.
#[derive(Debug, Clone, Copy, PartialEq, Eq, Structural)]
pub enum KeyDecision {
    /// Route the event to the key handlers.
    Dispatch,
    /// Discard the event.
    Drop,
}

/// The code a press and its release are matched by: letters compare
/// without case, since a release may report the other case.
pub open spec fn normalize_spec(code: KeyCode) -> KeyCode {
    match code {
        KeyCode::Char(c) => KeyCode::Char(ascii_lower(c)),
        _ => code,
    }
}

/// A release with no recorded press is still dispatched for Escape, for
/// keys held with Control or Alt, and for non-character keys held with
/// Shift.
pub open spec fn orphan_recoverable(key: KeyEvent) -> bool {
    key.code == KeyCode::Esc || key.modifiers.control || key.modifiers.alt || (key.modifiers.shift
        && !(key.code is Char))
}

/// The first slot at or after `from` that holds `code`.
pub open spec fn slot_of(slots: Seq<Option<KeyCode>>, code: KeyCode, from: int) -> Option<int>
    decreases slots.len() - from,
{
    if from < 0 || from >= slots.len() {
        None
    } else if slots[from] == Some(code) {
        Some(from)
    } else {
        slot_of(slots, code, from + 1)
    }
}

/// The decision for `key` and the slots and ring position after it.
pub open spec fn decide_spec(slots: Seq<Option<KeyCode>>, next: nat, key: KeyEvent) -> (
    KeyDecision,
    Seq<Option<KeyCode>>,
    nat,
) {
    let c = normalize_spec(key.code);
    match key.kind {
        KeyEventKind::Press => match slot_of(slots, c, 0) {
            Some(_) => (KeyDecision::Dispatch, slots, next),
            None => (
                KeyDecision::Dispatch,
                slots.update(next as int, Some(c)),
                (next + 1) % (PRESSED_SLOTS as nat),
            ),
        },
        KeyEventKind::Repeat => (KeyDecision::Drop, slots, next),
        KeyEventKind::Release => match slot_of(slots, c, 0) {
            Some(i) => (KeyDecision::Drop, slots.update(i, None), next),
            None => (
                if orphan_recoverable(key) {
                    KeyDecision::Dispatch
                } else {
                    KeyDecision::Drop
                },
                slots,
                next,
            ),
        },
    }
}

/// No code is recorded in two slots.
pub open spec fn unique_slots(slots: Seq<Option<KeyCode>>) -> bool {
    forall|i: int, j: int|
        0 <= i < j < slots.len() && slots[i] is Some ==> #[trigger] slots[i] != #[trigger] slots[j]
}

/// `slot_of` finds the first slot holding the code, and none when no slot
/// from `from` on holds it.
pub proof fn lemma_slot_of(slots: Seq<Option<KeyCode>>, code: KeyCode, from: int)
    requires
        0 <= from,
    ensures
        match slot_of(slots, code, from) {
            Some(i) => from <= i < slots.len() && slots[i] == Some(code) && forall|j: int|
                from <= j < i ==> slots[j] != Some(code),
            None => forall|j: int| from <= j < slots.len() ==> slots[j] != Some(code),
        },
    decreases slots.len() - from,
{
    if from < slots.len() && slots[from] != Some(code) {
        lemma_slot_of(slots, code, from + 1);
    }
}

/// Pairs key releases with their presses so that each keystroke is
/// dispatched once.
pub struct KeyEventFilter {
    pressed: Vec<Option<KeyCode>>,
    next: usize,
}

impl KeyEventFilter {
    /// The ring has its fixed size and the position is inside it.
    pub closed spec fn wf(&self) -> bool {
        self.pressed@.len() == PRESSED_SLOTS && self.next < PRESSED_SLOTS
    }

    /// The codes whose press was dispatched and whose release has not come.
    pub closed spec fn slots(&self) -> Seq<Option<KeyCode>> {
        self.pressed@
    }

    /// The slot the next new press goes into.
    pub closed spec fn next_slot(&self) -> nat {
        self.next as nat
    }

    /// An empty filter.
    pub fn new() -> (r: Self)
        ensures
            r.wf(),
            r.slots() == Seq::new(PRESSED_SLOTS as nat, |i: int| None::<KeyCode>),
            r.next_slot() == 0,
    {
        let mut pressed: Vec<Option<KeyCode>> = Vec::new();
        let mut i: usize = 0;
        while i < PRESSED_SLOTS
            invariant
                i <= PRESSED_SLOTS,
                pressed@ == Seq::new(i as nat, |k: int| None::<KeyCode>),
            decreases PRESSED_SLOTS - i,
        {
            pressed.push(None);
            i = i + 1;
        }
        KeyEventFilter { pressed, next: 0 }
    }

    /// The slot holding `code`, if any.
    fn find(&self, code: KeyCode) -> (r: Option<usize>)
        ensures
            match slot_of(self.slots(), code, 0) {
                Some(i) => r == Some(i as usize),
                None => r is None,
            },
            r matches Some(i) ==> i < self.slots().len(),
            slot_of(self.slots(), code, 0) matches Some(i) ==> 0 <= i < self.slots().len(),
    {
        proof {
            lemma_slot_of(self.pressed@, code, 0);
        }
        let mut i: usize = 0;
        while i < self.pressed.len()
            invariant
                i <= self.pressed@.len(),
                slot_of(self.pressed@, code, i as int) == slot_of(self.pressed@, code, 0),
            decreases self.pressed@.len() - i,
        {
            let hit = match self.pressed[i] {
                Some(k) => k == code,
                None => false,
            };
            if hit {
                return Some(i);
            }
            i = i + 1;
        }
        None
    }

    /// Decides whether `key` is dispatched. Presses always are, and are
    /// remembered; repeats never are; a release is dropped when it pairs
    /// with a remembered press (which it then forgets), and otherwise
    /// dispatched only when [`orphan_recoverable`] holds.
    pub fn decide(&mut self, key: &KeyEvent) -> (r: KeyDecision)
        requires
            old(self).wf(),
        ensures
            final(self).wf(),
            r == decide_spec(old(self).slots(), old(self).next_slot(), *key).0,
            final(self).slots() == decide_spec(old(self).slots(), old(self).next_slot(), *key).1,
            final(self).next_slot() == decide_spec(old(self).slots(), old(self).next_slot(), *key).2,
    {
        let c = normalize(key.code);
        let ghost c0 = normalize_spec(key.code);
        if key.kind == KeyEventKind::Repeat {
            return KeyDecision::Drop;
        }
        let found = self.find(c);
        if key.kind == KeyEventKind::Press {
            match found {
                Some(_) => {},
                None => {
                    let n = self.next;
                    self.pressed.set(n, Some(c));
                    self.next = (n + 1) % PRESSED_SLOTS;
                    assert(self.slots() =~= old(self).slots().update(n as int, Some(c0)));
                },
            }
            KeyDecision::Dispatch
        } else {
            match found {
                Some(i) => {
                    self.pressed.set(i, None);
                    assert(self.slots() =~= old(self).slots().update(i as int, None));
                    KeyDecision::Drop
                },
                None => {
                    if is_orphan_recoverable(key) {
                        KeyDecision::Dispatch
                    } else {
                        KeyDecision::Drop
                    }
                },
            }
        }
    }
}

impl Default for KeyEventFilter {
    fn default() -> (r: Self)
        ensures
            r.wf(),
            r.slots() == Seq::new(PRESSED_SLOTS as nat, |i: int| None::<KeyCode>),
            r.next_slot() == 0,
    {
        KeyEventFilter::new()
    }
}

/// The code a press and its release are matched by.
pub fn normalize(code: KeyCode) -> (r: KeyCode)
    ensures
        r == normalize_spec(code),
{
    match code {
        KeyCode::Char(c) => {
            if 'A' <= c && c <= 'Z' {
                KeyCode::Char(((c as u8) + 32) as char)
            } else {
                KeyCode::Char(c)
            }
        },
        other => other,
    }
}

/// Whether a release with no recorded press is still dispatched.
pub fn is_orphan_recoverable(key: &KeyEvent) -> (r: bool)
    ensures
        r == orphan_recoverable(*key),
{
    let is_char = match key.code {
        KeyCode::Char(_) => true,
        _ => false,
    };
    key.code == KeyCode::Esc || key.modifiers.control || key.modifiers.alt || (key.modifiers.shift
        && !is_char)
}

/// A press is always dispatched, and afterwards its key is remembered.
pub proof fn lemma_press_is_dispatched_and_remembered(
    slots: Seq<Option<KeyCode>>,
    next: nat,
    key: KeyEvent,
)
    requires
        slots.len() == PRESSED_SLOTS,
        next < PRESSED_SLOTS,
        key.kind == KeyEventKind::Press,
    ensures
        decide_spec(slots, next, key).0 == KeyDecision::Dispatch,
        slot_of(decide_spec(slots, next, key).1, normalize_spec(key.code), 0) is Some,
{
    let c = normalize_spec(key.code);
    lemma_slot_of(slots, c, 0);
    let after = decide_spec(slots, next, key).1;
    lemma_slot_of(after, c, 0);
    if slot_of(slots, c, 0) is None {
        assert(after[next as int] == Some(c));
    }
}

/// A press followed by a release of the same key (in either letter case,
/// with whatever modifiers) is dispatched exactly once: the release is
/// dropped.
pub proof fn lemma_press_then_release_dispatches_once(
    slots: Seq<Option<KeyCode>>,
    next: nat,
    press: KeyEvent,
    release: KeyEvent,
)
    requires
        slots.len() == PRESSED_SLOTS,
        next < PRESSED_SLOTS,
        press.kind == KeyEventKind::Press,
        release.kind == KeyEventKind::Release,
        normalize_spec(release.code) == normalize_spec(press.code),
    ensures
        ({
            let (d1, s1, n1) = decide_spec(slots, next, press);
            let (d2, s2, n2) = decide_spec(s1, n1, release);
            d1 == KeyDecision::Dispatch && d2 == KeyDecision::Drop
        }),
{
    lemma_press_is_dispatched_and_remembered(slots, next, press);
}

/// Repeats are never dispatched and change nothing.
pub proof fn lemma_repeat_is_dropped(slots: Seq<Option<KeyCode>>, next: nat, key: KeyEvent)
    requires
        key.kind == KeyEventKind::Repeat,
    ensures
        decide_spec(slots, next, key) == (KeyDecision::Drop, slots, next),
{
}

/// Deciding never records a key twice, and the ring keeps its size.
pub proof fn lemma_decide_keeps_slots_unique(
    slots: Seq<Option<KeyCode>>,
    next: nat,
    key: KeyEvent,
)
    requires
        slots.len() == PRESSED_SLOTS,
        next < PRESSED_SLOTS,
        unique_slots(slots),
    ensures
        unique_slots(decide_spec(slots, next, key).1),
        decide_spec(slots, next, key).1.len() == PRESSED_SLOTS,
        decide_spec(slots, next, key).2 < PRESSED_SLOTS,
{
    let c = normalize_spec(key.code);
    lemma_slot_of(slots, c, 0);
    let after = decide_spec(slots, next, key).1;
    assert forall|i: int, j: int|
        0 <= i < j < after.len() && after[i] is Some implies #[trigger] after[i]
        != #[trigger] after[j] by {
        if key.kind == KeyEventKind::Press && slot_of(slots, c, 0) is None {
            if i == next as int {
                assert(slots[j] != Some(c));
            } else if j == next as int {
                assert(slots[i] != Some(c));
            } else {
                assert(slots[i] != slots[j]);
            }
        } else if i != j {
            if after[i] == slots[i] && after[j] == slots[j] {
                assert(slots[i] != slots[j]);
            }
        }
    }
}

} // verus!
