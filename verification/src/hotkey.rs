//! Hotkey tracking: the keys that are held, in press order, and chord detection.

use vstd::prelude::*;

verus! {

/// The held keys after `code` goes down: appended at the end unless already held.
pub open spec fn pressed(keys: Seq<u32>, code: u32) -> Seq<u32> {
    if keys.contains(code) {
        keys
    } else {
        keys.push(code)
    }
}

/// The predicate that holds of every key code but `code`.
pub open spec fn other_than(code: u32) -> spec_fn(u32) -> bool {
    |k: u32| k != code
}

/// The held keys after `code` goes up: `code` leaves, the others keep their order.
pub open spec fn released(keys: Seq<u32>, code: u32) -> Seq<u32> {
    keys.filter(other_than(code))
}

/// The held keys after one key event.
pub open spec fn after_event(keys: Seq<u32>, code: u32, down: bool) -> Seq<u32> {
    if down {
        pressed(keys, code)
    } else {
        released(keys, code)
    }
}

/// Dropping a value that occurs at index `i` and nowhere else is removing index `i`.
proof fn lemma_released_is_remove(keys: Seq<u32>, code: u32, i: int)
    requires
        keys.no_duplicates(),
        0 <= i < keys.len(),
        keys[i] == code,
    ensures
        released(keys, code) == keys.remove(i),
{
    let keep = other_than(code);
    let head = keys.subrange(0, i);
    let tail = keys.subrange(i + 1, keys.len() as int);
    let mid = keys.subrange(i, i + 1);
    lemma_released_absent(head, code);
    lemma_released_absent(tail, code);
    assert(keys =~= head + (mid + tail));
    Seq::filter_distributes_over_add(head, mid + tail, keep);
    Seq::filter_distributes_over_add(mid, tail, keep);
    assert(mid =~= Seq::<u32>::empty().push(code));
    Seq::<u32>::empty().lemma_filter_push(code, keep);
    assert(Seq::<u32>::empty().filter(keep) =~= Seq::<u32>::empty()) by {
        reveal(Seq::filter);
    }
    assert(mid.filter(keep) =~= Seq::<u32>::empty());
    assert(keys.filter(keep) =~= head + tail);
}

/// Dropping a value that does not occur changes nothing.
proof fn lemma_released_absent(keys: Seq<u32>, code: u32)
    requires
        !keys.contains(code),
    ensures
        released(keys, code) == keys,
    decreases keys.len(),
{
    let keep = other_than(code);
    reveal(Seq::filter);
    if keys.len() > 0 {
        let init = keys.drop_last();
        assert forall|j: int| 0 <= j < init.len() implies init[j] != code by {
            assert(keys[j] == init[j]);
        }
        lemma_released_absent(init, code);
        assert(keys[keys.len() - 1] != code);
        assert(keys.filter(keep) =~= init.push(keys.last()));
        assert(init.push(keys.last()) =~= keys);
    }
}

/// An ordered chord: key codes that must be held, pressed in this order.
pub struct KeyChord {
    pub codes: Vec<u32>,
}

impl View for KeyChord {
    type V = Seq<u32>;

    open spec fn view(&self) -> Seq<u32> {
        self.codes@
    }
}

/// The keys that are down, each once, in the order in which they went down.
pub struct PressedKeySet {
    keys: Vec<u32>,
}

impl View for PressedKeySet {
    type V = Seq<u32>;

    closed spec fn view(&self) -> Seq<u32> {
        self.keys@
    }
}

impl PressedKeySet {
    #[verifier::type_invariant]
    spec fn distinct(&self) -> bool {
        self.keys@.no_duplicates()
    }

    /// No key is down.
    pub fn new() -> (set: Self)
        ensures
            set@ == Seq::<u32>::empty(),
    {
        PressedKeySet { keys: Vec::new() }
    }

    /// Where `code` stands among the held keys, if it is held.
    fn position(&self, code: u32) -> (at: Option<usize>)
        ensures
            match at {
                Some(i) => i < self@.len() && self@[i as int] == code,
                None => !self@.contains(code),
            },
    {
        let mut i: usize = 0;
        while i < self.keys.len()
            invariant
                i <= self.keys.len(),
                forall|j: int| 0 <= j < i ==> self.keys@[j] != code,
            decreases self.keys.len() - i,
        {
            if self.keys[i] == code {
                return Some(i);
            }
            i += 1;
        }
        None
    }

    /// Moves the held keys out; the set is empty until they are put back.
    fn take(&mut self) -> (keys: Vec<u32>)
        ensures
            keys@ == old(self)@,
            final(self)@ == Seq::<u32>::empty(),
    {
        let mut held = PressedKeySet { keys: Vec::new() };
        std::mem::swap(self, &mut held);
        held.keys
    }

    /// Records one key event and says whether the set changed. A press of a
    /// held key and a release of a key that is not held change nothing.
    pub fn on_key_event(&mut self, code: u32, pressed: bool) -> (changed: bool)
        ensures
            final(self)@ == after_event(old(self)@, code, pressed),
            final(self)@.no_duplicates(),
            changed == (pressed != old(self)@.contains(code)),
    {
        proof {
            use_type_invariant(&*self);
        }
        let at = self.position(code);
        match at {
            Some(i) => {
                if pressed {
                    false
                } else {
                    proof {
                        lemma_released_is_remove(self.keys@, code, i as int);
                    }
                    let mut keys = self.take();
                    keys.remove(i);
                    self.keys = keys;
                    true
                }
            },
            None => {
                if pressed {
                    let mut keys = self.take();
                    keys.push(code);
                    self.keys = keys;
                    true
                } else {
                    proof {
                        lemma_released_absent(self.keys@, code);
                    }
                    false
                }
            },
        }
    }

    /// Whether the chord is held: the held keys, in press order, begin with
    /// the chord's codes in the chord's order.
    pub fn is_chord_active(&self, chord: &KeyChord) -> (active: bool)
        ensures
            active == chord@.is_prefix_of(self@),
    {
        let n: usize = chord.codes.len();
        if n > self.keys.len() {
            return false;
        }
        let mut i: usize = 0;
        while i < n
            invariant
                i <= n,
                n == chord.codes@.len(),
                n <= self.keys@.len(),
                forall|j: int| 0 <= j < i ==> chord.codes@[j] == self.keys@[j],
            decreases n - i,
        {
            if chord.codes[i] != self.keys[i] {
                assert(chord@[i as int] != self@.subrange(0, n as int)[i as int]);
                return false;
            }
            i += 1;
        }
        assert(chord@ =~= self@.subrange(0, n as int));
        true
    }

    /// Whether `code` is held.
    pub fn contains(&self, code: u32) -> (held: bool)
        ensures
            held == self@.contains(code),
    {
        self.position(code).is_some()
    }

    /// How many keys are held.
    pub fn len(&self) -> (n: usize)
        ensures
            n == self@.len(),
    {
        self.keys.len()
    }

    /// The held keys in press order.
    pub fn keys(&self) -> (keys: &[u32])
        ensures
            keys@ == self@,
            keys@.no_duplicates(),
    {
        proof {
            use_type_invariant(self);
        }
        self.keys.as_slice()
    }
}

/// Watches one chord over a stream of key events.
pub struct HotkeyTracker {
    chord: KeyChord,
    held: PressedKeySet,
}

impl HotkeyTracker {
    /// The chord that is watched.
    pub closed spec fn chord(&self) -> Seq<u32> {
        self.chord@
    }

    /// The keys that are held, in press order.
    pub closed spec fn held(&self) -> Seq<u32> {
        self.held@
    }

    /// A tracker for `chord`, with no key held.
    pub fn new(chord: KeyChord) -> (tracker: Self)
        ensures
            tracker.chord() == chord@,
            tracker.held() == Seq::<u32>::empty(),
    {
        HotkeyTracker { chord, held: PressedKeySet::new() }
    }

    /// Whether the chord is held right now.
    pub fn is_chord_active(&self) -> (active: bool)
        ensures
            active == self.chord().is_prefix_of(self.held()),
    {
        self.held.is_chord_active(&self.chord)
    }

    /// Records one key event and says whether the chord fires: it was not
    /// held before the event and is held after it. Repeated presses of a held
    /// key and every event while the chord stays held fire nothing.
    pub fn on_key_event(&mut self, code: u32, pressed: bool) -> (fired: bool)
        ensures
            final(self).chord() == old(self).chord(),
            final(self).held().no_duplicates(),
            final(self).held() == after_event(old(self).held(), code, pressed),
            fired == (!old(self).chord().is_prefix_of(old(self).held())
                && final(self).chord().is_prefix_of(final(self).held())),
    {
        let before = self.held.is_chord_active(&self.chord);
        self.held.on_key_event(code, pressed);
        let after = self.held.is_chord_active(&self.chord);
        !before && after
    }
}

/// One key going down or up.
#[derive(Clone, Copy, Debug, PartialEq, Eq, Structural)]
pub struct KeyEvent {
    pub code: u32,
    pub pressed: bool,
}

/// The held keys after a run of events that began with no key held.
pub open spec fn replay(events: Seq<KeyEvent>) -> Seq<u32>
    decreases events.len(),
{
    if events.len() == 0 {
        Seq::empty()
    } else {
        after_event(replay(events.drop_last()), events.last().code, events.last().pressed)
    }
}

/// `code` is down after the events: it went down at some point and has not
/// come up since.
pub open spec fn is_down(events: Seq<KeyEvent>, code: u32) -> bool {
    exists|i: int|
        0 <= i < events.len() && (#[trigger] events[i]).code == code && events[i].pressed
            && forall|j: int|
            i < j < events.len() ==> !((#[trigger] events[j]).code == code && !events[j].pressed)
}

/// One event keeps the held keys distinct, and afterwards its own key is
/// held exactly if it went down, every other key exactly if it was before.
pub proof fn lemma_after_event(keys: Seq<u32>, code: u32, down: bool)
    requires
        keys.no_duplicates(),
    ensures
        after_event(keys, code, down).no_duplicates(),
        after_event(keys, code, down).contains(code) == down,
        forall|other: u32|
            other != code ==> after_event(keys, code, down).contains(other) == keys.contains(
                other,
            ),
{
    let next = after_event(keys, code, down);
    if keys.contains(code) {
        let i = choose|i: int| 0 <= i < keys.len() && keys[i] == code;
        if !down {
            lemma_released_is_remove(keys, code, i);
            assert forall|a: int| 0 <= a < next.len() implies next[a] == keys[if a < i {
                a
            } else {
                a + 1
            }] by {}
            assert forall|other: u32| other != code implies next.contains(other) == keys.contains(
                other,
            ) by {
                if keys.contains(other) {
                    let k = choose|k: int| 0 <= k < keys.len() && keys[k] == other;
                    assert(next[if k < i {
                        k
                    } else {
                        k - 1
                    }] == other);
                }
            }
        }
    } else {
        if down {
            assert(next[next.len() - 1] == code);
            assert forall|other: u32| other != code implies next.contains(other) == keys.contains(
                other,
            ) by {
                if keys.contains(other) {
                    let k = choose|k: int| 0 <= k < keys.len() && keys[k] == other;
                    assert(next[k] == other);
                }
            }
        } else {
            lemma_released_absent(keys, code);
        }
    }
}

/// One event keeps the press order: two keys that are held before and after
/// it stand in the same order, and a key that goes down comes last.
pub proof fn lemma_after_event_keeps_order(keys: Seq<u32>, code: u32, down: bool)
    requires
        keys.no_duplicates(),
    ensures
        forall|i: int, j: int|
            #![trigger keys[i], keys[j]]
            0 <= i < j < keys.len() && after_event(keys, code, down).contains(keys[i])
                && after_event(keys, code, down).contains(keys[j]) ==> exists|a: int, b: int|
                0 <= a < b < after_event(keys, code, down).len() && after_event(
                    keys,
                    code,
                    down,
                )[a] == keys[i] && after_event(keys, code, down)[b] == keys[j],
        down && !keys.contains(code) ==> after_event(keys, code, down).last() == code,
{
    let next = after_event(keys, code, down);
    lemma_after_event(keys, code, down);
    assert forall|i: int, j: int|
        #![trigger keys[i], keys[j]]
        0 <= i < j < keys.len() && next.contains(keys[i]) && next.contains(
            keys[j],
        ) implies exists|a: int, b: int|
        0 <= a < b < next.len() && next[a] == keys[i] && next[b] == keys[j] by {
        if !down && keys.contains(code) {
            let c = choose|c: int| 0 <= c < keys.len() && keys[c] == code;
            lemma_released_is_remove(keys, code, c);
            let a = if i < c {
                i
            } else {
                i - 1
            };
            let b = if j < c {
                j
            } else {
                j - 1
            };
            assert(next[a] == keys[i] && next[b] == keys[j]);
        } else {
            if !down {
                lemma_released_absent(keys, code);
            }
            assert(next[i] == keys[i] && next[j] == keys[j]);
        }
    }
}

/// Whatever the order of presses and releases, the set holds exactly the
/// keys that are down, each of them once.
pub proof fn lemma_replay_holds_keys_down(events: Seq<KeyEvent>)
    ensures
        replay(events).no_duplicates(),
        forall|code: u32| replay(events).contains(code) <==> is_down(events, code),
    decreases events.len(),
{
    if events.len() > 0 {
        let earlier = events.drop_last();
        let last = events.last();
        lemma_replay_holds_keys_down(earlier);
        lemma_after_event(replay(earlier), last.code, last.pressed);
        assert forall|code: u32| replay(events).contains(code) <==> is_down(events, code) by {
            if code == last.code {
                if last.pressed {
                    assert(events[events.len() - 1].code == code);
                } else {
                    if is_down(events, code) {
                        let i = choose|i: int|
                            0 <= i < events.len() && (#[trigger] events[i]).code == code
                                && events[i].pressed && forall|j: int|
                                i < j < events.len() ==> !((#[trigger] events[j]).code == code
                                    && !events[j].pressed);
                        assert(events[events.len() - 1].code == code);
                        assert(false);
                    }
                }
            } else {
                if is_down(earlier, code) {
                    let i = choose|i: int|
                        0 <= i < earlier.len() && (#[trigger] earlier[i]).code == code
                            && earlier[i].pressed && forall|j: int|
                            i < j < earlier.len() ==> !((#[trigger] earlier[j]).code == code
                                && !earlier[j].pressed);
                    assert(events[i] == earlier[i]);
                    assert forall|j: int| i < j < events.len() implies !((
                    #[trigger] events[j]).code == code && !events[j].pressed) by {
                        if j < earlier.len() {
                            assert(events[j] == earlier[j]);
                        }
                    }
                    assert(is_down(events, code));
                }
                if is_down(events, code) {
                    let i = choose|i: int|
                        0 <= i < events.len() && (#[trigger] events[i]).code == code
                            && events[i].pressed && forall|j: int|
                            i < j < events.len() ==> !((#[trigger] events[j]).code == code
                                && !events[j].pressed);
                    assert(i < earlier.len());
                    assert(earlier[i] == events[i]);
                    assert forall|j: int| i < j < earlier.len() implies !((
                    #[trigger] earlier[j]).code == code && !earlier[j].pressed) by {
                        assert(events[j] == earlier[j]);
                    }
                    assert(is_down(earlier, code));
                }
            }
        }
    } else {
        assert forall|code: u32| !replay(events).contains(code) by {}
    }
}

/// A chord is held exactly when the first keys that went down, as many as
/// the chord has, are the chord's codes in the chord's order.
pub proof fn lemma_chord_active_iff(chord: Seq<u32>, held: Seq<u32>)
    ensures
        chord.is_prefix_of(held) <==> chord.len() <= held.len() && forall|i: int|
            0 <= i < chord.len() ==> held[i] == chord[i],
{
    if chord.len() <= held.len() {
        let first = held.subrange(0, chord.len() as int);
        if chord.is_prefix_of(held) {
            assert forall|i: int| 0 <= i < chord.len() implies held[i] == chord[i] by {
                assert(first[i] == held[i]);
            }
        }
        if forall|i: int| 0 <= i < chord.len() ==> held[i] == chord[i] {
            assert(chord =~= first);
        }
    }
}

/// A chord with a key that is not held is not active.
pub proof fn lemma_chord_needs_every_key(chord: Seq<u32>, held: Seq<u32>, i: int)
    requires
        0 <= i < chord.len(),
        !held.contains(chord[i]),
    ensures
        !chord.is_prefix_of(held),
{
    lemma_chord_active_iff(chord, held);
    if chord.is_prefix_of(held) {
        assert(held[i] == chord[i]);
    }
}

/// A chord whose keys went down in another order is not active: if the key
/// that the chord names later was pressed first, the chord does not register.
pub proof fn lemma_chord_needs_press_order(
    chord: Seq<u32>,
    held: Seq<u32>,
    i: int,
    j: int,
    at_i: int,
    at_j: int,
)
    requires
        held.no_duplicates(),
        0 <= i < j < chord.len(),
        0 <= at_j < at_i < held.len(),
        held[at_i] == chord[i],
        held[at_j] == chord[j],
    ensures
        !chord.is_prefix_of(held),
{
    lemma_chord_active_iff(chord, held);
    if chord.is_prefix_of(held) {
        assert(held[i] == chord[i]);
        assert(held[j] == chord[j]);
    }
}

} // verus!
