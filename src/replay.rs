use vstd::prelude::*;

use crate::hook::{elapsed, keys_view};
use crate::keys::{is_modifier, is_modifier_key, key_of_name, same_text, string_to_key, KeyCode, KeyPhase};
use crate::types::{CustomAction, RecordedKey, RecordedKeyView, ShortcutType};

verus! {

/// One thing the replayer asks the operating system for: a key going down, a key
/// coming up, or a pause of some milliseconds.
#[derive(Clone, Copy, Debug, PartialEq, Eq, Structural)]
pub enum KeyAction {
    Press(KeyCode),
    Release(KeyCode),
    Pause(u64),
}

/// Pause before a macro starts, so that the request that triggered it settles.
pub const LEAD_IN_MS: u64 = 200;

/// Pause after each tap of a normal replay.
pub const TAP_GAP_MS: u64 = 50;

/// Longest pause that a sequential replay reproduces between two events.
pub const MAX_GAP_MS: u64 = 100;

/// A sequential replay reproduces only pauses longer than this.
pub const MIN_GAP_MS: u64 = 5;

/// The phase of a recorded event, if its stored text is `"press"` or `"release"`.
pub open spec fn event_phase(e: RecordedKeyView) -> Option<KeyPhase> {
    if e.event_type == "press"@ {
        Some(KeyPhase::Press)
    } else if e.event_type == "release"@ {
        Some(KeyPhase::Release)
    } else {
        None
    }
}

/// What a normal replay does for one recorded event: a pressed key of the table
/// becomes a tap and a pause; anything else is skipped.
pub open spec fn tap_steps(e: RecordedKeyView) -> Seq<KeyAction> {
    match key_of_name(e.key) {
        Some(k) => if event_phase(e) == Some(KeyPhase::Press) {
            seq![KeyAction::Press(k), KeyAction::Release(k), KeyAction::Pause(TAP_GAP_MS)]
        } else {
            Seq::empty()
        },
        None => Seq::empty(),
    }
}

/// The normal replay of the first `n` recorded events.
pub open spec fn normal_steps(events: Seq<RecordedKeyView>, n: nat) -> Seq<KeyAction>
    decreases n,
{
    if n == 0 {
        Seq::empty()
    } else {
        normal_steps(events, (n - 1) as nat) + tap_steps(events[n - 1])
    }
}

/// The pause that a sequential replay makes after event `i`: the recorded gap to
/// the next event, capped.
pub open spec fn gap_after(events: Seq<RecordedKeyView>, i: int) -> u64 {
    let d = elapsed(events[i + 1].timestamp, events[i].timestamp);
    if d > MAX_GAP_MS {
        MAX_GAP_MS
    } else {
        d
    }
}

/// The key event that a recorded event stands for, if its key is in the table
/// and its phase is known.
pub open spec fn injection_of(e: RecordedKeyView) -> Seq<KeyAction> {
    match key_of_name(e.key) {
        Some(k) => match event_phase(e) {
            Some(KeyPhase::Press) => seq![KeyAction::Press(k)],
            Some(KeyPhase::Release) => seq![KeyAction::Release(k)],
            None => Seq::empty(),
        },
        None => Seq::empty(),
    }
}

/// What a sequential replay does for event `i`: its key event, then the pause to
/// the next event when that pause is worth making. Events whose key is not in
/// the table are skipped, pause included.
pub open spec fn sequential_event_steps(events: Seq<RecordedKeyView>, i: int) -> Seq<KeyAction> {
    match key_of_name(events[i].key) {
        Some(k) => if i + 1 < events.len() && gap_after(events, i) > MIN_GAP_MS {
            injection_of(events[i]).push(KeyAction::Pause(gap_after(events, i)))
        } else {
            injection_of(events[i])
        },
        None => Seq::empty(),
    }
}

/// The sequential replay of the first `n` recorded events.
pub open spec fn sequential_steps(events: Seq<RecordedKeyView>, n: nat) -> Seq<KeyAction>
    decreases n,
{
    if n == 0 {
        Seq::empty()
    } else {
        sequential_steps(events, (n - 1) as nat) + sequential_event_steps(events, n - 1)
    }
}

/// Everything a replay of a macro asks for, in order.
pub open spec fn replay_plan(events: Seq<RecordedKeyView>, mode: ShortcutType) -> Seq<KeyAction> {
    seq![KeyAction::Pause(LEAD_IN_MS)] + match mode {
        ShortcutType::Normal => normal_steps(events, events.len()),
        ShortcutType::Sequential => sequential_steps(events, events.len()),
    }
}

/// The number of presses of keys that are no modifiers.
pub open spec fn effective_count(steps: Seq<KeyAction>) -> nat
    decreases steps.len(),
{
    if steps.len() == 0 {
        0
    } else {
        effective_count(steps.drop_last()) + match steps.last() {
            KeyAction::Press(k) => if is_modifier(k) {
                0nat
            } else {
                1nat
            },
            _ => 0nat,
        }
    }
}

/// `h` without `k`.
pub open spec fn without(h: Seq<KeyCode>, k: KeyCode) -> Seq<KeyCode>
    decreases h.len(),
{
    if h.len() == 0 {
        h
    } else if h.last() == k {
        without(h.drop_last(), k)
    } else {
        without(h.drop_last(), k).push(h.last())
    }
}

/// The held modifiers after one more action: a pressed modifier joins them, a
/// released key leaves them.
pub open spec fn apply_held(h: Seq<KeyCode>, a: KeyAction) -> Seq<KeyCode> {
    match a {
        KeyAction::Press(k) => if is_modifier(k) && !h.contains(k) {
            h.push(k)
        } else {
            h
        },
        KeyAction::Release(k) => without(h, k),
        KeyAction::Pause(_) => h,
    }
}

/// The modifiers held after a run of actions, in the order they went down.
pub open spec fn held_after(steps: Seq<KeyAction>) -> Seq<KeyCode>
    decreases steps.len(),
{
    if steps.len() == 0 {
        Seq::empty()
    } else {
        apply_held(held_after(steps.drop_last()), steps.last())
    }
}

fn is_press_text(s: &String) -> (r: bool)
    ensures
        r == (s@ == "press"@),
{
    same_text(s.as_str(), "press")
}

fn is_release_text(s: &String) -> (r: bool)
    ensures
        r == (s@ == "release"@),
{
    same_text(s.as_str(), "release")
}

/// The phase of a recorded event.
pub fn recorded_phase(e: &RecordedKey) -> (r: Option<KeyPhase>)
    ensures
        r == event_phase(e@),
{
    if is_press_text(&e.event_type) {
        Some(KeyPhase::Press)
    } else if is_release_text(&e.event_type) {
        Some(KeyPhase::Release)
    } else {
        None
    }
}

/// Appends the normal replay of `keys` to `steps`.
pub fn plan_normal_shortcut(keys: &Vec<RecordedKey>, steps: &mut Vec<KeyAction>)
    ensures
        final(steps)@ == old(steps)@ + normal_steps(keys_view(keys@), keys.len() as nat),
{
    let ghost events = keys_view(keys@);
    let ghost start = steps@;
    let mut i: usize = 0;
    while i < keys.len()
        invariant
            0 <= i <= keys.len(),
            events == keys_view(keys@),
            steps@ == start + normal_steps(events, i as nat),
        decreases keys.len() - i,
    {
        let e = &keys[i];
        assert(events[i as int] == e@);
        if let Some(k) = string_to_key(e.key.as_str()) {
            if is_press_text(&e.event_type) {
                steps.push(KeyAction::Press(k));
                steps.push(KeyAction::Release(k));
                steps.push(KeyAction::Pause(TAP_GAP_MS));
            }
        }
        assert(steps@ =~= start + normal_steps(events, (i + 1) as nat));
        i = i + 1;
    }
}

/// Appends the sequential replay of `keys` to `steps`.
pub fn plan_sequential_shortcut(keys: &Vec<RecordedKey>, steps: &mut Vec<KeyAction>)
    ensures
        final(steps)@ == old(steps)@ + sequential_steps(keys_view(keys@), keys.len() as nat),
{
    let ghost events = keys_view(keys@);
    let ghost start = steps@;
    let mut i: usize = 0;
    while i < keys.len()
        invariant
            0 <= i <= keys.len(),
            events == keys_view(keys@),
            events.len() == keys.len(),
            steps@ == start + sequential_steps(events, i as nat),
        decreases keys.len() - i,
    {
        let e = &keys[i];
        assert(events[i as int] == e@);
        if let Some(k) = string_to_key(e.key.as_str()) {
            match recorded_phase(e) {
                Some(KeyPhase::Press) => steps.push(KeyAction::Press(k)),
                Some(KeyPhase::Release) => steps.push(KeyAction::Release(k)),
                None => {},
            }
            if i + 1 < keys.len() {
                assert(events[i + 1] == keys[i + 1]@);
                let d = keys[i + 1].timestamp.saturating_sub(e.timestamp);
                let d = if d > MAX_GAP_MS {
                    MAX_GAP_MS
                } else {
                    d
                };
                if d > MIN_GAP_MS {
                    steps.push(KeyAction::Pause(d));
                }
            }
        }
        assert(steps@ =~= start + sequential_steps(events, (i + 1) as nat));
        i = i + 1;
    }
}

/// Counts the presses of keys that are no modifiers.
pub fn count_effective(steps: &Vec<KeyAction>) -> (r: usize)
    ensures
        r == effective_count(steps@),
{
    let mut count: usize = 0;
    let mut i: usize = 0;
    while i < steps.len()
        invariant
            0 <= i <= steps.len(),
            count == effective_count(steps@.take(i as int)),
            count <= i,
        decreases steps.len() - i,
    {
        assert(steps@.take(i + 1).drop_last() =~= steps@.take(i as int));
        match steps[i] {
            KeyAction::Press(k) => if !is_modifier_key(k) {
                count = count + 1;
            },
            _ => {},
        }
        i = i + 1;
    }
    assert(steps@.take(steps.len() as int) =~= steps@);
    count
}

fn holds(h: &Vec<KeyCode>, k: KeyCode) -> (r: bool)
    ensures
        r == h@.contains(k),
{
    let mut i: usize = 0;
    while i < h.len()
        invariant
            0 <= i <= h.len(),
            forall|j: int| 0 <= j < i ==> h@[j] != k,
        decreases h.len() - i,
    {
        if h[i] == k {
            return true;
        }
        i = i + 1;
    }
    false
}

fn without_key(h: &Vec<KeyCode>, k: KeyCode) -> (r: Vec<KeyCode>)
    ensures
        r@ == without(h@, k),
{
    let mut r: Vec<KeyCode> = Vec::new();
    let mut i: usize = 0;
    while i < h.len()
        invariant
            0 <= i <= h.len(),
            r@ == without(h@.take(i as int), k),
        decreases h.len() - i,
    {
        assert(h@.take(i + 1).drop_last() =~= h@.take(i as int));
        assert(h@.take(i + 1).last() == h@[i as int]);
        if h[i] != k {
            r.push(h[i]);
        }
        i = i + 1;
    }
    assert(h@.take(h.len() as int) =~= h@);
    r
}

fn copy_codes(h: &Vec<KeyCode>) -> (r: Vec<KeyCode>)
    ensures
        r@ == h@,
{
    let mut r: Vec<KeyCode> = Vec::new();
    let mut i: usize = 0;
    while i < h.len()
        invariant
            0 <= i <= h.len(),
            r@ == h@.take(i as int),
        decreases h.len() - i,
    {
        r.push(h[i]);
        i = i + 1;
        assert(r@ =~= h@.take(i as int));
    }
    assert(h@.take(h.len() as int) =~= h@);
    r
}

fn apply_held_to(h: &Vec<KeyCode>, a: KeyAction) -> (r: Vec<KeyCode>)
    ensures
        r@ == apply_held(h@, a),
{
    match a {
        KeyAction::Press(k) => {
            let mut r = copy_codes(h);
            if is_modifier_key(k) && !holds(h, k) {
                r.push(k);
            }
            r
        },
        KeyAction::Release(k) => without_key(h, k),
        KeyAction::Pause(_) => copy_codes(h),
    }
}

/// A replay in progress, driven one step at a time by whoever talks to the
/// operating system.
///
/// `next_step` hands out the planned actions in order; asking for a step
/// confirms that every step handed out before went through. If a key event
/// fails, `fail` ends the run and names the modifiers that the confirmed steps
/// left held, which the driver releases before reporting the failure.
pub struct ReplayRun {
    pub steps: Vec<KeyAction>,
    pub next: usize,
    pub confirmed: usize,
    pub held: Vec<KeyCode>,
    pub failed: bool,
    pub effective: usize,
}

impl ReplayRun {
    pub open spec fn wf(&self) -> bool {
        &&& self.next <= self.steps.len()
        &&& self.confirmed <= self.next <= self.confirmed + 1
        &&& self.effective == effective_count(self.steps@)
        &&& !self.failed ==> self.held@ == held_after(self.steps@.take(self.confirmed as int))
    }

    /// Plans the replay of a macro under its own policy.
    pub fn new(action: &CustomAction) -> (r: ReplayRun)
        ensures
            r.wf(),
            r.steps@ == replay_plan(keys_view(action.key_sequence@), action.shortcut_type),
            r.next == 0,
            !r.failed,
    {
        let mut steps: Vec<KeyAction> = Vec::new();
        steps.push(KeyAction::Pause(LEAD_IN_MS));
        match action.shortcut_type {
            ShortcutType::Normal => plan_normal_shortcut(&action.key_sequence, &mut steps),
            ShortcutType::Sequential => plan_sequential_shortcut(&action.key_sequence, &mut steps),
        }
        let effective = count_effective(&steps);
        let r = ReplayRun { steps, next: 0, confirmed: 0, held: Vec::new(), failed: false, effective };
        assert(r.steps@.take(0) =~= Seq::<KeyAction>::empty());
        r
    }

    /// Confirms the steps handed out so far, then hands out the next action, or
    /// `None` once the plan is done or the run failed.
    pub fn next_step(&mut self) -> (r: Option<KeyAction>)
        requires
            old(self).wf(),
        ensures
            final(self).wf(),
            final(self).steps == old(self).steps,
            final(self).failed == old(self).failed,
            old(self).failed ==> r is None && *final(self) == *old(self),
            !old(self).failed ==> final(self).confirmed == old(self).next,
            !old(self).failed && old(self).next < old(self).steps.len() ==> r == Some(
                old(self).steps@[old(self).next as int],
            ) && final(self).next == old(self).next + 1,
            !old(self).failed && old(self).next >= old(self).steps.len() ==> r is None && final(self).next
                == old(self).next,
    {
        if self.failed {
            return None;
        }
        if self.confirmed < self.next {
            let prev = self.steps[self.confirmed];
            self.held = apply_held_to(&self.held, prev);
            assert(self.steps@.take(self.next as int).drop_last() =~= self.steps@.take(self.confirmed as int));
            self.confirmed = self.next;
        }
        if self.next >= self.steps.len() {
            return None;
        }
        let s = self.steps[self.next];
        self.next = self.next + 1;
        Some(s)
    }

    /// The modifiers that the confirmed steps leave held, in the order they went
    /// down.
    pub fn held_modifiers(&self) -> (r: Vec<KeyCode>)
        requires
            self.wf(),
        ensures
            !self.failed ==> r@ == held_after(self.steps@.take(self.confirmed as int)),
    {
        copy_codes(&self.held)
    }

    /// Ends the run after the last handed-out key event failed, and returns the
    /// modifiers that the confirmed steps left held, each once, to be released.
    pub fn fail(&mut self) -> (releases: Vec<KeyCode>)
        requires
            old(self).wf(),
        ensures
            final(self).wf(),
            final(self).failed,
            final(self).steps == old(self).steps,
            final(self).next == old(self).next,
            !old(self).failed ==> releases@ == held_after(old(self).steps@.take(old(self).confirmed as int)),
            old(self).failed ==> releases@.len() == 0,
    {
        let mut releases: Vec<KeyCode> = Vec::new();
        if !self.failed {
            std::mem::swap(&mut releases, &mut self.held);
        }
        self.failed = true;
        releases
    }

    /// How many keys other than modifiers the whole plan presses.
    pub fn effective_keys(&self) -> (r: usize)
        requires
            self.wf(),
        ensures
            r == effective_count(self.steps@),
    {
        self.effective
    }
}

/// The key events of a run of actions, pauses left out.
pub open spec fn injections(steps: Seq<KeyAction>) -> Seq<KeyAction>
    decreases steps.len(),
{
    if steps.len() == 0 {
        Seq::empty()
    } else {
        match steps.last() {
            KeyAction::Pause(_) => injections(steps.drop_last()),
            a => injections(steps.drop_last()).push(a),
        }
    }
}

/// The key events that the first `n` recorded events stand for.
pub open spec fn recorded_injections(events: Seq<RecordedKeyView>, n: nat) -> Seq<KeyAction>
    decreases n,
{
    if n == 0 {
        Seq::empty()
    } else {
        recorded_injections(events, (n - 1) as nat) + injection_of(events[n - 1])
    }
}

/// The taps (press, then release) of the pressed keys among the first `n`
/// recorded events.
pub open spec fn recorded_taps(events: Seq<RecordedKeyView>, n: nat) -> Seq<KeyAction>
    decreases n,
{
    if n == 0 {
        Seq::empty()
    } else {
        recorded_taps(events, (n - 1) as nat) + match key_of_name(events[n - 1].key) {
            Some(k) => if event_phase(events[n - 1]) == Some(KeyPhase::Press) {
                seq![KeyAction::Press(k), KeyAction::Release(k)]
            } else {
                Seq::empty()
            },
            None => Seq::empty(),
        }
    }
}

/// Whether the last action on `k` in a run is a press.
pub open spec fn pressed_last(steps: Seq<KeyAction>, k: KeyCode) -> bool
    decreases steps.len(),
{
    if steps.len() == 0 {
        false
    } else {
        match steps.last() {
            KeyAction::Press(j) => if j == k {
                true
            } else {
                pressed_last(steps.drop_last(), k)
            },
            KeyAction::Release(j) => if j == k {
                false
            } else {
                pressed_last(steps.drop_last(), k)
            },
            KeyAction::Pause(_) => pressed_last(steps.drop_last(), k),
        }
    }
}

proof fn lemma_injections_add(a: Seq<KeyAction>, b: Seq<KeyAction>)
    ensures
        injections(a + b) == injections(a) + injections(b),
    decreases b.len(),
{
    if b.len() == 0 {
        assert(a + b =~= a);
        assert(injections(a) + injections(b) =~= injections(a));
    } else {
        lemma_injections_add(a, b.drop_last());
        assert((a + b).drop_last() =~= a + b.drop_last());
        assert((a + b).last() == b.last());
        match b.last() {
            KeyAction::Pause(_) => {},
            _ => {
                assert(injections(a) + injections(b.drop_last()).push(b.last()) =~= (injections(a)
                    + injections(b.drop_last())).push(b.last()));
            },
        }
    }
}

proof fn lemma_injections_small(x: Seq<KeyAction>, a: KeyAction)
    requires
        x.len() <= 1,
        forall|i: int| 0 <= i < x.len() ==> !(x[i] is Pause),
        a is Pause,
    ensures
        injections(x) == x,
        injections(x.push(a)) == x,
{
    if x.len() == 1 {
        let d = x.drop_last();
        assert(d.len() == 0);
        assert(injections(d) =~= Seq::<KeyAction>::empty());
        assert(!(x.last() is Pause));
        assert(injections(x) == injections(d).push(x.last()));
        assert(injections(x) =~= x);
    } else {
        assert(x =~= Seq::<KeyAction>::empty());
        assert(injections(x) =~= Seq::<KeyAction>::empty());
    }
    assert(x.push(a).drop_last() =~= x);
    assert(x.push(a).last() == a);
}

proof fn lemma_injections_lead_in()
    ensures
        injections(seq![KeyAction::Pause(LEAD_IN_MS)]) == Seq::<KeyAction>::empty(),
{
    let lead = seq![KeyAction::Pause(LEAD_IN_MS)];
    let d = lead.drop_last();
    assert(d.len() == 0);
    assert(injections(d) =~= Seq::<KeyAction>::empty());
    assert(lead.last() == KeyAction::Pause(LEAD_IN_MS));
}

proof fn lemma_sequential_injections(events: Seq<RecordedKeyView>, n: nat)
    requires
        n <= events.len(),
    ensures
        injections(sequential_steps(events, n)) == recorded_injections(events, n),
    decreases n,
{
    if n > 0 {
        let i = n - 1;
        lemma_sequential_injections(events, (n - 1) as nat);
        lemma_injections_add(sequential_steps(events, (n - 1) as nat), sequential_event_steps(events, i));
        let inj = injection_of(events[i]);
        if key_of_name(events[i].key) is Some {
            lemma_injections_small(inj, KeyAction::Pause(0));
            if i + 1 < events.len() && gap_after(events, i) > MIN_GAP_MS {
                lemma_injections_small(inj, KeyAction::Pause(gap_after(events, i)));
            }
        } else {
            assert(injections(Seq::<KeyAction>::empty()) =~= Seq::<KeyAction>::empty());
        }
    }
}

proof fn lemma_sequential_pauses(events: Seq<RecordedKeyView>, n: nat)
    requires
        n <= events.len(),
    ensures
        forall|j: int|
            0 <= j < sequential_steps(events, n).len() && #[trigger] sequential_steps(events, n)[j] is Pause
                ==> MIN_GAP_MS < sequential_steps(events, n)[j]->Pause_0 <= MAX_GAP_MS,
    decreases n,
{
    if n > 0 {
        lemma_sequential_pauses(events, (n - 1) as nat);
        let prev = sequential_steps(events, (n - 1) as nat);
        let cur = sequential_event_steps(events, n - 1);
        assert forall|j: int|
            0 <= j < sequential_steps(events, n).len() && #[trigger] sequential_steps(events, n)[j] is Pause
                implies MIN_GAP_MS < sequential_steps(events, n)[j]->Pause_0 <= MAX_GAP_MS by {
            if j >= prev.len() {
                assert(sequential_steps(events, n)[j] == cur[j - prev.len()]);
            } else {
                assert(sequential_steps(events, n)[j] == prev[j]);
            }
        }
    }
}

proof fn lemma_held_ignores_pauses(steps: Seq<KeyAction>)
    ensures
        held_after(injections(steps)) == held_after(steps),
    decreases steps.len(),
{
    if steps.len() > 0 {
        lemma_held_ignores_pauses(steps.drop_last());
        match steps.last() {
            KeyAction::Pause(_) => {},
            a => {
                assert(injections(steps.drop_last()).push(a).drop_last() =~= injections(steps.drop_last()));
            },
        }
    }
}

/// A sequential replay makes exactly the key events of the recording, in the
/// recorded order; every pause after the lead-in is longer than `MIN_GAP_MS` and
/// at most `MAX_GAP_MS`; and the replay leaves held exactly the modifiers that
/// the recording left held, so none when every recorded press was released.
pub proof fn lemma_sequential_replay_faithful(events: Seq<RecordedKeyView>)
    ensures
        injections(replay_plan(events, ShortcutType::Sequential)) == recorded_injections(events, events.len()),
        forall|j: int|
            1 <= j < replay_plan(events, ShortcutType::Sequential).len() && #[trigger] replay_plan(
                events,
                ShortcutType::Sequential,
            )[j] is Pause ==> MIN_GAP_MS < replay_plan(events, ShortcutType::Sequential)[j]->Pause_0 <= MAX_GAP_MS,
        held_after(replay_plan(events, ShortcutType::Sequential)) == held_after(
            recorded_injections(events, events.len()),
        ),
{
    let lead = seq![KeyAction::Pause(LEAD_IN_MS)];
    let body = sequential_steps(events, events.len());
    let plan = replay_plan(events, ShortcutType::Sequential);
    assert(plan == lead + body);
    lemma_injections_add(lead, body);
    lemma_injections_lead_in();
    assert(injections(lead) + injections(body) =~= injections(body));
    lemma_sequential_injections(events, events.len());
    lemma_sequential_pauses(events, events.len());
    assert forall|j: int|
        1 <= j < plan.len() && #[trigger] plan[j] is Pause implies MIN_GAP_MS < plan[j]->Pause_0 <= MAX_GAP_MS by {
        assert(plan[j] == body[j - 1]);
    }
    lemma_held_ignores_pauses(plan);
    lemma_held_ignores_pauses(body);
}

proof fn lemma_normal_taps(events: Seq<RecordedKeyView>, n: nat)
    requires
        n <= events.len(),
    ensures
        injections(normal_steps(events, n)) == recorded_taps(events, n),
    decreases n,
{
    if n > 0 {
        let e = events[n - 1];
        lemma_normal_taps(events, (n - 1) as nat);
        lemma_injections_add(normal_steps(events, (n - 1) as nat), tap_steps(e));
        match key_of_name(e.key) {
            Some(k) => {
                if event_phase(e) == Some(KeyPhase::Press) {
                    let t = tap_steps(e);
                    let t2 = seq![KeyAction::Press(k), KeyAction::Release(k)];
                    let t1 = seq![KeyAction::Press(k)];
                    let t0 = Seq::<KeyAction>::empty();
                    assert(t.drop_last() =~= t2);
                    assert(t2.drop_last() =~= t1);
                    assert(t1.drop_last() =~= t0);
                    assert(injections(t0) =~= t0);
                    assert(injections(t1) == injections(t0).push(KeyAction::Press(k)));
                    assert(injections(t1) =~= t1);
                    assert(injections(t2) == injections(t1).push(KeyAction::Release(k)));
                    assert(injections(t2) =~= t2);
                    assert(injections(t) == injections(t2));
                } else {
                    assert(injections(Seq::<KeyAction>::empty()) =~= Seq::<KeyAction>::empty());
                }
            },
            None => {
                assert(injections(Seq::<KeyAction>::empty()) =~= Seq::<KeyAction>::empty());
            },
        }
    }
}

/// A normal replay taps (presses, then releases) the key of every recorded press,
/// modifiers included, in the recorded order, makes no other key event, and
/// leaves no modifier held.
pub proof fn lemma_normal_replay_taps(events: Seq<RecordedKeyView>)
    ensures
        injections(replay_plan(events, ShortcutType::Normal)) == recorded_taps(events, events.len()),
        held_after(replay_plan(events, ShortcutType::Normal)) == Seq::<KeyCode>::empty(),
{
    lemma_normal_nothing_held(events, events.len());
    let lead = seq![KeyAction::Pause(LEAD_IN_MS)];
    let body = normal_steps(events, events.len());
    lemma_injections_add(lead, body);
    lemma_injections_lead_in();
    assert(injections(lead) + injections(body) =~= injections(body));
    lemma_normal_taps(events, events.len());
}

proof fn lemma_normal_nothing_held(events: Seq<RecordedKeyView>, n: nat)
    requires
        n <= events.len(),
    ensures
        held_after(seq![KeyAction::Pause(LEAD_IN_MS)] + normal_steps(events, n)) == Seq::<KeyCode>::empty(),
    decreases n,
{
    let lead = seq![KeyAction::Pause(LEAD_IN_MS)];
    if n == 0 {
        assert(lead + normal_steps(events, 0) =~= lead);
        assert(lead.drop_last() =~= Seq::<KeyAction>::empty());
        assert(held_after(lead.drop_last()) =~= Seq::<KeyCode>::empty());
        assert(lead.last() == KeyAction::Pause(LEAD_IN_MS));
    } else {
        lemma_normal_nothing_held(events, (n - 1) as nat);
        let prev = lead + normal_steps(events, (n - 1) as nat);
        let t = tap_steps(events[n - 1]);
        assert(lead + normal_steps(events, n) =~= prev + t);
        if t.len() == 0 {
            assert(prev + t =~= prev);
        } else {
            let k = key_of_name(events[n - 1].key)->0;
            let s = prev + t;
            let s2 = prev + seq![KeyAction::Press(k), KeyAction::Release(k)];
            let s1 = prev + seq![KeyAction::Press(k)];
            assert(s.drop_last() =~= s2);
            assert(s2.drop_last() =~= s1);
            assert(s1.drop_last() =~= prev);
            assert(s.last() == KeyAction::Pause(TAP_GAP_MS));
            assert(s2.last() == KeyAction::Release(k));
            assert(s1.last() == KeyAction::Press(k));
            let h1 = held_after(s1);
            assert(h1 == apply_held(Seq::<KeyCode>::empty(), KeyAction::Press(k)));
            let e = Seq::<KeyCode>::empty();
            assert(without(e, k) =~= e);
            if h1.len() == 1 {
                assert(h1.drop_last() =~= e);
                assert(h1.last() == k);
                assert(without(h1, k) == without(h1.drop_last(), k));
            } else {
                assert(h1 =~= e);
            }
            assert(held_after(s2) == without(h1, k));
            assert(without(h1, k) =~= Seq::<KeyCode>::empty());
        }
    }
}

proof fn lemma_push_contains(s: Seq<KeyCode>, a: KeyCode, x: KeyCode)
    ensures
        s.push(a).contains(x) <==> (s.contains(x) || x == a),
{
    if s.contains(x) {
        let i = choose|i: int| 0 <= i < s.len() && s[i] == x;
        assert(s.push(a)[i] == x);
    }
    if x == a {
        assert(s.push(a)[s.len() as int] == x);
    }
    if s.push(a).contains(x) {
        let i = choose|i: int| 0 <= i < s.push(a).len() && s.push(a)[i] == x;
        if i < s.len() {
            assert(s[i] == x);
        }
    }
}

proof fn lemma_push_fresh(s: Seq<KeyCode>, a: KeyCode)
    requires
        s.no_duplicates(),
        !s.contains(a),
    ensures
        s.push(a).no_duplicates(),
{
    assert forall|i: int, j: int| 0 <= i < j < s.push(a).len() implies s.push(a)[i] != s.push(a)[j] by {
        if j == s.len() {
            if s[i] == a {
                assert(s.contains(a));
            }
        }
    }
}

proof fn lemma_without(h: Seq<KeyCode>, k: KeyCode)
    ensures
        !without(h, k).contains(k),
        forall|x: KeyCode| x != k ==> (#[trigger] without(h, k).contains(x) <==> h.contains(x)),
        h.no_duplicates() ==> without(h, k).no_duplicates(),
    decreases h.len(),
{
    if h.len() > 0 {
        let d = h.drop_last();
        let l = h.last();
        let w = without(d, k);
        lemma_without(d, k);
        assert(h =~= d.push(l));
        if h.no_duplicates() {
            assert(d.no_duplicates()) by {
                assert forall|i: int, j: int| 0 <= i < j < d.len() implies d[i] != d[j] by {
                    assert(h[i] == d[i] && h[j] == d[j]);
                }
            }
            assert(!d.contains(l)) by {
                if d.contains(l) {
                    let i = choose|i: int| 0 <= i < d.len() && d[i] == l;
                    assert(h[i] == h[h.len() - 1]);
                }
            }
        }
        if l == k {
            assert(without(h, k) == w);
        } else {
            assert(without(h, k) == w.push(l));
            lemma_push_contains(w, l, k);
            if h.no_duplicates() {
                lemma_push_contains(w, l, l);
                lemma_push_fresh(w, l);
            }
        }
        assert forall|x: KeyCode| x != k implies (#[trigger] without(h, k).contains(x) <==> h.contains(x)) by {
            lemma_push_contains(d, l, x);
            if l != k {
                lemma_push_contains(w, l, x);
            }
        }
    }
}

proof fn lemma_held_after(steps: Seq<KeyAction>)
    ensures
        held_after(steps).no_duplicates(),
        forall|k: KeyCode| #[trigger] held_after(steps).contains(k) <==> (is_modifier(k) && pressed_last(steps, k)),
    decreases steps.len(),
{
    if steps.len() > 0 {
        let d = steps.drop_last();
        let h = held_after(d);
        lemma_held_after(d);
        match steps.last() {
            KeyAction::Press(k) => {
                if is_modifier(k) && !h.contains(k) {
                    lemma_push_fresh(h, k);
                    assert(held_after(steps) == h.push(k));
                    assert forall|x: KeyCode| #[trigger] held_after(steps).contains(x) <==> (is_modifier(x)
                        && pressed_last(steps, x)) by {
                        lemma_push_contains(h, k, x);
                    }
                } else {
                    assert(held_after(steps) == h);
                    assert forall|x: KeyCode| #[trigger] held_after(steps).contains(x) <==> (is_modifier(x)
                        && pressed_last(steps, x)) by {
                        assert(h.contains(x) <==> (is_modifier(x) && pressed_last(d, x)));
                    }
                }
            },
            KeyAction::Release(k) => {
                lemma_without(h, k);
                assert(held_after(steps) == without(h, k));
                assert forall|x: KeyCode| #[trigger] held_after(steps).contains(x) <==> (is_modifier(x)
                    && pressed_last(steps, x)) by {
                    assert(h.contains(x) <==> (is_modifier(x) && pressed_last(d, x)));
                }
            },
            KeyAction::Pause(_) => {
                assert(held_after(steps) == h);
                assert forall|x: KeyCode| #[trigger] held_after(steps).contains(x) <==> (is_modifier(x)
                    && pressed_last(steps, x)) by {
                    assert(h.contains(x) <==> (is_modifier(x) && pressed_last(d, x)));
                }
            },
        }
    }
}

/// When a key event of a run fails after `done` steps went through, the run
/// asks for one release for each modifier held at that point: the releases hold
/// no key twice, and hold exactly the modifiers whose last action among those
/// steps was a press.
pub proof fn lemma_cleanup_releases_each_held_modifier(steps: Seq<KeyAction>, done: int)
    requires
        0 <= done <= steps.len(),
    ensures
        held_after(steps.take(done)).no_duplicates(),
        forall|k: KeyCode|
            #[trigger] held_after(steps.take(done)).contains(k) <==> (is_modifier(k) && pressed_last(
                steps.take(done),
                k,
            )),
        held_after(steps.take(done)).len() == Set::new(
            |k: KeyCode| is_modifier(k) && pressed_last(steps.take(done), k),
        ).len(),
{
    let r = held_after(steps.take(done));
    let held = Set::new(|k: KeyCode| is_modifier(k) && pressed_last(steps.take(done), k));
    lemma_held_after(steps.take(done));
    assert(r.to_set() =~= held);
    r.unique_seq_to_set();
}

} // verus!
