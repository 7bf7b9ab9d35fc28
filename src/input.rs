use vstd::prelude::*;
use vstd::string::StrSliceExecFns;

use crate::keys::{char_to_key, key_of_char, KeyCode};
use crate::replay::KeyAction;

verus! {

/// Pause after each event of a copy or paste chord, so that the operating system
/// sees the events in order.
pub const CHORD_SETTLE_MS: u64 = 20;

/// The characters of `s` that have a key, each with its key, in order; other
/// characters are skipped.
pub open spec fn typed_keys(s: Seq<char>) -> Seq<(char, KeyCode)>
    decreases s.len(),
{
    if s.len() == 0 {
        Seq::empty()
    } else {
        match key_of_char(s.last()) {
            Some(k) => typed_keys(s.drop_last()).push((s.last(), k)),
            None => typed_keys(s.drop_last()),
        }
    }
}

/// The keys to tap (press, then release) to type `text`, each with the character
/// it types.
pub fn typing_keys(text: &str) -> (r: Vec<(char, KeyCode)>)
    ensures
        r@ == typed_keys(text@),
{
    let n = text.unicode_len();
    let mut r: Vec<(char, KeyCode)> = Vec::new();
    let mut i: usize = 0;
    while i < n
        invariant
            n == text@.len(),
            0 <= i <= n,
            r@ == typed_keys(text@.take(i as int)),
        decreases n - i,
    {
        let c = text.get_char(i);
        assert(text@.take(i + 1).drop_last() =~= text@.take(i as int));
        assert(text@.take(i + 1).last() == c);
        if let Some(k) = char_to_key(c) {
            r.push((c, k));
        }
        i = i + 1;
    }
    assert(text@.take(n as int) =~= text@);
    r
}

/// The modifier of the copy and paste shortcuts: Command on macOS, Control elsewhere.
pub open spec fn shortcut_modifier_of(on_macos: bool) -> KeyCode {
    if on_macos {
        KeyCode::MetaLeft
    } else {
        KeyCode::ControlLeft
    }
}

/// Holding `modifier`, tap `key`, with a settle pause after each event.
pub open spec fn chord(modifier: KeyCode, key: KeyCode) -> Seq<KeyAction> {
    seq![
        KeyAction::Press(modifier),
        KeyAction::Pause(CHORD_SETTLE_MS),
        KeyAction::Press(key),
        KeyAction::Pause(CHORD_SETTLE_MS),
        KeyAction::Release(key),
        KeyAction::Pause(CHORD_SETTLE_MS),
        KeyAction::Release(modifier),
        KeyAction::Pause(CHORD_SETTLE_MS),
    ]
}

/// The modifier of the copy and paste shortcuts on this platform.
pub fn shortcut_modifier(on_macos: bool) -> (r: KeyCode)
    ensures
        r == shortcut_modifier_of(on_macos),
{
    if on_macos {
        KeyCode::MetaLeft
    } else {
        KeyCode::ControlLeft
    }
}

/// The events of a chord: press the modifier, press the key, release the key,
/// release the modifier.
pub fn chord_steps(modifier: KeyCode, key: KeyCode) -> (r: Vec<KeyAction>)
    ensures
        r@ == chord(modifier, key),
{
    let mut r: Vec<KeyAction> = Vec::new();
    r.push(KeyAction::Press(modifier));
    r.push(KeyAction::Pause(CHORD_SETTLE_MS));
    r.push(KeyAction::Press(key));
    r.push(KeyAction::Pause(CHORD_SETTLE_MS));
    r.push(KeyAction::Release(key));
    r.push(KeyAction::Pause(CHORD_SETTLE_MS));
    r.push(KeyAction::Release(modifier));
    r.push(KeyAction::Pause(CHORD_SETTLE_MS));
    assert(r@ =~= chord(modifier, key));
    r
}

/// The events of the copy shortcut (Command+C on macOS, Control+C elsewhere).
pub fn copy_chord(on_macos: bool) -> (r: Vec<KeyAction>)
    ensures
        r@ == chord(shortcut_modifier_of(on_macos), KeyCode::KeyC),
{
    chord_steps(shortcut_modifier(on_macos), KeyCode::KeyC)
}

/// The events of the paste shortcut (Command+V on macOS, Control+V elsewhere).
pub fn paste_chord(on_macos: bool) -> (r: Vec<KeyAction>)
    ensures
        r@ == chord(shortcut_modifier_of(on_macos), KeyCode::KeyV),
{
    chord_steps(shortcut_modifier(on_macos), KeyCode::KeyV)
}

} // verus!
