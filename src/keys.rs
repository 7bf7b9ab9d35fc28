use vstd::prelude::*;
use vstd::string::StrSliceExecFns;
use vstd::string::StringExecFns;

verus! {

/// A key of the keyboard, as the recorder and the replayer see it.
///
/// The named variants are the keys that macros can store and replay; every
/// other key of the keyboard is `Other`.
#[derive(Clone, Copy, Debug, PartialEq, Eq, Structural)]
pub enum KeyCode {
    KeyA,
    KeyB,
    KeyC,
    KeyD,
    KeyE,
    KeyF,
    KeyG,
    KeyH,
    KeyI,
    KeyJ,
    KeyK,
    KeyL,
    KeyM,
    KeyN,
    KeyO,
    KeyP,
    KeyQ,
    KeyR,
    KeyS,
    KeyT,
    KeyU,
    KeyV,
    KeyW,
    KeyX,
    KeyY,
    KeyZ,
    Num0,
    Num1,
    Num2,
    Num3,
    Num4,
    Num5,
    Num6,
    Num7,
    Num8,
    Num9,
    Space,
    MetaLeft,
    MetaRight,
    ControlLeft,
    ControlRight,
    ShiftLeft,
    ShiftRight,
    Alt,
    AltGr,
    Return,
    Escape,
    Backspace,
    Tab,
    Other,
}

/// The four modifier classes; left and right variants of a modifier share one class.
#[derive(Clone, Copy, Debug, PartialEq, Eq, Structural)]
pub enum ModifierKind {
    Alt,
    Ctrl,
    Shift,
    Meta,
}

/// Whether a key event is the key going down or coming up.
#[derive(Clone, Copy, Debug, PartialEq, Eq, Structural)]
pub enum KeyPhase {
    Press,
    Release,
}

    pub open spec fn key_name(k: KeyCode) -> Seq<char> {
        match k {
            KeyCode::KeyA => "KeyA"@,
            KeyCode::KeyB => "KeyB"@,
            KeyCode::KeyC => "KeyC"@,
            KeyCode::KeyD => "KeyD"@,
            KeyCode::KeyE => "KeyE"@,
            KeyCode::KeyF => "KeyF"@,
            KeyCode::KeyG => "KeyG"@,
            KeyCode::KeyH => "KeyH"@,
            KeyCode::KeyI => "KeyI"@,
            KeyCode::KeyJ => "KeyJ"@,
            KeyCode::KeyK => "KeyK"@,
            KeyCode::KeyL => "KeyL"@,
            KeyCode::KeyM => "KeyM"@,
            KeyCode::KeyN => "KeyN"@,
            KeyCode::KeyO => "KeyO"@,
            KeyCode::KeyP => "KeyP"@,
            KeyCode::KeyQ => "KeyQ"@,
            KeyCode::KeyR => "KeyR"@,
            KeyCode::KeyS => "KeyS"@,
            KeyCode::KeyT => "KeyT"@,
            KeyCode::KeyU => "KeyU"@,
            KeyCode::KeyV => "KeyV"@,
            KeyCode::KeyW => "KeyW"@,
            KeyCode::KeyX => "KeyX"@,
            KeyCode::KeyY => "KeyY"@,
            KeyCode::KeyZ => "KeyZ"@,
            KeyCode::Num0 => "Num0"@,
            KeyCode::Num1 => "Num1"@,
            KeyCode::Num2 => "Num2"@,
            KeyCode::Num3 => "Num3"@,
            KeyCode::Num4 => "Num4"@,
            KeyCode::Num5 => "Num5"@,
            KeyCode::Num6 => "Num6"@,
            KeyCode::Num7 => "Num7"@,
            KeyCode::Num8 => "Num8"@,
            KeyCode::Num9 => "Num9"@,
            KeyCode::Space => "Space"@,
            KeyCode::MetaLeft => "MetaLeft"@,
            KeyCode::MetaRight => "MetaRight"@,
            KeyCode::ControlLeft => "ControlLeft"@,
            KeyCode::ControlRight => "ControlRight"@,
            KeyCode::ShiftLeft => "ShiftLeft"@,
            KeyCode::ShiftRight => "ShiftRight"@,
            KeyCode::Alt => "Alt"@,
            KeyCode::AltGr => "AltLeft"@,
            KeyCode::Return => "Enter"@,
            KeyCode::Escape => "Escape"@,
            KeyCode::Backspace => "Backspace"@,
            KeyCode::Tab => "Tab"@,
            KeyCode::Other => "Unknown"@,
        }
    }

    /// The key that a stored key name stands for, if the name is one of the table's.
    pub open spec fn key_of_name(s: Seq<char>) -> Option<KeyCode> {
        if s == "KeyA"@ {
            Some(KeyCode::KeyA)
        } else if s == "KeyB"@ {
            Some(KeyCode::KeyB)
        } else if s == "KeyC"@ {
            Some(KeyCode::KeyC)
        } else if s == "KeyD"@ {
            Some(KeyCode::KeyD)
        } else if s == "KeyE"@ {
            Some(KeyCode::KeyE)
        } else if s == "KeyF"@ {
            Some(KeyCode::KeyF)
        } else if s == "KeyG"@ {
            Some(KeyCode::KeyG)
        } else if s == "KeyH"@ {
            Some(KeyCode::KeyH)
        } else if s == "KeyI"@ {
            Some(KeyCode::KeyI)
        } else if s == "KeyJ"@ {
            Some(KeyCode::KeyJ)
        } else if s == "KeyK"@ {
            Some(KeyCode::KeyK)
        } else if s == "KeyL"@ {
            Some(KeyCode::KeyL)
        } else if s == "KeyM"@ {
            Some(KeyCode::KeyM)
        } else if s == "KeyN"@ {
            Some(KeyCode::KeyN)
        } else if s == "KeyO"@ {
            Some(KeyCode::KeyO)
        } else if s == "KeyP"@ {
            Some(KeyCode::KeyP)
        } else if s == "KeyQ"@ {
            Some(KeyCode::KeyQ)
        } else if s == "KeyR"@ {
            Some(KeyCode::KeyR)
        } else if s == "KeyS"@ {
            Some(KeyCode::KeyS)
        } else if s == "KeyT"@ {
            Some(KeyCode::KeyT)
        } else if s == "KeyU"@ {
            Some(KeyCode::KeyU)
        } else if s == "KeyV"@ {
            Some(KeyCode::KeyV)
        } else if s == "KeyW"@ {
            Some(KeyCode::KeyW)
        } else if s == "KeyX"@ {
            Some(KeyCode::KeyX)
        } else if s == "KeyY"@ {
            Some(KeyCode::KeyY)
        } else if s == "KeyZ"@ {
            Some(KeyCode::KeyZ)
        } else if s == "Num0"@ {
            Some(KeyCode::Num0)
        } else if s == "Num1"@ {
            Some(KeyCode::Num1)
        } else if s == "Num2"@ {
            Some(KeyCode::Num2)
        } else if s == "Num3"@ {
            Some(KeyCode::Num3)
        } else if s == "Num4"@ {
            Some(KeyCode::Num4)
        } else if s == "Num5"@ {
            Some(KeyCode::Num5)
        } else if s == "Num6"@ {
            Some(KeyCode::Num6)
        } else if s == "Num7"@ {
            Some(KeyCode::Num7)
        } else if s == "Num8"@ {
            Some(KeyCode::Num8)
        } else if s == "Num9"@ {
            Some(KeyCode::Num9)
        } else if s == "Space"@ {
            Some(KeyCode::Space)
        } else if s == "MetaLeft"@ {
            Some(KeyCode::MetaLeft)
        } else if s == "MetaRight"@ {
            Some(KeyCode::MetaRight)
        } else if s == "ControlLeft"@ {
            Some(KeyCode::ControlLeft)
        } else if s == "ControlRight"@ {
            Some(KeyCode::ControlRight)
        } else if s == "ShiftLeft"@ {
            Some(KeyCode::ShiftLeft)
        } else if s == "ShiftRight"@ {
            Some(KeyCode::ShiftRight)
        } else if s == "Alt"@ {
            Some(KeyCode::Alt)
        } else if s == "AltLeft"@ {
            Some(KeyCode::Alt)
        } else if s == "AltRight"@ {
            Some(KeyCode::AltGr)
        } else if s == "Enter"@ {
            Some(KeyCode::Return)
        } else if s == "Escape"@ {
            Some(KeyCode::Escape)
        } else if s == "Backspace"@ {
            Some(KeyCode::Backspace)
        } else if s == "Tab"@ {
            Some(KeyCode::Tab)
        } else {
            None
        }
    }

    /// The key that types a character, ignoring the case of ASCII letters.
    pub open spec fn key_of_char(c: char) -> Option<KeyCode> {
        match c {
            'a' | 'A' => Some(KeyCode::KeyA),
            'b' | 'B' => Some(KeyCode::KeyB),
            'c' | 'C' => Some(KeyCode::KeyC),
            'd' | 'D' => Some(KeyCode::KeyD),
            'e' | 'E' => Some(KeyCode::KeyE),
            'f' | 'F' => Some(KeyCode::KeyF),
            'g' | 'G' => Some(KeyCode::KeyG),
            'h' | 'H' => Some(KeyCode::KeyH),
            'i' | 'I' => Some(KeyCode::KeyI),
            'j' | 'J' => Some(KeyCode::KeyJ),
            'k' | 'K' => Some(KeyCode::KeyK),
            'l' | 'L' => Some(KeyCode::KeyL),
            'm' | 'M' => Some(KeyCode::KeyM),
            'n' | 'N' => Some(KeyCode::KeyN),
            'o' | 'O' => Some(KeyCode::KeyO),
            'p' | 'P' => Some(KeyCode::KeyP),
            'q' | 'Q' => Some(KeyCode::KeyQ),
            'r' | 'R' => Some(KeyCode::KeyR),
            's' | 'S' => Some(KeyCode::KeyS),
            't' | 'T' => Some(KeyCode::KeyT),
            'u' | 'U' => Some(KeyCode::KeyU),
            'v' | 'V' => Some(KeyCode::KeyV),
            'w' | 'W' => Some(KeyCode::KeyW),
            'x' | 'X' => Some(KeyCode::KeyX),
            'y' | 'Y' => Some(KeyCode::KeyY),
            'z' | 'Z' => Some(KeyCode::KeyZ),
            '0' => Some(KeyCode::Num0),
            '1' => Some(KeyCode::Num1),
            '2' => Some(KeyCode::Num2),
            '3' => Some(KeyCode::Num3),
            '4' => Some(KeyCode::Num4),
            '5' => Some(KeyCode::Num5),
            '6' => Some(KeyCode::Num6),
            '7' => Some(KeyCode::Num7),
            '8' => Some(KeyCode::Num8),
            '9' => Some(KeyCode::Num9),
            ' ' => Some(KeyCode::Space),
            _ => None,
        }
    }

pub open spec fn modifier_kind(k: KeyCode) -> Option<ModifierKind> {
    match k {
        KeyCode::Alt | KeyCode::AltGr => Some(ModifierKind::Alt),
        KeyCode::ControlLeft | KeyCode::ControlRight => Some(ModifierKind::Ctrl),
        KeyCode::ShiftLeft | KeyCode::ShiftRight => Some(ModifierKind::Shift),
        KeyCode::MetaLeft | KeyCode::MetaRight => Some(ModifierKind::Meta),
        _ => None,
    }
}

pub open spec fn is_modifier(k: KeyCode) -> bool {
    match k {
        KeyCode::Alt | KeyCode::AltGr | KeyCode::ControlLeft | KeyCode::ControlRight
        | KeyCode::ShiftLeft | KeyCode::ShiftRight | KeyCode::MetaLeft | KeyCode::MetaRight => true,
        _ => false,
    }
}

/// The text stored for a phase: `"press"` or `"release"`.
pub open spec fn phase_name(p: KeyPhase) -> Seq<char> {
    match p {
        KeyPhase::Press => "press"@,
        KeyPhase::Release => "release"@,
    }
}

/// Compares two strings character by character.
pub fn same_text(a: &str, b: &str) -> (r: bool)
    ensures
        r == (a@ == b@),
{
    let n = a.unicode_len();
    if n != b.unicode_len() {
        return false;
    }
    let mut i: usize = 0;
    while i < n
        invariant
            n == a@.len(),
            n == b@.len(),
            0 <= i <= n,
            forall|j: int| 0 <= j < i ==> a@[j] == b@[j],
        decreases n - i,
    {
        if a.get_char(i) != b.get_char(i) {
            return false;
        }
        i = i + 1;
    }
    assert(a@ =~= b@);
    true
}

    /// Looks up the key that a stored key name stands for.
    ///
    /// `"AltLeft"` names the same key as `"Alt"`, and `"AltRight"` names `AltGr`.
    pub fn string_to_key(key_str: &str) -> (r: Option<KeyCode>)
        ensures
            r == key_of_name(key_str@),
    {
        if same_text(key_str, "KeyA") {
            Some(KeyCode::KeyA)
        } else if same_text(key_str, "KeyB") {
            Some(KeyCode::KeyB)
        } else if same_text(key_str, "KeyC") {
            Some(KeyCode::KeyC)
        } else if same_text(key_str, "KeyD") {
            Some(KeyCode::KeyD)
        } else if same_text(key_str, "KeyE") {
            Some(KeyCode::KeyE)
        } else if same_text(key_str, "KeyF") {
            Some(KeyCode::KeyF)
        } else if same_text(key_str, "KeyG") {
            Some(KeyCode::KeyG)
        } else if same_text(key_str, "KeyH") {
            Some(KeyCode::KeyH)
        } else if same_text(key_str, "KeyI") {
            Some(KeyCode::KeyI)
        } else if same_text(key_str, "KeyJ") {
            Some(KeyCode::KeyJ)
        } else if same_text(key_str, "KeyK") {
            Some(KeyCode::KeyK)
        } else if same_text(key_str, "KeyL") {
            Some(KeyCode::KeyL)
        } else if same_text(key_str, "KeyM") {
            Some(KeyCode::KeyM)
        } else if same_text(key_str, "KeyN") {
            Some(KeyCode::KeyN)
        } else if same_text(key_str, "KeyO") {
            Some(KeyCode::KeyO)
        } else if same_text(key_str, "KeyP") {
            Some(KeyCode::KeyP)
        } else if same_text(key_str, "KeyQ") {
            Some(KeyCode::KeyQ)
        } else if same_text(key_str, "KeyR") {
            Some(KeyCode::KeyR)
        } else if same_text(key_str, "KeyS") {
            Some(KeyCode::KeyS)
        } else if same_text(key_str, "KeyT") {
            Some(KeyCode::KeyT)
        } else if same_text(key_str, "KeyU") {
            Some(KeyCode::KeyU)
        } else if same_text(key_str, "KeyV") {
            Some(KeyCode::KeyV)
        } else if same_text(key_str, "KeyW") {
            Some(KeyCode::KeyW)
        } else if same_text(key_str, "KeyX") {
            Some(KeyCode::KeyX)
        } else if same_text(key_str, "KeyY") {
            Some(KeyCode::KeyY)
        } else if same_text(key_str, "KeyZ") {
            Some(KeyCode::KeyZ)
        } else if same_text(key_str, "Num0") {
            Some(KeyCode::Num0)
        } else if same_text(key_str, "Num1") {
            Some(KeyCode::Num1)
        } else if same_text(key_str, "Num2") {
            Some(KeyCode::Num2)
        } else if same_text(key_str, "Num3") {
            Some(KeyCode::Num3)
        } else if same_text(key_str, "Num4") {
            Some(KeyCode::Num4)
        } else if same_text(key_str, "Num5") {
            Some(KeyCode::Num5)
        } else if same_text(key_str, "Num6") {
            Some(KeyCode::Num6)
        } else if same_text(key_str, "Num7") {
            Some(KeyCode::Num7)
        } else if same_text(key_str, "Num8") {
            Some(KeyCode::Num8)
        } else if same_text(key_str, "Num9") {
            Some(KeyCode::Num9)
        } else if same_text(key_str, "Space") {
            Some(KeyCode::Space)
        } else if same_text(key_str, "MetaLeft") {
            Some(KeyCode::MetaLeft)
        } else if same_text(key_str, "MetaRight") {
            Some(KeyCode::MetaRight)
        } else if same_text(key_str, "ControlLeft") {
            Some(KeyCode::ControlLeft)
        } else if same_text(key_str, "ControlRight") {
            Some(KeyCode::ControlRight)
        } else if same_text(key_str, "ShiftLeft") {
            Some(KeyCode::ShiftLeft)
        } else if same_text(key_str, "ShiftRight") {
            Some(KeyCode::ShiftRight)
        } else if same_text(key_str, "Alt") {
            Some(KeyCode::Alt)
        } else if same_text(key_str, "AltLeft") {
            Some(KeyCode::Alt)
        } else if same_text(key_str, "AltRight") {
            Some(KeyCode::AltGr)
        } else if same_text(key_str, "Enter") {
            Some(KeyCode::Return)
        } else if same_text(key_str, "Escape") {
            Some(KeyCode::Escape)
        } else if same_text(key_str, "Backspace") {
            Some(KeyCode::Backspace)
        } else if same_text(key_str, "Tab") {
            Some(KeyCode::Tab)
        } else {
            None
        }
    }

    /// Maps a character to the key that types it; letters match in either case.
    pub fn char_to_key(ch: char) -> (r: Option<KeyCode>)
        ensures
            r == key_of_char(ch),
    {
        match ch {
            'a' | 'A' => Some(KeyCode::KeyA),
            'b' | 'B' => Some(KeyCode::KeyB),
            'c' | 'C' => Some(KeyCode::KeyC),
            'd' | 'D' => Some(KeyCode::KeyD),
            'e' | 'E' => Some(KeyCode::KeyE),
            'f' | 'F' => Some(KeyCode::KeyF),
            'g' | 'G' => Some(KeyCode::KeyG),
            'h' | 'H' => Some(KeyCode::KeyH),
            'i' | 'I' => Some(KeyCode::KeyI),
            'j' | 'J' => Some(KeyCode::KeyJ),
            'k' | 'K' => Some(KeyCode::KeyK),
            'l' | 'L' => Some(KeyCode::KeyL),
            'm' | 'M' => Some(KeyCode::KeyM),
            'n' | 'N' => Some(KeyCode::KeyN),
            'o' | 'O' => Some(KeyCode::KeyO),
            'p' | 'P' => Some(KeyCode::KeyP),
            'q' | 'Q' => Some(KeyCode::KeyQ),
            'r' | 'R' => Some(KeyCode::KeyR),
            's' | 'S' => Some(KeyCode::KeyS),
            't' | 'T' => Some(KeyCode::KeyT),
            'u' | 'U' => Some(KeyCode::KeyU),
            'v' | 'V' => Some(KeyCode::KeyV),
            'w' | 'W' => Some(KeyCode::KeyW),
            'x' | 'X' => Some(KeyCode::KeyX),
            'y' | 'Y' => Some(KeyCode::KeyY),
            'z' | 'Z' => Some(KeyCode::KeyZ),
            '0' => Some(KeyCode::Num0),
            '1' => Some(KeyCode::Num1),
            '2' => Some(KeyCode::Num2),
            '3' => Some(KeyCode::Num3),
            '4' => Some(KeyCode::Num4),
            '5' => Some(KeyCode::Num5),
            '6' => Some(KeyCode::Num6),
            '7' => Some(KeyCode::Num7),
            '8' => Some(KeyCode::Num8),
            '9' => Some(KeyCode::Num9),
            ' ' => Some(KeyCode::Space),
            _ => None,
        }
    }

    /// The stored name of a key.
    ///
    /// `AltGr` is stored as `"AltLeft"`, which existing macros already hold; keys
    /// outside the table are stored as `"Unknown"`.
    pub fn key_to_string(key: KeyCode) -> (r: String)
        ensures
            r@ == key_name(key),
    {
        let name: &str = match key {
            KeyCode::KeyA => "KeyA",
            KeyCode::KeyB => "KeyB",
            KeyCode::KeyC => "KeyC",
            KeyCode::KeyD => "KeyD",
            KeyCode::KeyE => "KeyE",
            KeyCode::KeyF => "KeyF",
            KeyCode::KeyG => "KeyG",
            KeyCode::KeyH => "KeyH",
            KeyCode::KeyI => "KeyI",
            KeyCode::KeyJ => "KeyJ",
            KeyCode::KeyK => "KeyK",
            KeyCode::KeyL => "KeyL",
            KeyCode::KeyM => "KeyM",
            KeyCode::KeyN => "KeyN",
            KeyCode::KeyO => "KeyO",
            KeyCode::KeyP => "KeyP",
            KeyCode::KeyQ => "KeyQ",
            KeyCode::KeyR => "KeyR",
            KeyCode::KeyS => "KeyS",
            KeyCode::KeyT => "KeyT",
            KeyCode::KeyU => "KeyU",
            KeyCode::KeyV => "KeyV",
            KeyCode::KeyW => "KeyW",
            KeyCode::KeyX => "KeyX",
            KeyCode::KeyY => "KeyY",
            KeyCode::KeyZ => "KeyZ",
            KeyCode::Num0 => "Num0",
            KeyCode::Num1 => "Num1",
            KeyCode::Num2 => "Num2",
            KeyCode::Num3 => "Num3",
            KeyCode::Num4 => "Num4",
            KeyCode::Num5 => "Num5",
            KeyCode::Num6 => "Num6",
            KeyCode::Num7 => "Num7",
            KeyCode::Num8 => "Num8",
            KeyCode::Num9 => "Num9",
            KeyCode::Space => "Space",
            KeyCode::MetaLeft => "MetaLeft",
            KeyCode::MetaRight => "MetaRight",
            KeyCode::ControlLeft => "ControlLeft",
            KeyCode::ControlRight => "ControlRight",
            KeyCode::ShiftLeft => "ShiftLeft",
            KeyCode::ShiftRight => "ShiftRight",
            KeyCode::Alt => "Alt",
            KeyCode::AltGr => "AltLeft",
            KeyCode::Return => "Enter",
            KeyCode::Escape => "Escape",
            KeyCode::Backspace => "Backspace",
            KeyCode::Tab => "Tab",
            KeyCode::Other => "Unknown",
        };
        String::from_str(name)
    }

/// Whether a key is one of the modifier keys (Alt, AltGr, Control, Shift, Meta).
pub fn is_modifier_key(key: KeyCode) -> (r: bool)
    ensures
        r == is_modifier(key),
{
    match key {
        KeyCode::Alt | KeyCode::AltGr | KeyCode::ControlLeft | KeyCode::ControlRight
        | KeyCode::ShiftLeft | KeyCode::ShiftRight | KeyCode::MetaLeft | KeyCode::MetaRight => true,
        _ => false,
    }
}

/// The modifier class of a key, or `None` for a key that is no modifier.
pub fn get_modifier_type(key: KeyCode) -> (r: Option<ModifierKind>)
    ensures
        r == modifier_kind(key),
{
    match key {
        KeyCode::Alt | KeyCode::AltGr => Some(ModifierKind::Alt),
        KeyCode::ControlLeft | KeyCode::ControlRight => Some(ModifierKind::Ctrl),
        KeyCode::ShiftLeft | KeyCode::ShiftRight => Some(ModifierKind::Shift),
        KeyCode::MetaLeft | KeyCode::MetaRight => Some(ModifierKind::Meta),
        _ => None,
    }
}

/// The stored text of a phase.
pub fn phase_to_string(phase: KeyPhase) -> (r: String)
    ensures
        r@ == phase_name(phase),
{
    match phase {
        KeyPhase::Press => String::from_str("press"),
        KeyPhase::Release => String::from_str("release"),
    }
}

/// Every name of the table comes back unchanged from a lookup followed by
/// naming the key found, except `"AltLeft"` and `"AltRight"`, which are stored
/// as `"Alt"` and `"AltLeft"`.
pub proof fn lemma_name_round_trip(s: Seq<char>)
    requires
        key_of_name(s) is Some,
        s != "AltLeft"@,
        s != "AltRight"@,
    ensures
        key_name(key_of_name(s)->0) == s,
{
}

/// Every modifier key has a modifier class.
pub proof fn lemma_modifier_has_kind(k: KeyCode)
    ensures
        is_modifier(k) ==> modifier_kind(k) is Some,
        modifier_kind(k) is Some ==> is_modifier(k),
{
}

} // verus!
