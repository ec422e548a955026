use crate::text::{lowercase, text_eq, to_lowercase, trim, trim_spec};
use crate::text::{decimal_text, digit_text};
use vstd::prelude::*;
use vstd::string::StrSliceExecFns;
use vstd::string::StringExecFns;

verus! {

/// Hotkey action types.
#[derive(Debug, Clone, Copy, PartialEq, Eq, Structural)]
pub enum HotkeyAction {
    Start,
    Stop,
    PanicStop,
}

/// The keys that a hotkey can be bound to.
#[derive(Debug, Clone, Copy, PartialEq, Eq, Structural)]
pub enum KeyCode {
    F1,
    F2,
    F3,
    F4,
    F5,
    F6,
    F7,
    F8,
    F9,
    F10,
    F11,
    F12,
    KeyA,
    KeyB,
    KeyC,
    KeyD,
    KeyE,
    KeyF,
    KeyG,
    KeyH,
    KeyI,
    KeyJ,
    KeyK,
    KeyL,
    KeyM,
    KeyN,
    KeyO,
    KeyP,
    KeyQ,
    KeyR,
    KeyS,
    KeyT,
    KeyU,
    KeyV,
    KeyW,
    KeyX,
    KeyY,
    KeyZ,
    Space,
    Escape,
    Enter,
    Tab,
    Backspace,
    Delete,
    Insert,
    Home,
    End,
    PageUp,
    PageDown,
    ArrowUp,
    ArrowDown,
    ArrowLeft,
    ArrowRight,
}

/// The modifier keys held with a hotkey.
#[derive(Debug, Clone, Copy, PartialEq, Eq, Structural)]
pub struct HotkeyModifiers {
    pub control: bool,
    pub shift: bool,
    pub alt: bool,
    pub super_key: bool,
}

impl HotkeyModifiers {
    pub open spec fn none() -> Self {
        HotkeyModifiers { control: false, shift: false, alt: false, super_key: false }
    }

    /// Whether no modifier is held.
    pub fn is_empty(&self) -> (r: bool)
        ensures
            r == (*self == Self::none()),
    {
        !self.control && !self.shift && !self.alt && !self.super_key
    }
}

/// A hotkey parsed from its text: modifiers and one key.
#[derive(Debug, Clone, Copy, PartialEq, Eq, Structural)]
pub struct ParsedHotkey {
    pub modifiers: HotkeyModifiers,
    pub key: KeyCode,
}

// ── Key names ─────────────────────────────────────────────────────────────────

/// The key named by the lower-case word `name`.
pub open spec fn key_code_named(name: Seq<char>) -> Option<KeyCode> {
    if name == "f1"@ {
        Some(KeyCode::F1)
    } else if name == "f2"@ {
        Some(KeyCode::F2)
    } else if name == "f3"@ {
        Some(KeyCode::F3)
    } else if name == "f4"@ {
        Some(KeyCode::F4)
    } else if name == "f5"@ {
        Some(KeyCode::F5)
    } else if name == "f6"@ {
        Some(KeyCode::F6)
    } else if name == "f7"@ {
        Some(KeyCode::F7)
    } else if name == "f8"@ {
        Some(KeyCode::F8)
    } else if name == "f9"@ {
        Some(KeyCode::F9)
    } else if name == "f10"@ {
        Some(KeyCode::F10)
    } else if name == "f11"@ {
        Some(KeyCode::F11)
    } else if name == "f12"@ {
        Some(KeyCode::F12)
    } else if name == "a"@ {
        Some(KeyCode::KeyA)
    } else if name == "b"@ {
        Some(KeyCode::KeyB)
    } else if name == "c"@ {
        Some(KeyCode::KeyC)
    } else if name == "d"@ {
        Some(KeyCode::KeyD)
    } else if name == "e"@ {
        Some(KeyCode::KeyE)
    } else if name == "f"@ {
        Some(KeyCode::KeyF)
    } else if name == "g"@ {
        Some(KeyCode::KeyG)
    } else if name == "h"@ {
        Some(KeyCode::KeyH)
    } else if name == "i"@ {
        Some(KeyCode::KeyI)
    } else if name == "j"@ {
        Some(KeyCode::KeyJ)
    } else if name == "k"@ {
        Some(KeyCode::KeyK)
    } else if name == "l"@ {
        Some(KeyCode::KeyL)
    } else if name == "m"@ {
        Some(KeyCode::KeyM)
    } else if name == "n"@ {
        Some(KeyCode::KeyN)
    } else if name == "o"@ {
        Some(KeyCode::KeyO)
    } else if name == "p"@ {
        Some(KeyCode::KeyP)
    } else if name == "q"@ {
        Some(KeyCode::KeyQ)
    } else if name == "r"@ {
        Some(KeyCode::KeyR)
    } else if name == "s"@ {
        Some(KeyCode::KeyS)
    } else if name == "t"@ {
        Some(KeyCode::KeyT)
    } else if name == "u"@ {
        Some(KeyCode::KeyU)
    } else if name == "v"@ {
        Some(KeyCode::KeyV)
    } else if name == "w"@ {
        Some(KeyCode::KeyW)
    } else if name == "x"@ {
        Some(KeyCode::KeyX)
    } else if name == "y"@ {
        Some(KeyCode::KeyY)
    } else if name == "z"@ {
        Some(KeyCode::KeyZ)
    } else if name == "space"@ {
        Some(KeyCode::Space)
    } else if name == "escape"@ {
        Some(KeyCode::Escape)
    } else if name == "esc"@ {
        Some(KeyCode::Escape)
    } else if name == "enter"@ {
        Some(KeyCode::Enter)
    } else if name == "return"@ {
        Some(KeyCode::Enter)
    } else if name == "tab"@ {
        Some(KeyCode::Tab)
    } else if name == "backspace"@ {
        Some(KeyCode::Backspace)
    } else if name == "delete"@ {
        Some(KeyCode::Delete)
    } else if name == "del"@ {
        Some(KeyCode::Delete)
    } else if name == "insert"@ {
        Some(KeyCode::Insert)
    } else if name == "ins"@ {
        Some(KeyCode::Insert)
    } else if name == "home"@ {
        Some(KeyCode::Home)
    } else if name == "end"@ {
        Some(KeyCode::End)
    } else if name == "pageup"@ {
        Some(KeyCode::PageUp)
    } else if name == "pagedown"@ {
        Some(KeyCode::PageDown)
    } else if name == "up"@ {
        Some(KeyCode::ArrowUp)
    } else if name == "down"@ {
        Some(KeyCode::ArrowDown)
    } else if name == "left"@ {
        Some(KeyCode::ArrowLeft)
    } else if name == "right"@ {
        Some(KeyCode::ArrowRight)
    } else {
        None
    }
}

fn key_code_for(name: &String) -> (r: Option<KeyCode>)
    ensures
        r == key_code_named(name@),
{
    if text_eq(name, "f1") {
        Some(KeyCode::F1)
    } else if text_eq(name, "f2") {
        Some(KeyCode::F2)
    } else if text_eq(name, "f3") {
        Some(KeyCode::F3)
    } else if text_eq(name, "f4") {
        Some(KeyCode::F4)
    } else if text_eq(name, "f5") {
        Some(KeyCode::F5)
    } else if text_eq(name, "f6") {
        Some(KeyCode::F6)
    } else if text_eq(name, "f7") {
        Some(KeyCode::F7)
    } else if text_eq(name, "f8") {
        Some(KeyCode::F8)
    } else if text_eq(name, "f9") {
        Some(KeyCode::F9)
    } else if text_eq(name, "f10") {
        Some(KeyCode::F10)
    } else if text_eq(name, "f11") {
        Some(KeyCode::F11)
    } else if text_eq(name, "f12") {
        Some(KeyCode::F12)
    } else if text_eq(name, "a") {
        Some(KeyCode::KeyA)
    } else if text_eq(name, "b") {
        Some(KeyCode::KeyB)
    } else if text_eq(name, "c") {
        Some(KeyCode::KeyC)
    } else if text_eq(name, "d") {
        Some(KeyCode::KeyD)
    } else if text_eq(name, "e") {
        Some(KeyCode::KeyE)
    } else if text_eq(name, "f") {
        Some(KeyCode::KeyF)
    } else if text_eq(name, "g") {
        Some(KeyCode::KeyG)
    } else if text_eq(name, "h") {
        Some(KeyCode::KeyH)
    } else if text_eq(name, "i") {
        Some(KeyCode::KeyI)
    } else if text_eq(name, "j") {
        Some(KeyCode::KeyJ)
    } else if text_eq(name, "k") {
        Some(KeyCode::KeyK)
    } else if text_eq(name, "l") {
        Some(KeyCode::KeyL)
    } else if text_eq(name, "m") {
        Some(KeyCode::KeyM)
    } else if text_eq(name, "n") {
        Some(KeyCode::KeyN)
    } else if text_eq(name, "o") {
        Some(KeyCode::KeyO)
    } else if text_eq(name, "p") {
        Some(KeyCode::KeyP)
    } else if text_eq(name, "q") {
        Some(KeyCode::KeyQ)
    } else if text_eq(name, "r") {
        Some(KeyCode::KeyR)
    } else if text_eq(name, "s") {
        Some(KeyCode::KeyS)
    } else if text_eq(name, "t") {
        Some(KeyCode::KeyT)
    } else if text_eq(name, "u") {
        Some(KeyCode::KeyU)
    } else if text_eq(name, "v") {
        Some(KeyCode::KeyV)
    } else if text_eq(name, "w") {
        Some(KeyCode::KeyW)
    } else if text_eq(name, "x") {
        Some(KeyCode::KeyX)
    } else if text_eq(name, "y") {
        Some(KeyCode::KeyY)
    } else if text_eq(name, "z") {
        Some(KeyCode::KeyZ)
    } else if text_eq(name, "space") {
        Some(KeyCode::Space)
    } else if text_eq(name, "escape") {
        Some(KeyCode::Escape)
    } else if text_eq(name, "esc") {
        Some(KeyCode::Escape)
    } else if text_eq(name, "enter") {
        Some(KeyCode::Enter)
    } else if text_eq(name, "return") {
        Some(KeyCode::Enter)
    } else if text_eq(name, "tab") {
        Some(KeyCode::Tab)
    } else if text_eq(name, "backspace") {
        Some(KeyCode::Backspace)
    } else if text_eq(name, "delete") {
        Some(KeyCode::Delete)
    } else if text_eq(name, "del") {
        Some(KeyCode::Delete)
    } else if text_eq(name, "insert") {
        Some(KeyCode::Insert)
    } else if text_eq(name, "ins") {
        Some(KeyCode::Insert)
    } else if text_eq(name, "home") {
        Some(KeyCode::Home)
    } else if text_eq(name, "end") {
        Some(KeyCode::End)
    } else if text_eq(name, "pageup") {
        Some(KeyCode::PageUp)
    } else if text_eq(name, "pagedown") {
        Some(KeyCode::PageDown)
    } else if text_eq(name, "up") {
        Some(KeyCode::ArrowUp)
    } else if text_eq(name, "down") {
        Some(KeyCode::ArrowDown)
    } else if text_eq(name, "left") {
        Some(KeyCode::ArrowLeft)
    } else if text_eq(name, "right") {
        Some(KeyCode::ArrowRight)
    } else {
        None
    }
}

/// Looking up a key name, case-insensitively: the key, or the message
/// naming the unknown key.
pub open spec fn key_lookup(key: Seq<char>) -> Result<KeyCode, Seq<char>> {
    match key_code_named(lowercase(key)) {
        Some(c) => Ok(c),
        None => Err("Unknown key: '"@ + key + "'"@),
    }
}

/// Look a key name up, case-insensitively.
pub fn string_to_code(key: &str) -> (r: Result<KeyCode, String>)
    ensures
        match r {
            Ok(c) => key_lookup(key@) == Ok::<KeyCode, Seq<char>>(c),
            Err(e) => key_lookup(key@) == Err::<KeyCode, Seq<char>>(e@),
        },
{
    let lower = to_lowercase(key);
    match key_code_for(&lower) {
        Some(c) => Ok(c),
        None => {
            let mut msg = String::from_str("Unknown key: '");
            msg.append(key);
            msg.append("'");
            Err(msg)
        },
    }
}

// ── Splitting ─────────────────────────────────────────────────────────────────

/// The pieces of `s` between occurrences of `sep`, as `str::split` yields
/// them (the empty text gives one empty piece).
pub open spec fn split_on(s: Seq<char>, sep: char) -> Seq<Seq<char>>
    decreases s.len(),
{
    if s.len() == 0 {
        seq![Seq::<char>::empty()]
    } else {
        let p = split_on(s.drop_last(), sep);
        if s.last() == sep {
            p.push(Seq::<char>::empty())
        } else {
            p.update(p.len() - 1, p.last().push(s.last()))
        }
    }
}

proof fn lemma_split_on_nonempty(s: Seq<char>, sep: char)
    ensures
        split_on(s, sep).len() >= 1,
    decreases s.len(),
{
    if s.len() > 0 {
        lemma_split_on_nonempty(s.drop_last(), sep);
    }
}

/// The characters of each string.
pub open spec fn texts(v: Seq<String>) -> Seq<Seq<char>> {
    v.map_values(|x: String| x@)
}

/// Split `s` at every `+`.
pub fn split_plus(s: &str) -> (r: Vec<String>)
    ensures
        texts(r@) == split_on(s@, '+'),
{
    let n = s.unicode_len();
    let mut pieces: Vec<String> = Vec::new();
    let mut start: usize = 0;
    let mut i: usize = 0;
    proof {
        assert(s@.subrange(0, 0) =~= Seq::<char>::empty());
        assert(texts(pieces@).push(s@.subrange(0, 0)) =~= seq![Seq::<char>::empty()]);
    }
    while i < n
        invariant
            n == s@.len(),
            start <= i <= n,
            split_on(s@.subrange(0, i as int), '+') == texts(pieces@).push(
                s@.subrange(start as int, i as int),
            ),
        decreases n - i,
    {
        let c = s.get_char(i);
        let ghost prefix = s@.subrange(0, i + 1);
        proof {
            assert(prefix.drop_last() =~= s@.subrange(0, i as int));
            assert(prefix.last() == c);
        }
        if c == '+' {
            let ghost old_texts = texts(pieces@);
            let ghost old_start = start;
            let piece = String::from_str(s.substring_char(start, i));
            pieces.push(piece);
            start = i + 1;
            proof {
                assert(texts(pieces@) =~= old_texts.push(s@.subrange(old_start as int, i as int)));
                assert(s@.subrange(start as int, i + 1) =~= Seq::<char>::empty());
                assert(texts(pieces@).push(s@.subrange(start as int, i + 1)) =~= split_on(
                    prefix,
                    '+',
                ));
            }
        } else {
            proof {
                let p = split_on(s@.subrange(0, i as int), '+');
                assert(p.last().push(c) =~= s@.subrange(start as int, i + 1));
                assert(texts(pieces@).push(s@.subrange(start as int, i + 1)) =~= split_on(
                    prefix,
                    '+',
                ));
            }
        }
        i = i + 1;
    }
    let last = String::from_str(s.substring_char(start, n));
    pieces.push(last);
    proof {
        assert(s@.subrange(0, n as int) =~= s@);
        assert(texts(pieces@) =~= split_on(s@, '+'));
    }
    pieces
}

// ── Hotkey grammar ────────────────────────────────────────────────────────────

/// One word of a hotkey read into the modifiers and key seen so far.
pub open spec fn parse_step(m: HotkeyModifiers, code: Option<KeyCode>, word: Seq<char>) -> Result<
    (HotkeyModifiers, Option<KeyCode>),
    Seq<char>,
> {
    if word == "ctrl"@ || word == "control"@ {
        Ok((HotkeyModifiers { control: true, ..m }, code))
    } else if word == "shift"@ {
        Ok((HotkeyModifiers { shift: true, ..m }, code))
    } else if word == "alt"@ {
        Ok((HotkeyModifiers { alt: true, ..m }, code))
    } else if word == "super"@ || word == "meta"@ || word == "win"@ {
        Ok((HotkeyModifiers { super_key: true, ..m }, code))
    } else {
        match key_lookup(word) {
            Ok(c) => Ok((m, Some(c))),
            Err(e) => Err(e),
        }
    }
}

/// The first `k` words read one after the other, stopping at the first
/// unknown key.
pub open spec fn parse_words(words: Seq<Seq<char>>, k: nat) -> Result<
    (HotkeyModifiers, Option<KeyCode>),
    Seq<char>,
>
    decreases k,
{
    if k == 0 {
        Ok((HotkeyModifiers::none(), None))
    } else {
        match parse_words(words, (k - 1) as nat) {
            Ok((m, c)) => parse_step(m, c, words[k - 1]),
            Err(e) => Err(e),
        }
    }
}

/// The words of a hotkey: its `+`-separated pieces, trimmed and lower-cased.
pub open spec fn hotkey_words(key_str: Seq<char>) -> Seq<Seq<char>> {
    split_on(key_str, '+').map_values(|p: Seq<char>| lowercase(trim_spec(p)))
}

/// The hotkey that `key_str` denotes, or the message that rejects it.
pub open spec fn hotkey_parse(key_str: Seq<char>) -> Result<ParsedHotkey, Seq<char>> {
    let words = hotkey_words(key_str);
    match parse_words(words, words.len()) {
        Err(e) => Err(e),
        Ok((m, c)) => match c {
            Some(k) => Ok(ParsedHotkey { modifiers: m, key: k }),
            None => Err("No key code found in '"@ + key_str + "'"@),
        },
    }
}

/// Parse a hotkey string like "F6" or "Ctrl+Shift+S": modifiers may come in
/// any order and repeat; when several keys are named, the last one counts.
pub fn parse_hotkey(key_str: &str) -> (r: Result<ParsedHotkey, String>)
    ensures
        match r {
            Ok(h) => hotkey_parse(key_str@) == Ok::<ParsedHotkey, Seq<char>>(h),
            Err(e) => hotkey_parse(key_str@) == Err::<ParsedHotkey, Seq<char>>(e@),
        },
{
    let parts = split_plus(key_str);
    let ghost words = hotkey_words(key_str@);
    let mut modifiers = HotkeyModifiers { control: false, shift: false, alt: false, super_key: false };
    let mut code: Option<KeyCode> = None;
    let n = parts.len();
    let mut i: usize = 0;
    while i < n
        invariant
            n == parts@.len(),
            i <= n,
            words == hotkey_words(key_str@),
            words.len() == n,
            forall|j: int| 0 <= j < n ==> #[trigger] words[j] == lowercase(trim_spec(parts@[j]@)),
            parse_words(words, i as nat) == Ok::<(HotkeyModifiers, Option<KeyCode>), Seq<char>>(
                (modifiers, code),
            ),
        decreases n - i,
    {
        let trimmed = trim(parts[i].as_str());
        let word = to_lowercase(trimmed.as_str());
        assert(word@ == words[i as int]);
        if text_eq(&word, "ctrl") || text_eq(&word, "control") {
            modifiers.control = true;
        } else if text_eq(&word, "shift") {
            modifiers.shift = true;
        } else if text_eq(&word, "alt") {
            modifiers.alt = true;
        } else if text_eq(&word, "super") || text_eq(&word, "meta") || text_eq(&word, "win") {
            modifiers.super_key = true;
        } else {
            match string_to_code(word.as_str()) {
                Ok(c) => {
                    code = Some(c);
                },
                Err(e) => {
                    proof {
                        assert(parse_words(words, (i + 1) as nat) == Err::<
                            (HotkeyModifiers, Option<KeyCode>),
                            Seq<char>,
                        >(e@));
                        lemma_parse_words_stays_err(words, (i + 1) as nat, n as nat);
                    }
                    return Err(e);
                },
            }
        }
        i = i + 1;
    }
    match code {
        Some(k) => Ok(ParsedHotkey { modifiers, key: k }),
        None => {
            let mut msg = String::from_str("No key code found in '");
            msg.append(key_str);
            msg.append("'");
            Err(msg)
        },
    }
}

proof fn lemma_parse_words_stays_err(words: Seq<Seq<char>>, k: nat, n: nat)
    requires
        k <= n,
        parse_words(words, k) is Err,
    ensures
        parse_words(words, n) == parse_words(words, k),
    decreases n - k,
{
    if k < n {
        lemma_parse_words_stays_err(words, k, (n - 1) as nat);
    }
}

// ── Event dispatch ────────────────────────────────────────────────────────────

/// The action whose registered hotkey has the id of a received event,
/// checking start, stop and panic in that order.
pub fn match_hotkey_event(
    event_id: u32,
    start_id: Option<u32>,
    stop_id: Option<u32>,
    panic_id: Option<u32>,
) -> (r: Option<HotkeyAction>)
    ensures
        r == if start_id == Some(event_id) {
            Some(HotkeyAction::Start)
        } else if stop_id == Some(event_id) {
            Some(HotkeyAction::Stop)
        } else if panic_id == Some(event_id) {
            Some(HotkeyAction::PanicStop)
        } else {
            None::<HotkeyAction>
        },
{
    if let Some(id) = start_id {
        if event_id == id {
            return Some(HotkeyAction::Start);
        }
    }
    if let Some(id) = stop_id {
        if event_id == id {
            return Some(HotkeyAction::Stop);
        }
    }
    if let Some(id) = panic_id {
        if event_id == id {
            return Some(HotkeyAction::PanicStop);
        }
    }
    None
}


// ── Laws of the key names ─────────────────────────────────────────────────────

/// The number of a function key (`F1` is 1, ..., `F12` is 12); 0 for any
/// other key.
pub open spec fn function_key_number(k: KeyCode) -> nat {
    match k {
        KeyCode::F1 => 1,
        KeyCode::F2 => 2,
        KeyCode::F3 => 3,
        KeyCode::F4 => 4,
        KeyCode::F5 => 5,
        KeyCode::F6 => 6,
        KeyCode::F7 => 7,
        KeyCode::F8 => 8,
        KeyCode::F9 => 9,
        KeyCode::F10 => 10,
        KeyCode::F11 => 11,
        KeyCode::F12 => 12,
        _ => 0,
    }
}

/// The letter a letter key types, in lower case; none for any other key.
pub open spec fn letter_of_key(k: KeyCode) -> Option<char> {
    match k {
        KeyCode::KeyA => Some('a'),
        KeyCode::KeyB => Some('b'),
        KeyCode::KeyC => Some('c'),
        KeyCode::KeyD => Some('d'),
        KeyCode::KeyE => Some('e'),
        KeyCode::KeyF => Some('f'),
        KeyCode::KeyG => Some('g'),
        KeyCode::KeyH => Some('h'),
        KeyCode::KeyI => Some('i'),
        KeyCode::KeyJ => Some('j'),
        KeyCode::KeyK => Some('k'),
        KeyCode::KeyL => Some('l'),
        KeyCode::KeyM => Some('m'),
        KeyCode::KeyN => Some('n'),
        KeyCode::KeyO => Some('o'),
        KeyCode::KeyP => Some('p'),
        KeyCode::KeyQ => Some('q'),
        KeyCode::KeyR => Some('r'),
        KeyCode::KeyS => Some('s'),
        KeyCode::KeyT => Some('t'),
        KeyCode::KeyU => Some('u'),
        KeyCode::KeyV => Some('v'),
        KeyCode::KeyW => Some('w'),
        KeyCode::KeyX => Some('x'),
        KeyCode::KeyY => Some('y'),
        KeyCode::KeyZ => Some('z'),
        _ => None,
    }
}

/// The documented alternative spellings of one key: `esc` and `escape`,
/// `return` and `enter`, `del` and `delete`, `ins` and `insert`.
pub open spec fn alias_names(a: Seq<char>, b: Seq<char>) -> bool {
    ||| (a == "esc"@ && b == "escape"@) || (a == "escape"@ && b == "esc"@)
    ||| (a == "return"@ && b == "enter"@) || (a == "enter"@ && b == "return"@)
    ||| (a == "del"@ && b == "delete"@) || (a == "delete"@ && b == "del"@)
    ||| (a == "ins"@ && b == "insert"@) || (a == "insert"@ && b == "ins"@)
}

/// The main name of each key.
spec fn main_key_name(k: KeyCode) -> Seq<char> {
    match k {
        KeyCode::F1 => "f1"@,
        KeyCode::F2 => "f2"@,
        KeyCode::F3 => "f3"@,
        KeyCode::F4 => "f4"@,
        KeyCode::F5 => "f5"@,
        KeyCode::F6 => "f6"@,
        KeyCode::F7 => "f7"@,
        KeyCode::F8 => "f8"@,
        KeyCode::F9 => "f9"@,
        KeyCode::F10 => "f10"@,
        KeyCode::F11 => "f11"@,
        KeyCode::F12 => "f12"@,
        KeyCode::KeyA => "a"@,
        KeyCode::KeyB => "b"@,
        KeyCode::KeyC => "c"@,
        KeyCode::KeyD => "d"@,
        KeyCode::KeyE => "e"@,
        KeyCode::KeyF => "f"@,
        KeyCode::KeyG => "g"@,
        KeyCode::KeyH => "h"@,
        KeyCode::KeyI => "i"@,
        KeyCode::KeyJ => "j"@,
        KeyCode::KeyK => "k"@,
        KeyCode::KeyL => "l"@,
        KeyCode::KeyM => "m"@,
        KeyCode::KeyN => "n"@,
        KeyCode::KeyO => "o"@,
        KeyCode::KeyP => "p"@,
        KeyCode::KeyQ => "q"@,
        KeyCode::KeyR => "r"@,
        KeyCode::KeyS => "s"@,
        KeyCode::KeyT => "t"@,
        KeyCode::KeyU => "u"@,
        KeyCode::KeyV => "v"@,
        KeyCode::KeyW => "w"@,
        KeyCode::KeyX => "x"@,
        KeyCode::KeyY => "y"@,
        KeyCode::KeyZ => "z"@,
        KeyCode::Space => "space"@,
        KeyCode::Escape => "escape"@,
        KeyCode::Enter => "enter"@,
        KeyCode::Tab => "tab"@,
        KeyCode::Backspace => "backspace"@,
        KeyCode::Delete => "delete"@,
        KeyCode::Insert => "insert"@,
        KeyCode::Home => "home"@,
        KeyCode::End => "end"@,
        KeyCode::PageUp => "pageup"@,
        KeyCode::PageDown => "pagedown"@,
        KeyCode::ArrowUp => "up"@,
        KeyCode::ArrowDown => "down"@,
        KeyCode::ArrowLeft => "left"@,
        KeyCode::ArrowRight => "right"@,
    }
}

/// The second name of a key that has one.
spec fn second_key_name(k: KeyCode) -> Option<Seq<char>> {
    match k {
        KeyCode::Escape => Some("esc"@),
        KeyCode::Enter => Some("return"@),
        KeyCode::Delete => Some("del"@),
        KeyCode::Insert => Some("ins"@),
        _ => None,
    }
}

/// A name that resolves to a key is that key's main or second name.
proof fn lemma_key_name_is_listed(name: Seq<char>)
    requires
        key_code_named(name) is Some,
    ensures
        name == main_key_name(key_code_named(name).unwrap()) || second_key_name(
            key_code_named(name).unwrap(),
        ) == Some(name),
{
}

/// Distinct key names name distinct keys, except the documented aliases
/// (`esc`/`escape`, `return`/`enter`, `del`/`delete`, `ins`/`insert`).
pub proof fn lemma_key_names_distinct(a: Seq<char>, b: Seq<char>)
    requires
        key_code_named(a) is Some,
        key_code_named(a) == key_code_named(b),
    ensures
        a == b || alias_names(a, b),
{
    lemma_key_name_is_listed(a);
    lemma_key_name_is_listed(b);
}

/// The name `f<n>`, for `n` from 1 to 12, names the function key number `n`.
pub proof fn lemma_function_key_names(n: nat)
    requires
        1 <= n <= 12,
    ensures
        key_code_named(seq!['f'] + decimal_text(n)) matches Some(k) && function_key_number(k) == n,
{
    reveal_strlit("f1");
    reveal_strlit("f2");
    reveal_strlit("f3");
    reveal_strlit("f4");
    reveal_strlit("f5");
    reveal_strlit("f6");
    reveal_strlit("f7");
    reveal_strlit("f8");
    reveal_strlit("f9");
    reveal_strlit("f10");
    reveal_strlit("f11");
    reveal_strlit("f12");
    reveal_strlit("0");
    reveal_strlit("1");
    reveal_strlit("2");
    reveal_strlit("3");
    reveal_strlit("4");
    reveal_strlit("5");
    reveal_strlit("6");
    reveal_strlit("7");
    reveal_strlit("8");
    reveal_strlit("9");
    if n == 1 {
        assert(decimal_text(1) =~= seq!['1']);
        assert(seq!['f'] + decimal_text(1) =~= "f1"@);
        assert(key_code_named("f1"@) == Some(KeyCode::F1));
    }
    if n == 2 {
        assert(decimal_text(2) =~= seq!['2']);
        assert(seq!['f'] + decimal_text(2) =~= "f2"@);
        assert("f2"@[1] != "f1"@[1]);
        assert(key_code_named("f2"@) == Some(KeyCode::F2));
    }
    if n == 3 {
        assert(decimal_text(3) =~= seq!['3']);
        assert(seq!['f'] + decimal_text(3) =~= "f3"@);
        assert("f3"@[1] != "f1"@[1]);
        assert("f3"@[1] != "f2"@[1]);
        assert(key_code_named("f3"@) == Some(KeyCode::F3));
    }
    if n == 4 {
        assert(decimal_text(4) =~= seq!['4']);
        assert(seq!['f'] + decimal_text(4) =~= "f4"@);
        assert("f4"@[1] != "f1"@[1]);
        assert("f4"@[1] != "f2"@[1]);
        assert("f4"@[1] != "f3"@[1]);
        assert(key_code_named("f4"@) == Some(KeyCode::F4));
    }
    if n == 5 {
        assert(decimal_text(5) =~= seq!['5']);
        assert(seq!['f'] + decimal_text(5) =~= "f5"@);
        assert("f5"@[1] != "f1"@[1]);
        assert("f5"@[1] != "f2"@[1]);
        assert("f5"@[1] != "f3"@[1]);
        assert("f5"@[1] != "f4"@[1]);
        assert(key_code_named("f5"@) == Some(KeyCode::F5));
    }
    if n == 6 {
        assert(decimal_text(6) =~= seq!['6']);
        assert(seq!['f'] + decimal_text(6) =~= "f6"@);
        assert("f6"@[1] != "f1"@[1]);
        assert("f6"@[1] != "f2"@[1]);
        assert("f6"@[1] != "f3"@[1]);
        assert("f6"@[1] != "f4"@[1]);
        assert("f6"@[1] != "f5"@[1]);
        assert(key_code_named("f6"@) == Some(KeyCode::F6));
    }
    if n == 7 {
        assert(decimal_text(7) =~= seq!['7']);
        assert(seq!['f'] + decimal_text(7) =~= "f7"@);
        assert("f7"@[1] != "f1"@[1]);
        assert("f7"@[1] != "f2"@[1]);
        assert("f7"@[1] != "f3"@[1]);
        assert("f7"@[1] != "f4"@[1]);
        assert("f7"@[1] != "f5"@[1]);
        assert("f7"@[1] != "f6"@[1]);
        assert(key_code_named("f7"@) == Some(KeyCode::F7));
    }
    if n == 8 {
        assert(decimal_text(8) =~= seq!['8']);
        assert(seq!['f'] + decimal_text(8) =~= "f8"@);
        assert("f8"@[1] != "f1"@[1]);
        assert("f8"@[1] != "f2"@[1]);
        assert("f8"@[1] != "f3"@[1]);
        assert("f8"@[1] != "f4"@[1]);
        assert("f8"@[1] != "f5"@[1]);
        assert("f8"@[1] != "f6"@[1]);
        assert("f8"@[1] != "f7"@[1]);
        assert(key_code_named("f8"@) == Some(KeyCode::F8));
    }
    if n == 9 {
        assert(decimal_text(9) =~= seq!['9']);
        assert(seq!['f'] + decimal_text(9) =~= "f9"@);
        assert("f9"@[1] != "f1"@[1]);
        assert("f9"@[1] != "f2"@[1]);
        assert("f9"@[1] != "f3"@[1]);
        assert("f9"@[1] != "f4"@[1]);
        assert("f9"@[1] != "f5"@[1]);
        assert("f9"@[1] != "f6"@[1]);
        assert("f9"@[1] != "f7"@[1]);
        assert("f9"@[1] != "f8"@[1]);
        assert(key_code_named("f9"@) == Some(KeyCode::F9));
    }
    if n == 10 {
        assert(decimal_text(10) == decimal_text(1) + digit_text(0));
        assert(decimal_text(10) =~= seq!['1', '0']);
        assert(seq!['f'] + decimal_text(10) =~= "f10"@);
        assert(key_code_named("f10"@) == Some(KeyCode::F10));
    }
    if n == 11 {
        assert(decimal_text(11) == decimal_text(1) + digit_text(1));
        assert(decimal_text(11) =~= seq!['1', '1']);
        assert(seq!['f'] + decimal_text(11) =~= "f11"@);
        assert("f11"@[2] != "f10"@[2]);
        assert(key_code_named("f11"@) == Some(KeyCode::F11));
    }
    if n == 12 {
        assert(decimal_text(12) == decimal_text(1) + digit_text(2));
        assert(decimal_text(12) =~= seq!['1', '2']);
        assert(seq!['f'] + decimal_text(12) =~= "f12"@);
        assert("f12"@[2] != "f10"@[2]);
        assert("f12"@[2] != "f11"@[2]);
        assert(key_code_named("f12"@) == Some(KeyCode::F12));
    }
}

/// A single letter names the key that types it.
pub proof fn lemma_letter_key_names(c: char)
    requires
        'a' <= c <= 'z',
    ensures
        key_code_named(seq![c]) matches Some(k) && letter_of_key(k) == Some(c),
{
    reveal_strlit("f1");
    reveal_strlit("f2");
    reveal_strlit("f3");
    reveal_strlit("f4");
    reveal_strlit("f5");
    reveal_strlit("f6");
    reveal_strlit("f7");
    reveal_strlit("f8");
    reveal_strlit("f9");
    reveal_strlit("f10");
    reveal_strlit("f11");
    reveal_strlit("f12");
    reveal_strlit("a");
    reveal_strlit("b");
    reveal_strlit("c");
    reveal_strlit("d");
    reveal_strlit("e");
    reveal_strlit("f");
    reveal_strlit("g");
    reveal_strlit("h");
    reveal_strlit("i");
    reveal_strlit("j");
    reveal_strlit("k");
    reveal_strlit("l");
    reveal_strlit("m");
    reveal_strlit("n");
    reveal_strlit("o");
    reveal_strlit("p");
    reveal_strlit("q");
    reveal_strlit("r");
    reveal_strlit("s");
    reveal_strlit("t");
    reveal_strlit("u");
    reveal_strlit("v");
    reveal_strlit("w");
    reveal_strlit("x");
    reveal_strlit("y");
    reveal_strlit("z");
    if c == 'a' {
        assert(seq![c] =~= "a"@);
        assert(key_code_named("a"@) == Some(KeyCode::KeyA));
    }
    if c == 'b' {
        assert(seq![c] =~= "b"@);
        assert("b"@[0] != "a"@[0]);
        assert(key_code_named("b"@) == Some(KeyCode::KeyB));
    }
    if c == 'c' {
        assert(seq![c] =~= "c"@);
        assert("c"@[0] != "a"@[0]);
        assert("c"@[0] != "b"@[0]);
        assert(key_code_named("c"@) == Some(KeyCode::KeyC));
    }
    if c == 'd' {
        assert(seq![c] =~= "d"@);
        assert("d"@[0] != "a"@[0]);
        assert("d"@[0] != "b"@[0]);
        assert("d"@[0] != "c"@[0]);
        assert(key_code_named("d"@) == Some(KeyCode::KeyD));
    }
    if c == 'e' {
        assert(seq![c] =~= "e"@);
        assert("e"@[0] != "a"@[0]);
        assert("e"@[0] != "b"@[0]);
        assert("e"@[0] != "c"@[0]);
        assert("e"@[0] != "d"@[0]);
        assert(key_code_named("e"@) == Some(KeyCode::KeyE));
    }
    if c == 'f' {
        assert(seq![c] =~= "f"@);
        assert("f"@[0] != "a"@[0]);
        assert("f"@[0] != "b"@[0]);
        assert("f"@[0] != "c"@[0]);
        assert("f"@[0] != "d"@[0]);
        assert("f"@[0] != "e"@[0]);
        assert(key_code_named("f"@) == Some(KeyCode::KeyF));
    }
    if c == 'g' {
        assert(seq![c] =~= "g"@);
        assert("g"@[0] != "a"@[0]);
        assert("g"@[0] != "b"@[0]);
        assert("g"@[0] != "c"@[0]);
        assert("g"@[0] != "d"@[0]);
        assert("g"@[0] != "e"@[0]);
        assert("g"@[0] != "f"@[0]);
        assert(key_code_named("g"@) == Some(KeyCode::KeyG));
    }
    if c == 'h' {
        assert(seq![c] =~= "h"@);
        assert("h"@[0] != "a"@[0]);
        assert("h"@[0] != "b"@[0]);
        assert("h"@[0] != "c"@[0]);
        assert("h"@[0] != "d"@[0]);
        assert("h"@[0] != "e"@[0]);
        assert("h"@[0] != "f"@[0]);
        assert("h"@[0] != "g"@[0]);
        assert(key_code_named("h"@) == Some(KeyCode::KeyH));
    }
    if c == 'i' {
        assert(seq![c] =~= "i"@);
        assert("i"@[0] != "a"@[0]);
        assert("i"@[0] != "b"@[0]);
        assert("i"@[0] != "c"@[0]);
        assert("i"@[0] != "d"@[0]);
        assert("i"@[0] != "e"@[0]);
        assert("i"@[0] != "f"@[0]);
        assert("i"@[0] != "g"@[0]);
        assert("i"@[0] != "h"@[0]);
        assert(key_code_named("i"@) == Some(KeyCode::KeyI));
    }
    if c == 'j' {
        assert(seq![c] =~= "j"@);
        assert("j"@[0] != "a"@[0]);
        assert("j"@[0] != "b"@[0]);
        assert("j"@[0] != "c"@[0]);
        assert("j"@[0] != "d"@[0]);
        assert("j"@[0] != "e"@[0]);
        assert("j"@[0] != "f"@[0]);
        assert("j"@[0] != "g"@[0]);
        assert("j"@[0] != "h"@[0]);
        assert("j"@[0] != "i"@[0]);
        assert(key_code_named("j"@) == Some(KeyCode::KeyJ));
    }
    if c == 'k' {
        assert(seq![c] =~= "k"@);
        assert("k"@[0] != "a"@[0]);
        assert("k"@[0] != "b"@[0]);
        assert("k"@[0] != "c"@[0]);
        assert("k"@[0] != "d"@[0]);
        assert("k"@[0] != "e"@[0]);
        assert("k"@[0] != "f"@[0]);
        assert("k"@[0] != "g"@[0]);
        assert("k"@[0] != "h"@[0]);
        assert("k"@[0] != "i"@[0]);
        assert("k"@[0] != "j"@[0]);
        assert(key_code_named("k"@) == Some(KeyCode::KeyK));
    }
    if c == 'l' {
        assert(seq![c] =~= "l"@);
        assert("l"@[0] != "a"@[0]);
        assert("l"@[0] != "b"@[0]);
        assert("l"@[0] != "c"@[0]);
        assert("l"@[0] != "d"@[0]);
        assert("l"@[0] != "e"@[0]);
        assert("l"@[0] != "f"@[0]);
        assert("l"@[0] != "g"@[0]);
        assert("l"@[0] != "h"@[0]);
        assert("l"@[0] != "i"@[0]);
        assert("l"@[0] != "j"@[0]);
        assert("l"@[0] != "k"@[0]);
        assert(key_code_named("l"@) == Some(KeyCode::KeyL));
    }
    if c == 'm' {
        assert(seq![c] =~= "m"@);
        assert("m"@[0] != "a"@[0]);
        assert("m"@[0] != "b"@[0]);
        assert("m"@[0] != "c"@[0]);
        assert("m"@[0] != "d"@[0]);
        assert("m"@[0] != "e"@[0]);
        assert("m"@[0] != "f"@[0]);
        assert("m"@[0] != "g"@[0]);
        assert("m"@[0] != "h"@[0]);
        assert("m"@[0] != "i"@[0]);
        assert("m"@[0] != "j"@[0]);
        assert("m"@[0] != "k"@[0]);
        assert("m"@[0] != "l"@[0]);
        assert(key_code_named("m"@) == Some(KeyCode::KeyM));
    }
    if c == 'n' {
        assert(seq![c] =~= "n"@);
        assert("n"@[0] != "a"@[0]);
        assert("n"@[0] != "b"@[0]);
        assert("n"@[0] != "c"@[0]);
        assert("n"@[0] != "d"@[0]);
        assert("n"@[0] != "e"@[0]);
        assert("n"@[0] != "f"@[0]);
        assert("n"@[0] != "g"@[0]);
        assert("n"@[0] != "h"@[0]);
        assert("n"@[0] != "i"@[0]);
        assert("n"@[0] != "j"@[0]);
        assert("n"@[0] != "k"@[0]);
        assert("n"@[0] != "l"@[0]);
        assert("n"@[0] != "m"@[0]);
        assert(key_code_named("n"@) == Some(KeyCode::KeyN));
    }
    if c == 'o' {
        assert(seq![c] =~= "o"@);
        assert("o"@[0] != "a"@[0]);
        assert("o"@[0] != "b"@[0]);
        assert("o"@[0] != "c"@[0]);
        assert("o"@[0] != "d"@[0]);
        assert("o"@[0] != "e"@[0]);
        assert("o"@[0] != "f"@[0]);
        assert("o"@[0] != "g"@[0]);
        assert("o"@[0] != "h"@[0]);
        assert("o"@[0] != "i"@[0]);
        assert("o"@[0] != "j"@[0]);
        assert("o"@[0] != "k"@[0]);
        assert("o"@[0] != "l"@[0]);
        assert("o"@[0] != "m"@[0]);
        assert("o"@[0] != "n"@[0]);
        assert(key_code_named("o"@) == Some(KeyCode::KeyO));
    }
    if c == 'p' {
        assert(seq![c] =~= "p"@);
        assert("p"@[0] != "a"@[0]);
        assert("p"@[0] != "b"@[0]);
        assert("p"@[0] != "c"@[0]);
        assert("p"@[0] != "d"@[0]);
        assert("p"@[0] != "e"@[0]);
        assert("p"@[0] != "f"@[0]);
        assert("p"@[0] != "g"@[0]);
        assert("p"@[0] != "h"@[0]);
        assert("p"@[0] != "i"@[0]);
        assert("p"@[0] != "j"@[0]);
        assert("p"@[0] != "k"@[0]);
        assert("p"@[0] != "l"@[0]);
        assert("p"@[0] != "m"@[0]);
        assert("p"@[0] != "n"@[0]);
        assert("p"@[0] != "o"@[0]);
        assert(key_code_named("p"@) == Some(KeyCode::KeyP));
    }
    if c == 'q' {
        assert(seq![c] =~= "q"@);
        assert("q"@[0] != "a"@[0]);
        assert("q"@[0] != "b"@[0]);
        assert("q"@[0] != "c"@[0]);
        assert("q"@[0] != "d"@[0]);
        assert("q"@[0] != "e"@[0]);
        assert("q"@[0] != "f"@[0]);
        assert("q"@[0] != "g"@[0]);
        assert("q"@[0] != "h"@[0]);
        assert("q"@[0] != "i"@[0]);
        assert("q"@[0] != "j"@[0]);
        assert("q"@[0] != "k"@[0]);
        assert("q"@[0] != "l"@[0]);
        assert("q"@[0] != "m"@[0]);
        assert("q"@[0] != "n"@[0]);
        assert("q"@[0] != "o"@[0]);
        assert("q"@[0] != "p"@[0]);
        assert(key_code_named("q"@) == Some(KeyCode::KeyQ));
    }
    if c == 'r' {
        assert(seq![c] =~= "r"@);
        assert("r"@[0] != "a"@[0]);
        assert("r"@[0] != "b"@[0]);
        assert("r"@[0] != "c"@[0]);
        assert("r"@[0] != "d"@[0]);
        assert("r"@[0] != "e"@[0]);
        assert("r"@[0] != "f"@[0]);
        assert("r"@[0] != "g"@[0]);
        assert("r"@[0] != "h"@[0]);
        assert("r"@[0] != "i"@[0]);
        assert("r"@[0] != "j"@[0]);
        assert("r"@[0] != "k"@[0]);
        assert("r"@[0] != "l"@[0]);
        assert("r"@[0] != "m"@[0]);
        assert("r"@[0] != "n"@[0]);
        assert("r"@[0] != "o"@[0]);
        assert("r"@[0] != "p"@[0]);
        assert("r"@[0] != "q"@[0]);
        assert(key_code_named("r"@) == Some(KeyCode::KeyR));
    }
    if c == 's' {
        assert(seq![c] =~= "s"@);
        assert("s"@[0] != "a"@[0]);
        assert("s"@[0] != "b"@[0]);
        assert("s"@[0] != "c"@[0]);
        assert("s"@[0] != "d"@[0]);
        assert("s"@[0] != "e"@[0]);
        assert("s"@[0] != "f"@[0]);
        assert("s"@[0] != "g"@[0]);
        assert("s"@[0] != "h"@[0]);
        assert("s"@[0] != "i"@[0]);
        assert("s"@[0] != "j"@[0]);
        assert("s"@[0] != "k"@[0]);
        assert("s"@[0] != "l"@[0]);
        assert("s"@[0] != "m"@[0]);
        assert("s"@[0] != "n"@[0]);
        assert("s"@[0] != "o"@[0]);
        assert("s"@[0] != "p"@[0]);
        assert("s"@[0] != "q"@[0]);
        assert("s"@[0] != "r"@[0]);
        assert(key_code_named("s"@) == Some(KeyCode::KeyS));
    }
    if c == 't' {
        assert(seq![c] =~= "t"@);
        assert("t"@[0] != "a"@[0]);
        assert("t"@[0] != "b"@[0]);
        assert("t"@[0] != "c"@[0]);
        assert("t"@[0] != "d"@[0]);
        assert("t"@[0] != "e"@[0]);
        assert("t"@[0] != "f"@[0]);
        assert("t"@[0] != "g"@[0]);
        assert("t"@[0] != "h"@[0]);
        assert("t"@[0] != "i"@[0]);
        assert("t"@[0] != "j"@[0]);
        assert("t"@[0] != "k"@[0]);
        assert("t"@[0] != "l"@[0]);
        assert("t"@[0] != "m"@[0]);
        assert("t"@[0] != "n"@[0]);
        assert("t"@[0] != "o"@[0]);
        assert("t"@[0] != "p"@[0]);
        assert("t"@[0] != "q"@[0]);
        assert("t"@[0] != "r"@[0]);
        assert("t"@[0] != "s"@[0]);
        assert(key_code_named("t"@) == Some(KeyCode::KeyT));
    }
    if c == 'u' {
        assert(seq![c] =~= "u"@);
        assert("u"@[0] != "a"@[0]);
        assert("u"@[0] != "b"@[0]);
        assert("u"@[0] != "c"@[0]);
        assert("u"@[0] != "d"@[0]);
        assert("u"@[0] != "e"@[0]);
        assert("u"@[0] != "f"@[0]);
        assert("u"@[0] != "g"@[0]);
        assert("u"@[0] != "h"@[0]);
        assert("u"@[0] != "i"@[0]);
        assert("u"@[0] != "j"@[0]);
        assert("u"@[0] != "k"@[0]);
        assert("u"@[0] != "l"@[0]);
        assert("u"@[0] != "m"@[0]);
        assert("u"@[0] != "n"@[0]);
        assert("u"@[0] != "o"@[0]);
        assert("u"@[0] != "p"@[0]);
        assert("u"@[0] != "q"@[0]);
        assert("u"@[0] != "r"@[0]);
        assert("u"@[0] != "s"@[0]);
        assert("u"@[0] != "t"@[0]);
        assert(key_code_named("u"@) == Some(KeyCode::KeyU));
    }
    if c == 'v' {
        assert(seq![c] =~= "v"@);
        assert("v"@[0] != "a"@[0]);
        assert("v"@[0] != "b"@[0]);
        assert("v"@[0] != "c"@[0]);
        assert("v"@[0] != "d"@[0]);
        assert("v"@[0] != "e"@[0]);
        assert("v"@[0] != "f"@[0]);
        assert("v"@[0] != "g"@[0]);
        assert("v"@[0] != "h"@[0]);
        assert("v"@[0] != "i"@[0]);
        assert("v"@[0] != "j"@[0]);
        assert("v"@[0] != "k"@[0]);
        assert("v"@[0] != "l"@[0]);
        assert("v"@[0] != "m"@[0]);
        assert("v"@[0] != "n"@[0]);
        assert("v"@[0] != "o"@[0]);
        assert("v"@[0] != "p"@[0]);
        assert("v"@[0] != "q"@[0]);
        assert("v"@[0] != "r"@[0]);
        assert("v"@[0] != "s"@[0]);
        assert("v"@[0] != "t"@[0]);
        assert("v"@[0] != "u"@[0]);
        assert(key_code_named("v"@) == Some(KeyCode::KeyV));
    }
    if c == 'w' {
        assert(seq![c] =~= "w"@);
        assert("w"@[0] != "a"@[0]);
        assert("w"@[0] != "b"@[0]);
        assert("w"@[0] != "c"@[0]);
        assert("w"@[0] != "d"@[0]);
        assert("w"@[0] != "e"@[0]);
        assert("w"@[0] != "f"@[0]);
        assert("w"@[0] != "g"@[0]);
        assert("w"@[0] != "h"@[0]);
        assert("w"@[0] != "i"@[0]);
        assert("w"@[0] != "j"@[0]);
        assert("w"@[0] != "k"@[0]);
        assert("w"@[0] != "l"@[0]);
        assert("w"@[0] != "m"@[0]);
        assert("w"@[0] != "n"@[0]);
        assert("w"@[0] != "o"@[0]);
        assert("w"@[0] != "p"@[0]);
        assert("w"@[0] != "q"@[0]);
        assert("w"@[0] != "r"@[0]);
        assert("w"@[0] != "s"@[0]);
        assert("w"@[0] != "t"@[0]);
        assert("w"@[0] != "u"@[0]);
        assert("w"@[0] != "v"@[0]);
        assert(key_code_named("w"@) == Some(KeyCode::KeyW));
    }
    if c == 'x' {
        assert(seq![c] =~= "x"@);
        assert("x"@[0] != "a"@[0]);
        assert("x"@[0] != "b"@[0]);
        assert("x"@[0] != "c"@[0]);
        assert("x"@[0] != "d"@[0]);
        assert("x"@[0] != "e"@[0]);
        assert("x"@[0] != "f"@[0]);
        assert("x"@[0] != "g"@[0]);
        assert("x"@[0] != "h"@[0]);
        assert("x"@[0] != "i"@[0]);
        assert("x"@[0] != "j"@[0]);
        assert("x"@[0] != "k"@[0]);
        assert("x"@[0] != "l"@[0]);
        assert("x"@[0] != "m"@[0]);
        assert("x"@[0] != "n"@[0]);
        assert("x"@[0] != "o"@[0]);
        assert("x"@[0] != "p"@[0]);
        assert("x"@[0] != "q"@[0]);
        assert("x"@[0] != "r"@[0]);
        assert("x"@[0] != "s"@[0]);
        assert("x"@[0] != "t"@[0]);
        assert("x"@[0] != "u"@[0]);
        assert("x"@[0] != "v"@[0]);
        assert("x"@[0] != "w"@[0]);
        assert(key_code_named("x"@) == Some(KeyCode::KeyX));
    }
    if c == 'y' {
        assert(seq![c] =~= "y"@);
        assert("y"@[0] != "a"@[0]);
        assert("y"@[0] != "b"@[0]);
        assert("y"@[0] != "c"@[0]);
        assert("y"@[0] != "d"@[0]);
        assert("y"@[0] != "e"@[0]);
        assert("y"@[0] != "f"@[0]);
        assert("y"@[0] != "g"@[0]);
        assert("y"@[0] != "h"@[0]);
        assert("y"@[0] != "i"@[0]);
        assert("y"@[0] != "j"@[0]);
        assert("y"@[0] != "k"@[0]);
        assert("y"@[0] != "l"@[0]);
        assert("y"@[0] != "m"@[0]);
        assert("y"@[0] != "n"@[0]);
        assert("y"@[0] != "o"@[0]);
        assert("y"@[0] != "p"@[0]);
        assert("y"@[0] != "q"@[0]);
        assert("y"@[0] != "r"@[0]);
        assert("y"@[0] != "s"@[0]);
        assert("y"@[0] != "t"@[0]);
        assert("y"@[0] != "u"@[0]);
        assert("y"@[0] != "v"@[0]);
        assert("y"@[0] != "w"@[0]);
        assert("y"@[0] != "x"@[0]);
        assert(key_code_named("y"@) == Some(KeyCode::KeyY));
    }
    if c == 'z' {
        assert(seq![c] =~= "z"@);
        assert("z"@[0] != "a"@[0]);
        assert("z"@[0] != "b"@[0]);
        assert("z"@[0] != "c"@[0]);
        assert("z"@[0] != "d"@[0]);
        assert("z"@[0] != "e"@[0]);
        assert("z"@[0] != "f"@[0]);
        assert("z"@[0] != "g"@[0]);
        assert("z"@[0] != "h"@[0]);
        assert("z"@[0] != "i"@[0]);
        assert("z"@[0] != "j"@[0]);
        assert("z"@[0] != "k"@[0]);
        assert("z"@[0] != "l"@[0]);
        assert("z"@[0] != "m"@[0]);
        assert("z"@[0] != "n"@[0]);
        assert("z"@[0] != "o"@[0]);
        assert("z"@[0] != "p"@[0]);
        assert("z"@[0] != "q"@[0]);
        assert("z"@[0] != "r"@[0]);
        assert("z"@[0] != "s"@[0]);
        assert("z"@[0] != "t"@[0]);
        assert("z"@[0] != "u"@[0]);
        assert("z"@[0] != "v"@[0]);
        assert("z"@[0] != "w"@[0]);
        assert("z"@[0] != "x"@[0]);
        assert("z"@[0] != "y"@[0]);
        assert(key_code_named("z"@) == Some(KeyCode::KeyZ));
    }
}

} // verus!
