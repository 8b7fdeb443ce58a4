//! Global hotkeys written as text, such as `Ctrl+Shift+B`: the modifiers
//! and key codes they are made of, and the parser.

use crate::text::{lowercase, to_lowercase, trim, trimmed};
use vstd::prelude::*;
use vstd::string::*;

verus! {

/// A set of modifier keys.
#[derive(Clone, Copy, Debug, PartialEq, Eq, Structural)]
pub struct Modifiers {
    pub alt: bool,
    pub control: bool,
    pub shift: bool,
    pub meta: bool,
}

/// The keys a hotkey can end in.
#[derive(Clone, Copy, Debug, PartialEq, Eq, Structural)]
pub enum Code {
    Backquote,
    KeyA,
    KeyB,
    KeyC,
    KeyD,
    KeyE,
    KeyF,
    KeyG,
    KeyH,
    KeyI,
    KeyJ,
    KeyK,
    KeyL,
    KeyM,
    KeyN,
    KeyO,
    KeyP,
    KeyQ,
    KeyR,
    KeyS,
    KeyT,
    KeyU,
    KeyV,
    KeyW,
    KeyX,
    KeyY,
    KeyZ,
    Digit0,
    Digit1,
    Digit2,
    Digit3,
    Digit4,
    Digit5,
    Digit6,
    Digit7,
    Digit8,
    Digit9,
}

/// A key together with the modifiers held while it is pressed.
#[derive(Clone, Copy, Debug, PartialEq, Eq, Structural)]
pub struct Shortcut {
    pub mods: Modifiers,
    pub key: Code,
}

/// What one `+`-separated part of a hotkey stands for.
#[derive(Clone, Copy, Debug, PartialEq, Eq, Structural)]
pub enum PartKind {
    Modifier(Modifiers),
    Key(Code),
    Unsupported,
}

impl Modifiers {
    /// The modifiers that are in `self` or in `other`.
    pub open spec fn spec_union(self, other: Modifiers) -> Modifiers {
        Modifiers {
            alt: self.alt || other.alt,
            control: self.control || other.control,
            shift: self.shift || other.shift,
            meta: self.meta || other.meta,
        }
    }

    /// Every modifier of `other` is in `self`.
    pub open spec fn spec_contains(self, other: Modifiers) -> bool {
        &&& other.alt ==> self.alt
        &&& other.control ==> self.control
        &&& other.shift ==> self.shift
        &&& other.meta ==> self.meta
    }

    /// No modifier.
    pub fn empty() -> (r: Modifiers)
        ensures
            r == (Modifiers { alt: false, control: false, shift: false, meta: false }),
    {
        Modifiers { alt: false, control: false, shift: false, meta: false }
    }

    /// The Alt key alone.
    pub fn alt() -> (r: Modifiers)
        ensures
            r == (Modifiers { alt: true, control: false, shift: false, meta: false }),
    {
        Modifiers { alt: true, control: false, shift: false, meta: false }
    }

    /// The Control key alone.
    pub fn control() -> (r: Modifiers)
        ensures
            r == (Modifiers { alt: false, control: true, shift: false, meta: false }),
    {
        Modifiers { alt: false, control: true, shift: false, meta: false }
    }

    /// The Shift key alone.
    pub fn shift() -> (r: Modifiers)
        ensures
            r == (Modifiers { alt: false, control: false, shift: true, meta: false }),
    {
        Modifiers { alt: false, control: false, shift: true, meta: false }
    }

    /// The Super key (Command, Windows) alone.
    pub fn meta() -> (r: Modifiers)
        ensures
            r == (Modifiers { alt: false, control: false, shift: false, meta: true }),
    {
        Modifiers { alt: false, control: false, shift: false, meta: true }
    }

    /// The modifiers that are in `self` or in `other`.
    pub fn union(self, other: Modifiers) -> (r: Modifiers)
        ensures
            r == self.spec_union(other),
    {
        Modifiers {
            alt: self.alt || other.alt,
            control: self.control || other.control,
            shift: self.shift || other.shift,
            meta: self.meta || other.meta,
        }
    }

    /// Adds the modifiers of `other`.
    pub fn insert(&mut self, other: Modifiers)
        ensures
            *final(self) == old(self).spec_union(other),
    {
        *self = self.union(other);
    }

    /// Whether every modifier of `other` is in `self`.
    pub fn contains(&self, other: Modifiers) -> (r: bool)
        ensures
            r == self.spec_contains(other),
    {
        (!other.alt || self.alt) && (!other.control || self.control) && (!other.shift
            || self.shift) && (!other.meta || self.meta)
    }
}

/// The key that a single character names: the backquote, an upper-case
/// letter or a digit.
pub open spec fn spec_code_for(c: char) -> Option<Code> {
    match c {
        '`' => Some(Code::Backquote),
        'A' => Some(Code::KeyA),
        'B' => Some(Code::KeyB),
        'C' => Some(Code::KeyC),
        'D' => Some(Code::KeyD),
        'E' => Some(Code::KeyE),
        'F' => Some(Code::KeyF),
        'G' => Some(Code::KeyG),
        'H' => Some(Code::KeyH),
        'I' => Some(Code::KeyI),
        'J' => Some(Code::KeyJ),
        'K' => Some(Code::KeyK),
        'L' => Some(Code::KeyL),
        'M' => Some(Code::KeyM),
        'N' => Some(Code::KeyN),
        'O' => Some(Code::KeyO),
        'P' => Some(Code::KeyP),
        'Q' => Some(Code::KeyQ),
        'R' => Some(Code::KeyR),
        'S' => Some(Code::KeyS),
        'T' => Some(Code::KeyT),
        'U' => Some(Code::KeyU),
        'V' => Some(Code::KeyV),
        'W' => Some(Code::KeyW),
        'X' => Some(Code::KeyX),
        'Y' => Some(Code::KeyY),
        'Z' => Some(Code::KeyZ),
        '0' => Some(Code::Digit0),
        '1' => Some(Code::Digit1),
        '2' => Some(Code::Digit2),
        '3' => Some(Code::Digit3),
        '4' => Some(Code::Digit4),
        '5' => Some(Code::Digit5),
        '6' => Some(Code::Digit6),
        '7' => Some(Code::Digit7),
        '8' => Some(Code::Digit8),
        '9' => Some(Code::Digit9),
        _ => None,
    }
}

/// The modifier that a lower-case name stands for.
pub open spec fn spec_modifier_for(lowered: Seq<char>) -> Option<Modifiers> {
    if lowered == "cmd"@ || lowered == "super"@ {
        Some(Modifiers { alt: false, control: false, shift: false, meta: true })
    } else if lowered == "ctrl"@ {
        Some(Modifiers { alt: false, control: true, shift: false, meta: false })
    } else if lowered == "alt"@ {
        Some(Modifiers { alt: true, control: false, shift: false, meta: false })
    } else if lowered == "shift"@ {
        Some(Modifiers { alt: false, control: false, shift: true, meta: false })
    } else {
        None
    }
}

/// What a part stands for, given its trimmed text and that text in lower
/// case: a modifier if the lower-case text names one, else the key that the
/// trimmed text names, if it is a single character that names one.
pub open spec fn spec_part_kind(name: Seq<char>, lowered: Seq<char>) -> PartKind {
    match spec_modifier_for(lowered) {
        Some(m) => PartKind::Modifier(m),
        None => if name.len() == 1 && spec_code_for(name[0]) is Some {
            PartKind::Key(spec_code_for(name[0])->0)
        } else {
            PartKind::Unsupported
        },
    }
}

/// The parts of `s` between its `+` signs; there is one more part than
/// there are signs.
pub open spec fn split_plus(s: Seq<char>) -> Seq<Seq<char>>
    decreases s.len(),
{
    if s.len() == 0 {
        seq![Seq::<char>::empty()]
    } else {
        let before = split_plus(s.drop_last());
        if s.last() == '+' {
            before.push(Seq::<char>::empty())
        } else {
            before.drop_last().push(before.last().push(s.last()))
        }
    }
}

/// Reads the parts from left to right, starting from no modifiers and the
/// key `A`: a modifier is added, a key replaces the key, and the first part
/// that is neither ends the parse with an error that quotes the part.
pub open spec fn parse_parts(parts: Seq<Seq<char>>) -> Result<Shortcut, Seq<char>>
    decreases parts.len(),
{
    if parts.len() == 0 {
        Ok(
            Shortcut {
                mods: Modifiers { alt: false, control: false, shift: false, meta: false },
                key: Code::KeyA,
            },
        )
    } else {
        match parse_parts(parts.drop_last()) {
            Err(e) => Err(e),
            Ok(sc) => {
                let name = trimmed(parts.last());
                match spec_part_kind(name, lowercase(name)) {
                    PartKind::Modifier(m) => Ok(Shortcut { mods: sc.mods.spec_union(m), key: sc.key }),
                    PartKind::Key(k) => Ok(Shortcut { mods: sc.mods, key: k }),
                    PartKind::Unsupported => Err("Unsupported key: "@ + parts.last()),
                }
            },
        }
    }
}

/// The shortcut that a hotkey text denotes, or the error text.
pub open spec fn spec_parse_hotkey(hotkey: Seq<char>) -> Result<Shortcut, Seq<char>> {
    parse_parts(split_plus(hotkey))
}

/// The texts of a list of string slices.
pub open spec fn part_views(parts: Seq<&str>) -> Seq<Seq<char>> {
    Seq::new(parts.len(), |k: int| parts[k]@)
}

/// The key that a single character names.
pub fn code_for(c: char) -> (r: Option<Code>)
    ensures
        r == spec_code_for(c),
{
    match c {
        '`' => Some(Code::Backquote),
        'A' => Some(Code::KeyA),
        'B' => Some(Code::KeyB),
        'C' => Some(Code::KeyC),
        'D' => Some(Code::KeyD),
        'E' => Some(Code::KeyE),
        'F' => Some(Code::KeyF),
        'G' => Some(Code::KeyG),
        'H' => Some(Code::KeyH),
        'I' => Some(Code::KeyI),
        'J' => Some(Code::KeyJ),
        'K' => Some(Code::KeyK),
        'L' => Some(Code::KeyL),
        'M' => Some(Code::KeyM),
        'N' => Some(Code::KeyN),
        'O' => Some(Code::KeyO),
        'P' => Some(Code::KeyP),
        'Q' => Some(Code::KeyQ),
        'R' => Some(Code::KeyR),
        'S' => Some(Code::KeyS),
        'T' => Some(Code::KeyT),
        'U' => Some(Code::KeyU),
        'V' => Some(Code::KeyV),
        'W' => Some(Code::KeyW),
        'X' => Some(Code::KeyX),
        'Y' => Some(Code::KeyY),
        'Z' => Some(Code::KeyZ),
        '0' => Some(Code::Digit0),
        '1' => Some(Code::Digit1),
        '2' => Some(Code::Digit2),
        '3' => Some(Code::Digit3),
        '4' => Some(Code::Digit4),
        '5' => Some(Code::Digit5),
        '6' => Some(Code::Digit6),
        '7' => Some(Code::Digit7),
        '8' => Some(Code::Digit8),
        '9' => Some(Code::Digit9),
        _ => None,
    }
}

fn same_text(a: &str, b: &str) -> (r: bool)
    ensures
        r == (a@ == b@),
{
    a.to_owned() == b.to_owned()
}

/// The modifier that a lower-case name stands for.
pub fn modifier_for(lowered: &str) -> (r: Option<Modifiers>)
    ensures
        r == spec_modifier_for(lowered@),
{
    if same_text(lowered, "cmd") || same_text(lowered, "super") {
        Some(Modifiers::meta())
    } else if same_text(lowered, "ctrl") {
        Some(Modifiers::control())
    } else if same_text(lowered, "alt") {
        Some(Modifiers::alt())
    } else if same_text(lowered, "shift") {
        Some(Modifiers::shift())
    } else {
        None
    }
}

/// What a part stands for, given its trimmed text and that text in lower
/// case.
pub fn part_kind(name: &str, lowered: &str) -> (r: PartKind)
    ensures
        r == spec_part_kind(name@, lowered@),
{
    match modifier_for(lowered) {
        Some(m) => PartKind::Modifier(m),
        None => {
            if name.unicode_len() == 1 {
                match code_for(name.get_char(0)) {
                    Some(k) => PartKind::Key(k),
                    None => PartKind::Unsupported,
                }
            } else {
                PartKind::Unsupported
            }
        },
    }
}

/// Splits a text at its `+` signs.
pub fn split_on_plus<'a>(s: &'a str) -> (parts: Vec<&'a str>)
    ensures
        part_views(parts@) == split_plus(s@),
{
    let n = s.unicode_len();
    let mut parts: Vec<&'a str> = Vec::new();
    let mut start: usize = 0;
    let mut i: usize = 0;
    proof {
        assert(s@.take(0) =~= Seq::<char>::empty());
        assert(part_views(parts@).push(s@.subrange(0, 0)) =~= seq![Seq::<char>::empty()]);
    }
    while i < n
        invariant
            n == s@.len(),
            start <= i <= n,
            split_plus(s@.take(i as int)) == part_views(parts@).push(
                s@.subrange(start as int, i as int),
            ),
        decreases n - i,
    {
        let c = s.get_char(i);
        let ghost before = part_views(parts@).push(s@.subrange(start as int, i as int));
        proof {
            assert(s@.take(i + 1).drop_last() =~= s@.take(i as int));
            assert(s@.take(i + 1).last() == c);
        }
        if c == '+' {
            let ghost old_parts = parts@;
            let piece = s.substring_char(start, i);
            parts.push(piece);
            start = i + 1;
            proof {
                assert(part_views(parts@) =~= part_views(old_parts).push(piece@));
                assert(s@.subrange(start as int, i + 1) =~= Seq::<char>::empty());
            }
        } else {
            proof {
                assert(before.drop_last() =~= part_views(parts@));
                assert(before.last().push(c) =~= s@.subrange(start as int, i + 1));
            }
        }
        i = i + 1;
    }
    let ghost old_parts = parts@;
    let piece = s.substring_char(start, n);
    parts.push(piece);
    proof {
        assert(s@.take(n as int) =~= s@);
        assert(part_views(parts@) =~= part_views(old_parts).push(piece@));
    }
    parts
}

/// Once a prefix of the parts fails to parse, the whole fails with the same
/// error.
proof fn lemma_error_sticks(parts: Seq<Seq<char>>, i: int)
    requires
        0 <= i <= parts.len(),
        parse_parts(parts.take(i)) is Err,
    ensures
        parse_parts(parts) == parse_parts(parts.take(i)),
    decreases parts.len() - i,
{
    if i < parts.len() {
        assert(parts.take(i + 1).drop_last() =~= parts.take(i));
        lemma_error_sticks(parts, i + 1);
    } else {
        assert(parts.take(i) =~= parts);
    }
}

/// Parses a hotkey such as `Cmd+Shift+B`. The parts between the `+` signs
/// are trimmed; modifier names are matched without regard to case. Without
/// a key part the key is `A`.
pub fn parse_hotkey(hotkey: &str) -> (r: Result<Shortcut, String>)
    ensures
        match r {
            Ok(sc) => spec_parse_hotkey(hotkey@) == Ok::<Shortcut, Seq<char>>(sc),
            Err(e) => spec_parse_hotkey(hotkey@) == Err::<Shortcut, Seq<char>>(e@),
        },
{
    let parts = split_on_plus(hotkey);
    let ghost texts = part_views(parts@);
    let mut sc = Shortcut { mods: Modifiers::empty(), key: Code::KeyA };
    let mut i: usize = 0;
    proof {
        assert(texts.take(0) =~= Seq::<Seq<char>>::empty());
    }
    while i < parts.len()
        invariant
            i <= parts.len(),
            texts == part_views(parts@),
            texts == split_plus(hotkey@),
            parse_parts(texts.take(i as int)) == Ok::<Shortcut, Seq<char>>(sc),
        decreases parts.len() - i,
    {
        let part = parts[i];
        let name = trim(part);
        let lowered = to_lowercase(name);
        proof {
            assert(texts.take(i + 1).drop_last() =~= texts.take(i as int));
            assert(texts.take(i + 1).last() == part@);
        }
        match part_kind(name, lowered.as_str()) {
            PartKind::Modifier(m) => {
                sc.mods.insert(m);
            },
            PartKind::Key(k) => {
                sc.key = k;
            },
            PartKind::Unsupported => {
                proof {
                    lemma_error_sticks(texts, i + 1);
                }
                return Err(String::from_str("Unsupported key: ").concat(part));
            },
        }
        i = i + 1;
    }
    proof {
        assert(texts.take(i as int) =~= texts);
    }
    Ok(sc)
}

} // verus!
