//! Keystrokes: how they are written, shown, matched and simulated.

#[allow(unused_imports)]
use crate::candidates;
use crate::candidates::{new_candidates, push_candidate, Candidates};
#[allow(unused_imports)]
use crate::modifiers;
use crate::modifiers::{Modifiers, TargetOs};
#[allow(unused_imports)]
use crate::text;
use crate::text::{chars_of, same_text, split_text};
use vstd::prelude::*;

verus! {

/// A keystroke and associated metadata generated by the platform
#[derive(Debug, Eq, Hash)]
pub struct Keystroke {
    /// the state of the modifier keys at the time the keystroke was generated
    pub modifiers: Modifiers,
    /// key is the character printed on the key that was pressed
    /// e.g. for option-s, key is "s"
    pub key: String,
    /// ime_key is the character inserted by the IME engine when that key was pressed.
    /// e.g. for option-s, ime_key is "ß"
    pub ime_key: Option<String>,
}

/// What a keystroke holds, with its texts as sequences of characters.
#[verifier::ext_equal]
pub struct KeystrokeView {
    pub modifiers: Modifiers,
    pub key: Seq<char>,
    pub ime_key: Option<Seq<char>>,
}

/// The characters of a text that may be missing.
pub open spec fn optional_text(text: Option<String>) -> Option<Seq<char>> {
    match text {
        Some(t) => Some(t@),
        None => None,
    }
}

impl View for Keystroke {
    type V = KeystrokeView;

    open spec fn view(&self) -> KeystrokeView {
        KeystrokeView {
            modifiers: self.modifiers,
            key: self.key@,
            ime_key: optional_text(self.ime_key),
        }
    }
}

impl PartialEq for Keystroke {
    fn eq(&self, other: &Self) -> (same: bool) {
        let same_ime = match (&self.ime_key, &other.ime_key) {
            (Some(a), Some(b)) => same_text(a.as_str(), b.as_str()),
            (None, None) => true,
            _ => false,
        };
        self.modifiers == other.modifiers && same_text(self.key.as_str(), other.key.as_str())
            && same_ime
    }
}

impl vstd::std_specs::cmp::PartialEqSpecImpl for Keystroke {
    open spec fn obeys_eq_spec() -> bool {
        true
    }

    open spec fn eq_spec(&self, other: &Self) -> bool {
        self@ == other@
    }
}

impl Clone for Keystroke {
    fn clone(&self) -> (copy: Self)
        ensures
            copy@ == self@,
    {
        let ime_key = match &self.ime_key {
            Some(text) => Some(text.clone()),
            None => None,
        };
        Keystroke { modifiers: self.modifiers, key: self.key.clone(), ime_key }
    }
}

impl Default for Keystroke {
    fn default() -> (keystroke: Self)
        ensures
            keystroke@ == (KeystrokeView {
                modifiers: modifiers::no_modifiers(),
                key: Seq::empty(),
                ime_key: None,
            }),
    {
        Keystroke { modifiers: Modifiers::none(), key: String::new(), ime_key: None }
    }
}

/// A text that is not a keystroke.
#[derive(Debug, PartialEq, Eq)]
pub struct InvalidKeystroke {
    /// the text that was to be read
    pub source: String,
}

/// The message for a text that is not a keystroke.
pub open spec fn invalid_message(source: Seq<char>) -> Seq<char> {
    "Invalid keystroke `"@ + source + "`"@
}

impl InvalidKeystroke {
    /// What is wrong, for a person to read.
    pub fn message(&self) -> (message: String)
        ensures
            message@ == "Invalid keystroke `"@ + self.source@ + "`"@,
            message@ == invalid_message(self.source@),
    {
        "Invalid keystroke `".to_owned().concat(self.source.as_str()).concat("`")
    }
}

/// The modifiers held once the key that `word` names is pressed too, where
/// `word` names a modifier key.
pub open spec fn press(held: Modifiers, word: Seq<char>) -> Option<Modifiers> {
    if word == "ctrl"@ {
        Some(Modifiers { control: true, ..held })
    } else if word == "alt"@ {
        Some(Modifiers { alt: true, ..held })
    } else if word == "shift"@ {
        Some(Modifiers { shift: true, ..held })
    } else if word == "fn"@ {
        Some(Modifiers { function: true, ..held })
    } else if word == "cmd"@ || word == "super"@ || word == "win"@ {
        Some(Modifiers { platform: true, ..held })
    } else {
        None
    }
}

/// The keystroke that the components of a text, which stood between dashes,
/// describe, after the modifiers, the key and the IME key read so far.
///
/// A component that names a modifier key presses it. Another one is the key.
/// It ends the text, or is followed by `>` and the IME key, or by the empty
/// component that a dash at the very end leaves: the key is then that dash.
pub open spec fn read_components(
    parts: Seq<Seq<char>>,
    ends_in_dash: bool,
    held: Modifiers,
    key: Option<Seq<char>>,
    ime_key: Option<Seq<char>>,
) -> Option<KeystrokeView>
    decreases parts.len(),
{
    if parts.len() == 0 {
        match key {
            Some(key) => Some(KeystrokeView { modifiers: held, key, ime_key }),
            None => None,
        }
    } else if press(held, parts[0]) is Some {
        read_components(parts.skip(1), ends_in_dash, press(held, parts[0])->0, key, ime_key)
    } else if parts.len() == 1 {
        Some(KeystrokeView { modifiers: held, key: parts[0], ime_key })
    } else if parts[1].len() == 0 && ends_in_dash {
        Some(KeystrokeView { modifiers: held, key: seq!['-'], ime_key })
    } else if parts[1].len() > 1 && parts[1][0] == '>' {
        read_components(
            parts.skip(2),
            ends_in_dash,
            held,
            Some(parts[0]),
            Some(parts[1].skip(1)),
        )
    } else {
        None
    }
}

/// The keystroke that a text describes, if it describes one.
pub open spec fn read_keystroke(source: Seq<char>) -> Option<KeystrokeView> {
    read_components(
        text::split(source, seq!['-']),
        source.len() > 0 && source.last() == '-',
        modifiers::no_modifiers(),
        None,
        None,
    )
}

/// The keystrokes to look for in the bindings when `keystroke` was pressed, in
/// order: what the IME inserted, with no other modifier than control, where
/// that differs from the key, and then the key itself.
pub open spec fn candidates(keystroke: KeystrokeView) -> Seq<KeystrokeView> {
    let plain = KeystrokeView { ime_key: None, ..keystroke };
    match keystroke.ime_key {
        Some(ime_key) if ime_key != keystroke.key => {
            let typed = KeystrokeView {
                modifiers: Modifiers {
                    control: keystroke.modifiers.control,
                    ..modifiers::no_modifiers()
                },
                key: ime_key,
                ime_key: None,
            };
            seq![typed, plain]
        },
        _ => seq![plain],
    }
}

/// The upper case of a text, as `str::to_uppercase` gives it.
pub uninterp spec fn uppercase(text: Seq<char>) -> Seq<char>;

/// `str::to_uppercase`: the upper case of the text by Unicode's rules, which
/// depends on the text alone. What it is for a given text is left unsaid.
#[verifier::external_body]
fn uppercase_text(text: &str) -> (upper: String)
    ensures
        upper@ == uppercase(text@),
{
    text.to_uppercase()
}

/// Whether a key inserts no text when it is pressed.
pub open spec fn inserts_nothing(key: Seq<char>) -> bool {
    ||| key == "up"@
    ||| key == "down"@
    ||| key == "left"@
    ||| key == "right"@
    ||| key == "pageup"@
    ||| key == "pagedown"@
    ||| key == "home"@
    ||| key == "end"@
    ||| key == "delete"@
    ||| key == "escape"@
    ||| key == "backspace"@
    ||| key == "f1"@
    ||| key == "f2"@
    ||| key == "f3"@
    ||| key == "f4"@
    ||| key == "f5"@
    ||| key == "f6"@
    ||| key == "f7"@
    ||| key == "f8"@
    ||| key == "f9"@
    ||| key == "f10"@
    ||| key == "f11"@
    ||| key == "f12"@
}

/// The text that pressing a key inserts, with or without shift, where `upper`
/// is the key's name in upper case.
pub open spec fn inserted_text(key: Seq<char>, shift: bool, upper: Seq<char>) -> Option<Seq<char>> {
    if key == "space"@ {
        Some(" "@)
    } else if key == "tab"@ {
        Some("\t"@)
    } else if key == "enter"@ {
        Some("\n"@)
    } else if inserts_nothing(key) {
        None
    } else if shift {
        Some(upper)
    } else {
        Some(key)
    }
}

/// A keystroke with the text that it inserts as its IME key. One that has an
/// IME key, or that is a shortcut because of its modifiers, stays as it is.
pub open spec fn simulate_ime(keystroke: KeystrokeView, upper: Seq<char>) -> KeystrokeView {
    let held = keystroke.modifiers;
    if keystroke.ime_key is None && !held.platform && !held.control && !held.function && !held.alt {
        KeystrokeView {
            ime_key: inserted_text(keystroke.key, held.shift, upper),
            ..keystroke
        }
    } else {
        keystroke
    }
}

/// The upper case of a letter from `a` to `z`; any other character itself.
pub open spec fn ascii_uppercase(c: char) -> char {
    if 'a' <= c && c <= 'z' {
        (c as int - 32) as char
    } else {
        c
    }
}

/// How a key is shown: by a symbol where there is one for it, in upper case
/// where it is a single ASCII character, and by its name otherwise.
pub open spec fn key_label(key: Seq<char>) -> Seq<char> {
    if key == "backspace"@ {
        "⌫"@
    } else if key == "up"@ {
        "↑"@
    } else if key == "down"@ {
        "↓"@
    } else if key == "left"@ {
        "←"@
    } else if key == "right"@ {
        "→"@
    } else if key == "tab"@ {
        "⇥"@
    } else if key == "escape"@ {
        "⎋"@
    } else if key.len() == 1 && key[0] <= '\x7f' {
        seq![ascii_uppercase(key[0])]
    } else {
        key
    }
}

/// How the platform key is shown on a system.
pub open spec fn platform_symbol(os: TargetOs) -> Seq<char> {
    match os {
        TargetOs::MacOs => "⌘"@,
        TargetOs::Linux => "❖"@,
        TargetOs::Windows => "⊞"@,
        TargetOs::Other => Seq::empty(),
    }
}

/// A text that is shown only where its key is held.
pub open spec fn shown_if(held: bool, symbol: Seq<char>) -> Seq<char> {
    if held {
        symbol
    } else {
        Seq::empty()
    }
}

/// How a keystroke is shown on a system: the symbols of the modifier keys, in a
/// fixed order, and then the key. The function key has no symbol.
pub open spec fn keystroke_label(keystroke: KeystrokeView, os: TargetOs) -> Seq<char> {
    let held = keystroke.modifiers;
    shown_if(held.control, "^"@) + shown_if(held.alt, "⌥"@) + shown_if(
        held.platform,
        platform_symbol(os),
    ) + shown_if(held.shift, "⇧"@) + key_label(keystroke.key)
}

/// The modifiers held once the key that `word` names is pressed too, if it
/// names a modifier key.
fn press_named(held: Modifiers, word: &str) -> (pressed: Option<Modifiers>)
    ensures
        pressed == press(held, word@),
{
    if same_text(word, "ctrl") {
        Some(Modifiers { control: true, ..held })
    } else if same_text(word, "alt") {
        Some(Modifiers { alt: true, ..held })
    } else if same_text(word, "shift") {
        Some(Modifiers { shift: true, ..held })
    } else if same_text(word, "fn") {
        Some(Modifiers { function: true, ..held })
    } else if same_text(word, "cmd") || same_text(word, "super") || same_text(word, "win") {
        Some(Modifiers { platform: true, ..held })
    } else {
        None
    }
}

/// Whether a key inserts no text when it is pressed.
fn key_inserts_nothing(key: &str) -> (nothing: bool)
    ensures
        nothing == inserts_nothing(key@),
{
    same_text(key, "up") || same_text(key, "down") || same_text(key, "left") || same_text(
        key,
        "right",
    ) || same_text(key, "pageup") || same_text(key, "pagedown") || same_text(key, "home")
        || same_text(key, "end") || same_text(key, "delete") || same_text(key, "escape")
        || same_text(key, "backspace") || same_text(key, "f1") || same_text(key, "f2") || same_text(
        key,
        "f3",
    ) || same_text(key, "f4") || same_text(key, "f5") || same_text(key, "f6") || same_text(
        key,
        "f7",
    ) || same_text(key, "f8") || same_text(key, "f9") || same_text(key, "f10") || same_text(
        key,
        "f11",
    ) || same_text(key, "f12")
}

/// How a key is shown.
fn label_of_key(key: &str) -> (label: String)
    ensures
        label@ == key_label(key@),
{
    let characters = chars_of(key);
    if same_text(key, "backspace") {
        "⌫".to_owned()
    } else if same_text(key, "up") {
        "↑".to_owned()
    } else if same_text(key, "down") {
        "↓".to_owned()
    } else if same_text(key, "left") {
        "←".to_owned()
    } else if same_text(key, "right") {
        "→".to_owned()
    } else if same_text(key, "tab") {
        "⇥".to_owned()
    } else if same_text(key, "escape") {
        "⎋".to_owned()
    } else if characters.len() == 1 && 'a' <= characters[0] && characters[0] <= 'z' {
        let place: usize = characters[0] as usize - 'a' as usize;
        proof {
            reveal_strlit("ABCDEFGHIJKLMNOPQRSTUVWXYZ");
        }
        let label = "ABCDEFGHIJKLMNOPQRSTUVWXYZ".substring_char(place, place + 1).to_owned();
        assert(label@ =~= seq![ascii_uppercase(key@[0])]);
        label
    } else {
        assert(key@.len() == 1 ==> key@ =~= seq![key@[0]]);
        key.to_owned()
    }
}

impl Keystroke {
    /// When matching a key we cannot know whether the user intended to type
    /// the ime_key or the key itself. On some non-US keyboards keys we use in our
    /// bindings are behind option (for example `$` is typed `alt-ç` on a Czech keyboard),
    /// and on some keyboards the IME handler converts a sequence of keys into a
    /// specific character (for example `"` is typed as `" space` on a brazilian keyboard).
    ///
    /// This method generates a list of potential keystroke candidates that could be matched
    /// against when resolving a keybinding.
    pub fn match_candidates(&self) -> (possibilities: Candidates)
        ensures
            candidates::candidate_items(possibilities) == candidates(self@),
    {
        let mut possibilities = new_candidates();
        match &self.ime_key {
            Some(ime_key) => {
                if !same_text(ime_key.as_str(), self.key.as_str()) {
                    push_candidate(
                        &mut possibilities,
                        Keystroke {
                            modifiers: Modifiers {
                                control: self.modifiers.control,
                                alt: false,
                                shift: false,
                                platform: false,
                                function: false,
                            },
                            key: ime_key.clone(),
                            ime_key: None,
                        },
                    );
                }
                push_candidate(
                    &mut possibilities,
                    Keystroke { modifiers: self.modifiers, key: self.key.clone(), ime_key: None },
                );
            },
            None => push_candidate(&mut possibilities, self.clone()),
        }
        assert(candidates::candidate_items(possibilities) =~= candidates(self@));
        possibilities
    }

    /// key syntax is:
    /// [ctrl-][alt-][shift-][cmd-][fn-]key[->ime_key]
    /// ime_key syntax is only used for generating test events,
    /// when matching a key with an ime_key set will be matched without it.
    pub fn parse(source: &str) -> (parsed: Result<Self, InvalidKeystroke>)
        ensures
            match parsed {
                Ok(keystroke) => read_keystroke(source@) == Some(keystroke@),
                Err(error) => read_keystroke(source@) is None && error.source@ == source@,
            },
    {
        let mut held = Modifiers::none();
        let mut key: Option<String> = None;
        let mut ime_key: Option<String> = None;
        proof {
            reveal_strlit("-");
            assert("-"@ =~= seq!['-']);
        }
        let characters = chars_of(source);
        let ends_in_dash = characters.len() > 0 && characters[characters.len() - 1] == '-';
        let components = split_text(source, "-");
        let ghost parts = text::texts(components@);
        assert(parts.skip(0) =~= parts);
        let mut i: usize = 0;
        while i < components.len()
            invariant
                i <= components@.len(),
                parts == text::texts(components@),
                "-"@ == seq!['-'],
                read_keystroke(source@) == read_components(
                    parts.skip(i as int),
                    ends_in_dash,
                    held,
                    optional_text(key),
                    optional_text(ime_key),
                ),
            decreases components@.len() - i,
        {
            let ghost rest = parts.skip(i as int);
            let component = components[i].as_str();
            assert(rest[0] == component@);
            assert(rest.skip(1) =~= parts.skip(i + 1));
            match press_named(held, component) {
                Some(pressed) => {
                    held = pressed;
                    i = i + 1;
                },
                None => {
                    if i + 1 < components.len() {
                        let next = components[i + 1].as_str();
                        let next_chars = chars_of(next);
                        assert(rest[1] == next@);
                        assert(rest.skip(2) =~= parts.skip(i + 2));
                        if next_chars.len() == 0 && ends_in_dash {
                            return Ok(
                                Keystroke { modifiers: held, key: "-".to_owned(), ime_key },
                            );
                        } else if next_chars.len() > 1 && next_chars[0] == '>' {
                            key = Some(component.to_owned());
                            ime_key = Some(next.substring_char(1, next_chars.len()).to_owned());
                            assert(ime_key->0@ =~= next@.skip(1));
                            i = i + 2;
                        } else {
                            return Err(InvalidKeystroke { source: source.to_owned() });
                        }
                    } else {
                        key = Some(component.to_owned());
                        i = i + 1;
                    }
                },
            }
        }
        match key {
            Some(key) => Ok(Keystroke { modifiers: held, key, ime_key }),
            None => Err(InvalidKeystroke { source: source.to_owned() }),
        }
    }

    /// Returns a new keystroke with the ime_key filled.
    /// This is used for dispatch_keystroke where we want users to
    /// be able to simulate typing "space", etc.
    pub fn with_simulated_ime(self) -> (filled: Self)
        ensures
            filled@ == simulate_ime(self@, uppercase(self.key@)),
    {
        let upper = uppercase_text(self.key.as_str());
        self.with_inserted_text(upper)
    }

    /// Returns a new keystroke with the ime_key filled, where `upper` is the
    /// key in upper case.
    pub fn with_inserted_text(self, upper: String) -> (filled: Self)
        ensures
            filled@ == simulate_ime(self@, upper@),
    {
        if self.ime_key.is_none() && !self.modifiers.platform && !self.modifiers.control
            && !self.modifiers.function && !self.modifiers.alt {
            let key = self.key.as_str();
            let ime_key = if same_text(key, "space") {
                Some(" ".to_owned())
            } else if same_text(key, "tab") {
                Some("\t".to_owned())
            } else if same_text(key, "enter") {
                Some("\n".to_owned())
            } else if key_inserts_nothing(key) {
                None
            } else if self.modifiers.shift {
                Some(upper)
            } else {
                Some(key.to_owned())
            };
            Keystroke { ime_key, ..self }
        } else {
            self
        }
    }

    /// The keystroke as it is shown to users of a system.
    pub fn to_string(&self, os: TargetOs) -> (label: String)
        ensures
            label@ == keystroke_label(self@, os),
    {
        let mut label = String::new();
        if self.modifiers.control {
            label.append("^");
        }
        if self.modifiers.alt {
            label.append("⌥");
        }
        if self.modifiers.platform {
            match os {
                TargetOs::MacOs => label.append("⌘"),
                TargetOs::Linux => label.append("❖"),
                TargetOs::Windows => label.append("⊞"),
                TargetOs::Other => {},
            }
        }
        if self.modifiers.shift {
            label.append("⇧");
        }
        let key = label_of_key(self.key.as_str());
        label.append(key.as_str());
        assert(label@ =~= keystroke_label(self@, os));
        label
    }
}

} // verus!
