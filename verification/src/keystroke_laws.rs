//! What holds of keystrokes across the functions that read, match and simulate
//! them.

#[allow(unused_imports)]
use crate::keystroke;
use crate::keystroke::KeystrokeView;
#[allow(unused_imports)]
use crate::modifiers;
use crate::modifiers::{Modifiers, TargetOs};
#[allow(unused_imports)]
use crate::text;
use vstd::prelude::*;

verus! {

/// A modifier's name and a dash, if the modifier is held.
pub open spec fn written_modifier(held: bool, word: Seq<char>) -> Seq<char> {
    if held {
        word + seq!['-']
    } else {
        Seq::empty()
    }
}

/// The text of a keystroke in the key syntax, with its modifiers in the order
/// control, alt, shift, command, function.
pub open spec fn written(k: KeystrokeView) -> Seq<char> {
    let held = k.modifiers;
    let key = written_key(k);
    let function = written_modifier(held.function, "fn"@) + key;
    let platform = written_modifier(held.platform, "cmd"@) + function;
    let shift = written_modifier(held.shift, "shift"@) + platform;
    let alt = written_modifier(held.alt, "alt"@) + shift;
    written_modifier(held.control, "ctrl"@) + alt
}

/// The key and the IME key of a keystroke in the key syntax.
pub open spec fn written_key(k: KeystrokeView) -> Seq<char> {
    match k.ime_key {
        Some(ime_key) => k.key + seq!['-'] + (seq!['>'] + ime_key),
        None => k.key,
    }
}

/// Whether a text is one of the seven names of modifier keys.
pub open spec fn names_modifier(word: Seq<char>) -> bool {
    ||| word == "ctrl"@
    ||| word == "alt"@
    ||| word == "shift"@
    ||| word == "fn"@
    ||| word == "cmd"@
    ||| word == "super"@
    ||| word == "win"@
}

/// Whether a text can stand for a key: it names no modifier and holds no dash.
pub open spec fn names_key(word: Seq<char>) -> bool {
    !names_modifier(word) && !word.contains('-')
}

/// The modifiers held with the one that `word` names held too.
pub open spec fn holding_too(held: Modifiers, word: Seq<char>) -> Modifiers {
    Modifiers {
        control: held.control || word == "ctrl"@,
        alt: held.alt || word == "alt"@,
        shift: held.shift || word == "shift"@,
        platform: held.platform || word == "cmd"@ || word == "super"@ || word == "win"@,
        function: held.function || word == "fn"@,
    }
}

/// A keystroke with the modifier key that `word` names held too.
pub open spec fn with_pressed(k: KeystrokeView, word: Seq<char>) -> KeystrokeView {
    KeystrokeView { modifiers: holding_too(k.modifiers, word), ..k }
}

/// A keystroke without modifiers.
pub open spec fn bare(key: Seq<char>, ime_key: Option<Seq<char>>) -> KeystrokeView {
    KeystrokeView {
        modifiers: Modifiers {
            control: false,
            alt: false,
            shift: false,
            platform: false,
            function: false,
        },
        key,
        ime_key,
    }
}

/// What a key and an IME key have to be for the key syntax to express them: no
/// dash in either, except that the key alone may be the dash; a key that does
/// not name a modifier; an IME key that is not empty.
pub open spec fn expressible(k: KeystrokeView) -> bool {
    match k.ime_key {
        Some(ime_key) => {
            &&& !k.key.contains('-')
            &&& !names_modifier(k.key)
            &&& ime_key.len() > 0
            &&& !ime_key.contains('-')
        },
        None => {
            ||| k.key == seq!['-']
            ||| !k.key.contains('-') && !names_modifier(k.key)
        },
    }
}

/// The names of modifier keys are different from each other.
proof fn lemma_names_differ()
    ensures
        "ctrl"@ != "alt"@,
        "ctrl"@ != "shift"@,
        "ctrl"@ != "fn"@,
        "ctrl"@ != "cmd"@,
        "ctrl"@ != "super"@,
        "ctrl"@ != "win"@,
        "alt"@ != "shift"@,
        "alt"@ != "fn"@,
        "alt"@ != "cmd"@,
        "alt"@ != "super"@,
        "alt"@ != "win"@,
        "shift"@ != "fn"@,
        "shift"@ != "cmd"@,
        "shift"@ != "super"@,
        "shift"@ != "win"@,
        "fn"@ != "cmd"@,
        "fn"@ != "super"@,
        "fn"@ != "win"@,
        "cmd"@ != "super"@,
        "cmd"@ != "win"@,
        "super"@ != "win"@,
{
    reveal_strlit("ctrl");
    reveal_strlit("alt");
    reveal_strlit("shift");
    reveal_strlit("fn");
    reveal_strlit("cmd");
    reveal_strlit("super");
    reveal_strlit("win");
    assert("ctrl"@[1] == 't' && "alt"@[0] == 'a' && "shift"@[1] == 'h' && "fn"@[0] == 'f');
    assert("cmd"@[1] == 'm' && "super"@[1] == 'u' && "win"@[0] == 'w');
    assert("ctrl"@[0] == 'c' && "shift"@[0] == 's' && "cmd"@[0] == 'c' && "super"@[0] == 's');
}

/// The names of modifier keys are not empty and hold no dash.
proof fn lemma_modifier_words(word: Seq<char>)
    ensures
        names_modifier(word) ==> word.len() > 0 && !word.contains('-'),
{
    reveal_strlit("ctrl");
    reveal_strlit("alt");
    reveal_strlit("shift");
    reveal_strlit("fn");
    reveal_strlit("cmd");
    reveal_strlit("super");
    reveal_strlit("win");
}

/// Pressing a modifier by its name holds that modifier too, and no other text
/// presses one.
proof fn lemma_press_word(held: Modifiers, word: Seq<char>)
    ensures
        keystroke::press(held, word) == (if names_modifier(word) {
            Some(holding_too(held, word))
        } else {
            None
        }),
{
    lemma_names_differ();
}

/// A key that is held from the start is held in the end, and changes nothing
/// else.
proof fn lemma_press_first(
    parts: Seq<Seq<char>>,
    ends_in_dash: bool,
    held: Modifiers,
    key: Option<Seq<char>>,
    ime_key: Option<Seq<char>>,
    word: Seq<char>,
)
    ensures
        keystroke::read_components(parts, ends_in_dash, holding_too(held, word), key, ime_key) == (
        match keystroke::read_components(parts, ends_in_dash, held, key, ime_key) {
            Some(k) => Some(with_pressed(k, word)),
            None => None,
        }),
    decreases parts.len(),
{
    let more = holding_too(held, word);
    if parts.len() > 0 {
        lemma_press_word(held, parts[0]);
        lemma_press_word(more, parts[0]);
        if names_modifier(parts[0]) {
            let next = holding_too(held, parts[0]);
            assert(holding_too(more, parts[0]) == holding_too(next, word));
            lemma_press_first(parts.skip(1), ends_in_dash, next, key, ime_key, word);
        } else if parts.len() > 1 && !(parts[1].len() == 0 && ends_in_dash) && parts[1].len() > 1
            && parts[1][0] == '>' {
            lemma_press_first(
                parts.skip(2),
                ends_in_dash,
                held,
                Some(parts[0]),
                Some(parts[1].skip(1)),
                word,
            );
        }
    }
}

/// An IME key that was read stays, unless another one is read.
proof fn lemma_ime_key_stays(
    parts: Seq<Seq<char>>,
    ends_in_dash: bool,
    held: Modifiers,
    key: Option<Seq<char>>,
    ime_key: Seq<char>,
)
    ensures
        keystroke::read_components(parts, ends_in_dash, held, key, Some(ime_key)) matches Some(k)
            ==> k.ime_key is Some,
    decreases parts.len(),
{
    if parts.len() > 0 {
        match keystroke::press(held, parts[0]) {
            Some(next) => lemma_ime_key_stays(parts.skip(1), ends_in_dash, next, key, ime_key),
            None => {
                if parts.len() > 1 {
                    lemma_ime_key_stays(
                        parts.skip(2),
                        ends_in_dash,
                        held,
                        Some(parts[0]),
                        parts[1].skip(1),
                    );
                }
            },
        }
    }
}

/// Where another key follows, a key that was read before counts for nothing,
/// and an IME key only if no other one follows.
proof fn lemma_later_key_counts(
    parts: Seq<Seq<char>>,
    ends_in_dash: bool,
    held: Modifiers,
    key: Seq<char>,
    ime_key: Seq<char>,
)
    requires
        parts.len() > 0,
        !names_modifier(parts[0]),
    ensures
        keystroke::read_components(parts, ends_in_dash, held, Some(key), Some(ime_key)) == (
        match keystroke::read_components(parts, ends_in_dash, held, None, None) {
            Some(k) => Some(
                KeystrokeView {
                    ime_key: if k.ime_key is Some {
                        k.ime_key
                    } else {
                        Some(ime_key)
                    },
                    ..k
                },
            ),
            None => None,
        }),
{
    lemma_press_word(held, parts[0]);
    if parts.len() > 1 {
        lemma_ime_key_stays(
            parts.skip(2),
            ends_in_dash,
            held,
            Some(parts[0]),
            parts[1].skip(1),
        );
    }
}

/// Writing a modifier's name and a dash in front of a text adds that modifier
/// to the keystroke that the text describes, and does nothing else: what
/// describes no keystroke still describes none. So modifiers can be written in
/// any order, and more than once.
pub proof fn law_modifier_in_front_is_pressed(word: Seq<char>, source: Seq<char>)
    requires
        names_modifier(word),
    ensures
        keystroke::read_keystroke(word + seq!['-'] + source) == (
        match keystroke::read_keystroke(source) {
            Some(k) => Some(with_pressed(k, word)),
            None => None,
        }),
{
    let none = modifiers::no_modifiers();
    let longer = word + seq!['-'] + source;
    let parts = text::split(source, seq!['-']);
    let dash = source.len() > 0 && source.last() == '-';
    let longer_dash = longer.len() > 0 && longer.last() == '-';
    lemma_modifier_words(word);
    text::lemma_split_first(word, '-', source);
    let all = text::split(longer, seq!['-']);
    assert(all[0] == word);
    assert(all.skip(1) =~= parts);
    lemma_press_word(none, word);
    lemma_press_first(parts, longer_dash, none, None, None, word);
    assert(keystroke::read_components(parts, longer_dash, none, None, None)
        == keystroke::read_components(parts, dash, none, None, None)) by {
        if source.len() == 0 {
            text::lemma_split_whole(source, '-');
            lemma_modifier_words(source);
            lemma_press_word(none, source);
        } else {
            assert(longer.last() == source.last());
        }
    }
}

/// A text that names no modifier and holds no dash is read as that key, without
/// modifiers and without an IME key.
pub proof fn law_text_that_names_no_modifier_is_a_key(word: Seq<char>)
    requires
        names_key(word),
    ensures
        keystroke::read_keystroke(word) == Some(bare(word, None)),
{
    text::lemma_split_whole(word, '-');
    lemma_press_word(modifiers::no_modifiers(), word);
}

/// The name of a modifier alone is no keystroke: there has to be a key.
pub proof fn law_modifier_alone_is_no_keystroke(word: Seq<char>)
    requires
        names_modifier(word),
    ensures
        keystroke::read_keystroke(word) is None,
{
    lemma_modifier_words(word);
    text::lemma_split_whole(word, '-');
    lemma_press_word(modifiers::no_modifiers(), word);
    reveal_with_fuel(keystroke::read_components, 2);
}

/// A key is followed by a dash, `>` and its IME key.
pub proof fn law_ime_key_follows_its_key(key: Seq<char>, ime_key: Seq<char>)
    requires
        names_key(key),
        ime_key.len() > 0,
        !ime_key.contains('-'),
    ensures
        keystroke::read_keystroke(key + seq!['-'] + (seq!['>'] + ime_key)) == Some(
            bare(key, Some(ime_key)),
        ),
{
    lemma_read_written_key(bare(key, Some(ime_key)));
}

/// A dash after a key and at the end is the key that is meant. Two dashes after
/// a key are right only where a dash is at the end.
pub proof fn law_dash_at_the_end_is_the_key(key: Seq<char>, rest: Seq<char>)
    requires
        names_key(key),
    ensures
        keystroke::read_keystroke(key + seq!['-']) == Some(bare(seq!['-'], None)),
        keystroke::read_keystroke(key + seq!['-'] + (seq!['-'] + rest)) == (if rest.len() == 0
            || rest.last() == '-' {
            Some(bare(seq!['-'], None))
        } else {
            None
        }),
{
    let nothing = Seq::<char>::empty();
    lemma_press_word(modifiers::no_modifiers(), key);
    let short = key + seq!['-'];
    assert(short =~= key + seq!['-'] + nothing);
    text::lemma_split_first(key, '-', nothing);
    text::lemma_split_whole(nothing, '-');
    let parts = text::split(short, seq!['-']);
    assert(parts =~= seq![key, nothing]);
    let long = key + seq!['-'] + (seq!['-'] + rest);
    assert(seq!['-'] + rest =~= nothing + seq!['-'] + rest);
    text::lemma_split_first(key, '-', seq!['-'] + rest);
    text::lemma_split_first(nothing, '-', rest);
    let more = text::split(long, seq!['-']);
    assert(more[0] == key && more[1] == nothing);
    assert(more.len() >= 2);
    assert(long.last() == (if rest.len() == 0 {
        '-'
    } else {
        rest.last()
    }));
}

/// A key can be followed by nothing but its IME key: what comes after the dash
/// has to begin with `>` and go on.
pub proof fn law_two_keys_are_no_keystroke(key: Seq<char>, other: Seq<char>, rest: Seq<char>)
    requires
        names_key(key),
        other.len() > 0,
        !other.contains('-'),
        other.len() == 1 || other[0] != '>',
    ensures
        keystroke::read_keystroke(key + seq!['-'] + other) is None,
        keystroke::read_keystroke(key + seq!['-'] + (other + seq!['-'] + rest)) is None,
{
    lemma_press_word(modifiers::no_modifiers(), key);
    text::lemma_split_first(key, '-', other);
    text::lemma_split_whole(other, '-');
    let short = text::split(key + seq!['-'] + other, seq!['-']);
    assert(short[0] == key && short[1] == other);
    text::lemma_split_first(key, '-', other + seq!['-'] + rest);
    text::lemma_split_first(other, '-', rest);
    let long = text::split(key + seq!['-'] + (other + seq!['-'] + rest), seq!['-']);
    assert(long[0] == key && long[1] == other);
}

/// What is read where more follows an IME key.
proof fn lemma_read_after_ime_key(key: Seq<char>, ime_key: Seq<char>, rest: Seq<char>)
    requires
        names_key(key),
        ime_key.len() > 0,
        !ime_key.contains('-'),
    ensures
        keystroke::read_keystroke(
            key + seq!['-'] + ((seq!['>'] + ime_key) + seq!['-'] + rest),
        ) == keystroke::read_components(
            text::split(rest, seq!['-']),
            rest.len() == 0 || rest.last() == '-',
            modifiers::no_modifiers(),
            Some(key),
            Some(ime_key),
        ),
{
    let marked = seq!['>'] + ime_key;
    let tail = marked + seq!['-'] + rest;
    let source = key + seq!['-'] + tail;
    assert(!marked.contains('-')) by {
        if marked.contains('-') {
            let i = choose|i: int| 0 <= i < marked.len() && marked[i] == '-';
            assert(i > 0);
            assert(ime_key[i - 1] == '-');
        }
    }
    lemma_press_word(modifiers::no_modifiers(), key);
    text::lemma_split_first(key, '-', tail);
    text::lemma_split_first(marked, '-', rest);
    let parts = text::split(source, seq!['-']);
    assert(parts =~= seq![key, marked] + text::split(rest, seq!['-']));
    assert(parts[0] == key && parts[1] == marked);
    assert(parts.skip(2) =~= text::split(rest, seq!['-']));
    assert(marked.skip(1) =~= ime_key);
    assert(source.last() == (if rest.len() == 0 {
        '-'
    } else {
        rest.last()
    }));
}

/// Where a keystroke with an IME key is followed by a dash and a text that
/// begins with another key, that text is read, and the IME key counts only if
/// the text has none.
pub proof fn law_key_after_an_ime_key_counts(
    key: Seq<char>,
    ime_key: Seq<char>,
    next: Seq<char>,
    rest: Seq<char>,
)
    requires
        names_key(key),
        ime_key.len() > 0,
        !ime_key.contains('-'),
        names_key(next),
        rest.len() == 0 || rest[0] == '-',
    ensures
        keystroke::read_keystroke(
            key + seq!['-'] + ((seq!['>'] + ime_key) + seq!['-'] + (next + rest)),
        ) == (match keystroke::read_keystroke(next + rest) {
            Some(k) => Some(
                KeystrokeView {
                    ime_key: if k.ime_key is Some {
                        k.ime_key
                    } else {
                        Some(ime_key)
                    },
                    ..k
                },
            ),
            None => None,
        }),
{
    let none = modifiers::no_modifiers();
    let tail = next + rest;
    let parts = text::split(tail, seq!['-']);
    let dash = tail.len() > 0 && tail.last() == '-';
    let longer_dash = tail.len() == 0 || tail.last() == '-';
    lemma_read_after_ime_key(key, ime_key, tail);
    if rest.len() == 0 {
        assert(tail =~= next);
        text::lemma_split_whole(next, '-');
    } else {
        assert(tail =~= next + seq!['-'] + rest.skip(1));
        text::lemma_split_first(next, '-', rest.skip(1));
    }
    assert(parts.len() > 0 && parts[0] == next);
    lemma_press_word(none, next);
    lemma_later_key_counts(parts, longer_dash, none, key, ime_key);
    assert(keystroke::read_components(parts, longer_dash, none, None, None)
        == keystroke::read_components(parts, dash, none, None, None));
}

/// Modifiers can also be written after the IME key, and are pressed too.
pub proof fn law_modifier_after_an_ime_key_is_pressed(
    key: Seq<char>,
    ime_key: Seq<char>,
    word: Seq<char>,
    rest: Seq<char>,
)
    requires
        names_key(key),
        ime_key.len() > 0,
        !ime_key.contains('-'),
        names_modifier(word),
    ensures
        keystroke::read_keystroke(
            key + seq!['-'] + ((seq!['>'] + ime_key) + seq!['-'] + word),
        ) == Some(with_pressed(bare(key, Some(ime_key)), word)),
        keystroke::read_keystroke(
            key + seq!['-'] + ((seq!['>'] + ime_key) + seq!['-'] + (word + seq!['-'] + rest)),
        ) == (match keystroke::read_keystroke(
            key + seq!['-'] + ((seq!['>'] + ime_key) + seq!['-'] + rest),
        ) {
            Some(k) => Some(with_pressed(k, word)),
            None => None,
        }),
{
    let none = modifiers::no_modifiers();
    lemma_modifier_words(word);
    lemma_press_word(none, word);
    lemma_read_after_ime_key(key, ime_key, word);
    text::lemma_split_whole(word, '-');
    assert(seq![word].skip(1) =~= Seq::empty());
    reveal_with_fuel(keystroke::read_components, 2);
    let more = word + seq!['-'] + rest;
    lemma_read_after_ime_key(key, ime_key, more);
    lemma_read_after_ime_key(key, ime_key, rest);
    text::lemma_split_first(word, '-', rest);
    let parts = text::split(more, seq!['-']);
    let after = text::split(rest, seq!['-']);
    assert(parts[0] == word && parts.skip(1) =~= after);
    let dash = rest.len() == 0 || rest.last() == '-';
    assert(more.last() == (if rest.len() == 0 {
        '-'
    } else {
        rest.last()
    }));
    lemma_press_first(after, dash, none, Some(key), Some(ime_key), word);
}

/// The command key can be called by any of its three names.
pub proof fn law_names_of_the_platform_key(source: Seq<char>)
    ensures
        keystroke::read_keystroke("cmd"@ + seq!['-'] + source)
            == keystroke::read_keystroke("super"@ + seq!['-'] + source),
        keystroke::read_keystroke("cmd"@ + seq!['-'] + source)
            == keystroke::read_keystroke("win"@ + seq!['-'] + source),
{
    lemma_names_differ();
    law_modifier_in_front_is_pressed("cmd"@, source);
    law_modifier_in_front_is_pressed("super"@, source);
    law_modifier_in_front_is_pressed("win"@, source);
}

/// What every step of reading keeps: the key and the IME key come from
/// components, which hold no dash.
proof fn lemma_read_shape(
    parts: Seq<Seq<char>>,
    ends_in_dash: bool,
    held: Modifiers,
    key: Option<Seq<char>>,
    ime_key: Option<Seq<char>>,
)
    requires
        forall|i: int| 0 <= i < parts.len() ==> !(#[trigger] parts[i]).contains('-'),
        key matches Some(text) ==> !text.contains('-') && !names_modifier(text),
        ime_key matches Some(text) ==> text.len() > 0 && !text.contains('-'),
    ensures
        keystroke::read_components(parts, ends_in_dash, held, key, ime_key) matches Some(k)
            ==> {
            &&& k.key == seq!['-'] || !k.key.contains('-')
            &&& !names_modifier(k.key)
            &&& k.ime_key matches Some(text) ==> text.len() > 0 && !text.contains('-')
        },
    decreases parts.len(),
{
    if parts.len() > 0 {
        lemma_press_word(held, parts[0]);
        if names_modifier(parts[0]) {
            let next = holding_too(held, parts[0]);
            lemma_read_shape(parts.skip(1), ends_in_dash, next, key, ime_key);
        } else if parts.len() > 1 {
            if parts[1].len() == 0 && ends_in_dash {
                lemma_modifier_words(seq!['-']);
                assert(seq!['-'][0] == '-');
                assert(seq!['-'].contains('-'));
            } else if parts[1].len() > 1 && parts[1][0] == '>' {
                let text = parts[1].skip(1);
                assert(!text.contains('-')) by {
                    if text.contains('-') {
                        let i = choose|i: int| 0 <= i < text.len() && text[i] == '-';
                        assert(parts[1][i + 1] == '-');
                    }
                }
                lemma_read_shape(parts.skip(2), ends_in_dash, held, Some(parts[0]), Some(text));
            }
        }
    }
}

/// A keystroke that was read from a text has a key that is the dash or holds
/// none, and that does not name a modifier; its IME key, if it has one, is not
/// empty and holds no dash.
pub proof fn law_shape_of_what_is_read(source: Seq<char>)
    ensures
        keystroke::read_keystroke(source) matches Some(k) ==> {
            &&& k.key == seq!['-'] || !k.key.contains('-')
            &&& !names_modifier(k.key)
            &&& k.ime_key matches Some(text) ==> text.len() > 0 && !text.contains('-')
        },
{
    let parts = text::split(source, seq!['-']);
    assert forall|k: int| 0 <= k < parts.len() implies !(#[trigger] parts[k]).contains('-') by {
        if parts[k].contains('-') {
            let i = choose|i: int| 0 <= i < parts[k].len() && parts[k][i] == '-';
            assert(parts[k].subrange(i, i + 1) =~= seq!['-']);
            text::law_pieces_hold_no_separator(source, seq!['-'], k, i);
        }
    }
    lemma_read_shape(
        parts,
        source.len() > 0 && source.last() == '-',
        modifiers::no_modifiers(),
        None,
        None,
    );
}

/// The key and the IME key alone, without modifiers, are read as they were
/// written.
proof fn lemma_read_written_key(k: KeystrokeView)
    requires
        k.modifiers == modifiers::no_modifiers(),
        expressible(k),
    ensures
        keystroke::read_keystroke(written_key(k)) == Some(k),
{
    let source = written_key(k);
    let parts = text::split(source, seq!['-']);
    match k.ime_key {
        Some(ime_key) => {
            let last = seq!['>'] + ime_key;
            assert(!last.contains('-')) by {
                if last.contains('-') {
                    let i = choose|i: int| 0 <= i < last.len() && last[i] == '-';
                    assert(i > 0);
                    assert(ime_key[i - 1] == '-');
                }
            }
            text::lemma_split_first(k.key, '-', last);
            text::lemma_split_whole(last, '-');
            assert(parts =~= seq![k.key, last]);
            assert(last.skip(1) =~= ime_key);
            reveal_with_fuel(keystroke::read_components, 2);
        },
        None => {
            if k.key == seq!['-'] {
                let nothing = Seq::<char>::empty();
                text::lemma_split_first(nothing, '-', nothing);
                assert(nothing + seq!['-'] + nothing =~= source);
                text::lemma_split_whole(nothing, '-');
                assert(parts =~= seq![nothing, nothing]);
                lemma_modifier_words(nothing);
            } else {
                text::lemma_split_whole(k.key, '-');
            }
        },
    }
}

/// Writing the modifier `word` in front of a text, if it is held.
proof fn lemma_read_prefixed(held: bool, word: Seq<char>, rest: Seq<char>)
    requires
        names_modifier(word),
    ensures
        keystroke::read_keystroke(written_modifier(held, word) + rest) == (
        match keystroke::read_keystroke(rest) {
            Some(k) => Some(
                if held {
                    with_pressed(k, word)
                } else {
                    k
                },
            ),
            None => None,
        }),
{
    if held {
        law_modifier_in_front_is_pressed(word, rest);
    } else {
        assert(Seq::<char>::empty() + rest =~= rest);
    }
}

/// What is read from a keystroke in the key syntax is what is read from its key
/// and IME key, with its modifiers held.
proof fn lemma_read_written(k: KeystrokeView)
    ensures
        keystroke::read_keystroke(written(k)) == (match keystroke::read_keystroke(
            written_key(k),
        ) {
            Some(read) => Some(
                KeystrokeView {
                    modifiers: Modifiers {
                        control: read.modifiers.control || k.modifiers.control,
                        alt: read.modifiers.alt || k.modifiers.alt,
                        shift: read.modifiers.shift || k.modifiers.shift,
                        platform: read.modifiers.platform || k.modifiers.platform,
                        function: read.modifiers.function || k.modifiers.function,
                    },
                    ..read
                },
            ),
            None => None,
        }),
{
    lemma_names_differ();
    let held = k.modifiers;
    let key = written_key(k);
    let function = written_modifier(held.function, "fn"@) + key;
    let platform = written_modifier(held.platform, "cmd"@) + function;
    let shift = written_modifier(held.shift, "shift"@) + platform;
    let alt = written_modifier(held.alt, "alt"@) + shift;
    lemma_read_prefixed(held.function, "fn"@, key);
    lemma_read_prefixed(held.platform, "cmd"@, function);
    lemma_read_prefixed(held.shift, "shift"@, platform);
    lemma_read_prefixed(held.alt, "alt"@, shift);
    lemma_read_prefixed(held.control, "ctrl"@, alt);
}

/// A keystroke that is written in the key syntax is read back as it was, where
/// the syntax can express its key and IME key.
pub proof fn law_written_keystroke_is_read_back(k: KeystrokeView)
    requires
        expressible(k),
    ensures
        keystroke::read_keystroke(written(k)) == Some(k),
{
    let bare = KeystrokeView { modifiers: modifiers::no_modifiers(), ..k };
    assert(written_key(bare) == written_key(k));
    assert(keystroke::read_keystroke(written_key(k)) == Some(bare)) by {
        lemma_read_written_key(bare);
    }
    assert(keystroke::read_keystroke(written(k)) == Some(k)) by {
        lemma_read_written(k);
    }
}

/// No keystroke that the key syntax cannot express is read back from what it
/// would be written as.
pub proof fn law_inexpressible_keystroke_is_not_read_back(k: KeystrokeView)
    requires
        !expressible(k),
    ensures
        keystroke::read_keystroke(written(k)) != Some(k),
{
    law_shape_of_what_is_read(written(k));
    if keystroke::read_keystroke(written(k)) == Some(k) {
        let ime_key = k.ime_key->0;
        assert(k.ime_key is Some && k.key == seq!['-']);
        lemma_read_written(k);
        let source = written_key(k);
        let last = seq!['>'] + ime_key;
        let nothing = Seq::<char>::empty();
        assert(!last.contains('-')) by {
            if last.contains('-') {
                let i = choose|i: int| 0 <= i < last.len() && last[i] == '-';
                assert(i > 0);
                assert(ime_key[i - 1] == '-');
            }
        }
        assert(source =~= nothing + seq!['-'] + (nothing + seq!['-'] + last));
        text::lemma_split_first(nothing, '-', nothing + seq!['-'] + last);
        text::lemma_split_first(nothing, '-', last);
        text::lemma_split_whole(last, '-');
        let parts = text::split(source, seq!['-']);
        assert(parts =~= seq![nothing, nothing, last]);
        assert(source.last() == ime_key.last());
        assert(ime_key.contains(ime_key.last()));
        lemma_modifier_words(nothing);
        assert(keystroke::read_keystroke(source) is None);
    }
}

/// A keystroke is matched without its IME key: no candidate has one. The last
/// candidate is the key that was pressed, with all its modifiers.
pub proof fn law_candidates_have_no_ime_key(k: KeystrokeView, i: int)
    requires
        0 <= i < keystroke::candidates(k).len(),
    ensures
        keystroke::candidates(k)[i].ime_key is None,
        keystroke::candidates(k).last() == (KeystrokeView { ime_key: None, ..k }),
        keystroke::candidates(k).len() <= 2,
{
}

/// A candidate has no candidate but itself.
pub proof fn law_candidate_is_its_own_candidate(k: KeystrokeView, i: int)
    requires
        0 <= i < keystroke::candidates(k).len(),
    ensures
        keystroke::candidates(keystroke::candidates(k)[i])
            == seq![keystroke::candidates(k)[i]],
{
}

/// Simulating the IME leaves the key and the modifiers as they are, and so it
/// does an IME key that is there. Doing it again changes nothing.
pub proof fn law_simulating_ime_twice_is_once(
    k: KeystrokeView,
    upper: Seq<char>,
    other_upper: Seq<char>,
)
    ensures
        ({
            let once = keystroke::simulate_ime(k, upper);
            &&& once.key == k.key
            &&& once.modifiers == k.modifiers
            &&& k.ime_key is Some ==> once == k
            &&& keystroke::simulate_ime(once, other_upper) == once
        }),
{
}

/// Where a keystroke inserted something else than its key, whatever modifiers it
/// holds, there are two candidates. The first has what was inserted as its key
/// and holds control if the keystroke does, and no other modifier. Otherwise
/// the keystroke without its IME key is the only candidate.
pub proof fn law_inserted_text_is_tried_first(k: KeystrokeView)
    ensures
        k.ime_key is Some && k.ime_key->0 != k.key ==> {
            let first = keystroke::candidates(k)[0];
            &&& keystroke::candidates(k).len() == 2
            &&& first.key == k.ime_key->0
            &&& first.ime_key is None
            &&& first.modifiers.control == k.modifiers.control
            &&& !first.modifiers.alt
            &&& !first.modifiers.shift
            &&& !first.modifiers.platform
            &&& !first.modifiers.function
        },
        k.ime_key is None || k.ime_key->0 == k.key ==> keystroke::candidates(k).len() == 1,
        keystroke::candidates(k).last().key == k.key,
        keystroke::candidates(k).last().modifiers == k.modifiers,
        keystroke::candidates(k).last().ime_key is None,
{
}

/// Whether a key is one of those that insert nothing.
pub open spec fn is_silent(key: Seq<char>) -> bool {
    exists|i: int| 0 <= i < silent_keys().len() && #[trigger] silent_keys()[i] == key
}

/// The keys that insert nothing: those that move, delete or cancel, and the
/// function keys.
pub open spec fn silent_keys() -> Seq<Seq<char>> {
    seq![
        "up"@,
        "down"@,
        "left"@,
        "right"@,
        "pageup"@,
        "pagedown"@,
        "home"@,
        "end"@,
        "delete"@,
        "escape"@,
        "backspace"@,
        "f1"@,
        "f2"@,
        "f3"@,
        "f4"@,
        "f5"@,
        "f6"@,
        "f7"@,
        "f8"@,
        "f9"@,
        "f10"@,
        "f11"@,
        "f12"@,
    ]
}

/// Whether the IME is simulated for a keystroke: it has no IME key and is not a
/// shortcut. Shift makes no shortcut.
pub open spec fn is_typed(k: KeystrokeView) -> bool {
    &&& k.ime_key is None
    &&& !k.modifiers.control
    &&& !k.modifiers.alt
    &&& !k.modifiers.platform
    &&& !k.modifiers.function
}

/// The names of the keys that insert nothing or a blank have more than one
/// character, and those that insert a blank differ from each other.
proof fn lemma_named_keys(key: Seq<char>)
    ensures
        is_silent(key) <==> keystroke::inserts_nothing(key),
        is_silent(key) ==> key.len() > 1 && key != "space"@ && key != "tab"@ && key != "enter"@,
        "space"@.len() == 5,
        "tab"@.len() == 3,
        "enter"@.len() == 5,
        "space"@ != "enter"@,
        " "@ == seq![' '],
        "\t"@ == seq!['\t'],
        "\n"@ == seq!['\n'],
{
    let names = silent_keys();
    assert(names[0] == "up"@ && names[1] == "down"@ && names[2] == "left"@ && names[3] == "right"@);
    assert(names[4] == "pageup"@ && names[5] == "pagedown"@ && names[6] == "home"@);
    assert(names[7] == "end"@ && names[8] == "delete"@ && names[9] == "escape"@);
    assert(names[10] == "backspace"@ && names[11] == "f1"@ && names[12] == "f2"@);
    assert(names[13] == "f3"@ && names[14] == "f4"@ && names[15] == "f5"@ && names[16] == "f6"@);
    assert(names[17] == "f7"@ && names[18] == "f8"@ && names[19] == "f9"@ && names[20] == "f10"@);
    assert(names[21] == "f11"@ && names[22] == "f12"@);
    reveal_strlit("up");
    reveal_strlit("down");
    reveal_strlit("left");
    reveal_strlit("right");
    reveal_strlit("pageup");
    reveal_strlit("pagedown");
    reveal_strlit("home");
    reveal_strlit("end");
    reveal_strlit("delete");
    reveal_strlit("escape");
    reveal_strlit("backspace");
    reveal_strlit("f1");
    reveal_strlit("f2");
    reveal_strlit("f3");
    reveal_strlit("f4");
    reveal_strlit("f5");
    reveal_strlit("f6");
    reveal_strlit("f7");
    reveal_strlit("f8");
    reveal_strlit("f9");
    reveal_strlit("f10");
    reveal_strlit("f11");
    reveal_strlit("f12");
    reveal_strlit("space");
    reveal_strlit("tab");
    reveal_strlit("enter");
    reveal_strlit(" ");
    reveal_strlit("\t");
    reveal_strlit("\n");
    assert("space"@[0] == 's' && "enter"@[0] == 'e' && "tab"@[0] == 't');
    assert("right"@[0] == 'r' && "end"@[0] == 'e' && "f10"@[0] == 'f' && "f11"@[0] == 'f'
        && "f12"@[0] == 'f');
}

/// A keystroke that is typed gets no IME key exactly where its key is one of
/// those that insert nothing.
pub proof fn law_only_silent_keys_insert_nothing(k: KeystrokeView, upper: Seq<char>)
    requires
        is_typed(k),
    ensures
        keystroke::simulate_ime(k, upper).ime_key is None <==> is_silent(k.key),
{
    lemma_named_keys(k.key);
}

/// A key that inserts nothing special inserts itself, or its upper case where
/// shift is held. So does every key of a single character.
pub proof fn law_other_keys_insert_themselves(k: KeystrokeView, upper: Seq<char>)
    requires
        is_typed(k),
        k.key.len() == 1 || !is_silent(k.key) && k.key != "space"@ && k.key != "tab"@ && k.key
            != "enter"@,
    ensures
        keystroke::simulate_ime(k, upper).ime_key == Some(
            if k.modifiers.shift {
                upper
            } else {
                k.key
            },
        ),
{
    lemma_named_keys(k.key);
}

/// The keys for blanks insert these, with or without shift.
pub proof fn law_blanks_are_inserted(k: KeystrokeView, upper: Seq<char>)
    requires
        is_typed(k),
    ensures
        k.key == "space"@ ==> keystroke::simulate_ime(k, upper).ime_key == Some(seq![' ']),
        k.key == "tab"@ ==> keystroke::simulate_ime(k, upper).ime_key == Some(seq!['\t']),
        k.key == "enter"@ ==> keystroke::simulate_ime(k, upper).ime_key == Some(seq!['\n']),
{
    lemma_named_keys(k.key);
}

/// A keystroke that is not typed stays as it is.
pub proof fn law_shortcuts_stay_as_they_are(k: KeystrokeView, upper: Seq<char>)
    requires
        !is_typed(k),
    ensures
        keystroke::simulate_ime(k, upper) == k,
{
}

/// What the symbols for modifier keys are.
proof fn lemma_symbols()
    ensures
        "^"@ == seq!['^'],
        "⌥"@ == seq!['⌥'],
        "⌘"@ == seq!['⌘'],
        "❖"@ == seq!['❖'],
        "⊞"@ == seq!['⊞'],
        "⇧"@ == seq!['⇧'],
{
    reveal_strlit("^");
    reveal_strlit("⌥");
    reveal_strlit("⌘");
    reveal_strlit("❖");
    reveal_strlit("⊞");
    reveal_strlit("⇧");
}

/// Each modifier is shown by itself. Holding control too puts its symbol in
/// front of the label, whatever else is held. Holding alt, the platform key or
/// shift too does the same among those that come after it in this order.
pub proof fn law_each_modifier_is_shown(k: KeystrokeView, os: TargetOs)
    ensures
        ({
            let held = k.modifiers;
            let with = |modifiers: Modifiers| keystroke::keystroke_label(
                KeystrokeView { modifiers, ..k },
                os,
            );
            &&& !held.control ==> with(Modifiers { control: true, ..held }) == seq!['^'] + with(held)
            &&& !held.control && !held.alt ==> with(Modifiers { alt: true, ..held }) == seq!['⌥']
                + with(held)
            &&& !held.control && !held.alt && !held.platform ==> with(
                Modifiers { platform: true, ..held },
            ) == (match os {
                TargetOs::MacOs => seq!['⌘'],
                TargetOs::Linux => seq!['❖'],
                TargetOs::Windows => seq!['⊞'],
                TargetOs::Other => Seq::<char>::empty(),
            }) + with(held)
            &&& !held.control && !held.alt && !held.platform && !held.shift ==> with(
                Modifiers { shift: true, ..held },
            ) == seq!['⇧'] + with(held)
        }),
{
    lemma_symbols();
    let held = k.modifiers;
    let label = keystroke::keystroke_label(k, os);
    let control = KeystrokeView { modifiers: Modifiers { control: true, ..held }, ..k };
    let alt = KeystrokeView { modifiers: Modifiers { alt: true, ..held }, ..k };
    let platform = KeystrokeView { modifiers: Modifiers { platform: true, ..held }, ..k };
    let shift = KeystrokeView { modifiers: Modifiers { shift: true, ..held }, ..k };
    assert(KeystrokeView { modifiers: held, ..k } == k);
    if !held.control {
        assert(keystroke::keystroke_label(control, os) =~= seq!['^'] + label);
        if !held.alt {
            assert(keystroke::keystroke_label(alt, os) =~= seq!['⌥'] + label);
            if !held.platform {
                assert(keystroke::keystroke_label(platform, os) =~= keystroke::platform_symbol(os)
                    + label);
                if !held.shift {
                    assert(keystroke::keystroke_label(shift, os) =~= seq!['⇧'] + label);
                }
            }
        }
    }
}

/// Neither the function key nor the IME key is shown.
pub proof fn law_function_and_ime_key_are_not_shown(
    k: KeystrokeView,
    function: bool,
    ime_key: Option<Seq<char>>,
    os: TargetOs,
)
    ensures
        keystroke::keystroke_label(
            KeystrokeView { modifiers: Modifiers { function, ..k.modifiers }, ime_key, ..k },
            os,
        ) == keystroke::keystroke_label(k, os),
{
}

/// Without control, alt, the platform key and shift, the label is that of the
/// key. Seven keys have symbols. A key of one ASCII character is shown by that
/// character, a small letter by the capital one. Any other key is shown by its
/// name.
pub proof fn law_label_of_a_key_without_modifiers(k: KeystrokeView, os: TargetOs)
    requires
        !k.modifiers.control,
        !k.modifiers.alt,
        !k.modifiers.platform,
        !k.modifiers.shift,
    ensures
        ({
            let label = keystroke::keystroke_label(k, os);
            &&& k.key == "backspace"@ ==> label == seq!['⌫']
            &&& k.key == "up"@ ==> label == seq!['↑']
            &&& k.key == "down"@ ==> label == seq!['↓']
            &&& k.key == "left"@ ==> label == seq!['←']
            &&& k.key == "right"@ ==> label == seq!['→']
            &&& k.key == "tab"@ ==> label == seq!['⇥']
            &&& k.key == "escape"@ ==> label == seq!['⎋']
            &&& k.key.len() == 1 ==> {
                &&& label.len() == 1
                &&& if 'a' <= k.key[0] <= 'z' {
                    &&& 'A' <= label[0] <= 'Z'
                    &&& label[0] as int - 'A' as int == k.key[0] as int - 'a' as int
                } else {
                    label[0] == k.key[0]
                }
            }
            &&& k.key.len() != 1 && k.key != "backspace"@ && k.key != "up"@ && k.key != "down"@
                && k.key != "left"@ && k.key != "right"@ && k.key != "tab"@ && k.key != "escape"@
                ==> label == k.key
        }),
{
    reveal_strlit("backspace");
    reveal_strlit("up");
    reveal_strlit("down");
    reveal_strlit("left");
    reveal_strlit("right");
    reveal_strlit("tab");
    reveal_strlit("escape");
    reveal_strlit("⌫");
    reveal_strlit("↑");
    reveal_strlit("↓");
    reveal_strlit("←");
    reveal_strlit("→");
    reveal_strlit("⇥");
    reveal_strlit("⎋");
    assert("backspace"@.len() == 9 && "up"@.len() == 2 && "down"@.len() == 4 && "left"@.len() == 4);
    assert("right"@.len() == 5 && "tab"@.len() == 3 && "escape"@.len() == 6);
    assert("down"@[0] == 'd' && "left"@[0] == 'l');
    assert(keystroke::keystroke_label(k, os) =~= keystroke::key_label(k.key));
    assert("⌫"@ =~= seq!['⌫']);
    assert("↑"@ =~= seq!['↑']);
    assert("↓"@ =~= seq!['↓']);
    assert("←"@ =~= seq!['←']);
    assert("→"@ =~= seq!['→']);
    assert("⇥"@ =~= seq!['⇥']);
    assert("⎋"@ =~= seq!['⎋']);
}

/// On macOS, Linux and Windows, keystrokes with the same key that differ in
/// control, alt, the platform key or shift are shown differently.
pub proof fn law_labels_tell_modifiers_apart(a: KeystrokeView, b: KeystrokeView, os: TargetOs)
    requires
        a.key == b.key,
        os != TargetOs::Other,
        keystroke::keystroke_label(a, os) == keystroke::keystroke_label(b, os),
    ensures
        a.modifiers.control == b.modifiers.control,
        a.modifiers.alt == b.modifiers.alt,
        a.modifiers.platform == b.modifiers.platform,
        a.modifiers.shift == b.modifiers.shift,
{
    lemma_symbols();
    let key = keystroke::key_label(a.key);
    let front_a = lemma_symbols_in_front(a, os);
    let front_b = lemma_symbols_in_front(b, os);
    assert(front_a =~= keystroke::keystroke_label(a, os).take(front_a.len() as int));
    assert(front_b =~= keystroke::keystroke_label(b, os).take(front_b.len() as int));
    assert(front_a.len() + key.len() == front_b.len() + key.len());
    assert(front_a == front_b);
}

/// The symbols in front of the key in a label: each stands there exactly where
/// its modifier is held.
proof fn lemma_symbols_in_front(k: KeystrokeView, os: TargetOs) -> (front: Seq<char>)
    requires
        os != TargetOs::Other,
    ensures
        keystroke::keystroke_label(k, os) == front + keystroke::key_label(k.key),
        front.contains('^') == k.modifiers.control,
        front.contains('⌥') == k.modifiers.alt,
        front.contains(keystroke::platform_symbol(os)[0]) == k.modifiers.platform,
        front.contains('⇧') == k.modifiers.shift,
{
    lemma_symbols();
    let held = k.modifiers;
    let c = keystroke::shown_if(held.control, "^"@);
    let a = keystroke::shown_if(held.alt, "⌥"@);
    let p = keystroke::shown_if(held.platform, keystroke::platform_symbol(os));
    let s = keystroke::shown_if(held.shift, "⇧"@);
    let front = c + a + p + s;
    if held.control {
        assert(front[0] == '^');
    }
    if held.alt {
        assert(front[c.len() as int] == '⌥');
    }
    if held.platform {
        assert(front[(c + a).len() as int] == keystroke::platform_symbol(os)[0]);
    }
    if held.shift {
        assert(front[(c + a + p).len() as int] == '⇧');
    }
    front
}

/// The message for a text that is not a keystroke quotes the text.
pub proof fn law_message_quotes_the_text(source: Seq<char>)
    ensures
        ({
            let message = keystroke::invalid_message(source);
            let front = "Invalid keystroke `"@;
            &&& message.len() == front.len() + source.len() + 1
            &&& front.is_prefix_of(message)
            &&& message.subrange(front.len() as int, (front.len() + source.len()) as int) == source
            &&& message.last() == '`'
        }),
{
    reveal_strlit("`");
    let message = keystroke::invalid_message(source);
    let front = "Invalid keystroke `"@;
    assert(message.subrange(0, front.len() as int) =~= front);
    assert(message.subrange(front.len() as int, (front.len() + source.len()) as int) =~= source);
}

/// The view of a keystroke holds all that the keystroke holds.
pub proof fn law_view_holds_the_keystroke(k: keystroke::Keystroke)
    ensures
        k@.modifiers == k.modifiers,
        k@.key == k.key@,
        k@.ime_key is Some <==> k.ime_key is Some,
        k.ime_key is Some ==> k@.ime_key->0 == k.ime_key->0@,
{
}

} // verus!
