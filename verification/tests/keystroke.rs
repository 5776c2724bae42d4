use editor_kit::keystroke::{InvalidKeystroke, Keystroke};
use editor_kit::modifiers::{Modifiers, TargetOs};

fn stroke(modifiers: Modifiers, key: &str, ime_key: Option<&str>) -> Keystroke {
    Keystroke {
        modifiers,
        key: key.to_string(),
        ime_key: ime_key.map(|text| text.to_string()),
    }
}

fn reads(source: &str, modifiers: Modifiers, key: &str, ime_key: Option<&str>) {
    assert_eq!(Keystroke::parse(source), Ok(stroke(modifiers, key, ime_key)), "{:?}", source);
}

fn refused(source: &str) {
    let error = Keystroke::parse(source).unwrap_err();
    assert_eq!(error, InvalidKeystroke { source: source.to_string() });
    assert_eq!(error.message(), format!("Invalid keystroke `{}`", source));
}

#[test]
fn parse_plain_keys() {
    reads("a", Modifiers::none(), "a", None);
    reads("pagedown", Modifiers::none(), "pagedown", None);
    reads("ß", Modifiers::none(), "ß", None);
    reads("", Modifiers::none(), "", None);
    reads(">", Modifiers::none(), ">", None);
}

#[test]
fn parse_every_modifier() {
    let all = Modifiers { control: true, alt: true, shift: true, platform: true, function: true };
    reads("ctrl-alt-shift-cmd-fn-x", all, "x", None);
    reads("fn-cmd-shift-alt-ctrl-x", all, "x", None);
    reads("ctrl-a", Modifiers::control(), "a", None);
    reads("shift-a", Modifiers::shift(), "a", None);
    reads("alt-a", Modifiers { alt: true, ..Modifiers::none() }, "a", None);
    reads("fn-a", Modifiers { function: true, ..Modifiers::none() }, "a", None);
    reads("ctrl-ctrl-a", Modifiers::control(), "a", None);
    reads("ctrl-shift-a", Modifiers { control: true, ..Modifiers::shift() }, "a", None);
}

#[test]
fn parse_names_of_the_platform_key() {
    reads("cmd-a", Modifiers::command(), "a", None);
    reads("super-a", Modifiers::super_key(), "a", None);
    reads("win-a", Modifiers::windows(), "a", None);
    reads("cmd-shift-a", Modifiers::command_shift(), "a", None);
}

#[test]
fn parse_dash_as_key() {
    reads("-", Modifiers::none(), "-", None);
    reads("--", Modifiers::none(), "-", None);
    reads("ctrl--", Modifiers::control(), "-", None);
    reads("a-", Modifiers::none(), "-", None);
    reads("ctrl-", Modifiers::control(), "", None);
}

#[test]
fn parse_ime_key() {
    let alt = Modifiers { alt: true, ..Modifiers::none() };
    reads("alt-s->ß", alt, "s", Some("ß"));
    reads("->x", Modifiers::none(), "", Some("x"));
    reads("ctrl->b", Modifiers::control(), ">b", None);
    reads("a->b-ctrl", Modifiers::control(), "a", Some("b"));
    reads("a->b-c", Modifiers::none(), "c", Some("b"));
    reads("a->b--", Modifiers::none(), "-", Some("b"));
    reads("x->y->z", Modifiers::none(), ">z", Some("y"));
}

#[test]
fn parse_refuses() {
    refused("ctrl");
    refused("ctrl-alt");
    refused("a-b");
    refused("a-ctrl");
    refused("a-b-");
    refused("a--b");
    refused("a->");
    refused("a->-");
    refused("-->x");
}

#[test]
fn modifier_in_front_is_pressed() {
    for source in ["", "a", "-", "a->b", "shift-x", "ctrl-x"] {
        let mut pressed = Keystroke::parse(source).unwrap();
        pressed.modifiers.control = true;
        assert_eq!(Keystroke::parse(&format!("ctrl-{}", source)), Ok(pressed));
    }
    for source in ["a-b", "ctrl", "a->"] {
        assert!(Keystroke::parse(&format!("ctrl-{}", source)).is_err());
    }
}

#[test]
fn written_keystroke_is_read_back() {
    let held = Modifiers { control: true, alt: false, shift: true, platform: false, function: true };
    reads("ctrl-shift-fn-enter->x", held, "enter", Some("x"));
    reads("ctrl-shift-fn--", held, "-", None);
    refused("ctrl-shift-fn--->x");
}

#[test]
fn shape_of_what_is_read() {
    for source in ["a", "a->b--", "a->b-c", "ctrl--", "x->y->z", "->x"] {
        let read = Keystroke::parse(source).unwrap();
        assert!(read.key == "-" || !read.key.contains('-'));
        assert!(!["ctrl", "alt", "shift", "fn", "cmd", "super", "win"].contains(&read.key.as_str()));
        if let Some(ime_key) = read.ime_key {
            assert!(!ime_key.is_empty() && !ime_key.contains('-'));
        }
    }
}

#[test]
fn candidates_of_an_ime_keystroke() {
    let held = Modifiers { control: true, alt: true, shift: true, platform: true, function: true };
    let found = stroke(held, "ç", Some("$")).match_candidates().into_vec();
    assert_eq!(found, vec![stroke(Modifiers::control(), "$", None), stroke(held, "ç", None)]);

    let held = Modifiers { alt: true, ..Modifiers::none() };
    let found = stroke(held, "s", Some("ß")).match_candidates().into_vec();
    assert_eq!(found, vec![stroke(Modifiers::none(), "ß", None), stroke(held, "s", None)]);
}

#[test]
fn candidates_of_a_plain_keystroke() {
    let held = Modifiers::command_shift();
    assert_eq!(stroke(held, "a", Some("a")).match_candidates().into_vec(), vec![stroke(held, "a", None)]);
    assert_eq!(stroke(held, "a", None).match_candidates().into_vec(), vec![stroke(held, "a", None)]);
}

#[test]
fn candidate_is_its_own_candidate() {
    let held = Modifiers { alt: true, ..Modifiers::none() };
    for candidate in stroke(held, "s", Some("ß")).match_candidates().into_vec() {
        assert_eq!(candidate.match_candidates().into_vec(), vec![candidate.clone()]);
        assert_eq!(candidate.ime_key, None);
    }
}

fn simulated(modifiers: Modifiers, key: &str) -> Option<String> {
    let filled = stroke(modifiers, key, None).with_simulated_ime();
    assert_eq!(filled.key, key);
    assert_eq!(filled.modifiers, modifiers);
    filled.ime_key
}

#[test]
fn simulated_ime_of_keys() {
    let none = Modifiers::none();
    assert_eq!(simulated(none, "space"), Some(" ".to_string()));
    assert_eq!(simulated(none, "tab"), Some("\t".to_string()));
    assert_eq!(simulated(none, "enter"), Some("\n".to_string()));
    assert_eq!(simulated(none, "a"), Some("a".to_string()));
    assert_eq!(simulated(none, "f13"), Some("f13".to_string()));
    for key in [
        "up", "down", "left", "right", "pageup", "pagedown", "home", "end", "delete", "escape",
        "backspace", "f1", "f2", "f3", "f4", "f5", "f6", "f7", "f8", "f9", "f10", "f11", "f12",
    ] {
        assert_eq!(simulated(none, key), None);
        assert_eq!(simulated(Modifiers::shift(), key), None);
    }
}

#[test]
fn simulated_ime_with_shift() {
    assert_eq!(simulated(Modifiers::shift(), "a"), Some("A".to_string()));
    assert_eq!(simulated(Modifiers::shift(), "ß"), Some("SS".to_string()));
    assert_eq!(simulated(Modifiers::shift(), "space"), Some(" ".to_string()));
    let given = stroke(Modifiers::shift(), "a", None).with_inserted_text("Q".to_string());
    assert_eq!(given.ime_key, Some("Q".to_string()));
    let unused = stroke(Modifiers::none(), "a", None).with_inserted_text("Q".to_string());
    assert_eq!(unused.ime_key, Some("a".to_string()));
}

#[test]
fn simulated_ime_of_shortcuts() {
    assert_eq!(simulated(Modifiers::control(), "a"), None);
    assert_eq!(simulated(Modifiers::command(), "a"), None);
    assert_eq!(simulated(Modifiers { alt: true, ..Modifiers::none() }, "a"), None);
    assert_eq!(simulated(Modifiers { function: true, ..Modifiers::none() }, "space"), None);
    let kept = stroke(Modifiers::none(), "a", Some("b"));
    assert_eq!(kept.clone().with_simulated_ime(), kept);
}

#[test]
fn simulating_ime_twice_is_once() {
    for key in ["a", "up", "space", "é"] {
        for held in [Modifiers::none(), Modifiers::shift(), Modifiers::control()] {
            let once = stroke(held, key, None).with_simulated_ime();
            assert_eq!(once.clone().with_simulated_ime(), once);
        }
    }
}

#[test]
fn shown_keys() {
    let none = Modifiers::none();
    for (key, label) in [
        ("backspace", "⌫"),
        ("up", "↑"),
        ("down", "↓"),
        ("left", "←"),
        ("right", "→"),
        ("tab", "⇥"),
        ("escape", "⎋"),
        ("a", "A"),
        ("z", "Z"),
        ("A", "A"),
        ("1", "1"),
        ("`", "`"),
        ("{", "{"),
        ("é", "é"),
        ("enter", "enter"),
        ("", ""),
    ] {
        assert_eq!(stroke(none, key, None).to_string(TargetOs::Linux), label);
    }
}

#[test]
fn shown_modifiers() {
    let all = Modifiers { control: true, alt: true, shift: true, platform: true, function: true };
    let keystroke = stroke(all, "x", Some("y"));
    assert_eq!(keystroke.to_string(TargetOs::MacOs), "^⌥⌘⇧X");
    assert_eq!(keystroke.to_string(TargetOs::Linux), "^⌥❖⇧X");
    assert_eq!(keystroke.to_string(TargetOs::Windows), "^⌥⊞⇧X");
    assert_eq!(keystroke.to_string(TargetOs::Other), "^⌥⇧X");
    let function = Modifiers { function: true, ..Modifiers::none() };
    assert_eq!(stroke(function, "f1", None).to_string(TargetOs::MacOs), "f1");
}

#[test]
fn keystrokes_are_compared_by_what_they_hold() {
    let one = stroke(Modifiers::shift(), "a", Some("A"));
    assert_eq!(one, one.clone());
    assert_ne!(one, stroke(Modifiers::none(), "a", Some("A")));
    assert_ne!(one, stroke(Modifiers::shift(), "b", Some("A")));
    assert_ne!(one, stroke(Modifiers::shift(), "a", Some("B")));
    assert_ne!(one, stroke(Modifiers::shift(), "a", None));
    assert_eq!(Keystroke::default(), stroke(Modifiers::none(), "", None));
}
