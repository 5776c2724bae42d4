use editor_kit::modifiers::{Modifiers, TargetOs};

fn all() -> Vec<Modifiers> {
    let mut list = Vec::new();
    for bits in 0..32u8 {
        list.push(Modifiers {
            control: bits & 1 != 0,
            alt: bits & 2 != 0,
            shift: bits & 4 != 0,
            platform: bits & 8 != 0,
            function: bits & 16 != 0,
        });
    }
    list
}

#[test]
fn modified_by_any_key() {
    assert!(!Modifiers::none().modified());
    assert!(!Modifiers::default().modified());
    for modifiers in all() {
        assert_eq!(modifiers.modified(), modifiers != Modifiers::none());
    }
}

#[test]
fn helpers_press_their_keys() {
    let none = Modifiers::none();
    assert_eq!(Modifiers::command(), Modifiers { platform: true, ..none });
    assert_eq!(Modifiers::windows(), Modifiers { platform: true, ..none });
    assert_eq!(Modifiers::super_key(), Modifiers { platform: true, ..none });
    assert_eq!(Modifiers::control(), Modifiers { control: true, ..none });
    assert_eq!(Modifiers::shift(), Modifiers { shift: true, ..none });
    assert_eq!(Modifiers::command_shift(), Modifiers { platform: true, shift: true, ..none });
    assert_eq!(Modifiers::control_shift(), Modifiers { platform: true, shift: true, ..none });
}

#[test]
fn secondary_key_of_each_system() {
    assert_eq!(Modifiers::secondary_key(TargetOs::MacOs), Modifiers::command());
    for os in [TargetOs::Linux, TargetOs::Windows, TargetOs::Other] {
        assert_eq!(Modifiers::secondary_key(os), Modifiers::control());
        assert!(Modifiers::control().secondary(os));
        assert!(!Modifiers::command().secondary(os));
    }
    assert!(Modifiers::command().secondary(TargetOs::MacOs));
    assert!(!Modifiers::control().secondary(TargetOs::MacOs));
    for os in [TargetOs::MacOs, TargetOs::Linux, TargetOs::Windows, TargetOs::Other] {
        let key = Modifiers::secondary_key(os);
        for modifiers in all() {
            assert_eq!(modifiers.secondary(os), key.is_subset_of(&modifiers));
        }
    }
}

#[test]
fn subset_is_a_partial_order() {
    assert!(Modifiers::shift().is_subset_of(&Modifiers::control_shift()));
    assert!(!Modifiers::control_shift().is_subset_of(&Modifiers::shift()));
    for a in all() {
        assert!(a.is_subset_of(&a));
        assert!(Modifiers::none().is_subset_of(&a));
        assert_eq!(a.is_subset_of(&Modifiers::none()), !a.modified());
        for b in all() {
            assert_eq!(a.is_subset_of(&b) && b.is_subset_of(&a), a == b);
            for c in all() {
                assert!(!(a.is_subset_of(&b) && b.is_subset_of(&c)) || a.is_subset_of(&c));
            }
        }
    }
}
