//! The modifier keys that are held while a key is pressed.

use vstd::prelude::*;

verus! {

/// The operating system that a keystroke is interpreted on.
#[derive(Copy, Clone, Debug, PartialEq, Eq, Hash, Structural)]
pub enum TargetOs {
    /// macOS
    MacOs,
    /// Linux
    Linux,
    /// Windows
    Windows,
    /// Any other system
    Other,
}

/// The state of the modifier keys at some point in time
#[derive(Copy, Clone, Debug, PartialEq, Eq, Hash, Structural)]
pub struct Modifiers {
    /// The control key
    pub control: bool,
    /// The alt key
    /// Sometimes also known as the 'meta' key
    pub alt: bool,
    /// The shift key
    pub shift: bool,
    /// The command key, on macos
    /// the windows key, on windows
    /// the super key, on linux
    pub platform: bool,
    /// The function key
    pub function: bool,
}

/// No modifier key held.
pub open spec fn no_modifiers() -> Modifiers {
    Modifiers { control: false, alt: false, shift: false, platform: false, function: false }
}

/// Every modifier key held in `small` is held in `large`.
pub open spec fn subset(small: Modifiers, large: Modifiers) -> bool {
    &&& (small.control ==> large.control)
    &&& (small.alt ==> large.alt)
    &&& (small.shift ==> large.shift)
    &&& (small.platform ==> large.platform)
    &&& (small.function ==> large.function)
}

/// Whether any modifier key is held.
pub open spec fn any_held(held: Modifiers) -> bool {
    held.control || held.alt || held.shift || held.platform || held.function
}

/// Whether the secondary key of a system is held.
pub open spec fn secondary_held(held: Modifiers, os: TargetOs) -> bool {
    if os == TargetOs::MacOs {
        held.platform
    } else {
        held.control
    }
}

/// Only the modifier key that shortcuts use by default: command on macOS,
/// control elsewhere.
pub open spec fn secondary_modifiers(os: TargetOs) -> Modifiers {
    match os {
        TargetOs::MacOs => Modifiers { platform: true, ..no_modifiers() },
        _ => Modifiers { control: true, ..no_modifiers() },
    }
}

impl Default for Modifiers {
    fn default() -> (modifiers: Self)
        ensures
            modifiers == no_modifiers(),
    {
        Modifiers { control: false, alt: false, shift: false, platform: false, function: false }
    }
}

impl Modifiers {
    /// Returns true if any modifier key is pressed
    pub fn modified(&self) -> (any: bool)
        ensures
            any == (self.control || self.alt || self.shift || self.platform || self.function),
            any == any_held(*self),
    {
        self.control || self.alt || self.shift || self.platform || self.function
    }

    /// Whether the semantically 'secondary' modifier key is pressed
    /// On macos, this is the command key
    /// On windows and linux, this is the control key
    pub fn secondary(&self, os: TargetOs) -> (pressed: bool)
        ensures
            pressed == (if os == TargetOs::MacOs {
                self.platform
            } else {
                self.control
            }),
            pressed == secondary_held(*self, os),
    {
        match os {
            TargetOs::MacOs => self.platform,
            _ => self.control,
        }
    }

    /// helper method for Modifiers with no modifiers
    pub fn none() -> (modifiers: Modifiers)
        ensures
            modifiers == no_modifiers(),
    {
        Default::default()
    }

    /// helper method for Modifiers with just the command key
    pub fn command() -> (modifiers: Modifiers)
        ensures
            modifiers == (Modifiers { platform: true, ..no_modifiers() }),
    {
        Modifiers { platform: true, ..Default::default() }
    }

    /// A helper method for Modifiers with just the secondary key pressed
    pub fn secondary_key(os: TargetOs) -> (modifiers: Modifiers)
        ensures
            modifiers == secondary_modifiers(os),
    {
        match os {
            TargetOs::MacOs => Modifiers { platform: true, ..Default::default() },
            _ => Modifiers { control: true, ..Default::default() },
        }
    }

    /// helper method for Modifiers with just the windows key
    pub fn windows() -> (modifiers: Modifiers)
        ensures
            modifiers == (Modifiers { platform: true, ..no_modifiers() }),
    {
        Modifiers { platform: true, ..Default::default() }
    }

    /// helper method for Modifiers with just the super key
    pub fn super_key() -> (modifiers: Modifiers)
        ensures
            modifiers == (Modifiers { platform: true, ..no_modifiers() }),
    {
        Modifiers { platform: true, ..Default::default() }
    }

    /// helper method for Modifiers with just control
    pub fn control() -> (modifiers: Modifiers)
        ensures
            modifiers == (Modifiers { control: true, ..no_modifiers() }),
    {
        Modifiers { control: true, ..Default::default() }
    }

    /// helper method for Modifiers with just shift
    pub fn shift() -> (modifiers: Modifiers)
        ensures
            modifiers == (Modifiers { shift: true, ..no_modifiers() }),
    {
        Modifiers { shift: true, ..Default::default() }
    }

    /// helper method for Modifiers with command + shift
    pub fn command_shift() -> (modifiers: Modifiers)
        ensures
            modifiers == (Modifiers { shift: true, platform: true, ..no_modifiers() }),
    {
        Modifiers { shift: true, platform: true, ..Default::default() }
    }

    /// helper method for Modifiers with command + shift
    pub fn control_shift() -> (modifiers: Modifiers)
        ensures
            modifiers == (Modifiers { shift: true, platform: true, ..no_modifiers() }),
    {
        Modifiers { shift: true, platform: true, ..Default::default() }
    }

    /// Checks if this Modifiers is a subset of another Modifiers
    pub fn is_subset_of(&self, other: &Modifiers) -> (contained: bool)
        ensures
            contained == subset(*self, *other),
    {
        (other.control || !self.control) && (other.alt || !self.alt) && (other.shift || !self.shift)
            && (other.platform || !self.platform) && (other.function || !self.function)
    }
}

/// Being a subset is a partial order on modifiers.
pub proof fn law_subset_is_a_partial_order(a: Modifiers, b: Modifiers, c: Modifiers)
    ensures
        subset(a, a),
        subset(a, b) && subset(b, a) ==> a == b,
        subset(a, b) && subset(b, c) ==> subset(a, c),
{
}

/// No modifiers is a subset of all modifiers, and modifiers are within it only
/// when none of them is held.
pub proof fn law_no_modifiers_is_least(a: Modifiers)
    ensures
        subset(no_modifiers(), a),
        subset(a, no_modifiers()) <==> !(a.control || a.alt || a.shift || a.platform || a.function),
{
}

/// Any modifier key is held exactly where the modifiers are not those without
/// any, and holding more keys keeps it so.
pub proof fn law_any_held_is_not_none(a: Modifiers, b: Modifiers)
    ensures
        any_held(a) <==> a != no_modifiers(),
        any_held(a) && subset(a, b) ==> any_held(b),
        no_modifiers() == (Modifiers {
            control: false,
            alt: false,
            shift: false,
            platform: false,
            function: false,
        }),
{
}

/// Modifiers are a subset of others exactly where holding both is no more than
/// holding the others.
pub proof fn law_subset_adds_nothing(a: Modifiers, b: Modifiers)
    ensures
        subset(a, b) <==> b == (Modifiers {
            control: a.control || b.control,
            alt: a.alt || b.alt,
            shift: a.shift || b.shift,
            platform: a.platform || b.platform,
            function: a.function || b.function,
        }),
{
}

/// The secondary key is one key: the command key on macOS, and the control key
/// on any other system.
pub proof fn law_secondary_key_of_each_system(os: TargetOs)
    ensures
        secondary_modifiers(os).platform <==> os == TargetOs::MacOs,
        secondary_modifiers(os).control <==> os != TargetOs::MacOs,
        !secondary_modifiers(os).alt,
        !secondary_modifiers(os).shift,
        !secondary_modifiers(os).function,
{
}

/// The secondary key is held exactly where the modifiers with just that key are
/// a subset of those held.
pub proof fn law_secondary_key_is_secondary(a: Modifiers, os: TargetOs)
    ensures
        subset(secondary_modifiers(os), a) <==> secondary_held(a, os),
        subset(secondary_modifiers(os), a) <==> (if os == TargetOs::MacOs {
            a.platform
        } else {
            a.control
        }),
{
}

} // verus!
