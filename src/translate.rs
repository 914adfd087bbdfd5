use vstd::prelude::*;
use crate::text::text_eq;

verus! {

/// A two-state device capability as the compositor reports it.
#[derive(Clone, Copy, Debug, PartialEq, Eq, Structural)]
pub enum EnabledOrDisabled {
    Enabled,
    Disabled,
}

/// Whether a device sends events, as the compositor reports it.
#[derive(Clone, Copy, Debug, PartialEq, Eq, Structural)]
pub enum SendEvents {
    Enabled,
    Disabled,
    DisabledOnExternalMouse,
}

/// Conversion of a compositor value into a settings-store value.
pub trait SwayTypeToPrimitive<T> {
    spec fn primitive_of(&self) -> T;

    fn to_primitive(&self) -> (r: T)
        ensures
            r == self.primitive_of(),
    ;
}

/// Conversion of a settings-store value into a compositor value.
pub trait PrimitiveToSwayType<T> {
    spec fn sway_type_of(self) -> T;

    fn to_sway_type(self) -> (r: T)
        ensures
            r == self.sway_type_of(),
    ;
}

/// The command token of a boolean capability.
pub open spec fn toggle_text(b: bool) -> Seq<char> {
    if b {
        "enabled"@
    } else {
        "disabled"@
    }
}

/// The command token of a boolean capability.
pub fn toggle_token(b: bool) -> (r: &'static str)
    ensures
        r@ == toggle_text(b),
{
    if b {
        "enabled"
    } else {
        "disabled"
    }
}

impl SwayTypeToPrimitive<bool> for EnabledOrDisabled {
    open spec fn primitive_of(&self) -> bool {
        *self == EnabledOrDisabled::Enabled
    }

    fn to_primitive(&self) -> (r: bool) {
        match self {
            EnabledOrDisabled::Enabled => true,
            EnabledOrDisabled::Disabled => false,
        }
    }
}

impl SwayTypeToPrimitive<&'static str> for EnabledOrDisabled {
    open spec fn primitive_of(&self) -> &'static str {
        match self {
            EnabledOrDisabled::Enabled => "enabled",
            EnabledOrDisabled::Disabled => "disabled",
        }
    }

    fn to_primitive(&self) -> (r: &'static str) {
        match self {
            EnabledOrDisabled::Enabled => "enabled",
            EnabledOrDisabled::Disabled => "disabled",
        }
    }
}

impl PrimitiveToSwayType<EnabledOrDisabled> for bool {
    open spec fn sway_type_of(self) -> EnabledOrDisabled {
        if self {
            EnabledOrDisabled::Enabled
        } else {
            EnabledOrDisabled::Disabled
        }
    }

    fn to_sway_type(self) -> (r: EnabledOrDisabled) {
        if self {
            EnabledOrDisabled::Enabled
        } else {
            EnabledOrDisabled::Disabled
        }
    }
}

impl SwayTypeToPrimitive<bool> for SendEvents {
    open spec fn primitive_of(&self) -> bool {
        *self == SendEvents::Enabled
    }

    fn to_primitive(&self) -> (r: bool) {
        match self {
            SendEvents::Enabled => true,
            _ => false,
        }
    }
}

impl SwayTypeToPrimitive<&'static str> for SendEvents {
    open spec fn primitive_of(&self) -> &'static str {
        match self {
            SendEvents::Enabled => "enabled",
            SendEvents::Disabled => "disabled",
            SendEvents::DisabledOnExternalMouse => "disabled_on_external_mouse",
        }
    }

    fn to_primitive(&self) -> (r: &'static str) {
        match self {
            SendEvents::Enabled => "enabled",
            SendEvents::Disabled => "disabled",
            SendEvents::DisabledOnExternalMouse => "disabled_on_external_mouse",
        }
    }
}

/// The scroll method derived from the two scrolling flags: two-finger
/// scrolling wins over edge scrolling.
pub open spec fn scroll_method_text(two_finger: bool, edge: bool) -> Seq<char> {
    if two_finger {
        "two_finger"@
    } else if edge {
        "edge"@
    } else {
        "none"@
    }
}

/// The scroll method derived from the two scrolling flags.
pub fn scroll_method(two_finger: bool, edge: bool) -> (r: &'static str)
    ensures
        r@ == scroll_method_text(two_finger, edge),
{
    if two_finger {
        "two_finger"
    } else if edge {
        "edge"
    } else {
        "none"
    }
}

/// The compositor's click method for a click-method setting.
pub open spec fn click_method_text(setting: Seq<char>) -> Seq<char> {
    if setting == "areas"@ {
        "button_areas"@
    } else if setting == "fingers"@ {
        "clickfinger"@
    } else {
        "none"@
    }
}

/// The compositor's click method for a click-method setting.
pub fn click_method(setting: &str) -> (r: &'static str)
    ensures
        r@ == click_method_text(setting@),
{
    if text_eq(setting, "areas") {
        "button_areas"
    } else if text_eq(setting, "fingers") {
        "clickfinger"
    } else {
        "none"
    }
}

/// Left-handedness of a touch device with a tri-state preference; `mouse`
/// defers to the pointer's own flag, any other value is malformed.
pub open spec fn left_handed_choice(pref: Seq<char>, mouse_left_handed: bool) -> Option<bool> {
    if pref == "left"@ {
        Some(true)
    } else if pref == "right"@ {
        Some(false)
    } else if pref == "mouse"@ {
        Some(mouse_left_handed)
    } else {
        None
    }
}

/// Left-handedness of a touch device with a tri-state preference.
pub fn left_handed_preference(pref: &str, mouse_left_handed: bool) -> (r: Option<bool>)
    ensures
        r == left_handed_choice(pref@, mouse_left_handed),
{
    if text_eq(pref, "left") {
        Some(true)
    } else if text_eq(pref, "right") {
        Some(false)
    } else if text_eq(pref, "mouse") {
        Some(mouse_left_handed)
    } else {
        None
    }
}

} // verus!
