use vstd::prelude::*;
use crate::text::text_eq;
use crate::translate::{EnabledOrDisabled, SendEvents};

verus! {

/// A key of one of the settings stores.
#[derive(Clone, Copy, Debug, PartialEq, Eq, Structural)]
pub enum SettingKey {
    Speed,
    NaturalScroll,
    LeftHanded,
    TapToClick,
    TwoFingerScrolling,
    EdgeScrolling,
    SendEventsMode,
    DisableWhileTyping,
    TapAndDrag,
    TapAndDragLock,
    MiddleClickEmulation,
    ClickMethod,
    RepeatInterval,
    Delay,
    Sources,
}

/// The name of a key in its store.
pub open spec fn key_name(k: SettingKey) -> Seq<char> {
    match k {
        SettingKey::Speed => "speed"@,
        SettingKey::NaturalScroll => "natural-scroll"@,
        SettingKey::LeftHanded => "left-handed"@,
        SettingKey::TapToClick => "tap-to-click"@,
        SettingKey::TwoFingerScrolling => "two-finger-scrolling-enabled"@,
        SettingKey::EdgeScrolling => "edge-scrolling-enabled"@,
        SettingKey::SendEventsMode => "send-events"@,
        SettingKey::DisableWhileTyping => "disable-while-typing"@,
        SettingKey::TapAndDrag => "tap-and-drag"@,
        SettingKey::TapAndDragLock => "tap-and-drag-lock"@,
        SettingKey::MiddleClickEmulation => "middle-click-emulation"@,
        SettingKey::ClickMethod => "click-method"@,
        SettingKey::RepeatInterval => "repeat-interval"@,
        SettingKey::Delay => "delay"@,
        SettingKey::Sources => "sources"@,
    }
}

/// The key of a given name, if any store has one.
pub open spec fn key_named(s: Seq<char>) -> Option<SettingKey> {
    if s == "speed"@ {
        Some(SettingKey::Speed)
    } else if s == "natural-scroll"@ {
        Some(SettingKey::NaturalScroll)
    } else if s == "left-handed"@ {
        Some(SettingKey::LeftHanded)
    } else if s == "tap-to-click"@ {
        Some(SettingKey::TapToClick)
    } else if s == "two-finger-scrolling-enabled"@ {
        Some(SettingKey::TwoFingerScrolling)
    } else if s == "edge-scrolling-enabled"@ {
        Some(SettingKey::EdgeScrolling)
    } else if s == "send-events"@ {
        Some(SettingKey::SendEventsMode)
    } else if s == "disable-while-typing"@ {
        Some(SettingKey::DisableWhileTyping)
    } else if s == "tap-and-drag"@ {
        Some(SettingKey::TapAndDrag)
    } else if s == "tap-and-drag-lock"@ {
        Some(SettingKey::TapAndDragLock)
    } else if s == "middle-click-emulation"@ {
        Some(SettingKey::MiddleClickEmulation)
    } else if s == "click-method"@ {
        Some(SettingKey::ClickMethod)
    } else if s == "repeat-interval"@ {
        Some(SettingKey::RepeatInterval)
    } else if s == "delay"@ {
        Some(SettingKey::Delay)
    } else if s == "sources"@ {
        Some(SettingKey::Sources)
    } else {
        None
    }
}

impl SettingKey {
    /// The name of the key in its store.
    pub fn name(&self) -> (r: &'static str)
        ensures
            r@ == key_name(*self),
    {
        match self {
            SettingKey::Speed => "speed",
            SettingKey::NaturalScroll => "natural-scroll",
            SettingKey::LeftHanded => "left-handed",
            SettingKey::TapToClick => "tap-to-click",
            SettingKey::TwoFingerScrolling => "two-finger-scrolling-enabled",
            SettingKey::EdgeScrolling => "edge-scrolling-enabled",
            SettingKey::SendEventsMode => "send-events",
            SettingKey::DisableWhileTyping => "disable-while-typing",
            SettingKey::TapAndDrag => "tap-and-drag",
            SettingKey::TapAndDragLock => "tap-and-drag-lock",
            SettingKey::MiddleClickEmulation => "middle-click-emulation",
            SettingKey::ClickMethod => "click-method",
            SettingKey::RepeatInterval => "repeat-interval",
            SettingKey::Delay => "delay",
            SettingKey::Sources => "sources",
        }
    }

    /// The key of a given name; `None` for a name no store has.
    pub fn from_name(s: &str) -> (r: Option<SettingKey>)
        ensures
            r == key_named(s@),
    {
        if text_eq(s, "speed") {
            Some(SettingKey::Speed)
        } else if text_eq(s, "natural-scroll") {
            Some(SettingKey::NaturalScroll)
        } else if text_eq(s, "left-handed") {
            Some(SettingKey::LeftHanded)
        } else if text_eq(s, "tap-to-click") {
            Some(SettingKey::TapToClick)
        } else if text_eq(s, "two-finger-scrolling-enabled") {
            Some(SettingKey::TwoFingerScrolling)
        } else if text_eq(s, "edge-scrolling-enabled") {
            Some(SettingKey::EdgeScrolling)
        } else if text_eq(s, "send-events") {
            Some(SettingKey::SendEventsMode)
        } else if text_eq(s, "disable-while-typing") {
            Some(SettingKey::DisableWhileTyping)
        } else if text_eq(s, "tap-and-drag") {
            Some(SettingKey::TapAndDrag)
        } else if text_eq(s, "tap-and-drag-lock") {
            Some(SettingKey::TapAndDragLock)
        } else if text_eq(s, "middle-click-emulation") {
            Some(SettingKey::MiddleClickEmulation)
        } else if text_eq(s, "click-method") {
            Some(SettingKey::ClickMethod)
        } else if text_eq(s, "repeat-interval") {
            Some(SettingKey::RepeatInterval)
        } else if text_eq(s, "delay") {
            Some(SettingKey::Delay)
        } else if text_eq(s, "sources") {
            Some(SettingKey::Sources)
        } else {
            None
        }
    }
}

/// The pointer store's values that reach the compositor.
pub struct MouseSettings {
    /// Acceleration speed, as decimal text.
    pub speed: String,
    pub natural_scroll: bool,
    pub left_handed: bool,
}

/// The touchpad store's values that reach the compositor.
pub struct TouchpadSettings {
    /// Acceleration speed, as decimal text.
    pub speed: String,
    pub natural_scroll: bool,
    /// `left`, `right` or `mouse`.
    pub left_handed: String,
    pub tap_to_click: bool,
    pub two_finger_scrolling: bool,
    pub edge_scrolling: bool,
    /// The send-events token, passed through as it stands.
    pub send_events: String,
    pub disable_while_typing: bool,
    pub tap_and_drag: bool,
    pub tap_and_drag_lock: bool,
    pub middle_click_emulation: bool,
    /// `areas`, `fingers`, or anything else for none.
    pub click_method: String,
}

/// The keyboard store's values that reach the compositor.
pub struct KeyboardSettings {
    /// Milliseconds between two repeats of a held key; 0 is out of range.
    pub repeat_interval: u32,
    /// Key repeats per second, `1000 / repeat_interval`, as decimal text.
    pub repeat_rate: String,
    /// Milliseconds before a held key repeats.
    pub delay: u32,
}

/// The input-sources store's values that reach the compositor.
pub struct InputSourcesSettings {
    /// The layout field of each input source, `code` or `code+variant`, in order.
    pub sources: Vec<String>,
}

/// The capability values a device reports, each present or absent.
pub struct Libinput {
    /// Acceleration speed, as decimal text.
    pub accel_speed: Option<String>,
    pub natural_scroll: Option<EnabledOrDisabled>,
    pub left_handed: Option<EnabledOrDisabled>,
    pub tap: Option<EnabledOrDisabled>,
    pub tap_drag: Option<EnabledOrDisabled>,
    pub tap_drag_lock: Option<EnabledOrDisabled>,
    pub send_events: Option<SendEvents>,
}

/// A device's state as the compositor pushes it on a change.
pub struct Input {
    /// The device category: `pointer`, `touchpad`, `keyboard`, ...
    pub input_type: String,
    pub libinput: Option<Libinput>,
}

/// A value to be written back into a settings store.
pub enum SettingWrite {
    Flag(SettingKey, bool),
    Text(SettingKey, String),
    /// A floating-point key, as decimal text.
    Number(SettingKey, String),
}

/// What a write means.
pub enum WriteModel {
    Flag(SettingKey, bool),
    Text(SettingKey, Seq<char>),
    Number(SettingKey, Seq<char>),
}

impl View for SettingWrite {
    type V = WriteModel;

    open spec fn view(&self) -> WriteModel {
        match self {
            SettingWrite::Flag(k, b) => WriteModel::Flag(*k, *b),
            SettingWrite::Text(k, s) => WriteModel::Text(*k, s@),
            SettingWrite::Number(k, s) => WriteModel::Number(*k, s@),
        }
    }
}

/// The models of a list of writes.
pub open spec fn write_models(ws: Seq<SettingWrite>) -> Seq<WriteModel> {
    ws.map_values(|w: SettingWrite| w@)
}

} // verus!
