use vstd::prelude::*;
use vstd::string::*;
use crate::command::{cmd, models, outcome, Command, CommandModel, DeviceType, Directive};
use crate::error::SyncError;
use crate::layout::{aggregate_layouts, aggregate_spec, texts};
use crate::manager::DeviceCategory;
use crate::settings::{
    key_named, InputSourcesSettings, KeyboardSettings, MouseSettings, SettingKey,
    TouchpadSettings,
};
use crate::text::{decimal, decimal_text};
use crate::translate::{
    click_method, click_method_text, left_handed_choice, left_handed_preference, scroll_method,
    scroll_method_text, toggle_text, toggle_token,
};

verus! {

fn toggle_command(device: DeviceType, directive: Directive, b: bool) -> (r: Command)
    ensures
        r@ == cmd(device, directive, toggle_text(b)),
{
    Command::new(device, directive, String::from_str(toggle_token(b)))
}

fn text_command(device: DeviceType, directive: Directive, v: &str) -> (r: Command)
    ensures
        r@ == cmd(device, directive, v@),
{
    Command::new(device, directive, String::from_str(v))
}

fn one(c: Command) -> (r: Vec<Command>)
    ensures
        models(r@) == seq![c@],
{
    let v = vec![c];
    assert(models(v@) =~= seq![c@]);
    v
}

fn ok_commands(v: Vec<Command>) -> (r: Result<Vec<Command>, SyncError>)
    ensures
        outcome(r) == Ok::<Seq<CommandModel>, SyncError>(models(v@)),
{
    Ok(v)
}

// ---------------------------------------------------------------- pointer

/// The commands that forward one key of the pointer store.
pub open spec fn mouse_key(s: MouseSettings, k: SettingKey) -> Seq<CommandModel> {
    let d = DeviceType::Pointer;
    match k {
        SettingKey::Speed => seq![cmd(d, Directive::PointerAccel, s.speed@)],
        SettingKey::NaturalScroll => seq![cmd(d, Directive::NaturalScroll, toggle_text(s.natural_scroll))],
        SettingKey::LeftHanded => seq![cmd(d, Directive::LeftHanded, toggle_text(s.left_handed))],
        _ => Seq::empty(),
    }
}

/// The commands that forward every key of the pointer store.
pub open spec fn mouse_all(s: MouseSettings) -> Seq<CommandModel> {
    mouse_key(s, SettingKey::Speed) + mouse_key(s, SettingKey::LeftHanded) + mouse_key(
        s,
        SettingKey::NaturalScroll,
    )
}

/// Forwards the pointer store to the compositor.
pub struct MouseHandler {
    pub settings: MouseSettings,
}

impl MouseHandler {
    pub fn new(settings: MouseSettings) -> (r: MouseHandler)
        ensures
            r.settings == settings,
    {
        MouseHandler { settings }
    }

    /// The category of the store this handler forwards.
    pub fn category(&self) -> (r: DeviceCategory)
        ensures
            r == DeviceCategory::Pointer,
    {
        DeviceCategory::Pointer
    }

    pub fn settings(&self) -> (r: &MouseSettings)
        ensures
            *r == self.settings,
    {
        &self.settings
    }

    fn key_commands(&self, k: SettingKey) -> (r: Vec<Command>)
        ensures
            models(r@) == mouse_key(self.settings, k),
    {
        let d = DeviceType::Pointer;
        match k {
            SettingKey::Speed => one(text_command(d, Directive::PointerAccel, self.settings.speed.as_str())),
            SettingKey::NaturalScroll => one(toggle_command(d, Directive::NaturalScroll, self.settings.natural_scroll)),
            SettingKey::LeftHanded => one(toggle_command(d, Directive::LeftHanded, self.settings.left_handed)),
            _ => {
                let v: Vec<Command> = Vec::new();
                assert(models(v@) =~= Seq::<CommandModel>::empty());
                v
            },
        }
    }

    /// The commands that forward the current value of a changed key; none
    /// for a key this store does not have.
    pub fn apply_changes(&self, key: &str) -> (r: Result<Vec<Command>, SyncError>)
        ensures
            outcome(r) == Ok::<Seq<CommandModel>, SyncError>(
                match key_named(key@) {
                    Some(k) => mouse_key(self.settings, k),
                    None => Seq::empty(),
                },
            ),
    {
        match SettingKey::from_name(key) {
            Some(k) => ok_commands(self.key_commands(k)),
            None => {
                let v: Vec<Command> = Vec::new();
                assert(models(v@) =~= Seq::<CommandModel>::empty());
                ok_commands(v)
            },
        }
    }

    /// The commands that forward every key of the store.
    pub fn apply_all(&self) -> (r: Result<Vec<Command>, SyncError>)
        ensures
            outcome(r) == Ok::<Seq<CommandModel>, SyncError>(mouse_all(self.settings)),
    {
        let mut v = self.key_commands(SettingKey::Speed);
        let mut b = self.key_commands(SettingKey::LeftHanded);
        let mut c = self.key_commands(SettingKey::NaturalScroll);
        let ghost (v0, b0, c0) = (v@, b@, c@);
        v.append(&mut b);
        v.append(&mut c);
        assert(models(v@) =~= models(v0) + models(b0) + models(c0));
        ok_commands(v)
    }
}

// ---------------------------------------------------------------- touchpad

/// The commands that forward one key of the touchpad store; `mouse_left_handed`
/// is the pointer store's own left-handed flag.
pub open spec fn touchpad_key(s: TouchpadSettings, mouse_left_handed: bool, k: SettingKey) -> Result<
    Seq<CommandModel>,
    SyncError,
> {
    let d = DeviceType::Touchpad;
    match k {
        SettingKey::Speed => Ok(seq![cmd(d, Directive::PointerAccel, s.speed@)]),
        SettingKey::NaturalScroll => Ok(seq![cmd(d, Directive::NaturalScroll, toggle_text(s.natural_scroll))]),
        SettingKey::LeftHanded => match left_handed_choice(s.left_handed@, mouse_left_handed) {
            Some(b) => Ok(seq![cmd(d, Directive::LeftHanded, toggle_text(b))]),
            None => Err(SyncError::InvalidValue),
        },
        SettingKey::TapToClick => Ok(seq![cmd(d, Directive::Tap, toggle_text(s.tap_to_click))]),
        SettingKey::TwoFingerScrolling | SettingKey::EdgeScrolling => Ok(
            seq![cmd(d, Directive::ScrollMethod, scroll_method_text(s.two_finger_scrolling, s.edge_scrolling))],
        ),
        SettingKey::SendEventsMode => Ok(seq![cmd(d, Directive::Events, s.send_events@)]),
        SettingKey::DisableWhileTyping => Ok(seq![cmd(d, Directive::Dwt, toggle_text(s.disable_while_typing))]),
        SettingKey::TapAndDrag => Ok(seq![cmd(d, Directive::Drag, toggle_text(s.tap_and_drag))]),
        SettingKey::TapAndDragLock => Ok(seq![cmd(d, Directive::DragLock, toggle_text(s.tap_and_drag_lock))]),
        SettingKey::MiddleClickEmulation => Ok(
            seq![cmd(d, Directive::MiddleEmulation, toggle_text(s.middle_click_emulation))],
        ),
        SettingKey::ClickMethod => Ok(seq![cmd(d, Directive::ClickMethod, click_method_text(s.click_method@))]),
        _ => Ok(Seq::empty()),
    }
}

/// The commands of one key that cannot fail, or nothing.
pub open spec fn tk(s: TouchpadSettings, m: bool, k: SettingKey) -> Seq<CommandModel> {
    match touchpad_key(s, m, k) {
        Ok(c) => c,
        Err(_) => Seq::empty(),
    }
}

/// The commands that forward every key of the touchpad store, the scroll
/// method once; an error where the left-handed preference is malformed.
pub open spec fn touchpad_all(s: TouchpadSettings, m: bool) -> Result<Seq<CommandModel>, SyncError> {
    if left_handed_choice(s.left_handed@, m) is None {
        Err(SyncError::InvalidValue)
    } else {
        Ok(tk(s, m, SettingKey::Speed) + tk(s, m, SettingKey::LeftHanded) + tk(s, m, SettingKey::NaturalScroll)
            + tk(s, m, SettingKey::TapToClick) + tk(s, m, SettingKey::TwoFingerScrolling) + tk(
            s,
            m,
            SettingKey::SendEventsMode,
        ) + tk(s, m, SettingKey::DisableWhileTyping) + tk(s, m, SettingKey::TapAndDrag) + tk(
            s,
            m,
            SettingKey::TapAndDragLock,
        ) + tk(s, m, SettingKey::MiddleClickEmulation) + tk(s, m, SettingKey::ClickMethod))
    }
}

/// Forwards the touchpad store to the compositor.
pub struct TouchpadHandler {
    pub settings: TouchpadSettings,
}

impl TouchpadHandler {
    pub fn new(settings: TouchpadSettings) -> (r: TouchpadHandler)
        ensures
            r.settings == settings,
    {
        TouchpadHandler { settings }
    }

    /// The category of the store this handler forwards.
    pub fn category(&self) -> (r: DeviceCategory)
        ensures
            r == DeviceCategory::Touchpad,
    {
        DeviceCategory::Touchpad
    }

    pub fn settings(&self) -> (r: &TouchpadSettings)
        ensures
            *r == self.settings,
    {
        &self.settings
    }

    fn key_commands(&self, mouse_left_handed: bool, k: SettingKey) -> (r: Result<Vec<Command>, SyncError>)
        ensures
            outcome(r) == touchpad_key(self.settings, mouse_left_handed, k),
    {
        let d = DeviceType::Touchpad;
        let s = &self.settings;
        match k {
            SettingKey::Speed => ok_commands(one(text_command(d, Directive::PointerAccel, s.speed.as_str()))),
            SettingKey::NaturalScroll => ok_commands(one(toggle_command(d, Directive::NaturalScroll, s.natural_scroll))),
            SettingKey::LeftHanded => match left_handed_preference(s.left_handed.as_str(), mouse_left_handed) {
                Some(b) => ok_commands(one(toggle_command(d, Directive::LeftHanded, b))),
                None => Err(SyncError::InvalidValue),
            },
            SettingKey::TapToClick => ok_commands(one(toggle_command(d, Directive::Tap, s.tap_to_click))),
            SettingKey::TwoFingerScrolling | SettingKey::EdgeScrolling => ok_commands(
                one(text_command(d, Directive::ScrollMethod, scroll_method(s.two_finger_scrolling, s.edge_scrolling))),
            ),
            SettingKey::SendEventsMode => ok_commands(one(text_command(d, Directive::Events, s.send_events.as_str()))),
            SettingKey::DisableWhileTyping => ok_commands(one(toggle_command(d, Directive::Dwt, s.disable_while_typing))),
            SettingKey::TapAndDrag => ok_commands(one(toggle_command(d, Directive::Drag, s.tap_and_drag))),
            SettingKey::TapAndDragLock => ok_commands(one(toggle_command(d, Directive::DragLock, s.tap_and_drag_lock))),
            SettingKey::MiddleClickEmulation => ok_commands(
                one(toggle_command(d, Directive::MiddleEmulation, s.middle_click_emulation)),
            ),
            SettingKey::ClickMethod => ok_commands(
                one(text_command(d, Directive::ClickMethod, click_method(s.click_method.as_str()))),
            ),
            _ => {
                let v: Vec<Command> = Vec::new();
                assert(models(v@) =~= Seq::<CommandModel>::empty());
                ok_commands(v)
            },
        }
    }

    /// The commands that forward the current value of a changed key; none
    /// for a key this store does not have. `mouse_left_handed` is the
    /// pointer store's own left-handed flag.
    pub fn apply_changes(&self, key: &str, mouse_left_handed: bool) -> (r: Result<Vec<Command>, SyncError>)
        ensures
            outcome(r) == match key_named(key@) {
                Some(k) => touchpad_key(self.settings, mouse_left_handed, k),
                None => Ok(Seq::empty()),
            },
    {
        match SettingKey::from_name(key) {
            Some(k) => self.key_commands(mouse_left_handed, k),
            None => {
                let v: Vec<Command> = Vec::new();
                assert(models(v@) =~= Seq::<CommandModel>::empty());
                ok_commands(v)
            },
        }
    }

    fn push_key(&self, m: bool, k: SettingKey, out: &mut Vec<Command>)
        requires
            left_handed_choice(self.settings.left_handed@, m) is Some,
        ensures
            models(final(out)@) == models(old(out)@) + tk(self.settings, m, k),
    {
        let r = self.key_commands(m, k);
        if let Ok(mut c) = r {
            let ghost before = out@;
            let ghost cs = c@;
            out.append(&mut c);
            assert(models(out@) =~= models(before) + models(cs));
        }
    }

    /// The commands that forward every key of the store.
    pub fn apply_all(&self, mouse_left_handed: bool) -> (r: Result<Vec<Command>, SyncError>)
        ensures
            outcome(r) == touchpad_all(self.settings, mouse_left_handed),
    {
        let m = mouse_left_handed;
        if left_handed_preference(self.settings.left_handed.as_str(), m).is_none() {
            return Err(SyncError::InvalidValue);
        }
        let ghost s = self.settings;
        let mut out: Vec<Command> = Vec::new();
        assert(models(out@) =~= Seq::<CommandModel>::empty());
        self.push_key(m, SettingKey::Speed, &mut out);
        self.push_key(m, SettingKey::LeftHanded, &mut out);
        self.push_key(m, SettingKey::NaturalScroll, &mut out);
        self.push_key(m, SettingKey::TapToClick, &mut out);
        self.push_key(m, SettingKey::TwoFingerScrolling, &mut out);
        self.push_key(m, SettingKey::SendEventsMode, &mut out);
        self.push_key(m, SettingKey::DisableWhileTyping, &mut out);
        self.push_key(m, SettingKey::TapAndDrag, &mut out);
        self.push_key(m, SettingKey::TapAndDragLock, &mut out);
        self.push_key(m, SettingKey::MiddleClickEmulation, &mut out);
        self.push_key(m, SettingKey::ClickMethod, &mut out);
        assert(models(out@) =~= tk(s, m, SettingKey::Speed) + tk(s, m, SettingKey::LeftHanded) + tk(s, m, SettingKey::NaturalScroll)
            + tk(s, m, SettingKey::TapToClick) + tk(s, m, SettingKey::TwoFingerScrolling) + tk(s, m, SettingKey::SendEventsMode)
            + tk(s, m, SettingKey::DisableWhileTyping) + tk(s, m, SettingKey::TapAndDrag) + tk(s, m, SettingKey::TapAndDragLock)
            + tk(s, m, SettingKey::MiddleClickEmulation) + tk(s, m, SettingKey::ClickMethod));
        ok_commands(out)
    }
}

// ---------------------------------------------------------------- keyboard

/// The commands that forward one key of the keyboard store; an error for a
/// repeat interval of 0, which has no repeat rate.
pub open spec fn keyboard_key(s: KeyboardSettings, k: SettingKey) -> Result<Seq<CommandModel>, SyncError> {
    let d = DeviceType::Keyboard;
    match k {
        SettingKey::RepeatInterval => if s.repeat_interval == 0 {
            Err(SyncError::InvalidValue)
        } else {
            Ok(seq![cmd(d, Directive::RepeatRate, s.repeat_rate@)])
        },
        SettingKey::Delay => Ok(seq![cmd(d, Directive::RepeatDelay, decimal(s.delay as nat))]),
        _ => Ok(Seq::empty()),
    }
}

/// The commands of one keyboard key that cannot fail, or nothing.
pub open spec fn kk(s: KeyboardSettings, k: SettingKey) -> Seq<CommandModel> {
    match keyboard_key(s, k) {
        Ok(c) => c,
        Err(_) => Seq::empty(),
    }
}

/// The commands that forward every key of the keyboard store; an error for
/// a repeat interval of 0.
pub open spec fn keyboard_all(s: KeyboardSettings) -> Result<Seq<CommandModel>, SyncError> {
    if s.repeat_interval == 0 {
        Err(SyncError::InvalidValue)
    } else {
        Ok(kk(s, SettingKey::RepeatInterval) + kk(s, SettingKey::Delay))
    }
}

/// Forwards the keyboard's repeat settings to the compositor; the compositor
/// reports nothing back for them.
pub struct KeyboardHandler {
    pub settings: KeyboardSettings,
}

impl KeyboardHandler {
    pub fn new(settings: KeyboardSettings) -> (r: KeyboardHandler)
        ensures
            r.settings == settings,
    {
        KeyboardHandler { settings }
    }

    /// The category of the store this handler forwards.
    pub fn category(&self) -> (r: DeviceCategory)
        ensures
            r == DeviceCategory::Keyboard,
    {
        DeviceCategory::Keyboard
    }

    pub fn settings(&self) -> (r: &KeyboardSettings)
        ensures
            *r == self.settings,
    {
        &self.settings
    }

    fn key_commands(&self, k: SettingKey) -> (r: Result<Vec<Command>, SyncError>)
        ensures
            outcome(r) == keyboard_key(self.settings, k),
    {
        let d = DeviceType::Keyboard;
        match k {
            SettingKey::RepeatInterval => {
                if self.settings.repeat_interval == 0 {
                    Err(SyncError::InvalidValue)
                } else {
                    ok_commands(one(text_command(d, Directive::RepeatRate, self.settings.repeat_rate.as_str())))
                }
            },
            SettingKey::Delay => ok_commands(one(Command::new(d, Directive::RepeatDelay, decimal_text(self.settings.delay)))),
            _ => {
                let v: Vec<Command> = Vec::new();
                assert(models(v@) =~= Seq::<CommandModel>::empty());
                ok_commands(v)
            },
        }
    }

    /// The commands that forward the current value of a changed key; none
    /// for a key this store does not have.
    pub fn apply_changes(&self, key: &str) -> (r: Result<Vec<Command>, SyncError>)
        ensures
            outcome(r) == match key_named(key@) {
                Some(k) => keyboard_key(self.settings, k),
                None => Ok(Seq::empty()),
            },
    {
        match SettingKey::from_name(key) {
            Some(k) => self.key_commands(k),
            None => {
                let v: Vec<Command> = Vec::new();
                assert(models(v@) =~= Seq::<CommandModel>::empty());
                ok_commands(v)
            },
        }
    }

    /// The commands that forward every key of the store.
    pub fn apply_all(&self) -> (r: Result<Vec<Command>, SyncError>)
        ensures
            outcome(r) == keyboard_all(self.settings),
    {
        let mut v = match self.key_commands(SettingKey::RepeatInterval) {
            Ok(v) => v,
            Err(e) => return Err(e),
        };
        let mut b = match self.key_commands(SettingKey::Delay) {
            Ok(b) => b,
            Err(e) => return Err(e),
        };
        let ghost (v0, b0) = (v@, b@);
        v.append(&mut b);
        assert(models(v@) =~= models(v0) + models(b0));
        ok_commands(v)
    }
}

// ----------------------------------------------------------- input sources

/// The two commands that set the keyboard's layout list and variant list
/// from the input sources, variants first; an error for an empty list.
pub open spec fn sources_commands(s: InputSourcesSettings) -> Result<Seq<CommandModel>, SyncError> {
    match aggregate_spec(texts(s.sources@)) {
        Some((layouts, variants)) => Ok(
            seq![
                cmd(DeviceType::Keyboard, Directive::XkbVariant, variants),
                cmd(DeviceType::Keyboard, Directive::XkbLayout, layouts),
            ],
        ),
        None => Err(SyncError::InvalidLayout),
    }
}

/// The commands that forward one key of the input-sources store.
pub open spec fn sources_key(s: InputSourcesSettings, k: SettingKey) -> Result<Seq<CommandModel>, SyncError> {
    match k {
        SettingKey::Sources => sources_commands(s),
        _ => Ok(Seq::empty()),
    }
}

/// Forwards the input sources to the compositor as keyboard layouts; the
/// compositor reports nothing back for them.
pub struct InputSourcesHandler {
    pub settings: InputSourcesSettings,
}

impl InputSourcesHandler {
    pub fn new(settings: InputSourcesSettings) -> (r: InputSourcesHandler)
        ensures
            r.settings == settings,
    {
        InputSourcesHandler { settings }
    }

    /// The category of the store this handler forwards.
    pub fn category(&self) -> (r: DeviceCategory)
        ensures
            r == DeviceCategory::InputSources,
    {
        DeviceCategory::InputSources
    }

    pub fn settings(&self) -> (r: &InputSourcesSettings)
        ensures
            *r == self.settings,
    {
        &self.settings
    }

    fn apply_input_sources(&self) -> (r: Result<Vec<Command>, SyncError>)
        ensures
            outcome(r) == sources_commands(self.settings),
    {
        match aggregate_layouts(&self.settings.sources) {
            Some((layouts, variants)) => {
                let v = vec![
                    Command::new(DeviceType::Keyboard, Directive::XkbVariant, variants),
                    Command::new(DeviceType::Keyboard, Directive::XkbLayout, layouts),
                ];
                assert(models(v@) =~= seq![v@[0]@, v@[1]@]);
                ok_commands(v)
            },
            None => Err(SyncError::InvalidLayout),
        }
    }

    /// The commands that forward the current value of a changed key; none
    /// for a key this store does not have.
    pub fn apply_changes(&self, key: &str) -> (r: Result<Vec<Command>, SyncError>)
        ensures
            outcome(r) == match key_named(key@) {
                Some(k) => sources_key(self.settings, k),
                None => Ok(Seq::empty()),
            },
    {
        match SettingKey::from_name(key) {
            Some(SettingKey::Sources) => self.apply_input_sources(),
            _ => {
                let v: Vec<Command> = Vec::new();
                assert(models(v@) =~= Seq::<CommandModel>::empty());
                ok_commands(v)
            },
        }
    }

    /// The commands that forward every key of the store.
    pub fn apply_all(&self) -> (r: Result<Vec<Command>, SyncError>)
        ensures
            outcome(r) == sources_commands(self.settings),
    {
        self.apply_input_sources()
    }
}

} // verus!
