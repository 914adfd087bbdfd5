use vstd::prelude::*;
use crate::absorb::{mouse_absorbed, mouse_writes, touchpad_absorbed, touchpad_writes};
use crate::command::{models, outcome, Command, CommandModel};
use crate::error::SyncError;
use crate::handlers::{
    keyboard_all, keyboard_key, mouse_all, mouse_key, sources_commands, sources_key, touchpad_all,
    touchpad_key, InputSourcesHandler, KeyboardHandler, MouseHandler, TouchpadHandler,
};
use crate::settings::{key_named, write_models, Input, SettingWrite, WriteModel};
use crate::text::text_eq;
use crate::gate::{Direction, SuppressionGate};
use crate::monitor::{on_event, step, MonitorAction, MonitorEvent};

verus! {

/// The device categories, one handler each.
#[derive(Clone, Copy, Debug, PartialEq, Eq, Structural)]
pub enum DeviceCategory {
    Pointer,
    Touchpad,
    Keyboard,
    InputSources,
}

/// The category of a device report's type name; the compositor reports
/// layouts under `keyboard`, so no name leads to the input sources.
pub open spec fn category_named(s: Seq<char>) -> Option<DeviceCategory> {
    if s == "pointer"@ {
        Some(DeviceCategory::Pointer)
    } else if s == "touchpad"@ {
        Some(DeviceCategory::Touchpad)
    } else if s == "keyboard"@ {
        Some(DeviceCategory::Keyboard)
    } else {
        None
    }
}

impl DeviceCategory {
    /// The category of a device report's type name.
    pub fn from_input_type(s: &str) -> (r: Option<DeviceCategory>)
        ensures
            r == category_named(s@),
    {
        if text_eq(s, "pointer") {
            Some(DeviceCategory::Pointer)
        } else if text_eq(s, "touchpad") {
            Some(DeviceCategory::Touchpad)
        } else if text_eq(s, "keyboard") {
            Some(DeviceCategory::Keyboard)
        } else {
            None
        }
    }
}

/// The four device handlers, one per category.
pub struct SettingsManager {
    pub mouse: MouseHandler,
    pub keyboard: KeyboardHandler,
    pub touchpad: TouchpadHandler,
    pub input_sources: InputSourcesHandler,
}

/// The commands that forward a changed key of one category's store.
pub open spec fn changes_spec(m: SettingsManager, c: DeviceCategory, key: Seq<char>) -> Result<
    Seq<CommandModel>,
    SyncError,
> {
    match key_named(key) {
        None => Ok(Seq::empty()),
        Some(k) => match c {
            DeviceCategory::Pointer => Ok(mouse_key(m.mouse.settings, k)),
            DeviceCategory::Touchpad => touchpad_key(m.touchpad.settings, m.mouse.settings.left_handed, k),
            DeviceCategory::Keyboard => keyboard_key(m.keyboard.settings, k),
            DeviceCategory::InputSources => sources_key(m.input_sources.settings, k),
        },
    }
}

/// The commands that forward every key of one category's store.
pub open spec fn all_spec(m: SettingsManager, c: DeviceCategory) -> Result<Seq<CommandModel>, SyncError> {
    match c {
        DeviceCategory::Pointer => Ok(mouse_all(m.mouse.settings)),
        DeviceCategory::Touchpad => touchpad_all(m.touchpad.settings, m.mouse.settings.left_handed),
        DeviceCategory::Keyboard => keyboard_all(m.keyboard.settings),
        DeviceCategory::InputSources => sources_commands(m.input_sources.settings),
    }
}

/// Whether `after` is `before` with a device report absorbed into the store
/// of its category, and `writes` the writes that it took. A report without a
/// capability record, of the keyboard, or of a category no handler accepts
/// changes nothing.
pub open spec fn absorbed(before: SettingsManager, input: Input, after: SettingsManager, writes: Seq<WriteModel>) -> bool {
    let untouched = after.keyboard == before.keyboard && after.input_sources == before.input_sources;
    match (category_named(input.input_type@), input.libinput) {
        (Some(DeviceCategory::Pointer), Some(l)) => {
            &&& untouched
            &&& after.touchpad == before.touchpad
            &&& after.mouse.settings == mouse_absorbed(before.mouse.settings, Some(l))
            &&& writes == mouse_writes(Some(l))
        },
        (Some(DeviceCategory::Touchpad), Some(l)) => {
            &&& untouched
            &&& after.mouse == before.mouse
            &&& touchpad_absorbed(before.touchpad.settings, Some(l), after.touchpad.settings)
            &&& writes == touchpad_writes(Some(l))
        },
        _ => after == before && writes == Seq::<WriteModel>::empty(),
    }
}

fn no_commands() -> (r: Result<Vec<Command>, SyncError>)
    ensures
        outcome(r) == Ok::<Seq<CommandModel>, SyncError>(Seq::empty()),
{
    let v: Vec<Command> = Vec::new();
    assert(models(v@) =~= Seq::<CommandModel>::empty());
    Ok(v)
}

impl SettingsManager {
    pub fn new(
        mouse: MouseHandler,
        keyboard: KeyboardHandler,
        touchpad: TouchpadHandler,
        input_sources: InputSourcesHandler,
    ) -> (r: SettingsManager)
        ensures
            r == (SettingsManager { mouse, keyboard, touchpad, input_sources }),
    {
        SettingsManager { mouse, keyboard, touchpad, input_sources }
    }

    /// The commands that forward a changed key of one category's store; none
    /// for a key that store does not have.
    pub fn apply_changes(&self, category: DeviceCategory, key: &str) -> (r: Result<Vec<Command>, SyncError>)
        ensures
            outcome(r) == changes_spec(*self, category, key@),
    {
        match category {
            DeviceCategory::Pointer => self.mouse.apply_changes(key),
            DeviceCategory::Touchpad => self.touchpad.apply_changes(key, self.mouse.settings.left_handed),
            DeviceCategory::Keyboard => self.keyboard.apply_changes(key),
            DeviceCategory::InputSources => self.input_sources.apply_changes(key),
        }
    }

    /// The commands that forward every key of one category's store.
    pub fn apply_all(&self, category: DeviceCategory) -> (r: Result<Vec<Command>, SyncError>)
        ensures
            outcome(r) == all_spec(*self, category),
    {
        match category {
            DeviceCategory::Pointer => self.mouse.apply_all(),
            DeviceCategory::Touchpad => self.touchpad.apply_all(self.mouse.settings.left_handed),
            DeviceCategory::Keyboard => self.keyboard.apply_all(),
            DeviceCategory::InputSources => self.input_sources.apply_all(),
        }
    }
}

/// Absorbs a device report into the store of its category and returns the
/// writes to make. A report of a category no handler accepts is dropped:
/// nothing changes and nothing is written.
pub fn sync_input_gsettings(handlers: &mut SettingsManager, input: &Input) -> (r: Result<Vec<SettingWrite>, SyncError>)
    ensures
        r is Ok,
        r matches Ok(ws) ==> absorbed(*old(handlers), *input, *final(handlers), write_models(ws@)),
        category_named(input.input_type@) is None ==> (r matches Ok(ws) && ws@.len() == 0 && *final(handlers)
            == *old(handlers)),
{
    let empty: Vec<SettingWrite> = Vec::new();
    assert(write_models(empty@) =~= Seq::<WriteModel>::empty());
    let category = match DeviceCategory::from_input_type(input.input_type.as_str()) {
        Some(c) => c,
        None => return Ok(empty),
    };
    match &input.libinput {
        None => Ok(empty),
        Some(l) => match category {
            DeviceCategory::Pointer => Ok(handlers.mouse.sync_gsettings(l)),
            DeviceCategory::Touchpad => Ok(handlers.touchpad.sync_gsettings(l)),
            _ => Ok(empty),
        },
    }
}

/// Handles a device-changed event: where device→settings is open, takes the
/// hold on settings→device and absorbs the report, returning `Absorb` and
/// the writes to make; the caller releases the hold after the cooldown.
/// Where device→settings is closed, drops the report: `Drop`, nothing
/// changed, nothing to write.
pub fn absorb_device_event(gate: &mut SuppressionGate, handlers: &mut SettingsManager, input: &Input) -> (r: (
    MonitorAction,
    Vec<SettingWrite>,
))
    ensures
        (*final(gate), r.0) == step(*old(gate), MonitorEvent::DeviceChanged),
        r.0 == MonitorAction::Absorb ==> {
            &&& *final(gate) == old(gate).begun(Direction::DeviceToSettings)
            &&& !final(gate).allows_spec(Direction::SettingsToDevice)
            &&& absorbed(*old(handlers), *input, *final(handlers), write_models(r.1@))
        },
        r.0 != MonitorAction::Absorb ==> {
            &&& r.0 == MonitorAction::Drop
            &&& *final(gate) == *old(gate)
            &&& *final(handlers) == *old(handlers)
            &&& r.1@.len() == 0
        },
{
    let action = on_event(gate, MonitorEvent::DeviceChanged);
    match action {
        MonitorAction::Absorb => match sync_input_gsettings(handlers, input) {
            Ok(ws) => (action, ws),
            Err(_) => (action, Vec::new()),
        },
        _ => (action, Vec::new()),
    }
}

} // verus!
