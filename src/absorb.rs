use vstd::prelude::*;
use vstd::string::*;
use crate::handlers::{MouseHandler, TouchpadHandler};
use crate::settings::{
    write_models, Libinput, MouseSettings, SettingKey, SettingWrite, TouchpadSettings, WriteModel,
};
use crate::translate::{EnabledOrDisabled, SendEvents, SwayTypeToPrimitive};

verus! {

/// The settings flag of a reported two-state capability.
pub open spec fn is_enabled(t: EnabledOrDisabled) -> bool {
    t == EnabledOrDisabled::Enabled
}

/// The settings token of a reported send-events mode, as the compositor names it.
pub open spec fn send_events_text(m: SendEvents) -> Seq<char> {
    match m {
        SendEvents::Enabled => "enabled"@,
        SendEvents::Disabled => "disabled"@,
        SendEvents::DisabledOnExternalMouse => "disabled_on_external_mouse"@,
    }
}

pub open spec fn flag_or(o: Option<EnabledOrDisabled>, current: bool) -> bool {
    match o {
        Some(t) => is_enabled(t),
        None => current,
    }
}

pub open spec fn flag_write(k: SettingKey, o: Option<EnabledOrDisabled>) -> Seq<WriteModel> {
    match o {
        Some(t) => seq![WriteModel::Flag(k, is_enabled(t))],
        None => Seq::empty(),
    }
}

pub open spec fn speed_write(o: Option<String>) -> Seq<WriteModel> {
    match o {
        Some(s) => seq![WriteModel::Number(SettingKey::Speed, s@)],
        None => Seq::empty(),
    }
}

/// The pointer store after absorbing a report; absent fields stay.
pub open spec fn mouse_absorbed(s: MouseSettings, li: Option<Libinput>) -> MouseSettings {
    match li {
        None => s,
        Some(l) => MouseSettings {
            speed: match l.accel_speed {
                Some(x) => x,
                None => s.speed,
            },
            natural_scroll: flag_or(l.natural_scroll, s.natural_scroll),
            left_handed: flag_or(l.left_handed, s.left_handed),
        },
    }
}

/// The writes into the pointer store that absorbing a report makes.
pub open spec fn mouse_writes(li: Option<Libinput>) -> Seq<WriteModel> {
    match li {
        None => Seq::empty(),
        Some(l) => speed_write(l.accel_speed) + flag_write(SettingKey::NaturalScroll, l.natural_scroll)
            + flag_write(SettingKey::LeftHanded, l.left_handed),
    }
}

/// Whether `t` is the touchpad store `s` after absorbing a report; absent
/// fields stay, and the left-handed preference is never taken from a report.
pub open spec fn touchpad_absorbed(s: TouchpadSettings, li: Option<Libinput>, t: TouchpadSettings) -> bool {
    match li {
        None => t == s,
        Some(l) => {
            &&& t.speed == match l.accel_speed {
                Some(x) => x,
                None => s.speed,
            }
            &&& t.natural_scroll == flag_or(l.natural_scroll, s.natural_scroll)
            &&& t.send_events@ == match l.send_events {
                Some(m) => send_events_text(m),
                None => s.send_events@,
            }
            &&& t.tap_to_click == flag_or(l.tap, s.tap_to_click)
            &&& t.tap_and_drag == flag_or(l.tap_drag, s.tap_and_drag)
            &&& t.tap_and_drag_lock == flag_or(l.tap_drag_lock, s.tap_and_drag_lock)
            &&& t.left_handed == s.left_handed
            &&& t.two_finger_scrolling == s.two_finger_scrolling
            &&& t.edge_scrolling == s.edge_scrolling
            &&& t.disable_while_typing == s.disable_while_typing
            &&& t.middle_click_emulation == s.middle_click_emulation
            &&& t.click_method == s.click_method
        },
    }
}

/// The writes into the touchpad store that absorbing a report makes.
pub open spec fn touchpad_writes(li: Option<Libinput>) -> Seq<WriteModel> {
    match li {
        None => Seq::empty(),
        Some(l) => speed_write(l.accel_speed) + flag_write(SettingKey::NaturalScroll, l.natural_scroll)
            + match l.send_events {
            Some(m) => seq![WriteModel::Text(SettingKey::SendEventsMode, send_events_text(m))],
            None => Seq::empty(),
        } + flag_write(SettingKey::TapToClick, l.tap) + flag_write(SettingKey::TapAndDrag, l.tap_drag)
            + flag_write(SettingKey::TapAndDragLock, l.tap_drag_lock),
    }
}

fn push_flag(ws: &mut Vec<SettingWrite>, k: SettingKey, o: &Option<EnabledOrDisabled>, current: &mut bool)
    ensures
        write_models(final(ws)@) == write_models(old(ws)@) + flag_write(k, *o),
        *final(current) == flag_or(*o, *old(current)),
{
    if let Some(t) = o {
        let b: bool = t.to_primitive();
        *current = b;
        ws.push(SettingWrite::Flag(k, b));
    }
    assert(write_models(final(ws)@) =~= write_models(old(ws)@) + flag_write(k, *o));
}

fn push_speed(ws: &mut Vec<SettingWrite>, o: &Option<String>, current: &mut String)
    ensures
        write_models(final(ws)@) == write_models(old(ws)@) + speed_write(*o),
        *final(current) == match *o {
            Some(x) => x,
            None => *old(current),
        },
{
    if let Some(x) = o {
        *current = x.clone();
        ws.push(SettingWrite::Number(SettingKey::Speed, x.clone()));
    }
    assert(write_models(final(ws)@) =~= write_models(old(ws)@) + speed_write(*o));
}

impl MouseHandler {
    /// Writes each capability value present in a pointer report into the
    /// store, leaving absent ones; returns the writes made.
    pub fn sync_gsettings(&mut self, input: &Libinput) -> (r: Vec<SettingWrite>)
        ensures
            final(self).settings == mouse_absorbed(old(self).settings, Some(*input)),
            write_models(r@) == mouse_writes(Some(*input)),
    {
        let mut ws: Vec<SettingWrite> = Vec::new();
        assert(write_models(ws@) =~= Seq::<WriteModel>::empty());
        push_speed(&mut ws, &input.accel_speed, &mut self.settings.speed);
        push_flag(&mut ws, SettingKey::NaturalScroll, &input.natural_scroll, &mut self.settings.natural_scroll);
        push_flag(&mut ws, SettingKey::LeftHanded, &input.left_handed, &mut self.settings.left_handed);
        ws
    }
}

fn send_events_token(m: &SendEvents) -> (r: String)
    ensures
        r@ == send_events_text(*m),
{
    let t: &'static str = m.to_primitive();
    String::from_str(t)
}

impl TouchpadHandler {
    /// Writes each capability value present in a touchpad report into the
    /// store, leaving absent ones; returns the writes made. The send-events
    /// mode passes through as the compositor names it.
    pub fn sync_gsettings(&mut self, input: &Libinput) -> (r: Vec<SettingWrite>)
        ensures
            touchpad_absorbed(old(self).settings, Some(*input), final(self).settings),
            write_models(r@) == touchpad_writes(Some(*input)),
    {
        let mut ws: Vec<SettingWrite> = Vec::new();
        assert(write_models(ws@) =~= Seq::<WriteModel>::empty());
        push_speed(&mut ws, &input.accel_speed, &mut self.settings.speed);
        push_flag(&mut ws, SettingKey::NaturalScroll, &input.natural_scroll, &mut self.settings.natural_scroll);
        let ghost before = ws@;
        if let Some(m) = &input.send_events {
            let t = send_events_token(m);
            self.settings.send_events = t.clone();
            ws.push(SettingWrite::Text(SettingKey::SendEventsMode, t));
        }
        assert(write_models(ws@) =~= write_models(before) + match input.send_events {
            Some(m) => seq![WriteModel::Text(SettingKey::SendEventsMode, send_events_text(m))],
            None => Seq::<WriteModel>::empty(),
        });
        push_flag(&mut ws, SettingKey::TapToClick, &input.tap, &mut self.settings.tap_to_click);
        push_flag(&mut ws, SettingKey::TapAndDrag, &input.tap_drag, &mut self.settings.tap_and_drag);
        push_flag(&mut ws, SettingKey::TapAndDragLock, &input.tap_drag_lock, &mut self.settings.tap_and_drag_lock);
        ws
    }
}

} // verus!
