use vstd::prelude::*;
use crate::absorb::is_enabled;
use crate::command::{cmd, CommandModel, DeviceType, Directive};
use crate::error::SyncError;
use crate::handlers::{kk, mouse_key, sources_key, tk};
use crate::gate::{Direction, SuppressionGate};
use crate::manager::{absorbed, all_spec, category_named, changes_spec, DeviceCategory, SettingsManager};
use crate::monitor::{retry_spec, run, step, MonitorAction, MonitorEvent, ReloadStatus, RetryDecision, RetryPolicy};
use crate::settings::{key_name, key_named, Input, Libinput, SettingKey, WriteModel};
use crate::translate::{toggle_text, EnabledOrDisabled};

verus! {

/// Forwarding every key of a store twice, with the store unchanged between,
/// forwards the same commands both times.
pub proof fn lemma_apply_all_idempotent(m1: SettingsManager, m2: SettingsManager, c: DeviceCategory)
    requires
        m1 == m2,
    ensures
        all_spec(m1, c) == all_spec(m2, c),
{
}

/// The keys a category's store forwards, in the order in which forwarding
/// every key visits them; of the two scrolling flags, which derive one
/// value, only the first.
pub open spec fn forwarded_keys(c: DeviceCategory) -> Seq<SettingKey> {
    match c {
        DeviceCategory::Pointer => seq![SettingKey::Speed, SettingKey::LeftHanded, SettingKey::NaturalScroll],
        DeviceCategory::Touchpad => seq![
            SettingKey::Speed,
            SettingKey::LeftHanded,
            SettingKey::NaturalScroll,
            SettingKey::TapToClick,
            SettingKey::TwoFingerScrolling,
            SettingKey::SendEventsMode,
            SettingKey::DisableWhileTyping,
            SettingKey::TapAndDrag,
            SettingKey::TapAndDragLock,
            SettingKey::MiddleClickEmulation,
            SettingKey::ClickMethod,
        ],
        DeviceCategory::Keyboard => seq![SettingKey::RepeatInterval, SettingKey::Delay],
        DeviceCategory::InputSources => seq![SettingKey::Sources],
    }
}

/// The commands of forwarding each of `ks` in turn, as a changed key; the
/// first error where one fails.
pub open spec fn changes_in_turn(m: SettingsManager, c: DeviceCategory, ks: Seq<SettingKey>) -> Result<
    Seq<CommandModel>,
    SyncError,
>
    decreases ks.len(),
{
    if ks.len() == 0 {
        Ok(Seq::empty())
    } else {
        match changes_spec(m, c, key_name(ks[0])) {
            Err(e) => Err(e),
            Ok(first) => match changes_in_turn(m, c, ks.drop_first()) {
                Err(e) => Err(e),
                Ok(rest) => Ok(first + rest),
            },
        }
    }
}

/// Forwarding succeeded with the commands `cs`.
pub open spec fn succeeded(cs: Seq<CommandModel>) -> Result<Seq<CommandModel>, SyncError> {
    Ok(cs)
}

/// Each key's name leads back to the key.
pub proof fn lemma_key_names(k: SettingKey)
    ensures
        key_named(key_name(k)) == Some(k),
{
    reveal_strlit("speed");
    reveal_strlit("natural-scroll");
    reveal_strlit("left-handed");
    reveal_strlit("tap-to-click");
    reveal_strlit("two-finger-scrolling-enabled");
    reveal_strlit("edge-scrolling-enabled");
    reveal_strlit("send-events");
    reveal_strlit("disable-while-typing");
    reveal_strlit("tap-and-drag");
    reveal_strlit("tap-and-drag-lock");
    reveal_strlit("middle-click-emulation");
    reveal_strlit("click-method");
    reveal_strlit("repeat-interval");
    reveal_strlit("delay");
    reveal_strlit("sources");
    match k {
        SettingKey::Speed => {
        },
        SettingKey::NaturalScroll => {
            assert("natural-scroll"@.len() != "speed"@.len());
        },
        SettingKey::LeftHanded => {
            assert("left-handed"@.len() != "speed"@.len());
            assert("left-handed"@.len() != "natural-scroll"@.len());
        },
        SettingKey::TapToClick => {
            assert("tap-to-click"@.len() != "speed"@.len());
            assert("tap-to-click"@.len() != "natural-scroll"@.len());
            assert("tap-to-click"@.len() != "left-handed"@.len());
        },
        SettingKey::TwoFingerScrolling => {
            assert("two-finger-scrolling-enabled"@.len() != "speed"@.len());
            assert("two-finger-scrolling-enabled"@.len() != "natural-scroll"@.len());
            assert("two-finger-scrolling-enabled"@.len() != "left-handed"@.len());
            assert("two-finger-scrolling-enabled"@.len() != "tap-to-click"@.len());
        },
        SettingKey::EdgeScrolling => {
            assert("edge-scrolling-enabled"@.len() != "speed"@.len());
            assert("edge-scrolling-enabled"@.len() != "natural-scroll"@.len());
            assert("edge-scrolling-enabled"@.len() != "left-handed"@.len());
            assert("edge-scrolling-enabled"@.len() != "tap-to-click"@.len());
            assert("edge-scrolling-enabled"@.len() != "two-finger-scrolling-enabled"@.len());
        },
        SettingKey::SendEventsMode => {
            assert("send-events"@.len() != "speed"@.len());
            assert("send-events"@.len() != "natural-scroll"@.len());
            assert("send-events"@[0] != "left-handed"@[0]);
            assert("send-events"@.len() != "tap-to-click"@.len());
            assert("send-events"@.len() != "two-finger-scrolling-enabled"@.len());
            assert("send-events"@.len() != "edge-scrolling-enabled"@.len());
        },
        SettingKey::DisableWhileTyping => {
            assert("disable-while-typing"@.len() != "speed"@.len());
            assert("disable-while-typing"@.len() != "natural-scroll"@.len());
            assert("disable-while-typing"@.len() != "left-handed"@.len());
            assert("disable-while-typing"@.len() != "tap-to-click"@.len());
            assert("disable-while-typing"@.len() != "two-finger-scrolling-enabled"@.len());
            assert("disable-while-typing"@.len() != "edge-scrolling-enabled"@.len());
            assert("disable-while-typing"@.len() != "send-events"@.len());
        },
        SettingKey::TapAndDrag => {
            assert("tap-and-drag"@.len() != "speed"@.len());
            assert("tap-and-drag"@.len() != "natural-scroll"@.len());
            assert("tap-and-drag"@.len() != "left-handed"@.len());
            assert("tap-and-drag"@[4] != "tap-to-click"@[4]);
            assert("tap-and-drag"@.len() != "two-finger-scrolling-enabled"@.len());
            assert("tap-and-drag"@.len() != "edge-scrolling-enabled"@.len());
            assert("tap-and-drag"@.len() != "send-events"@.len());
            assert("tap-and-drag"@.len() != "disable-while-typing"@.len());
        },
        SettingKey::TapAndDragLock => {
            assert("tap-and-drag-lock"@.len() != "speed"@.len());
            assert("tap-and-drag-lock"@.len() != "natural-scroll"@.len());
            assert("tap-and-drag-lock"@.len() != "left-handed"@.len());
            assert("tap-and-drag-lock"@.len() != "tap-to-click"@.len());
            assert("tap-and-drag-lock"@.len() != "two-finger-scrolling-enabled"@.len());
            assert("tap-and-drag-lock"@.len() != "edge-scrolling-enabled"@.len());
            assert("tap-and-drag-lock"@.len() != "send-events"@.len());
            assert("tap-and-drag-lock"@.len() != "disable-while-typing"@.len());
            assert("tap-and-drag-lock"@.len() != "tap-and-drag"@.len());
        },
        SettingKey::MiddleClickEmulation => {
            assert("middle-click-emulation"@.len() != "speed"@.len());
            assert("middle-click-emulation"@.len() != "natural-scroll"@.len());
            assert("middle-click-emulation"@.len() != "left-handed"@.len());
            assert("middle-click-emulation"@.len() != "tap-to-click"@.len());
            assert("middle-click-emulation"@.len() != "two-finger-scrolling-enabled"@.len());
            assert("middle-click-emulation"@[0] != "edge-scrolling-enabled"@[0]);
            assert("middle-click-emulation"@.len() != "send-events"@.len());
            assert("middle-click-emulation"@.len() != "disable-while-typing"@.len());
            assert("middle-click-emulation"@.len() != "tap-and-drag"@.len());
            assert("middle-click-emulation"@.len() != "tap-and-drag-lock"@.len());
        },
        SettingKey::ClickMethod => {
            assert("click-method"@.len() != "speed"@.len());
            assert("click-method"@.len() != "natural-scroll"@.len());
            assert("click-method"@.len() != "left-handed"@.len());
            assert("click-method"@[0] != "tap-to-click"@[0]);
            assert("click-method"@.len() != "two-finger-scrolling-enabled"@.len());
            assert("click-method"@.len() != "edge-scrolling-enabled"@.len());
            assert("click-method"@.len() != "send-events"@.len());
            assert("click-method"@.len() != "disable-while-typing"@.len());
            assert("click-method"@[0] != "tap-and-drag"@[0]);
            assert("click-method"@.len() != "tap-and-drag-lock"@.len());
            assert("click-method"@.len() != "middle-click-emulation"@.len());
        },
        SettingKey::RepeatInterval => {
            assert("repeat-interval"@.len() != "speed"@.len());
            assert("repeat-interval"@.len() != "natural-scroll"@.len());
            assert("repeat-interval"@.len() != "left-handed"@.len());
            assert("repeat-interval"@.len() != "tap-to-click"@.len());
            assert("repeat-interval"@.len() != "two-finger-scrolling-enabled"@.len());
            assert("repeat-interval"@.len() != "edge-scrolling-enabled"@.len());
            assert("repeat-interval"@.len() != "send-events"@.len());
            assert("repeat-interval"@.len() != "disable-while-typing"@.len());
            assert("repeat-interval"@.len() != "tap-and-drag"@.len());
            assert("repeat-interval"@.len() != "tap-and-drag-lock"@.len());
            assert("repeat-interval"@.len() != "middle-click-emulation"@.len());
            assert("repeat-interval"@.len() != "click-method"@.len());
        },
        SettingKey::Delay => {
            assert("delay"@[0] != "speed"@[0]);
            assert("delay"@.len() != "natural-scroll"@.len());
            assert("delay"@.len() != "left-handed"@.len());
            assert("delay"@.len() != "tap-to-click"@.len());
            assert("delay"@.len() != "two-finger-scrolling-enabled"@.len());
            assert("delay"@.len() != "edge-scrolling-enabled"@.len());
            assert("delay"@.len() != "send-events"@.len());
            assert("delay"@.len() != "disable-while-typing"@.len());
            assert("delay"@.len() != "tap-and-drag"@.len());
            assert("delay"@.len() != "tap-and-drag-lock"@.len());
            assert("delay"@.len() != "middle-click-emulation"@.len());
            assert("delay"@.len() != "click-method"@.len());
            assert("delay"@.len() != "repeat-interval"@.len());
        },
        SettingKey::Sources => {
            assert("sources"@.len() != "speed"@.len());
            assert("sources"@.len() != "natural-scroll"@.len());
            assert("sources"@.len() != "left-handed"@.len());
            assert("sources"@.len() != "tap-to-click"@.len());
            assert("sources"@.len() != "two-finger-scrolling-enabled"@.len());
            assert("sources"@.len() != "edge-scrolling-enabled"@.len());
            assert("sources"@.len() != "send-events"@.len());
            assert("sources"@.len() != "disable-while-typing"@.len());
            assert("sources"@.len() != "tap-and-drag"@.len());
            assert("sources"@.len() != "tap-and-drag-lock"@.len());
            assert("sources"@.len() != "middle-click-emulation"@.len());
            assert("sources"@.len() != "click-method"@.len());
            assert("sources"@.len() != "repeat-interval"@.len());
            assert("sources"@.len() != "delay"@.len());
        },
    }
}

proof fn lemma_pointer_each_key(m: SettingsManager)
    ensures
        all_spec(m, DeviceCategory::Pointer) == changes_in_turn(
            m,
            DeviceCategory::Pointer,
            forwarded_keys(DeviceCategory::Pointer),
        ),
{
    let s = m.mouse.settings;
    let c = DeviceCategory::Pointer;
    let ks = forwarded_keys(c);
    lemma_key_names(SettingKey::Speed);
    lemma_key_names(SettingKey::LeftHanded);
    lemma_key_names(SettingKey::NaturalScroll);
    let k0 = mouse_key(s, SettingKey::Speed);
    let k1 = mouse_key(s, SettingKey::LeftHanded);
    let k2 = mouse_key(s, SettingKey::NaturalScroll);
    let e = Seq::<CommandModel>::empty();
    // peel the keys off the front, one at a time
    assert(ks.subrange(3, 3) =~= Seq::<SettingKey>::empty());
    assert(changes_in_turn(m, c, ks.subrange(3, 3)) == succeeded(e));
    assert(ks.subrange(2, 3)[0] == SettingKey::NaturalScroll);
    assert(ks.subrange(2, 3).drop_first() =~= ks.subrange(3, 3));
    assert(changes_in_turn(m, c, ks.subrange(2, 3)) == succeeded(k2 + e));
    assert(ks.subrange(1, 3)[0] == SettingKey::LeftHanded);
    assert(ks.subrange(1, 3).drop_first() =~= ks.subrange(2, 3));
    assert(changes_in_turn(m, c, ks.subrange(1, 3)) == succeeded(k1 + (k2 + e)));
    assert(ks.subrange(0, 3)[0] == SettingKey::Speed);
    assert(ks.subrange(0, 3).drop_first() =~= ks.subrange(1, 3));
    assert(changes_in_turn(m, c, ks.subrange(0, 3)) == succeeded(k0 + (k1 + (k2 + e))));
    assert(ks.subrange(0, 3) =~= ks);
    assert(k0 + (k1 + (k2 + e)) =~= k0 + k1 + k2);
}

proof fn lemma_keyboard_each_key(m: SettingsManager)
    ensures
        all_spec(m, DeviceCategory::Keyboard) == changes_in_turn(
            m,
            DeviceCategory::Keyboard,
            forwarded_keys(DeviceCategory::Keyboard),
        ),
{
    let s = m.keyboard.settings;
    let c = DeviceCategory::Keyboard;
    let ks = forwarded_keys(c);
    lemma_key_names(SettingKey::RepeatInterval);
    lemma_key_names(SettingKey::Delay);
    if s.repeat_interval == 0 {
        // the repeat interval, first in turn, fails
        assert(ks[0] == SettingKey::RepeatInterval);
    } else {
        let k0 = kk(s, SettingKey::RepeatInterval);
        let k1 = kk(s, SettingKey::Delay);
        let e = Seq::<CommandModel>::empty();
        // peel the keys off the front, one at a time
        assert(ks.subrange(2, 2) =~= Seq::<SettingKey>::empty());
        assert(changes_in_turn(m, c, ks.subrange(2, 2)) == succeeded(e));
        assert(ks.subrange(1, 2)[0] == SettingKey::Delay);
        assert(ks.subrange(1, 2).drop_first() =~= ks.subrange(2, 2));
        assert(changes_in_turn(m, c, ks.subrange(1, 2)) == succeeded(k1 + e));
        assert(ks.subrange(0, 2)[0] == SettingKey::RepeatInterval);
        assert(ks.subrange(0, 2).drop_first() =~= ks.subrange(1, 2));
        assert(changes_in_turn(m, c, ks.subrange(0, 2)) == succeeded(k0 + (k1 + e)));
        assert(ks.subrange(0, 2) =~= ks);
        assert(k0 + (k1 + e) =~= k0 + k1);
    }
}

proof fn lemma_sources_each_key(m: SettingsManager)
    ensures
        all_spec(m, DeviceCategory::InputSources) == changes_in_turn(
            m,
            DeviceCategory::InputSources,
            forwarded_keys(DeviceCategory::InputSources),
        ),
{
    let c = DeviceCategory::InputSources;
    let ks = forwarded_keys(c);
    lemma_key_names(SettingKey::Sources);
    assert(ks.drop_first() =~= Seq::<SettingKey>::empty());
    assert(changes_in_turn(m, c, ks.drop_first()) == succeeded(Seq::empty()));
    assert(ks[0] == SettingKey::Sources);
    match sources_key(m.input_sources.settings, SettingKey::Sources) {
        Ok(x) => assert(x + Seq::<CommandModel>::empty() =~= x),
        Err(_) => {},
    }
}

#[verifier::rlimit(40)]
proof fn lemma_touchpad_each_key(m: SettingsManager)
    ensures
        all_spec(m, DeviceCategory::Touchpad) == changes_in_turn(
            m,
            DeviceCategory::Touchpad,
            forwarded_keys(DeviceCategory::Touchpad),
        ),
{
    let s = m.touchpad.settings;
    let ml = m.mouse.settings.left_handed;
    if crate::translate::left_handed_choice(s.left_handed@, ml) is None {
        // the left-handed key, second in turn, fails
        let c = DeviceCategory::Touchpad;
        let ks = forwarded_keys(c);
        lemma_key_names(SettingKey::Speed);
        lemma_key_names(SettingKey::LeftHanded);
        let t1 = ks.drop_first();
        assert(ks[0] == SettingKey::Speed);
        assert(t1[0] == SettingKey::LeftHanded);
        assert(changes_spec(m, c, key_name(SettingKey::LeftHanded)) == Err::<Seq<CommandModel>, SyncError>(
            SyncError::InvalidValue,
        ));
        assert(changes_in_turn(m, c, t1) == Err::<Seq<CommandModel>, SyncError>(SyncError::InvalidValue));
    } else {
        let c = DeviceCategory::Touchpad;
        let ks = forwarded_keys(c);
        lemma_key_names(SettingKey::Speed);
        lemma_key_names(SettingKey::LeftHanded);
        lemma_key_names(SettingKey::NaturalScroll);
        lemma_key_names(SettingKey::TapToClick);
        lemma_key_names(SettingKey::TwoFingerScrolling);
        lemma_key_names(SettingKey::SendEventsMode);
        lemma_key_names(SettingKey::DisableWhileTyping);
        lemma_key_names(SettingKey::TapAndDrag);
        lemma_key_names(SettingKey::TapAndDragLock);
        lemma_key_names(SettingKey::MiddleClickEmulation);
        lemma_key_names(SettingKey::ClickMethod);
        let k0 = tk(s, ml, SettingKey::Speed);
        let k1 = tk(s, ml, SettingKey::LeftHanded);
        let k2 = tk(s, ml, SettingKey::NaturalScroll);
        let k3 = tk(s, ml, SettingKey::TapToClick);
        let k4 = tk(s, ml, SettingKey::TwoFingerScrolling);
        let k5 = tk(s, ml, SettingKey::SendEventsMode);
        let k6 = tk(s, ml, SettingKey::DisableWhileTyping);
        let k7 = tk(s, ml, SettingKey::TapAndDrag);
        let k8 = tk(s, ml, SettingKey::TapAndDragLock);
        let k9 = tk(s, ml, SettingKey::MiddleClickEmulation);
        let k10 = tk(s, ml, SettingKey::ClickMethod);
        let e = Seq::<CommandModel>::empty();
        // peel the keys off the front, one at a time
        assert(ks.subrange(11, 11) =~= Seq::<SettingKey>::empty());
        assert(changes_in_turn(m, c, ks.subrange(11, 11)) == succeeded(e));
        assert(ks.subrange(10, 11)[0] == SettingKey::ClickMethod);
        assert(ks.subrange(10, 11).drop_first() =~= ks.subrange(11, 11));
        assert(changes_in_turn(m, c, ks.subrange(10, 11)) == succeeded(k10 + e));
        assert(ks.subrange(9, 11)[0] == SettingKey::MiddleClickEmulation);
        assert(ks.subrange(9, 11).drop_first() =~= ks.subrange(10, 11));
        assert(changes_in_turn(m, c, ks.subrange(9, 11)) == succeeded(k9 + (k10 + e)));
        assert(ks.subrange(8, 11)[0] == SettingKey::TapAndDragLock);
        assert(ks.subrange(8, 11).drop_first() =~= ks.subrange(9, 11));
        assert(changes_in_turn(m, c, ks.subrange(8, 11)) == succeeded(k8 + (k9 + (k10 + e))));
        assert(ks.subrange(7, 11)[0] == SettingKey::TapAndDrag);
        assert(ks.subrange(7, 11).drop_first() =~= ks.subrange(8, 11));
        assert(changes_in_turn(m, c, ks.subrange(7, 11)) == succeeded(k7 + (k8 + (k9 + (k10 + e)))));
        assert(ks.subrange(6, 11)[0] == SettingKey::DisableWhileTyping);
        assert(ks.subrange(6, 11).drop_first() =~= ks.subrange(7, 11));
        assert(changes_in_turn(m, c, ks.subrange(6, 11)) == succeeded(k6 + (k7 + (k8 + (k9 + (k10 + e))))));
        assert(ks.subrange(5, 11)[0] == SettingKey::SendEventsMode);
        assert(ks.subrange(5, 11).drop_first() =~= ks.subrange(6, 11));
        assert(changes_in_turn(m, c, ks.subrange(5, 11)) == succeeded(k5 + (k6 + (k7 + (k8 + (k9 + (k10 + e)))))));
        assert(ks.subrange(4, 11)[0] == SettingKey::TwoFingerScrolling);
        assert(ks.subrange(4, 11).drop_first() =~= ks.subrange(5, 11));
        assert(changes_in_turn(m, c, ks.subrange(4, 11)) == succeeded(k4 + (k5 + (k6 + (k7 + (k8 + (k9 + (k10 + e))))))));
        assert(ks.subrange(3, 11)[0] == SettingKey::TapToClick);
        assert(ks.subrange(3, 11).drop_first() =~= ks.subrange(4, 11));
        assert(changes_in_turn(m, c, ks.subrange(3, 11)) == succeeded(k3 + (k4 + (k5 + (k6 + (k7 + (k8 + (k9 + (k10 + e)))))))));
        assert(ks.subrange(2, 11)[0] == SettingKey::NaturalScroll);
        assert(ks.subrange(2, 11).drop_first() =~= ks.subrange(3, 11));
        assert(changes_in_turn(m, c, ks.subrange(2, 11)) == succeeded(k2 + (k3 + (k4 + (k5 + (k6 + (k7 + (k8 + (k9 + (k10 + e))))))))));
        assert(ks.subrange(1, 11)[0] == SettingKey::LeftHanded);
        assert(ks.subrange(1, 11).drop_first() =~= ks.subrange(2, 11));
        assert(changes_in_turn(m, c, ks.subrange(1, 11)) == succeeded(k1 + (k2 + (k3 + (k4 + (k5 + (k6 + (k7 + (k8 + (k9 + (k10 + e)))))))))));
        assert(ks.subrange(0, 11)[0] == SettingKey::Speed);
        assert(ks.subrange(0, 11).drop_first() =~= ks.subrange(1, 11));
        assert(changes_in_turn(m, c, ks.subrange(0, 11)) == succeeded(k0 + (k1 + (k2 + (k3 + (k4 + (k5 + (k6 + (k7 + (k8 + (k9 + (k10 + e))))))))))));
        assert(ks.subrange(0, 11) =~= ks);
        assert(k0 + (k1 + (k2 + (k3 + (k4 + (k5 + (k6 + (k7 + (k8 + (k9 + (k10 + e)))))))))) =~= k0 + k1 + k2 + k3 + k4 + k5 + k6 + k7 + k8 + k9 + k10);
    }
}

/// Forwarding every key of a store is forwarding each of its keys once, as
/// a changed key, in turn.
pub proof fn lemma_apply_all_is_each_key(m: SettingsManager, c: DeviceCategory)
    ensures
        all_spec(m, c) == changes_in_turn(m, c, forwarded_keys(c)),
{
    match c {
        DeviceCategory::Pointer => lemma_pointer_each_key(m),
        DeviceCategory::Touchpad => lemma_touchpad_each_key(m),
        DeviceCategory::Keyboard => lemma_keyboard_each_key(m),
        DeviceCategory::InputSources => lemma_sources_each_key(m),
    }
}

/// The reported value of a two-state capability that a store keeps as a flag.
pub open spec fn reported_flag(l: Libinput, k: SettingKey) -> Option<EnabledOrDisabled> {
    match k {
        SettingKey::NaturalScroll => l.natural_scroll,
        SettingKey::LeftHanded => l.left_handed,
        SettingKey::TapToClick => l.tap,
        SettingKey::TapAndDrag => l.tap_drag,
        SettingKey::TapAndDragLock => l.tap_drag_lock,
        _ => None,
    }
}

/// Whether a category's store takes the flag `k` from device reports.
pub open spec fn absorbs_flag(c: DeviceCategory, k: SettingKey) -> bool {
    match c {
        DeviceCategory::Pointer => k == SettingKey::NaturalScroll || k == SettingKey::LeftHanded,
        DeviceCategory::Touchpad => k == SettingKey::NaturalScroll || k == SettingKey::TapToClick
            || k == SettingKey::TapAndDrag || k == SettingKey::TapAndDragLock,
        _ => false,
    }
}

/// The flag `k` as a category's store holds it.
pub open spec fn stored_flag(m: SettingsManager, c: DeviceCategory, k: SettingKey) -> bool {
    match (c, k) {
        (DeviceCategory::Pointer, SettingKey::LeftHanded) => m.mouse.settings.left_handed,
        (DeviceCategory::Pointer, _) => m.mouse.settings.natural_scroll,
        (_, SettingKey::TapToClick) => m.touchpad.settings.tap_to_click,
        (_, SettingKey::TapAndDrag) => m.touchpad.settings.tap_and_drag,
        (_, SettingKey::TapAndDragLock) => m.touchpad.settings.tap_and_drag_lock,
        _ => m.touchpad.settings.natural_scroll,
    }
}

/// The directive that forwards the flag `k`.
pub open spec fn flag_directive(k: SettingKey) -> Directive {
    match k {
        SettingKey::LeftHanded => Directive::LeftHanded,
        SettingKey::TapToClick => Directive::Tap,
        SettingKey::TapAndDrag => Directive::Drag,
        SettingKey::TapAndDragLock => Directive::DragLock,
        _ => Directive::NaturalScroll,
    }
}

/// The command device class of a category with a pointing device.
pub open spec fn pointing_device(c: DeviceCategory) -> DeviceType {
    if c == DeviceCategory::Pointer {
        DeviceType::Pointer
    } else {
        DeviceType::Touchpad
    }
}

/// A two-state capability that a device reports as `t`, once absorbed, is
/// the flag the store holds, and forwarding that key again sends the token
/// of `t`.
pub proof fn lemma_flag_round_trip(
    m: SettingsManager,
    input: Input,
    after: SettingsManager,
    writes: Seq<WriteModel>,
    c: DeviceCategory,
    k: SettingKey,
    t: EnabledOrDisabled,
)
    requires
        category_named(input.input_type@) == Some(c),
        absorbs_flag(c, k),
        input.libinput matches Some(l) && reported_flag(l, k) == Some(t),
        absorbed(m, input, after, writes),
    ensures
        stored_flag(after, c, k) == is_enabled(t),
        changes_spec(after, c, key_name(k)) == succeeded(
            seq![cmd(pointing_device(c), flag_directive(k), toggle_text(is_enabled(t)))],
        ),
        toggle_text(is_enabled(t)) == if t == EnabledOrDisabled::Enabled { "enabled"@ } else { "disabled"@ },
{
    lemma_key_names(k);
}

/// A settings→device propagation closes device→settings until it ends;
/// ending it reopens device→settings only where it was open before and no
/// reload paused it meanwhile, so a concurrent pause is never overridden.
pub proof fn lemma_gate_discipline(g: SuppressionGate, paused_meanwhile: bool)
    requires
        g.may_begin(Direction::SettingsToDevice),
    ensures
        ({
            let during = g.begun(Direction::SettingsToDevice);
            let paused = if paused_meanwhile { SuppressionGate { reload_paused: true, ..during } } else { during };
            let after = paused.ended(Direction::SettingsToDevice);
            &&& !during.allows_spec(Direction::DeviceToSettings)
            &&& !paused.allows_spec(Direction::DeviceToSettings)
            &&& after.allows_spec(Direction::DeviceToSettings) == (g.allows_spec(Direction::DeviceToSettings)
                && !paused_meanwhile)
            &&& g.allows_spec(Direction::DeviceToSettings) && !paused_meanwhile ==> after.allows_spec(
                Direction::DeviceToSettings,
            )
            &&& !paused_meanwhile ==> after == g
        }),
{
}

/// Ending a propagation undoes exactly what beginning it did.
pub proof fn lemma_end_undoes_begin(g: SuppressionGate, d: Direction)
    requires
        g.may_begin(d),
    ensures
        g.begun(d).ended(d) == g,
        !g.begun(d).allows_spec(crate::gate::opposite(d)),
{
}

/// The decisions after `n` consecutive failed attempts, in order.
pub open spec fn decisions(p: RetryPolicy, n: nat) -> Seq<RetryDecision> {
    Seq::new(n, |i: int| retry_spec(p, i as nat))
}

/// The delay of a retry decision.
pub open spec fn delay_of(d: RetryDecision) -> int {
    match d {
        RetryDecision::RetryAfterMs(ms) => ms as int,
        RetryDecision::GiveUp => -1,
    }
}

/// Up to the bound, each failure is followed by one retry, with a delay
/// that grows from one retry to the next; the failure after the bound
/// gives up.
pub proof fn lemma_reconnect(p: RetryPolicy, n: nat)
    requires
        n <= p.max_retry,
        p.step_ms > 0,
    ensures
        forall|i: int| 0 <= i < n ==> decisions(p, n)[i] is RetryAfterMs,
        forall|i: int, j: int| 0 <= i < j < n ==> delay_of(decisions(p, n)[i]) < delay_of(decisions(p, n)[j]),
        decisions(p, (p.max_retry + 1) as nat).last() == RetryDecision::GiveUp,
{
    assert forall|i: int, j: int| 0 <= i < j < n implies delay_of(decisions(p, n)[i]) < delay_of(
        decisions(p, n)[j],
    ) by {
        assert(i * p.step_ms < j * p.step_ms) by (nonlinear_arith)
            requires
                0 <= i < j,
                p.step_ms > 0,
        ;
        assert(j * p.step_ms <= u32::MAX * u32::MAX) by (nonlinear_arith)
            requires
                0 <= j <= u32::MAX,
                p.step_ms <= u32::MAX,
        ;
    }
}

/// `n` device-changed events.
pub open spec fn device_events(n: nat) -> Seq<MonitorEvent> {
    Seq::new(n, |i: int| MonitorEvent::DeviceChanged)
}

/// The tick of a compositor reload.
pub open spec fn reload_tick(s: ReloadStatus) -> MonitorEvent {
    MonitorEvent::Tick { first: false, status: Some(s) }
}

proof fn lemma_run_concat(g: SuppressionGate, a: Seq<MonitorEvent>, b: Seq<MonitorEvent>)
    ensures
        run(g, a + b) == ({
            let (g1, x) = run(g, a);
            let (g2, y) = run(g1, b);
            (g2, x + y)
        }),
    decreases a.len(),
{
    if a.len() == 0 {
        assert(a + b =~= b);
        assert(Seq::<MonitorAction>::empty() + run(g, b).1 =~= run(g, b).1);
    } else {
        assert((a + b).drop_first() =~= a.drop_first() + b);
        let (g1, x) = step(g, a[0]);
        lemma_run_concat(g1, a.drop_first(), b);
        let (g2, r1) = run(g1, a.drop_first());
        let (g3, r2) = run(g2, b);
        assert(seq![x] + (r1 + r2) =~= (seq![x] + r1) + r2);
    }
}

proof fn lemma_paused_drops(g: SuppressionGate, n: nat)
    requires
        g.reload_paused,
    ensures
        run(g, device_events(n)) == (g, Seq::new(n, |i: int| MonitorAction::Drop)),
    decreases n,
{
    if n > 0 {
        assert(device_events(n).drop_first() =~= device_events((n - 1) as nat));
        lemma_paused_drops(g, (n - 1) as nat);
        assert(seq![MonitorAction::Drop] + Seq::new((n - 1) as nat, |i: int| MonitorAction::Drop) =~= Seq::new(
            n,
            |i: int| MonitorAction::Drop,
        ));
    } else {
        assert(device_events(0) =~= Seq::<MonitorEvent>::empty());
        assert(Seq::new(0, |i: int| MonitorAction::Drop) =~= Seq::<MonitorAction>::empty());
    }
}

/// A reload-pending tick, any number of device events, and a reload-done
/// tick: the monitor pauses, drops every device event, and asks once for
/// the reapply of every store after the cooldown. Once the pause is lifted,
/// device→settings is open again unless a settings→device propagation still
/// holds it.
pub proof fn lemma_reload_cycle(g: SuppressionGate, n: nat)
    ensures
        run(g, seq![reload_tick(ReloadStatus::Pending)] + device_events(n) + seq![reload_tick(ReloadStatus::Done)]).0
            == (SuppressionGate { reload_paused: true, ..g }),
        (SuppressionGate { reload_paused: false, ..g }).allows_spec(Direction::DeviceToSettings) <==> g.device_holds
            == 0,
        run(g, seq![reload_tick(ReloadStatus::Pending)] + device_events(n) + seq![reload_tick(ReloadStatus::Done)]).1
            == seq![MonitorAction::Pause] + Seq::new(n, |i: int| MonitorAction::Drop) + seq![
            MonitorAction::ReapplyAfterCooldown,
        ],
{
    let p = seq![reload_tick(ReloadStatus::Pending)];
    let d = seq![reload_tick(ReloadStatus::Done)];
    let mid = device_events(n);
    lemma_run_concat(g, p + mid, d);
    lemma_run_concat(g, p, mid);
    let gp = SuppressionGate { reload_paused: true, ..g };
    assert(p.drop_first() =~= Seq::<MonitorEvent>::empty());
    assert(step(g, p[0]) == (gp, MonitorAction::Pause));
    assert(run(gp, p.drop_first()) == (gp, Seq::<MonitorAction>::empty()));
    assert(run(g, p) == (gp, seq![MonitorAction::Pause] + Seq::<MonitorAction>::empty()));
    assert(seq![MonitorAction::Pause] + Seq::<MonitorAction>::empty() =~= seq![MonitorAction::Pause]);
    lemma_paused_drops(gp, n);
    assert(d.drop_first() =~= Seq::<MonitorEvent>::empty());
    assert(step(gp, d[0]) == (gp, MonitorAction::ReapplyAfterCooldown));
    assert(run(gp, d.drop_first()) == (gp, Seq::<MonitorAction>::empty()));
    assert(run(gp, d) == (gp, seq![MonitorAction::ReapplyAfterCooldown] + Seq::<MonitorAction>::empty()));
    assert(seq![MonitorAction::ReapplyAfterCooldown] + Seq::<MonitorAction>::empty() =~= seq![
        MonitorAction::ReapplyAfterCooldown,
    ]);
}

} // verus!
