use vstd::prelude::*;
use vstd::string::*;

verus! {

/// The device class a compositor command is addressed to.
#[derive(Clone, Copy, Debug, PartialEq, Eq, Structural)]
pub enum DeviceType {
    Pointer,
    Touchpad,
    Keyboard,
}

/// The input directive a compositor command sets.
#[derive(Clone, Copy, Debug, PartialEq, Eq, Structural)]
pub enum Directive {
    PointerAccel,
    NaturalScroll,
    LeftHanded,
    Tap,
    ScrollMethod,
    Events,
    Dwt,
    Drag,
    DragLock,
    MiddleEmulation,
    ClickMethod,
    RepeatRate,
    RepeatDelay,
    XkbLayout,
    XkbVariant,
}

pub open spec fn device_name(d: DeviceType) -> Seq<char> {
    match d {
        DeviceType::Pointer => "pointer"@,
        DeviceType::Touchpad => "touchpad"@,
        DeviceType::Keyboard => "keyboard"@,
    }
}

pub open spec fn directive_name(d: Directive) -> Seq<char> {
    match d {
        Directive::PointerAccel => "pointer_accel"@,
        Directive::NaturalScroll => "natural_scroll"@,
        Directive::LeftHanded => "left_handed"@,
        Directive::Tap => "tap"@,
        Directive::ScrollMethod => "scroll_method"@,
        Directive::Events => "events"@,
        Directive::Dwt => "dwt"@,
        Directive::Drag => "drag"@,
        Directive::DragLock => "drag_lock"@,
        Directive::MiddleEmulation => "middle_emulation"@,
        Directive::ClickMethod => "click_method"@,
        Directive::RepeatRate => "repeat_rate"@,
        Directive::RepeatDelay => "repeat_delay"@,
        Directive::XkbLayout => "xkb_layout"@,
        Directive::XkbVariant => "xkb_variant"@,
    }
}

impl DeviceType {
    /// The name of the device class in a command.
    pub fn name(&self) -> (r: &'static str)
        ensures
            r@ == device_name(*self),
    {
        match self {
            DeviceType::Pointer => "pointer",
            DeviceType::Touchpad => "touchpad",
            DeviceType::Keyboard => "keyboard",
        }
    }
}

impl Directive {
    /// The name of the directive in a command.
    pub fn name(&self) -> (r: &'static str)
        ensures
            r@ == directive_name(*self),
    {
        match self {
            Directive::PointerAccel => "pointer_accel",
            Directive::NaturalScroll => "natural_scroll",
            Directive::LeftHanded => "left_handed",
            Directive::Tap => "tap",
            Directive::ScrollMethod => "scroll_method",
            Directive::Events => "events",
            Directive::Dwt => "dwt",
            Directive::Drag => "drag",
            Directive::DragLock => "drag_lock",
            Directive::MiddleEmulation => "middle_emulation",
            Directive::ClickMethod => "click_method",
            Directive::RepeatRate => "repeat_rate",
            Directive::RepeatDelay => "repeat_delay",
            Directive::XkbLayout => "xkb_layout",
            Directive::XkbVariant => "xkb_variant",
        }
    }

    /// Keyboard layout lists are quoted, as they may be empty.
    pub open spec fn quoted_spec(self) -> bool {
        self == Directive::XkbLayout || self == Directive::XkbVariant
    }

    pub fn quoted(&self) -> (r: bool)
        ensures
            r == self.quoted_spec(),
    {
        match self {
            Directive::XkbLayout => true,
            Directive::XkbVariant => true,
            _ => false,
        }
    }
}

/// What a command means: a directive for a device class with its argument.
pub struct CommandModel {
    pub device: DeviceType,
    pub directive: Directive,
    pub value: Seq<char>,
}

/// One line of the compositor's input protocol:
/// `input type:<device> <directive> <value>`.
pub struct Command {
    pub device: DeviceType,
    pub directive: Directive,
    pub value: String,
}

impl View for Command {
    type V = CommandModel;

    open spec fn view(&self) -> CommandModel {
        CommandModel { device: self.device, directive: self.directive, value: self.value@ }
    }
}

/// The models of a list of commands.
pub open spec fn models(cs: Seq<Command>) -> Seq<CommandModel> {
    cs.map_values(|c: Command| c@)
}

/// A command model with its parts.
pub open spec fn cmd(device: DeviceType, directive: Directive, value: Seq<char>) -> CommandModel {
    CommandModel { device, directive, value }
}

/// The text of a command as the compositor reads it.
pub open spec fn command_text(c: CommandModel) -> Seq<char> {
    let arg = if c.directive.quoted_spec() {
        "'"@ + c.value + "'"@
    } else {
        c.value
    };
    "input type:"@ + device_name(c.device) + " "@ + directive_name(c.directive) + " "@ + arg
}

impl Command {
    pub fn new(device: DeviceType, directive: Directive, value: String) -> (r: Command)
        ensures
            r@ == cmd(device, directive, value@),
    {
        Command { device, directive, value }
    }

    /// The command line sent to the compositor.
    pub fn text(&self) -> (r: String)
        ensures
            r@ == command_text(self@),
    {
        let mut s = String::from_str("input type:");
        s.append(self.device.name());
        s.append(" ");
        s.append(self.directive.name());
        s.append(" ");
        if self.directive.quoted() {
            s.append("'");
            s.append(self.value.as_str());
            s.append("'");
        } else {
            s.append(self.value.as_str());
        }
        proof {
            let m = self@;
            if m.directive.quoted_spec() {
                assert(s@ =~= command_text(m));
            } else {
                assert(s@ =~= command_text(m));
            }
        }
        s
    }
}

} // verus!

verus! {

/// The meaning of a handler's result: the commands to forward, or the error.
pub open spec fn outcome(r: Result<Vec<Command>, crate::error::SyncError>) -> Result<
    Seq<CommandModel>,
    crate::error::SyncError,
> {
    match r {
        Ok(v) => Ok(models(v@)),
        Err(e) => Err(e),
    }
}

} // verus!
