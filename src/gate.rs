use vstd::prelude::*;

verus! {

/// Milliseconds a propagation holds the opposite direction closed after it
/// ran, to swallow the compositor's echo of it.
pub const COOLDOWN_MS: u64 = 100;

/// A propagation direction.
#[derive(Clone, Copy, Debug, PartialEq, Eq, Structural)]
pub enum Direction {
    /// A device report written into the settings store.
    DeviceToSettings,
    /// A settings value forwarded to the compositor.
    SettingsToDevice,
}

pub open spec fn opposite(d: Direction) -> Direction {
    match d {
        Direction::DeviceToSettings => Direction::SettingsToDevice,
        Direction::SettingsToDevice => Direction::DeviceToSettings,
    }
}

/// Guards each propagation direction against echoes of the other. A
/// direction is open while no propagation in the other direction holds it
/// and, for device→settings, while no compositor reload pauses it. Holds are
/// counted, so that a release never opens a direction that something else
/// still keeps closed.
#[derive(Clone, Copy, Debug, PartialEq, Eq, Structural)]
pub struct SuppressionGate {
    /// Settings→device propagations in flight, each closing device→settings.
    pub device_holds: u32,
    /// Device→settings propagations in flight, each closing settings→device.
    pub settings_holds: u32,
    /// Whether a compositor reload pauses device→settings.
    pub reload_paused: bool,
}

impl SuppressionGate {
    /// Whether a propagation in direction `d` may start.
    pub open spec fn allows_spec(self, d: Direction) -> bool {
        match d {
            Direction::DeviceToSettings => self.device_holds == 0 && !self.reload_paused,
            Direction::SettingsToDevice => self.settings_holds == 0,
        }
    }

    /// The holds on the direction opposite to `d`.
    pub open spec fn holds_against(self, d: Direction) -> u32 {
        match d {
            Direction::DeviceToSettings => self.settings_holds,
            Direction::SettingsToDevice => self.device_holds,
        }
    }

    /// Whether a propagation in direction `d` starts here.
    pub open spec fn may_begin(self, d: Direction) -> bool {
        self.allows_spec(d) && self.holds_against(d) < u32::MAX
    }

    /// The flags once a propagation in direction `d` has started: one more
    /// hold on the opposite direction.
    pub open spec fn begun(self, d: Direction) -> SuppressionGate {
        match d {
            Direction::DeviceToSettings => SuppressionGate { settings_holds: (self.settings_holds + 1) as u32, ..self },
            Direction::SettingsToDevice => SuppressionGate { device_holds: (self.device_holds + 1) as u32, ..self },
        }
    }

    /// The flags once a propagation in direction `d` has released its hold.
    pub open spec fn ended(self, d: Direction) -> SuppressionGate {
        match d {
            Direction::DeviceToSettings => SuppressionGate {
                settings_holds: if self.settings_holds > 0 { (self.settings_holds - 1) as u32 } else { 0 },
                ..self
            },
            Direction::SettingsToDevice => SuppressionGate {
                device_holds: if self.device_holds > 0 { (self.device_holds - 1) as u32 } else { 0 },
                ..self
            },
        }
    }

    /// Both directions open.
    pub fn new() -> (r: SuppressionGate)
        ensures
            r.allows_spec(Direction::DeviceToSettings),
            r.allows_spec(Direction::SettingsToDevice),
            r == (SuppressionGate { device_holds: 0, settings_holds: 0, reload_paused: false }),
    {
        SuppressionGate { device_holds: 0, settings_holds: 0, reload_paused: false }
    }

    /// Whether a propagation in direction `d` may start.
    pub fn allows(&self, d: Direction) -> (r: bool)
        ensures
            r == self.allows_spec(d),
    {
        match d {
            Direction::DeviceToSettings => self.device_holds == 0 && !self.reload_paused,
            Direction::SettingsToDevice => self.settings_holds == 0,
        }
    }

    /// Starts a propagation in direction `d` where that direction is open:
    /// closes the opposite direction and returns true. Returns false, and
    /// changes nothing, where `d` is closed (or the holds are at their limit).
    pub fn begin(&mut self, d: Direction) -> (r: bool)
        ensures
            r == old(self).may_begin(d),
            r ==> *final(self) == old(self).begun(d),
            !r ==> *final(self) == *old(self),
    {
        if !self.allows(d) {
            return false;
        }
        match d {
            Direction::DeviceToSettings => {
                if self.settings_holds == u32::MAX {
                    return false;
                }
                self.settings_holds = self.settings_holds + 1;
            },
            Direction::SettingsToDevice => {
                if self.device_holds == u32::MAX {
                    return false;
                }
                self.device_holds = self.device_holds + 1;
            },
        }
        true
    }

    /// Starts a propagation in direction `d` that runs whatever the state of
    /// `d`, such as the reapply after a compositor reload: closes the opposite
    /// direction and returns true. Returns false, and changes nothing, only
    /// where the holds are at their limit.
    pub fn begin_forced(&mut self, d: Direction) -> (r: bool)
        ensures
            r == (old(self).holds_against(d) < u32::MAX),
            r ==> *final(self) == old(self).begun(d),
            !r ==> *final(self) == *old(self),
    {
        match d {
            Direction::DeviceToSettings => {
                if self.settings_holds == u32::MAX {
                    return false;
                }
                self.settings_holds = self.settings_holds + 1;
            },
            Direction::SettingsToDevice => {
                if self.device_holds == u32::MAX {
                    return false;
                }
                self.device_holds = self.device_holds + 1;
            },
        }
        true
    }

    /// Ends a propagation in direction `d`, after the cooldown: releases its
    /// hold on the opposite direction, which opens only if nothing else
    /// keeps it closed.
    pub fn end(&mut self, d: Direction)
        ensures
            *final(self) == old(self).ended(d),
    {
        match d {
            Direction::DeviceToSettings => {
                if self.settings_holds > 0 {
                    self.settings_holds = self.settings_holds - 1;
                }
            },
            Direction::SettingsToDevice => {
                if self.device_holds > 0 {
                    self.device_holds = self.device_holds - 1;
                }
            },
        }
    }

    /// Pauses device→settings for a compositor reload.
    pub fn pause_reload(&mut self)
        ensures
            *final(self) == (SuppressionGate { reload_paused: true, ..*old(self) }),
    {
        self.reload_paused = true;
    }

    /// Lifts the reload pause on device→settings.
    pub fn finish_reload(&mut self)
        ensures
            *final(self) == (SuppressionGate { reload_paused: false, ..*old(self) }),
    {
        self.reload_paused = false;
    }
}

} // verus!
