//! Keeps the desktop's input settings stores and a compositor's live input
//! configuration in agreement, in both directions, without echoes.
//!
//! The library decides and translates; the caller reads and writes the
//! stores, sends the commands and runs the event loop.
pub mod absorb;
pub mod command;
pub mod error;
pub mod gate;
pub mod handlers;
pub mod laws;
pub mod layout;
pub mod manager;
pub mod monitor;
pub mod settings;
pub mod text;
pub mod translate;

pub use command::{Command, DeviceType, Directive};
pub use error::SyncError;
pub use gate::{Direction, SuppressionGate, COOLDOWN_MS};
pub use handlers::{InputSourcesHandler, KeyboardHandler, MouseHandler, TouchpadHandler};
pub use manager::{absorb_device_event, sync_input_gsettings, DeviceCategory, SettingsManager};
pub use monitor::{
    on_event, retry_decision, MonitorAction, MonitorEvent, ReloadStatus, RetryDecision,
    RetryPolicy,
};
pub use settings::{
    Input, InputSourcesSettings, KeyboardSettings, Libinput, MouseSettings, SettingKey,
    SettingWrite, TouchpadSettings,
};
pub use translate::{EnabledOrDisabled, PrimitiveToSwayType, SendEvents, SwayTypeToPrimitive};
