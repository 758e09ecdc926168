//! Boot-time bring-up of a small wireless device, as verified decision logic.
//!
//! The crate holds the rules that order the work of bringing a wireless
//! client interface online and of blinking an output pin beside it. It performs
//! no hardware access itself: each machine hands out the next action to carry
//! out and is told how that action ended.
//!
//! * [`config`]: the network configuration and what makes it acceptable.
//! * [`error`]: the bring-up steps and the failures tagged with them.
//! * [`capability`]: take-once capability tokens and the registry that guards them.
//! * [`bringup`]: the bring-up session and a whole run of it.
//! * [`driver`]: a driver that follows a script, to run a bring-up against.
//! * [`blink`]: the repeating pin task.
//! * [`orchestrator`]: the composition root.

pub mod blink;
pub mod bringup;
pub mod capability;
pub mod config;
pub mod driver;
pub mod error;
pub mod orchestrator;
