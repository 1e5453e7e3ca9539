//! Keeps the windows of chosen applications in one of three screen regions.
//!
//! The library decides; it never touches the system. Every procedure that
//! needs the accessibility interface is a value that names the call it waits
//! for, so the rules on ownership of foreign objects, on layout assignments
//! and on keyboard chords can be stated and proved here.
//!
//! - [`foreign`]: the calls to the system's runtime, their replies, and what
//!   a procedure is.
//! - [`memory`]: who answers for a foreign object, and what duplicating and
//!   giving up an owner owe the runtime.
//! - [`error`]: what can go wrong, and how a status is read.
//! - [`bundle`]: bundle identifiers and lists of them.
//! - [`layout`]: the presets and their rectangles on a screen.
//! - [`wrappers`]: elements, applications and windows, and the procedures
//!   that read and move them.
//! - [`assignments`]: the store that says which preset a window has.
//! - [`keys`]: the keys that are down and the command that a chord gives.
//! - [`engine`]: what a notification and what a command bring about.
//! - [`startup`]: the permission check, finding the running applications and
//!   putting their windows under observation.
//! - [`balance`]: the proof that every procedure holds exactly the
//!   references that the runtime handed to it.

pub mod assignments;
pub mod balance;
pub mod bundle;
pub mod engine;
pub mod error;
pub mod foreign;
pub mod keys;
pub mod layout;
pub mod memory;
pub mod startup;
pub mod wrappers;

pub use bundle::{BundleID, BundleIDParseError};
pub use error::{AXErrorExt, UnnamedError};
pub use startup::{has_accessibility_permissions, running_apps_with_bundle_id};
