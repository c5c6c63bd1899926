//! Verified core of a terminal disk-sanitization tool.
//!
//! The crate covers three tightly coupled pieces: building an inventory of
//! external disks from platform-reported metadata, a sanitization engine that
//! turns a named overwrite standard into a deterministic sequence of
//! write/verify passes over a raw device, and the wizard state machine that
//! sequences drive selection, method selection, confirmation and the
//! destructive operation itself.  Platform probing (sysfs, `statvfs`), raw
//! file handles and terminal rendering live outside this crate; the library
//! works on plain values and on any device that implements `DriveAccessor`.

pub mod app;
pub mod clone;
pub mod device;
pub mod disk;
pub mod engine;
pub mod method;
pub mod util;
