//! Core engine of a Unity package manager that installs third-party packages
//! as git checkouts inside a project's `Packages` directory and keeps the
//! project dependency manifest in step with the directory layout.
//!
//! The crate holds the decision logic: classifying manifest reference
//! strings, reconciling conflicts between reference kinds, planning
//! install/remove operations, and deriving project and package information.
//! Callers perform the filesystem and git side effects that the plans
//! describe.

pub mod gitops;
pub mod inspector;
pub mod installer;
pub mod jsonio;
pub mod manifest;
pub mod models;
pub mod reference;
pub mod strutil;
