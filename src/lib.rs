//! Device sessions, pairing-credential provisioning and sideloading
//! workflows for a tethered mobile device.
//!
//! The library holds the decisions: how enumeration results become device
//! records, which device is selected, which installed apps accept a pairing
//! credential, and how a multi-step operation reports its progress. The
//! transport, protocol and network work is done by the caller, which hands the
//! outcomes in as plain values.
pub mod device;
pub mod error;
pub mod operation;
pub mod pairing;
pub mod workflow;
