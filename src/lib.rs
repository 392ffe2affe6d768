//! Device-side client for a cloud IoT hub: shared-access signing, the
//! provisioning request/poll protocol, and the telemetry session decisions.

pub mod dps;
pub mod error;
pub mod mqtt;
pub mod sas;
pub mod session;
pub mod settings;
pub mod telemetry;
pub mod text;
