//! Errors of the device client, by kind and by the stage that failed.

use vstd::prelude::*;

verus! {

/// The part of the device's life in which a failure happened.
#[derive(Debug, Clone, Copy, PartialEq, Eq, Structural)]
pub enum Stage {
    /// The provisioning request/poll exchange.
    Provisioning,
    /// Establishing the telemetry connection.
    HubConnection,
    /// The inbound (cloud-to-device) listener.
    Inbound,
    /// The outbound (device-to-cloud) publisher.
    Outbound,
}

/// # SmartPotError
///
/// Every way in which a stage of the client can end unsuccessfully.
#[derive(Debug, Clone, Copy, PartialEq, Eq, Structural)]
pub enum SmartPotError {
    /// The shared key is not valid base64; nothing can be signed with it.
    KeyDecodeError,
    /// A connect, publish or subscribe failed, or the connection closed.
    NetworkError(Stage),
    /// The service refused the credential.
    AuthError,
    /// The provisioning service answered with something unexpected.
    ProtocolError,
    /// A single sensor could not be read or its reading could not be encoded.
    SensorError,
    /// The provisioning attempt went past its deadline.
    TimeoutError,
    /// A service of the device itself (a timer, a driver) failed.
    PlatformError(Stage),
}

/// The description of each error: its kind and, where it has one, its stage.
pub open spec fn message_of(e: SmartPotError) -> Seq<char> {
    match e {
        SmartPotError::KeyDecodeError => "the shared access key is not valid base64"@,
        SmartPotError::NetworkError(Stage::Provisioning) => "network failure during provisioning"@,
        SmartPotError::NetworkError(Stage::HubConnection) => "network failure while connecting to the hub"@,
        SmartPotError::NetworkError(Stage::Inbound) => "network failure in the inbound listener"@,
        SmartPotError::NetworkError(Stage::Outbound) => "network failure in the telemetry publisher"@,
        SmartPotError::AuthError => "the service rejected the credentials"@,
        SmartPotError::ProtocolError => "unexpected response from the provisioning service"@,
        SmartPotError::SensorError => "a sensor could not be read"@,
        SmartPotError::TimeoutError => "provisioning did not finish before its deadline"@,
        SmartPotError::PlatformError(Stage::Provisioning) => "device platform failure during provisioning"@,
        SmartPotError::PlatformError(Stage::HubConnection) => "device platform failure while connecting to the hub"@,
        SmartPotError::PlatformError(Stage::Inbound) => "device platform failure in the inbound listener"@,
        SmartPotError::PlatformError(Stage::Outbound) => "device platform failure in the telemetry publisher"@,
    }
}

impl SmartPotError {
    /// A short human-readable description of the error.
    pub fn message(&self) -> (r: &'static str)
        ensures
            r@ == message_of(*self),
    {
        match self {
            SmartPotError::KeyDecodeError => "the shared access key is not valid base64",
            SmartPotError::NetworkError(Stage::Provisioning) => "network failure during provisioning",
            SmartPotError::NetworkError(Stage::HubConnection) => "network failure while connecting to the hub",
            SmartPotError::NetworkError(Stage::Inbound) => "network failure in the inbound listener",
            SmartPotError::NetworkError(Stage::Outbound) => "network failure in the telemetry publisher",
            SmartPotError::AuthError => "the service rejected the credentials",
            SmartPotError::ProtocolError => "unexpected response from the provisioning service",
            SmartPotError::SensorError => "a sensor could not be read",
            SmartPotError::TimeoutError => "provisioning did not finish before its deadline",
            SmartPotError::PlatformError(Stage::Provisioning) => "device platform failure during provisioning",
            SmartPotError::PlatformError(Stage::HubConnection) => "device platform failure while connecting to the hub",
            SmartPotError::PlatformError(Stage::Inbound) => "device platform failure in the inbound listener",
            SmartPotError::PlatformError(Stage::Outbound) => "device platform failure in the telemetry publisher",
        }
    }
}

} // verus!
