//! What the client hands to its publish/subscribe transport: topics, envelopes
//! and the settings of a connection.

use vstd::prelude::*;
use vstd::string::*;

verus! {

/// Delivery guarantee of a published message.
#[derive(Debug, Clone, Copy, PartialEq, Eq, Structural)]
pub enum Qos {
    AtMostOnce,
    AtLeastOnce,
}

/// A message to publish.
#[derive(Debug)]
pub struct PublishEnvelope {
    pub topic: String,
    pub payload: Vec<u8>,
    pub qos: Qos,
}

/// The plain-value model of an envelope.
pub struct EnvelopeView {
    pub topic: Seq<char>,
    pub payload: Seq<u8>,
    pub qos: Qos,
}

impl View for PublishEnvelope {
    type V = EnvelopeView;

    open spec fn view(&self) -> EnvelopeView {
        EnvelopeView { topic: self.topic@, payload: self.payload@, qos: self.qos }
    }
}

/// The message that the broker publishes for the client when it disconnects
/// without a clean shutdown.
#[derive(Debug)]
pub struct LastWill {
    pub topic: String,
    pub payload: Vec<u8>,
    pub qos: Qos,
    pub retain: bool,
}

/// Everything needed to open an authenticated connection.
#[derive(Debug)]
pub struct ConnectionSettings {
    pub broker_url: String,
    pub client_id: String,
    pub username: String,
    pub password: String,
    pub keep_alive_secs: u64,
    pub reconnect_timeout_secs: u64,
    pub clean_session: bool,
    pub last_will: Option<LastWill>,
}

/// Recommended keep-alive interval, in seconds.
pub const KEEP_ALIVE_SECS: u64 = 60;

/// Recommended reconnect timeout, in seconds.
pub const RECONNECT_TIMEOUT_SECS: u64 = 5;

pub open spec fn telemetry_topic_of(device_id: Seq<char>) -> Seq<char> {
    "devices/"@ + device_id + "/messages/events/"@
}

pub open spec fn hub_username_of(hub_host: Seq<char>, device_id: Seq<char>) -> Seq<char> {
    hub_host + "/"@ + device_id + "/?api-version=2021-06-30"@
}

pub open spec fn dps_username_of(id_scope: Seq<char>, registration_id: Seq<char>) -> Seq<char> {
    id_scope + "/registrations/"@ + registration_id + "/api-version=2019-03-31"@
}

pub open spec fn hub_broker_url_of(hub_host: Seq<char>) -> Seq<char> {
    "mqtts://"@ + hub_host + ":8883"@
}

/// The topic to which telemetry of a device is published.
pub fn telemetry_topic(device_id: &str) -> (r: String)
    ensures
        r@ == telemetry_topic_of(device_id@),
{
    let mut t = String::from_str("devices/");
    t.append(device_id);
    t.append("/messages/events/");
    t
}

/// The user name for the hub connection of a device.
pub fn hub_username(hub_host: &str, device_id: &str) -> (r: String)
    ensures
        r@ == hub_username_of(hub_host@, device_id@),
{
    let mut u = String::from_str(hub_host);
    u.append("/");
    u.append(device_id);
    u.append("/?api-version=2021-06-30");
    u
}

/// The user name for the provisioning connection of a registration.
pub fn dps_username(id_scope: &str, registration_id: &str) -> (r: String)
    ensures
        r@ == dps_username_of(id_scope@, registration_id@),
{
    let mut u = String::from_str(id_scope);
    u.append("/registrations/");
    u.append(registration_id);
    u.append("/api-version=2019-03-31");
    u
}

/// Settings of the telemetry connection: the device id as client id, the
/// hub user name, the hub token as password, sessions kept across
/// reconnects so that queued inbound messages survive.
pub fn hub_connection(
    hub_host: &str,
    device_id: &str,
    sas_token: &str,
    last_will: Option<LastWill>,
) -> (r: ConnectionSettings)
    ensures
        r.broker_url@ == hub_broker_url_of(hub_host@),
        r.client_id@ == device_id@,
        r.username@ == hub_username_of(hub_host@, device_id@),
        r.password@ == sas_token@,
        r.keep_alive_secs == KEEP_ALIVE_SECS,
        r.reconnect_timeout_secs == RECONNECT_TIMEOUT_SECS,
        !r.clean_session,
        r.last_will == last_will,
{
    let mut broker_url = String::from_str("mqtts://");
    broker_url.append(hub_host);
    broker_url.append(":8883");
    ConnectionSettings {
        broker_url,
        client_id: String::from_str(device_id),
        username: hub_username(hub_host, device_id),
        password: String::from_str(sas_token),
        keep_alive_secs: KEEP_ALIVE_SECS,
        reconnect_timeout_secs: RECONNECT_TIMEOUT_SECS,
        clean_session: false,
        last_will,
    }
}

/// Settings of the provisioning connection: the registration id as client
/// id, the provisioning user name, the provisioning token as password.
pub fn dps_connection(id_scope: &str, registration_id: &str, sas_token: &str) -> (r:
    ConnectionSettings)
    ensures
        r.broker_url@ == "mqtts://global.azure-devices-provisioning.net:8883"@,
        r.client_id@ == registration_id@,
        r.username@ == dps_username_of(id_scope@, registration_id@),
        r.password@ == sas_token@,
        r.keep_alive_secs == KEEP_ALIVE_SECS,
        r.reconnect_timeout_secs == RECONNECT_TIMEOUT_SECS,
        r.clean_session,
        r.last_will is None,
{
    ConnectionSettings {
        broker_url: String::from_str("mqtts://global.azure-devices-provisioning.net:8883"),
        client_id: String::from_str(registration_id),
        username: dps_username(id_scope, registration_id),
        password: String::from_str(sas_token),
        keep_alive_secs: KEEP_ALIVE_SECS,
        reconnect_timeout_secs: RECONNECT_TIMEOUT_SECS,
        clean_session: true,
        last_will: None,
    }
}

} // verus!
