//! Device and hub settings, as loaded from the configuration.

use vstd::prelude::*;

verus! {

/// The identity of this device.
#[derive(Debug, Clone)]
pub struct DeviceSettings {
    id: String,
}

impl DeviceSettings {
    /// The device id, as text.
    pub closed spec fn id_view(&self) -> Seq<char> {
        self.id@
    }

    pub fn new(id: String) -> (r: Self)
        ensures
            r.id_view() == id@,
    {
        DeviceSettings { id }
    }

    /// The device id.
    pub fn id(&self) -> (r: &String)
        ensures
            r@ == self.id_view(),
    {
        &self.id
    }
}

/// Where the hub is.
#[derive(Debug, Clone)]
pub struct HubSettings {
    host: String,
    port: u16,
}

impl HubSettings {
    /// The host name, as text.
    pub closed spec fn host_view(&self) -> Seq<char> {
        self.host@
    }

    /// The port.
    pub closed spec fn port_view(&self) -> u16 {
        self.port
    }

    pub fn new(host: String, port: u16) -> (r: Self)
        ensures
            r.host_view() == host@,
            r.port_view() == port,
    {
        HubSettings { host, port }
    }

    /// The hub's host name.
    pub fn host(&self) -> (r: &String)
        ensures
            r@ == self.host_view(),
    {
        &self.host
    }

    /// The hub's port.
    pub fn port(&self) -> (r: u16)
        ensures
            r == self.port_view(),
    {
        self.port
    }
}

/// All settings of the client.
#[derive(Debug, Clone)]
pub struct Settings {
    hub: HubSettings,
    device: DeviceSettings,
}

impl Settings {
    pub closed spec fn hub_view(&self) -> HubSettings {
        self.hub
    }

    pub closed spec fn device_view(&self) -> DeviceSettings {
        self.device
    }

    /// Settings made of the hub's and the device's.
    pub fn from_parts(hub: HubSettings, device: DeviceSettings) -> (r: Self)
        ensures
            r.hub_view() == hub,
            r.device_view() == device,
    {
        Settings { hub, device }
    }

    /// The hub's settings.
    pub fn hub(&self) -> (r: &HubSettings)
        ensures
            *r == self.hub_view(),
    {
        &self.hub
    }

    /// The device's settings.
    pub fn device(&self) -> (r: &DeviceSettings)
        ensures
            *r == self.device_view(),
    {
        &self.device
    }
}

} // verus!
