//! The synthetic audio endpoint and its enumeration.
//!
//! When the host asks the system for audio devices, the shim answers
//! with exactly one: a synthetic render endpoint whose only service is
//! the capture-side audio client.  Enumeration, default-endpoint
//! lookup, device identity and the device's property store are all
//! answered from constants, so the host sees one plausible, active
//! device and nothing else.

use vstd::prelude::*;
use crate::audio::AudioClient;

verus! {

/// Interface identifier of the device enumerator, with the first group
/// of the textual form in the most significant bits.
pub const IID_IMM_DEVICE_ENUMERATOR: u128 = 0xA95664D2_9614_4F35_A746_DE8DB63617E6;

/// Interface identifier of the audio client.
pub const IID_IAUDIO_CLIENT: u128 = 0x1CB9AD4C_DBFA_4C32_B178_C2F568A703B2;

/// Interface identifier of the render client.
pub const IID_IAUDIO_RENDER_CLIENT: u128 = 0xF294ACFC_3146_4483_A7BF_ADDCA7C260E2;

/// An argument had an invalid value.
pub const E_INVALIDARG: u32 = 0x8007_0057;

/// The requested element was not found.
pub const ERROR_NOT_FOUND_HR: u32 = 0x8007_0490;

/// Write access to a read-only store was denied.
pub const STG_E_ACCESSDENIED: u32 = 0x8003_0005;

/// The render data-flow direction.
pub const DATAFLOW_RENDER: u32 = 0;

/// The console device role.
pub const ROLE_CONSOLE: u32 = 0;

/// State mask bit of active devices.
pub const DEVICE_STATE_ACTIVE: u32 = 1;

/// Read access to a property store.
pub const STGM_READ: u32 = 0;

/// How an intercepted object-creation call resolves.
#[derive(Clone, Copy, PartialEq, Eq, Structural)]
pub enum ComOutcome {
    /// Hand the host the synthetic device enumerator and succeed.
    Synthesize,
    /// Let the native creation run unchanged.
    Forward,
}

/// Decide an intercepted object-creation call: the synthetic enumerator
/// is substituted exactly when the configured sound backend is in use
/// and the caller asked for the device-enumerator interface; every
/// other request reaches the native implementation untouched.
pub fn com_create_decision(wasapi_selected: bool, iid: u128) -> (r: ComOutcome)
    ensures
        r == if wasapi_selected && iid == IID_IMM_DEVICE_ENUMERATOR {
            ComOutcome::Synthesize
        } else {
            ComOutcome::Forward
        },
{
    if wasapi_selected && iid == IID_IMM_DEVICE_ENUMERATOR {
        ComOutcome::Synthesize
    } else {
        ComOutcome::Forward
    }
}

/// The synthetic render endpoint.
pub struct MyDevice {}

/// The one device identifier the synthetic endpoint reports.
pub fn device_id() -> (r: String)
    ensures
        r@ == "810"@,
{
    String::from_str("810")
}

impl MyDevice {
    /// The synthetic endpoint; every enumeration hands out this value.
    pub fn new() -> (d: Self) {
        MyDevice {}
    }

    /// Activate a service on the endpoint: only the audio client is
    /// offered, fresh and uninitialized.
    pub fn activate(&self, iid: u128) -> (r: Result<AudioClient, u32>)
        ensures
            iid == IID_IAUDIO_CLIENT ==> (r matches Ok(c) && c.init is None),
            iid != IID_IAUDIO_CLIENT ==> r == Err::<AudioClient, u32>(
                crate::audio::E_NOINTERFACE,
            ),
    {
        if iid == IID_IAUDIO_CLIENT {
            Ok(AudioClient::new())
        } else {
            Err(crate::audio::E_NOINTERFACE)
        }
    }

    /// Open the device's read-only property store.
    pub fn open_property_store(&self, stgm_access: u32) -> (r: Result<MyDevicePropertyStore, u32>)
        ensures
            stgm_access != STGM_READ ==> r is Err && r->Err_0 == E_INVALIDARG,
            stgm_access == STGM_READ ==> r is Ok,
    {
        if stgm_access != STGM_READ {
            Err(E_INVALIDARG)
        } else {
            Ok(MyDevicePropertyStore::new())
        }
    }

    /// The endpoint's identifier string.
    pub fn get_id(&self) -> (r: String)
        ensures
            r@ == "810"@,
    {
        device_id()
    }

    /// The endpoint is always active.
    pub fn get_state(&self) -> (r: u32)
        ensures
            r == DEVICE_STATE_ACTIVE,
    {
        DEVICE_STATE_ACTIVE
    }
}

/// The keys of the synthetic device's property store.
#[derive(Clone, Copy, PartialEq, Eq, Structural)]
pub enum DeviceProperty {
    InterfaceFriendlyName,
    Description,
    FriendlyName,
    InstanceId,
    ContainerId,
}

/// The value the store holds under each key.
pub open spec fn property_value(key: DeviceProperty) -> Seq<char> {
    match key {
        DeviceProperty::InterfaceFriendlyName => "114"@,
        DeviceProperty::Description => "514"@,
        DeviceProperty::FriendlyName => "1919"@,
        DeviceProperty::InstanceId => "810"@,
        DeviceProperty::ContainerId => "1919810"@,
    }
}

/// The key at each position of the store.
pub open spec fn property_key_at(i: int) -> DeviceProperty {
    if i == 0 {
        DeviceProperty::InterfaceFriendlyName
    } else if i == 1 {
        DeviceProperty::Description
    } else if i == 2 {
        DeviceProperty::FriendlyName
    } else if i == 3 {
        DeviceProperty::InstanceId
    } else {
        DeviceProperty::ContainerId
    }
}

/// The read-only property store of the synthetic endpoint: five fixed
/// entries naming and identifying the device.
pub struct MyDevicePropertyStore {}

impl MyDevicePropertyStore {
    /// The store; its contents are constants.
    pub fn new() -> (s: Self) {
        MyDevicePropertyStore {}
    }

    /// Number of properties in the store.
    pub fn get_count(&self) -> (r: u32)
        ensures
            r == 5,
    {
        5
    }

    /// The key at position `i`.
    pub fn get_at(&self, i: u32) -> (r: Result<DeviceProperty, u32>)
        ensures
            i < 5 ==> r == Ok::<DeviceProperty, u32>(property_key_at(i as int)),
            i >= 5 ==> r == Err::<DeviceProperty, u32>(ERROR_NOT_FOUND_HR),
    {
        if i == 0 {
            Ok(DeviceProperty::InterfaceFriendlyName)
        } else if i == 1 {
            Ok(DeviceProperty::Description)
        } else if i == 2 {
            Ok(DeviceProperty::FriendlyName)
        } else if i == 3 {
            Ok(DeviceProperty::InstanceId)
        } else if i == 4 {
            Ok(DeviceProperty::ContainerId)
        } else {
            Err(ERROR_NOT_FOUND_HR)
        }
    }

    /// The value stored under `key`.
    pub fn get_value(&self, key: DeviceProperty) -> (r: String)
        ensures
            r@ == property_value(key),
    {
        match key {
            DeviceProperty::InterfaceFriendlyName => String::from_str("114"),
            DeviceProperty::Description => String::from_str("514"),
            DeviceProperty::FriendlyName => String::from_str("1919"),
            DeviceProperty::InstanceId => String::from_str("810"),
            DeviceProperty::ContainerId => String::from_str("1919810"),
        }
    }

    /// The store is read-only: every write is denied.
    pub fn set_value(&self) -> (r: u32)
        ensures
            r == STG_E_ACCESSDENIED,
    {
        STG_E_ACCESSDENIED
    }

    /// The store is read-only: committing it is denied like any write.
    pub fn commit(&self) -> (r: Result<(), u32>)
        ensures
            r == Err::<(), u32>(STG_E_ACCESSDENIED),
    {
        Err(STG_E_ACCESSDENIED)
    }
}

/// A collection of zero devices or of the one synthetic device.
pub struct MyDeviceCollection {
    pub count: u32,
}

impl MyDeviceCollection {
    /// The collection holding the synthetic endpoint.
    pub fn unique() -> (c: Self)
        ensures
            c.count == 1,
    {
        MyDeviceCollection { count: 1 }
    }

    /// The empty collection.
    pub fn empty() -> (c: Self)
        ensures
            c.count == 0,
    {
        MyDeviceCollection { count: 0 }
    }

    /// Number of devices in the collection.
    pub fn get_count(&self) -> (r: u32)
        ensures
            r == self.count,
    {
        self.count
    }

    /// The device at position `i`: the synthetic endpoint when the
    /// position exists.
    pub fn item(&self, i: u32) -> (r: Result<MyDevice, u32>)
        ensures
            i < self.count ==> r is Ok,
            i >= self.count ==> r is Err && r->Err_0 == E_INVALIDARG,
    {
        if i < self.count {
            Ok(MyDevice::new())
        } else {
            Err(E_INVALIDARG)
        }
    }
}

/// The synthetic device enumerator the shim substitutes for the
/// system's.
pub struct MyDeviceEnumerator {}

impl MyDeviceEnumerator {
    /// The enumerator; it owns no state, every answer is constant.
    pub fn new() -> (e: Self) {
        MyDeviceEnumerator {}
    }

    /// Enumerate endpoints: active render endpoints see the one
    /// synthetic device, every other query sees none.
    pub fn enum_audio_endpoints(&self, dataflow: u32, state_mask: u32) -> (r: MyDeviceCollection)
        ensures
            r.count == if dataflow == DATAFLOW_RENDER && state_mask & DEVICE_STATE_ACTIVE != 0 {
                1int
            } else {
                0int
            },
    {
        if dataflow == DATAFLOW_RENDER && state_mask & DEVICE_STATE_ACTIVE != 0 {
            MyDeviceCollection::unique()
        } else {
            MyDeviceCollection::empty()
        }
    }

    /// The default endpoint: the synthetic device answers only for the
    /// console render role.
    pub fn get_default_audio_endpoint(&self, dataflow: u32, role: u32) -> (r: Result<
        MyDevice,
        u32,
    >)
        ensures
            dataflow == DATAFLOW_RENDER && role == ROLE_CONSOLE ==> r is Ok,
            !(dataflow == DATAFLOW_RENDER && role == ROLE_CONSOLE) ==> r is Err && r->Err_0
                == ERROR_NOT_FOUND_HR,
    {
        if dataflow == DATAFLOW_RENDER && role == ROLE_CONSOLE {
            Ok(MyDevice::new())
        } else {
            Err(ERROR_NOT_FOUND_HR)
        }
    }

    /// Look a device up by identifier: only the synthetic endpoint's
    /// own identifier resolves.
    pub fn get_device(&self, id: &String) -> (r: Result<MyDevice, u32>)
        ensures
            id@ == "810"@ ==> r is Ok,
            id@ != "810"@ ==> r is Err && r->Err_0 == ERROR_NOT_FOUND_HR,
    {
        let own = device_id();
        if id.eq(&own) {
            Ok(MyDevice::new())
        } else {
            Err(ERROR_NOT_FOUND_HR)
        }
    }

    /// Notification callbacks are accepted and ignored: the synthetic
    /// device never changes.
    pub fn register_endpoint_notification_callback(&self) -> (r: Result<(), u32>)
        ensures
            r is Ok,
    {
        Ok(())
    }

    /// See [`Self::register_endpoint_notification_callback`].
    pub fn unregister_endpoint_notification_callback(&self) -> (r: Result<(), u32>)
        ensures
            r is Ok,
    {
        Ok(())
    }
}

} // verus!
