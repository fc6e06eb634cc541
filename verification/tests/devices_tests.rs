use framecap::audio::E_NOINTERFACE;
use framecap::devices::{
    com_create_decision, ComOutcome, DeviceProperty, MyDevice, MyDeviceEnumerator,
    DEVICE_STATE_ACTIVE, E_INVALIDARG, ERROR_NOT_FOUND_HR, IID_IAUDIO_CLIENT,
    IID_IMM_DEVICE_ENUMERATOR, STG_E_ACCESSDENIED, STGM_READ,
};

#[test]
fn enumerator_is_substituted_only_for_its_interface() {
    assert!(com_create_decision(true, IID_IMM_DEVICE_ENUMERATOR) == ComOutcome::Synthesize);
    assert!(com_create_decision(false, IID_IMM_DEVICE_ENUMERATOR) == ComOutcome::Forward);
    assert!(com_create_decision(true, 0xDEAD) == ComOutcome::Forward);
}

#[test]
fn enumeration_shows_one_active_render_device() {
    let e = MyDeviceEnumerator::new();
    assert_eq!(e.enum_audio_endpoints(0, 1).get_count(), 1);
    assert_eq!(e.enum_audio_endpoints(1, 1).get_count(), 0);
    assert_eq!(e.enum_audio_endpoints(0, 0).get_count(), 0);
    let coll = e.enum_audio_endpoints(0, 1);
    assert!(coll.item(0).is_ok());
    assert!(coll.item(1).is_err());
}

#[test]
fn default_endpoint_answers_console_render_only() {
    let e = MyDeviceEnumerator::new();
    assert!(e.get_default_audio_endpoint(0, 0).is_ok());
    assert_eq!(e.get_default_audio_endpoint(1, 0).err(), Some(ERROR_NOT_FOUND_HR));
    assert_eq!(e.get_default_audio_endpoint(0, 1).err(), Some(ERROR_NOT_FOUND_HR));
    assert!(e.get_device(&String::from("810")).is_ok());
    assert_eq!(e.get_device(&String::from("811")).err(), Some(ERROR_NOT_FOUND_HR));
    assert!(e.register_endpoint_notification_callback().is_ok());
    assert!(e.unregister_endpoint_notification_callback().is_ok());
}

#[test]
fn device_activates_audio_client_only() {
    let d = MyDevice::new();
    let c = d.activate(IID_IAUDIO_CLIENT).unwrap();
    assert!(c.init.is_none());
    assert_eq!(d.activate(0x1234).err(), Some(E_NOINTERFACE));
    assert_eq!(d.get_state(), DEVICE_STATE_ACTIVE);
    assert_eq!(d.get_id(), "810");
}

#[test]
fn property_store_is_constant_and_read_only() {
    let d = MyDevice::new();
    assert_eq!(d.open_property_store(1).err(), Some(E_INVALIDARG));
    let store = d.open_property_store(STGM_READ).unwrap();
    assert_eq!(store.get_count(), 5);
    assert!(store.get_at(0).is_ok());
    assert_eq!(store.get_at(5).err(), Some(ERROR_NOT_FOUND_HR));
    assert_eq!(store.get_value(DeviceProperty::FriendlyName), "1919");
    assert_eq!(store.get_value(DeviceProperty::InstanceId), "810");
    assert_eq!(store.set_value(), STG_E_ACCESSDENIED);
    assert_eq!(store.commit(), Err(STG_E_ACCESSDENIED));
}
