use iloader::device::{
    device_info, list_devices, set_selected_device, ConnectionKind, DeviceHandle, DeviceInfo,
    SelectedDevice,
};
use iloader::error::IloaderError;

fn handle(id: u32, udid: &str, kind: ConnectionKind) -> DeviceHandle {
    DeviceHandle { id, udid: udid.to_string(), kind }
}

#[test]
fn zero_devices_give_empty_list() {
    let r = list_devices(Some(vec![]), &vec![]);
    assert!(matches!(r, Ok(ref v) if v.is_empty()));
}

#[test]
fn one_usb_device_with_identity() {
    let r = list_devices(
        Some(vec![handle(7, "00008030-001A", ConnectionKind::Usb)]),
        &vec![Some("Ana's iPhone".to_string())],
    )
    .unwrap();
    assert_eq!(r.len(), 1);
    assert_eq!(r[0].name, "Ana's iPhone");
    assert_eq!(r[0].id, 7);
    assert_eq!(r[0].uuid, "00008030-001A");
    assert_eq!(r[0].connection_type, "USB");
}

#[test]
fn failed_identity_keeps_every_device() {
    let r = list_devices(
        Some(vec![
            handle(1, "udid-a", ConnectionKind::Usb),
            handle(2, "udid-b", ConnectionKind::Network),
            handle(3, "udid-c", ConnectionKind::Unknown),
        ]),
        &vec![None, None, None],
    )
    .unwrap();
    assert_eq!(r.len(), 3);
    for (i, d) in r.iter().enumerate() {
        assert_eq!(d.name, "Unknown Device");
        assert!(!d.uuid.is_empty());
        assert_eq!(d.id, (i + 1) as u32);
    }
    assert_eq!(r[1].connection_type, "Network");
    assert_eq!(r[2].connection_type, "Unknown");
}

#[test]
fn one_failed_identity_does_not_fail_enumeration() {
    let r = list_devices(
        Some(vec![handle(1, "udid-a", ConnectionKind::Usb), handle(2, "udid-b", ConnectionKind::Usb)]),
        &vec![Some("iPad".to_string()), None],
    )
    .unwrap();
    assert_eq!(r[0].name, "iPad");
    assert_eq!(r[1].name, "Unknown Device");
    assert_eq!(r[1].uuid, "udid-b");
}

#[test]
fn unreachable_transport_fails() {
    let r = list_devices(None, &vec![]);
    assert!(matches!(r, Err(IloaderError::TransportUnavailable)));
}

#[test]
fn device_info_uses_queried_name() {
    let d = device_info(&handle(4, "x", ConnectionKind::Network), Some("Tablet".to_string()));
    assert_eq!(d.name, "Tablet");
    assert_eq!(d.connection_type, "Network");
}

#[test]
fn selection_is_copied_out() {
    let mut slot = SelectedDevice::new();
    assert!(slot.current().is_none());
    assert!(matches!(slot.require(), Err(IloaderError::NoDeviceSelected)));
    let d = DeviceInfo {
        name: "Phone".to_string(),
        id: 3,
        uuid: "u1".to_string(),
        connection_type: "USB".to_string(),
    };
    set_selected_device(&mut slot, Some(d));
    let copy = slot.current().unwrap();
    set_selected_device(&mut slot, None);
    assert_eq!(copy.name, "Phone");
    assert_eq!(copy.uuid, "u1");
    assert!(slot.current().is_none());
}
