use iloader::device::{set_selected_device, DeviceInfo, SelectedDevice};
use iloader::error::IloaderError;
use iloader::operation::{OpError, OperationEvent};
use iloader::pairing::PairingAppInfo;
use iloader::workflow::{InstallSidestoreOperation, SideloadOperation};

fn selected() -> SelectedDevice {
    let mut s = SelectedDevice::new();
    set_selected_device(
        &mut s,
        Some(DeviceInfo {
            name: "Phone".to_string(),
            id: 1,
            uuid: "u1".to_string(),
            connection_type: "USB".to_string(),
        }),
    );
    s
}

#[test]
fn sideload_without_device_fails_at_once() {
    let mut s = selected();
    set_selected_device(&mut s, None);
    let (w, device) = SideloadOperation::begin(&s);
    match device {
        Err(OpError::StepFailed { step, message }) => {
            assert_eq!(step, "install");
            assert_eq!(message, "No device selected");
        }
        _ => panic!("expected failure"),
    }
    let ev = w.op.events();
    assert_eq!(ev.len(), 2);
    assert!(matches!(ev.last(), Some(OperationEvent::Failed { step, .. }) if step == "install"));
}

#[test]
fn sideload_completes() {
    let (mut w, device) = SideloadOperation::begin(&selected());
    assert_eq!(device.unwrap().uuid, "u1");
    assert!(w.finish(Ok(())).is_ok());
    assert!(matches!(w.op.events().last(), Some(OperationEvent::Completed { step }) if step == "install"));
}

#[test]
fn install_and_pair_without_device() {
    let s = SelectedDevice::new();
    assert!(matches!(InstallSidestoreOperation::begin(&s, true), Err(IloaderError::NoDeviceSelected)));
}

#[test]
fn install_and_pair_urls() {
    let w = InstallSidestoreOperation::begin(&selected(), false).unwrap();
    assert_eq!(
        w.download_url(),
        "https://github.com/SideStore/SideStore/releases/latest/download/SideStore.ipa"
    );
    assert_eq!(w.download_file_name(), "SideStore.ipa");
    let n = InstallSidestoreOperation::begin(&selected(), true).unwrap();
    assert_eq!(
        n.download_url(),
        "https://github.com/SideStore/SideStore/releases/download/nightly/SideStore.ipa"
    );
    assert_eq!(n.download_file_name(), "SideStore-Nightly.ipa");
}

#[test]
fn install_and_pair_app_missing_fails_pairing() {
    let mut w = InstallSidestoreOperation::begin(&selected(), false).unwrap();
    assert!(w.downloaded(Ok(())).is_ok());
    assert!(w.installed(Ok(())).is_ok());
    let r = w.app_found(Ok(None));
    assert!(r.is_err());
    let ev = w.op.events();
    match ev.last() {
        Some(OperationEvent::Failed { step, message }) => {
            assert_eq!(step, "pairing");
            assert!(message.contains("bundle ID"));
        }
        _ => panic!("expected a pairing failure"),
    }
    assert_eq!(ev.len(), 4);
}

#[test]
fn install_and_pair_full_run() {
    let mut w = InstallSidestoreOperation::begin(&selected(), true).unwrap();
    w.downloaded(Ok(())).unwrap();
    w.installed(Ok(())).unwrap();
    let app = w
        .app_found(Ok(Some(PairingAppInfo {
            name: "SideStore".to_string(),
            bundle_id: "com.SideStore.SideStore".to_string(),
            path: "ALTPairingFile.mobiledevicepairing".to_string(),
        })))
        .unwrap();
    assert_eq!(app.bundle_id, "com.SideStore.SideStore");
    w.placed(Ok(())).unwrap();
    let ev = w.op.events();
    assert_eq!(ev.len(), 4);
    assert!(matches!(ev.last(), Some(OperationEvent::Completed { step }) if step == "pairing"));
}

#[test]
fn install_and_pair_download_failure_stops() {
    let mut w = InstallSidestoreOperation::begin(&selected(), false).unwrap();
    let r = w.downloaded(Err(IloaderError::HttpStatus(500)));
    match r {
        Err(OpError::StepFailed { step, message }) => {
            assert_eq!(step, "download");
            assert_eq!(message, "Failed to download file: HTTP 500");
        }
        _ => panic!("expected a download failure"),
    }
    assert!(w.installed(Ok(())).is_err());
    assert_eq!(w.op.events().len(), 2);
}
