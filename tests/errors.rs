use iloader::error::{decimal_string, download_status, IloaderError};

#[test]
fn status_in_2xx_is_success() {
    assert!(download_status(200).is_ok());
    assert!(download_status(299).is_ok());
    assert!(matches!(download_status(199), Err(IloaderError::HttpStatus(199))));
    assert!(matches!(download_status(404), Err(IloaderError::HttpStatus(404))));
}

#[test]
fn http_status_message_names_the_code() {
    assert_eq!(IloaderError::HttpStatus(404).message(), "Failed to download file: HTTP 404");
    assert_eq!(decimal_string(0), "0");
    assert_eq!(decimal_string(65535), "65535");
}

#[test]
fn each_error_has_its_message() {
    assert_eq!(IloaderError::TransportUnavailable.message(), "Failed to connect to usbmuxd");
    assert_eq!(IloaderError::NoDeviceSelected.message(), "No device selected");
    assert_eq!(IloaderError::MalformedAppMetadata.message(), "Failed to parse installed apps");
    assert_eq!(IloaderError::Cancelled.message(), "Cancelled");
    assert_eq!(
        IloaderError::DeviceNotFound("gone".to_string()).message(),
        "Failed to get device: gone"
    );
    assert_eq!(
        IloaderError::PairingUnavailable("Phone".to_string()).message(),
        "Failed to get pairing record for device Phone"
    );
    assert_eq!(IloaderError::Protocol("lockdown".to_string()).message(), "lockdown");
    assert_eq!(IloaderError::DownloadFailed("reset".to_string()).message(), "reset");
}
