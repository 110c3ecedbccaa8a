//! The error taxonomy shared by every component, with its operator-facing
//! messages.
use vstd::prelude::*;

verus! {

/// Why a device action could not be carried out.
#[derive(Debug)]
pub enum IloaderError {
    /// The device multiplexing service could not be reached at all.
    TransportUnavailable,
    /// The device is no longer attached; the detail comes from the transport.
    DeviceNotFound(String),
    /// A device-side protocol exchange failed; the payload is the full message.
    Protocol(String),
    /// The transport holds no pairing record for the device with this name.
    PairingUnavailable(String),
    /// The installed-application registry returned an unreadable display name.
    MalformedAppMetadata,
    /// A workflow was started while no device was selected.
    NoDeviceSelected,
    /// A download failed at the network level; the payload is the full message.
    DownloadFailed(String),
    /// A download was answered with a status outside the 2xx range.
    HttpStatus(u16),
    /// The user closed an interactive file chooser.
    Cancelled,
}

/// The text of one decimal digit.
pub open spec fn digit_text(d: nat) -> Seq<char> {
    if d == 0 {
        "0"@
    } else if d == 1 {
        "1"@
    } else if d == 2 {
        "2"@
    } else if d == 3 {
        "3"@
    } else if d == 4 {
        "4"@
    } else if d == 5 {
        "5"@
    } else if d == 6 {
        "6"@
    } else if d == 7 {
        "7"@
    } else if d == 8 {
        "8"@
    } else {
        "9"@
    }
}

/// The decimal notation of `n`, without leading zeros.
pub open spec fn decimal(n: nat) -> Seq<char>
    decreases n,
{
    if n < 10 {
        digit_text(n)
    } else {
        decimal(n / 10) + digit_text(n % 10)
    }
}

/// The message an operator sees for `e`.
pub open spec fn message_of(e: IloaderError) -> Seq<char> {
    match e {
        IloaderError::TransportUnavailable => "Failed to connect to usbmuxd"@,
        IloaderError::DeviceNotFound(detail) => "Failed to get device: "@ + detail@,
        IloaderError::Protocol(m) => m@,
        IloaderError::PairingUnavailable(name) => "Failed to get pairing record for device "@
            + name@,
        IloaderError::MalformedAppMetadata => "Failed to parse installed apps"@,
        IloaderError::NoDeviceSelected => "No device selected"@,
        IloaderError::DownloadFailed(m) => m@,
        IloaderError::HttpStatus(code) => "Failed to download file: HTTP "@ + decimal(
            code as nat,
        ),
        IloaderError::Cancelled => "Cancelled"@,
    }
}

fn digit_str(d: u16) -> (r: &'static str)
    requires
        d < 10,
    ensures
        r@ == digit_text(d as nat),
{
    if d == 0 {
        "0"
    } else if d == 1 {
        "1"
    } else if d == 2 {
        "2"
    } else if d == 3 {
        "3"
    } else if d == 4 {
        "4"
    } else if d == 5 {
        "5"
    } else if d == 6 {
        "6"
    } else if d == 7 {
        "7"
    } else if d == 8 {
        "8"
    } else {
        "9"
    }
}

/// Writes `n` in decimal.
pub fn decimal_string(n: u16) -> (r: String)
    ensures
        r@ == decimal(n as nat),
    decreases n,
{
    if n < 10 {
        String::from_str(digit_str(n))
    } else {
        let head = decimal_string(n / 10);
        head.concat(digit_str(n % 10))
    }
}

impl IloaderError {
    /// The human-readable message reported at the command boundary.
    pub fn message(&self) -> (r: String)
        ensures
            r@ == message_of(*self),
    {
        match self {
            IloaderError::TransportUnavailable => String::from_str("Failed to connect to usbmuxd"),
            IloaderError::DeviceNotFound(detail) => {
                String::from_str("Failed to get device: ").concat(detail.as_str())
            },
            IloaderError::Protocol(m) => m.clone(),
            IloaderError::PairingUnavailable(name) => {
                String::from_str("Failed to get pairing record for device ").concat(name.as_str())
            },
            IloaderError::MalformedAppMetadata => String::from_str(
                "Failed to parse installed apps",
            ),
            IloaderError::NoDeviceSelected => String::from_str("No device selected"),
            IloaderError::DownloadFailed(m) => m.clone(),
            IloaderError::HttpStatus(code) => {
                String::from_str("Failed to download file: HTTP ").concat(
                    decimal_string(*code).as_str(),
                )
            },
            IloaderError::Cancelled => String::from_str("Cancelled"),
        }
    }
}

/// Whether an HTTP status code reports success (the 2xx range).
pub open spec fn is_success_code(code: u16) -> bool {
    200 <= code && code <= 299
}

/// Turns the status of a release download into its outcome: any status
/// outside the 2xx range is a hard failure that names the status.
pub fn download_status(code: u16) -> (r: Result<(), IloaderError>)
    ensures
        is_success_code(code) <==> r is Ok,
        !is_success_code(code) ==> r == Err::<(), IloaderError>(IloaderError::HttpStatus(code)),
{
    if 200 <= code && code <= 299 {
        Ok(())
    } else {
        Err(IloaderError::HttpStatus(code))
    }
}

} // verus!
