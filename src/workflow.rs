//! The user-facing workflows as operations whose outside work (download,
//! install, device queries) is done by the caller, one step at a time: each
//! method takes the outcome of a step's work and decides what comes next.
use vstd::prelude::*;

use crate::device::{DeviceInfo, SelectedDevice};
use crate::error::{message_of, IloaderError};
use crate::operation::{step_failed, EventView, OpError, Operation, StageView};
use crate::pairing::{PairingAppInfo, PairingAppView};

verus! {

/// The release artifact fetched by the install-and-pair workflow.
pub open spec fn release_url(nightly: bool) -> Seq<char> {
    if nightly {
        "https://github.com/SideStore/SideStore/releases/download/nightly/SideStore.ipa"@
    } else {
        "https://github.com/SideStore/SideStore/releases/latest/download/SideStore.ipa"@
    }
}

/// The file name under which the release artifact is stored.
pub open spec fn release_file_name(nightly: bool) -> Seq<char> {
    if nightly {
        "SideStore-Nightly.ipa"@
    } else {
        "SideStore.ipa"@
    }
}

/// The failure message when the installed app cannot be found after install.
pub open spec fn app_missing_message() -> Seq<char> {
    "Could not find SideStore's bundle ID"@
}

/// The single-step operation that installs an app package on the selected
/// device.
pub struct SideloadOperation {
    pub op: Operation,
}

impl SideloadOperation {
    /// Starts step `install` and picks the selected device. With no device
    /// selected the step fails at once, before any device or network work.
    pub fn begin(selected: &SelectedDevice) -> (r: (SideloadOperation, Result<DeviceInfo, OpError>))
        ensures
            r.0.op.wf(),
            r.0.op.name_view() == "sideload"@,
            selected.slot is None ==> {
                &&& r.1 is Err
                &&& step_failed(r.1->Err_0, "install"@, message_of(IloaderError::NoDeviceSelected))
                &&& r.0.op.stage() == StageView::Failed("install"@)
                &&& r.0.op.log() == seq![
                    EventView::Started("install"@),
                    EventView::Failed("install"@, message_of(IloaderError::NoDeviceSelected)),
                ]
            },
            selected.slot is Some ==> {
                &&& r.1 is Ok
                &&& r.1->Ok_0@ == selected.slot->0@
                &&& r.0.op.stage() == StageView::InStep("install"@)
                &&& r.0.op.log() == seq![EventView::Started("install"@)]
            },
    {
        let mut op = Operation::new("sideload");
        let _ = op.start("install");
        let device = op.fail_if_err("install", selected.require());
        (SideloadOperation { op }, device)
    }

    /// Ends step `install` with the outcome of the installation.
    pub fn finish(&mut self, outcome: Result<(), IloaderError>) -> (r: Result<(), OpError>)
        requires
            old(self).op.wf(),
        ensures
            final(self).op.wf(),
            old(self).op.stage() == StageView::InStep("install"@) ==> {
                &&& outcome is Ok ==> {
                    &&& r is Ok
                    &&& final(self).op.stage() == StageView::Completed("install"@)
                    &&& final(self).op.log() == old(self).op.log().push(
                        EventView::Completed("install"@),
                    )
                }
                &&& outcome is Err ==> {
                    &&& r is Err
                    &&& step_failed(r->Err_0, "install"@, message_of(outcome->Err_0))
                    &&& final(self).op.stage() == StageView::Failed("install"@)
                    &&& final(self).op.log() == old(self).op.log().push(
                        EventView::Failed("install"@, message_of(outcome->Err_0)),
                    )
                }
            },
            old(self).op.stage() != StageView::InStep("install"@) ==> r is Err,
    {
        let ok = self.op.fail_if_err("install", outcome);
        match ok {
            Ok(()) => self.op.complete("install"),
            Err(e) => Err(e),
        }
    }
}

/// The four-step operation that downloads the release, installs it, finds the
/// installed app and places a pairing credential into it.
pub struct InstallSidestoreOperation {
    pub op: Operation,
    pub device: DeviceInfo,
    pub nightly: bool,
}

impl InstallSidestoreOperation {
    /// Picks the selected device and starts step `download`. With no device
    /// selected nothing starts.
    pub fn begin(selected: &SelectedDevice, nightly: bool) -> (r: Result<
        InstallSidestoreOperation,
        IloaderError,
    >)
        ensures
            selected.slot is None ==> r == Err::<InstallSidestoreOperation, IloaderError>(
                IloaderError::NoDeviceSelected,
            ),
            selected.slot is Some ==> (r matches Ok(w) && {
                &&& w.op.wf()
                &&& w.op.name_view() == "install_sidestore"@
                &&& w.device@ == selected.slot->0@
                &&& w.nightly == nightly
                &&& w.op.stage() == StageView::InStep("download"@)
                &&& w.op.log() == seq![EventView::Started("download"@)]
            }),
    {
        let device = match selected.require() {
            Ok(d) => d,
            Err(e) => {
                return Err(e);
            },
        };
        let mut op = Operation::new("install_sidestore");
        let _ = op.start("download");
        Ok(InstallSidestoreOperation { op, device, nightly })
    }

    /// The address of the release artifact to download.
    pub fn download_url(&self) -> (r: &'static str)
        ensures
            r@ == release_url(self.nightly),
    {
        if self.nightly {
            "https://github.com/SideStore/SideStore/releases/download/nightly/SideStore.ipa"
        } else {
            "https://github.com/SideStore/SideStore/releases/latest/download/SideStore.ipa"
        }
    }

    /// The file name under which the downloaded artifact is stored.
    pub fn download_file_name(&self) -> (r: &'static str)
        ensures
            r@ == release_file_name(self.nightly),
    {
        if self.nightly {
            "SideStore-Nightly.ipa"
        } else {
            "SideStore.ipa"
        }
    }

    /// Ends step `download` with the outcome of the download and, on
    /// success, moves on to `install`.
    pub fn downloaded(&mut self, outcome: Result<(), IloaderError>) -> (r: Result<(), OpError>)
        requires
            old(self).op.wf(),
        ensures
            final(self).op.wf(),
            final(self).device == old(self).device,
            final(self).nightly == old(self).nightly,
            old(self).op.stage() == StageView::InStep("download"@) ==> {
                &&& outcome is Ok ==> {
                    &&& r is Ok
                    &&& final(self).op.stage() == StageView::InStep("install"@)
                    &&& final(self).op.log() == old(self).op.log().push(
                        EventView::AdvancedTo("download"@, "install"@),
                    )
                }
                &&& outcome is Err ==> {
                    &&& r is Err
                    &&& step_failed(r->Err_0, "download"@, message_of(outcome->Err_0))
                    &&& final(self).op.stage() == StageView::Failed("download"@)
                    &&& final(self).op.log() == old(self).op.log().push(
                        EventView::Failed("download"@, message_of(outcome->Err_0)),
                    )
                }
            },
            old(self).op.stage() != StageView::InStep("download"@) ==> r is Err,
    {
        match self.op.fail_if_err("download", outcome) {
            Ok(()) => self.op.move_on("download", "install"),
            Err(e) => Err(e),
        }
    }

    /// Ends step `install` with the outcome of the installation and, on
    /// success, moves on to `pairing`.
    pub fn installed(&mut self, outcome: Result<(), IloaderError>) -> (r: Result<(), OpError>)
        requires
            old(self).op.wf(),
        ensures
            final(self).op.wf(),
            final(self).device == old(self).device,
            final(self).nightly == old(self).nightly,
            old(self).op.stage() == StageView::InStep("install"@) ==> {
                &&& outcome is Ok ==> {
                    &&& r is Ok
                    &&& final(self).op.stage() == StageView::InStep("pairing"@)
                    &&& final(self).op.log() == old(self).op.log().push(
                        EventView::AdvancedTo("install"@, "pairing"@),
                    )
                }
                &&& outcome is Err ==> {
                    &&& r is Err
                    &&& step_failed(r->Err_0, "install"@, message_of(outcome->Err_0))
                    &&& final(self).op.stage() == StageView::Failed("install"@)
                    &&& final(self).op.log() == old(self).op.log().push(
                        EventView::Failed("install"@, message_of(outcome->Err_0)),
                    )
                }
            },
            old(self).op.stage() != StageView::InStep("install"@) ==> r is Err,
    {
        match self.op.fail_if_err("install", outcome) {
            Ok(()) => self.op.move_on("install", "pairing"),
            Err(e) => Err(e),
        }
    }

    /// Takes the outcome of the search for the installed app in step
    /// `pairing`: the app to place the credential into, or a failure of the
    /// step when the search failed or found nothing.
    pub fn app_found(&mut self, outcome: Result<Option<PairingAppInfo>, IloaderError>) -> (r: Result<
        PairingAppInfo,
        OpError,
    >)
        requires
            old(self).op.wf(),
        ensures
            final(self).op.wf(),
            final(self).device == old(self).device,
            final(self).nightly == old(self).nightly,
            old(self).op.stage() == StageView::InStep("pairing"@) ==> {
                &&& outcome matches Ok(Some(app)) ==> {
                    &&& r is Ok
                    &&& r->Ok_0 == app
                    &&& final(self).op.stage() == old(self).op.stage()
                    &&& final(self).op.log() == old(self).op.log()
                }
                &&& outcome matches Ok(None) ==> {
                    &&& r is Err
                    &&& step_failed(r->Err_0, "pairing"@, app_missing_message())
                    &&& final(self).op.stage() == StageView::Failed("pairing"@)
                    &&& final(self).op.log() == old(self).op.log().push(
                        EventView::Failed("pairing"@, app_missing_message()),
                    )
                }
                &&& outcome is Err ==> {
                    &&& r is Err
                    &&& step_failed(r->Err_0, "pairing"@, message_of(outcome->Err_0))
                    &&& final(self).op.stage() == StageView::Failed("pairing"@)
                    &&& final(self).op.log() == old(self).op.log().push(
                        EventView::Failed("pairing"@, message_of(outcome->Err_0)),
                    )
                }
            },
    {
        match self.op.fail_if_err("pairing", outcome) {
            Ok(Some(app)) => Ok(app),
            Ok(None) => Err(
                self.op.fail("pairing", String::from_str("Could not find SideStore's bundle ID")),
            ),
            Err(e) => Err(e),
        }
    }

    /// Ends step `pairing`, and the operation, with the outcome of placing
    /// the credential.
    pub fn placed(&mut self, outcome: Result<(), IloaderError>) -> (r: Result<(), OpError>)
        requires
            old(self).op.wf(),
        ensures
            final(self).op.wf(),
            final(self).device == old(self).device,
            final(self).nightly == old(self).nightly,
            old(self).op.stage() == StageView::InStep("pairing"@) ==> {
                &&& outcome is Ok ==> {
                    &&& r is Ok
                    &&& final(self).op.stage() == StageView::Completed("pairing"@)
                    &&& final(self).op.log() == old(self).op.log().push(
                        EventView::Completed("pairing"@),
                    )
                }
                &&& outcome is Err ==> {
                    &&& r is Err
                    &&& step_failed(r->Err_0, "pairing"@, message_of(outcome->Err_0))
                    &&& final(self).op.stage() == StageView::Failed("pairing"@)
                    &&& final(self).op.log() == old(self).op.log().push(
                        EventView::Failed("pairing"@, message_of(outcome->Err_0)),
                    )
                }
            },
            old(self).op.stage() != StageView::InStep("pairing"@) ==> r is Err,
    {
        match self.op.fail_if_err("pairing", outcome) {
            Ok(()) => self.op.complete("pairing"),
            Err(e) => Err(e),
        }
    }
}

} // verus!
