//! Device records: how an enumeration pass becomes a list of devices, and the
//! single slot that holds the selected device.
use vstd::prelude::*;

use crate::error::IloaderError;

verus! {

/// How a device is attached to this host.
#[derive(Debug, Clone, Copy, PartialEq, Eq, Structural)]
pub enum ConnectionKind {
    Usb,
    Network,
    Unknown,
}

/// The label under which a connection kind is shown.
pub open spec fn kind_label(k: ConnectionKind) -> Seq<char> {
    match k {
        ConnectionKind::Usb => "USB"@,
        ConnectionKind::Network => "Network"@,
        ConnectionKind::Unknown => "Unknown"@,
    }
}

impl ConnectionKind {
    pub fn label(&self) -> (r: String)
        ensures
            r@ == kind_label(*self),
    {
        match self {
            ConnectionKind::Usb => String::from_str("USB"),
            ConnectionKind::Network => String::from_str("Network"),
            ConnectionKind::Unknown => String::from_str("Unknown"),
        }
    }
}

/// A device as the multiplexing transport reports it during one enumeration
/// pass: its session id, its raw unique identifier and how it is attached.
/// It says nothing of the device's identity beyond that.
#[derive(Debug)]
pub struct DeviceHandle {
    pub id: u32,
    pub udid: String,
    pub kind: ConnectionKind,
}

/// A device record as the user interface sees it.
#[derive(Debug)]
pub struct DeviceInfo {
    pub name: String,
    pub id: u32,
    pub uuid: String,
    pub connection_type: String,
}

pub struct DeviceHandleView {
    pub id: u32,
    pub udid: Seq<char>,
    pub kind: ConnectionKind,
}

pub struct DeviceInfoView {
    pub name: Seq<char>,
    pub id: u32,
    pub uuid: Seq<char>,
    pub connection_type: Seq<char>,
}

impl View for DeviceHandle {
    type V = DeviceHandleView;

    open spec fn view(&self) -> DeviceHandleView {
        DeviceHandleView { id: self.id, udid: self.udid@, kind: self.kind }
    }
}

impl View for DeviceInfo {
    type V = DeviceInfoView;

    open spec fn view(&self) -> DeviceInfoView {
        DeviceInfoView {
            name: self.name@,
            id: self.id,
            uuid: self.uuid@,
            connection_type: self.connection_type@,
        }
    }
}

/// The name given to a device whose identity could not be queried.
pub open spec fn unknown_device_name() -> Seq<char> {
    "Unknown Device"@
}

/// The queried display name, if the query succeeded.
pub open spec fn name_view(name: Option<String>) -> Option<Seq<char>> {
    match name {
        Some(n) => Some(n@),
        None => None,
    }
}

/// The record for a handle whose display-name query gave `name` (`None` when
/// the query failed): the record is kept, under the fallback name.
pub open spec fn resolved(h: DeviceHandleView, name: Option<Seq<char>>) -> DeviceInfoView {
    DeviceInfoView {
        name: match name {
            Some(n) => n,
            None => unknown_device_name(),
        },
        id: h.id,
        uuid: h.udid,
        connection_type: kind_label(h.kind),
    }
}

/// The records of one enumeration pass, one per attached handle, in the
/// transport's order.
pub open spec fn enumerated(
    handles: Seq<DeviceHandleView>,
    names: Seq<Option<Seq<char>>>,
) -> Seq<DeviceInfoView> {
    Seq::new(handles.len(), |i: int| resolved(handles[i], names[i]))
}

pub open spec fn handles_view(handles: Seq<DeviceHandle>) -> Seq<DeviceHandleView> {
    handles.map_values(|h: DeviceHandle| h@)
}

pub open spec fn names_view(names: Seq<Option<String>>) -> Seq<Option<Seq<char>>> {
    names.map_values(|n: Option<String>| name_view(n))
}

pub open spec fn infos_view(infos: Seq<DeviceInfo>) -> Seq<DeviceInfoView> {
    infos.map_values(|d: DeviceInfo| d@)
}

/// Builds the record of one attached device from its handle and the outcome
/// of its display-name query.
pub fn device_info(handle: &DeviceHandle, name: Option<String>) -> (r: DeviceInfo)
    ensures
        r@ == resolved(handle@, name_view(name)),
{
    let name = match name {
        Some(n) => n,
        None => String::from_str("Unknown Device"),
    };
    DeviceInfo {
        name,
        id: handle.id,
        uuid: handle.udid.clone(),
        connection_type: handle.kind.label(),
    }
}

/// Joins an enumeration pass. `attached` is what the transport reported, or
/// `None` when it could not be reached; `names[i]` is the outcome of the
/// display-name query made for `attached[i]`, all of which have finished.
/// Only an unreachable transport fails the pass: a failed identity query
/// keeps its device under the fallback name.
pub fn list_devices(attached: Option<Vec<DeviceHandle>>, names: &Vec<Option<String>>) -> (r: Result<
    Vec<DeviceInfo>,
    IloaderError,
>)
    requires
        attached is Some ==> names@.len() == attached->0@.len(),
    ensures
        attached is None <==> r is Err,
        attached is None ==> r == Err::<Vec<DeviceInfo>, IloaderError>(
            IloaderError::TransportUnavailable,
        ),
        attached is Some ==> r is Ok && infos_view(r->Ok_0@) == enumerated(
            handles_view(attached->0@),
            names_view(names@),
        ),
{
    let handles = match attached {
        None => {
            return Err(IloaderError::TransportUnavailable);
        },
        Some(hs) => hs,
    };
    let mut out: Vec<DeviceInfo> = Vec::new();
    let mut i: usize = 0;
    while i < handles.len()
        invariant
            names@.len() == handles@.len(),
            i <= handles@.len(),
            out@.len() == i,
            forall|j: int|
                0 <= j < i ==> #[trigger] out@[j]@ == resolved(handles@[j]@, name_view(names@[j])),
        decreases handles@.len() - i,
    {
        let name = match &names[i] {
            Some(n) => Some(n.clone()),
            None => None,
        };
        out.push(device_info(&handles[i], name));
        i = i + 1;
    }
    assert(infos_view(out@) =~= enumerated(handles_view(handles@), names_view(names@)));
    Ok(out)
}

/// However many identity queries fail, an enumeration pass has one record per
/// attached handle; each failed query leaves its record under the fallback
/// name and with the handle's own identifier, which is non-empty whenever the
/// transport's is.
pub proof fn lemma_enumeration_keeps_every_device(
    handles: Seq<DeviceHandleView>,
    names: Seq<Option<Seq<char>>>,
)
    requires
        names.len() == handles.len(),
    ensures
        enumerated(handles, names).len() == handles.len(),
        forall|i: int|
            0 <= i < handles.len() && names[i] is None ==> {
                &&& (#[trigger] enumerated(handles, names)[i]).name == unknown_device_name()
                &&& enumerated(handles, names)[i].uuid == handles[i].udid
                &&& handles[i].udid.len() > 0 ==> enumerated(handles, names)[i].uuid.len() > 0
            },
{
}

/// The process-wide slot that holds the selected device, if any. Readers get a
/// copy, so a later change of selection does not reach work already started.
pub struct SelectedDevice {
    pub slot: Option<DeviceInfo>,
}

pub open spec fn selection_view(slot: Option<DeviceInfo>) -> Option<DeviceInfoView> {
    match slot {
        Some(d) => Some(d@),
        None => None,
    }
}

impl DeviceInfo {
    /// A copy of the record.
    pub fn copy(&self) -> (r: DeviceInfo)
        ensures
            r@ == self@,
    {
        DeviceInfo {
            name: self.name.clone(),
            id: self.id,
            uuid: self.uuid.clone(),
            connection_type: self.connection_type.clone(),
        }
    }
}

impl SelectedDevice {
    /// An empty slot, as at process start.
    pub fn new() -> (r: SelectedDevice)
        ensures
            r.slot is None,
    {
        SelectedDevice { slot: None }
    }

    /// A point-in-time copy of the selection.
    pub fn current(&self) -> (r: Option<DeviceInfo>)
        ensures
            selection_view(r) == selection_view(self.slot),
    {
        match &self.slot {
            Some(d) => Some(d.copy()),
            None => None,
        }
    }

    /// The selected device, for a workflow that cannot run without one.
    pub fn require(&self) -> (r: Result<DeviceInfo, IloaderError>)
        ensures
            self.slot is None ==> r == Err::<DeviceInfo, IloaderError>(
                IloaderError::NoDeviceSelected,
            ),
            self.slot is Some ==> r is Ok && r->Ok_0@ == self.slot->0@,
    {
        match &self.slot {
            Some(d) => Ok(d.copy()),
            None => Err(IloaderError::NoDeviceSelected),
        }
    }
}

/// Replaces the selection with `device` (or clears it).
pub fn set_selected_device(state: &mut SelectedDevice, device: Option<DeviceInfo>)
    ensures
        final(state).slot == device,
{
    state.slot = device;
}

} // verus!
