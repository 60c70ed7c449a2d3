//! The requests of the hypervisor's configuration protocol, spoken over the
//! VM's Unix-domain socket, and the judgement of its answers.

use crate::error::{VmError, VmErrorView};
use crate::vm::models::{
    LoadSnapshotRequest, LoadSnapshotRequestView, VmBootSource, VmBootSourceView, VmDrive,
    VmDriveView, VmLogger, VmLoggerView, VmNetworkInterface, VmNetworkInterfaceView,
    VmSnapshotRequest, VmSnapshotRequestView,
};
use vstd::prelude::*;
use vstd::string::*;

verus! {

/// The two methods the engine uses.
#[derive(Clone, Copy, Debug, PartialEq, Eq, Structural)]
pub enum HttpMethod {
    Put,
    Patch,
}

/// The two states a running VM can be put in.
#[derive(Clone, Copy, Debug, PartialEq, Eq, Structural)]
pub enum RunState {
    Paused,
    Resumed,
}

impl RunState {
    /// The state as the hypervisor reads it.
    pub open spec fn wire_text(self) -> Seq<char> {
        match self {
            RunState::Paused => "Paused"@,
            RunState::Resumed => "Resumed"@,
        }
    }

    /// The state as the hypervisor reads it.
    pub fn wire_name(&self) -> (out: &'static str)
        ensures
            out@ == self.wire_text(),
    {
        match self {
            RunState::Paused => "Paused",
            RunState::Resumed => "Resumed",
        }
    }
}

impl HttpMethod {
    /// The method's name.
    pub open spec fn wire_text(self) -> Seq<char> {
        match self {
            HttpMethod::Put => "PUT"@,
            HttpMethod::Patch => "PATCH"@,
        }
    }

    /// The method's name.
    pub fn wire_name(&self) -> (out: &'static str)
        ensures
            out@ == self.wire_text(),
    {
        match self {
            HttpMethod::Put => "PUT",
            HttpMethod::Patch => "PATCH",
        }
    }
}

/// What a request carries. On the wire each body is a JSON object:
/// `InstanceStart` is `{"action_type":"InstanceStart"}`, `State` is
/// `{"state":"Paused"}` or `{"state":"Resumed"}`, and a record is the object
/// of its fields.
#[derive(Debug, PartialEq, Eq)]
pub enum RequestBody {
    Logger(VmLogger),
    BootSource(VmBootSource),
    Drive(VmDrive),
    NetworkInterface(VmNetworkInterface),
    InstanceStart,
    State(RunState),
    SnapshotCreate(VmSnapshotRequest),
    SnapshotLoad(LoadSnapshotRequest),
}

pub enum RequestBodyView {
    Logger(VmLoggerView),
    BootSource(VmBootSourceView),
    Drive(VmDriveView),
    NetworkInterface(VmNetworkInterfaceView),
    InstanceStart,
    State(RunState),
    SnapshotCreate(VmSnapshotRequestView),
    SnapshotLoad(LoadSnapshotRequestView),
}

impl View for RequestBody {
    type V = RequestBodyView;

    open spec fn view(&self) -> RequestBodyView {
        match self {
            RequestBody::Logger(logger) => RequestBodyView::Logger(logger@),
            RequestBody::BootSource(source) => RequestBodyView::BootSource(source@),
            RequestBody::Drive(drive) => RequestBodyView::Drive(drive@),
            RequestBody::NetworkInterface(nic) => RequestBodyView::NetworkInterface(nic@),
            RequestBody::InstanceStart => RequestBodyView::InstanceStart,
            RequestBody::State(state) => RequestBodyView::State(*state),
            RequestBody::SnapshotCreate(request) => RequestBodyView::SnapshotCreate(request@),
            RequestBody::SnapshotLoad(request) => RequestBodyView::SnapshotLoad(request@),
        }
    }
}

/// One request to the hypervisor listening at `socket_path`.
#[derive(Debug, PartialEq, Eq)]
pub struct ApiRequest {
    pub socket_path: String,
    pub method: HttpMethod,
    pub path: String,
    pub body: RequestBody,
}

pub struct ApiRequestView {
    pub socket_path: Seq<char>,
    pub method: HttpMethod,
    pub path: Seq<char>,
    pub body: RequestBodyView,
}

impl View for ApiRequest {
    type V = ApiRequestView;

    open spec fn view(&self) -> ApiRequestView {
        ApiRequestView {
            socket_path: self.socket_path@,
            method: self.method,
            path: self.path@,
            body: self.body@,
        }
    }
}

/// `PUT /logger`.
pub open spec fn logger_request(socket: Seq<char>, logger: VmLoggerView) -> ApiRequestView {
    ApiRequestView {
        socket_path: socket,
        method: HttpMethod::Put,
        path: "/logger"@,
        body: RequestBodyView::Logger(logger),
    }
}

/// `PUT /boot-source`.
pub open spec fn boot_source_request(socket: Seq<char>, source: VmBootSourceView) -> ApiRequestView {
    ApiRequestView {
        socket_path: socket,
        method: HttpMethod::Put,
        path: "/boot-source"@,
        body: RequestBodyView::BootSource(source),
    }
}

/// `PUT /drives/{drive_id}`.
pub open spec fn drive_request(socket: Seq<char>, drive: VmDriveView) -> ApiRequestView {
    ApiRequestView {
        socket_path: socket,
        method: HttpMethod::Put,
        path: "/drives/"@ + drive.drive_id,
        body: RequestBodyView::Drive(drive),
    }
}

/// `PUT /network-interfaces/{iface_id}`.
pub open spec fn network_interface_request(
    socket: Seq<char>,
    nic: VmNetworkInterfaceView,
) -> ApiRequestView {
    ApiRequestView {
        socket_path: socket,
        method: HttpMethod::Put,
        path: "/network-interfaces/"@ + nic.iface_id,
        body: RequestBodyView::NetworkInterface(nic),
    }
}

/// `PUT /actions` with the action `InstanceStart`.
pub open spec fn instance_start_request(socket: Seq<char>) -> ApiRequestView {
    ApiRequestView {
        socket_path: socket,
        method: HttpMethod::Put,
        path: "/actions"@,
        body: RequestBodyView::InstanceStart,
    }
}

/// `PATCH /vm` with the state to put the VM in.
pub open spec fn state_request(socket: Seq<char>, state: RunState) -> ApiRequestView {
    ApiRequestView {
        socket_path: socket,
        method: HttpMethod::Patch,
        path: "/vm"@,
        body: RequestBodyView::State(state),
    }
}

/// `PUT /snapshot/create`.
pub open spec fn snapshot_create_request(
    socket: Seq<char>,
    request: VmSnapshotRequestView,
) -> ApiRequestView {
    ApiRequestView {
        socket_path: socket,
        method: HttpMethod::Put,
        path: "/snapshot/create"@,
        body: RequestBodyView::SnapshotCreate(request),
    }
}

/// `PUT /snapshot/load`.
pub open spec fn snapshot_load_request(
    socket: Seq<char>,
    request: LoadSnapshotRequestView,
) -> ApiRequestView {
    ApiRequestView {
        socket_path: socket,
        method: HttpMethod::Put,
        path: "/snapshot/load"@,
        body: RequestBodyView::SnapshotLoad(request),
    }
}

impl ApiRequest {
    /// The request that configures file logging.
    pub fn logger(socket_path: &str, logger: VmLogger) -> (out: ApiRequest)
        ensures
            out@ == logger_request(socket_path@, logger@),
    {
        ApiRequest {
            socket_path: String::from_str(socket_path),
            method: HttpMethod::Put,
            path: String::from_str("/logger"),
            body: RequestBody::Logger(logger),
        }
    }

    /// The request that sets the kernel and its command line.
    pub fn boot_source(socket_path: &str, source: VmBootSource) -> (out: ApiRequest)
        ensures
            out@ == boot_source_request(socket_path@, source@),
    {
        ApiRequest {
            socket_path: String::from_str(socket_path),
            method: HttpMethod::Put,
            path: String::from_str("/boot-source"),
            body: RequestBody::BootSource(source),
        }
    }

    /// The request that attaches a drive, or replaces the one with its id.
    pub fn drive(socket_path: &str, drive: VmDrive) -> (out: ApiRequest)
        ensures
            out@ == drive_request(socket_path@, drive@),
    {
        let mut path = String::from_str("/drives/");
        path.append(drive.drive_id.as_str());
        ApiRequest {
            socket_path: String::from_str(socket_path),
            method: HttpMethod::Put,
            path,
            body: RequestBody::Drive(drive),
        }
    }

    /// The request that attaches a network interface.
    pub fn network_interface(socket_path: &str, nic: VmNetworkInterface) -> (out: ApiRequest)
        ensures
            out@ == network_interface_request(socket_path@, nic@),
    {
        let mut path = String::from_str("/network-interfaces/");
        path.append(nic.iface_id.as_str());
        ApiRequest {
            socket_path: String::from_str(socket_path),
            method: HttpMethod::Put,
            path,
            body: RequestBody::NetworkInterface(nic),
        }
    }

    /// The request that boots the VM.
    pub fn instance_start(socket_path: &str) -> (out: ApiRequest)
        ensures
            out@ == instance_start_request(socket_path@),
    {
        ApiRequest {
            socket_path: String::from_str(socket_path),
            method: HttpMethod::Put,
            path: String::from_str("/actions"),
            body: RequestBody::InstanceStart,
        }
    }

    /// The request that pauses or resumes the VM.
    pub fn state(socket_path: &str, state: RunState) -> (out: ApiRequest)
        ensures
            out@ == state_request(socket_path@, state),
    {
        ApiRequest {
            socket_path: String::from_str(socket_path),
            method: HttpMethod::Patch,
            path: String::from_str("/vm"),
            body: RequestBody::State(state),
        }
    }

    /// The request that writes a snapshot.
    pub fn snapshot_create(socket_path: &str, request: VmSnapshotRequest) -> (out: ApiRequest)
        ensures
            out@ == snapshot_create_request(socket_path@, request@),
    {
        ApiRequest {
            socket_path: String::from_str(socket_path),
            method: HttpMethod::Put,
            path: String::from_str("/snapshot/create"),
            body: RequestBody::SnapshotCreate(request),
        }
    }

    /// The request that restores a snapshot.
    pub fn snapshot_load(socket_path: &str, request: LoadSnapshotRequest) -> (out: ApiRequest)
        ensures
            out@ == snapshot_load_request(socket_path@, request@),
    {
        ApiRequest {
            socket_path: String::from_str(socket_path),
            method: HttpMethod::Put,
            path: String::from_str("/snapshot/load"),
            body: RequestBody::SnapshotLoad(request),
        }
    }
}

/// The hypervisor's answer to one request.
#[derive(Debug, PartialEq, Eq)]
pub struct ApiResponse {
    pub status: u16,
    pub body: String,
}

pub struct ApiResponseView {
    pub status: u16,
    pub body: Seq<char>,
}

impl View for ApiResponse {
    type V = ApiResponseView;

    open spec fn view(&self) -> ApiResponseView {
        ApiResponseView { status: self.status, body: self.body@ }
    }
}

/// What an answer to a request sent to `endpoint` means: every status from
/// 400 on is the hypervisor's refusal, with its status and body.
pub open spec fn refusal(endpoint: Seq<char>, response: ApiResponseView) -> Option<VmErrorView> {
    if response.status >= 400 {
        Some(
            VmErrorView::HypervisorApi {
                endpoint,
                status: response.status,
                body: response.body,
            },
        )
    } else {
        None
    }
}

impl ApiResponse {
    /// Judges the answer to a request that was sent to `endpoint`.
    pub fn check(&self, endpoint: &str) -> (out: Result<(), VmError>)
        ensures
            match refusal(endpoint@, self@) {
                Some(error) => out matches Err(e) && e@ == error,
                None => out is Ok,
            },
    {
        if self.status >= 400 {
            Err(
                VmError::HypervisorApi {
                    endpoint: String::from_str(endpoint),
                    status: self.status,
                    body: self.body.clone(),
                },
            )
        } else {
            Ok(())
        }
    }
}

} // verus!
