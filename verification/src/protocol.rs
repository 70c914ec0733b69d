//! The command protocol: requests, responses, and what each of them is as a
//! mathematical value.

use vstd::prelude::*;

verus! {

/// What the server asks the device to do.
#[derive(Debug, Clone, PartialEq, Eq)]
pub enum Command {
    GetInfo,
    ListFiles { path: String },
    FetchFile { path: String, chunk_size: u64 },
    Reboot,
}

/// One entry of a listed directory. The two instants are milliseconds since
/// the Unix epoch; an instant that the storage could not tell may be zero.
#[derive(Debug, Clone, PartialEq, Eq)]
pub struct File {
    pub path: String,
    pub size: u64,
    pub modified_at: i64,
    pub created_at: i64,
    pub is_dir: bool,
}

/// A snapshot of the device, taken when the server asks for it.
#[derive(Debug, Clone, PartialEq, Eq)]
pub struct DeviceInfo {
    pub version: String,
    pub wifi_ip: String,
    pub mount_path: String,
    pub local_time: i64,
    pub total_volume_size: u64,
    pub free_volume_size: u64,
}

/// What the device answers.
#[derive(Debug, Clone, PartialEq, Eq)]
pub enum Response {
    GetInfo { device_info: DeviceInfo },
    ListFiles { path: String, files: Vec<File> },
    FetchFileChunk { offset: u64, data: Vec<u8>, is_final: bool },
    Reboot,
    Error { message: String },
}

/// A command with the token that its responses must echo.
#[derive(Debug, Clone, PartialEq, Eq)]
pub struct CommandRequest {
    pub id: String,
    pub command: Command,
}

/// One response, tagged with the token of the request it answers.
#[derive(Debug, Clone, PartialEq, Eq)]
pub struct CommandResponse {
    pub id: String,
    pub response: Response,
}

pub enum CommandView {
    GetInfo,
    ListFiles { path: Seq<char> },
    FetchFile { path: Seq<char>, chunk_size: u64 },
    Reboot,
}

pub struct FileView {
    pub path: Seq<char>,
    pub size: u64,
    pub modified_at: i64,
    pub created_at: i64,
    pub is_dir: bool,
}

pub struct DeviceInfoView {
    pub version: Seq<char>,
    pub wifi_ip: Seq<char>,
    pub mount_path: Seq<char>,
    pub local_time: i64,
    pub total_volume_size: u64,
    pub free_volume_size: u64,
}

pub enum ResponseView {
    GetInfo { device_info: DeviceInfoView },
    ListFiles { path: Seq<char>, files: Seq<FileView> },
    FetchFileChunk { offset: u64, data: Seq<u8>, is_final: bool },
    Reboot,
    Error { message: Seq<char> },
}

pub struct CommandRequestView {
    pub id: Seq<char>,
    pub command: CommandView,
}

pub struct CommandResponseView {
    pub id: Seq<char>,
    pub response: ResponseView,
}

impl View for Command {
    type V = CommandView;

    open spec fn view(&self) -> CommandView {
        match *self {
            Command::GetInfo => CommandView::GetInfo,
            Command::ListFiles { path } => CommandView::ListFiles { path: path@ },
            Command::FetchFile { path, chunk_size } => CommandView::FetchFile {
                path: path@,
                chunk_size,
            },
            Command::Reboot => CommandView::Reboot,
        }
    }
}

impl View for File {
    type V = FileView;

    open spec fn view(&self) -> FileView {
        FileView {
            path: self.path@,
            size: self.size,
            modified_at: self.modified_at,
            created_at: self.created_at,
            is_dir: self.is_dir,
        }
    }
}

impl View for DeviceInfo {
    type V = DeviceInfoView;

    open spec fn view(&self) -> DeviceInfoView {
        DeviceInfoView {
            version: self.version@,
            wifi_ip: self.wifi_ip@,
            mount_path: self.mount_path@,
            local_time: self.local_time,
            total_volume_size: self.total_volume_size,
            free_volume_size: self.free_volume_size,
        }
    }
}

/// The views of a list of files, in order.
pub open spec fn file_views(files: Seq<File>) -> Seq<FileView> {
    Seq::new(files.len(), |i: int| files[i]@)
}

impl View for Response {
    type V = ResponseView;

    open spec fn view(&self) -> ResponseView {
        match *self {
            Response::GetInfo { device_info } => ResponseView::GetInfo {
                device_info: device_info@,
            },
            Response::ListFiles { path, files } => ResponseView::ListFiles {
                path: path@,
                files: file_views(files@),
            },
            Response::FetchFileChunk { offset, data, is_final } => ResponseView::FetchFileChunk {
                offset,
                data: data@,
                is_final,
            },
            Response::Reboot => ResponseView::Reboot,
            Response::Error { message } => ResponseView::Error { message: message@ },
        }
    }
}

impl View for CommandRequest {
    type V = CommandRequestView;

    open spec fn view(&self) -> CommandRequestView {
        CommandRequestView { id: self.id@, command: self.command@ }
    }
}

impl View for CommandResponse {
    type V = CommandResponseView;

    open spec fn view(&self) -> CommandResponseView {
        CommandResponseView { id: self.id@, response: self.response@ }
    }
}

} // verus!
