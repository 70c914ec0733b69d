//! The command processor: what each request asks of the storage, and which
//! responses come of the storage's replies.
//!
//! A request is answered in steps. `process` takes the request and returns
//! the first step; while a step leaves work pending, the driver performs the
//! storage request that the pending work names and hands the reply to
//! `resume`. Every response of a step is sent before the next storage
//! request is made, so the chunks of a file leave in the order they were
//! read.

use crate::protocol::{
    Command, CommandRequest, CommandRequestView, CommandResponse, CommandResponseView, CommandView,
    DeviceInfo, File, FileView, Response, ResponseView, file_views,
};
use crate::storage::{
    DirEntry, DirEntryView, StorageReply, StorageReplyView, StorageRequest, StorageRequestView,
    entry_views,
};
use vstd::prelude::*;

verus! {

/// Why a command could not be carried out.
#[derive(Debug, Clone, PartialEq, Eq)]
pub enum ProcessorError {
    /// The device-info producer failed, with its message.
    DeviceInfo { message: String },
    /// The storage failed, with its message.
    IoError { message: String },
    /// A file was asked for in chunks of zero bytes.
    InvalidChunkSize,
    /// The file ended before the size that the storage had told.
    UnexpectedEof,
    /// The storage answered another request than the pending one.
    UnexpectedReply,
}

pub enum ProcessorErrorView {
    DeviceInfo { message: Seq<char> },
    IoError { message: Seq<char> },
    InvalidChunkSize,
    UnexpectedEof,
    UnexpectedReply,
}

impl View for ProcessorError {
    type V = ProcessorErrorView;

    open spec fn view(&self) -> ProcessorErrorView {
        match *self {
            ProcessorError::DeviceInfo { message } => ProcessorErrorView::DeviceInfo {
                message: message@,
            },
            ProcessorError::IoError { message } => ProcessorErrorView::IoError {
                message: message@,
            },
            ProcessorError::InvalidChunkSize => ProcessorErrorView::InvalidChunkSize,
            ProcessorError::UnexpectedEof => ProcessorErrorView::UnexpectedEof,
            ProcessorError::UnexpectedReply => ProcessorErrorView::UnexpectedReply,
        }
    }
}

/// The message of a failure as the server reads it: the message itself,
/// or `fallback` where the failure came without one.
pub open spec fn message_or(message: Seq<char>, fallback: Seq<char>) -> Seq<char> {
    if message.len() == 0 {
        fallback
    } else {
        message
    }
}

/// The description of an error that the server reads. It is never empty: a
/// failure that came without a message is described by a fixed text.
pub open spec fn error_message(error: ProcessorErrorView) -> Seq<char> {
    match error {
        ProcessorErrorView::DeviceInfo { message } => message_or(
            message,
            "device information is not available"@,
        ),
        ProcessorErrorView::IoError { message } => message_or(
            message,
            "storage failed without a message"@,
        ),
        ProcessorErrorView::InvalidChunkSize => "chunk size must be greater than zero"@,
        ProcessorErrorView::UnexpectedEof => "file ended before its reported size"@,
        ProcessorErrorView::UnexpectedReply => "storage reply does not match the pending request"@,
    }
}

/// Every error has something to say.
pub proof fn lemma_error_message_not_empty(error: ProcessorErrorView)
    ensures
        error_message(error).len() > 0,
{
    reveal_strlit("device information is not available");
    reveal_strlit("storage failed without a message");
    reveal_strlit("chunk size must be greater than zero");
    reveal_strlit("file ended before its reported size");
    reveal_strlit("storage reply does not match the pending request");
}

fn message_or_fallback(message: &String, fallback: &str) -> (text: String)
    ensures
        text@ == message_or(message@, fallback@),
{
    if message.as_str().is_empty() {
        fallback.to_owned()
    } else {
        message.clone()
    }
}

impl ProcessorError {
    /// The description of the error that the server reads; never empty.
    pub fn message(&self) -> (text: String)
        ensures
            text@ == error_message(self@),
            text@.len() > 0,
    {
        proof {
            lemma_error_message_not_empty(self@);
        }
        match self {
            ProcessorError::DeviceInfo { message } => message_or_fallback(
                message,
                "device information is not available",
            ),
            ProcessorError::IoError { message } => message_or_fallback(
                message,
                "storage failed without a message",
            ),
            ProcessorError::InvalidChunkSize => "chunk size must be greater than zero".to_owned(),
            ProcessorError::UnexpectedEof => "file ended before its reported size".to_owned(),
            ProcessorError::UnexpectedReply => "storage reply does not match the pending request"
                .to_owned(),
        }
    }
}

/// The work that a request still waits for.
#[derive(Debug, Clone, PartialEq, Eq)]
pub enum Pending {
    /// The listing of `dir`, asked for as `path`.
    Listing { id: String, path: String, dir: String },
    /// The opening of the file at `path`.
    Opening { id: String, path: String, chunk_size: u64 },
    /// The next chunk of a file of `file_size` bytes, `offset` of them sent.
    Streaming { id: String, chunk_size: u64, file_size: u64, offset: u64 },
}

pub enum PendingView {
    Listing { id: Seq<char>, path: Seq<char>, dir: Seq<char> },
    Opening { id: Seq<char>, path: Seq<char>, chunk_size: u64 },
    Streaming { id: Seq<char>, chunk_size: u64, file_size: u64, offset: u64 },
}

impl View for Pending {
    type V = PendingView;

    open spec fn view(&self) -> PendingView {
        match *self {
            Pending::Listing { id, path, dir } => PendingView::Listing {
                id: id@,
                path: path@,
                dir: dir@,
            },
            Pending::Opening { id, path, chunk_size } => PendingView::Opening {
                id: id@,
                path: path@,
                chunk_size,
            },
            Pending::Streaming { id, chunk_size, file_size, offset } => PendingView::Streaming {
                id: id@,
                chunk_size,
                file_size,
                offset,
            },
        }
    }
}

impl PendingView {
    /// The token of the request that the work belongs to.
    pub open spec fn id(self) -> Seq<char> {
        match self {
            PendingView::Listing { id, .. } => id,
            PendingView::Opening { id, .. } => id,
            PendingView::Streaming { id, .. } => id,
        }
    }

    /// The storage request that the driver must perform next.
    pub open spec fn request(self) -> StorageRequestView {
        match self {
            PendingView::Listing { dir, .. } => StorageRequestView::ListDir { path: dir },
            PendingView::Opening { path, .. } => StorageRequestView::OpenFile { path },
            PendingView::Streaming { chunk_size, .. } => StorageRequestView::ReadChunk {
                max_len: chunk_size,
            },
        }
    }
}

impl Pending {
    /// The storage request that the driver must perform next.
    pub fn request(&self) -> (request: StorageRequest)
        ensures
            request@ == self@.request(),
    {
        match self {
            Pending::Listing { dir, .. } => StorageRequest::ListDir { path: dir.clone() },
            Pending::Opening { path, .. } => StorageRequest::OpenFile { path: path.clone() },
            Pending::Streaming { chunk_size, .. } => StorageRequest::ReadChunk {
                max_len: *chunk_size,
            },
        }
    }
}

/// One step of answering a request: the response to send now, if there is
/// one, and the work that is still pending, if the exchange goes on.
#[derive(Debug, Clone, PartialEq, Eq)]
pub struct Step {
    pub response: Option<CommandResponse>,
    pub pending: Option<Pending>,
}

pub struct StepView {
    pub response: Option<CommandResponseView>,
    pub pending: Option<PendingView>,
}

impl View for Step {
    type V = StepView;

    open spec fn view(&self) -> StepView {
        StepView {
            response: match self.response {
                Some(response) => Some(response@),
                None => None,
            },
            pending: match self.pending {
                Some(pending) => Some(pending@),
                None => None,
            },
        }
    }
}

/// `path` without the slashes it starts with.
pub open spec fn without_leading_slashes(path: Seq<char>) -> Seq<char>
    decreases path.len(),
{
    if path.len() > 0 && path[0] == '/' {
        without_leading_slashes(path.drop_first())
    } else {
        path
    }
}

/// `path` resolved against `root`: the slashes that the path starts with
/// are dropped, so that a path written from `/` is read from the root, and
/// the root itself is meant where nothing is left. One slash stands between
/// root and path. The rest of the path is taken as it is written: its
/// components are not examined, and `..` passes through unchanged.
pub open spec fn resolved_path(root: Seq<char>, path: Seq<char>) -> Seq<char> {
    let relative = without_leading_slashes(path);
    if relative.len() == 0 {
        root
    } else if root.len() > 0 && root.last() == '/' {
        root + relative
    } else {
        root + seq!['/'] + relative
    }
}

/// Resolves a requested path against the root directory.
pub fn resolve_path(root: &str, path: &str) -> (dir: String)
    ensures
        dir@ == resolved_path(root@, path@),
{
    let length = path.unicode_len();
    let mut start: usize = 0;
    assert(path@.subrange(0, length as int) =~= path@);
    while start < length && path.get_char(start) == '/'
        invariant
            start <= length,
            length == path@.len(),
            without_leading_slashes(path@) == without_leading_slashes(
                path@.subrange(start as int, length as int),
            ),
        decreases length - start,
    {
        assert(path@.subrange(start as int, length as int).drop_first() =~= path@.subrange(
            start + 1,
            length as int,
        ));
        start += 1;
    }
    let relative = path.substring_char(start, length);
    let mut dir = root.to_owned();
    if start == length {
        return dir;
    }
    let root_length = root.unicode_len();
    if !(root_length > 0 && root.get_char(root_length - 1) == '/') {
        proof {
            reveal_strlit("/");
        }
        dir.append("/");
        assert(dir@ =~= root@ + seq!['/']);
    }
    dir.append(relative);
    dir
}

/// The file that an entry is listed as; `None` for an entry whose name could
/// not be decoded.
pub open spec fn listed_file(entry: DirEntryView) -> Option<FileView> {
    match entry.name {
        Some(name) => Some(
            FileView {
                path: name,
                size: entry.size,
                modified_at: entry.modified_at,
                created_at: entry.created_at,
                is_dir: entry.is_dir,
            },
        ),
        None => None,
    }
}

/// The files of a listing: every entry with a decodable name, in the order
/// of the entries.
pub open spec fn listed_files(entries: Seq<DirEntryView>) -> Seq<FileView>
    decreases entries.len(),
{
    if entries.len() == 0 {
        Seq::empty()
    } else {
        let before = listed_files(entries.drop_last());
        match listed_file(entries.last()) {
            Some(file) => before.push(file),
            None => before,
        }
    }
}

/// The views of a result of the processor.
pub open spec fn result_view(result: Result<Response, ProcessorError>) -> Result<
    ResponseView,
    ProcessorErrorView,
> {
    match result {
        Ok(response) => Ok(response@),
        Err(error) => Err(error@),
    }
}

/// The one response that answers the request `id` with `result`: the
/// response itself, or the description of the error.
pub open spec fn answered(id: Seq<char>, result: Result<ResponseView, ProcessorErrorView>)
    -> CommandResponseView {
    CommandResponseView {
        id,
        response: match result {
            Ok(response) => response,
            Err(error) => ResponseView::Error { message: error_message(error) },
        },
    }
}

/// The step that ends an exchange with one response.
pub open spec fn final_step(id: Seq<char>, result: Result<ResponseView, ProcessorErrorView>)
    -> StepView {
    StepView { response: Some(answered(id, result)), pending: None }
}

/// Wraps the result of a command into the response that carries the
/// request's token. An error leaves as `Response::Error` with its message,
/// which is never empty.
pub fn answer(id: &str, result: Result<Response, ProcessorError>) -> (response: CommandResponse)
    ensures
        response@ == answered(id@, result_view(result)),
        result is Err ==> (response.response matches Response::Error { message }
            && message@.len() > 0),
{
    let response = match result {
        Ok(response) => response,
        Err(error) => Response::Error { message: error.message() },
    };
    CommandResponse { id: id.to_owned(), response }
}

/// The response to a request for device information, given what the
/// producer returned.
pub fn info_response(produced: Result<DeviceInfo, String>) -> (result: Result<
    Response,
    ProcessorError,
>)
    ensures
        result == match produced {
            Ok(device_info) => Ok::<Response, ProcessorError>(Response::GetInfo { device_info }),
            Err(message) => Err(ProcessorError::DeviceInfo { message }),
        },
{
    match produced {
        Ok(device_info) => Ok(Response::GetInfo { device_info }),
        Err(message) => Err(ProcessorError::DeviceInfo { message }),
    }
}

/// The response to a listing of the directory asked for as `path`, given
/// the storage's answer.
pub fn listing_response(path: &str, listing: Result<Vec<DirEntry>, String>) -> (result: Result<
    Response,
    ProcessorError,
>)
    ensures
        result_view(result) == match listing {
            Ok(entries) => Ok::<ResponseView, ProcessorErrorView>(
                ResponseView::ListFiles {
                    path: path@,
                    files: listed_files(entry_views(entries@)),
                },
            ),
            Err(message) => Err(ProcessorErrorView::IoError { message: message@ }),
        },
{
    match listing {
        Err(message) => Err(ProcessorError::IoError { message }),
        Ok(entries) => {
            let mut files: Vec<File> = Vec::new();
            let mut index: usize = 0;
            assert(entry_views(entries@).take(0) =~= Seq::<DirEntryView>::empty());
            while index < entries.len()
                invariant
                    index <= entries.len(),
                    file_views(files@) == listed_files(entry_views(entries@).take(index as int)),
                decreases entries.len() - index,
            {
                let ghost seen = entry_views(entries@).take(index as int);
                let ghost next = entry_views(entries@).take(index + 1);
                assert(next.drop_last() =~= seen);
                assert(next.last() == entries@[index as int]@);
                let entry = &entries[index];
                match &entry.name {
                    Some(name) => {
                        let ghost before = file_views(files@);
                        files.push(
                            File {
                                path: name.clone(),
                                size: entry.size,
                                modified_at: entry.modified_at,
                                created_at: entry.created_at,
                                is_dir: entry.is_dir,
                            },
                        );
                        assert(file_views(files@) =~= before.push(
                            listed_file(entries@[index as int]@).unwrap(),
                        ));
                    },
                    None => {},
                }
                index += 1;
            }
            assert(entry_views(entries@).take(entries.len() as int) =~= entry_views(entries@));
            Ok(Response::ListFiles { path: path.to_owned(), files })
        },
    }
}

/// The result of a request for device information, given what the producer
/// returned.
pub open spec fn info_result(produced: Result<DeviceInfo, String>) -> Result<
    ResponseView,
    ProcessorErrorView,
> {
    match produced {
        Ok(device_info) => Ok(ResponseView::GetInfo { device_info: device_info@ }),
        Err(message) => Err(ProcessorErrorView::DeviceInfo { message: message@ }),
    }
}

/// The first step of a request that does not ask for device information.
/// `Reboot` is answered at once; a listing waits for the directory below
/// `root`; a fetch waits for the file to be opened, unless it asks for
/// chunks of zero bytes, which is answered with an error.
pub open spec fn started(root: Seq<char>, request: CommandRequestView) -> StepView {
    match request.command {
        CommandView::GetInfo => StepView { response: None, pending: None },
        CommandView::Reboot => final_step(request.id, Ok(ResponseView::Reboot)),
        CommandView::ListFiles { path } => StepView {
            response: None,
            pending: Some(
                PendingView::Listing { id: request.id, path, dir: resolved_path(root, path) },
            ),
        },
        CommandView::FetchFile { path, chunk_size } => if chunk_size == 0 {
            final_step(request.id, Err(ProcessorErrorView::InvalidChunkSize))
        } else {
            StepView {
                response: None,
                pending: Some(PendingView::Opening { id: request.id, path, chunk_size }),
            }
        },
    }
}

/// The step that follows the opening of a file of `file_size` bytes. A file
/// without bytes is answered at once with one chunk that is empty and
/// final, which ends the exchange; any other file is streamed from offset
/// zero.
pub open spec fn opened_step(id: Seq<char>, chunk_size: u64, file_size: u64) -> StepView {
    if file_size == 0 {
        final_step(
            id,
            Ok(ResponseView::FetchFileChunk { offset: 0, data: Seq::empty(), is_final: true }),
        )
    } else {
        StepView {
            response: None,
            pending: Some(PendingView::Streaming { id, chunk_size, file_size, offset: 0 }),
        }
    }
}

/// Whether the chunk read at `offset` with `length` bytes is the last one:
/// the next chunk would start at or past the end of the file.
pub open spec fn reaches_end(file_size: u64, offset: u64, length: nat) -> bool {
    offset + length >= file_size
}

/// The step that follows the reading of `data` at `offset`. The chunk
/// carries the bytes actually read and the offset they were read at; the
/// next one starts where this one ends. A read that gives no bytes before
/// the end is answered with an error, and the exchange ends.
pub open spec fn chunk_step(
    id: Seq<char>,
    chunk_size: u64,
    file_size: u64,
    offset: u64,
    data: Seq<u8>,
) -> StepView {
    if data.len() == 0 {
        final_step(id, Err(ProcessorErrorView::UnexpectedEof))
    } else {
        let is_final = reaches_end(file_size, offset, data.len());
        StepView {
            response: Some(
                CommandResponseView {
                    id,
                    response: ResponseView::FetchFileChunk { offset, data, is_final },
                },
            ),
            pending: if is_final {
                None
            } else {
                Some(
                    PendingView::Streaming {
                        id,
                        chunk_size,
                        file_size,
                        offset: (offset + data.len()) as u64,
                    },
                )
            },
        }
    }
}

/// The step that follows the storage's reply to pending work. A failure of
/// the storage ends the exchange with one error response; so does a reply
/// to another request than the pending one.
pub open spec fn resumed(pending: PendingView, reply: StorageReplyView) -> StepView {
    match (pending, reply) {
        (PendingView::Listing { id, path, .. }, StorageReplyView::Listing(Ok(entries))) => {
            final_step(id, Ok(ResponseView::ListFiles { path, files: listed_files(entries) }))
        },
        (PendingView::Listing { id, .. }, StorageReplyView::Listing(Err(message))) => {
            final_step(id, Err(ProcessorErrorView::IoError { message }))
        },
        (PendingView::Opening { id, chunk_size, .. }, StorageReplyView::Opened(Ok(file_size))) => {
            opened_step(id, chunk_size, file_size)
        },
        (PendingView::Opening { id, .. }, StorageReplyView::Opened(Err(message))) => {
            final_step(id, Err(ProcessorErrorView::IoError { message }))
        },
        (
            PendingView::Streaming { id, chunk_size, file_size, offset },
            StorageReplyView::Chunk(Ok(data)),
        ) => chunk_step(id, chunk_size, file_size, offset, data),
        (PendingView::Streaming { id, .. }, StorageReplyView::Chunk(Err(message))) => {
            final_step(id, Err(ProcessorErrorView::IoError { message }))
        },
        _ => final_step(pending.id(), Err(ProcessorErrorView::UnexpectedReply)),
    }
}

impl Pending {
    /// Takes the storage's reply to the pending work and returns the next
    /// step of the exchange.
    pub fn resume(self, reply: StorageReply) -> (step: Step)
        ensures
            step@ == resumed(self@, reply@),
    {
        match (self, reply) {
            (Pending::Listing { id, path, .. }, StorageReply::Listing(listing)) => {
                let result = listing_response(path.as_str(), listing);
                Step { response: Some(answer(id.as_str(), result)), pending: None }
            },
            (Pending::Opening { id, chunk_size, .. }, StorageReply::Opened(Ok(file_size))) => {
                if file_size == 0 {
                    let empty = Response::FetchFileChunk {
                        offset: 0,
                        data: Vec::new(),
                        is_final: true,
                    };
                    Step { response: Some(answer(id.as_str(), Ok(empty))), pending: None }
                } else {
                    Step {
                        response: None,
                        pending: Some(Pending::Streaming { id, chunk_size, file_size, offset: 0 }),
                    }
                }
            },
            (Pending::Opening { id, .. }, StorageReply::Opened(Err(message))) => Step {
                response: Some(answer(id.as_str(), Err(ProcessorError::IoError { message }))),
                pending: None,
            },
            (
                Pending::Streaming { id, chunk_size, file_size, offset },
                StorageReply::Chunk(Ok(data)),
            ) => {
                let length = data.len() as u64;
                if length == 0 {
                    return Step {
                        response: Some(answer(id.as_str(), Err(ProcessorError::UnexpectedEof))),
                        pending: None,
                    };
                }
                let is_final = offset >= file_size || length >= file_size - offset;
                let pending = if is_final {
                    None
                } else {
                    Some(
                        Pending::Streaming {
                            id: id.clone(),
                            chunk_size,
                            file_size,
                            offset: offset + length,
                        },
                    )
                };
                Step {
                    response: Some(
                        CommandResponse {
                            id,
                            response: Response::FetchFileChunk { offset, data, is_final },
                        },
                    ),
                    pending,
                }
            },
            (Pending::Streaming { id, .. }, StorageReply::Chunk(Err(message))) => Step {
                response: Some(answer(id.as_str(), Err(ProcessorError::IoError { message }))),
                pending: None,
            },
            (Pending::Listing { id, .. }, _) => Step {
                response: Some(answer(id.as_str(), Err(ProcessorError::UnexpectedReply))),
                pending: None,
            },
            (Pending::Opening { id, .. }, _) => Step {
                response: Some(answer(id.as_str(), Err(ProcessorError::UnexpectedReply))),
                pending: None,
            },
            (Pending::Streaming { id, .. }, _) => Step {
                response: Some(answer(id.as_str(), Err(ProcessorError::UnexpectedReply))),
                pending: None,
            },
        }
    }
}

/// The processor of one connection: the producer of device information that
/// it was built with, and the directory that listings are resolved against.
pub struct Processor<P> {
    pub device_info_producer: P,
    pub root_dir: String,
}

impl<P: Fn() -> Result<DeviceInfo, String>> Processor<P> {
    /// Asks the producer for a snapshot of the device. The result holds what
    /// the producer returned on this call: its snapshot, or its message.
    pub fn get_info(&self) -> (result: Result<Response, ProcessorError>)
        requires
            call_requires(self.device_info_producer, ()),
        ensures
            match result {
                Ok(Response::GetInfo { device_info }) => call_ensures(
                    self.device_info_producer,
                    (),
                    Ok(device_info),
                ),
                Err(ProcessorError::DeviceInfo { message }) => call_ensures(
                    self.device_info_producer,
                    (),
                    Err(message),
                ),
                _ => false,
            },
    {
        let produced = (self.device_info_producer)();
        info_response(produced)
    }

    /// Starts the listing of `path`: the listing of the directory that the
    /// path names below the root is pending.
    pub fn list_files(&self, req_id: &str, path: &str) -> (step: Step)
        ensures
            step@ == started(
                self.root_dir@,
                CommandRequestView { id: req_id@, command: CommandView::ListFiles { path: path@ } },
            ),
    {
        Step {
            response: None,
            pending: Some(
                Pending::Listing {
                    id: req_id.to_owned(),
                    path: path.to_owned(),
                    dir: resolve_path(self.root_dir.as_str(), path),
                },
            ),
        }
    }

    /// Starts the fetch of the file at `path` in chunks of `chunk_size`
    /// bytes: the opening of the file is pending, unless the chunk size is
    /// zero. The path is opened as it is given.
    pub fn fetch_file(&self, req_id: &str, path: &str, chunk_size: u64) -> (step: Step)
        ensures
            step@ == started(
                self.root_dir@,
                CommandRequestView {
                    id: req_id@,
                    command: CommandView::FetchFile { path: path@, chunk_size },
                },
            ),
    {
        if chunk_size == 0 {
            Step {
                response: Some(answer(req_id, Err(ProcessorError::InvalidChunkSize))),
                pending: None,
            }
        } else {
            Step {
                response: None,
                pending: Some(
                    Pending::Opening { id: req_id.to_owned(), path: path.to_owned(), chunk_size },
                ),
            }
        }
    }

    /// Restarting the device is left to the device; the request is
    /// acknowledged.
    pub fn reboot(&self) -> (result: Result<Response, ProcessorError>)
        ensures
            result == Ok::<Response, ProcessorError>(Response::Reboot),
    {
        Ok(Response::Reboot)
    }

    /// The single entry point: the first step of answering `request`.
    /// A request for device information is answered at once with what the
    /// producer returns on this call; every other request starts as
    /// `started` says.
    pub fn process(&self, request: &CommandRequest) -> (step: Step)
        requires
            call_requires(self.device_info_producer, ()),
        ensures
            request.command is GetInfo ==> exists|produced: Result<DeviceInfo, String>|
                #[trigger] call_ensures(self.device_info_producer, (), produced) && step@
                    == final_step(request.id@, info_result(produced)),
            !(request.command is GetInfo) ==> step@ == started(self.root_dir@, request@),
    {
        match &request.command {
            Command::GetInfo => {
                let result = self.get_info();
                let ghost outcome = result;
                let step = Step {
                    response: Some(answer(request.id.as_str(), result)),
                    pending: None,
                };
                proof {
                    let produced: Result<DeviceInfo, String> = match outcome {
                        Ok(Response::GetInfo { device_info }) => Ok(device_info),
                        Err(ProcessorError::DeviceInfo { message }) => Err(message),
                        _ => arbitrary(),
                    };
                    assert(call_ensures(self.device_info_producer, (), produced) && step@
                        == final_step(request.id@, info_result(produced)));
                }
                step
            },
            Command::ListFiles { path } => self.list_files(request.id.as_str(), path.as_str()),
            Command::FetchFile { path, chunk_size } => self.fetch_file(
                request.id.as_str(),
                path.as_str(),
                *chunk_size,
            ),
            Command::Reboot => {
                let result = self.reboot();
                Step { response: Some(answer(request.id.as_str(), result)), pending: None }
            },
        }
    }
}

} // verus!
