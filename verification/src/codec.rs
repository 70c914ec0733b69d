//! The wire schema of requests and responses as JSON documents, and the
//! text encoding through `serde_json`.
//!
//! A request is `{id, command: {type, ...}}` and a response is
//! `{id, response: {type, ...}}`: the variant's name under `type`, beside
//! the variant's own fields. Members that the schema does not name are
//! ignored when a request is read.

use crate::json::{
    JsonDoc, array_value, as_text, as_unsigned, bool_value, distinct_keys, document, documents,
    member, member_named, members_of, object_value, parse, parsed_document, print,
    printed_document, signed_value, text_value, unsigned_value,
};
use crate::protocol::{
    Command, CommandRequest, CommandRequestView, CommandResponse, CommandResponseView, CommandView,
    DeviceInfo, DeviceInfoView, File, FileView, Response, ResponseView, file_views,
};
use vstd::prelude::*;

verus! {

/// Why a text is no request.
#[derive(Debug, Copy, Clone, PartialEq, Eq, Structural)]
pub enum DecodeError {
    /// The text is no JSON document.
    NotJson,
    /// The document has no string member `id`.
    MissingId,
    /// The document has no member `command`.
    MissingCommand,
    /// The command has no string member `type`.
    MissingType,
    /// The command's `type` names no command.
    UnknownCommand,
    /// The command needs a string member `path` and has none.
    MissingPath,
    /// The command needs a member `chunk_size` in the range of `u64` and
    /// has none.
    MissingChunkSize,
}

/// Which encoder a failure would come from. No encoding of a request, a
/// response or a chunk fails; the type names the failure where a result of
/// an encoder is passed on.
#[derive(Debug, Copy, Clone, PartialEq, Eq, Structural)]
pub enum EncodeError {
    Json,
    MessagePack,
}

/// The document of a command.
pub open spec fn command_document(command: CommandView) -> JsonDoc {
    match command {
        CommandView::GetInfo => JsonDoc::Object(seq![("type"@, JsonDoc::Text("GetInfo"@))]),
        CommandView::ListFiles { path } => JsonDoc::Object(
            seq![("type"@, JsonDoc::Text("ListFiles"@)), ("path"@, JsonDoc::Text(path))],
        ),
        CommandView::FetchFile { path, chunk_size } => JsonDoc::Object(
            seq![
                ("type"@, JsonDoc::Text("FetchFile"@)),
                ("path"@, JsonDoc::Text(path)),
                ("chunk_size"@, JsonDoc::Integer(chunk_size as int)),
            ],
        ),
        CommandView::Reboot => JsonDoc::Object(seq![("type"@, JsonDoc::Text("Reboot"@))]),
    }
}

/// The document of a request.
pub open spec fn request_document(request: CommandRequestView) -> JsonDoc {
    JsonDoc::Object(
        seq![("id"@, JsonDoc::Text(request.id)), ("command"@, command_document(request.command))],
    )
}

/// The string member `key` of a document, if it has one.
pub open spec fn text_member(doc: JsonDoc, key: Seq<char>) -> Option<Seq<char>> {
    match doc.member(key) {
        Some(inner) => inner.as_text(),
        None => None,
    }
}

/// The member `key` of a document as a `u64`, if it has one.
pub open spec fn unsigned_member(doc: JsonDoc, key: Seq<char>) -> Option<u64> {
    match doc.member(key) {
        Some(inner) => inner.as_unsigned(),
        None => None,
    }
}

/// The command that a document stands for, or why it stands for none.
pub open spec fn decoded_command(doc: JsonDoc) -> Result<CommandView, DecodeError> {
    match text_member(doc, "type"@) {
        None => Err(DecodeError::MissingType),
        Some(name) => if name == "GetInfo"@ {
            Ok(CommandView::GetInfo)
        } else if name == "Reboot"@ {
            Ok(CommandView::Reboot)
        } else if name == "ListFiles"@ {
            match text_member(doc, "path"@) {
                Some(path) => Ok(CommandView::ListFiles { path }),
                None => Err(DecodeError::MissingPath),
            }
        } else if name == "FetchFile"@ {
            match (text_member(doc, "path"@), unsigned_member(doc, "chunk_size"@)) {
                (Some(path), Some(chunk_size)) => Ok(CommandView::FetchFile { path, chunk_size }),
                (None, _) => Err(DecodeError::MissingPath),
                (Some(_), None) => Err(DecodeError::MissingChunkSize),
            }
        } else {
            Err(DecodeError::UnknownCommand)
        },
    }
}

/// The request that a document stands for, or why it stands for none.
pub open spec fn decoded_request(doc: JsonDoc) -> Result<CommandRequestView, DecodeError> {
    match text_member(doc, "id"@) {
        None => Err(DecodeError::MissingId),
        Some(id) => match doc.member("command"@) {
            None => Err(DecodeError::MissingCommand),
            Some(command) => match decoded_command(command) {
                Ok(command) => Ok(CommandRequestView { id, command }),
                Err(error) => Err(error),
            },
        },
    }
}

/// The request that a text stands for, or why it stands for none.
pub open spec fn decoded_text(text: Seq<char>) -> Result<CommandRequestView, DecodeError> {
    match parsed_document(text) {
        Some(doc) => decoded_request(doc),
        None => Err(DecodeError::NotJson),
    }
}

/// The view of a decoding result.
pub open spec fn request_result_view(result: Result<CommandRequest, DecodeError>) -> Result<
    CommandRequestView,
    DecodeError,
> {
    match result {
        Ok(request) => Ok(request@),
        Err(error) => Err(error),
    }
}

fn text_of_member(value: &serde_json::Value, key: &str) -> (text: Option<String>)
    ensures
        match text {
            Some(text) => text_member(document(*value), key@) == Some(text@),
            None => text_member(document(*value), key@) is None,
        },
{
    match member(value, key) {
        Some(inner) => match as_text(inner) {
            Some(text) => Some(text.to_owned()),
            None => None,
        },
        None => None,
    }
}

fn unsigned_of_member(value: &serde_json::Value, key: &str) -> (number: Option<u64>)
    ensures
        number == unsigned_member(document(*value), key@),
{
    match member(value, key) {
        Some(inner) => as_unsigned(inner),
        None => None,
    }
}

fn same_text(left: &String, right: &str) -> (same: bool)
    ensures
        same == (left@ == right@),
{
    let right = right.to_owned();
    *left == right
}

/// Reads a command from the value of a request's `command` member.
pub fn command_from_value(value: &serde_json::Value) -> (result: Result<Command, DecodeError>)
    ensures
        match result {
            Ok(command) => decoded_command(document(*value)) == Ok::<CommandView, DecodeError>(
                command@,
            ),
            Err(error) => decoded_command(document(*value)) == Err::<CommandView, DecodeError>(
                error,
            ),
        },
{
    let name = match text_of_member(value, "type") {
        Some(name) => name,
        None => {
            return Err(DecodeError::MissingType);
        },
    };
    if same_text(&name, "GetInfo") {
        Ok(Command::GetInfo)
    } else if same_text(&name, "Reboot") {
        Ok(Command::Reboot)
    } else if same_text(&name, "ListFiles") {
        match text_of_member(value, "path") {
            Some(path) => Ok(Command::ListFiles { path }),
            None => Err(DecodeError::MissingPath),
        }
    } else if same_text(&name, "FetchFile") {
        match text_of_member(value, "path") {
            None => Err(DecodeError::MissingPath),
            Some(path) => match unsigned_of_member(value, "chunk_size") {
                Some(chunk_size) => Ok(Command::FetchFile { path, chunk_size }),
                None => Err(DecodeError::MissingChunkSize),
            },
        }
    } else {
        Err(DecodeError::UnknownCommand)
    }
}

/// Reads a request from a parsed document.
pub fn request_from_value(value: &serde_json::Value) -> (result: Result<
    CommandRequest,
    DecodeError,
>)
    ensures
        request_result_view(result) == decoded_request(document(*value)),
{
    let id = match text_of_member(value, "id") {
        Some(id) => id,
        None => {
            return Err(DecodeError::MissingId);
        },
    };
    match member(value, "command") {
        None => Err(DecodeError::MissingCommand),
        Some(inner) => match command_from_value(inner) {
            Ok(command) => Ok(CommandRequest { id, command }),
            Err(error) => Err(error),
        },
    }
}

/// Decodes the text of one inbound frame into a request. A text that is
/// no JSON document, or whose document is no request, is rejected with the
/// reason. Where a text names a member twice, the document holds the last
/// one, and that one counts.
pub fn decode_request(text: &str) -> (result: Result<CommandRequest, DecodeError>)
    ensures
        request_result_view(result) == decoded_text(text@),
{
    match parse(text) {
        Ok(value) => request_from_value(&value),
        Err(_) => Err(DecodeError::NotJson),
    }
}

fn push_member(entries: &mut Vec<(String, serde_json::Value)>, key: &str, value: serde_json::Value)
    ensures
        members_of(final(entries)@) == members_of(old(entries)@).push((key@, document(value))),
{
    entries.push((key.to_owned(), value));
    assert(members_of(entries@) =~= members_of(old(entries)@).push((key@, document(value))));
}

/// Keys that differ in length or in their first character are distinct.
proof fn lemma_distinct_keys(members: Seq<(Seq<char>, JsonDoc)>)
    requires
        forall|i: int, j: int|
            0 <= i < j < members.len() ==> {
                ||| (#[trigger] members[i]).0.len() != (#[trigger] members[j]).0.len()
                ||| members[i].0.len() > 0 && members[j].0.len() > 0 && members[i].0[0]
                    != members[j].0[0]
            },
    ensures
        distinct_keys(members),
{
}

/// Builds the document of a command.
pub fn command_value(command: &Command) -> (value: serde_json::Value)
    ensures
        document(value) == command_document(command@),
{
    let mut entries: Vec<(String, serde_json::Value)> = Vec::new();
    assert(members_of(entries@) =~= Seq::empty());
    proof {
        reveal_strlit("type");
        reveal_strlit("path");
        reveal_strlit("chunk_size");
    }
    match command {
        Command::GetInfo => {
            push_member(&mut entries, "type", text_value("GetInfo"));
            assert(members_of(entries@) =~= seq![("type"@, JsonDoc::Text("GetInfo"@))]);
        },
        Command::ListFiles { path } => {
            push_member(&mut entries, "type", text_value("ListFiles"));
            push_member(&mut entries, "path", text_value(path.as_str()));
            assert(members_of(entries@) =~= seq![
                ("type"@, JsonDoc::Text("ListFiles"@)),
                ("path"@, JsonDoc::Text(path@)),
            ]);
        },
        Command::FetchFile { path, chunk_size } => {
            push_member(&mut entries, "type", text_value("FetchFile"));
            push_member(&mut entries, "path", text_value(path.as_str()));
            push_member(&mut entries, "chunk_size", unsigned_value(*chunk_size));
            assert(members_of(entries@) =~= seq![
                ("type"@, JsonDoc::Text("FetchFile"@)),
                ("path"@, JsonDoc::Text(path@)),
                ("chunk_size"@, JsonDoc::Integer(*chunk_size as int)),
            ]);
        },
        Command::Reboot => {
            push_member(&mut entries, "type", text_value("Reboot"));
            assert(members_of(entries@) =~= seq![("type"@, JsonDoc::Text("Reboot"@))]);
        },
    }
    proof {
        lemma_distinct_keys(members_of(entries@));
    }
    object_value(entries)
}

/// Builds the document of a request.
pub fn request_value(request: &CommandRequest) -> (value: serde_json::Value)
    ensures
        document(value) == request_document(request@),
{
    let mut entries: Vec<(String, serde_json::Value)> = Vec::new();
    assert(members_of(entries@) =~= Seq::empty());
    proof {
        reveal_strlit("id");
        reveal_strlit("command");
    }
    push_member(&mut entries, "id", text_value(request.id.as_str()));
    push_member(&mut entries, "command", command_value(&request.command));
    assert(members_of(entries@) =~= seq![
        ("id"@, JsonDoc::Text(request.id@)),
        ("command"@, command_document(request.command@)),
    ]);
    proof {
        lemma_distinct_keys(members_of(entries@));
    }
    object_value(entries)
}

/// Encodes a request as the text of one frame. Every request has a text:
/// the one that `serde_json` writes for the request's document.
pub fn encode_request(request: &CommandRequest) -> (result: Result<String, EncodeError>)
    ensures
        result matches Ok(text) && text@ == printed_document(request_document(request@)),
{
    let value = request_value(request);
    match print(&value) {
        Ok(text) => Ok(text),
        Err(_) => Err(EncodeError::Json),
    }
}

/// The document of one listed file.
pub open spec fn file_document(file: FileView) -> JsonDoc {
    JsonDoc::Object(
        seq![
            ("path"@, JsonDoc::Text(file.path)),
            ("size"@, JsonDoc::Integer(file.size as int)),
            ("modified_at"@, JsonDoc::Integer(file.modified_at as int)),
            ("created_at"@, JsonDoc::Integer(file.created_at as int)),
            ("is_dir"@, JsonDoc::Bool(file.is_dir)),
        ],
    )
}

/// The document of a device snapshot.
pub open spec fn device_info_document(info: DeviceInfoView) -> JsonDoc {
    JsonDoc::Object(
        seq![
            ("version"@, JsonDoc::Text(info.version)),
            ("wifi_ip"@, JsonDoc::Text(info.wifi_ip)),
            ("mount_path"@, JsonDoc::Text(info.mount_path)),
            ("local_time"@, JsonDoc::Integer(info.local_time as int)),
            ("total_volume_size"@, JsonDoc::Integer(info.total_volume_size as int)),
            ("free_volume_size"@, JsonDoc::Integer(info.free_volume_size as int)),
        ],
    )
}

/// The documents of a list of files, in order.
pub open spec fn file_documents(files: Seq<FileView>) -> Seq<JsonDoc> {
    Seq::new(files.len(), |i: int| file_document(files[i]))
}

/// The documents of a run of bytes: each byte as a number, in order.
pub open spec fn byte_documents(data: Seq<u8>) -> Seq<JsonDoc> {
    Seq::new(data.len(), |i: int| JsonDoc::Integer(data[i] as int))
}

/// The document of a response.
pub open spec fn response_document(response: ResponseView) -> JsonDoc {
    match response {
        ResponseView::GetInfo { device_info } => JsonDoc::Object(
            seq![
                ("type"@, JsonDoc::Text("GetInfo"@)),
                ("device_info"@, device_info_document(device_info)),
            ],
        ),
        ResponseView::ListFiles { path, files } => JsonDoc::Object(
            seq![
                ("type"@, JsonDoc::Text("ListFiles"@)),
                ("path"@, JsonDoc::Text(path)),
                ("files"@, JsonDoc::Array(file_documents(files))),
            ],
        ),
        ResponseView::FetchFileChunk { offset, data, is_final } => JsonDoc::Object(
            seq![
                ("type"@, JsonDoc::Text("FetchFileChunk"@)),
                ("offset"@, JsonDoc::Integer(offset as int)),
                ("data"@, JsonDoc::Array(byte_documents(data))),
                ("is_final"@, JsonDoc::Bool(is_final)),
            ],
        ),
        ResponseView::Reboot => JsonDoc::Object(seq![("type"@, JsonDoc::Text("Reboot"@))]),
        ResponseView::Error { message } => JsonDoc::Object(
            seq![("type"@, JsonDoc::Text("Error"@)), ("message"@, JsonDoc::Text(message))],
        ),
    }
}

/// The document of a response with the token of its request.
pub open spec fn command_response_document(response: CommandResponseView) -> JsonDoc {
    JsonDoc::Object(
        seq![
            ("id"@, JsonDoc::Text(response.id)),
            ("response"@, response_document(response.response)),
        ],
    )
}

/// Builds the document of one listed file.
pub fn file_value(file: &File) -> (value: serde_json::Value)
    ensures
        document(value) == file_document(file@),
{
    let mut entries: Vec<(String, serde_json::Value)> = Vec::new();
    assert(members_of(entries@) =~= Seq::empty());
    proof {
        reveal_strlit("path");
        reveal_strlit("size");
        reveal_strlit("modified_at");
        reveal_strlit("created_at");
        reveal_strlit("is_dir");
    }
    push_member(&mut entries, "path", text_value(file.path.as_str()));
    push_member(&mut entries, "size", unsigned_value(file.size));
    push_member(&mut entries, "modified_at", signed_value(file.modified_at));
    push_member(&mut entries, "created_at", signed_value(file.created_at));
    push_member(&mut entries, "is_dir", bool_value(file.is_dir));
    assert(members_of(entries@) =~= seq![
        ("path"@, JsonDoc::Text(file.path@)),
        ("size"@, JsonDoc::Integer(file.size as int)),
        ("modified_at"@, JsonDoc::Integer(file.modified_at as int)),
        ("created_at"@, JsonDoc::Integer(file.created_at as int)),
        ("is_dir"@, JsonDoc::Bool(file.is_dir)),
    ]);
    proof {
        lemma_distinct_keys(members_of(entries@));
    }
    object_value(entries)
}

/// Builds the document of a device snapshot.
pub fn device_info_value(info: &DeviceInfo) -> (value: serde_json::Value)
    ensures
        document(value) == device_info_document(info@),
{
    let mut entries: Vec<(String, serde_json::Value)> = Vec::new();
    assert(members_of(entries@) =~= Seq::empty());
    proof {
        reveal_strlit("version");
        reveal_strlit("wifi_ip");
        reveal_strlit("mount_path");
        reveal_strlit("local_time");
        reveal_strlit("total_volume_size");
        reveal_strlit("free_volume_size");
    }
    push_member(&mut entries, "version", text_value(info.version.as_str()));
    push_member(&mut entries, "wifi_ip", text_value(info.wifi_ip.as_str()));
    push_member(&mut entries, "mount_path", text_value(info.mount_path.as_str()));
    push_member(&mut entries, "local_time", signed_value(info.local_time));
    push_member(&mut entries, "total_volume_size", unsigned_value(info.total_volume_size));
    push_member(&mut entries, "free_volume_size", unsigned_value(info.free_volume_size));
    assert(members_of(entries@) =~= seq![
        ("version"@, JsonDoc::Text(info.version@)),
        ("wifi_ip"@, JsonDoc::Text(info.wifi_ip@)),
        ("mount_path"@, JsonDoc::Text(info.mount_path@)),
        ("local_time"@, JsonDoc::Integer(info.local_time as int)),
        ("total_volume_size"@, JsonDoc::Integer(info.total_volume_size as int)),
        ("free_volume_size"@, JsonDoc::Integer(info.free_volume_size as int)),
    ]);
    proof {
        lemma_distinct_keys(members_of(entries@));
    }
    object_value(entries)
}

fn files_value(files: &Vec<File>) -> (value: serde_json::Value)
    ensures
        document(value) == JsonDoc::Array(file_documents(file_views(files@))),
{
    let mut items: Vec<serde_json::Value> = Vec::new();
    let mut index: usize = 0;
    while index < files.len()
        invariant
            index <= files.len(),
            items@.len() == index,
            forall|i: int| 0 <= i < index ==> document(#[trigger] items@[i]) == file_document(
                files@[i]@,
            ),
        decreases files.len() - index,
    {
        items.push(file_value(&files[index]));
        index += 1;
    }
    assert(documents(items@) =~= file_documents(file_views(files@)));
    array_value(items)
}

fn bytes_value(data: &Vec<u8>) -> (value: serde_json::Value)
    ensures
        document(value) == JsonDoc::Array(byte_documents(data@)),
{
    let mut items: Vec<serde_json::Value> = Vec::new();
    let mut index: usize = 0;
    while index < data.len()
        invariant
            index <= data.len(),
            items@.len() == index,
            forall|i: int| 0 <= i < index ==> document(#[trigger] items@[i]) == JsonDoc::Integer(
                data@[i] as int,
            ),
        decreases data.len() - index,
    {
        items.push(unsigned_value(data[index] as u64));
        index += 1;
    }
    assert(documents(items@) =~= byte_documents(data@));
    array_value(items)
}

/// Builds the document of a response.
pub fn response_value(response: &Response) -> (value: serde_json::Value)
    ensures
        document(value) == response_document(response@),
{
    let mut entries: Vec<(String, serde_json::Value)> = Vec::new();
    assert(members_of(entries@) =~= Seq::empty());
    proof {
        reveal_strlit("type");
        reveal_strlit("device_info");
        reveal_strlit("path");
        reveal_strlit("files");
        reveal_strlit("offset");
        reveal_strlit("data");
        reveal_strlit("is_final");
        reveal_strlit("message");
    }
    match response {
        Response::GetInfo { device_info } => {
            push_member(&mut entries, "type", text_value("GetInfo"));
            push_member(&mut entries, "device_info", device_info_value(device_info));
            assert(members_of(entries@) =~= seq![
                ("type"@, JsonDoc::Text("GetInfo"@)),
                ("device_info"@, device_info_document(device_info@)),
            ]);
        },
        Response::ListFiles { path, files } => {
            push_member(&mut entries, "type", text_value("ListFiles"));
            push_member(&mut entries, "path", text_value(path.as_str()));
            push_member(&mut entries, "files", files_value(files));
            assert(members_of(entries@) =~= seq![
                ("type"@, JsonDoc::Text("ListFiles"@)),
                ("path"@, JsonDoc::Text(path@)),
                ("files"@, JsonDoc::Array(file_documents(file_views(files@)))),
            ]);
        },
        Response::FetchFileChunk { offset, data, is_final } => {
            push_member(&mut entries, "type", text_value("FetchFileChunk"));
            push_member(&mut entries, "offset", unsigned_value(*offset));
            push_member(&mut entries, "data", bytes_value(data));
            push_member(&mut entries, "is_final", bool_value(*is_final));
            assert(members_of(entries@) =~= seq![
                ("type"@, JsonDoc::Text("FetchFileChunk"@)),
                ("offset"@, JsonDoc::Integer(*offset as int)),
                ("data"@, JsonDoc::Array(byte_documents(data@))),
                ("is_final"@, JsonDoc::Bool(*is_final)),
            ]);
        },
        Response::Reboot => {
            push_member(&mut entries, "type", text_value("Reboot"));
            assert(members_of(entries@) =~= seq![("type"@, JsonDoc::Text("Reboot"@))]);
        },
        Response::Error { message } => {
            push_member(&mut entries, "type", text_value("Error"));
            push_member(&mut entries, "message", text_value(message.as_str()));
            assert(members_of(entries@) =~= seq![
                ("type"@, JsonDoc::Text("Error"@)),
                ("message"@, JsonDoc::Text(message@)),
            ]);
        },
    }
    proof {
        lemma_distinct_keys(members_of(entries@));
    }
    object_value(entries)
}

/// Builds the document of a response with the token of its request.
pub fn command_response_value(response: &CommandResponse) -> (value: serde_json::Value)
    ensures
        document(value) == command_response_document(response@),
{
    let mut entries: Vec<(String, serde_json::Value)> = Vec::new();
    assert(members_of(entries@) =~= Seq::empty());
    proof {
        reveal_strlit("id");
        reveal_strlit("response");
    }
    push_member(&mut entries, "id", text_value(response.id.as_str()));
    push_member(&mut entries, "response", response_value(&response.response));
    assert(members_of(entries@) =~= seq![
        ("id"@, JsonDoc::Text(response.id@)),
        ("response"@, response_document(response.response@)),
    ]);
    proof {
        lemma_distinct_keys(members_of(entries@));
    }
    object_value(entries)
}

/// Encodes a response as the text of one frame. Every response has a text:
/// the one that `serde_json` writes for the response's document.
pub fn encode_response(response: &CommandResponse) -> (result: Result<String, EncodeError>)
    ensures
        result matches Ok(text) && text@ == printed_document(
            command_response_document(response@),
        ),
{
    let value = command_response_value(response);
    match print(&value) {
        Ok(text) => Ok(text),
        Err(_) => Err(EncodeError::Json),
    }
}

/// The member at `index` is the one found under its key where no member
/// before it has that key.
proof fn lemma_member_at(members: Seq<(Seq<char>, JsonDoc)>, key: Seq<char>, index: int)
    requires
        0 <= index < members.len(),
        members[index].0 == key,
        forall|i: int| 0 <= i < index ==> (#[trigger] members[i]).0 != key,
    ensures
        member_named(members, key) == Some(members[index].1),
    decreases index,
{
    if index > 0 {
        assert(members[0].0 != key);
        let rest = members.drop_first();
        assert forall|i: int| 0 <= i < index - 1 implies (#[trigger] rest[i]).0 != key by {
            assert(rest[i] == members[i + 1]);
        }
        lemma_member_at(rest, key, index - 1);
    }
}

/// A command is read back from its own document.
pub proof fn lemma_command_round_trip(command: CommandView)
    ensures
        decoded_command(command_document(command)) == Ok::<CommandView, DecodeError>(command),
{
    reveal_strlit("type");
    reveal_strlit("path");
    reveal_strlit("chunk_size");
    reveal_strlit("GetInfo");
    reveal_strlit("Reboot");
    reveal_strlit("ListFiles");
    reveal_strlit("FetchFile");
    assert("type"@[0] == 't' && "path"@[0] == 'p');
    assert("ListFiles"@[0] == 'L' && "FetchFile"@[0] == 'F');
    assert("type"@.len() == 4 && "chunk_size"@.len() == 10);
    assert("GetInfo"@.len() == 7 && "Reboot"@.len() == 6);
    assert("ListFiles"@.len() == 9 && "FetchFile"@.len() == 9);
    assert("type"@ != "path"@);
    assert("type"@ != "chunk_size"@);
    assert("path"@ != "chunk_size"@);
    assert("ListFiles"@ != "FetchFile"@);
    let doc = command_document(command);
    match command {
        CommandView::GetInfo => {
            lemma_member_at(doc->Object_0, "type"@, 0);
        },
        CommandView::Reboot => {
            lemma_member_at(doc->Object_0, "type"@, 0);
        },
        CommandView::ListFiles { path } => {
            lemma_member_at(doc->Object_0, "type"@, 0);
            lemma_member_at(doc->Object_0, "path"@, 1);
        },
        CommandView::FetchFile { path, chunk_size } => {
            lemma_member_at(doc->Object_0, "type"@, 0);
            lemma_member_at(doc->Object_0, "path"@, 1);
            lemma_member_at(doc->Object_0, "chunk_size"@, 2);
        },
    }
}

/// Decoding undoes encoding: a request is read back from its own document,
/// and so from every text that parses to that document.
pub proof fn lemma_request_round_trip(request: CommandRequestView)
    ensures
        decoded_request(request_document(request)) == Ok::<CommandRequestView, DecodeError>(
            request,
        ),
        forall|text: Seq<char>|
            #[trigger] parsed_document(text) == Some(request_document(request)) ==> decoded_text(
                text,
            ) == Ok::<CommandRequestView, DecodeError>(request),
{
    reveal_strlit("id");
    reveal_strlit("command");
    assert("id"@.len() == 2 && "command"@.len() == 7);
    assert("id"@ != "command"@);
    lemma_command_round_trip(request.command);
    let doc = request_document(request);
    lemma_member_at(doc->Object_0, "id"@, 0);
    lemma_member_at(doc->Object_0, "command"@, 1);
}

} // verus!
