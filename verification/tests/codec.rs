use securedash::codec::{
    command_from_value, command_response_value, decode_request, encode_request, encode_response,
    request_from_value, request_value, DecodeError,
};
use securedash::protocol::{
    Command, CommandRequest, CommandResponse, DeviceInfo, File, Response,
};

fn request(id: &str, command: Command) -> CommandRequest {
    CommandRequest { id: id.to_string(), command }
}

fn response(id: &str, response: Response) -> CommandResponse {
    CommandResponse { id: id.to_string(), response }
}

fn all_commands() -> Vec<Command> {
    vec![
        Command::GetInfo,
        Command::Reboot,
        Command::ListFiles { path: "/".to_string() },
        Command::ListFiles { path: "dir with \"quotes\" and \\ slashes".to_string() },
        Command::FetchFile { path: "missing.bin".to_string(), chunk_size: 1024 },
        Command::FetchFile { path: "\u{65e5}\u{672c}\u{8a9e}.bin".to_string(), chunk_size: u64::MAX },
        Command::FetchFile { path: String::new(), chunk_size: 0 },
    ]
}

#[test]
fn decode_list_files_request() {
    let text = r#"{"id":"1","command":{"type":"ListFiles","path":"/"}}"#;
    assert_eq!(
        decode_request(text),
        Ok(request("1", Command::ListFiles { path: "/".to_string() }))
    );
}

#[test]
fn decode_fetch_file_request() {
    let text = r#"{"id":"2","command":{"type":"FetchFile","path":"missing.bin","chunk_size":1024}}"#;
    assert_eq!(
        decode_request(text),
        Ok(request("2", Command::FetchFile { path: "missing.bin".to_string(), chunk_size: 1024 }))
    );
}

#[test]
fn decode_commands_without_fields() {
    assert_eq!(
        decode_request(r#"{"id":"a","command":{"type":"GetInfo"}}"#),
        Ok(request("a", Command::GetInfo))
    );
    assert_eq!(
        decode_request(r#" { "command" : { "type" : "Reboot" } , "id" : "b" } "#),
        Ok(request("b", Command::Reboot))
    );
}

#[test]
fn decode_ignores_members_outside_the_schema() {
    let text = r#"{"id":"3","extra":[1,2.5,null],"command":{"type":"ListFiles","path":"sub","depth":4}}"#;
    assert_eq!(
        decode_request(text),
        Ok(request("3", Command::ListFiles { path: "sub".to_string() }))
    );
}

#[test]
fn decode_rejects_what_is_no_json() {
    assert_eq!(decode_request(""), Err(DecodeError::NotJson));
    assert_eq!(decode_request("hello"), Err(DecodeError::NotJson));
    assert_eq!(decode_request(r#"{"id":"1","command":"#), Err(DecodeError::NotJson));
    assert_eq!(decode_request(r#"{"id":"1"} trailing"#), Err(DecodeError::NotJson));
}

#[test]
fn decode_rejects_a_missing_or_wrong_id() {
    assert_eq!(
        decode_request(r#"{"command":{"type":"GetInfo"}}"#),
        Err(DecodeError::MissingId)
    );
    assert_eq!(
        decode_request(r#"{"id":7,"command":{"type":"GetInfo"}}"#),
        Err(DecodeError::MissingId)
    );
    assert_eq!(decode_request("[]"), Err(DecodeError::MissingId));
    assert_eq!(decode_request("null"), Err(DecodeError::MissingId));
}

#[test]
fn decode_rejects_a_missing_command() {
    assert_eq!(decode_request(r#"{"id":"1"}"#), Err(DecodeError::MissingCommand));
}

#[test]
fn decode_rejects_a_missing_or_unknown_type() {
    assert_eq!(decode_request(r#"{"id":"1","command":{}}"#), Err(DecodeError::MissingType));
    assert_eq!(decode_request(r#"{"id":"1","command":"GetInfo"}"#), Err(DecodeError::MissingType));
    assert_eq!(
        decode_request(r#"{"id":"1","command":{"type":5}}"#),
        Err(DecodeError::MissingType)
    );
    assert_eq!(
        decode_request(r#"{"id":"1","command":{"type":"Format"}}"#),
        Err(DecodeError::UnknownCommand)
    );
    assert_eq!(
        decode_request(r#"{"id":"1","command":{"type":"getinfo"}}"#),
        Err(DecodeError::UnknownCommand)
    );
}

#[test]
fn decode_rejects_missing_fields_of_a_command() {
    assert_eq!(
        decode_request(r#"{"id":"1","command":{"type":"ListFiles"}}"#),
        Err(DecodeError::MissingPath)
    );
    assert_eq!(
        decode_request(r#"{"id":"1","command":{"type":"ListFiles","path":3}}"#),
        Err(DecodeError::MissingPath)
    );
    assert_eq!(
        decode_request(r#"{"id":"1","command":{"type":"FetchFile","chunk_size":4}}"#),
        Err(DecodeError::MissingPath)
    );
    assert_eq!(
        decode_request(r#"{"id":"1","command":{"type":"FetchFile","path":"a"}}"#),
        Err(DecodeError::MissingChunkSize)
    );
    assert_eq!(
        decode_request(r#"{"id":"1","command":{"type":"FetchFile","path":"a","chunk_size":-1}}"#),
        Err(DecodeError::MissingChunkSize)
    );
    assert_eq!(
        decode_request(r#"{"id":"1","command":{"type":"FetchFile","path":"a","chunk_size":1.5}}"#),
        Err(DecodeError::MissingChunkSize)
    );
    assert_eq!(
        decode_request(r#"{"id":"1","command":{"type":"FetchFile","path":"a","chunk_size":"4"}}"#),
        Err(DecodeError::MissingChunkSize)
    );
}

#[test]
fn decode_takes_the_largest_chunk_size() {
    assert_eq!(
        decode_request(
            r#"{"id":"1","command":{"type":"FetchFile","path":"a","chunk_size":18446744073709551615}}"#
        ),
        Ok(request("1", Command::FetchFile { path: "a".to_string(), chunk_size: u64::MAX }))
    );
    assert_eq!(
        decode_request(
            r#"{"id":"1","command":{"type":"FetchFile","path":"a","chunk_size":18446744073709551616}}"#
        ),
        Err(DecodeError::MissingChunkSize)
    );
}

#[test]
fn encode_request_texts() {
    assert_eq!(
        encode_request(&request("1", Command::ListFiles { path: "/".to_string() })).unwrap(),
        r#"{"id":"1","command":{"type":"ListFiles","path":"/"}}"#
    );
    assert_eq!(
        encode_request(&request(
            "2",
            Command::FetchFile { path: "missing.bin".to_string(), chunk_size: 1024 }
        ))
        .unwrap(),
        r#"{"id":"2","command":{"type":"FetchFile","path":"missing.bin","chunk_size":1024}}"#
    );
    assert_eq!(
        encode_request(&request("3", Command::GetInfo)).unwrap(),
        r#"{"id":"3","command":{"type":"GetInfo"}}"#
    );
    assert_eq!(
        encode_request(&request("4", Command::Reboot)).unwrap(),
        r#"{"id":"4","command":{"type":"Reboot"}}"#
    );
}

#[test]
fn request_round_trip_through_text() {
    for (index, command) in all_commands().into_iter().enumerate() {
        let wanted = request(&format!("id-{}\n\"{}\"", index, index), command);
        let text = encode_request(&wanted).unwrap();
        assert_eq!(decode_request(&text), Ok(wanted));
    }
}

#[test]
fn request_round_trip_through_the_document() {
    for command in all_commands() {
        let wanted = request("token", command);
        let value = request_value(&wanted);
        assert_eq!(request_from_value(&value), Ok(wanted.clone()));
        assert_eq!(
            command_from_value(value.get("command").unwrap()),
            Ok(wanted.command)
        );
    }
}

#[test]
fn encode_responses_without_payload() {
    assert_eq!(
        encode_response(&response("1", Response::Reboot)).unwrap(),
        r#"{"id":"1","response":{"type":"Reboot"}}"#
    );
    assert_eq!(
        encode_response(&response("2", Response::Error { message: "no \"such\" file".to_string() }))
            .unwrap(),
        r#"{"id":"2","response":{"type":"Error","message":"no \"such\" file"}}"#
    );
}

#[test]
fn encode_list_files_response() {
    let listed = response(
        "1",
        Response::ListFiles {
            path: "/".to_string(),
            files: vec![
                File {
                    path: "a.txt".to_string(),
                    size: 10,
                    modified_at: 1_700_000_000_123,
                    created_at: 0,
                    is_dir: false,
                },
                File {
                    path: "sub".to_string(),
                    size: 0,
                    modified_at: -1,
                    created_at: i64::MIN,
                    is_dir: true,
                },
            ],
        },
    );
    assert_eq!(
        encode_response(&listed).unwrap(),
        concat_all(&[
            r#"{"id":"1","response":{"type":"ListFiles","path":"/","files":["#,
            r#"{"path":"a.txt","size":10,"modified_at":1700000000123,"created_at":0,"is_dir":false},"#,
            r#"{"path":"sub","size":0,"modified_at":-1,"created_at":-9223372036854775808,"is_dir":true}"#,
            r#"]}}"#,
        ])
    );
    assert_eq!(
        encode_response(&response(
            "2",
            Response::ListFiles { path: "empty".to_string(), files: vec![] }
        ))
        .unwrap(),
        r#"{"id":"2","response":{"type":"ListFiles","path":"empty","files":[]}}"#
    );
}

fn concat_all(parts: &[&str]) -> String {
    let mut text = String::new();
    for part in parts {
        text.push_str(part);
    }
    text
}

#[test]
fn encode_get_info_response() {
    let info = response(
        "9",
        Response::GetInfo {
            device_info: DeviceInfo {
                version: "0.1.0".to_string(),
                wifi_ip: "192.168.1.20".to_string(),
                mount_path: "/disk".to_string(),
                local_time: 1_700_000_000_000,
                total_volume_size: u64::MAX,
                free_volume_size: 0,
            },
        },
    );
    assert_eq!(
        encode_response(&info).unwrap(),
        concat_all(&[
            r#"{"id":"9","response":{"type":"GetInfo","device_info":{"#,
            r#""version":"0.1.0","wifi_ip":"192.168.1.20","mount_path":"/disk","#,
            r#""local_time":1700000000000,"total_volume_size":18446744073709551615,"#,
            r#""free_volume_size":0}}}"#,
        ])
    );
}

#[test]
fn encode_chunk_as_text_lists_its_bytes() {
    let chunk = response(
        "c",
        Response::FetchFileChunk { offset: 4, data: vec![0, 127, 255], is_final: true },
    );
    assert_eq!(
        encode_response(&chunk).unwrap(),
        r#"{"id":"c","response":{"type":"FetchFileChunk","offset":4,"data":[0,127,255],"is_final":true}}"#
    );
}

#[test]
fn response_document_keeps_the_order_of_members() {
    let value = command_response_value(&response(
        "1",
        Response::Error { message: "m".to_string() },
    ));
    let members: Vec<&String> = value.as_object().unwrap().keys().collect();
    assert_eq!(members, vec!["id", "response"]);
    let inner: Vec<&String> = value["response"].as_object().unwrap().keys().collect();
    assert_eq!(inner, vec!["type", "message"]);
}

#[test]
fn decode_takes_the_last_of_a_member_named_twice() {
    assert_eq!(
        decode_request(r#"{"id":"1","id":"2","command":{"type":"GetInfo"}}"#),
        Ok(request("2", Command::GetInfo))
    );
    assert_eq!(
        decode_request(
            r#"{"id":"1","command":{"type":"ListFiles","path":"a","path":"b","type":"Reboot"}}"#
        ),
        Ok(request("1", Command::Reboot))
    );
}

#[test]
fn decode_reads_numbers_as_they_are_held() {
    assert_eq!(
        decode_request(r#"{"id":"1","command":{"type":"FetchFile","path":"a","chunk_size":0}}"#),
        Ok(request("1", Command::FetchFile { path: "a".to_string(), chunk_size: 0 }))
    );
    assert_eq!(
        decode_request(r#"{"id":"1","command":{"type":"FetchFile","path":"a","chunk_size":-0}}"#),
        Err(DecodeError::MissingChunkSize)
    );
    assert_eq!(
        decode_request(r#"{"id":"1","command":{"type":"FetchFile","path":"a","chunk_size":4.0}}"#),
        Err(DecodeError::MissingChunkSize)
    );
    assert_eq!(
        decode_request(r#"{"id":"1","command":{"type":"FetchFile","path":"a","chunk_size":4e0}}"#),
        Err(DecodeError::MissingChunkSize)
    );
}
