use securedash::processor::{
    answer, info_response, listing_response, resolve_path, Pending, Processor, ProcessorError,
    Step,
};
use securedash::protocol::{
    Command, CommandRequest, CommandResponse, DeviceInfo, File, Response,
};
use securedash::storage::{DirEntry, StorageReply, StorageRequest};

fn info() -> DeviceInfo {
    DeviceInfo {
        version: "0.1.0".to_string(),
        wifi_ip: "192.168.1.20".to_string(),
        mount_path: "/disk".to_string(),
        local_time: 1_700_000_000_000,
        total_volume_size: 1 << 30,
        free_volume_size: 1 << 20,
    }
}

fn processor() -> Processor<impl Fn() -> Result<DeviceInfo, String>> {
    Processor { device_info_producer: || Ok(info()), root_dir: "/disk".to_string() }
}

fn request(id: &str, command: Command) -> CommandRequest {
    CommandRequest { id: id.to_string(), command }
}

fn entry(name: Option<&str>, size: u64, is_dir: bool) -> DirEntry {
    DirEntry {
        name: name.map(str::to_string),
        size,
        modified_at: 1_700_000_000_123,
        created_at: 0,
        is_dir,
    }
}

/// Answers every pending storage request from `replies` and collects what is sent.
fn drive(first: Step, replies: Vec<StorageReply>) -> (Vec<CommandResponse>, Option<Pending>) {
    let mut sent = Vec::new();
    let mut step = first;
    let mut replies = replies.into_iter();
    loop {
        if let Some(response) = step.response.take() {
            sent.push(response);
        }
        let pending = match step.pending.take() {
            Some(pending) => pending,
            None => return (sent, None),
        };
        match replies.next() {
            Some(reply) => step = pending.resume(reply),
            None => return (sent, Some(pending)),
        }
    }
}

fn windows(content: &[u8], chunk_size: usize) -> Vec<StorageReply> {
    content.chunks(chunk_size).map(|window| StorageReply::Chunk(Ok(window.to_vec()))).collect()
}

fn chunk(id: &str, offset: u64, data: &[u8], is_final: bool) -> CommandResponse {
    CommandResponse {
        id: id.to_string(),
        response: Response::FetchFileChunk { offset, data: data.to_vec(), is_final },
    }
}

#[test]
fn resolve_path_examples() {
    assert_eq!(resolve_path("/disk", "/"), "/disk");
    assert_eq!(resolve_path("/disk", ""), "/disk");
    assert_eq!(resolve_path("/disk", "sub"), "/disk/sub");
    assert_eq!(resolve_path("/disk", "/sub/inner"), "/disk/sub/inner");
    assert_eq!(resolve_path("/disk", "///sub"), "/disk/sub");
    assert_eq!(resolve_path("/disk/", "sub"), "/disk/sub");
    assert_eq!(resolve_path("", "sub"), "/sub");
    assert_eq!(resolve_path("/d\u{00e9}p\u{00f4}t", "/\u{00e9}t\u{00e9}"), "/d\u{00e9}p\u{00f4}t/\u{00e9}t\u{00e9}");
}

#[test]
fn get_info_wraps_the_snapshot() {
    let processor = processor();
    assert_eq!(processor.get_info(), Ok(Response::GetInfo { device_info: info() }));
    let step = processor.process(&request("7", Command::GetInfo));
    assert_eq!(
        step,
        Step {
            response: Some(CommandResponse {
                id: "7".to_string(),
                response: Response::GetInfo { device_info: info() },
            }),
            pending: None,
        }
    );
}

#[test]
fn get_info_failure_becomes_an_error_response() {
    let processor = Processor {
        device_info_producer: || Err::<DeviceInfo, String>("volume not mounted".to_string()),
        root_dir: "/disk".to_string(),
    };
    assert_eq!(
        processor.get_info(),
        Err(ProcessorError::DeviceInfo { message: "volume not mounted".to_string() })
    );
    let step = processor.process(&request("8", Command::GetInfo));
    assert_eq!(
        step.response,
        Some(CommandResponse {
            id: "8".to_string(),
            response: Response::Error { message: "volume not mounted".to_string() },
        })
    );
    assert_eq!(step.pending, None);
}

#[test]
fn info_response_maps_both_outcomes() {
    assert_eq!(info_response(Ok(info())), Ok(Response::GetInfo { device_info: info() }));
    assert_eq!(
        info_response(Err("boom".to_string())),
        Err(ProcessorError::DeviceInfo { message: "boom".to_string() })
    );
}

#[test]
fn reboot_is_acknowledged_once() {
    let processor = processor();
    assert_eq!(processor.reboot(), Ok(Response::Reboot));
    let step = processor.process(&request("9", Command::Reboot));
    assert_eq!(
        step,
        Step {
            response: Some(CommandResponse { id: "9".to_string(), response: Response::Reboot }),
            pending: None,
        }
    );
}

#[test]
fn list_files_of_the_root() {
    let processor = processor();
    let step = processor.process(&request("1", Command::ListFiles { path: "/".to_string() }));
    assert_eq!(step.response, None);
    let pending = step.pending.clone().unwrap();
    assert_eq!(pending.request(), StorageRequest::ListDir { path: "/disk".to_string() });
    let listing = StorageReply::Listing(Ok(vec![
        entry(Some("a.txt"), 10, false),
        entry(Some("sub"), 0, true),
    ]));
    let (sent, left) = drive(step, vec![listing]);
    assert_eq!(left, None);
    assert_eq!(sent.len(), 1);
    assert_eq!(sent[0].id, "1");
    match &sent[0].response {
        Response::ListFiles { path, files } => {
            assert_eq!(path, "/");
            assert_eq!(files.len(), 2);
            let a = files.iter().find(|file| file.path == "a.txt").unwrap();
            assert_eq!(a.size, 10);
            assert!(!a.is_dir);
            assert_eq!(a.modified_at, 1_700_000_000_123);
            assert_eq!(a.created_at, 0);
            let sub = files.iter().find(|file| file.path == "sub").unwrap();
            assert!(sub.is_dir);
        }
        other => panic!("unexpected response {:?}", other),
    }
}

#[test]
fn list_files_below_the_root() {
    let processor = processor();
    let step = processor.list_files("2", "sub/inner");
    assert_eq!(
        step.pending,
        Some(Pending::Listing {
            id: "2".to_string(),
            path: "sub/inner".to_string(),
            dir: "/disk/sub/inner".to_string(),
        })
    );
}

#[test]
fn listing_skips_undecodable_names_and_keeps_order() {
    let listing = Ok(vec![
        entry(Some("b"), 2, false),
        entry(None, 99, false),
        entry(Some("a"), 1, true),
    ]);
    assert_eq!(
        listing_response("dir", listing),
        Ok(Response::ListFiles {
            path: "dir".to_string(),
            files: vec![
                File {
                    path: "b".to_string(),
                    size: 2,
                    modified_at: 1_700_000_000_123,
                    created_at: 0,
                    is_dir: false,
                },
                File {
                    path: "a".to_string(),
                    size: 1,
                    modified_at: 1_700_000_000_123,
                    created_at: 0,
                    is_dir: true,
                },
            ],
        })
    );
}

#[test]
fn listing_of_an_empty_directory() {
    assert_eq!(
        listing_response("/", Ok(vec![])),
        Ok(Response::ListFiles { path: "/".to_string(), files: vec![] })
    );
}

#[test]
fn listing_failure_is_an_io_error() {
    assert_eq!(
        listing_response("/gone", Err("No such file or directory (os error 2)".to_string())),
        Err(ProcessorError::IoError {
            message: "No such file or directory (os error 2)".to_string()
        })
    );
    let step = processor().list_files("3", "/gone");
    let (sent, left) =
        drive(step, vec![StorageReply::Listing(Err("No such file or directory".to_string()))]);
    assert_eq!(left, None);
    assert_eq!(
        sent,
        vec![CommandResponse {
            id: "3".to_string(),
            response: Response::Error { message: "No such file or directory".to_string() },
        }]
    );
}

#[test]
fn fetch_of_a_missing_file_yields_one_error() {
    let processor = processor();
    let step = processor.process(&request(
        "2",
        Command::FetchFile { path: "missing.bin".to_string(), chunk_size: 1024 },
    ));
    assert_eq!(step.response, None);
    assert_eq!(
        step.pending.as_ref().unwrap().request(),
        StorageRequest::OpenFile { path: "missing.bin".to_string() }
    );
    let (sent, left) = drive(
        step,
        vec![StorageReply::Opened(Err("No such file or directory (os error 2)".to_string()))],
    );
    assert_eq!(left, None);
    assert_eq!(sent.len(), 1);
    assert_eq!(sent[0].id, "2");
    match &sent[0].response {
        Response::Error { message } => assert!(!message.is_empty()),
        other => panic!("unexpected response {:?}", other),
    }
}

#[test]
fn fetch_sends_whole_windows_in_order() {
    let content: Vec<u8> = (0..10).collect();
    let step = processor().fetch_file("f", "data.bin", 4);
    let mut replies = vec![StorageReply::Opened(Ok(10))];
    replies.extend(windows(&content, 4));
    let (sent, left) = drive(step, replies);
    assert_eq!(left, None);
    assert_eq!(
        sent,
        vec![
            chunk("f", 0, &[0, 1, 2, 3], false),
            chunk("f", 4, &[4, 5, 6, 7], false),
            chunk("f", 8, &[8, 9], true),
        ]
    );
}

#[test]
fn fetch_of_an_exact_multiple_ends_on_the_last_window() {
    let content: Vec<u8> = (0..8).collect();
    let step = processor().fetch_file("f", "data.bin", 4);
    let mut replies = vec![StorageReply::Opened(Ok(8))];
    replies.extend(windows(&content, 4));
    let (sent, left) = drive(step, replies);
    assert_eq!(left, None);
    assert_eq!(
        sent,
        vec![chunk("f", 0, &[0, 1, 2, 3], false), chunk("f", 4, &[4, 5, 6, 7], true)]
    );
}

#[test]
fn fetch_chunk_lengths_add_up_to_the_file_size() {
    for (size, chunk_size) in [(1usize, 1usize), (1, 7), (7, 1), (100, 33), (64, 64), (65, 64)] {
        let content: Vec<u8> = (0..size).map(|byte| byte as u8).collect();
        let step = processor().fetch_file("n", "data.bin", chunk_size as u64);
        let mut replies = vec![StorageReply::Opened(Ok(size as u64))];
        replies.extend(windows(&content, chunk_size));
        let (sent, left) = drive(step, replies);
        assert_eq!(left, None);
        assert_eq!(sent.len(), (size + chunk_size - 1) / chunk_size);
        let mut total = 0usize;
        let mut joined = Vec::new();
        for (index, response) in sent.iter().enumerate() {
            match &response.response {
                Response::FetchFileChunk { offset, data, is_final } => {
                    assert_eq!(*offset, (index * chunk_size) as u64);
                    assert_eq!(*is_final, index == sent.len() - 1);
                    total += data.len();
                    joined.extend_from_slice(data);
                }
                other => panic!("unexpected response {:?}", other),
            }
        }
        assert_eq!(total, size);
        assert_eq!(joined, content);
    }
}

#[test]
fn fetch_follows_the_bytes_actually_read() {
    let step = processor().fetch_file("s", "data.bin", 4);
    let replies = vec![
        StorageReply::Opened(Ok(10)),
        StorageReply::Chunk(Ok(vec![0, 1, 2])),
        StorageReply::Chunk(Ok(vec![3])),
        StorageReply::Chunk(Ok(vec![4, 5, 6, 7])),
        StorageReply::Chunk(Ok(vec![8, 9])),
    ];
    let (sent, left) = drive(step, replies);
    assert_eq!(left, None);
    assert_eq!(
        sent,
        vec![
            chunk("s", 0, &[0, 1, 2], false),
            chunk("s", 3, &[3], false),
            chunk("s", 4, &[4, 5, 6, 7], false),
            chunk("s", 8, &[8, 9], true),
        ]
    );
}

#[test]
fn fetch_asks_for_one_chunk_at_a_time() {
    let step = processor().fetch_file("q", "data.bin", 512);
    let step = step.pending.unwrap().resume(StorageReply::Opened(Ok(2000)));
    assert_eq!(step.response, None);
    let pending = step.pending.unwrap();
    assert_eq!(
        pending,
        Pending::Streaming { id: "q".to_string(), chunk_size: 512, file_size: 2000, offset: 0 }
    );
    assert_eq!(pending.request(), StorageRequest::ReadChunk { max_len: 512 });
    let step = pending.resume(StorageReply::Chunk(Ok(vec![7; 512])));
    assert_eq!(
        step.pending,
        Some(Pending::Streaming {
            id: "q".to_string(),
            chunk_size: 512,
            file_size: 2000,
            offset: 512,
        })
    );
}

#[test]
fn fetch_of_an_empty_file_sends_one_final_chunk() {
    let step = processor().fetch_file("e", "empty.bin", 16);
    let (sent, left) = drive(step, vec![StorageReply::Opened(Ok(0))]);
    assert_eq!(sent, vec![chunk("e", 0, &[], true)]);
    assert_eq!(left, None);
}

#[test]
fn every_fetch_ends_on_a_final_chunk() {
    for size in [0usize, 1, 3, 4, 5, 8, 9] {
        let content: Vec<u8> = (0..size).map(|byte| byte as u8).collect();
        let step = processor().fetch_file("l", "data.bin", 4);
        let mut replies = vec![StorageReply::Opened(Ok(size as u64))];
        replies.extend(windows(&content, 4));
        let (sent, left) = drive(step, replies);
        assert_eq!(left, None);
        match &sent.last().unwrap().response {
            Response::FetchFileChunk { is_final, .. } => assert!(*is_final),
            other => panic!("unexpected response {:?}", other),
        }
        let finals = sent
            .iter()
            .filter(|response| {
                matches!(response.response, Response::FetchFileChunk { is_final: true, .. })
            })
            .count();
        assert_eq!(finals, 1);
    }
}

#[test]
fn failure_without_a_message_is_still_described() {
    let step = processor().fetch_file("m", "data.bin", 4);
    let (sent, _) = drive(step, vec![StorageReply::Opened(Err(String::new()))]);
    assert_eq!(
        sent,
        vec![CommandResponse {
            id: "m".to_string(),
            response: Response::Error { message: "storage failed without a message".to_string() },
        }]
    );
    let silent = Processor {
        device_info_producer: || Err::<DeviceInfo, String>(String::new()),
        root_dir: "/disk".to_string(),
    };
    let step = silent.process(&request("n", Command::GetInfo));
    assert_eq!(
        step.response,
        Some(CommandResponse {
            id: "n".to_string(),
            response: Response::Error {
                message: "device information is not available".to_string()
            },
        })
    );
    assert_eq!(
        ProcessorError::IoError { message: String::new() }.message(),
        "storage failed without a message"
    );
    assert_eq!(
        ProcessorError::DeviceInfo { message: String::new() }.message(),
        "device information is not available"
    );
}

#[test]
fn fetch_with_chunk_size_zero_is_refused() {
    let step = processor().process(&request(
        "z",
        Command::FetchFile { path: "data.bin".to_string(), chunk_size: 0 },
    ));
    assert_eq!(step.pending, None);
    assert_eq!(
        step.response,
        Some(CommandResponse {
            id: "z".to_string(),
            response: Response::Error {
                message: "chunk size must be greater than zero".to_string()
            },
        })
    );
}

#[test]
fn read_error_mid_stream_ends_with_one_error() {
    let step = processor().fetch_file("r", "data.bin", 4);
    let replies = vec![
        StorageReply::Opened(Ok(10)),
        StorageReply::Chunk(Ok(vec![0, 1, 2, 3])),
        StorageReply::Chunk(Err("Input/output error (os error 5)".to_string())),
        StorageReply::Chunk(Ok(vec![4, 5, 6, 7])),
    ];
    let (sent, left) = drive(step, replies);
    assert_eq!(left, None);
    assert_eq!(
        sent,
        vec![
            chunk("r", 0, &[0, 1, 2, 3], false),
            CommandResponse {
                id: "r".to_string(),
                response: Response::Error {
                    message: "Input/output error (os error 5)".to_string()
                },
            },
        ]
    );
}

#[test]
fn read_of_no_bytes_before_the_end_is_an_error() {
    let step = processor().fetch_file("t", "data.bin", 4);
    let replies = vec![
        StorageReply::Opened(Ok(10)),
        StorageReply::Chunk(Ok(vec![0, 1, 2, 3])),
        StorageReply::Chunk(Ok(vec![])),
    ];
    let (sent, left) = drive(step, replies);
    assert_eq!(left, None);
    assert_eq!(sent.len(), 2);
    assert_eq!(
        sent[1].response,
        Response::Error { message: "file ended before its reported size".to_string() }
    );
}

#[test]
fn read_past_the_reported_size_is_final() {
    let pending =
        Pending::Streaming { id: "p".to_string(), chunk_size: 8, file_size: 5, offset: 0 };
    let step = pending.resume(StorageReply::Chunk(Ok(vec![1; 8])));
    assert_eq!(step.response, Some(chunk("p", 0, &[1; 8], true)));
    assert_eq!(step.pending, None);
}

#[test]
fn offsets_near_the_largest_file_size_do_not_wrap() {
    let pending = Pending::Streaming {
        id: "m".to_string(),
        chunk_size: 4,
        file_size: u64::MAX,
        offset: u64::MAX - 2,
    };
    let step = pending.resume(StorageReply::Chunk(Ok(vec![1, 2, 3, 4])));
    assert_eq!(step.response, Some(chunk("m", u64::MAX - 2, &[1, 2, 3, 4], true)));
    assert_eq!(step.pending, None);
    let pending = Pending::Streaming {
        id: "m".to_string(),
        chunk_size: 4,
        file_size: u64::MAX,
        offset: u64::MAX - 2,
    };
    let step = pending.resume(StorageReply::Chunk(Ok(vec![1])));
    assert_eq!(
        step.pending,
        Some(Pending::Streaming {
            id: "m".to_string(),
            chunk_size: 4,
            file_size: u64::MAX,
            offset: u64::MAX - 1,
        })
    );
}

#[test]
fn reply_to_another_request_ends_the_exchange() {
    let pending = Pending::Listing {
        id: "u".to_string(),
        path: "/".to_string(),
        dir: "/disk".to_string(),
    };
    let step = pending.resume(StorageReply::Opened(Ok(3)));
    assert_eq!(step.pending, None);
    assert_eq!(
        step.response,
        Some(CommandResponse {
            id: "u".to_string(),
            response: Response::Error {
                message: "storage reply does not match the pending request".to_string()
            },
        })
    );
    let pending = Pending::Opening { id: "v".to_string(), path: "x".to_string(), chunk_size: 1 };
    assert_eq!(pending.resume(StorageReply::Chunk(Ok(vec![1]))).pending, None);
    let pending =
        Pending::Streaming { id: "w".to_string(), chunk_size: 1, file_size: 2, offset: 0 };
    let step = pending.resume(StorageReply::Listing(Ok(vec![])));
    assert_eq!(step.pending, None);
    assert_eq!(step.response.unwrap().id, "w");
}

#[test]
fn answer_echoes_the_token() {
    assert_eq!(
        answer("abc", Ok(Response::Reboot)),
        CommandResponse { id: "abc".to_string(), response: Response::Reboot }
    );
    assert_eq!(
        answer("abc", Err(ProcessorError::IoError { message: "denied".to_string() })),
        CommandResponse {
            id: "abc".to_string(),
            response: Response::Error { message: "denied".to_string() },
        }
    );
}

#[test]
fn every_error_has_a_message() {
    let errors = [
        ProcessorError::DeviceInfo { message: "a".to_string() },
        ProcessorError::IoError { message: "b".to_string() },
        ProcessorError::InvalidChunkSize,
        ProcessorError::UnexpectedEof,
        ProcessorError::UnexpectedReply,
    ];
    let messages: Vec<String> = errors.iter().map(ProcessorError::message).collect();
    assert_eq!(
        messages,
        vec![
            "a",
            "b",
            "chunk size must be greater than zero",
            "file ended before its reported size",
            "storage reply does not match the pending request",
        ]
    );
}
