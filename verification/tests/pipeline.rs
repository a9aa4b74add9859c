use cid::multihash::Multihash;
use cid::Cid;
use ciborium::Value;
use drainpipe::db::{get_seq, DeadLetter, ProcessError, ProcessErrorKind, Store};
use drainpipe::firehose::{
    read, SubscribeRepos, SubscribeReposAccount, SubscribeReposCommitOperation,
    SubscribeReposCommitOperationAction,
};
use drainpipe::ingest::{
    apply, bearer, body_for, conclude, inspect, resume_url, sink_outcome, start, step, Command,
    ConsumerBody, Inspection, LoopState, Settings, Signal, SinkReply, StoreWrite, Transition,
    BACKOFF_MILLIS,
};
use drainpipe::select::select_operations;
use ipld_core::ipld::Ipld;
use std::collections::BTreeMap;

const PREFIX: &str = "fyi.unravel.frontpage.";

fn content_ref(fill: u8) -> Cid {
    Cid::new_v1(0x71, Multihash::<64>::wrap(0x12, &[fill; 32]).unwrap())
}

fn settings() -> Settings {
    Settings {
        stream_url: "wss://bsky.network/xrpc/com.atproto.sync.subscribeRepos".to_string(),
        namespace_prefix: PREFIX.to_string(),
    }
}

fn operation(path: &str, action: &str) -> Ipld {
    let mut map = BTreeMap::new();
    map.insert("path".to_string(), Ipld::String(path.to_string()));
    map.insert("action".to_string(), Ipld::String(action.to_string()));
    map.insert("cid".to_string(), Ipld::Link(content_ref(9)));
    Ipld::Map(map)
}

fn frame(type_: &str, fields: Vec<(&str, Ipld)>) -> Vec<u8> {
    let mut out = Vec::new();
    let header = Value::Map(vec![
        (Value::Text("t".to_string()), Value::Text(type_.to_string())),
        (Value::Text("op".to_string()), Value::Integer(1.into())),
    ]);
    ciborium::ser::into_writer(&header, &mut out).unwrap();
    let mut map = BTreeMap::new();
    for (key, value) in fields {
        map.insert(key.to_string(), value);
    }
    out.extend(serde_ipld_dagcbor::to_vec(&Ipld::Map(map)).unwrap());
    out
}

fn commit(seq: i64, paths: &[&str]) -> Vec<u8> {
    frame(
        "#commit",
        vec![
            ("ops", Ipld::List(paths.iter().map(|p| operation(p, "create")).collect())),
            ("repo", Ipld::String("did:plc:alice".to_string())),
            ("seq", Ipld::Integer(seq as i128)),
            ("blocks", Ipld::Bytes(vec![])),
            ("commit", Ipld::Link(content_ref(1))),
            ("rebase", Ipld::Bool(false)),
            ("tooBig", Ipld::Bool(false)),
            ("time", Ipld::String("2024-05-01T12:00:00Z".to_string())),
        ],
    )
}

fn op(path: &str) -> SubscribeReposCommitOperation {
    SubscribeReposCommitOperation {
        path: path.to_string(),
        action: SubscribeReposCommitOperationAction::Create,
        cid: Some(content_ref(9)),
    }
}

/// Runs the loop over one connection that delivers `frames` and then closes.
/// The sink answers each request with the next of `statuses`. Returns the
/// addresses that were connected to and the bodies that the sink was sent.
fn run(
    store: &mut Store,
    frames: Vec<Signal>,
    statuses: Vec<u16>,
) -> (Vec<String>, Vec<ConsumerBody>, LoopState) {
    let settings = settings();
    let mut frames = frames.into_iter();
    let mut statuses = statuses.into_iter();
    let mut urls = Vec::new();
    let mut sent = Vec::new();
    let (mut state, mut command) = start();
    loop {
        let signal = match command {
            Command::ReadCursor { .. } => {
                if !urls.is_empty() {
                    return (urls, sent, state);
                }
                Signal::Cursor(get_seq(store))
            }
            Command::Connect { url } => {
                urls.push(url);
                Signal::Connected
            }
            Command::Receive => frames.next().unwrap_or(Signal::StreamClosed),
            Command::Dispatch(body) => {
                sent.push(body);
                Signal::Sink(SinkReply::Status(statuses.next().unwrap()))
            }
        };
        let Transition { next, write, command: then } = step(state, signal, &settings);
        apply(store, &write);
        state = next;
        command = then;
    }
}

#[test]
fn selects_matching_operations_in_order() {
    let bytes = commit(
        3,
        &[
            "fyi.unravel.frontpage.post/1",
            "app.bsky.feed.post/2",
            "fyi.unravel.frontpage.comment/3",
            "fyi.unravel.frontpag/4",
            "fyi.unravel.frontpage.vote/5",
        ],
    );
    let (_, event) = read(&bytes).unwrap();
    let selected = select_operations(&event, PREFIX).unwrap();
    let paths: Vec<&str> = selected.iter().map(|o| o.path.as_str()).collect();
    assert_eq!(
        paths,
        vec![
            "fyi.unravel.frontpage.post/1",
            "fyi.unravel.frontpage.comment/3",
            "fyi.unravel.frontpage.vote/5"
        ]
    );
    assert_eq!(select_operations(&event, "app.bsky.").unwrap().len(), 1);
    assert_eq!(select_operations(&event, "").unwrap().len(), 5);
    assert!(select_operations(&event, "nothing.").is_none());
}

#[test]
fn selects_nothing_where_there_is_nothing() {
    let (_, empty) = read(&commit(3, &[])).unwrap();
    assert!(select_operations(&empty, PREFIX).is_none());
    assert!(select_operations(&empty, "").is_none());
    let account = SubscribeRepos::Account(SubscribeReposAccount { sequence: 4 });
    assert!(select_operations(&account, "").is_none());
    assert_eq!(body_for(&account, ""), None);
}

#[test]
fn body_for_the_sink() {
    let (_, event) =
        read(&commit(77, &["x/1", "fyi.unravel.frontpage.post/2", "fyi.unravel.frontpage.post/3"]))
            .unwrap();
    let body = body_for(&event, PREFIX).unwrap();
    assert_eq!(
        body,
        ConsumerBody {
            ops: vec![op("fyi.unravel.frontpage.post/2"), op("fyi.unravel.frontpage.post/3")],
            repo: "did:plc:alice".to_string(),
            seq: 77,
        }
    );
    assert_eq!(body.sequence_text(), "77");
    assert_eq!(bearer("s3cr3t"), "Bearer s3cr3t");
}

#[test]
fn sink_replies_are_judged() {
    assert_eq!(sink_outcome(&SinkReply::Status(200)), Ok(()));
    assert_eq!(sink_outcome(&SinkReply::Status(204)), Ok(()));
    assert_eq!(sink_outcome(&SinkReply::Status(299)), Ok(()));
    assert_eq!(
        sink_outcome(&SinkReply::Status(300)),
        Err("Failed to send frontpage ops: 300".to_string())
    );
    assert_eq!(
        sink_outcome(&SinkReply::Status(199)),
        Err("Failed to send frontpage ops: 199".to_string())
    );
    assert_eq!(
        sink_outcome(&SinkReply::Status(500)),
        Err("Failed to send frontpage ops: 500".to_string())
    );
    assert_eq!(
        sink_outcome(&SinkReply::Failed("connection refused".to_string())),
        Err("connection refused".to_string())
    );
}

#[test]
fn inspection_of_a_message() {
    let quiet = commit(6, &["app.bsky.feed.post/1"]);
    assert_eq!(inspect(&quiet, PREFIX), Ok(Inspection { sequence: 6, body: None }));
    let loud = commit(7, &["fyi.unravel.frontpage.post/1"]);
    assert_eq!(
        inspect(&loud, PREFIX),
        Ok(Inspection {
            sequence: 7,
            body: Some(ConsumerBody {
                ops: vec![op("fyi.unravel.frontpage.post/1")],
                repo: "did:plc:alice".to_string(),
                seq: 7,
            }),
        })
    );
    let handle = frame(
        "#handle",
        vec![
            ("seq", Ipld::Integer(12)),
            ("did", Ipld::String("d".to_string())),
            ("handle", Ipld::String("h".to_string())),
            ("time", Ipld::String("t".to_string())),
        ],
    );
    assert_eq!(inspect(&handle, ""), Ok(Inspection { sequence: 12, body: None }));
    let unknown = frame("#info", vec![]);
    assert_eq!(
        inspect(&unknown, PREFIX),
        Err(ProcessError {
            seq: -1,
            inner: "Unknown type error: #info".to_string(),
            source: unknown.clone(),
            kind: ProcessErrorKind::DecodeError,
        })
    );
}

#[test]
fn conclusion_of_a_dispatch() {
    assert_eq!(conclude(8, vec![1], &SinkReply::Status(201)), Ok(8));
    assert_eq!(
        conclude(8, vec![1, 2], &SinkReply::Status(503)),
        Err(ProcessError {
            seq: 8,
            inner: "Failed to send frontpage ops: 503".to_string(),
            source: vec![1, 2],
            kind: ProcessErrorKind::ProcessError,
        })
    );
    assert_eq!(
        conclude(-4, vec![], &SinkReply::Failed("timed out".to_string())),
        Err(ProcessError {
            seq: -4,
            inner: "timed out".to_string(),
            source: vec![],
            kind: ProcessErrorKind::ProcessError,
        })
    );
}

#[test]
fn resume_addresses() {
    assert_eq!(resume_url("wss://host/path", 7), "wss://host/path?cursor=7");
    assert_eq!(resume_url("", 0), "?cursor=0");
    assert_eq!(resume_url("ws://h", -12), "ws://h?cursor=-12");
}

#[test]
fn successful_dispatch_moves_the_cursor() {
    let mut store = Store::new(0);
    let bytes = commit(21, &["fyi.unravel.frontpage.post/1"]);
    let (_, sent, _) = run(&mut store, vec![Signal::Binary(bytes)], vec![200]);
    assert_eq!(get_seq(&store), 21);
    assert!(store.dead_letter_queue.is_empty());
    assert_eq!(sent.len(), 1);
    assert_eq!(sent[0].seq, 21);
}

#[test]
fn reprocessing_leaves_the_cursor_at_the_message() {
    let mut store = Store::new(0);
    let bytes = commit(21, &["fyi.unravel.frontpage.post/1"]);
    let frames = vec![Signal::Binary(bytes.clone()), Signal::Binary(bytes)];
    let (_, sent, _) = run(&mut store, frames, vec![200, 200]);
    assert_eq!(get_seq(&store), 21);
    assert!(store.dead_letter_queue.is_empty());
    assert_eq!(sent.len(), 2);
}

#[test]
fn three_commits_of_which_the_last_fails() {
    let mut store = Store::new(5);
    let eight = commit(8, &["fyi.unravel.frontpage.post/8"]);
    let frames = vec![
        Signal::Binary(commit(6, &["app.bsky.feed.post/6"])),
        Signal::Binary(commit(7, &["fyi.unravel.frontpage.post/7"])),
        Signal::Binary(eight.clone()),
    ];
    let (urls, sent, _) = run(&mut store, frames, vec![200, 500]);
    assert_eq!(get_seq(&store), 7);
    assert_eq!(
        store.dead_letter_queue,
        vec![DeadLetter {
            seq: 8,
            err_kind: ProcessErrorKind::ProcessError,
            err_msg: "Failed to send frontpage ops: 500".to_string(),
            source: Some(eight),
        }]
    );
    assert_eq!(sent.iter().map(|b| b.seq).collect::<Vec<i64>>(), vec![7, 8]);
    assert_eq!(sent.iter().filter(|b| b.seq == 7).count(), 1);
    assert_eq!(
        urls,
        vec!["wss://bsky.network/xrpc/com.atproto.sync.subscribeRepos?cursor=5".to_string()]
    );
}

#[test]
fn undecodable_frame_leaves_the_cursor() {
    let mut store = Store::new(5);
    let garbage = vec![0xff, 0xfe, 0xfd];
    let (_, sent, _) = run(&mut store, vec![Signal::Binary(garbage.clone())], vec![]);
    assert_eq!(get_seq(&store), 5);
    assert!(sent.is_empty());
    assert_eq!(store.dead_letter_queue.len(), 1);
    let letter = &store.dead_letter_queue[0];
    assert_eq!(letter.seq, -1);
    assert_eq!(letter.err_kind, ProcessErrorKind::DecodeError);
    assert_eq!(letter.source, Some(garbage));
    assert!(letter.err_msg.starts_with("Header error: "));
}

#[test]
fn reconnect_resumes_behind_the_cursor() {
    let mut store = Store::new(5);
    let frames = vec![
        Signal::Binary(commit(6, &[])),
        Signal::Binary(commit(7, &["fyi.unravel.frontpage.post/7"])),
    ];
    let (_, _, state) = run(&mut store, frames, vec![200]);
    assert_eq!(state, LoopState::Disconnected);
    assert_eq!(get_seq(&store), 7);
    let settings = settings();
    let again = step(state, Signal::Cursor(get_seq(&store)), &settings);
    assert_eq!(
        again,
        Transition {
            next: LoopState::Connecting,
            write: StoreWrite::Nothing,
            command: Command::Connect {
                url: "wss://bsky.network/xrpc/com.atproto.sync.subscribeRepos?cursor=7"
                    .to_string(),
            },
        }
    );
}

#[test]
fn moves_around_the_stream() {
    let settings = settings();
    assert_eq!(start(), (LoopState::Disconnected, Command::ReadCursor { delay_millis: 0 }));
    assert_eq!(BACKOFF_MILLIS, 500);
    let failed = step(LoopState::Connecting, Signal::ConnectFailed, &settings);
    assert_eq!(
        failed,
        Transition {
            next: LoopState::Disconnected,
            write: StoreWrite::Nothing,
            command: Command::ReadCursor { delay_millis: 500 },
        }
    );
    let opened = step(LoopState::Connecting, Signal::Connected, &settings);
    assert_eq!(
        opened,
        Transition {
            next: LoopState::Streaming,
            write: StoreWrite::Nothing,
            command: Command::Receive
        }
    );
    let broke = step(LoopState::Streaming, Signal::StreamError, &settings);
    assert_eq!(broke.command, Command::ReadCursor { delay_millis: 500 });
    assert_eq!(broke.next, LoopState::Disconnected);
    let closed = step(LoopState::Streaming, Signal::StreamClosed, &settings);
    assert_eq!(closed.command, Command::ReadCursor { delay_millis: 0 });
    let text = step(LoopState::Streaming, Signal::NonBinary, &settings);
    assert_eq!(text.next, LoopState::Disconnected);
    assert_eq!(text.write, StoreWrite::Nothing);
    let stray = step(LoopState::Disconnected, Signal::Connected, &settings);
    assert_eq!(stray.next, LoopState::Disconnected);
    assert_eq!(stray.command, Command::ReadCursor { delay_millis: 0 });
    let lost =
        step(LoopState::Dispatching { sequence: 3, source: vec![] }, Signal::StreamClosed, &settings);
    assert_eq!(lost.write, StoreWrite::Nothing);
    assert_eq!(lost.next, LoopState::Disconnected);
}

#[test]
fn a_frame_with_matching_operations_waits_for_the_sink() {
    let settings = settings();
    let bytes = commit(30, &["fyi.unravel.frontpage.post/1"]);
    let asked = step(LoopState::Streaming, Signal::Binary(bytes.clone()), &settings);
    assert_eq!(asked.write, StoreWrite::Nothing);
    assert_eq!(asked.next, LoopState::Dispatching { sequence: 30, source: bytes.clone() });
    let refused =
        step(asked.next, Signal::Sink(SinkReply::Failed("no route".to_string())), &settings);
    assert_eq!(
        refused,
        Transition {
            next: LoopState::Streaming,
            write: StoreWrite::Record(ProcessError {
                seq: 30,
                inner: "no route".to_string(),
                source: bytes,
                kind: ProcessErrorKind::ProcessError,
            }),
            command: Command::Receive,
        }
    );
}
