use cid::multihash::Multihash;
use cid::Cid;
use ciborium::Value;
use drainpipe::firehose::{
    header_of, kind_of, read, Error, Fault, Header, Kind, SubscribeRepos, SubscribeReposAccount,
    SubscribeReposCommit, SubscribeReposCommitOperation, SubscribeReposCommitOperationAction,
    SubscribeReposHandle, SubscribeReposIdentity, SubscribeReposTombstone,
};
use drainpipe::item::{is_text, lookup, Item, Lookup};
use drainpipe::schema::{Field, ShapeError};
use ipld_core::ipld::Ipld;
use std::collections::BTreeMap;

fn content_ref(fill: u8) -> Cid {
    Cid::new_v1(0x71, Multihash::<64>::wrap(0x12, &[fill; 32]).unwrap())
}

fn header_value(entries: Vec<(Value, Value)>) -> Vec<u8> {
    let mut out = Vec::new();
    ciborium::ser::into_writer(&Value::Map(entries), &mut out).unwrap();
    out
}

fn header_bytes(type_: &str) -> Vec<u8> {
    header_value(vec![
        (Value::Text("op".to_string()), Value::Integer(1.into())),
        (Value::Text("t".to_string()), Value::Text(type_.to_string())),
    ])
}

fn body_bytes(fields: Vec<(&str, Ipld)>) -> Vec<u8> {
    let mut map = BTreeMap::new();
    for (key, value) in fields {
        map.insert(key.to_string(), value);
    }
    serde_ipld_dagcbor::to_vec(&Ipld::Map(map)).unwrap()
}

fn message(type_: &str, fields: Vec<(&str, Ipld)>) -> Vec<u8> {
    let mut out = header_bytes(type_);
    out.extend(body_bytes(fields));
    out
}

fn operation(path: &str, action: &str, cid: Option<Cid>) -> Ipld {
    let mut map = BTreeMap::new();
    map.insert("path".to_string(), Ipld::String(path.to_string()));
    map.insert("action".to_string(), Ipld::String(action.to_string()));
    map.insert(
        "cid".to_string(),
        match cid {
            Some(c) => Ipld::Link(c),
            None => Ipld::Null,
        },
    );
    Ipld::Map(map)
}

fn commit_fields(seq: i128, ops: Vec<Ipld>) -> Vec<(&'static str, Ipld)> {
    vec![
        ("ops", Ipld::List(ops)),
        ("repo", Ipld::String("did:plc:alice".to_string())),
        ("seq", Ipld::Integer(seq)),
        ("blocks", Ipld::Bytes(vec![1, 2, 3])),
        ("commit", Ipld::Link(content_ref(1))),
        ("prev", Ipld::Link(content_ref(2))),
        ("rebase", Ipld::Bool(false)),
        ("tooBig", Ipld::Bool(true)),
        ("time", Ipld::String("2024-05-01T12:00:00.000Z".to_string())),
    ]
}

fn shape_of_body(r: Result<(Header, SubscribeRepos), Error>) -> ShapeError {
    match r {
        Err(Error::Body(Fault::Shape(e))) => e,
        other => panic!("unexpected {:?}", other),
    }
}

fn shape_of_header(r: Result<(Header, SubscribeRepos), Error>) -> ShapeError {
    match r {
        Err(Error::Header(Fault::Shape(e))) => e,
        other => panic!("unexpected {:?}", other),
    }
}

#[test]
fn commit_round_trip() {
    let ops = vec![
        operation("fyi.unravel.frontpage.post/a", "create", Some(content_ref(3))),
        operation("app.bsky.feed.like/b", "delete", None),
        operation("fyi.unravel.frontpage.comment/c", "update", Some(content_ref(4))),
    ];
    let (header, event) = read(&message("#commit", commit_fields(42, ops))).unwrap();
    assert_eq!(header, Header { type_: "#commit".to_string(), operation_code: Some(1) });
    assert_eq!(
        event,
        SubscribeRepos::Commit(SubscribeReposCommit {
            operations: vec![
                SubscribeReposCommitOperation {
                    path: "fyi.unravel.frontpage.post/a".to_string(),
                    action: SubscribeReposCommitOperationAction::Create,
                    cid: Some(content_ref(3)),
                },
                SubscribeReposCommitOperation {
                    path: "app.bsky.feed.like/b".to_string(),
                    action: SubscribeReposCommitOperationAction::Delete,
                    cid: None,
                },
                SubscribeReposCommitOperation {
                    path: "fyi.unravel.frontpage.comment/c".to_string(),
                    action: SubscribeReposCommitOperationAction::Update,
                    cid: Some(content_ref(4)),
                },
            ],
            repo: "did:plc:alice".to_string(),
            sequence: 42,
            raw_blocks: vec![1, 2, 3],
            commit_ref: content_ref(1),
            previous_ref: Some(content_ref(2)),
            rebase: false,
            too_big: true,
            timestamp: "2024-05-01T12:00:00.000Z".to_string(),
        })
    );
    assert_eq!(event.sequence(), 42);
}

#[test]
fn commit_without_previous_ref() {
    let mut absent = commit_fields(7, vec![]);
    absent.retain(|(key, _)| *key != "prev");
    match read(&message("#commit", absent)).unwrap().1 {
        SubscribeRepos::Commit(commit) => {
            assert_eq!(commit.previous_ref, None);
            assert!(commit.operations.is_empty());
        }
        other => panic!("unexpected {:?}", other),
    }
    let mut null = commit_fields(7, vec![]);
    null.retain(|(key, _)| *key != "prev");
    null.push(("prev", Ipld::Null));
    match read(&message("#commit", null)).unwrap().1 {
        SubscribeRepos::Commit(commit) => assert_eq!(commit.previous_ref, None),
        other => panic!("unexpected {:?}", other),
    }
}

#[test]
fn commit_ignores_fields_it_does_not_know() {
    let mut fields = commit_fields(9, vec![]);
    fields.push(("rev", Ipld::String("3k".to_string())));
    fields.push(("blobs", Ipld::List(vec![])));
    let (_, event) = read(&message("#commit", fields)).unwrap();
    assert_eq!(event.sequence(), 9);
}

#[test]
fn handle_round_trip() {
    let fields = vec![
        ("seq", Ipld::Integer(-5)),
        ("did", Ipld::String("did:plc:bob".to_string())),
        ("handle", Ipld::String("bob.example".to_string())),
        ("time", Ipld::String("2024-05-02T00:00:00Z".to_string())),
    ];
    let (header, event) = read(&message("#handle", fields)).unwrap();
    assert_eq!(header.type_, "#handle");
    assert_eq!(
        event,
        SubscribeRepos::Handle(SubscribeReposHandle {
            sequence: -5,
            repo: "did:plc:bob".to_string(),
            handle: "bob.example".to_string(),
            timestamp: "2024-05-02T00:00:00Z".to_string(),
        })
    );
    assert_eq!(event.sequence(), -5);
}

#[test]
fn tombstone_round_trip() {
    let fields = vec![
        ("seq", Ipld::Integer(i64::MAX as i128)),
        ("did", Ipld::String("did:plc:carol".to_string())),
        ("time", Ipld::String("2024-05-03T00:00:00Z".to_string())),
    ];
    let (_, event) = read(&message("#tombstone", fields)).unwrap();
    assert_eq!(
        event,
        SubscribeRepos::Tombstone(SubscribeReposTombstone {
            sequence: i64::MAX,
            repo: "did:plc:carol".to_string(),
            timestamp: "2024-05-03T00:00:00Z".to_string(),
        })
    );
}

#[test]
fn account_and_identity_round_trip() {
    let (_, account) = read(&message("#account", vec![("seq", Ipld::Integer(11))])).unwrap();
    assert_eq!(account, SubscribeRepos::Account(SubscribeReposAccount { sequence: 11 }));
    assert_eq!(account.sequence(), 11);
    let (_, identity) = read(&message(
        "#identity",
        vec![("seq", Ipld::Integer(i64::MIN as i128)), ("did", Ipld::String("x".to_string()))],
    ))
    .unwrap();
    assert_eq!(identity, SubscribeRepos::Identity(SubscribeReposIdentity { sequence: i64::MIN }));
}

#[test]
fn unknown_event_type_is_reported() {
    let bytes = message("#info", vec![("seq", Ipld::Integer(1))]);
    assert_eq!(read(&bytes), Err(Error::UnknownTypeError("#info".to_string())));
    let bare = header_bytes("#migrate");
    let error = read(&bare).unwrap_err();
    assert_eq!(error, Error::UnknownTypeError("#migrate".to_string()));
    assert_eq!(error.message(), "Unknown type error: #migrate");
    assert_eq!(read(&header_bytes("commit")), Err(Error::UnknownTypeError("commit".to_string())));
}

#[test]
fn kinds_by_their_tags() {
    assert_eq!(kind_of("#commit"), Some(Kind::Commit));
    assert_eq!(kind_of("#handle"), Some(Kind::Handle));
    assert_eq!(kind_of("#tombstone"), Some(Kind::Tombstone));
    assert_eq!(kind_of("#account"), Some(Kind::Account));
    assert_eq!(kind_of("#identity"), Some(Kind::Identity));
    assert_eq!(kind_of("#Commit"), None);
    assert_eq!(kind_of(""), None);
    assert_eq!(Kind::Tombstone.tag(), "#tombstone");
}

#[test]
fn header_that_is_no_cbor() {
    match read(&[0xff, 0x00]) {
        Err(Error::Header(Fault::Malformed(text))) => assert!(!text.is_empty()),
        other => panic!("unexpected {:?}", other),
    }
    match read(&[]) {
        Err(Error::Header(Fault::Malformed(_))) => {}
        other => panic!("unexpected {:?}", other),
    }
    let cut = header_bytes("#commit");
    match read(&cut[..cut.len() - 2]) {
        Err(Error::Header(Fault::Malformed(_))) => {}
        other => panic!("unexpected {:?}", other),
    }
}

#[test]
fn header_of_the_wrong_shape() {
    let mut not_a_map = Vec::new();
    ciborium::ser::into_writer(&Value::Text("#commit".to_string()), &mut not_a_map).unwrap();
    assert_eq!(shape_of_header(read(&not_a_map)), ShapeError::NotARecord);
    let no_type = header_value(vec![(Value::Text("op".to_string()), Value::Integer(1.into()))]);
    assert_eq!(shape_of_header(read(&no_type)), ShapeError::Missing(Field::EventType));
    let twice = header_value(vec![
        (Value::Text("t".to_string()), Value::Text("#commit".to_string())),
        (Value::Text("t".to_string()), Value::Text("#handle".to_string())),
    ]);
    assert_eq!(shape_of_header(read(&twice)), ShapeError::Repeated(Field::EventType));
    let number = header_value(vec![(Value::Text("t".to_string()), Value::Integer(3.into()))]);
    assert_eq!(shape_of_header(read(&number)), ShapeError::Mismatch(Field::EventType));
    let bad_op = header_value(vec![
        (Value::Text("t".to_string()), Value::Text("#commit".to_string())),
        (Value::Text("op".to_string()), Value::Text("one".to_string())),
    ]);
    let error = read(&bad_op).unwrap_err();
    assert_eq!(error.message(), "Header error: invalid value for field op");
    assert_eq!(shape_of_header(Err(error)), ShapeError::Mismatch(Field::OperationCode));
}

#[test]
fn header_without_operation_code() {
    let mut bytes = header_value(vec![
        (Value::Integer(5.into()), Value::Null),
        (Value::Text("t".to_string()), Value::Text("#account".to_string())),
    ]);
    bytes.extend(body_bytes(vec![("seq", Ipld::Integer(3))]));
    let (header, event) = read(&bytes).unwrap();
    assert_eq!(header, Header { type_: "#account".to_string(), operation_code: None });
    assert_eq!(event.sequence(), 3);
}

#[test]
fn body_that_is_no_dag_cbor() {
    let mut missing = header_bytes("#account");
    match read(&missing) {
        Err(Error::Body(Fault::Malformed(_))) => {}
        other => panic!("unexpected {:?}", other),
    }
    missing.extend([0xa1, 0x63]);
    match read(&missing) {
        Err(Error::Body(Fault::Malformed(_))) => {}
        other => panic!("unexpected {:?}", other),
    }
    let mut trailing = message("#account", vec![("seq", Ipld::Integer(1))]);
    trailing.push(0x00);
    match read(&trailing) {
        Err(Error::Body(Fault::Malformed(text))) => assert!(text.contains("TrailingData")),
        other => panic!("unexpected {:?}", other),
    }
}

#[test]
fn body_of_the_wrong_shape() {
    let mut list = header_bytes("#account");
    list.extend(serde_ipld_dagcbor::to_vec(&Ipld::List(vec![])).unwrap());
    assert_eq!(shape_of_body(read(&list)), ShapeError::NotARecord);
    assert_eq!(
        shape_of_body(read(&message("#identity", vec![]))),
        ShapeError::Missing(Field::Sequence)
    );
    assert_eq!(
        shape_of_body(read(&message("#account", vec![("seq", Ipld::String("1".to_string()))]))),
        ShapeError::Mismatch(Field::Sequence)
    );
    assert_eq!(
        shape_of_body(read(&message(
            "#account",
            vec![("seq", Ipld::Integer(i64::MAX as i128 + 1))]
        ))),
        ShapeError::Mismatch(Field::Sequence)
    );
    assert_eq!(
        shape_of_body(read(&message(
            "#handle",
            vec![("seq", Ipld::Integer(1)), ("did", Ipld::String("d".to_string()))]
        ))),
        ShapeError::Missing(Field::Handle)
    );
    let error = read(&message("#tombstone", vec![("seq", Ipld::Integer(1))])).unwrap_err();
    assert_eq!(error.message(), "Body error: missing field did");
}

#[test]
fn commit_of_the_wrong_shape() {
    let mut no_ops = commit_fields(1, vec![]);
    no_ops.retain(|(key, _)| *key != "ops");
    assert_eq!(shape_of_body(read(&message("#commit", no_ops))), ShapeError::Missing(Field::Ops));
    let bad_action = commit_fields(1, vec![operation("a/b", "upsert", None)]);
    assert_eq!(
        shape_of_body(read(&message("#commit", bad_action))),
        ShapeError::Mismatch(Field::Action)
    );
    let not_an_op = commit_fields(1, vec![Ipld::Integer(1)]);
    assert_eq!(
        shape_of_body(read(&message("#commit", not_an_op))),
        ShapeError::Mismatch(Field::Ops)
    );
    let mut no_path = BTreeMap::new();
    no_path.insert("action".to_string(), Ipld::String("create".to_string()));
    let second_is_bad =
        commit_fields(1, vec![operation("a/b", "create", None), Ipld::Map(no_path)]);
    assert_eq!(
        shape_of_body(read(&message("#commit", second_is_bad))),
        ShapeError::Missing(Field::Path)
    );
    let mut text_blocks = commit_fields(1, vec![]);
    text_blocks.retain(|(key, _)| *key != "blocks");
    text_blocks.push(("blocks", Ipld::String("x".to_string())));
    assert_eq!(
        shape_of_body(read(&message("#commit", text_blocks))),
        ShapeError::Mismatch(Field::Blocks)
    );
    let mut no_commit = commit_fields(1, vec![]);
    no_commit.retain(|(key, _)| *key != "commit");
    no_commit.push(("commit", Ipld::Null));
    assert_eq!(
        shape_of_body(read(&message("#commit", no_commit))),
        ShapeError::Mismatch(Field::Commit)
    );
    let mut flag = commit_fields(1, vec![]);
    flag.retain(|(key, _)| *key != "tooBig");
    assert_eq!(shape_of_body(read(&message("#commit", flag))), ShapeError::Missing(Field::TooBig));
}

#[test]
fn error_messages() {
    assert_eq!(
        Error::Header(Fault::Malformed("Syntax(0)".to_string())).message(),
        "Header error: Syntax(0)"
    );
    assert_eq!(
        Error::Body(Fault::Shape(ShapeError::NotARecord)).message(),
        "Body error: expected a map"
    );
    assert_eq!(ShapeError::Repeated(Field::TooBig).message(), "duplicate field tooBig");
    assert_eq!(ShapeError::Missing(Field::Cid).message(), "missing field cid");
    assert_eq!(Fault::Shape(ShapeError::Mismatch(Field::Time)).message(), "invalid value for field time");
    assert_eq!(SubscribeReposCommitOperationAction::Update.name(), "update");
    assert_eq!(Field::Prev.key(), "prev");
}

#[test]
fn lookup_among_entries() {
    let entries = vec![
        (Item::Text("a".to_string()), Item::Integer(1)),
        (Item::Integer(7), Item::Integer(2)),
        (Item::Text("b".to_string()), Item::Integer(3)),
        (Item::Text("a".to_string()), Item::Integer(4)),
    ];
    match lookup(&entries, "b") {
        Lookup::Once(item) => assert_eq!(*item, Item::Integer(3)),
        other => panic!("unexpected {:?}", other),
    }
    assert!(matches!(lookup(&entries, "a"), Lookup::Repeated));
    assert!(matches!(lookup(&entries, "c"), Lookup::Absent));
    assert!(matches!(lookup(&Vec::new(), "a"), Lookup::Absent));
    assert!(is_text(&entries[0].0, "a"));
    assert!(!is_text(&entries[1].0, "a"));
    assert!(!is_text(&entries[0].0, "ab"));
}

#[test]
fn header_read_from_an_item() {
    let item = Item::Pairs(vec![
        (Item::Text("t".to_string()), Item::Text("#commit".to_string())),
        (Item::Text("op".to_string()), Item::Integer(-1)),
    ]);
    assert_eq!(
        header_of(&item),
        Ok(Header { type_: "#commit".to_string(), operation_code: Some(-1) })
    );
    let tagged = Item::Tag(55799, Box::new(item));
    assert_eq!(header_of(&tagged), Err(ShapeError::NotARecord));
    let wide = Item::Pairs(vec![
        (Item::Text("t".to_string()), Item::Text("#commit".to_string())),
        (Item::Text("op".to_string()), Item::Integer(1i128 << 70)),
    ]);
    assert_eq!(header_of(&wide), Err(ShapeError::Mismatch(Field::OperationCode)));
}
