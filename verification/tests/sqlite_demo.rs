use zone_metrics::indexer::{indexer_settings, check_select_query, indexer_query_reply, rejection_reply, IndexerBody, MenuReadOnly, QueryRejection};
use zone_metrics::sequencer::{
    basic_auth, batch_payload, next_loop_step, parse_node_url, parse_channel_id, query_reply, queue_is_empty,
    should_record_statement, signing_key_from_bytes, BasicAuth, Dish, ErrorResponse, LoopStep, Menu,
    QueueProbe, ReplyBody, SequencerError, SqlResponse,
};

fn dish(id: i64) -> Dish {
    Dish { id, name: format!("dish{id}"), data: "x".to_string() }
}

#[test]
fn select_queries_only() {
    assert_eq!(check_select_query(""), Err(QueryRejection::Empty));
    assert_eq!(check_select_query(" \t\n "), Err(QueryRejection::Empty));
    assert_eq!(check_select_query("\u{3000}"), Err(QueryRejection::Empty));
    assert_eq!(check_select_query("SELECT * FROM menu"), Ok(()));
    assert_eq!(check_select_query("  select id from menu"), Ok(()));
    assert_eq!(check_select_query("\u{a0}SeLeCt\tname"), Ok(()));
    assert_eq!(check_select_query("SELECT"), Ok(()));
    assert_eq!(check_select_query("SELECTX * FROM menu"), Err(QueryRejection::NotSelect));
    assert_eq!(check_select_query("SELEC"), Err(QueryRejection::NotSelect));
    assert_eq!(check_select_query("DELETE FROM menu"), Err(QueryRejection::NotSelect));
    assert_eq!(check_select_query("ſelect * from menu"), Err(QueryRejection::NotSelect));
}

#[test]
fn indexer_replies() {
    let r = rejection_reply(QueryRejection::Empty);
    assert_eq!(r.status, 400);
    assert_eq!(r.body, IndexerBody::Error(ErrorResponse { error: "empty query".to_string() }));
    let r = rejection_reply(QueryRejection::NotSelect);
    assert_eq!(r.body, IndexerBody::Error(ErrorResponse { error: "only SELECT queries are allowed".to_string() }));
    let ok = indexer_query_reply(Ok(vec![dish(1)]));
    assert_eq!(ok.status, 200);
    let err = indexer_query_reply(Err("no such table: x".to_string()));
    assert_eq!(err.status, 400);
    assert_eq!(err.body, IndexerBody::Error(ErrorResponse { error: "no such table: x".to_string() }));
    assert_eq!(MenuReadOnly::with_path("./data/indexer.db").path, "./data/indexer.db");
}

#[test]
fn sequencer_replies() {
    let rows = query_reply(Ok(Some(vec![dish(1), dish(2)])));
    assert_eq!(rows.status, 200);
    assert_eq!(rows.body, ReplyBody::Dishes(SqlResponse { dishes: vec![dish(1), dish(2)] }));
    let none = query_reply(Ok(None));
    assert_eq!((none.status, none.body), (200, ReplyBody::Empty));
    let err = query_reply(Err("syntax error".to_string()));
    assert_eq!(err.status, 400);
    assert_eq!(err.body, ReplyBody::Error(ErrorResponse { error: "syntax error".to_string() }));
}

#[test]
fn statements_that_reach_the_queue() {
    assert!(!should_record_statement("SELECT * FROM menu"));
    assert!(!should_record_statement("  \n select id FROM menu"));
    assert!(!should_record_statement("selection"));
    assert!(!should_record_statement("ſelect 1"));
    assert!(should_record_statement("INSERT INTO menu (name) VALUES ('soup')"));
    assert!(should_record_statement("selec"));
    assert!(should_record_statement(""));
    assert!(should_record_statement("UPDATE menu SET name = 'select'"));
}

#[test]
fn menu_tracing_switch() {
    let mut m = Menu::with_path("./data/menu.db");
    assert!(!m.tracing_enabled());
    m.set_queue_file("./data/queue.txt");
    assert!(m.tracing_enabled());
    assert_eq!(m.queue_file.as_deref(), Some("./data/queue.txt"));
    assert_eq!(m.path, "./data/menu.db");
}

#[test]
fn batches_join_lines() {
    assert_eq!(batch_payload(&vec![]), None);
    assert_eq!(batch_payload(&vec!["a".to_string()]), Some(b"a".to_vec()));
    let lines = vec!["INSERT 1;".to_string(), "".to_string(), "DELETE é;".to_string()];
    assert_eq!(batch_payload(&lines), Some("INSERT 1;\n\nDELETE é;".as_bytes().to_vec()));
}

#[test]
fn signing_keys() {
    assert_eq!(signing_key_from_bytes(&vec![7u8; 32]), Ok([7u8; 32]));
    assert_eq!(
        signing_key_from_bytes(&vec![7u8; 31]),
        Err(SequencerError::InvalidKeyFile { expected: 32, actual: 31 })
    );
}

#[test]
fn channel_ids() {
    assert_eq!(parse_channel_id(&"ab".repeat(32)), Ok([0xab; 32]));
    assert_eq!(parse_channel_id("nothex"), Err(SequencerError::InvalidChannelIdHex { input: "nothex".to_string() }));
    assert_eq!(parse_channel_id("abab"), Err(SequencerError::InvalidChannelIdLength { bytes: 2 }));
}

#[test]
fn credentials() {
    assert_eq!(basic_auth(None, Some("p".to_string())), None);
    assert_eq!(
        basic_auth(Some("u".to_string()), None),
        Some(BasicAuth { username: "u".to_string(), password: None })
    );
    assert_eq!(
        basic_auth(Some("u".to_string()), Some("p".to_string())),
        Some(BasicAuth { username: "u".to_string(), password: Some("p".to_string()) })
    );
}

#[test]
fn queue_probe_and_loop() {
    assert_eq!(queue_is_empty::<String>(QueueProbe::Present { len: 0 }), Ok(true));
    assert_eq!(queue_is_empty::<String>(QueueProbe::Present { len: 12 }), Ok(false));
    assert_eq!(queue_is_empty::<String>(QueueProbe::Missing), Ok(true));
    assert_eq!(queue_is_empty(QueueProbe::Failed("denied".to_string())), Err("denied".to_string()));
    assert_eq!(queue_is_empty::<u8>(QueueProbe::Missing), Ok(true));
    assert_eq!(next_loop_step::<String>(&Ok(true)), LoopStep::Wait);
    assert_eq!(next_loop_step::<String>(&Ok(false)), LoopStep::ProcessBatch);
    assert_eq!(next_loop_step(&Err("x".to_string())), LoopStep::ReportAndWait);
}

#[test]
fn batch_payload_splits_back() {
    let lines = vec!["INSERT INTO menu VALUES (1, 'a', 'b');".to_string(), "".to_string(), "DELETE FROM menu;".to_string()];
    let payload = batch_payload(&lines).unwrap();
    let text = String::from_utf8(payload).unwrap();
    let back: Vec<String> = text.split('\n').map(|s| s.to_string()).collect();
    assert_eq!(back, lines);
}

#[test]
fn node_endpoints() {
    assert_eq!(parse_node_url("http://localhost:18081").unwrap().port(), Some(18081));
    match parse_node_url("localhost") {
        Err(SequencerError::Url(m)) => assert_eq!(m, "relative URL without a base"),
        other => panic!("unexpected {other:?}"),
    }
}

#[test]
fn error_messages() {
    assert_eq!(SequencerError::Url("empty host".to_string()).message(), "URL parse error: empty host");
    assert_eq!(
        SequencerError::InvalidKeyFile { expected: 32, actual: 0 }.message(),
        "Invalid key file: expected 32 bytes, got 0"
    );
    assert_eq!(
        SequencerError::InvalidChannelIdHex { input: "zz".to_string() }.message(),
        "SEQUENCER_CHANNEL_ID must be a valid hex string, got: 'zz'"
    );
    assert_eq!(
        SequencerError::InvalidChannelIdLength { bytes: 105 }.message(),
        "SEQUENCER_CHANNEL_ID must be exactly 64 hex characters (32 bytes), got 210 characters (105 bytes)"
    );
}

#[test]
fn indexer_settings_defaults() {
    assert_eq!(indexer_settings(None, None, None, None, None), None);
    let s = indexer_settings(None, None, Some("ab".to_string()), Some("u".to_string()), None).unwrap();
    assert_eq!(s.node_endpoint, "http://localhost:18081");
    assert_eq!(s.db_path, "./data/indexer.db");
    assert_eq!(s.channel_id, "ab");
    assert_eq!(s.node_auth_username.as_deref(), Some("u"));
    let t = indexer_settings(Some("http://n:1".to_string()), Some("/tmp/x.db".to_string()), Some("c".to_string()), None, Some("p".to_string())).unwrap();
    assert_eq!((t.node_endpoint.as_str(), t.db_path.as_str()), ("http://n:1", "/tmp/x.db"));
    assert_eq!(t.node_auth_password.as_deref(), Some("p"));
}
