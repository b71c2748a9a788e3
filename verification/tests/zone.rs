use zone_metrics::hex_codec::{HexArgError, HexFault};
use reqwest::Url;
use zone_metrics::zone::ArgText::{NotUtf8, Text};
use zone_metrics::zone::{
    collect_channel_inscriptions, decode_inscribe_args, parse_url_arg, plan_channel_query, query_slot_range,
    same_channel, ArgError, Block, ChannelQueryPlan, InscribeArgError, InscriptionOp, Op, QueryArgError,
    Transaction,
};

fn ins(channel: u8, id: u8, data: &[u8]) -> Op {
    Op::ChannelInscribe(InscriptionOp { channel_id: [channel; 32], id: [id; 32], inscription: data.to_vec() })
}

fn sample_blocks() -> Vec<Block> {
    vec![
        Block { slot: 5, transactions: vec![Transaction { ops: vec![ins(1, 0xa1, b"x"), Op::Other, ins(2, 0xb1, b"no")] }] },
        Block { slot: 6, transactions: vec![] },
        Block {
            slot: 7,
            transactions: vec![
                Transaction { ops: vec![ins(1, 0xa2, b"\x01\x02")] },
                Transaction { ops: vec![ins(1, 0xa3, b""), ins(1, 0xa4, b"yz")] },
            ],
        },
    ]
}

#[test]
fn query_keeps_channel_order() {
    let res = collect_channel_inscriptions(&sample_blocks(), &[1; 32], 10);
    let got: Vec<(String, String, u64)> = res.into_iter().map(|e| (e.id, e.data, e.slot)).collect();
    assert_eq!(got, vec![
        ("a1".repeat(32), "78".to_string(), 5),
        ("a2".repeat(32), "0102".to_string(), 7),
        ("a3".repeat(32), "".to_string(), 7),
        ("a4".repeat(32), "797a".to_string(), 7),
    ]);
}

#[test]
fn query_stops_at_limit() {
    let res = collect_channel_inscriptions(&sample_blocks(), &[1; 32], 2);
    assert_eq!(res.len(), 2);
    assert_eq!(res[1].id, "a2".repeat(32));
    assert!(collect_channel_inscriptions(&sample_blocks(), &[1; 32], 0).is_empty());
    let other = collect_channel_inscriptions(&sample_blocks(), &[2; 32], 5);
    assert_eq!(other.len(), 1);
    assert_eq!(other[0].data, "6e6f");
    assert!(collect_channel_inscriptions(&sample_blocks(), &[3; 32], 5).is_empty());
}

#[test]
fn slot_ranges() {
    assert_eq!(query_slot_range(10, 0), None);
    assert_eq!(query_slot_range(10, 1), Some((10, 10)));
    assert_eq!(query_slot_range(10, 5), Some((10, 14)));
    assert_eq!(query_slot_range(u64::MAX - 1, 5), Some((u64::MAX - 1, u64::MAX)));
}

const NODE: &str = "http://localhost:18081/";

#[test]
fn channel_query_plans() {
    let ch = "11".repeat(32);
    let url = Url::parse(NODE).unwrap();
    assert_eq!(plan_channel_query(Text(NODE), Text(&ch), 3, 0), Ok(ChannelQueryPlan::Empty));
    assert_eq!(
        plan_channel_query(Text(NODE), Text(&ch), 3, 4),
        Ok(ChannelQueryPlan::Fetch { node_url: url, channel_id: [0x11; 32], from_slot: 3, to_slot: 6 })
    );
    assert_eq!(plan_channel_query(Text(NODE), Text("1"), 3, 4), Err(QueryArgError::ChannelId(ArgError::Hex(HexArgError::InvalidHex(HexFault::OddLength)))));
    assert_eq!(
        plan_channel_query(Text(NODE), Text("11"), 3, 0),
        Err(QueryArgError::ChannelId(ArgError::Hex(HexArgError::WrongLength { expected: 32, actual: 1 })))
    );
    assert_eq!(plan_channel_query(Text(NODE), NotUtf8, 3, 0), Err(QueryArgError::ChannelId(ArgError::NotUtf8)));
    assert_eq!(plan_channel_query(NotUtf8, Text("1"), 3, 4), Err(QueryArgError::NodeUrl(ArgError::NotUtf8)));
    assert!(matches!(
        plan_channel_query(Text("not a url"), Text("1"), 3, 4),
        Err(QueryArgError::NodeUrl(ArgError::NotUrl(_)))
    ));
}

#[test]
fn inscribe_arguments() {
    let ch = "01".repeat(32);
    let key = "02".repeat(32);
    let msg = "03".repeat(32);
    let a = decode_inscribe_args(Text(NODE), Text(&ch), Text(&key), None).unwrap();
    assert_eq!(a.node_url.as_str(), NODE);
    assert_eq!(a.channel_id, [1; 32]);
    assert_eq!(a.signing_key, [2; 32]);
    assert_eq!(a.last_msg_id, None);
    let b = decode_inscribe_args(Text(NODE), Text(&ch), Text(&key), Some(Text(&msg))).unwrap();
    assert_eq!(b.last_msg_id, Some([3; 32]));
    assert_eq!(
        decode_inscribe_args(Text(NODE), Text("xy"), Text(&key), None),
        Err(InscribeArgError::ChannelId(ArgError::Hex(HexArgError::InvalidHex(HexFault::InvalidHexCharacter { c: 'x', index: 0 }))))
    );
    assert_eq!(
        decode_inscribe_args(Text(NODE), Text(&ch), Text("0202"), Some(Text("zz"))),
        Err(InscribeArgError::SigningKey(ArgError::Hex(HexArgError::WrongLength { expected: 32, actual: 2 })))
    );
    assert_eq!(
        decode_inscribe_args(Text(NODE), Text(&ch), Text(&key), Some(Text("zz"))),
        Err(InscribeArgError::LastMsgId(ArgError::Hex(HexArgError::InvalidHex(HexFault::InvalidHexCharacter { c: 'z', index: 0 }))))
    );
    assert_eq!(
        decode_inscribe_args(Text(NODE), Text(&ch), NotUtf8, Some(Text("zz"))),
        Err(InscribeArgError::SigningKey(ArgError::NotUtf8))
    );
    assert!(matches!(
        decode_inscribe_args(Text("::"), Text("xy"), Text(&key), None),
        Err(InscribeArgError::NodeUrl(ArgError::NotUrl(_)))
    ));
}

#[test]
fn url_arguments() {
    assert_eq!(parse_url_arg(Text("https://node.example:8080/api")).unwrap().port(), Some(8080));
    assert!(matches!(parse_url_arg(Text("/relative/path")), Err(ArgError::NotUrl(_))));
    assert_eq!(parse_url_arg(NotUtf8), Err(ArgError::NotUtf8));
}

#[test]
fn channel_equality() {
    let mut a = [9u8; 32];
    assert!(same_channel(&a, &[9; 32]));
    a[31] = 8;
    assert!(!same_channel(&a, &[9; 32]));
}
