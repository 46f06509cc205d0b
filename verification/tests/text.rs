use nftx::msg::{Cw20ReceiveMsg, Cw721ReceiveMsg};
use nftx::numeral::decimal_string;
use nftx::str_map::StrMap;

#[test]
fn decimal_strings() {
    assert_eq!(decimal_string(0), "0");
    assert_eq!(decimal_string(7), "7");
    assert_eq!(decimal_string(10), "10");
    assert_eq!(decimal_string(1234567890), "1234567890");
    assert_eq!(decimal_string(u128::MAX), u128::MAX.to_string());
}

#[test]
fn nft_receive_message_text() {
    let m = Cw721ReceiveMsg { sender: "alice".to_string(), token_id: "t7".to_string(), msg: b"hi".to_vec() };
    assert_eq!(m.to_display_string(), "sender:alice token_id:t7 msg:aGk=");
    assert_eq!(m.display_with("xyz"), "sender:alice token_id:t7 msg:xyz");
}

#[test]
fn token_receive_message_text() {
    let m = Cw20ReceiveMsg { sender: "bob".to_string(), amount: 42, msg: b"{}".to_vec() };
    assert_eq!(m.to_display_string(), "sender:bob amount:42 msg:e30=");
    let empty = Cw20ReceiveMsg { sender: "bob".to_string(), amount: 0, msg: vec![] };
    assert_eq!(empty.to_display_string(), "sender:bob amount:0 msg:");
}

#[test]
fn str_map_reads_back_writes() {
    let mut m: StrMap<String> = StrMap::new();
    assert_eq!(m.len(), 0);
    m.insert("a".to_string(), "1".to_string());
    m.insert("b".to_string(), "2".to_string());
    m.insert("a".to_string(), "3".to_string());
    assert_eq!(m.len(), 2);
    assert_eq!(m.get(&"a".to_string()).unwrap(), "3");
    assert_eq!(m.get(&"b".to_string()).unwrap(), "2");
    assert!(m.get(&"c".to_string()).is_none());
    let mut keys = m.keys();
    keys.sort();
    assert_eq!(keys, vec!["a".to_string(), "b".to_string()]);
}
