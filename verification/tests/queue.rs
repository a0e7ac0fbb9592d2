//! Scenarios of the message queue and of the message classification on
//! messages built by hand.

use block_verifier::tx::{Any, Tx, TxBody};
use block_verifier::wasm_messages::{message_is_reg, message_is_wasm, VerifiedWasmMessages};

const EXECUTE: &str = "/secret.compute.v1beta1.MsgExecuteContract";
const INSTANTIATE: &str = "/secret.compute.v1beta1.MsgInstantiateContract";
const REGISTER: &str = "/secret.registration.v1beta1.RaAuthenticate";
const SEND: &str = "/cosmos.bank.v1beta1.MsgSend";

fn msg(type_url: &str, value: &[u8]) -> Any {
    Any { type_url: type_url.to_string(), value: value.to_vec() }
}

fn tx(messages: Vec<Any>) -> Tx {
    Tx { body: Some(TxBody { messages }) }
}

fn drain(queue: &mut VerifiedWasmMessages) -> Vec<Vec<u8>> {
    let mut out = Vec::new();
    while let Some(v) = queue.get_next() {
        out.push(v);
    }
    out
}

#[test]
fn wasm_urls_are_recognised() {
    assert!(message_is_wasm(&msg(EXECUTE, b"")));
    assert!(message_is_wasm(&msg(INSTANTIATE, b"x")));
    assert!(!message_is_wasm(&msg(REGISTER, b"")));
    assert!(!message_is_wasm(&msg(SEND, b"")));
}

#[test]
fn reg_url_is_recognised() {
    assert!(message_is_reg(&msg(REGISTER, b"cert")));
    assert!(!message_is_reg(&msg(EXECUTE, b"")));
    assert!(!message_is_reg(&msg(INSTANTIATE, b"")));
    assert!(!message_is_reg(&msg(SEND, b"")));
}

#[test]
fn near_miss_urls_are_not_recognised() {
    for url in [
        "",
        "/secret.compute.v1beta1.MsgExecuteContrac",
        "/secret.compute.v1beta1.MsgExecuteContractX",
        "secret.compute.v1beta1.MsgExecuteContract",
        "/secret.compute.v1beta1.msgexecutecontract",
        "/secret.compute.v1beta2.MsgInstantiateContract",
        "/secret.registration.v1beta1.RaAuthenticat",
        "/secret.registration.v1beta1.RaAuthenticate ",
        "/secret.compute.v1beta1.MsgExecuteContract\u{e9}",
    ] {
        assert!(!message_is_wasm(&msg(url, b"")), "{}", url);
        assert!(!message_is_reg(&msg(url, b"")), "{}", url);
    }
}

#[test]
fn no_url_is_both_kinds() {
    for url in [EXECUTE, INSTANTIATE, REGISTER, SEND] {
        let m = msg(url, b"");
        assert!(!(message_is_wasm(&m) && message_is_reg(&m)));
    }
}

#[test]
fn default_is_empty_at_height_zero() {
    let mut queue = VerifiedWasmMessages::default();
    assert_eq!(queue.remaining(), 0);
    assert_eq!(queue.height(), 0);
    assert_eq!(queue.time(), 0);
    assert_eq!(queue.get_next(), None);
    assert_eq!(queue.remaining(), 0);
}

#[test]
fn append_keeps_only_wasm_and_reg_in_order() {
    let mut queue = VerifiedWasmMessages::default();
    queue.append_msg_from_tx(tx(vec![
        msg(SEND, b"bank"),
        msg(EXECUTE, b"one"),
        msg(REGISTER, b"two"),
        msg(SEND, b"bank again"),
        msg(INSTANTIATE, b"three"),
    ]));
    assert_eq!(queue.remaining(), 3);
    assert_eq!(drain(&mut queue), vec![b"one".to_vec(), b"two".to_vec(), b"three".to_vec()]);
    assert_eq!(queue.remaining(), 0);
}

#[test]
fn tx_without_body_queues_nothing() {
    let mut queue = VerifiedWasmMessages::default();
    queue.append_msg_from_tx(tx(vec![msg(EXECUTE, b"a")]));
    queue.append_msg_from_tx(Tx { body: None });
    queue.append_msg_from_tx(tx(vec![]));
    assert_eq!(queue.remaining(), 1);
    assert_eq!(queue.get_next(), Some(b"a".to_vec()));
}

#[test]
fn fifo_across_transactions() {
    let mut queue = VerifiedWasmMessages::default();
    queue.append_msg_from_tx(tx(vec![msg(EXECUTE, b"1"), msg(EXECUTE, b"2")]));
    assert_eq!(queue.get_next(), Some(b"1".to_vec()));
    queue.append_msg_from_tx(tx(vec![msg(REGISTER, b"3"), msg(SEND, b"-")]));
    assert_eq!(queue.remaining(), 2);
    assert_eq!(drain(&mut queue), vec![b"2".to_vec(), b"3".to_vec()]);
}

#[test]
fn two_appends_equal_one_append_of_both() {
    let a = vec![msg(EXECUTE, b"a1"), msg(SEND, b"s"), msg(REGISTER, b"a2")];
    let b = vec![msg(INSTANTIATE, b"b1"), msg(SEND, b"t")];
    let mut twice = VerifiedWasmMessages::default();
    twice.append_msg_from_tx(tx(a.clone()));
    twice.append_msg_from_tx(tx(b.clone()));
    let mut once = VerifiedWasmMessages::default();
    let mut both = a;
    both.extend(b);
    once.append_msg_from_tx(tx(both));
    assert_eq!(twice.remaining(), once.remaining());
    assert_eq!(drain(&mut twice), drain(&mut once));
}

#[test]
fn empty_and_duplicate_values_are_kept() {
    let mut queue = VerifiedWasmMessages::default();
    queue.append_msg_from_tx(tx(vec![msg(EXECUTE, b""), msg(EXECUTE, b""), msg(EXECUTE, b"z")]));
    assert_eq!(queue.remaining(), 3);
    assert_eq!(drain(&mut queue), vec![vec![], vec![], b"z".to_vec()]);
}

#[test]
fn block_info_is_read_back() {
    let mut queue = VerifiedWasmMessages::default();
    queue.set_block_info(42, -7);
    assert_eq!(queue.height(), 42);
    assert_eq!(queue.time(), -7);
    queue.set_block_info(u64::MAX, i128::MIN);
    assert_eq!(queue.height(), u64::MAX);
    assert_eq!(queue.time(), i128::MIN);
    queue.set_block_info(0, i128::MAX);
    assert_eq!(queue.height(), 0);
    assert_eq!(queue.time(), i128::MAX);
}

#[test]
fn block_info_and_queue_are_independent() {
    let mut queue = VerifiedWasmMessages::default();
    queue.append_msg_from_tx(tx(vec![msg(EXECUTE, b"x"), msg(REGISTER, b"y")]));
    queue.set_block_info(10, 1_700_000_000_000_000_000);
    assert_eq!(queue.remaining(), 2);
    queue.append_msg_from_tx(tx(vec![msg(EXECUTE, b"w")]));
    assert_eq!(queue.get_next(), Some(b"x".to_vec()));
    assert_eq!(queue.height(), 10);
    assert_eq!(queue.time(), 1_700_000_000_000_000_000);
    queue.clear();
    assert_eq!(queue.height(), 10);
    assert_eq!(queue.time(), 1_700_000_000_000_000_000);
}

#[test]
fn clear_empties_the_queue() {
    let mut queue = VerifiedWasmMessages::default();
    queue.append_msg_from_tx(tx(vec![msg(EXECUTE, b"x"), msg(INSTANTIATE, b"y")]));
    queue.clear();
    assert_eq!(queue.remaining(), 0);
    assert_eq!(queue.get_next(), None);
    queue.clear();
    assert_eq!(queue.remaining(), 0);
    queue.append_msg_from_tx(tx(vec![msg(REGISTER, b"after")]));
    assert_eq!(queue.get_next(), Some(b"after".to_vec()));
}

#[test]
fn get_next_on_empty_changes_nothing() {
    let mut queue = VerifiedWasmMessages::default();
    queue.set_block_info(5, 6);
    assert_eq!(queue.get_next(), None);
    assert_eq!(queue.remaining(), 0);
    assert_eq!(queue.height(), 5);
    assert_eq!(queue.time(), 6);
}

#[test]
fn clone_holds_the_same_queue() {
    let mut queue = VerifiedWasmMessages::default();
    queue.append_msg_from_tx(tx(vec![msg(EXECUTE, b"x")]));
    queue.set_block_info(3, 4);
    let mut copy = queue.clone();
    assert_eq!(copy.remaining(), 1);
    assert_eq!(copy.height(), 3);
    assert_eq!(copy.get_next(), Some(b"x".to_vec()));
    assert_eq!(queue.remaining(), 1);
}
