use cosmos_sdk_proto::cosmos::bank::v1beta1::MsgSend;
use cosmos_sdk_proto::cosmos::distribution::v1beta1::MsgWithdrawDelegatorReward;
use cosmos_sdk_proto::cosmos::staking::v1beta1::MsgDelegate;
use cosmos_sdk_proto::cosmos::tx::v1beta1::{Tx, TxBody};
use cosmos_sdk_proto::cosmwasm::wasm::v1::MsgExecuteContract;
use cosmos_sdk_proto::ibc::applications::transfer::v1::MsgTransfer;
use cosmos_sdk_proto::traits::{Message, MessageExt};
use cosmos_sdk_proto::Any;
use juno_scan::model::{AnyMsg, BitArray, BlockTx, Signer, SigningMode, TxAuthInfo};
use juno_scan::tx::{decode_message, text_of_encoding, TxEncodeError, TxMsg, TxParseError};

fn body(messages: Vec<Any>) -> TxBody {
    TxBody {
        messages,
        memo: String::from("memo"),
        timeout_height: 0,
        extension_options: vec![],
        non_critical_extension_options: vec![],
    }
}

fn tx_text(body: Option<TxBody>) -> String {
    let tx = Tx { body, auth_info: None, signatures: vec![vec![1, 2, 3]] };
    base64::encode(tx.to_bytes().unwrap())
}

fn send() -> MsgSend {
    MsgSend { from_address: String::from("juno1from"), to_address: String::from("juno1to"), amount: vec![] }
}

fn execute(contract: &str, msg: &str) -> MsgExecuteContract {
    MsgExecuteContract {
        sender: String::from("juno1sender"),
        contract: String::from(contract),
        msg: msg.as_bytes().to_vec(),
        funds: vec![],
    }
}

#[test]
fn get_msgs_keeps_known_messages_in_order() {
    let messages = vec![
        execute("juno1contract", "{\"claim\":{}}").to_any().unwrap(),
        Any { type_url: String::from("/cosmos.gov.v1beta1.MsgVote"), value: vec![8, 1] },
        send().to_any().unwrap(),
        MsgDelegate { delegator_address: String::from("d"), validator_address: String::from("v"), amount: None }
            .to_any()
            .unwrap(),
        MsgWithdrawDelegatorReward { delegator_address: String::from("d"), validator_address: String::from("v") }
            .to_any()
            .unwrap(),
        MsgTransfer::default().to_any().unwrap(),
    ];
    let tx = BlockTx::from_str(&tx_text(Some(body(messages)))).unwrap();
    let msgs = tx.get_msgs();
    assert_eq!(msgs.len(), 5);
    match &msgs[0] {
        TxMsg::ExecuteContract(ec) => {
            assert_eq!(ec.sender, "juno1sender");
            assert_eq!(ec.contract, "juno1contract");
            assert_eq!(ec.msg, b"{\"claim\":{}}".to_vec());
        },
        other => panic!("unexpected {:?}", other),
    }
    assert!(matches!(msgs[1], TxMsg::Send(_)));
    assert!(matches!(msgs[2], TxMsg::Delegate(_)));
    assert!(matches!(msgs[3], TxMsg::WithdrawDelegatorReward(_)));
    assert!(matches!(msgs[4], TxMsg::Transfer(_)));
}

#[test]
fn get_msgs_drops_values_that_do_not_decode() {
    let messages = vec![
        Any { type_url: String::from("/cosmos.bank.v1beta1.MsgSend"), value: vec![0xff, 0xff, 0xff] },
        send().to_any().unwrap(),
    ];
    let tx = BlockTx::from_str(&tx_text(Some(body(messages)))).unwrap();
    let msgs = tx.get_msgs();
    assert_eq!(msgs.len(), 1);
    assert!(matches!(msgs[0], TxMsg::Send(_)));
}

#[test]
fn get_msgs_of_tx_without_body_is_empty() {
    let tx = BlockTx::from_str(&tx_text(None)).unwrap();
    assert!(tx.get_msgs().is_empty());
}

#[test]
fn from_str_rejects_text_that_is_not_base64() {
    assert!(matches!(BlockTx::from_str("not base64!"), Err(TxParseError::Base64(_))));
}

#[test]
fn from_str_rejects_bytes_that_are_not_a_tx() {
    let text = base64::encode([0xffu8, 0xff, 0xff, 0xff]);
    assert!(matches!(BlockTx::from_str(&text), Err(TxParseError::Protobuf(_))));
}

#[test]
fn fmt_writes_the_base64_of_the_protobuf_encoding() {
    let text = tx_text(Some(body(vec![send().to_any().unwrap()])));
    let tx = BlockTx::from_str(&text).unwrap();
    assert_eq!(tx.fmt().unwrap(), text);
    let again = BlockTx::from_str(&tx.fmt().unwrap()).unwrap();
    assert_eq!(again.get_msgs().len(), 1);
}

#[test]
fn decode_message_needs_the_exact_type_url() {
    let mut any = send().to_any().unwrap();
    any.type_url = String::from("/cosmos.bank.v1beta1.MsgSend ");
    let m = AnyMsg { type_url: any.type_url, value: any.value };
    assert!(decode_message(&m).is_none());
    let any = execute("c", "{}").to_any().unwrap();
    let m = AnyMsg { type_url: any.type_url, value: any.value };
    assert!(matches!(decode_message(&m), Some(TxMsg::ExecuteContract(_))));
}

#[test]
fn text_of_encoding_writes_base64_or_passes_the_error_on() {
    assert_eq!(text_of_encoding(Ok(b"hello".to_vec())).unwrap(), "aGVsbG8=");
    assert_eq!(text_of_encoding(Ok(vec![])).unwrap(), "");
    let mut small = [0u8; 1];
    let mut buf: &mut [u8] = &mut small[..];
    let err = send().encode(&mut buf).unwrap_err();
    assert!(matches!(text_of_encoding(Err(err)), Err(TxEncodeError::Protobuf(_))));
}

#[test]
fn get_msgs_gives_the_decoded_values() {
    let s = MsgSend {
        from_address: String::from("a"),
        to_address: String::from("b"),
        amount: vec![cosmos_sdk_proto::cosmos::base::v1beta1::Coin {
            denom: String::from("ujuno"),
            amount: String::from("5"),
        }],
    };
    let mut e = execute("c", "{}");
    e.funds = vec![cosmos_sdk_proto::cosmos::base::v1beta1::Coin { denom: String::from("uloop"), amount: String::from("7") }];
    let d = MsgDelegate {
        delegator_address: String::from("d"),
        validator_address: String::from("v"),
        amount: Some(cosmos_sdk_proto::cosmos::base::v1beta1::Coin { denom: String::from("ujuno"), amount: String::from("1") }),
    };
    let w = MsgWithdrawDelegatorReward { delegator_address: String::from("dd"), validator_address: String::from("vv") };
    let t = MsgTransfer {
        source_port: String::from("transfer"),
        source_channel: String::from("channel-0"),
        token: None,
        sender: String::from("s"),
        receiver: String::from("r"),
        timeout_height: Some(cosmos_sdk_proto::ibc::core::client::v1::Height { revision_number: 1, revision_height: 2 }),
        timeout_timestamp: 3,
    };
    let messages = vec![
        s.to_any().unwrap(),
        Any { type_url: String::from("/x"), value: vec![] },
        e.to_any().unwrap(),
        d.to_any().unwrap(),
        w.to_any().unwrap(),
        t.to_any().unwrap(),
    ];
    let msgs = BlockTx::from_str(&tx_text(Some(body(messages)))).unwrap().get_msgs();
    assert_eq!(msgs.len(), 5);
    match &msgs[0] {
        TxMsg::Send(x) => {
            assert_eq!(x.from_address, "a");
            assert_eq!(x.to_address, "b");
            assert_eq!(x.amount.len(), 1);
            assert_eq!(x.amount[0].denom, "ujuno");
            assert_eq!(x.amount[0].amount, "5");
        },
        other => panic!("unexpected {:?}", other),
    }
    match &msgs[1] {
        TxMsg::ExecuteContract(x) => {
            assert_eq!(x.contract, "c");
            assert_eq!(x.funds.len(), 1);
            assert_eq!(x.funds[0].denom, "uloop");
        },
        other => panic!("unexpected {:?}", other),
    }
    match &msgs[2] {
        TxMsg::Delegate(x) => {
            assert_eq!(x.delegator_address, "d");
            assert_eq!(x.amount.as_ref().unwrap().amount, "1");
        },
        other => panic!("unexpected {:?}", other),
    }
    match &msgs[3] {
        TxMsg::WithdrawDelegatorReward(x) => assert_eq!(x.validator_address, "vv"),
        other => panic!("unexpected {:?}", other),
    }
    match &msgs[4] {
        TxMsg::Transfer(x) => {
            assert_eq!(x.source_channel, "channel-0");
            assert!(x.token.is_none());
            assert_eq!(x.timeout_height.unwrap().revision_height, 2);
            assert_eq!(x.timeout_timestamp, 3);
        },
        other => panic!("unexpected {:?}", other),
    }
}

#[test]
fn from_str_of_empty_text_is_the_empty_transaction() {
    let tx = BlockTx::from_str("").unwrap();
    assert!(tx.body.is_none());
    assert!(tx.auth_info.is_none());
    assert!(tx.signatures.is_empty());
    assert_eq!(tx.fmt().unwrap(), "");
}

#[test]
fn from_str_keeps_the_signatures() {
    let tx = BlockTx::from_str("GgMBAgM=").unwrap();
    assert!(tx.body.is_none());
    assert!(tx.auth_info.is_none());
    assert_eq!(tx.signatures, vec![vec![1u8, 2, 3]]);
    assert_eq!(tx.fmt().unwrap(), "GgMBAgM=");
}

#[test]
fn fmt_of_a_built_transaction() {
    let tx = BlockTx {
        body: None,
        auth_info: None,
        signatures: vec![vec![1, 2, 3]],
    };
    assert_eq!(tx.fmt().unwrap(), "GgMBAgM=");
    let empty = BlockTx { body: None, auth_info: None, signatures: vec![] };
    assert_eq!(empty.fmt().unwrap(), "");
}

#[test]
fn fmt_text_has_base64_shape_and_reads_back() {
    let signer = cosmos_sdk_proto::cosmos::tx::v1beta1::SignerInfo {
        public_key: Some(Any { type_url: String::from("/k"), value: vec![9, 9] }),
        mode_info: Some(cosmos_sdk_proto::cosmos::tx::v1beta1::ModeInfo {
            sum: Some(cosmos_sdk_proto::cosmos::tx::v1beta1::mode_info::Sum::Single(
                cosmos_sdk_proto::cosmos::tx::v1beta1::mode_info::Single { mode: 1 },
            )),
        }),
        sequence: 4,
    };
    let auth = cosmos_sdk_proto::cosmos::tx::v1beta1::AuthInfo {
        signer_infos: vec![signer],
        fee: Some(cosmos_sdk_proto::cosmos::tx::v1beta1::Fee {
            amount: vec![],
            gas_limit: 200000,
            payer: String::new(),
            granter: String::new(),
        }),
    };
    let proto = Tx { body: Some(body(vec![send().to_any().unwrap()])), auth_info: Some(auth), signatures: vec![vec![7; 64]] };
    let bytes = proto.to_bytes().unwrap();
    let text = base64::encode(&bytes);
    let tx = BlockTx::from_str(&text).unwrap();
    let auth = tx.auth_info.as_ref().unwrap();
    assert_eq!(auth.signer_infos[0].sequence, 4);
    assert_eq!(auth.fee.as_ref().unwrap().gas_limit, 200000);
    let written = tx.fmt().unwrap();
    assert_eq!(written, text);
    assert_eq!(written.len(), 4 * ((bytes.len() + 2) / 3));
    assert!(written.chars().all(|c| c.is_ascii_alphanumeric() || c == '+' || c == '/' || c == '='));
    let again = BlockTx::from_str(&written).unwrap();
    assert_eq!(again.fmt().unwrap(), written);
    assert_eq!(again.get_msgs().len(), 1);
}


#[test]
fn fmt_reads_back_nested_multisig_modes() {
    let inner = SigningMode::Multi {
        bitarray: Some(BitArray { extra_bits_stored: 2, elems: vec![0b1100_0000] }),
        mode_infos: vec![SigningMode::Single { mode: 1 }, SigningMode::Unset],
    };
    let outer = SigningMode::Multi { bitarray: None, mode_infos: vec![inner, SigningMode::Single { mode: 127 }] };
    let tx = BlockTx {
        body: None,
        auth_info: Some(TxAuthInfo {
            signer_infos: vec![Signer { public_key: None, mode_info: Some(outer), sequence: 9 }],
            fee: None,
        }),
        signatures: vec![],
    };
    let text = tx.fmt().unwrap();
    let back = BlockTx::from_str(&text).unwrap();
    let signer = &back.auth_info.as_ref().unwrap().signer_infos[0];
    assert_eq!(signer.sequence, 9);
    match signer.mode_info.as_ref().unwrap() {
        SigningMode::Multi { bitarray, mode_infos } => {
            assert!(bitarray.is_none());
            assert_eq!(mode_infos.len(), 2);
            assert!(matches!(mode_infos[1], SigningMode::Single { mode: 127 }));
            match &mode_infos[0] {
                SigningMode::Multi { bitarray, mode_infos } => {
                    assert_eq!(bitarray.as_ref().unwrap().extra_bits_stored, 2);
                    assert!(matches!(mode_infos[0], SigningMode::Single { mode: 1 }));
                    assert!(matches!(mode_infos[1], SigningMode::Unset));
                },
                other => panic!("unexpected {:?}", other),
            }
        },
        other => panic!("unexpected {:?}", other),
    }
    assert_eq!(back.fmt().unwrap(), text);
}
