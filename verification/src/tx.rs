use vstd::prelude::*;
use vstd::string::StringSliceAdditionalSpecFns;
use cosmos_sdk_proto::prost::{DecodeError, EncodeError};
use crate::codec::{
    base64_decode, base64_decoded, base64_encode, base64_encoded, base64_shape, decode_delegate,
    decode_execute_contract, decode_send, decode_transfer, decode_tx, decode_withdraw_reward,
    delegate_from_any, delegate_type_url, encode_tx, execute_contract_from_any,
    execute_contract_type_url, msg_delegate_type_url, msg_execute_contract_type_url,
    msg_send_type_url, msg_transfer_type_url, msg_withdraw_reward_type_url, send_from_any,
    send_type_url, transfer_from_any, transfer_type_url, tx_decoded, tx_encoded, tx_modes_within,
    withdraw_reward_from_any, withdraw_reward_type_url,
};
use crate::model::{
    any_views, AnyMsg, BlockTx, DelegateMsg, DelegateView, ExecuteContract, ExecuteView, SendMsg,
    SendView, TransferMsg, TransferView, TxView, WithdrawRewardMsg,
};

verus! {

/// A message of a transaction, of one of the kinds this library knows.
#[derive(Debug)]
pub enum TxMsg {
    Send(SendMsg),
    ExecuteContract(ExecuteContract),
    Transfer(TransferMsg),
    Delegate(DelegateMsg),
    WithdrawDelegatorReward(WithdrawRewardMsg),
}

/// A `TxMsg` as the contracts see it: its kind and the view of its message.
pub enum TxMsgView {
    Send(SendView),
    ExecuteContract(ExecuteView),
    Transfer(TransferView),
    Delegate(DelegateView),
    WithdrawDelegatorReward((Seq<char>, Seq<char>)),
}

impl View for TxMsg {
    type V = TxMsgView;

    open spec fn view(&self) -> TxMsgView {
        match self {
            TxMsg::Send(m) => TxMsgView::Send(m@),
            TxMsg::ExecuteContract(m) => TxMsgView::ExecuteContract(m@),
            TxMsg::Transfer(m) => TxMsgView::Transfer(m@),
            TxMsg::Delegate(m) => TxMsgView::Delegate(m@),
            TxMsg::WithdrawDelegatorReward(m) => TxMsgView::WithdrawDelegatorReward(m@),
        }
    }
}

/// The views of a sequence of transaction messages.
pub open spec fn msg_views(ms: Seq<TxMsg>) -> Seq<TxMsgView> {
    ms.map_values(|m: TxMsg| m@)
}

/// The five kinds of message that this library decodes.
#[derive(Clone, Copy, Debug, PartialEq, Eq, Structural)]
pub enum MsgKind {
    Send,
    ExecuteContract,
    Transfer,
    Delegate,
    WithdrawDelegatorReward,
}

/// The kind of message that a type URL names, if it is one of the five.
pub open spec fn spec_message_kind(type_url: Seq<char>) -> Option<MsgKind> {
    if type_url == send_type_url() {
        Some(MsgKind::Send)
    } else if type_url == execute_contract_type_url() {
        Some(MsgKind::ExecuteContract)
    } else if type_url == transfer_type_url() {
        Some(MsgKind::Transfer)
    } else if type_url == delegate_type_url() {
        Some(MsgKind::Delegate)
    } else if type_url == withdraw_reward_type_url() {
        Some(MsgKind::WithdrawDelegatorReward)
    } else {
        None
    }
}

/// The message that a body message becomes: by the kind its type URL names,
/// the message of that kind that its value decodes to; `None` for any other
/// type URL or a value that does not decode.
pub open spec fn spec_tx_msg(m: (Seq<char>, Seq<u8>)) -> Option<TxMsgView> {
    match spec_message_kind(m.0) {
        Some(MsgKind::Send) => match send_from_any(m.0, m.1) {
            Some(v) => Some(TxMsgView::Send(v)),
            None => None,
        },
        Some(MsgKind::ExecuteContract) => match execute_contract_from_any(m.0, m.1) {
            Some(v) => Some(TxMsgView::ExecuteContract(v)),
            None => None,
        },
        Some(MsgKind::Transfer) => match transfer_from_any(m.0, m.1) {
            Some(v) => Some(TxMsgView::Transfer(v)),
            None => None,
        },
        Some(MsgKind::Delegate) => match delegate_from_any(m.0, m.1) {
            Some(v) => Some(TxMsgView::Delegate(v)),
            None => None,
        },
        Some(MsgKind::WithdrawDelegatorReward) => match withdraw_reward_from_any(m.0, m.1) {
            Some(v) => Some(TxMsgView::WithdrawDelegatorReward(v)),
            None => None,
        },
        None => None,
    }
}

/// The messages that a list of body messages becomes, in order: those that
/// `spec_tx_msg` keeps.
pub open spec fn spec_tx_msgs(ms: Seq<(Seq<char>, Seq<u8>)>) -> Seq<TxMsgView>
    decreases ms.len(),
{
    if ms.len() == 0 {
        Seq::empty()
    } else {
        let rest = spec_tx_msgs(ms.drop_last());
        match spec_tx_msg(ms.last()) {
            Some(m) => rest.push(m),
            None => rest,
        }
    }
}

/// The kind of message that a type URL names, if it is one of the five:
/// the URL is compared with each kind's `TYPE_URL` in turn.
pub fn message_kind(type_url: &String) -> (kind: Option<MsgKind>)
    ensures
        kind == spec_message_kind(type_url@),
{
    if *type_url == msg_send_type_url().to_owned() {
        Some(MsgKind::Send)
    } else if *type_url == msg_execute_contract_type_url().to_owned() {
        Some(MsgKind::ExecuteContract)
    } else if *type_url == msg_transfer_type_url().to_owned() {
        Some(MsgKind::Transfer)
    } else if *type_url == msg_delegate_type_url().to_owned() {
        Some(MsgKind::Delegate)
    } else if *type_url == msg_withdraw_reward_type_url().to_owned() {
        Some(MsgKind::WithdrawDelegatorReward)
    } else {
        None
    }
}

/// The known message that a body message is, or `None`: the kind its type
/// URL names, decoded as that kind.
pub fn decode_message(m: &AnyMsg) -> (res: Option<TxMsg>)
    ensures
        match res {
            Some(msg) => spec_tx_msg(m@) == Some(msg@),
            None => spec_tx_msg(m@) is None,
        },
{
    match message_kind(&m.type_url) {
        Some(MsgKind::Send) => match decode_send(m) {
            Some(s) => Some(TxMsg::Send(s)),
            None => None,
        },
        Some(MsgKind::ExecuteContract) => match decode_execute_contract(m) {
            Some(ec) => Some(TxMsg::ExecuteContract(ec)),
            None => None,
        },
        Some(MsgKind::Transfer) => match decode_transfer(m) {
            Some(t) => Some(TxMsg::Transfer(t)),
            None => None,
        },
        Some(MsgKind::Delegate) => match decode_delegate(m) {
            Some(d) => Some(TxMsg::Delegate(d)),
            None => None,
        },
        Some(MsgKind::WithdrawDelegatorReward) => match decode_withdraw_reward(m) {
            Some(w) => Some(TxMsg::WithdrawDelegatorReward(w)),
            None => None,
        },
        None => None,
    }
}

/// The known messages of a list of body messages, in order; a message of an
/// unknown type or that does not decode is left out.
pub fn decode_messages(ms: &Vec<AnyMsg>) -> (res: Vec<TxMsg>)
    ensures
        msg_views(res@) == spec_tx_msgs(any_views(ms@)),
{
    let mut res: Vec<TxMsg> = Vec::new();
    let mut i: usize = 0;
    while i < ms.len()
        invariant
            i <= ms@.len(),
            msg_views(res@) == spec_tx_msgs(any_views(ms@).take(i as int)),
        decreases ms@.len() - i,
    {
        let ghost prefix = any_views(ms@).take(i as int);
        let ghost next = any_views(ms@).take(i + 1);
        assert(next.drop_last() =~= prefix);
        assert(next.last() == ms@[i as int]@);
        let ghost before = res@;
        match decode_message(&ms[i]) {
            Some(msg) => {
                let ghost v = msg@;
                res.push(msg);
                assert(msg_views(res@) =~= msg_views(before).push(v));
            },
            None => {},
        }
        i = i + 1;
    }
    assert(any_views(ms@).take(ms@.len() as int) =~= any_views(ms@));
    res
}


/// Why a transaction could not be read from its base64 text.
#[derive(Debug)]
pub enum TxParseError {
    /// The text is not base64.
    Base64(base64::DecodeError),
    /// The bytes are not a protobuf transaction.
    Protobuf(DecodeError),
}

/// Why a transaction could not be written as base64 text.
#[derive(Debug)]
pub enum TxEncodeError {
    /// The protobuf encoding failed.
    Protobuf(EncodeError),
}

/// What a transaction read from base64 text is: `None` where the text is
/// not base64 or its bytes are not a protobuf transaction.
pub open spec fn spec_tx_from_str(text: Seq<char>) -> Option<TxView> {
    match base64_decoded(text) {
        Some(bytes) => tx_decoded(bytes),
        None => None,
    }
}

/// The messages of a transaction: those of its body (see `spec_tx_msgs`),
/// none where it has no body.
pub open spec fn spec_get_msgs(tx: TxView) -> Seq<TxMsgView> {
    match tx.body {
        Some(body) => spec_tx_msgs(body.messages),
        None => Seq::empty(),
    }
}

/// The text of a transaction as the RPC writes it: base64 of its protobuf
/// encoding.
pub open spec fn spec_tx_text(tx: TxView) -> Seq<char> {
    base64_encoded(tx_encoded(tx))
}

impl BlockTx {
    /// Reads a transaction from its base64 text (as the RPC writes the
    /// transactions of a block): base64, then protobuf. What it reads, once
    /// encoded and decoded again, is given back.
    pub fn from_str(s: &str) -> (res: Result<BlockTx, TxParseError>)
        requires
            s.spec_bytes().len() + 7 <= usize::MAX,
        ensures
            match res {
                Ok(tx) => base64_decoded(s@) is Some && spec_tx_from_str(s@) == Some(tx@)
                    && tx_decoded(tx_encoded(tx@)) == Some(tx@),
                Err(TxParseError::Base64(_)) => base64_decoded(s@) is None,
                Err(TxParseError::Protobuf(_)) => base64_decoded(s@) is Some
                    && spec_tx_from_str(s@) is None,
            },
    {
        let bytes = match base64_decode(s) {
            Ok(bytes) => bytes,
            Err(e) => return Err(TxParseError::Base64(e)),
        };
        match decode_tx(&bytes) {
            Ok(tx) => Ok(tx),
            Err(e) => Err(TxParseError::Protobuf(e)),
        }
    }

    /// The known messages of the transaction, in the order of its body; a
    /// message of an unknown type or that does not decode is left out, and
    /// a transaction without a body has none.
    pub fn get_msgs(&self) -> (res: Vec<TxMsg>)
        ensures
            msg_views(res@) == spec_get_msgs(self@),
    {
        match &self.body {
            Some(body) => decode_messages(&body.messages),
            None => Vec::new(),
        }
    }

    /// The transaction as base64 text of its protobuf encoding, as the RPC
    /// writes it. Whether the encoding succeeds is for the protobuf crate to
    /// decide: it fails exactly where the encoding is longer than a `Vec` can
    /// hold. What follows it is `text_of_encoding`. Where the transaction is
    /// one that decoding gives back from its encoding (every transaction that
    /// `from_str` reads is, and every one whose signing modes nest at most 40
    /// levels deep), `from_str` reads the text back to it.
    pub fn fmt(&self) -> (res: Result<String, TxEncodeError>)
        ensures
            (res is Ok) == (tx_encoded(self@).len() <= isize::MAX),
            res matches Ok(text) ==> text@ == spec_tx_text(self@)
                && base64_shape(text@, tx_encoded(self@).len())
                && base64_decoded(text@) == Some(tx_encoded(self@)),
            res matches Ok(text) ==> (tx_decoded(tx_encoded(self@)) == Some(self@)
                ==> spec_tx_from_str(text@) == Some(self@)),
            res matches Ok(text) ==> (tx_modes_within(self@, 40) ==> spec_tx_from_str(text@) == Some(self@)),
    {
        let encoded = encode_tx(self);
        text_of_encoding(encoded)
    }
}

/// The text that the outcome of encoding a transaction gives: the base64
/// text of the bytes where the encoding succeeded, its error where it failed.
pub fn text_of_encoding(encoded: Result<Vec<u8>, EncodeError>) -> (res: Result<String, TxEncodeError>)
    requires
        encoded matches Ok(bytes) ==> bytes@.len() <= isize::MAX,
    ensures
        match encoded {
            Ok(bytes) => res matches Ok(text) && text@ == base64_encoded(bytes@)
                && base64_shape(text@, bytes@.len()) && base64_decoded(text@) == Some(bytes@),
            Err(_) => res matches Err(TxEncodeError::Protobuf(_)),
        },
{
    match encoded {
        Ok(bytes) => {
            assert(bytes@.len() / 3 * 4 + 4 <= usize::MAX);
            Ok(base64_encode(&bytes))
        },
        Err(e) => Err(TxEncodeError::Protobuf(e)),
    }
}

} // verus!
