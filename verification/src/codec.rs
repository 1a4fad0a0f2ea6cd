use vstd::prelude::*;
use vstd::string::StringSliceAdditionalSpecFns;
use cosmos_sdk_proto::cosmos::bank::v1beta1::MsgSend;
use cosmos_sdk_proto::cosmos::base::v1beta1 as base;
use cosmos_sdk_proto::cosmos::crypto::multisig::v1beta1 as multisig;
use cosmos_sdk_proto::cosmos::distribution::v1beta1::MsgWithdrawDelegatorReward;
use cosmos_sdk_proto::cosmos::staking::v1beta1::MsgDelegate;
use cosmos_sdk_proto::cosmos::tx::v1beta1 as ptx;
use cosmos_sdk_proto::cosmwasm::wasm::v1::MsgExecuteContract;
use cosmos_sdk_proto::ibc::applications::transfer::v1::MsgTransfer;
use cosmos_sdk_proto::prost::{DecodeError, EncodeError};
use cosmos_sdk_proto::traits::{Message, MessageExt, TypeUrl};
use cosmos_sdk_proto::Any;
use crate::model::{
    AnyMsg, BitArray, BlockTx, Body, CoinAmount, DelegateMsg, DelegateView, ExecuteContract,
    ExecuteView, IbcHeight, SendMsg, SendView, Signer, SigningMode, TransferMsg, TransferView,
    SignerView, SigningModeView, TxAuthInfo, TxFee, TxView, WithdrawRewardMsg,
};

// The calls into the protobuf and base64 crates, what their contracts claim
// of them, and the one-for-one conversions between the protobuf crate's
// values and the library's plain models of them.

verus! {

/// Declares the protobuf crate's `cosmos.tx.v1beta1.Tx`, carried opaque.
#[verifier::external_type_specification]
#[verifier::external_body]
pub struct ExProtoTx(ptx::Tx);

/// Declares the protobuf crate's `TxBody`, carried opaque.
#[verifier::external_type_specification]
#[verifier::external_body]
pub struct ExProtoTxBody(ptx::TxBody);

/// Declares the protobuf crate's `AuthInfo`, carried opaque.
#[verifier::external_type_specification]
#[verifier::external_body]
pub struct ExProtoAuthInfo(ptx::AuthInfo);

/// Declares the protobuf crate's `SignerInfo`, carried opaque.
#[verifier::external_type_specification]
#[verifier::external_body]
pub struct ExProtoSignerInfo(ptx::SignerInfo);

/// Declares the protobuf crate's `ModeInfo`, carried opaque.
#[verifier::external_type_specification]
#[verifier::external_body]
pub struct ExProtoModeInfo(ptx::ModeInfo);

/// Declares the protobuf crate's `Fee`, carried opaque.
#[verifier::external_type_specification]
#[verifier::external_body]
pub struct ExProtoFee(ptx::Fee);

/// Declares the protobuf crate's `Coin`, carried opaque.
#[verifier::external_type_specification]
#[verifier::external_body]
pub struct ExProtoCoin(base::Coin);

/// Declares the protobuf crate's `CompactBitArray`, carried opaque.
#[verifier::external_type_specification]
#[verifier::external_body]
pub struct ExProtoCompactBitArray(multisig::CompactBitArray);

/// Declares the protobuf crate's IBC `Height`, carried opaque.
#[verifier::external_type_specification]
#[verifier::external_body]
pub struct ExProtoHeight(cosmos_sdk_proto::ibc::core::client::v1::Height);

/// Declares the protobuf `Any`, carried opaque.
#[verifier::external_type_specification]
#[verifier::external_body]
pub struct ExAny(Any);

/// Declares the protobuf crate's `MsgSend`, carried opaque.
#[verifier::external_type_specification]
#[verifier::external_body]
pub struct ExMsgSend(MsgSend);

/// Declares the protobuf crate's `MsgExecuteContract`, carried opaque.
#[verifier::external_type_specification]
#[verifier::external_body]
pub struct ExMsgExecuteContract(MsgExecuteContract);

/// Declares the protobuf crate's IBC `MsgTransfer`, carried opaque.
#[verifier::external_type_specification]
#[verifier::external_body]
pub struct ExMsgTransfer(MsgTransfer);

/// Declares the protobuf crate's `MsgDelegate`, carried opaque.
#[verifier::external_type_specification]
#[verifier::external_body]
pub struct ExMsgDelegate(MsgDelegate);

/// Declares the protobuf crate's `MsgWithdrawDelegatorReward`, carried opaque.
#[verifier::external_type_specification]
#[verifier::external_body]
pub struct ExMsgWithdrawDelegatorReward(MsgWithdrawDelegatorReward);

/// Declares `prost::DecodeError`, carried opaque.
#[verifier::external_type_specification]
#[verifier::external_body]
pub struct ExDecodeError(DecodeError);

/// Declares `prost::EncodeError`, carried opaque.
#[verifier::external_type_specification]
#[verifier::external_body]
pub struct ExEncodeError(EncodeError);

/// Declares `base64::DecodeError`, carried opaque.
#[verifier::external_type_specification]
#[verifier::external_body]
pub struct ExBase64DecodeError(base64::DecodeError);

// ---------------------------------------------------------------------------
// Type URLs.

pub open spec fn send_type_url() -> Seq<char> {
    "/cosmos.bank.v1beta1.MsgSend"@
}

pub open spec fn execute_contract_type_url() -> Seq<char> {
    "/cosmwasm.wasm.v1.MsgExecuteContract"@
}

pub open spec fn transfer_type_url() -> Seq<char> {
    "/ibc.applications.transfer.v1.MsgTransfer"@
}

pub open spec fn delegate_type_url() -> Seq<char> {
    "/cosmos.staking.v1beta1.MsgDelegate"@
}

pub open spec fn withdraw_reward_type_url() -> Seq<char> {
    "/cosmos.distribution.v1beta1.MsgWithdrawDelegatorReward"@
}

/// `<MsgSend as TypeUrl>::TYPE_URL`, which the protobuf crate sets to
/// `/cosmos.bank.v1beta1.MsgSend`.
#[verifier::external_body]
pub(crate) fn msg_send_type_url() -> (url: &'static str)
    ensures
        url@ == send_type_url(),
{
    <MsgSend as TypeUrl>::TYPE_URL
}

/// `<MsgExecuteContract as TypeUrl>::TYPE_URL`, which the protobuf crate
/// sets to `/cosmwasm.wasm.v1.MsgExecuteContract`.
#[verifier::external_body]
pub(crate) fn msg_execute_contract_type_url() -> (url: &'static str)
    ensures
        url@ == execute_contract_type_url(),
{
    <MsgExecuteContract as TypeUrl>::TYPE_URL
}

/// `<MsgTransfer as TypeUrl>::TYPE_URL`, which the protobuf crate sets to
/// `/ibc.applications.transfer.v1.MsgTransfer`.
#[verifier::external_body]
pub(crate) fn msg_transfer_type_url() -> (url: &'static str)
    ensures
        url@ == transfer_type_url(),
{
    <MsgTransfer as TypeUrl>::TYPE_URL
}

/// `<MsgDelegate as TypeUrl>::TYPE_URL`, which the protobuf crate sets to
/// `/cosmos.staking.v1beta1.MsgDelegate`.
#[verifier::external_body]
pub(crate) fn msg_delegate_type_url() -> (url: &'static str)
    ensures
        url@ == delegate_type_url(),
{
    <MsgDelegate as TypeUrl>::TYPE_URL
}

/// `<MsgWithdrawDelegatorReward as TypeUrl>::TYPE_URL`, which the protobuf
/// crate sets to `/cosmos.distribution.v1beta1.MsgWithdrawDelegatorReward`.
#[verifier::external_body]
pub(crate) fn msg_withdraw_reward_type_url() -> (url: &'static str)
    ensures
        url@ == withdraw_reward_type_url(),
{
    <MsgWithdrawDelegatorReward as TypeUrl>::TYPE_URL
}

// ---------------------------------------------------------------------------
// Conversions, one for one, between the protobuf crate's values and the
// library's models. They are called only from the bodies of the wrappers
// below; they claim nothing.

#[verifier::external_body]
fn any_of(a: Any) -> AnyMsg {
    AnyMsg { type_url: a.type_url, value: a.value }
}

#[verifier::external_body]
fn any_to(a: &AnyMsg) -> Any {
    Any { type_url: a.type_url.clone(), value: a.value.clone() }
}

#[verifier::external_body]
fn coin_of(c: base::Coin) -> CoinAmount {
    CoinAmount { denom: c.denom, amount: c.amount }
}

#[verifier::external_body]
fn coin_to(c: &CoinAmount) -> base::Coin {
    base::Coin { denom: c.denom.clone(), amount: c.amount.clone() }
}

#[verifier::external_body]
fn mode_of(m: ptx::ModeInfo) -> SigningMode {
    match m.sum {
        None => SigningMode::Unset,
        Some(ptx::mode_info::Sum::Single(s)) => SigningMode::Single { mode: s.mode },
        Some(ptx::mode_info::Sum::Multi(m)) => SigningMode::Multi {
            bitarray: m.bitarray.map(|b| BitArray { extra_bits_stored: b.extra_bits_stored, elems: b.elems }),
            mode_infos: m.mode_infos.into_iter().map(mode_of).collect(),
        },
    }
}

#[verifier::external_body]
fn mode_to(m: &SigningMode) -> ptx::ModeInfo {
    let sum = match m {
        SigningMode::Unset => None,
        SigningMode::Single { mode } => Some(ptx::mode_info::Sum::Single(ptx::mode_info::Single { mode: *mode })),
        SigningMode::Multi { bitarray, mode_infos } => Some(ptx::mode_info::Sum::Multi(ptx::mode_info::Multi {
            bitarray: bitarray.as_ref().map(|b| multisig::CompactBitArray {
                extra_bits_stored: b.extra_bits_stored,
                elems: b.elems.clone(),
            }),
            mode_infos: mode_infos.iter().map(mode_to).collect(),
        })),
    };
    ptx::ModeInfo { sum }
}

#[verifier::external_body]
fn auth_of(a: ptx::AuthInfo) -> TxAuthInfo {
    TxAuthInfo {
        signer_infos: a.signer_infos.into_iter().map(|s| Signer {
            public_key: s.public_key.map(any_of),
            mode_info: s.mode_info.map(mode_of),
            sequence: s.sequence,
        }).collect(),
        fee: a.fee.map(|f| TxFee {
            amount: f.amount.into_iter().map(coin_of).collect(),
            gas_limit: f.gas_limit,
            payer: f.payer,
            granter: f.granter,
        }),
    }
}

#[verifier::external_body]
fn auth_to(a: &TxAuthInfo) -> ptx::AuthInfo {
    ptx::AuthInfo {
        signer_infos: a.signer_infos.iter().map(|s| ptx::SignerInfo {
            public_key: s.public_key.as_ref().map(any_to),
            mode_info: s.mode_info.as_ref().map(mode_to),
            sequence: s.sequence,
        }).collect(),
        fee: a.fee.as_ref().map(|f| ptx::Fee {
            amount: f.amount.iter().map(coin_to).collect(),
            gas_limit: f.gas_limit,
            payer: f.payer.clone(),
            granter: f.granter.clone(),
        }),
    }
}

#[verifier::external_body]
fn body_of(b: ptx::TxBody) -> Body {
    Body {
        messages: b.messages.into_iter().map(any_of).collect(),
        memo: b.memo,
        timeout_height: b.timeout_height,
        extension_options: b.extension_options.into_iter().map(any_of).collect(),
        non_critical_extension_options: b.non_critical_extension_options.into_iter().map(any_of).collect(),
    }
}

#[verifier::external_body]
fn body_to(b: &Body) -> ptx::TxBody {
    ptx::TxBody {
        messages: b.messages.iter().map(any_to).collect(),
        memo: b.memo.clone(),
        timeout_height: b.timeout_height,
        extension_options: b.extension_options.iter().map(any_to).collect(),
        non_critical_extension_options: b.non_critical_extension_options.iter().map(any_to).collect(),
    }
}

#[verifier::external_body]
fn tx_of(t: ptx::Tx) -> BlockTx {
    BlockTx { body: t.body.map(body_of), auth_info: t.auth_info.map(auth_of), signatures: t.signatures }
}

#[verifier::external_body]
fn tx_to(t: &BlockTx) -> ptx::Tx {
    ptx::Tx {
        body: t.body.as_ref().map(body_to),
        auth_info: t.auth_info.as_ref().map(auth_to),
        signatures: t.signatures.clone(),
    }
}

#[verifier::external_body]
fn height_of(h: cosmos_sdk_proto::ibc::core::client::v1::Height) -> IbcHeight {
    IbcHeight { revision_number: h.revision_number, revision_height: h.revision_height }
}

// ---------------------------------------------------------------------------
// Decoding of messages.

/// What `MsgSend::from_any` gives for an `Any` with this type URL and value:
/// `None` where it fails.
pub uninterp spec fn send_from_any(type_url: Seq<char>, value: Seq<u8>) -> Option<SendView>;

/// What `MsgExecuteContract::from_any` gives for an `Any` with this type URL
/// and value: `None` where it fails.
pub uninterp spec fn execute_contract_from_any(type_url: Seq<char>, value: Seq<u8>) -> Option<ExecuteView>;

/// What `MsgTransfer::from_any` gives for an `Any` with this type URL and
/// value: `None` where it fails.
pub uninterp spec fn transfer_from_any(type_url: Seq<char>, value: Seq<u8>) -> Option<TransferView>;

/// What `MsgDelegate::from_any` gives for an `Any` with this type URL and
/// value: `None` where it fails.
pub uninterp spec fn delegate_from_any(type_url: Seq<char>, value: Seq<u8>) -> Option<DelegateView>;

/// What `MsgWithdrawDelegatorReward::from_any` gives for an `Any` with this
/// type URL and value: `None` where it fails, else the delegator's and the
/// validator's address.
pub uninterp spec fn withdraw_reward_from_any(type_url: Seq<char>, value: Seq<u8>) -> Option<
    (Seq<char>, Seq<char>),
>;

/// `MsgSend::from_any` (`MessageExt::from_any`): fails on another type URL,
/// else decodes the value; the contract names the message it gives.
#[verifier::external_body]
pub(crate) fn decode_send(m: &AnyMsg) -> (res: Option<SendMsg>)
    ensures
        match res {
            Some(v) => send_from_any(m.type_url@, m.value@) == Some(v@),
            None => send_from_any(m.type_url@, m.value@) is None,
        },
        m.type_url@ != send_type_url() ==> res is None,
{
    MsgSend::from_any(&any_to(m)).ok().map(|v| SendMsg {
        from_address: v.from_address,
        to_address: v.to_address,
        amount: v.amount.into_iter().map(coin_of).collect(),
    })
}

/// `MsgExecuteContract::from_any` (`MessageExt::from_any`): fails on another
/// type URL, else decodes the value; the contract names the message it gives.
#[verifier::external_body]
pub(crate) fn decode_execute_contract(m: &AnyMsg) -> (res: Option<ExecuteContract>)
    ensures
        match res {
            Some(v) => execute_contract_from_any(m.type_url@, m.value@) == Some(v@),
            None => execute_contract_from_any(m.type_url@, m.value@) is None,
        },
        m.type_url@ != execute_contract_type_url() ==> res is None,
{
    MsgExecuteContract::from_any(&any_to(m)).ok().map(|v| ExecuteContract {
        sender: v.sender,
        contract: v.contract,
        msg: v.msg,
        funds: v.funds.into_iter().map(coin_of).collect(),
    })
}

/// `MsgTransfer::from_any` (`MessageExt::from_any`): fails on another type
/// URL, else decodes the value; the contract names the message it gives.
#[verifier::external_body]
pub(crate) fn decode_transfer(m: &AnyMsg) -> (res: Option<TransferMsg>)
    ensures
        match res {
            Some(v) => transfer_from_any(m.type_url@, m.value@) == Some(v@),
            None => transfer_from_any(m.type_url@, m.value@) is None,
        },
        m.type_url@ != transfer_type_url() ==> res is None,
{
    MsgTransfer::from_any(&any_to(m)).ok().map(|v| TransferMsg {
        source_port: v.source_port,
        source_channel: v.source_channel,
        token: v.token.map(coin_of),
        sender: v.sender,
        receiver: v.receiver,
        timeout_height: v.timeout_height.map(height_of),
        timeout_timestamp: v.timeout_timestamp,
    })
}

/// `MsgDelegate::from_any` (`MessageExt::from_any`): fails on another type
/// URL, else decodes the value; the contract names the message it gives.
#[verifier::external_body]
pub(crate) fn decode_delegate(m: &AnyMsg) -> (res: Option<DelegateMsg>)
    ensures
        match res {
            Some(v) => delegate_from_any(m.type_url@, m.value@) == Some(v@),
            None => delegate_from_any(m.type_url@, m.value@) is None,
        },
        m.type_url@ != delegate_type_url() ==> res is None,
{
    MsgDelegate::from_any(&any_to(m)).ok().map(|v| DelegateMsg {
        delegator_address: v.delegator_address,
        validator_address: v.validator_address,
        amount: v.amount.map(coin_of),
    })
}

/// `MsgWithdrawDelegatorReward::from_any` (`MessageExt::from_any`): fails on
/// another type URL, else decodes the value; the contract names the message
/// it gives.
#[verifier::external_body]
pub(crate) fn decode_withdraw_reward(m: &AnyMsg) -> (res: Option<WithdrawRewardMsg>)
    ensures
        match res {
            Some(v) => withdraw_reward_from_any(m.type_url@, m.value@) == Some(v@),
            None => withdraw_reward_from_any(m.type_url@, m.value@) is None,
        },
        m.type_url@ != withdraw_reward_type_url() ==> res is None,
{
    MsgWithdrawDelegatorReward::from_any(&any_to(m)).ok().map(|v| WithdrawRewardMsg {
        delegator_address: v.delegator_address,
        validator_address: v.validator_address,
    })
}

// ---------------------------------------------------------------------------
// Transactions.

/// What `<Tx as prost::Message>::decode` gives for these bytes: `None` where
/// decoding fails.
pub uninterp spec fn tx_decoded(bytes: Seq<u8>) -> Option<TxView>;

/// What `MessageExt::to_bytes` gives for a transaction where it succeeds: its
/// protobuf encoding.
pub uninterp spec fn tx_encoded(tx: TxView) -> Seq<u8>;

/// What `base64::decode` (standard alphabet, padded) gives for this text:
/// `None` where it fails.
pub uninterp spec fn base64_decoded(text: Seq<char>) -> Option<Seq<u8>>;

/// What `base64::encode` (standard alphabet, padded) gives for these bytes.
pub uninterp spec fn base64_encoded(bytes: Seq<u8>) -> Seq<char>;

/// A character of the standard base64 alphabet, or the padding `=`.
pub open spec fn is_base64_char(c: char) -> bool {
    ('A' <= c && c <= 'Z') || ('a' <= c && c <= 'z') || ('0' <= c && c <= '9') || c == '+' || c == '/'
        || c == '='
}

/// The shape of padded base64 text for `n` bytes: four characters for each
/// three bytes or part of three, all of the alphabet, with `=` only among
/// the last two.
pub open spec fn base64_shape(text: Seq<char>, n: nat) -> bool {
    &&& text.len() == 4 * ((n + 2) / 3)
    &&& forall|i: int| 0 <= i < text.len() ==> is_base64_char(#[trigger] text[i])
    &&& forall|i: int| 0 <= i < text.len() - 2 ==> #[trigger] text[i] != '='
}

/// `base64::decode`, which panics only where the length of its input plus
/// three (its length estimate) or plus seven (its count of eight-byte
/// chunks) overflows; the contract names what it gives.
#[verifier::external_body]
pub(crate) fn base64_decode(text: &str) -> (res: Result<Vec<u8>, base64::DecodeError>)
    requires
        text.spec_bytes().len() + 7 <= usize::MAX,
    ensures
        match res {
            Ok(bytes) => base64_decoded(text@) == Some(bytes@),
            Err(_) => base64_decoded(text@) is None,
        },
{
    base64::decode(text)
}

/// `base64::encode`, which panics only where the size of its output
/// overflows. The contract names what it gives, states its length,
/// alphabet and padding (as `encoded_size` and the padding code write it),
/// and that `base64::decode` reads it back to the same bytes.
#[verifier::external_body]
pub(crate) fn base64_encode(bytes: &Vec<u8>) -> (text: String)
    requires
        bytes@.len() / 3 * 4 + 4 <= usize::MAX,
    ensures
        text@ == base64_encoded(bytes@),
        base64_shape(text@, bytes@.len()),
        base64_decoded(text@) == Some(bytes@),
{
    base64::encode(bytes)
}

/// `<Tx as prost::Message>::decode` on these bytes, the transaction converted
/// one for one. The contract names what it gives, and states that encoding
/// what it gives and decoding that again gives it back.
#[verifier::external_body]
pub(crate) fn decode_tx(bytes: &Vec<u8>) -> (res: Result<BlockTx, DecodeError>)
    ensures
        match res {
            Ok(tx) => tx_decoded(bytes@) == Some(tx@) && tx_decoded(tx_encoded(tx@)) == Some(tx@),
            Err(_) => tx_decoded(bytes@) is None,
        },
{
    Ok(tx_of(<ptx::Tx as Message>::decode(bytes.as_slice())?))
}

/// The signing modes of a transaction nest at most `n` levels of `Multi`
/// deep (prost decodes messages nested at most `RECURSION_LIMIT`, 100, deep;
/// each `Multi` level is two nested messages, below the three of `Tx`,
/// `AuthInfo` and `SignerInfo`).
pub open spec fn tx_modes_within(tx: TxView, n: nat) -> bool {
    match tx.auth_info {
        Some(a) => forall|i: int|
            0 <= i < a.signer_infos.len() ==> signer_modes_within(#[trigger] a.signer_infos[i], n),
        None => true,
    }
}

/// The signing mode of a signer, if it has one, nests at most `n` levels of
/// `Multi` deep.
pub open spec fn signer_modes_within(s: SignerView, n: nat) -> bool {
    match s.mode_info {
        Some(m) => mode_within(m, n),
        None => true,
    }
}

/// A signing mode nests at most `n` levels of `Multi` deep.
pub open spec fn mode_within(m: SigningModeView, n: nat) -> bool
    decreases n,
{
    match m {
        SigningModeView::Multi(_, ms) => n > 0 && forall|i: int|
            0 <= i < ms.len() ==> mode_within(#[trigger] ms[i], (n - 1) as nat),
        _ => true,
    }
}

/// `MessageExt::to_bytes` on the transaction converted one for one. It
/// writes into an empty `Vec`, and `Message::encode` fails exactly where the
/// encoded length exceeds the room the buffer has, `isize::MAX` for a `Vec`.
/// The contract names the bytes it gives, says when it succeeds, and that
/// prost decodes them back to the transaction where its signing modes nest
/// well within prost's recursion limit.
#[verifier::external_body]
pub(crate) fn encode_tx(tx: &BlockTx) -> (res: Result<Vec<u8>, EncodeError>)
    ensures
        (res is Ok) == (tx_encoded(tx@).len() <= isize::MAX),
        res matches Ok(bytes) ==> bytes@ == tx_encoded(tx@) && bytes@.len() <= isize::MAX,
        res matches Ok(bytes) ==> (tx_modes_within(tx@, 40) ==> tx_decoded(bytes@) == Some(tx@)),
{
    tx_to(tx).to_bytes()
}

} // verus!
