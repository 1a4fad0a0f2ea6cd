use vstd::prelude::*;

verus! {

// Plain models of the protobuf values that the library reads and writes,
// field for field, with their views.

/// A protobuf `Any`: a type URL and an encoded value.
#[derive(Debug)]
pub struct AnyMsg {
    pub type_url: String,
    pub value: Vec<u8>,
}

impl View for AnyMsg {
    type V = (Seq<char>, Seq<u8>);

    open spec fn view(&self) -> (Seq<char>, Seq<u8>) {
        (self.type_url@, self.value@)
    }
}

/// The views of a sequence of `Any`s.
pub open spec fn any_views(ms: Seq<AnyMsg>) -> Seq<(Seq<char>, Seq<u8>)> {
    ms.map_values(|m: AnyMsg| m@)
}

/// An amount of a denomination (`cosmos.base.v1beta1.Coin`).
#[derive(Debug)]
pub struct CoinAmount {
    pub denom: String,
    pub amount: String,
}

impl View for CoinAmount {
    type V = (Seq<char>, Seq<char>);

    open spec fn view(&self) -> (Seq<char>, Seq<char>) {
        (self.denom@, self.amount@)
    }
}

/// The views of a sequence of coins.
pub open spec fn coin_views(cs: Seq<CoinAmount>) -> Seq<(Seq<char>, Seq<char>)> {
    cs.map_values(|c: CoinAmount| c@)
}

/// The view of a coin that may be absent.
pub open spec fn opt_coin_view(c: Option<CoinAmount>) -> Option<(Seq<char>, Seq<char>)> {
    match c {
        Some(c) => Some(c@),
        None => None,
    }
}

/// An IBC height (`ibc.core.client.v1.Height`).
#[derive(Clone, Copy, Debug, PartialEq, Eq, Structural)]
pub struct IbcHeight {
    pub revision_number: u64,
    pub revision_height: u64,
}

// ---------------------------------------------------------------------------
// Messages.

/// `cosmos.bank.v1beta1.MsgSend`.
#[derive(Debug)]
pub struct SendMsg {
    pub from_address: String,
    pub to_address: String,
    pub amount: Vec<CoinAmount>,
}

pub struct SendView {
    pub from_address: Seq<char>,
    pub to_address: Seq<char>,
    pub amount: Seq<(Seq<char>, Seq<char>)>,
}

impl View for SendMsg {
    type V = SendView;

    open spec fn view(&self) -> SendView {
        SendView { from_address: self.from_address@, to_address: self.to_address@, amount: coin_views(self.amount@) }
    }
}

/// `cosmwasm.wasm.v1.MsgExecuteContract`.
#[derive(Debug)]
pub struct ExecuteContract {
    /// The account that signed the message.
    pub sender: String,
    /// The address of the contract executed.
    pub contract: String,
    /// The JSON message handed to the contract.
    pub msg: Vec<u8>,
    /// The coins transferred to the contract.
    pub funds: Vec<CoinAmount>,
}

pub struct ExecuteView {
    pub sender: Seq<char>,
    pub contract: Seq<char>,
    pub msg: Seq<u8>,
    pub funds: Seq<(Seq<char>, Seq<char>)>,
}

impl View for ExecuteContract {
    type V = ExecuteView;

    open spec fn view(&self) -> ExecuteView {
        ExecuteView { sender: self.sender@, contract: self.contract@, msg: self.msg@, funds: coin_views(self.funds@) }
    }
}

/// `ibc.applications.transfer.v1.MsgTransfer`.
#[derive(Debug)]
pub struct TransferMsg {
    pub source_port: String,
    pub source_channel: String,
    pub token: Option<CoinAmount>,
    pub sender: String,
    pub receiver: String,
    pub timeout_height: Option<IbcHeight>,
    pub timeout_timestamp: u64,
}

pub struct TransferView {
    pub source_port: Seq<char>,
    pub source_channel: Seq<char>,
    pub token: Option<(Seq<char>, Seq<char>)>,
    pub sender: Seq<char>,
    pub receiver: Seq<char>,
    pub timeout_height: Option<IbcHeight>,
    pub timeout_timestamp: u64,
}

impl View for TransferMsg {
    type V = TransferView;

    open spec fn view(&self) -> TransferView {
        TransferView {
            source_port: self.source_port@,
            source_channel: self.source_channel@,
            token: opt_coin_view(self.token),
            sender: self.sender@,
            receiver: self.receiver@,
            timeout_height: self.timeout_height,
            timeout_timestamp: self.timeout_timestamp,
        }
    }
}

/// `cosmos.staking.v1beta1.MsgDelegate`.
#[derive(Debug)]
pub struct DelegateMsg {
    pub delegator_address: String,
    pub validator_address: String,
    pub amount: Option<CoinAmount>,
}

pub struct DelegateView {
    pub delegator_address: Seq<char>,
    pub validator_address: Seq<char>,
    pub amount: Option<(Seq<char>, Seq<char>)>,
}

impl View for DelegateMsg {
    type V = DelegateView;

    open spec fn view(&self) -> DelegateView {
        DelegateView {
            delegator_address: self.delegator_address@,
            validator_address: self.validator_address@,
            amount: opt_coin_view(self.amount),
        }
    }
}

/// `cosmos.distribution.v1beta1.MsgWithdrawDelegatorReward`.
#[derive(Debug)]
pub struct WithdrawRewardMsg {
    pub delegator_address: String,
    pub validator_address: String,
}

impl View for WithdrawRewardMsg {
    type V = (Seq<char>, Seq<char>);

    /// The delegator's and the validator's address.
    open spec fn view(&self) -> (Seq<char>, Seq<char>) {
        (self.delegator_address@, self.validator_address@)
    }
}

// ---------------------------------------------------------------------------
// Transactions.

/// `cosmos.crypto.multisig.v1beta1.CompactBitArray`.
#[derive(Debug)]
pub struct BitArray {
    pub extra_bits_stored: u32,
    pub elems: Vec<u8>,
}

/// `cosmos.tx.v1beta1.ModeInfo`: its `sum`, unset or one of two kinds.
#[derive(Debug)]
pub enum SigningMode {
    Unset,
    Single { mode: i32 },
    Multi { bitarray: Option<BitArray>, mode_infos: Vec<SigningMode> },
}

pub enum SigningModeView {
    Unset,
    Single(i32),
    Multi(Option<(u32, Seq<u8>)>, Seq<SigningModeView>),
}

/// The view of a mode info.
pub open spec fn mode_info_view(m: SigningMode) -> SigningModeView
    decreases m,
{
    match m {
        SigningMode::Unset => SigningModeView::Unset,
        SigningMode::Single { mode } => SigningModeView::Single(mode),
        SigningMode::Multi { bitarray, mode_infos } => SigningModeView::Multi(
            match bitarray {
                Some(b) => Some((b.extra_bits_stored, b.elems@)),
                None => None,
            },
            mode_infos_view(mode_infos@),
        ),
    }
}

/// The views of a sequence of mode infos.
pub open spec fn mode_infos_view(s: Seq<SigningMode>) -> Seq<SigningModeView>
    decreases s,
{
    if s.len() == 0 {
        Seq::empty()
    } else {
        mode_infos_view(s.drop_last()).push(mode_info_view(s[s.len() - 1]))
    }
}

/// `cosmos.tx.v1beta1.SignerInfo`.
#[derive(Debug)]
pub struct Signer {
    pub public_key: Option<AnyMsg>,
    pub mode_info: Option<SigningMode>,
    pub sequence: u64,
}

pub struct SignerView {
    pub public_key: Option<(Seq<char>, Seq<u8>)>,
    pub mode_info: Option<SigningModeView>,
    pub sequence: u64,
}

impl View for Signer {
    type V = SignerView;

    open spec fn view(&self) -> SignerView {
        SignerView {
            public_key: match self.public_key {
                Some(k) => Some(k@),
                None => None,
            },
            mode_info: match self.mode_info {
                Some(m) => Some(mode_info_view(m)),
                None => None,
            },
            sequence: self.sequence,
        }
    }
}

/// `cosmos.tx.v1beta1.Fee`.
#[derive(Debug)]
pub struct TxFee {
    pub amount: Vec<CoinAmount>,
    pub gas_limit: u64,
    pub payer: String,
    pub granter: String,
}

pub struct TxFeeView {
    pub amount: Seq<(Seq<char>, Seq<char>)>,
    pub gas_limit: u64,
    pub payer: Seq<char>,
    pub granter: Seq<char>,
}

impl View for TxFee {
    type V = TxFeeView;

    open spec fn view(&self) -> TxFeeView {
        TxFeeView { amount: coin_views(self.amount@), gas_limit: self.gas_limit, payer: self.payer@, granter: self.granter@ }
    }
}

/// `cosmos.tx.v1beta1.AuthInfo`.
#[derive(Debug)]
pub struct TxAuthInfo {
    pub signer_infos: Vec<Signer>,
    pub fee: Option<TxFee>,
}

pub struct TxAuthInfoView {
    pub signer_infos: Seq<SignerView>,
    pub fee: Option<TxFeeView>,
}

impl View for TxAuthInfo {
    type V = TxAuthInfoView;

    open spec fn view(&self) -> TxAuthInfoView {
        TxAuthInfoView {
            signer_infos: self.signer_infos@.map_values(|i: Signer| i@),
            fee: match self.fee {
                Some(f) => Some(f@),
                None => None,
            },
        }
    }
}

/// `cosmos.tx.v1beta1.TxBody`.
#[derive(Debug)]
pub struct Body {
    pub messages: Vec<AnyMsg>,
    pub memo: String,
    pub timeout_height: u64,
    pub extension_options: Vec<AnyMsg>,
    pub non_critical_extension_options: Vec<AnyMsg>,
}

pub struct BodyView {
    pub messages: Seq<(Seq<char>, Seq<u8>)>,
    pub memo: Seq<char>,
    pub timeout_height: u64,
    pub extension_options: Seq<(Seq<char>, Seq<u8>)>,
    pub non_critical_extension_options: Seq<(Seq<char>, Seq<u8>)>,
}

impl View for Body {
    type V = BodyView;

    open spec fn view(&self) -> BodyView {
        BodyView {
            messages: any_views(self.messages@),
            memo: self.memo@,
            timeout_height: self.timeout_height,
            extension_options: any_views(self.extension_options@),
            non_critical_extension_options: any_views(self.non_critical_extension_options@),
        }
    }
}

/// `cosmos.tx.v1beta1.Tx`: a transaction, as a block holds it.
#[derive(Debug)]
pub struct BlockTx {
    pub body: Option<Body>,
    pub auth_info: Option<TxAuthInfo>,
    pub signatures: Vec<Vec<u8>>,
}

pub struct TxView {
    pub body: Option<BodyView>,
    pub auth_info: Option<TxAuthInfoView>,
    pub signatures: Seq<Seq<u8>>,
}

impl View for BlockTx {
    type V = TxView;

    open spec fn view(&self) -> TxView {
        TxView {
            body: match self.body {
                Some(b) => Some(b@),
                None => None,
            },
            auth_info: match self.auth_info {
                Some(a) => Some(a@),
                None => None,
            },
            signatures: self.signatures@.map_values(|s: Vec<u8>| s@),
        }
    }
}

} // verus!
