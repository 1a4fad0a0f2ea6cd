use vstd::prelude::*;
use crate::rpc::{BlockResponse, BlockchainResponse, RPCBlockchainResponseBlockMeta};
use crate::model::BlockTx;
use crate::tx::{msg_views, spec_get_msgs, TxMsg, TxMsgView};

verus! {

/// The address of the Loop NFT marketplace contract on Juno.
pub const LOOP_NFT_CONTRACT: &'static str = "juno1kylehdql046nep2gtdgl56sl09l7wv4q6cj44cwuzfs6wxnh4flszdmkk0";

/// The heights, in order, of the blocks of a window that hold at least one
/// transaction.
pub open spec fn spec_heights_with_txs(metas: Seq<RPCBlockchainResponseBlockMeta>) -> Seq<u64>
    decreases metas.len(),
{
    if metas.len() == 0 {
        Seq::empty()
    } else {
        let rest = spec_heights_with_txs(metas.drop_last());
        if metas.last().num_txs > 0 {
            rest.push(metas.last().header.height)
        } else {
            rest
        }
    }
}

/// The heights of the blocks of a `Blockchain` answer that hold at least one
/// transaction, in the order of the answer.
pub fn heights_with_txs(blockchain: &BlockchainResponse) -> (heights: Vec<u64>)
    ensures
        heights@ == spec_heights_with_txs(blockchain.block_metas@),
{
    let metas = &blockchain.block_metas;
    let mut heights: Vec<u64> = Vec::new();
    let mut i: usize = 0;
    while i < metas.len()
        invariant
            i <= metas@.len(),
            heights@ == spec_heights_with_txs(metas@.take(i as int)),
        decreases metas@.len() - i,
    {
        assert(metas@.take(i + 1).drop_last() =~= metas@.take(i as int));
        if metas[i].num_txs > 0 {
            heights.push(metas[i].header.height);
        }
        i = i + 1;
    }
    assert(metas@.take(metas@.len() as int) =~= metas@);
    heights
}

/// The contract and message of each execution of a contract among these
/// messages, in order.
pub open spec fn spec_execute_calls(msgs: Seq<TxMsgView>) -> Seq<(Seq<char>, Seq<u8>)>
    decreases msgs.len(),
{
    if msgs.len() == 0 {
        Seq::empty()
    } else {
        let rest = spec_execute_calls(msgs.drop_last());
        match msgs.last() {
            TxMsgView::ExecuteContract(ec) => rest.push((ec.contract, ec.msg)),
            _ => rest,
        }
    }
}

/// The contract and message of each execution of a contract among the
/// messages of these transactions, transaction after transaction.
pub open spec fn spec_block_calls(txs: Seq<Seq<TxMsgView>>) -> Seq<(Seq<char>, Seq<u8>)>
    decreases txs.len(),
{
    if txs.len() == 0 {
        Seq::empty()
    } else {
        spec_block_calls(txs.drop_last()) + spec_execute_calls(txs.last())
    }
}

/// The messages of each transaction of a block.
pub open spec fn block_msg_views(txs: Seq<BlockTx>) -> Seq<Seq<TxMsgView>> {
    txs.map_values(|tx: BlockTx| spec_get_msgs(tx@))
}

/// The views of the messages of each of a list of transactions.
pub open spec fn nested_msg_views(txs: Seq<Vec<TxMsg>>) -> Seq<Seq<TxMsgView>> {
    txs.map_values(|msgs: Vec<TxMsg>| msg_views(msgs@))
}

/// Whether one of these executions is of the Loop NFT contract.
pub open spec fn spec_calls_loop(calls: Seq<(Seq<char>, Seq<u8>)>) -> bool {
    exists|i: int| 0 <= i < calls.len() && #[trigger] calls[i].0 == LOOP_NFT_CONTRACT@
}

/// These executions, each with `height`.
pub open spec fn at_height(height: u64, calls: Seq<(Seq<char>, Seq<u8>)>) -> Seq<(u64, Seq<char>, Seq<u8>)> {
    calls.map_values(|c: (Seq<char>, Seq<u8>)| (height, c.0, c.1))
}

/// What is reported of the block at `height` whose transactions have these
/// messages: where one of them executes the Loop NFT contract, every
/// execution of a contract in the block (whatever the contract), in order,
/// each with the height; else nothing.
pub open spec fn spec_report(height: u64, txs: Seq<Seq<TxMsgView>>) -> Seq<
    (u64, Seq<char>, Seq<u8>),
> {
    let calls = spec_block_calls(txs);
    if spec_calls_loop(calls) {
        at_height(height, calls)
    } else {
        Seq::empty()
    }
}

/// An execution of a contract to report: the height of its block, the
/// contract and the JSON message it was handed.
#[derive(Debug)]
pub struct ContractCall {
    pub height: u64,
    pub contract: String,
    pub msg: Vec<u8>,
}

impl View for ContractCall {
    type V = (u64, Seq<char>, Seq<u8>);

    open spec fn view(&self) -> (u64, Seq<char>, Seq<u8>) {
        (self.height, self.contract@, self.msg@)
    }
}

/// The views of a sequence of calls.
pub open spec fn call_views(calls: Seq<ContractCall>) -> Seq<(u64, Seq<char>, Seq<u8>)> {
    calls.map_values(|c: ContractCall| c@)
}

fn clone_bytes(v: &Vec<u8>) -> (res: Vec<u8>)
    ensures
        res@ == v@,
{
    let res = v.clone();
    assert(res@ =~= v@);
    res
}

/// Appends to `calls` the executions of a contract among `msgs`, each with
/// `height`; `found` becomes true where one of them is of the Loop NFT
/// contract.
fn collect_calls(height: u64, msgs: &Vec<TxMsg>, calls: &mut Vec<ContractCall>, found: &mut bool)
    ensures
        call_views(final(calls)@) == call_views(old(calls)@) + at_height(height, spec_execute_calls(msg_views(msgs@))),
        *final(found) == (*old(found) || spec_calls_loop(spec_execute_calls(msg_views(msgs@)))),
{
    let loop_contract = LOOP_NFT_CONTRACT.to_owned();
    let ghost calls0 = call_views(calls@);
    let ghost found0 = *found;
    let mut i: usize = 0;
    while i < msgs.len()
        invariant
            i <= msgs@.len(),
            loop_contract@ == LOOP_NFT_CONTRACT@,
            call_views(calls@) == calls0 + at_height(height, spec_execute_calls(msg_views(msgs@.take(i as int)))),
            *found == (found0 || spec_calls_loop(spec_execute_calls(msg_views(msgs@.take(i as int))))),
        decreases msgs@.len() - i,
    {
        let ghost before = spec_execute_calls(msg_views(msgs@.take(i as int)));
        assert(msg_views(msgs@.take(i + 1)).drop_last() =~= msg_views(msgs@.take(i as int)));
        let ghost calls_before = call_views(calls@);
        match &msgs[i] {
            TxMsg::ExecuteContract(ec) => {
                let call = ContractCall {
                    height,
                    contract: ec.contract.clone(),
                    msg: clone_bytes(&ec.msg),
                };
                let is_loop = ec.contract == loop_contract;
                calls.push(call);
                let ghost after = spec_execute_calls(msg_views(msgs@.take(i + 1)));
                assert(after == before.push((ec.contract@, ec.msg@)));
                assert(call_views(calls@) =~= calls_before.push((height, ec.contract@, ec.msg@)));
                assert(at_height(height, after) =~= at_height(height, before).push((height, ec.contract@, ec.msg@)));
                if is_loop {
                    *found = true;
                    assert(after[after.len() - 1].0 == LOOP_NFT_CONTRACT@);
                } else {
                    assert(spec_calls_loop(after) == spec_calls_loop(before)) by {
                        if spec_calls_loop(after) {
                            let k = choose|k: int| 0 <= k < after.len() && #[trigger] after[k].0 == LOOP_NFT_CONTRACT@;
                            assert(before[k] == after[k]);
                        }
                        if spec_calls_loop(before) {
                            let k = choose|k: int| 0 <= k < before.len() && #[trigger] before[k].0 == LOOP_NFT_CONTRACT@;
                            assert(before[k] == after[k]);
                        }
                    }
                }
            },
            _ => {},
        }
        i = i + 1;
    }
    assert(msgs@.take(msgs@.len() as int) =~= msgs@);
}

pub(crate) proof fn lemma_calls_loop_concat(a: Seq<(Seq<char>, Seq<u8>)>, b: Seq<(Seq<char>, Seq<u8>)>)
    ensures
        spec_calls_loop(a + b) == (spec_calls_loop(a) || spec_calls_loop(b)),
{
    if spec_calls_loop(a + b) {
        let k = choose|k: int| 0 <= k < (a + b).len() && #[trigger] (a + b)[k].0 == LOOP_NFT_CONTRACT@;
        if k < a.len() {
            assert(a[k] == (a + b)[k]);
        } else {
            assert(b[k - a.len()] == (a + b)[k]);
        }
    }
    if spec_calls_loop(a) {
        let k = choose|k: int| 0 <= k < a.len() && #[trigger] a[k].0 == LOOP_NFT_CONTRACT@;
        assert((a + b)[k] == a[k]);
    }
    if spec_calls_loop(b) {
        let k = choose|k: int| 0 <= k < b.len() && #[trigger] b[k].0 == LOOP_NFT_CONTRACT@;
        assert((a + b)[k + a.len()] == b[k]);
    }
}

/// What is reported of the block at `height` whose transactions have the
/// messages `txs`: where one of them executes the Loop NFT contract, every
/// execution of a contract among them, in order; else nothing.
pub fn report_calls(height: u64, txs: &Vec<Vec<TxMsg>>) -> (calls: Vec<ContractCall>)
    ensures
        call_views(calls@) == spec_report(height, nested_msg_views(txs@)),
{
    let mut calls: Vec<ContractCall> = Vec::new();
    let mut found = false;
    let mut i: usize = 0;
    while i < txs.len()
        invariant
            i <= txs@.len(),
            call_views(calls@) == at_height(height, spec_block_calls(nested_msg_views(txs@.take(i as int)))),
            found == spec_calls_loop(spec_block_calls(nested_msg_views(txs@.take(i as int)))),
        decreases txs@.len() - i,
    {
        let ghost before = spec_block_calls(nested_msg_views(txs@.take(i as int)));
        assert(nested_msg_views(txs@.take(i + 1)).drop_last() =~= nested_msg_views(txs@.take(i as int)));
        assert(nested_msg_views(txs@.take(i + 1)).last() == msg_views(txs@[i as int]@));
        collect_calls(height, &txs[i], &mut calls, &mut found);
        proof {
            let added = spec_execute_calls(msg_views(txs@[i as int]@));
            assert(spec_block_calls(nested_msg_views(txs@.take(i + 1))) == before + added);
            assert(at_height(height, before + added) =~= at_height(height, before) + at_height(height, added));
            lemma_calls_loop_concat(before, added);
        }
        i = i + 1;
    }
    assert(txs@.take(txs@.len() as int) =~= txs@);
    if found {
        calls
    } else {
        Vec::new()
    }
}

/// What is reported of the block at `height` that a `Block` answer holds:
/// the report (see `report_calls`) on the messages of its transactions.
pub fn block_report(height: u64, block: &BlockResponse) -> (calls: Vec<ContractCall>)
    ensures
        call_views(calls@) == spec_report(height, block_msg_views(block.block.data.txs@)),
{
    let txs = &block.block.data.txs;
    let mut msgs: Vec<Vec<TxMsg>> = Vec::new();
    let mut i: usize = 0;
    while i < txs.len()
        invariant
            i <= txs@.len(),
            nested_msg_views(msgs@) == block_msg_views(txs@.take(i as int)),
        decreases txs@.len() - i,
    {
        let m = txs[i].get_msgs();
        let ghost before = msgs@;
        let ghost mv = msg_views(m@);
        msgs.push(m);
        assert(msgs@ == before.push(m));
        assert(nested_msg_views(msgs@) =~= nested_msg_views(before).push(mv));
        assert(block_msg_views(txs@.take(i + 1)) =~= block_msg_views(txs@.take(i as int)).push(
            spec_get_msgs(txs@[i as int]@),
        ));
        i = i + 1;
    }
    assert(txs@.take(txs@.len() as int) =~= txs@);
    report_calls(height, &msgs)
}

} // verus!
