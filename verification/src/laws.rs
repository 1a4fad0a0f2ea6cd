use vstd::prelude::*;
use crate::decimal::{decimal, digit_char};
use crate::report::{
    at_height, block_msg_views, lemma_calls_loop_concat, spec_block_calls, spec_calls_loop,
    spec_execute_calls, spec_heights_with_txs, spec_report, LOOP_NFT_CONTRACT,
};
use crate::model::BlockTx;
use crate::rpc::{spec_request_url, BlockResponse, CosmosRPC, CosmosRPCResponse, RPCBlockchainResponseBlockMeta};
use crate::scan::{
    scanner_wf, spec_initial, spec_next_block, spec_on_response, spec_open_window, Next, Phase,
    ScannerView, START_HEIGHT, STEP,
};
use crate::codec::{
    base64_decoded, delegate_from_any, delegate_type_url, execute_contract_from_any,
    execute_contract_type_url, send_from_any, send_type_url, transfer_from_any, transfer_type_url,
    tx_decoded, tx_encoded, withdraw_reward_from_any, withdraw_reward_type_url,
};
use crate::model::TxView;
use crate::tx::{spec_get_msgs, spec_tx_from_str, spec_tx_msg, spec_tx_msgs, spec_tx_text, TxMsgView};

verus! {

// ---------------------------------------------------------------------------
// The scan.

/// The state a scan reaches from `s` on the answers `rs`, in order, and the
/// next step it gives after each.
pub open spec fn spec_run(s: ScannerView, rs: Seq<CosmosRPCResponse>) -> (ScannerView, Seq<Next>)
    decreases rs.len(),
{
    if rs.len() == 0 {
        (s, Seq::empty())
    } else {
        let (t, _, next) = spec_on_response(s, rs[0]);
        let (u, nexts) = spec_run(t, rs.drop_first());
        (u, seq![next] + nexts)
    }
}

/// The requests for the blocks at these heights, in order.
pub open spec fn block_fetches(heights: Seq<u64>) -> Seq<Next> {
    heights.map_values(|h: u64| Next::Fetch(CosmosRPC::Block { height: h }))
}

/// A scan begins in a well-formed state, and every answer leaves it in one.
pub proof fn lemma_wf_kept(s: ScannerView, r: CosmosRPCResponse)
    ensures
        scanner_wf(spec_initial()),
        scanner_wf(s) ==> scanner_wf(spec_on_response(s, r).0),
{
}

/// The top height of the current window never rises.
pub proof fn lemma_height_never_rises(s: ScannerView, r: CosmosRPCResponse)
    requires
        scanner_wf(s),
    ensures
        spec_on_response(s, r).0.height <= s.height,
{
}

/// Every window asked for is the `STEP` heights below its top height, that
/// top height is where the scan then stands, and it is the current height
/// (the first window) or the current height less `STEP` (each later one).
pub proof fn lemma_window_shape(s: ScannerView, r: CosmosRPCResponse, min: u64, max: u64)
    requires
        scanner_wf(s),
        spec_on_response(s, r).2 == Next::Fetch(CosmosRPC::Blockchain { min_height: min, max_height: max }),
    ensures
        min + STEP == max,
        spec_on_response(s, r).0.phase == Phase::AwaitBlockchain,
        spec_on_response(s, r).0.height == max,
        (s.phase == Phase::AwaitStatus && max == s.height) || max + STEP == s.height,
{
}

/// The height of a scan stays congruent to `START_HEIGHT` modulo `STEP`:
/// every window's top height is `START_HEIGHT` less a multiple of `STEP`.
pub proof fn lemma_height_congruent(s: ScannerView, r: CosmosRPCResponse)
    requires
        scanner_wf(s),
        s.height % STEP == START_HEIGHT % STEP,
    ensures
        spec_on_response(s, r).0.height % STEP == START_HEIGHT % STEP,
        spec_initial().height % STEP == START_HEIGHT % STEP,
{
}

/// The scan never ends at height zero: `START_HEIGHT` is not a multiple of
/// `STEP`, so where it ends for want of heights it is `Underflow` at
/// `START_HEIGHT % STEP`.
pub proof fn lemma_ends_in_underflow(s: ScannerView, r: CosmosRPCResponse)
    requires
        scanner_wf(s),
        s.height % STEP == START_HEIGHT % STEP,
    ensures
        spec_on_response(s, r).2 != Next::Done || s.phase == Phase::AwaitStatus
            || s.phase == Phase::Finished,
        spec_on_response(s, r).2 matches Next::Underflow(h) ==> h == START_HEIGHT % STEP,
{
}

proof fn lemma_drain(height: u64, pending: Seq<u64>, rs: Seq<CosmosRPCResponse>)
    requires
        height >= STEP,
        pending.len() > 0,
        rs.len() == pending.len(),
    ensures
        spec_run(ScannerView { phase: Phase::AwaitBlock, height, pending }, rs) == (
            spec_open_window((height - STEP) as u64).0,
            block_fetches(pending.drop_first()).push(spec_open_window((height - STEP) as u64).1),
        ),
    decreases pending.len(),
{
    let s = ScannerView { phase: Phase::AwaitBlock, height, pending };
    let rest = pending.drop_first();
    let (t, _, next) = spec_on_response(s, rs[0]);
    assert((t, next) == spec_next_block(height, rest));
    let (u, nexts) = spec_run(t, rs.drop_first());
    assert(spec_run(s, rs) == (u, seq![next] + nexts));
    if rest.len() == 0 {
        assert(rs.drop_first() =~= Seq::<CosmosRPCResponse>::empty());
        assert(spec_run(t, rs.drop_first()) == (t, Seq::<Next>::empty()));
        assert(block_fetches(rest) =~= Seq::<Next>::empty());
        assert(seq![next] + Seq::<Next>::empty() =~= Seq::<Next>::empty().push(next));
    } else {
        assert(t == ScannerView { phase: Phase::AwaitBlock, height, pending: rest });
        lemma_drain(height, rest, rs.drop_first());
        assert(next == Next::Fetch(CosmosRPC::Block { height: rest[0] }));
        assert(block_fetches(rest) =~= seq![next] + block_fetches(rest.drop_first()));
        assert(seq![next] + nexts =~= block_fetches(rest).push(spec_open_window((height - STEP) as u64).1));
    }
}

/// Each window is walked through: on its answer, every one of its blocks
/// with transactions is asked for, once each and in the order of the
/// answer, whatever the answers to those requests; then the window below
/// is opened.
pub proof fn lemma_window_walk(height: u64, window: CosmosRPCResponse, rs: Seq<CosmosRPCResponse>)
    requires
        height >= STEP,
        window is Blockchain,
        rs.len() == spec_heights_with_txs(window->Blockchain_0.block_metas@).len(),
    ensures
        ({
            let heights = spec_heights_with_txs(window->Blockchain_0.block_metas@);
            let below = spec_open_window((height - STEP) as u64);
            spec_run(
                ScannerView { phase: Phase::AwaitBlockchain, height, pending: Seq::empty() },
                seq![window] + rs,
            ) == (below.0, block_fetches(heights).push(below.1))
        }),
{
    let heights = spec_heights_with_txs(window->Blockchain_0.block_metas@);
    let below = spec_open_window((height - STEP) as u64);
    let s = ScannerView { phase: Phase::AwaitBlockchain, height, pending: Seq::empty() };
    let all = seq![window] + rs;
    assert(all[0] == window);
    assert(all.drop_first() =~= rs);
    let (t, _, next) = spec_on_response(s, window);
    let (u, nexts) = spec_run(t, rs);
    assert(spec_run(s, all) == (u, seq![next] + nexts));
    assert((t, next) == spec_next_block(height, heights));
    if heights.len() == 0 {
        assert(rs =~= Seq::<CosmosRPCResponse>::empty());
        assert(spec_run(t, rs) == (t, Seq::<Next>::empty()));
        assert(block_fetches(heights) =~= Seq::<Next>::empty());
        assert(seq![next] + Seq::<Next>::empty() =~= Seq::<Next>::empty().push(below.1));
    } else {
        lemma_drain(height, heights, rs);
        assert(block_fetches(heights) =~= seq![next] + block_fetches(heights.drop_first()));
        assert(seq![next] + nexts =~= block_fetches(heights).push(below.1));
    }
}

/// The blocks of a window that are asked for are exactly those that hold
/// transactions: each height taken is that of such a block, and every such
/// block's height is taken.
pub proof fn lemma_heights_with_txs(metas: Seq<RPCBlockchainResponseBlockMeta>)
    ensures
        forall|i: int| #![trigger spec_heights_with_txs(metas)[i]] 0 <= i < spec_heights_with_txs(metas).len() ==> exists|j: int|
            0 <= j < metas.len() && #[trigger] metas[j].num_txs > 0
                && metas[j].header.height == spec_heights_with_txs(metas)[i],
        forall|j: int| 0 <= j < metas.len() && #[trigger] metas[j].num_txs > 0
            ==> spec_heights_with_txs(metas).contains(metas[j].header.height),
    decreases metas.len(),
{
    if metas.len() > 0 {
        let init = metas.drop_last();
        lemma_heights_with_txs(init);
        let hs = spec_heights_with_txs(metas);
        let hi = spec_heights_with_txs(init);
        assert forall|i: int| #![trigger hs[i]] 0 <= i < hs.len() implies exists|j: int|
            0 <= j < metas.len() && #[trigger] metas[j].num_txs > 0 && metas[j].header.height == hs[i] by {
            if i < hi.len() {
                assert(hs[i] == hi[i]);
                let j = choose|j: int|
                    0 <= j < init.len() && #[trigger] init[j].num_txs > 0 && init[j].header.height == hi[i];
                assert(metas[j] == init[j]);
            } else {
                assert(metas[metas.len() - 1] == metas.last());
            }
        }
        assert forall|j: int| 0 <= j < metas.len() && #[trigger] metas[j].num_txs > 0
            implies hs.contains(metas[j].header.height) by {
            if j < init.len() {
                assert(init[j] == metas[j]);
                let k = choose|k: int| 0 <= k < hi.len() && hi[k] == init[j].header.height;
                assert(hs[k] == hi[k]);
            } else {
                assert(hs[hs.len() - 1] == metas[j].header.height);
            }
        }
    }
}

// ---------------------------------------------------------------------------
// Reports.

/// Whether a message executes the Loop NFT contract.
pub open spec fn is_loop_execution(m: TxMsgView) -> bool {
    m matches TxMsgView::ExecuteContract(ec) && ec.contract == LOOP_NFT_CONTRACT@
}

proof fn lemma_calls_in_msgs(msgs: Seq<TxMsgView>)
    ensures
        spec_calls_loop(spec_execute_calls(msgs)) <==> exists|j: int|
            0 <= j < msgs.len() && is_loop_execution(#[trigger] msgs[j]),
    decreases msgs.len(),
{
    if msgs.len() > 0 {
        let init = msgs.drop_last();
        lemma_calls_in_msgs(init);
        let before = spec_execute_calls(init);
        let after = spec_execute_calls(msgs);
        if spec_calls_loop(after) {
            let k = choose|k: int| 0 <= k < after.len() && #[trigger] after[k].0 == LOOP_NFT_CONTRACT@;
            if k < before.len() {
                assert(before[k] == after[k]);
                let j = choose|j: int|
                    0 <= j < init.len() && is_loop_execution(#[trigger] init[j]);
                assert(msgs[j] == init[j]);
            } else {
                assert(msgs[msgs.len() - 1] == msgs.last());
            }
        }
        if exists|j: int|
            0 <= j < msgs.len() && is_loop_execution(#[trigger] msgs[j]) {
            let j = choose|j: int|
                0 <= j < msgs.len() && is_loop_execution(#[trigger] msgs[j]);
            if j < init.len() {
                assert(init[j] == msgs[j]);
                let k = choose|k: int| 0 <= k < before.len() && #[trigger] before[k].0 == LOOP_NFT_CONTRACT@;
                assert(after[k] == before[k]);
            } else {
                assert(after[after.len() - 1].0 == LOOP_NFT_CONTRACT@);
            }
        }
    }
}

/// Whether one of the messages of one of these transactions executes the
/// Loop NFT contract.
pub open spec fn block_has_loop_execution(txs: Seq<Seq<TxMsgView>>) -> bool {
    exists|i: int, j: int|
        0 <= i < txs.len() && 0 <= j < txs[i].len() && is_loop_execution(#[trigger] txs[i][j])
}

proof fn lemma_calls_in_block(txs: Seq<Seq<TxMsgView>>)
    ensures
        spec_calls_loop(spec_block_calls(txs)) <==> block_has_loop_execution(txs),
    decreases txs.len(),
{
    if txs.len() > 0 {
        let init = txs.drop_last();
        lemma_calls_in_block(init);
        let last_msgs = txs.last();
        lemma_calls_in_msgs(last_msgs);
        lemma_calls_loop_concat(spec_block_calls(init), spec_execute_calls(last_msgs));
        if block_has_loop_execution(txs) {
            let (i, j) = choose|i: int, j: int|
                0 <= i < txs.len() && 0 <= j < txs[i].len()
                    && is_loop_execution(#[trigger] txs[i][j]);
            if i < init.len() {
                assert(init[i] == txs[i]);
                assert(is_loop_execution(init[i][j]));
            } else {
                assert(txs[i] == txs.last());
                assert(is_loop_execution(last_msgs[j]));
            }
        }
        if block_has_loop_execution(init) {
            let (i, j) = choose|i: int, j: int|
                0 <= i < init.len() && 0 <= j < init[i].len()
                    && is_loop_execution(#[trigger] init[i][j]);
            assert(init[i] == txs[i]);
            assert(is_loop_execution(txs[i][j]));
        }
        if exists|j: int| 0 <= j < last_msgs.len() && is_loop_execution(#[trigger] last_msgs[j]) {
            let j = choose|j: int| 0 <= j < last_msgs.len() && is_loop_execution(#[trigger] last_msgs[j]);
            assert(txs[txs.len() - 1] == txs.last());
            assert(is_loop_execution(txs[txs.len() - 1][j]));
        }
    }
}

/// A block is reported exactly when one of its transactions has a message
/// that executes the Loop NFT contract; the report is then every execution
/// of a contract among the messages of its transactions, in order, at the
/// height asked for.
pub proof fn lemma_report_iff_loop_execution(height: u64, txs: Seq<Seq<TxMsgView>>)
    ensures
        spec_report(height, txs).len() > 0 <==> block_has_loop_execution(txs),
        block_has_loop_execution(txs) ==> spec_report(height, txs)
            == crate::report::at_height(height, spec_block_calls(txs)),
        !block_has_loop_execution(txs) ==> spec_report(height, txs).len() == 0,
{
    lemma_calls_in_block(txs);
}

/// Whether a message executes a contract with this contract and message.
pub open spec fn is_execution_of(m: TxMsgView, c: (Seq<char>, Seq<u8>)) -> bool {
    m matches TxMsgView::ExecuteContract(ec) && ec.contract == c.0 && ec.msg == c.1
}

proof fn lemma_execute_calls_members(msgs: Seq<TxMsgView>)
    ensures
        forall|k: int| #![trigger spec_execute_calls(msgs)[k]]
            0 <= k < spec_execute_calls(msgs).len() ==> exists|j: int|
                0 <= j < msgs.len() && is_execution_of(#[trigger] msgs[j], spec_execute_calls(msgs)[k]),
        forall|j: int| #![trigger msgs[j]]
            0 <= j < msgs.len() && msgs[j] is ExecuteContract ==> spec_execute_calls(msgs).contains(
                (msgs[j]->ExecuteContract_0.contract, msgs[j]->ExecuteContract_0.msg),
            ),
    decreases msgs.len(),
{
    if msgs.len() > 0 {
        let init = msgs.drop_last();
        lemma_execute_calls_members(init);
        let ci = spec_execute_calls(init);
        let c = spec_execute_calls(msgs);
        assert forall|k: int| #![trigger c[k]] 0 <= k < c.len() implies exists|j: int|
            0 <= j < msgs.len() && is_execution_of(#[trigger] msgs[j], c[k]) by {
            if k < ci.len() {
                assert(c[k] == ci[k]);
                let j = choose|j: int| 0 <= j < init.len() && is_execution_of(#[trigger] init[j], ci[k]);
                assert(msgs[j] == init[j]);
            } else {
                assert(is_execution_of(msgs[msgs.len() - 1], c[k]));
            }
        }
        assert forall|j: int| #![trigger msgs[j]]
            0 <= j < msgs.len() && msgs[j] is ExecuteContract implies c.contains(
                (msgs[j]->ExecuteContract_0.contract, msgs[j]->ExecuteContract_0.msg),
            ) by {
            let e = (msgs[j]->ExecuteContract_0.contract, msgs[j]->ExecuteContract_0.msg);
            if j < init.len() {
                assert(init[j] == msgs[j]);
                assert(ci.contains(e));
                let k = choose|k: int| 0 <= k < ci.len() && ci[k] == e;
                assert(c[k] == ci[k]);
            } else {
                assert(c[c.len() - 1] == e);
            }
        }
    }
}

proof fn lemma_block_calls_members(txs: Seq<Seq<TxMsgView>>)
    ensures
        forall|k: int| #![trigger spec_block_calls(txs)[k]]
            0 <= k < spec_block_calls(txs).len() ==> exists|i: int, j: int|
                0 <= i < txs.len() && 0 <= j < txs[i].len() && is_execution_of(
                    #[trigger] txs[i][j],
                    spec_block_calls(txs)[k],
                ),
        forall|i: int, j: int| #![trigger txs[i][j]]
            0 <= i < txs.len() && 0 <= j < txs[i].len() && txs[i][j] is ExecuteContract
                ==> spec_block_calls(txs).contains(
                (txs[i][j]->ExecuteContract_0.contract, txs[i][j]->ExecuteContract_0.msg),
            ),
    decreases txs.len(),
{
    if txs.len() > 0 {
        let init = txs.drop_last();
        let last = txs[txs.len() - 1];
        lemma_block_calls_members(init);
        lemma_execute_calls_members(last);
        let bi = spec_block_calls(init);
        let el = spec_execute_calls(last);
        let c = spec_block_calls(txs);
        assert(c == bi + el);
        assert forall|k: int| #![trigger c[k]] 0 <= k < c.len() implies exists|i: int, j: int|
            0 <= i < txs.len() && 0 <= j < txs[i].len() && is_execution_of(#[trigger] txs[i][j], c[k]) by {
            if k < bi.len() {
                assert(c[k] == bi[k]);
                let (i, j) = choose|i: int, j: int|
                    0 <= i < init.len() && 0 <= j < init[i].len() && is_execution_of(#[trigger] init[i][j], bi[k]);
                assert(txs[i] == init[i]);
            } else {
                assert(c[k] == el[k - bi.len()]);
                let j = choose|j: int| 0 <= j < last.len() && is_execution_of(#[trigger] last[j], el[k - bi.len()]);
                assert(txs[txs.len() - 1][j] == last[j]);
            }
        }
        assert forall|i: int, j: int| #![trigger txs[i][j]]
            0 <= i < txs.len() && 0 <= j < txs[i].len() && txs[i][j] is ExecuteContract implies c.contains(
                (txs[i][j]->ExecuteContract_0.contract, txs[i][j]->ExecuteContract_0.msg),
            ) by {
            let e = (txs[i][j]->ExecuteContract_0.contract, txs[i][j]->ExecuteContract_0.msg);
            if i < init.len() {
                assert(init[i] == txs[i]);
                assert(init[i][j] == txs[i][j]);
                assert(bi.contains(e));
                let k = choose|k: int| 0 <= k < bi.len() && bi[k] == e;
                assert(c[k] == bi[k]);
            } else {
                assert(last[j] == txs[i][j]);
                assert(el.contains(e));
                let k = choose|k: int| 0 <= k < el.len() && el[k] == e;
                assert(c[k + bi.len()] == el[k]);
            }
        }
    }
}

/// The contract and JSON message that `m` hands over, where it executes a
/// contract.
pub open spec fn execution_in(m: TxMsgView) -> Option<(Seq<char>, Seq<u8>)> {
    match m {
        TxMsgView::ExecuteContract(ec) => Some((ec.contract, ec.msg)),
        _ => None,
    }
}

/// Every execution of a contract among the messages that `get_msgs` gives
/// for the transactions `txs`: the messages of all transactions one after
/// the other, keeping the executions.
pub open spec fn executions_in_block(txs: Seq<BlockTx>) -> Seq<(Seq<char>, Seq<u8>)> {
    txs.map_values(|t: BlockTx| spec_get_msgs(t@)).flatten().filter_map(
        |m: TxMsgView| execution_in(m),
    )
}

proof fn lemma_filter_map_add<A, B>(a: Seq<A>, b: Seq<A>, f: spec_fn(A) -> Option<B>)
    ensures
        (a + b).filter_map(f) == a.filter_map(f) + b.filter_map(f),
    decreases b.len(),
{
    if b.len() == 0 {
        assert(a + b =~= a);
        assert(a.filter_map(f) + b.filter_map(f) =~= a.filter_map(f));
    } else {
        lemma_filter_map_add(a, b.drop_last(), f);
        assert((a + b).drop_last() =~= a + b.drop_last());
        assert((a + b).last() == b.last());
        match f(b.last()) {
            Some(x) => {
                assert(a.filter_map(f) + b.filter_map(f) =~= (a.filter_map(f) + b.drop_last().filter_map(f))
                    + seq![x]);
            },
            None => {},
        }
    }
}

proof fn lemma_execute_calls_filter_map(msgs: Seq<TxMsgView>, f: spec_fn(TxMsgView) -> Option<(Seq<char>, Seq<u8>)>)
    requires
        forall|m: TxMsgView| #[trigger] f(m) == execution_in(m),
    ensures
        spec_execute_calls(msgs) == msgs.filter_map(f),
    decreases msgs.len(),
{
    if msgs.len() > 0 {
        lemma_execute_calls_filter_map(msgs.drop_last(), f);
        match msgs.last() {
            TxMsgView::ExecuteContract(ec) => {
                assert(f(msgs.last()) == Some((ec.contract, ec.msg)));
                assert(spec_execute_calls(msgs.drop_last()).push((ec.contract, ec.msg))
                    =~= msgs.drop_last().filter_map(f) + seq![(ec.contract, ec.msg)]);
            },
            _ => {
                assert(f(msgs.last()) is None);
            },
        }
    }
}

proof fn lemma_block_calls_flatten(xs: Seq<Seq<TxMsgView>>, f: spec_fn(TxMsgView) -> Option<(Seq<char>, Seq<u8>)>)
    requires
        forall|m: TxMsgView| #[trigger] f(m) == execution_in(m),
    ensures
        spec_block_calls(xs) == xs.flatten().filter_map(f),
    decreases xs.len(),
{
    if xs.len() > 0 {
        let init = xs.drop_last();
        lemma_block_calls_flatten(init, f);
        lemma_execute_calls_filter_map(xs.last(), f);
        init.lemma_flatten_push(xs.last());
        assert(init.push(xs.last()) =~= xs);
        lemma_filter_map_add(init.flatten(), xs.last(), f);
    }
}

proof fn lemma_block_executions(txs: Seq<BlockTx>)
    ensures
        spec_block_calls(block_msg_views(txs)) == executions_in_block(txs),
{
    let msgs = block_msg_views(txs);
    assert(txs.map_values(|t: BlockTx| spec_get_msgs(t@)) =~= msgs);
    lemma_block_calls_flatten(msgs, |m: TxMsgView| execution_in(m));
}

/// What the report of the block at `height` with transactions `txs` must
/// be, in terms of the messages that `get_msgs` gives for each transaction:
/// every entry is at `height` and is an execution of a contract by one of
/// those messages; the report is non-empty exactly when one of those
/// messages executes the Loop NFT contract; and then it is every execution
/// among those messages, in the order of the transactions and of their
/// messages, each at `height`.
pub open spec fn report_describes(r: Seq<(u64, Seq<char>, Seq<u8>)>, height: u64, txs: Seq<BlockTx>) -> bool {
    &&& forall|k: int| 0 <= k < r.len() ==> (#[trigger] r[k]).0 == height
    &&& forall|k: int| #![trigger r[k]] 0 <= k < r.len() ==> exists|i: int, j: int|
        0 <= i < txs.len() && 0 <= j < spec_get_msgs(txs[i]@).len() && is_execution_of(
            #[trigger] spec_get_msgs(txs[i]@)[j],
            (r[k].1, r[k].2),
        )
    &&& (r.len() > 0 <==> exists|i: int, j: int|
        0 <= i < txs.len() && 0 <= j < spec_get_msgs(txs[i]@).len()
            && is_loop_execution(#[trigger] spec_get_msgs(txs[i]@)[j]))
    &&& r.len() > 0 ==> forall|i: int, j: int| #![trigger spec_get_msgs(txs[i]@)[j]]
        0 <= i < txs.len() && 0 <= j < spec_get_msgs(txs[i]@).len()
            && spec_get_msgs(txs[i]@)[j] is ExecuteContract ==> r.contains((
            height,
            spec_get_msgs(txs[i]@)[j]->ExecuteContract_0.contract,
            spec_get_msgs(txs[i]@)[j]->ExecuteContract_0.msg,
        ))
    &&& r.len() > 0 ==> r == executions_in_block(txs).map_values(
        |c: (Seq<char>, Seq<u8>)| (height, c.0, c.1),
    )
}

/// What `block_report(height, block)` gives (its `ensures` is this
/// `spec_report`) is what a block's report must be (`report_describes`).
pub proof fn lemma_block_report(height: u64, txs: Seq<BlockTx>)
    ensures
        report_describes(spec_report(height, block_msg_views(txs)), height, txs),
{
    let msgs = block_msg_views(txs);
    let r = spec_report(height, msgs);
    let calls = spec_block_calls(msgs);
    assert forall|i: int| 0 <= i < txs.len() implies #[trigger] msgs[i] == spec_get_msgs(txs[i]@) by {}
    lemma_report_iff_loop_execution(height, msgs);
    lemma_block_calls_members(msgs);
    lemma_block_executions(txs);
    if spec_calls_loop(calls) {
        assert(r == at_height(height, calls));
        assert(r =~= executions_in_block(txs).map_values(|c: (Seq<char>, Seq<u8>)| (height, c.0, c.1)));
    } else {
        assert(r.len() == 0);
    }
    assert forall|k: int| #![trigger r[k]] 0 <= k < r.len() implies exists|i: int, j: int|
        0 <= i < txs.len() && 0 <= j < spec_get_msgs(txs[i]@).len() && is_execution_of(
            #[trigger] spec_get_msgs(txs[i]@)[j],
            (r[k].1, r[k].2),
        ) by {
        assert(r[k] == (height, calls[k].0, calls[k].1));
        let (i, j) = choose|i: int, j: int|
            0 <= i < msgs.len() && 0 <= j < msgs[i].len() && is_execution_of(#[trigger] msgs[i][j], calls[k]);
        assert(msgs[i] == spec_get_msgs(txs[i]@));
    }
    if block_has_loop_execution(msgs) {
        let (i, j) = choose|i: int, j: int|
            0 <= i < msgs.len() && 0 <= j < msgs[i].len() && is_loop_execution(#[trigger] msgs[i][j]);
        assert(msgs[i] == spec_get_msgs(txs[i]@));
        assert(is_loop_execution(spec_get_msgs(txs[i]@)[j]));
    }
    if exists|i: int, j: int|
        0 <= i < txs.len() && 0 <= j < spec_get_msgs(txs[i]@).len()
            && is_loop_execution(#[trigger] spec_get_msgs(txs[i]@)[j]) {
        let (i, j) = choose|i: int, j: int|
            0 <= i < txs.len() && 0 <= j < spec_get_msgs(txs[i]@).len()
                && is_loop_execution(#[trigger] spec_get_msgs(txs[i]@)[j]);
        assert(msgs[i] == spec_get_msgs(txs[i]@));
        assert(is_loop_execution(msgs[i][j]));
    }
    if r.len() > 0 {
        assert forall|i: int, j: int| #![trigger spec_get_msgs(txs[i]@)[j]]
            0 <= i < txs.len() && 0 <= j < spec_get_msgs(txs[i]@).len()
                && spec_get_msgs(txs[i]@)[j] is ExecuteContract implies r.contains((
                height,
                spec_get_msgs(txs[i]@)[j]->ExecuteContract_0.contract,
                spec_get_msgs(txs[i]@)[j]->ExecuteContract_0.msg,
            )) by {
            assert(msgs[i] == spec_get_msgs(txs[i]@));
            assert(msgs[i][j] == spec_get_msgs(txs[i]@)[j]);
            let e = (msgs[i][j]->ExecuteContract_0.contract, msgs[i][j]->ExecuteContract_0.msg);
            assert(calls.contains(e));
            let k = choose|k: int| 0 <= k < calls.len() && calls[k] == e;
            assert(r[k] == (height, e.0, e.1));
        }
    }
}

/// On the answer to the block it asked for, the scan reports that block at
/// the height it asked for (the first pending one), as a block's report
/// must be; this holds whatever the number of blocks still pending.
pub proof fn lemma_block_answer_report(s: ScannerView, b: BlockResponse)
    requires
        scanner_wf(s),
        s.phase == Phase::AwaitBlock,
    ensures
        report_describes(
            spec_on_response(s, CosmosRPCResponse::Block(b)).1,
            s.pending[0],
            b.block.data.txs@,
        ),
{
    lemma_block_report(s.pending[0], b.block.data.txs@);
}

/// What a scan reports from `s` on the answers `rs`, in order: one report
/// per answer.
pub open spec fn spec_run_reports(s: ScannerView, rs: Seq<CosmosRPCResponse>) -> Seq<
    Seq<(u64, Seq<char>, Seq<u8>)>,
>
    decreases rs.len(),
{
    if rs.len() == 0 {
        Seq::empty()
    } else {
        let (t, report, _) = spec_on_response(s, rs[0]);
        seq![report] + spec_run_reports(t, rs.drop_first())
    }
}

/// While blocks of a window are pending, the answers to them, one per
/// pending block, give one report each, and each is the report of its
/// block at the height that block was asked for; none is left out, the
/// last one included.
pub proof fn lemma_pending_blocks_reported(height: u64, pending: Seq<u64>, rs: Seq<CosmosRPCResponse>)
    requires
        height >= STEP,
        pending.len() > 0,
        rs.len() == pending.len(),
        forall|i: int| 0 <= i < rs.len() ==> #[trigger] rs[i] is Block,
    ensures
        ({
            let reports = spec_run_reports(
                ScannerView { phase: Phase::AwaitBlock, height, pending },
                rs,
            );
            &&& reports.len() == rs.len()
            &&& forall|i: int| #![trigger reports[i]]
                0 <= i < rs.len() ==> report_describes(
                    reports[i],
                    pending[i],
                    rs[i]->Block_0.block.data.txs@,
                )
        }),
    decreases pending.len(),
{
    let s = ScannerView { phase: Phase::AwaitBlock, height, pending };
    let rest = pending.drop_first();
    let (t, report, _) = spec_on_response(s, rs[0]);
    let tail = spec_run_reports(t, rs.drop_first());
    let reports = spec_run_reports(s, rs);
    assert(reports == seq![report] + tail);
    lemma_block_answer_report(s, rs[0]->Block_0);
    assert(rs[0] == CosmosRPCResponse::Block(rs[0]->Block_0));
    if rest.len() == 0 {
        assert(rs.drop_first().len() == 0);
        assert(tail =~= Seq::<Seq<(u64, Seq<char>, Seq<u8>)>>::empty());
    } else {
        assert(t == ScannerView { phase: Phase::AwaitBlock, height, pending: rest });
        assert forall|i: int| 0 <= i < rs.drop_first().len() implies #[trigger] rs.drop_first()[i] is Block by {
            assert(rs.drop_first()[i] == rs[i + 1]);
        }
        lemma_pending_blocks_reported(height, rest, rs.drop_first());
        assert forall|i: int| #![trigger reports[i]] 0 <= i < rs.len() implies report_describes(
            reports[i],
            pending[i],
            rs[i]->Block_0.block.data.txs@,
        ) by {
            if i > 0 {
                assert(reports[i] == tail[i - 1]);
                assert(rest[i - 1] == pending[i]);
                assert(rs.drop_first()[i - 1] == rs[i]);
            }
        }
    }
}

/// The scan reports nothing but on the answer to a block it asked for.
pub proof fn lemma_reports_only_blocks(s: ScannerView, r: CosmosRPCResponse)
    requires
        scanner_wf(s),
        s.phase != Phase::AwaitBlock || !(r is Block),
    ensures
        spec_on_response(s, r).1.len() == 0,
{
}

// ---------------------------------------------------------------------------
// Messages of a transaction.

/// A transaction has at most as many messages as its body: decoding keeps
/// or drops each body message, and adds none.
pub proof fn lemma_tx_msgs_at_most_body(ms: Seq<(Seq<char>, Seq<u8>)>)
    ensures
        spec_tx_msgs(ms).len() <= ms.len(),
    decreases ms.len(),
{
    if ms.len() > 0 {
        lemma_tx_msgs_at_most_body(ms.drop_last());
    }
}

proof fn lemma_type_urls_distinct()
    ensures
        send_type_url() != execute_contract_type_url(),
        send_type_url() != transfer_type_url(),
        send_type_url() != delegate_type_url(),
        send_type_url() != withdraw_reward_type_url(),
        execute_contract_type_url() != transfer_type_url(),
        execute_contract_type_url() != delegate_type_url(),
        execute_contract_type_url() != withdraw_reward_type_url(),
        transfer_type_url() != delegate_type_url(),
        transfer_type_url() != withdraw_reward_type_url(),
        delegate_type_url() != withdraw_reward_type_url(),
{
    reveal_strlit("/cosmos.bank.v1beta1.MsgSend");
    reveal_strlit("/cosmwasm.wasm.v1.MsgExecuteContract");
    reveal_strlit("/ibc.applications.transfer.v1.MsgTransfer");
    reveal_strlit("/cosmos.staking.v1beta1.MsgDelegate");
    reveal_strlit("/cosmos.distribution.v1beta1.MsgWithdrawDelegatorReward");
    assert(send_type_url().len() == 28);
    assert(execute_contract_type_url().len() == 36);
    assert(transfer_type_url().len() == 41);
    assert(delegate_type_url().len() == 35);
    assert(withdraw_reward_type_url().len() == 55);
}

/// A body message becomes a message exactly when its type URL is one of the
/// five known ones and its value decodes as that kind; the message is then of
/// the kind its type URL names and holds, field for field, what the
/// protobuf crate decodes.
pub proof fn lemma_tx_msg_is_decoded(m: (Seq<char>, Seq<u8>))
    ensures
        spec_tx_msg(m) is Some <==> (m.0 == send_type_url() && send_from_any(m.0, m.1) is Some)
            || (m.0 == execute_contract_type_url() && execute_contract_from_any(m.0, m.1) is Some)
            || (m.0 == transfer_type_url() && transfer_from_any(m.0, m.1) is Some)
            || (m.0 == delegate_type_url() && delegate_from_any(m.0, m.1) is Some)
            || (m.0 == withdraw_reward_type_url() && withdraw_reward_from_any(m.0, m.1) is Some),
        spec_tx_msg(m) matches Some(TxMsgView::Send(v)) ==> m.0 == send_type_url()
            && send_from_any(m.0, m.1) == Some(v),
        spec_tx_msg(m) matches Some(TxMsgView::ExecuteContract(v)) ==> m.0 == execute_contract_type_url()
            && execute_contract_from_any(m.0, m.1) == Some(v),
        spec_tx_msg(m) matches Some(TxMsgView::Transfer(v)) ==> m.0 == transfer_type_url()
            && transfer_from_any(m.0, m.1) == Some(v),
        spec_tx_msg(m) matches Some(TxMsgView::Delegate(v)) ==> m.0 == delegate_type_url()
            && delegate_from_any(m.0, m.1) == Some(v),
        spec_tx_msg(m) matches Some(TxMsgView::WithdrawDelegatorReward(v)) ==> m.0
            == withdraw_reward_type_url() && withdraw_reward_from_any(m.0, m.1) == Some(v),
{
    lemma_type_urls_distinct();
}

/// A body without messages has none, and a body of one message has the one
/// it becomes, if any; with `lemma_tx_msgs_concat` this fixes the messages
/// of every body, in order.
pub proof fn lemma_tx_msgs_single(m: (Seq<char>, Seq<u8>))
    ensures
        spec_tx_msgs(Seq::empty()).len() == 0,
        spec_tx_msgs(seq![m]) == match spec_tx_msg(m) {
            Some(v) => seq![v],
            None => Seq::<TxMsgView>::empty(),
        },
{
    let one = seq![m];
    assert(one.drop_last() =~= Seq::<(Seq<char>, Seq<u8>)>::empty());
    assert(one.last() == m);
    assert(spec_tx_msgs(one.drop_last()).len() == 0);
    assert(spec_tx_msgs(one) == match spec_tx_msg(m) {
        Some(v) => spec_tx_msgs(one.drop_last()).push(v),
        None => spec_tx_msgs(one.drop_last()),
    });
    assert(spec_tx_msgs(one.drop_last()) =~= Seq::<TxMsgView>::empty());
    match spec_tx_msg(m) {
        Some(v) => assert(Seq::<TxMsgView>::empty().push(v) =~= seq![v]),
        None => {},
    }
}

/// The messages of a body made of two lists are those of the first list,
/// then those of the second.
pub proof fn lemma_tx_msgs_concat(a: Seq<(Seq<char>, Seq<u8>)>, b: Seq<(Seq<char>, Seq<u8>)>)
    ensures
        spec_tx_msgs(a + b) == spec_tx_msgs(a) + spec_tx_msgs(b),
    decreases b.len(),
{
    if b.len() == 0 {
        assert(a + b =~= a);
        assert(spec_tx_msgs(a) + spec_tx_msgs(b) =~= spec_tx_msgs(a));
    } else {
        lemma_tx_msgs_concat(a, b.drop_last());
        assert((a + b).drop_last() =~= a + b.drop_last());
        assert((a + b).last() == b.last());
        match spec_tx_msg(b.last()) {
            Some(m) => {
                assert(spec_tx_msgs(a) + spec_tx_msgs(b) =~= (spec_tx_msgs(a) + spec_tx_msgs(b.drop_last())).push(m));
            },
            None => {},
        }
    }
}

proof fn lemma_tx_msgs_filter_map(
    ms: Seq<(Seq<char>, Seq<u8>)>,
    f: spec_fn((Seq<char>, Seq<u8>)) -> Option<TxMsgView>,
)
    requires
        forall|m: (Seq<char>, Seq<u8>)| #[trigger] f(m) == spec_tx_msg(m),
    ensures
        spec_tx_msgs(ms) == ms.filter_map(f),
    decreases ms.len(),
{
    if ms.len() > 0 {
        lemma_tx_msgs_filter_map(ms.drop_last(), f);
        match spec_tx_msg(ms.last()) {
            Some(v) => {
                assert(f(ms.last()) == Some(v));
                assert(spec_tx_msgs(ms.drop_last()).push(v) =~= ms.drop_last().filter_map(f) + seq![v]);
            },
            None => {
                assert(f(ms.last()) is None);
            },
        }
    }
}

/// The messages of a transaction are its body messages, in order, each
/// decoded as `spec_tx_msg` says (see `lemma_tx_msg_is_decoded`), those
/// that do not decode left out; a transaction without a body has none.
pub proof fn lemma_get_msgs_of_body(tx: TxView)
    ensures
        spec_get_msgs(tx) == match tx.body {
            Some(body) => body.messages.filter_map(|m: (Seq<char>, Seq<u8>)| spec_tx_msg(m)),
            None => Seq::<TxMsgView>::empty(),
        },
{
    if tx.body is Some {
        lemma_tx_msgs_filter_map(tx.body->0.messages, |m: (Seq<char>, Seq<u8>)| spec_tx_msg(m));
    }
}

/// The messages of a transaction depend on the messages of its body alone:
/// not on its other body fields, its auth info or its signatures.
pub proof fn lemma_msgs_depend_on_body_messages(t1: TxView, t2: TxView)
    requires
        t1.body is Some <==> t2.body is Some,
        t1.body is Some ==> t1.body->0.messages == t2.body->0.messages,
    ensures
        spec_get_msgs(t1) == spec_get_msgs(t2),
{
}

/// A transaction that decoding gives back from its encoding is read back
/// from its text: writing it and reading it again gives it back, and so
/// writing that again gives the same text.
pub proof fn lemma_text_read_back(t: TxView)
    requires
        tx_decoded(tx_encoded(t)) == Some(t),
        base64_decoded(spec_tx_text(t)) == Some(tx_encoded(t)),
    ensures
        spec_tx_from_str(spec_tx_text(t)) == Some(t),
        spec_tx_text(spec_tx_from_str(spec_tx_text(t))->0) == spec_tx_text(t),
{
}

// ---------------------------------------------------------------------------
// Request addresses.

proof fn lemma_decimal_nonempty(n: nat)
    ensures
        decimal(n).len() >= 1,
    decreases n,
{
    if n >= 10 {
        lemma_decimal_nonempty(n / 10);
    }
}

/// The decimal notation of a number determines it.
pub proof fn lemma_decimal_injective(a: nat, b: nat)
    requires
        decimal(a) == decimal(b),
    ensures
        a == b,
    decreases a,
{
    if a < 10 && b < 10 {
        assert(decimal(a)[0] == digit_char(a));
        assert(decimal(b)[0] == digit_char(b));
    } else if a < 10 {
        lemma_decimal_nonempty(b / 10);
        assert(decimal(b).len() >= 2);
    } else if b < 10 {
        lemma_decimal_nonempty(a / 10);
        assert(decimal(a).len() >= 2);
    } else {
        assert(decimal(a).last() == digit_char(a % 10));
        assert(decimal(b).last() == digit_char(b % 10));
        assert(decimal(a).drop_last() =~= decimal(a / 10));
        assert(decimal(b).drop_last() =~= decimal(b / 10));
        lemma_decimal_injective(a / 10, b / 10);
    }
}

/// Blocks at different heights are asked for at different addresses.
pub proof fn lemma_block_urls_distinct(endpoint: Seq<char>, h1: u64, h2: u64)
    requires
        h1 != h2,
    ensures
        spec_request_url(endpoint, CosmosRPC::Block { height: h1 })
            != spec_request_url(endpoint, CosmosRPC::Block { height: h2 }),
{
    let prefix = endpoint + "/block?height="@;
    let u1 = spec_request_url(endpoint, CosmosRPC::Block { height: h1 });
    let u2 = spec_request_url(endpoint, CosmosRPC::Block { height: h2 });
    if u1 == u2 {
        assert(u1.skip(prefix.len() as int) =~= decimal(h1 as nat));
        assert(u2.skip(prefix.len() as int) =~= decimal(h2 as nat));
        lemma_decimal_injective(h1 as nat, h2 as nat);
    }
}

} // verus!
