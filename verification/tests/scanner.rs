use cosmos_sdk_proto::cosmos::bank::v1beta1::MsgSend;
use cosmos_sdk_proto::cosmos::tx::v1beta1::{Tx, TxBody};
use cosmos_sdk_proto::cosmwasm::wasm::v1::MsgExecuteContract;
use cosmos_sdk_proto::traits::MessageExt;
use cosmos_sdk_proto::Any;
use juno_scan::report::{block_report, heights_with_txs, LOOP_NFT_CONTRACT};
use juno_scan::rpc::{
    BlockResponse, BlockchainResponse, CosmosRPC, CosmosRPCResponse, RPCBlockResponseBlock,
    RPCBlockResponseBlockData, RPCBlockResponseHeader, RPCBlockchainResponseBlockId,
    RPCBlockchainResponseBlockMeta, RPCStatusResponseSyncInfo, StatusResponse,
};
use juno_scan::scan::{Next, Phase, Scanner, START_HEIGHT, STEP};
use juno_scan::model::BlockTx;

fn meta(height: u64, num_txs: u64) -> RPCBlockchainResponseBlockMeta {
    RPCBlockchainResponseBlockMeta {
        num_txs,
        block_size: 100,
        header: RPCBlockResponseHeader { height },
        block_id: RPCBlockchainResponseBlockId { hash: String::from("AB") },
    }
}

fn blockchain(metas: Vec<RPCBlockchainResponseBlockMeta>) -> CosmosRPCResponse {
    CosmosRPCResponse::Blockchain(BlockchainResponse { last_height: 6000000, block_metas: metas })
}

fn status() -> CosmosRPCResponse {
    CosmosRPCResponse::Status(StatusResponse {
        sync_info: RPCStatusResponseSyncInfo { earliest_block_height: 1, latest_block_height: 6000000 },
    })
}

fn execute(contract: &str, msg: &str) -> Any {
    MsgExecuteContract {
        sender: String::from("juno1sender"),
        contract: String::from(contract),
        msg: msg.as_bytes().to_vec(),
        funds: vec![],
    }
    .to_any()
    .unwrap()
}

fn send() -> Any {
    MsgSend { from_address: String::from("a"), to_address: String::from("b"), amount: vec![] }.to_any().unwrap()
}

fn block_tx(messages: Vec<Any>) -> BlockTx {
    let body = TxBody {
        messages,
        memo: String::new(),
        timeout_height: 0,
        extension_options: vec![],
        non_critical_extension_options: vec![],
    };
    let tx = Tx { body: Some(body), auth_info: None, signatures: vec![] };
    BlockTx::from_str(&base64::encode(tx.to_bytes().unwrap())).unwrap()
}

fn block(height: u64, txs: Vec<BlockTx>) -> BlockResponse {
    BlockResponse {
        block: RPCBlockResponseBlock {
            data: RPCBlockResponseBlockData { txs },
            header: RPCBlockResponseHeader { height },
        },
        block_id: RPCBlockchainResponseBlockId { hash: String::from("CD") },
    }
}

#[test]
fn heights_with_txs_keeps_blocks_with_transactions_in_order() {
    let bc = BlockchainResponse { last_height: 10, block_metas: vec![meta(10, 0), meta(9, 3), meta(8, 0), meta(7, 1)] };
    assert_eq!(heights_with_txs(&bc), vec![9, 7]);
    let empty = BlockchainResponse { last_height: 10, block_metas: vec![] };
    assert!(heights_with_txs(&empty).is_empty());
}

#[test]
fn block_with_loop_execution_reports_every_execution() {
    let b = block(
        77,
        vec![
            block_tx(vec![send(), execute("juno1other", "{\"a\":1}")]),
            block_tx(vec![execute(LOOP_NFT_CONTRACT, "{\"buy\":{}}")]),
        ],
    );
    let calls = block_report(77, &b);
    assert_eq!(calls.len(), 2);
    assert_eq!(calls[0].height, 77);
    assert_eq!(calls[0].contract, "juno1other");
    assert_eq!(calls[0].msg, b"{\"a\":1}".to_vec());
    assert_eq!(calls[1].contract, LOOP_NFT_CONTRACT);
    assert_eq!(calls[1].msg, b"{\"buy\":{}}".to_vec());
}

#[test]
fn block_without_loop_execution_reports_nothing() {
    let b = block(5, vec![block_tx(vec![send(), execute("juno1other", "{}")])]);
    assert!(block_report(5, &b).is_empty());
    assert!(block_report(5, &block(5, vec![])).is_empty());
}

#[test]
fn scan_begins_with_status_then_first_window() {
    let (mut scanner, next) = Scanner::new();
    assert_eq!(next, Next::Fetch(CosmosRPC::Status));
    assert_eq!(scanner.phase(), Phase::AwaitStatus);
    let step = scanner.on_response(status());
    assert!(step.report.is_empty());
    assert_eq!(
        step.next,
        Next::Fetch(CosmosRPC::Blockchain { min_height: START_HEIGHT - STEP, max_height: START_HEIGHT })
    );
    assert_eq!(step.next, Next::Fetch(CosmosRPC::Blockchain { min_height: 5372118, max_height: 5372138 }));
    assert_eq!(scanner.phase(), Phase::AwaitBlockchain);
}

#[test]
fn scan_ends_when_status_answer_is_of_another_kind() {
    let (mut scanner, _) = Scanner::new();
    let step = scanner.on_response(blockchain(vec![]));
    assert_eq!(step.next, Next::Done);
    assert_eq!(scanner.phase(), Phase::Finished);
    assert_eq!(scanner.on_response(status()).next, Next::Done);
}

#[test]
fn scan_walks_the_blocks_of_a_window_then_the_window_below() {
    let (mut scanner, _) = Scanner::new();
    scanner.on_response(status());
    let step = scanner.on_response(blockchain(vec![meta(5372138, 2), meta(5372137, 0), meta(5372130, 1)]));
    assert!(step.report.is_empty());
    assert_eq!(step.next, Next::Fetch(CosmosRPC::Block { height: 5372138 }));

    let loop_block = block(5372138, vec![block_tx(vec![execute(LOOP_NFT_CONTRACT, "{\"withdraw\":{}}")])]);
    let step = scanner.on_response(CosmosRPCResponse::Block(loop_block));
    assert_eq!(step.report.len(), 1);
    assert_eq!(step.report[0].height, 5372138);
    assert_eq!(step.next, Next::Fetch(CosmosRPC::Block { height: 5372130 }));

    let quiet_block = block(5372130, vec![block_tx(vec![send()])]);
    let step = scanner.on_response(CosmosRPCResponse::Block(quiet_block));
    assert!(step.report.is_empty());
    assert_eq!(step.next, Next::Fetch(CosmosRPC::Blockchain { min_height: 5372098, max_height: 5372118 }));
    assert_eq!(scanner.height(), 5372118);
}

#[test]
fn scan_goes_on_when_an_answer_is_of_another_kind() {
    let (mut scanner, _) = Scanner::new();
    scanner.on_response(status());
    let step = scanner.on_response(status());
    assert_eq!(step.next, Next::Fetch(CosmosRPC::Blockchain { min_height: 5372098, max_height: 5372118 }));
    let step = scanner.on_response(blockchain(vec![meta(5372100, 4)]));
    assert_eq!(step.next, Next::Fetch(CosmosRPC::Block { height: 5372100 }));
    let step = scanner.on_response(status());
    assert!(step.report.is_empty());
    assert_eq!(step.next, Next::Fetch(CosmosRPC::Blockchain { min_height: 5372078, max_height: 5372098 }));
}

#[test]
fn scan_of_empty_windows_ends_below_step() {
    let (mut scanner, _) = Scanner::new();
    let mut next = scanner.on_response(status()).next;
    let mut windows: u64 = 0;
    let mut last_max = START_HEIGHT + STEP;
    loop {
        match next {
            Next::Fetch(CosmosRPC::Blockchain { min_height, max_height }) => {
                assert_eq!(min_height + STEP, max_height);
                assert_eq!(max_height + STEP, last_max);
                last_max = max_height;
                windows += 1;
                next = scanner.on_response(blockchain(vec![])).next;
            },
            other => {
                assert_eq!(other, Next::Underflow(START_HEIGHT % STEP));
                assert_eq!(other, Next::Underflow(18));
                break;
            },
        }
    }
    assert_eq!(windows, START_HEIGHT / STEP);
    assert_eq!(scanner.phase(), Phase::Finished);
}
