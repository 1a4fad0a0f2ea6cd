use vstd::prelude::*;
use crate::decimal::{decimal, push_decimal};
use crate::model::BlockTx;

verus! {

/// A request to the Tendermint RPC of the chain.
#[derive(Clone, Copy, Debug, PartialEq, Eq, Structural)]
pub enum CosmosRPC {
    /// The metadata of the blocks from `min_height` to `max_height`.
    Blockchain { min_height: u64, max_height: u64 },
    /// The block at `height`, with its transactions.
    Block { height: u64 },
    /// The status of the node.
    Status,
}

/// The address of `rpc` on the node reached at `endpoint`.
pub open spec fn spec_request_url(endpoint: Seq<char>, rpc: CosmosRPC) -> Seq<char> {
    match rpc {
        CosmosRPC::Blockchain { min_height, max_height } =>
            endpoint + "/blockchain?minHeight="@ + decimal(min_height as nat)
                + "&maxHeight="@ + decimal(max_height as nat),
        CosmosRPC::Block { height } => endpoint + "/block?height="@ + decimal(height as nat),
        CosmosRPC::Status => endpoint + "/status"@,
    }
}

impl CosmosRPC {
    /// The address at which the node reached at `endpoint` answers this
    /// request.
    pub fn url(&self, endpoint: &str) -> (url: String)
        ensures
            url@ == spec_request_url(endpoint@, *self),
    {
        let mut url = endpoint.to_owned();
        match self {
            CosmosRPC::Blockchain { min_height, max_height } => {
                url.append("/blockchain?minHeight=");
                push_decimal(&mut url, *min_height);
                url.append("&maxHeight=");
                push_decimal(&mut url, *max_height);
            },
            CosmosRPC::Block { height } => {
                url.append("/block?height=");
                push_decimal(&mut url, *height);
            },
            CosmosRPC::Status => {
                url.append("/status");
            },
        }
        url
    }
}

/// The part of the node's status that this library keeps.
pub struct RPCStatusResponseSyncInfo {
    pub earliest_block_height: u64,
    pub latest_block_height: u64,
}

/// The answer to `CosmosRPC::Status`.
pub struct StatusResponse {
    pub sync_info: RPCStatusResponseSyncInfo,
}

/// The header of a block, as far as this library reads it.
pub struct RPCBlockResponseHeader {
    pub height: u64,
}

/// The identity of a block.
pub struct RPCBlockchainResponseBlockId {
    pub hash: String,
}

/// The metadata of one block of a `CosmosRPC::Blockchain` answer.
pub struct RPCBlockchainResponseBlockMeta {
    pub num_txs: u64,
    pub block_size: u64,
    pub header: RPCBlockResponseHeader,
    pub block_id: RPCBlockchainResponseBlockId,
}

/// The answer to `CosmosRPC::Blockchain`.
pub struct BlockchainResponse {
    pub last_height: u64,
    pub block_metas: Vec<RPCBlockchainResponseBlockMeta>,
}

/// The transactions of a block.
pub struct RPCBlockResponseBlockData {
    pub txs: Vec<BlockTx>,
}

/// A block.
pub struct RPCBlockResponseBlock {
    pub data: RPCBlockResponseBlockData,
    pub header: RPCBlockResponseHeader,
}

/// The answer to `CosmosRPC::Block`.
pub struct BlockResponse {
    pub block: RPCBlockResponseBlock,
    pub block_id: RPCBlockchainResponseBlockId,
}

/// An answer of the node.
pub enum CosmosRPCResponse {
    Blockchain(BlockchainResponse),
    Block(BlockResponse),
    Status(StatusResponse),
}

} // verus!
