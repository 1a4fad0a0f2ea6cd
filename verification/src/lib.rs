//! Scanning of a Juno (Cosmos SDK) chain for executions of the Loop NFT
//! marketplace contract: request addresses for the Tendermint RPC, decoding
//! of transactions into their messages, and the state machine that walks the
//! chain downwards window by window.

pub mod decimal;
pub mod rpc;
pub mod model;
pub mod codec;
pub mod tx;
pub mod report;
pub mod scan;
pub mod laws;
