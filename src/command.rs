use vstd::prelude::*;

use crate::error::{CommandHandle, PoolHandle, PoolResult};

verus! {

/// How to create a pool: where its genesis transactions are.
#[derive(Clone, Debug, PartialEq)]
pub struct PoolConfig {
    pub genesis_txn: String,
}

/// How to open a pool; handed to the pool service as it stands.
#[derive(Clone, Debug, PartialEq)]
pub struct PoolOpenConfig {
    pub timeout: i64,
    pub extended_timeout: i64,
    pub conn_limit: usize,
    pub conn_active_timeout: i64,
    pub preordered_nodes: Vec<String>,
    pub number_read_nodes: u8,
}

/// One entry of the pool catalog, as the pool service lists it.
#[derive(Clone, Debug, PartialEq)]
pub struct PoolInfo {
    pub pool: String,
}

/// One request to the dispatcher. `C` is the completion callback that the
/// caller supplies; `CloseAck` carries none, it resolves an earlier `Close`.
pub enum PoolCommand<C> {
    Create(String, Option<PoolConfig>, C),
    Delete(String, C),
    Open(String, Option<PoolOpenConfig>, C),
    List(C),
    Close(PoolHandle, C),
    CloseAck(CommandHandle, PoolResult<()>),
    Refresh(PoolHandle, C),
    SetProtocolVersion(usize, C),
}

/// A call that the caller of the dispatcher makes on the pool service.
#[derive(Clone, Debug, PartialEq)]
pub enum ServiceCall {
    Create(String, Option<PoolConfig>),
    Delete(String),
    Open(String, Option<PoolOpenConfig>),
    List,
    Close(PoolHandle),
    Refresh(PoolHandle),
}

/// What a call on the pool service returned; each variant answers the
/// `ServiceCall` of the same name.
#[derive(Debug, PartialEq)]
pub enum ServiceOutcome {
    Create(PoolResult<()>),
    Delete(PoolResult<()>),
    Open(PoolResult<PoolHandle>),
    List(PoolResult<Vec<PoolInfo>>),
    Close(PoolResult<CommandHandle>),
    Refresh(PoolResult<()>),
}

} // verus!
