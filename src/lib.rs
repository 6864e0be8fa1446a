//! A dispatcher for pool commands.
//!
//! Each command is routed to an outside pool service, and its outcome goes
//! back through the callback that came with the command. Closing a pool
//! completes later: the callback waits in a table until the acknowledgement
//! with the matching correlation id arrives.
//!
//! The dispatcher is a state machine: it turns a command, or the outcome of a
//! service call, into the next [`executor::Action`] and an updated state. The
//! caller performs the action.

pub mod error;
pub mod command;
pub mod listing;
pub mod executor;

pub use command::{PoolCommand, PoolConfig, PoolInfo, PoolOpenConfig, ServiceCall, ServiceOutcome};
pub use error::{ErrorKind, PoolError, PoolResult, PoolHandle, CommandHandle};
pub use executor::{refusal, refused_reply, Action, PoolCommandExecutor, Reply, DEFAULT_PROTOCOL_VERSION};
pub use listing::{frame_listing, list_result};
