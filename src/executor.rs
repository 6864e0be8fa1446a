use std::collections::HashMap;

use vstd::prelude::*;
use vstd::string::*;

use crate::command::{PoolCommand, ServiceCall, ServiceOutcome};
use crate::error::{fails_with, CommandHandle, ErrorKind, PoolError, PoolHandle, PoolResult};
use crate::listing::{list_result, lists_as};

verus! {

/// The protocol generation in force until one is set.
pub const DEFAULT_PROTOCOL_VERSION: usize = 2;

/// Whether `version` is one of the two wire-protocol generations.
pub open spec fn supported_version(version: usize) -> bool {
    version == 1 || version == 2
}

/// What a callback receives.
#[derive(Debug, PartialEq)]
pub enum Reply {
    Done(PoolResult<()>),
    Opened(PoolResult<PoolHandle>),
    Listed(PoolResult<String>),
}

/// What the caller of the dispatcher does next.
#[derive(Debug, PartialEq)]
pub enum Action<C> {
    /// Make this call on the pool service, then hand its outcome and the
    /// callback to `resume`.
    Call(ServiceCall, C),
    /// Invoke the callback with the reply.
    Deliver(C, Reply),
    /// Nothing now: the callback waits for its acknowledgement.
    Wait,
    /// An acknowledgement that no callback waits for; there is no one to
    /// tell, so it is only reported.
    Orphan(CommandHandle, PoolResult<()>),
}

/// What an acknowledgement of `id` with `result` leads to, given the table
/// `pending`: the callback that waits under `id` receives `result`; where
/// none waits, the acknowledgement is an orphan.
pub open spec fn ack_action<C>(
    pending: Map<CommandHandle, C>,
    id: CommandHandle,
    result: PoolResult<()>,
) -> Action<C> {
    if pending.contains_key(id) {
        Action::Deliver(pending[id], Reply::Done(result))
    } else {
        Action::Orphan(id, result)
    }
}

/// How the outcome `begun` of beginning a close, with callback `cb`, takes
/// the table from `before` to `after` and what it delivers `now`. A fresh
/// correlation id registers the callback and delivers nothing. A failure is
/// delivered at once. An id that is already waiting is refused with an
/// `InvalidState` error, and the callback waiting under it stays.
pub open spec fn closes<C>(
    before: Map<CommandHandle, C>,
    after: Map<CommandHandle, C>,
    begun: PoolResult<CommandHandle>,
    cb: C,
    now: Option<(C, PoolResult<()>)>,
) -> bool {
    match begun {
        Err(e) => after == before && now == Some((cb, Err::<(), PoolError>(e))),
        Ok(id) => if before.contains_key(id) {
            &&& after == before
            &&& now matches Some((c, res)) && c == cb && fails_with(res, ErrorKind::InvalidState)
        } else {
            after == before.insert(id, cb) && now is None
        },
    }
}

/// How setting the protocol generation to `version` takes the state from
/// `before` to `after`, with result `r`.
pub open spec fn sets_version(before: usize, after: usize, version: usize, r: PoolResult<()>) -> bool {
    &&& r is Ok <==> supported_version(version)
    &&& r is Ok ==> after == version
    &&& r is Err ==> after == before && fails_with(r, ErrorKind::PoolIncompatibleProtocolVersion)
}

/// What is delivered at once for a callback, as an action.
pub open spec fn delivery_action<C>(now: Option<(C, PoolResult<()>)>) -> Action<C> {
    match now {
        Some((cb, r)) => Action::Deliver(cb, Reply::Done(r)),
        None => Action::Wait,
    }
}

/// The reply that carries the error `e` to the callback of the command that
/// asked for `call`.
pub open spec fn error_reply_for(call: ServiceCall, e: PoolError) -> Reply {
    match call {
        ServiceCall::Open(..) => Reply::Opened(Err(e)),
        ServiceCall::List => Reply::Listed(Err(e)),
        _ => Reply::Done(Err(e)),
    }
}

/// What `command` leads to when the dispatcher's state cannot be reached:
/// its callback receives `e` in the command's kind of reply, so that a close
/// is never left unregistered; an acknowledgement has no one to tell and is
/// an orphan, so that no callback can be invoked twice.
pub open spec fn refusal_action<C>(command: PoolCommand<C>, e: PoolError) -> Action<C> {
    match command {
        PoolCommand::Create(_, _, cb) => Action::Deliver(cb, Reply::Done(Err(e))),
        PoolCommand::Delete(_, cb) => Action::Deliver(cb, Reply::Done(Err(e))),
        PoolCommand::Open(_, _, cb) => Action::Deliver(cb, Reply::Opened(Err(e))),
        PoolCommand::List(cb) => Action::Deliver(cb, Reply::Listed(Err(e))),
        PoolCommand::Close(_, cb) => Action::Deliver(cb, Reply::Done(Err(e))),
        PoolCommand::Refresh(_, cb) => Action::Deliver(cb, Reply::Done(Err(e))),
        PoolCommand::SetProtocolVersion(_, cb) => Action::Deliver(cb, Reply::Done(Err(e))),
        PoolCommand::CloseAck(id, result) => Action::Orphan(id, result),
    }
}

/// The reply that carries `e` to the callback of the command that asked for
/// `call`, where the dispatcher's state cannot be reached once the call is
/// made.
pub fn refused_reply(call: &ServiceCall, e: PoolError) -> (r: Reply)
    ensures
        r == error_reply_for(*call, e),
{
    match call {
        ServiceCall::Open(..) => Reply::Opened(Err(e)),
        ServiceCall::List => Reply::Listed(Err(e)),
        _ => Reply::Done(Err(e)),
    }
}

/// What `command` leads to where the dispatcher's state cannot be reached.
pub fn refusal<C>(command: PoolCommand<C>, e: PoolError) -> (r: Action<C>)
    ensures
        r == refusal_action(command, e),
{
    match command {
        PoolCommand::Create(_, _, cb) => Action::Deliver(cb, Reply::Done(Err(e))),
        PoolCommand::Delete(_, cb) => Action::Deliver(cb, Reply::Done(Err(e))),
        PoolCommand::Open(_, _, cb) => Action::Deliver(cb, Reply::Opened(Err(e))),
        PoolCommand::List(cb) => Action::Deliver(cb, Reply::Listed(Err(e))),
        PoolCommand::Close(_, cb) => Action::Deliver(cb, Reply::Done(Err(e))),
        PoolCommand::Refresh(_, cb) => Action::Deliver(cb, Reply::Done(Err(e))),
        PoolCommand::SetProtocolVersion(_, cb) => Action::Deliver(cb, Reply::Done(Err(e))),
        PoolCommand::CloseAck(id, result) => Action::Orphan(id, result),
    }
}

/// Routes pool commands and keeps the callbacks of closes that wait for
/// their acknowledgement, and the protocol generation in force.
pub struct PoolCommandExecutor<C> {
    close_callbacks: HashMap<CommandHandle, C>,
    protocol_version: usize,
}

impl<C> PoolCommandExecutor<C> {
    /// The callbacks that wait, by correlation id.
    pub closed spec fn pending(&self) -> Map<CommandHandle, C> {
        self.close_callbacks@
    }

    /// The protocol generation in force.
    pub closed spec fn version(&self) -> usize {
        self.protocol_version
    }

    pub open spec fn wf(&self) -> bool {
        supported_version(self.version())
    }

    pub open spec fn same_state(&self, other: &Self) -> bool {
        self.pending() == other.pending() && self.version() == other.version()
    }

    /// A dispatcher with no waiting callbacks, at the default protocol
    /// generation.
    pub fn new() -> (r: Self)
        ensures
            r.pending() == Map::<CommandHandle, C>::empty(),
            r.version() == DEFAULT_PROTOCOL_VERSION,
            r.wf(),
    {
        PoolCommandExecutor { close_callbacks: HashMap::new(), protocol_version: DEFAULT_PROTOCOL_VERSION }
    }

    pub fn protocol_version(&self) -> (r: usize)
        ensures
            r == self.version(),
    {
        self.protocol_version
    }

    /// Whether a callback waits for the acknowledgement of `id`.
    pub fn is_pending(&self, id: CommandHandle) -> (r: bool)
        ensures
            r == self.pending().contains_key(id),
    {
        self.close_callbacks.contains_key(&id)
    }

    /// How many callbacks wait.
    pub fn pending_count(&self) -> (r: usize)
        ensures
            r == self.pending().len(),
    {
        self.close_callbacks.len()
    }

    /// Sets the protocol generation used from now on; only generations 1
    /// and 2 exist.
    pub fn set_protocol_version(&mut self, version: usize) -> (r: PoolResult<()>)
        ensures
            sets_version(old(self).version(), final(self).version(), version, r),
            final(self).pending() == old(self).pending(),
            old(self).wf() ==> final(self).wf(),
    {
        if version != 1 && version != 2 {
            return Err(
                PoolError::new(
                    ErrorKind::PoolIncompatibleProtocolVersion,
                    String::from_str("Unsupported Protocol version"),
                ),
            );
        }
        self.protocol_version = version;
        Ok(())
    }

    /// Takes the outcome of beginning a close on the pool service. Returns
    /// the callback with what it must receive now, or nothing where the
    /// callback now waits for its acknowledgement.
    pub fn close(&mut self, begun: PoolResult<CommandHandle>, cb: C) -> (r: Option<(C, PoolResult<()>)>)
        ensures
            closes(old(self).pending(), final(self).pending(), begun, cb, r),
            final(self).version() == old(self).version(),
    {
        match begun {
            Err(e) => Some((cb, Err(e))),
            Ok(id) => {
                if self.close_callbacks.contains_key(&id) {
                    Some(
                        (
                            cb,
                            Err(
                                PoolError::new(
                                    ErrorKind::InvalidState,
                                    String::from_str("A close with this command handle is already pending"),
                                ),
                            ),
                        ),
                    )
                } else {
                    self.close_callbacks.insert(id, cb);
                    None
                }
            },
        }
    }

    /// Takes the acknowledgement of the close with correlation id `id`.
    /// The callback that waited for it receives `result` and is forgotten.
    pub fn close_ack(&mut self, id: CommandHandle, result: PoolResult<()>) -> (r: Action<C>)
        ensures
            r == ack_action(old(self).pending(), id, result),
            final(self).pending() == old(self).pending().remove(id),
            final(self).version() == old(self).version(),
    {
        match self.close_callbacks.remove(&id) {
            Some(cb) => Action::Deliver(cb, Reply::Done(result)),
            None => Action::Orphan(id, result),
        }
    }

    /// Takes one command and says what to do next.
    pub fn execute(&mut self, command: PoolCommand<C>) -> (r: Action<C>)
        ensures
            match command {
                PoolCommand::Create(name, config, cb) => {
                    &&& r == Action::Call(ServiceCall::Create(name, config), cb)
                    &&& final(self).same_state(old(self))
                },
                PoolCommand::Delete(name, cb) => {
                    &&& r == Action::Call(ServiceCall::Delete(name), cb)
                    &&& final(self).same_state(old(self))
                },
                PoolCommand::Open(name, config, cb) => {
                    &&& r == Action::Call(ServiceCall::Open(name, config), cb)
                    &&& final(self).same_state(old(self))
                },
                PoolCommand::List(cb) => {
                    &&& r == Action::Call(ServiceCall::List, cb)
                    &&& final(self).same_state(old(self))
                },
                PoolCommand::Close(handle, cb) => {
                    &&& r == Action::Call(ServiceCall::Close(handle), cb)
                    &&& final(self).same_state(old(self))
                },
                PoolCommand::Refresh(handle, cb) => {
                    &&& r == Action::Call(ServiceCall::Refresh(handle), cb)
                    &&& final(self).same_state(old(self))
                },
                PoolCommand::CloseAck(id, result) => {
                    &&& r == ack_action(old(self).pending(), id, result)
                    &&& final(self).pending() == old(self).pending().remove(id)
                    &&& final(self).version() == old(self).version()
                },
                PoolCommand::SetProtocolVersion(version, cb) => {
                    &&& r is Deliver
                    &&& r->Deliver_0 == cb
                    &&& r->Deliver_1 is Done
                    &&& sets_version(old(self).version(), final(self).version(), version, r->Deliver_1->Done_0)
                    &&& final(self).pending() == old(self).pending()
                },
            },
            old(self).wf() ==> final(self).wf(),
    {
        match command {
            PoolCommand::Create(name, config, cb) => Action::Call(ServiceCall::Create(name, config), cb),
            PoolCommand::Delete(name, cb) => Action::Call(ServiceCall::Delete(name), cb),
            PoolCommand::Open(name, config, cb) => Action::Call(ServiceCall::Open(name, config), cb),
            PoolCommand::List(cb) => Action::Call(ServiceCall::List, cb),
            PoolCommand::Close(handle, cb) => Action::Call(ServiceCall::Close(handle), cb),
            PoolCommand::Refresh(handle, cb) => Action::Call(ServiceCall::Refresh(handle), cb),
            PoolCommand::CloseAck(id, result) => self.close_ack(id, result),
            PoolCommand::SetProtocolVersion(version, cb) => {
                let res = self.set_protocol_version(version);
                Action::Deliver(cb, Reply::Done(res))
            },
        }
    }

    /// Takes what a call on the pool service returned, with the callback of
    /// the command that asked for it, and says what to do next. Every
    /// outcome is delivered at once, but a close that began, whose callback
    /// now waits.
    pub fn resume(&mut self, outcome: ServiceOutcome, cb: C) -> (r: Action<C>)
        ensures
            match outcome {
                ServiceOutcome::Create(res) => {
                    &&& r == Action::Deliver(cb, Reply::Done(res))
                    &&& final(self).same_state(old(self))
                },
                ServiceOutcome::Delete(res) => {
                    &&& r == Action::Deliver(cb, Reply::Done(res))
                    &&& final(self).same_state(old(self))
                },
                ServiceOutcome::Open(res) => {
                    &&& r == Action::Deliver(cb, Reply::Opened(res))
                    &&& final(self).same_state(old(self))
                },
                ServiceOutcome::Refresh(res) => {
                    &&& r == Action::Deliver(cb, Reply::Done(res))
                    &&& final(self).same_state(old(self))
                },
                ServiceOutcome::List(pools) => {
                    &&& r is Deliver
                    &&& r->Deliver_0 == cb
                    &&& r->Deliver_1 is Listed
                    &&& lists_as(pools, r->Deliver_1->Listed_0)
                    &&& final(self).same_state(old(self))
                },
                ServiceOutcome::Close(begun) => exists|now: Option<(C, PoolResult<()>)>|
                    {
                        &&& r == delivery_action(now)
                        &&& #[trigger] closes(old(self).pending(), final(self).pending(), begun, cb, now)
                    },
            },
            final(self).version() == old(self).version(),
    {
        match outcome {
            ServiceOutcome::Create(res) => Action::Deliver(cb, Reply::Done(res)),
            ServiceOutcome::Delete(res) => Action::Deliver(cb, Reply::Done(res)),
            ServiceOutcome::Open(res) => Action::Deliver(cb, Reply::Opened(res)),
            ServiceOutcome::Refresh(res) => Action::Deliver(cb, Reply::Done(res)),
            ServiceOutcome::List(pools) => Action::Deliver(cb, Reply::Listed(list_result(pools))),
            ServiceOutcome::Close(begun) => {
                let now = self.close(begun, cb);
                let r = match now {
                    Some((c, res)) => Action::Deliver(c, Reply::Done(res)),
                    None => Action::Wait,
                };
                assert(closes(old(self).pending(), self.pending(), begun, cb, now));
                r
            },
        }
    }
}

/// A close that registered its callback under a fresh correlation id is
/// completed exactly once: nothing is delivered when it registers, the
/// acknowledgement of that id hands the same callback exactly the
/// acknowledged result and leaves the table as it was before the close,
/// and a second acknowledgement of the id finds no callback.
pub proof fn lemma_close_delivered_once<C>(
    pending: Map<CommandHandle, C>,
    id: CommandHandle,
    cb: C,
    after_close: Map<CommandHandle, C>,
    now: Option<(C, PoolResult<()>)>,
    result: PoolResult<()>,
    again: PoolResult<()>,
)
    requires
        !pending.contains_key(id),
        closes(pending, after_close, Ok(id), cb, now),
    ensures
        now is None,
        ack_action(after_close, id, result) == Action::Deliver(cb, Reply::Done(result)),
        after_close.remove(id) == pending,
        ack_action(after_close.remove(id), id, again) == Action::<C>::Orphan(id, again),
{
    assert(after_close.remove(id) =~= pending);
}

/// An acknowledgement whose correlation id has no waiting callback delivers
/// to no one and leaves the table as it is.
pub proof fn lemma_orphan_ack<C>(pending: Map<CommandHandle, C>, id: CommandHandle, result: PoolResult<()>)
    requires
        !pending.contains_key(id),
    ensures
        ack_action(pending, id, result) == Action::<C>::Orphan(id, result),
        pending.remove(id) == pending,
{
    assert(pending.remove(id) =~= pending);
}

/// Closes and acknowledgements under different correlation ids do not
/// disturb one another: registering under `a` changes nothing of what an
/// acknowledgement of `b` delivers, the two steps give the same table in
/// either order, and afterwards the acknowledgement of `a` still reaches the
/// callback registered under `a`.
pub proof fn lemma_distinct_ids_independent<C>(
    pending: Map<CommandHandle, C>,
    a: CommandHandle,
    cb_a: C,
    b: CommandHandle,
    result_a: PoolResult<()>,
    result_b: PoolResult<()>,
)
    requires
        a != b,
    ensures
        ack_action(pending.insert(a, cb_a), b, result_b) == ack_action(pending, b, result_b),
        pending.insert(a, cb_a).remove(b) == pending.remove(b).insert(a, cb_a),
        ack_action(pending.insert(a, cb_a).remove(b), a, result_a) == Action::Deliver(
            cb_a,
            Reply::Done(result_a),
        ),
{
    assert(pending.insert(a, cb_a).remove(b) =~= pending.remove(b).insert(a, cb_a));
}

} // verus!
