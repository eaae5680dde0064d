//! Whether, and how, a destination chain's client must be updated before
//! a proof-carrying message is sent to it.
//!
//! Two policies wrap the header build. Skip: if the destination already
//! trusts the target height, no update is built at all. Wait: if the
//! source chain has not yet produced the target height, poll its status,
//! bounded, before building against it.

use vstd::prelude::*;

use crate::chain::{
    ChainModel, ChainStatus, ChainStatusQuerier, ClientReader, HasChainModel, ProofQuerier,
    same_except_status,
};
use crate::errors::RelayError;
use crate::message::OutgoingMessage;
use crate::runtime::RelayRuntime;

verus! {

/// The verdict of the skip policy.
#[derive(Clone, Copy, Debug, PartialEq, Eq, Structural)]
pub enum UpdateClientDecision {
    /// The destination's trusted height already covers the target; no
    /// update message may be submitted.
    Skip,
    /// An update message must be built and prepended.
    Build,
}

/// Skip policy: a client that already trusts `target_height` needs no
/// update; anything less needs one.
pub fn update_client_decision(trusted_height: u64, target_height: u64) -> (d:
    UpdateClientDecision)
    ensures
        d is Skip <==> trusted_height >= target_height,
{
    if trusted_height >= target_height {
        UpdateClientDecision::Skip
    } else {
        UpdateClientDecision::Build
    }
}

/// Wait policy: poll the source chain's status until it reports at least
/// `target_height`, sleeping `poll_interval_ms` between polls, at most
/// `max_polls` times; when the bound elapses first, fail with
/// `ConsensusNotReady`.
pub fn wait_for_source_height<S: ChainStatusQuerier, R: RelayRuntime>(
    source: &mut S,
    runtime: &mut R,
    target_height: u64,
    max_polls: usize,
    poll_interval_ms: u64,
) -> (r: Result<ChainStatus, RelayError>)
    ensures
        same_except_status(old(source).model(), final(source).model()),
        old(source).model().status.le(final(source).model().status),
        r is Ok ==> r->Ok_0.height >= target_height && r->Ok_0 == final(source).model().status,
        r is Err ==> r->Err_0 == RelayError::ConsensusNotReady || r->Err_0
            == RelayError::QueryError,
        r == Err::<ChainStatus, RelayError>(RelayError::ConsensusNotReady) && max_polls > 0
            ==> final(source).model().status.height < target_height,
{
    let ghost entry_model: ChainModel = source.model();
    let mut polls: usize = 0;
    while polls < max_polls
        invariant
            entry_model == old(source).model(),
            same_except_status(entry_model, source.model()),
            entry_model.status.le(source.model().status),
            polls > 0 ==> source.model().status.height < target_height,
            polls <= max_polls,
        decreases max_polls - polls,
    {
        let queried = source.query_chain_status();
        match queried {
            Ok(status) => {
                if status.height >= target_height {
                    return Ok(status);
                }
            },
            Err(error) => {
                return Err(error);
            },
        }
        runtime.sleep_ms(poll_interval_ms);
        polls = polls + 1;
    }
    Err(RelayError::ConsensusNotReady)
}

/// The update messages owed to the destination's client before a message
/// proven at `target_height` may be sent: none when the skip policy
/// applies, exactly one update-client message otherwise, built only once
/// the source chain has reached the target height.
///
/// A missing client record fails the query; a frozen or expired client is
/// protocol-fatal and reported as such, never updated.
pub fn build_update_client_messages<S, D, R>(
    source: &mut S,
    destination: &D,
    runtime: &mut R,
    client_id: u64,
    target_height: u64,
    max_polls: usize,
    poll_interval_ms: u64,
) -> (r: Result<Vec<OutgoingMessage>, RelayError>) where
    S: ChainStatusQuerier + ProofQuerier,
    D: ClientReader,
    R: RelayRuntime,

    ensures
        same_except_status(old(source).model(), final(source).model()),
        old(source).model().status.le(final(source).model().status),
        !destination.model().clients.contains_key(client_id) ==> r == Err::<
            Vec<OutgoingMessage>,
            RelayError,
        >(RelayError::QueryError),
        ({
            let clients = destination.model().clients;
            clients.contains_key(client_id) && clients[client_id].trusted_height
                >= target_height ==> r is Ok && r->Ok_0@.len() == 0
        }),
        ({
            let clients = destination.model().clients;
            clients.contains_key(client_id) && clients[client_id].trusted_height < target_height
                && clients[client_id].frozen ==> r == Err::<Vec<OutgoingMessage>, RelayError>(
                RelayError::ClientFrozen,
            )
        }),
        ({
            let clients = destination.model().clients;
            clients.contains_key(client_id) && clients[client_id].trusted_height < target_height
                && !clients[client_id].frozen && clients[client_id].expired ==> r == Err::<
                Vec<OutgoingMessage>,
                RelayError,
            >(RelayError::ClientExpired)
        }),
        ({
            let clients = destination.model().clients;
            clients.contains_key(client_id) && clients[client_id].trusted_height < target_height
                && !clients[client_id].frozen && !clients[client_id].expired ==> {
                &&& r is Ok ==> r->Ok_0@.len() == 1 && (r->Ok_0@[0] matches
                    OutgoingMessage::UpdateClient {
                        client_id: c,
                        target_height: t,
                        ..
                    } && c == client_id && t == target_height)
                &&& r is Ok ==> final(source).model().status.height >= target_height
                &&& r is Err ==> r->Err_0 == RelayError::ConsensusNotReady || r->Err_0
                    == RelayError::QueryError
            }
        }),
{
    let tracked_client = match destination.query_tracked_client(client_id) {
        Ok(c) => c,
        Err(error) => {
            return Err(error);
        },
    };
    match update_client_decision(tracked_client.trusted_height, target_height) {
        UpdateClientDecision::Skip => Ok(Vec::new()),
        UpdateClientDecision::Build => {
            if tracked_client.frozen {
                return Err(RelayError::ClientFrozen);
            }
            if tracked_client.expired {
                return Err(RelayError::ClientExpired);
            }
            let _ready = match wait_for_source_height(
                source,
                runtime,
                target_height,
                max_polls,
                poll_interval_ms,
            ) {
                Ok(status) => status,
                Err(error) => {
                    return Err(error);
                },
            };
            let update = match source.build_update_client_message(client_id, target_height) {
                Ok(message) => message,
                Err(error) => {
                    return Err(error);
                },
            };
            let mut messages: Vec<OutgoingMessage> = Vec::new();
            messages.push(update);
            Ok(messages)
        },
    }
}

} // verus!
