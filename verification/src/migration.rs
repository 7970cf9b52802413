//! Handing an agreement over to another client.
use vstd::prelude::*;
use crate::env::{answers, fail, Env, State};
use crate::escrow::Escrow;
use crate::event::Event;
use crate::types::{Address, Contract, Error, Halt, PendingClientMigration};

verus! {

broadcast use vstd::std_specs::hash::group_hash_axioms;

/// Why the proposal of a new client is refused.
pub open spec fn propose_migration_refusal(
    s: State,
    contract_id: u32,
    current_client: Address,
    new_client: Address,
) -> Option<Halt> {
    let contract = s.contracts[contract_id];
    if s.freeze() is Some {
        s.freeze()
    } else if s.closed(contract_id) is Some {
        s.closed(contract_id)
    } else if current_client != contract.client {
        fail(Error::UnauthorizedRole)
    } else if !s.authorized.contains(current_client) {
        Some(Halt::AuthRequired(current_client))
    } else if new_client == contract.freelancer || new_client == contract.client {
        fail(Error::InvalidParticipant)
    } else {
        None
    }
}

/// What the proposal of a new client leaves behind.
pub open spec fn propose_migration_effect(
    s: State,
    contract_id: u32,
    current_client: Address,
    new_client: Address,
) -> State {
    State {
        migrations: s.migrations.insert(
            contract_id,
            PendingClientMigration { current_client, proposed_client: new_client },
        ),
        ..s
    }
}

/// Why the acceptance by a new client is refused.
pub open spec fn accept_migration_refusal(
    s: State,
    contract_id: u32,
    new_client: Address,
) -> Option<Halt> {
    if s.freeze() is Some {
        s.freeze()
    } else if s.closed(contract_id) is Some {
        s.closed(contract_id)
    } else if !s.migrations.contains_key(contract_id) {
        fail(Error::InvalidState)
    } else if s.migrations[contract_id].proposed_client != new_client {
        fail(Error::UnauthorizedRole)
    } else if !s.authorized.contains(new_client) {
        Some(Halt::AuthRequired(new_client))
    } else {
        None
    }
}

/// What the acceptance by a new client leaves behind.
pub open spec fn accept_migration_effect(
    s: State,
    contract_id: u32,
    new_client: Address,
) -> State {
    State {
        migrations: s.migrations.remove(contract_id),
        ..s.with_contract(
            contract_id,
            Contract { client: new_client, ..s.contracts[contract_id] },
        )
    }
}

/// Why the withdrawal of a proposal is refused.
pub open spec fn cancel_migration_refusal(
    s: State,
    contract_id: u32,
    current_client: Address,
) -> Option<Halt> {
    if s.freeze() is Some {
        s.freeze()
    } else if s.closed(contract_id) is Some {
        s.closed(contract_id)
    } else if current_client != s.contracts[contract_id].client {
        fail(Error::UnauthorizedRole)
    } else if !s.authorized.contains(current_client) {
        Some(Halt::AuthRequired(current_client))
    } else if !s.migrations.contains_key(contract_id) {
        fail(Error::InvalidState)
    } else {
        None
    }
}

/// What the withdrawal of a proposal leaves behind.
pub open spec fn cancel_migration_effect(
    s: State,
    contract_id: u32,
    current_client: Address,
) -> State {
    State {
        migrations: s.migrations.remove(contract_id),
        ..s.with_event(
            Event::ClientMigrationCancelled {
                contract_id,
                current_client,
                timestamp: s.call.timestamp,
            },
        )
    }
}

impl Escrow {
    /// Proposes a new client for an agreement. Only its client can propose one,
    /// and neither the client nor the freelancer can be proposed.
    pub fn propose_client_migration(
        env: &mut Env,
        contract_id: u32,
        current_client: Address,
        new_client: Address,
    ) -> (result: Result<bool, Halt>)
        requires
            old(env)@.wf(),
        ensures
            answers(
                result,
                propose_migration_refusal(old(env)@, contract_id, current_client, new_client),
                old(env)@,
                final(env)@,
                propose_migration_effect(old(env)@, contract_id, current_client, new_client),
            ),
            final(env)@.wf(),
    {
        env.require_not_paused()?;
        let contract = env.read_open_contract(contract_id)?;
        if current_client != contract.client {
            return Err(Halt::Failed(Error::UnauthorizedRole));
        }
        env.require_auth(current_client)?;
        if new_client == contract.freelancer || new_client == contract.client {
            return Err(Halt::Failed(Error::InvalidParticipant));
        }
        env.migrations.insert(
            contract_id,
            PendingClientMigration { current_client, proposed_client: new_client },
        );
        Ok(true)
    }

    /// Hands the agreement over to the proposed client, who alone can accept.
    pub fn accept_client_migration(env: &mut Env, contract_id: u32, new_client: Address) -> (result:
        Result<bool, Halt>)
        requires
            old(env)@.wf(),
        ensures
            answers(
                result,
                accept_migration_refusal(old(env)@, contract_id, new_client),
                old(env)@,
                final(env)@,
                accept_migration_effect(old(env)@, contract_id, new_client),
            ),
            final(env)@.wf(),
    {
        env.require_not_paused()?;
        let contract = env.read_open_contract(contract_id)?;
        let proposed = match env.migrations.get(&contract_id) {
            Some(pending) => pending.proposed_client,
            None => return Err(Halt::Failed(Error::InvalidState)),
        };
        if proposed != new_client {
            return Err(Halt::Failed(Error::UnauthorizedRole));
        }
        env.require_auth(new_client)?;
        let mut after = contract;
        after.client = new_client;
        env.write_contract(contract_id, after);
        env.migrations.remove(&contract_id);
        Ok(true)
    }

    /// Whether a new client is proposed for an agreement.
    pub fn has_pending_client_migration(env: &Env, contract_id: u32) -> (pending: bool)
        ensures
            pending == env@.migrations.contains_key(contract_id),
    {
        env.migrations.contains_key(&contract_id)
    }

    /// The proposal of a new client. Fails with `InvalidState` without one.
    pub fn get_pending_client_migration(env: &Env, contract_id: u32) -> (result: Result<
        PendingClientMigration,
        Halt,
    >)
        ensures
            result == (if env@.migrations.contains_key(contract_id) {
                Ok::<PendingClientMigration, Halt>(env@.migrations[contract_id])
            } else {
                Err(Halt::Failed(Error::InvalidState))
            }),
    {
        match env.migrations.get(&contract_id) {
            Some(pending) => Ok(*pending),
            None => Err(Halt::Failed(Error::InvalidState)),
        }
    }

    /// Withdraws the proposal of a new client. Only the agreement's client can
    /// withdraw it.
    pub fn cancel_client_migration(
        env: &mut Env,
        contract_id: u32,
        current_client: Address,
    ) -> (result: Result<bool, Halt>)
        requires
            old(env)@.wf(),
        ensures
            answers(
                result,
                cancel_migration_refusal(old(env)@, contract_id, current_client),
                old(env)@,
                final(env)@,
                cancel_migration_effect(old(env)@, contract_id, current_client),
            ),
            final(env)@.wf(),
    {
        env.require_not_paused()?;
        let contract = env.read_open_contract(contract_id)?;
        if current_client != contract.client {
            return Err(Halt::Failed(Error::UnauthorizedRole));
        }
        env.require_auth(current_client)?;
        if !env.migrations.contains_key(&contract_id) {
            return Err(Halt::Failed(Error::InvalidState));
        }
        env.migrations.remove(&contract_id);
        let timestamp: u64 = env.call.timestamp;
        env.publish(Event::ClientMigrationCancelled { contract_id, current_client, timestamp });
        Ok(true)
    }
}

} // verus!
