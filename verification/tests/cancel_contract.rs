//! Cancellations.
use escrow::{
    Address, Config, ContractStatus, Env, Error, Escrow, EscrowError, Event, Halt, Invocation,
    ReleaseAuthorization,
};
use std::collections::HashMap;

/// The address of the escrow itself.
const ESCROW: Address = Address { id: 1 };

/// A host: it answers authorizations and token probes, and carries out transfers.
struct World {
    env: Env,
    balances: HashMap<u64, i128>,
    tokens: Vec<Address>,
    last_address: u64,
}

impl World {
    /// A host with an escrow that nobody has set up.
    fn new() -> World {
        let call = Invocation { contract_address: ESCROW, timestamp: 1_000, sequence: 100 };
        World {
            env: Env::new(call, Config::default()).unwrap(),
            balances: HashMap::new(),
            tokens: Vec::new(),
            last_address: ESCROW.id,
        }
    }

    fn address(&mut self) -> Address {
        self.last_address += 1;
        Address { id: self.last_address }
    }

    fn token(&mut self) -> Address {
        let token = self.address();
        self.tokens.push(token);
        token
    }

    fn balance(&self, address: Address) -> i128 {
        *self.balances.get(&address.id).unwrap_or(&0)
    }

    /// Runs one invocation in which everybody authorizes.
    fn call<T>(&mut self, entrypoint: impl Fn(&mut Env) -> Result<T, Halt>) -> Result<T, Error> {
        self.env.authorized.clear();
        self.env.token_probes.clear();
        self.env.events.clear();
        self.env.transfers.clear();
        loop {
            match entrypoint(&mut self.env) {
                Ok(value) => {
                    for t in self.env.transfers.iter() {
                        *self.balances.entry(t.from.id).or_insert(0) -= t.amount;
                        *self.balances.entry(t.to.id).or_insert(0) += t.amount;
                    }
                    return Ok(value);
                }
                Err(Halt::AuthRequired(address)) => self.env.authorized.push(address),
                Err(Halt::ProbeRequired(address)) => {
                    let answered = self.tokens.contains(&address);
                    self.env.token_probes.insert(address.id, answered);
                }
                Err(Halt::Failed(error)) => {
                    assert!(self.env.events.is_empty());
                    assert!(self.env.transfers.is_empty());
                    return Err(error);
                }
            }
        }
    }
}

/// An escrow with a bound token and one agreement of 100, 200 and 300 stroops.
fn setup_cancel_context() -> (World, Address, Address, u32) {
    let mut world = World::new();
    let client = world.address();
    let freelancer = world.address();
    let admin = world.address();
    world.call(|env| Escrow::initialize(env, admin)).unwrap();
    let token = world.token();
    world.call(|env| Escrow::set_settlement_token(env, admin, token)).unwrap();
    world.balances.insert(client.id, 10_000_0000000_i128);
    let contract_id = world
        .call(|env| {
            Escrow::create_contract(
                env,
                client,
                freelancer,
                None,
                vec![100_i128, 200_i128, 300_i128],
                ReleaseAuthorization::ClientOnly,
            )
        })
        .unwrap();
    (world, client, freelancer, contract_id)
}

#[test]
fn cancel_created_contract_marks_it_cancelled_without_refund() {
    let (mut world, client, _, contract_id) = setup_cancel_context();
    let client_balance_before = world.balance(client);
    let escrow_balance_before = world.balance(ESCROW);

    assert!(world.call(|env| Escrow::cancel_contract(env, contract_id, client)).unwrap());

    let contract = Escrow::get_contract(&world.env, contract_id).unwrap();
    assert_eq!(contract.status, ContractStatus::Cancelled);
    assert_eq!(contract.refunded_amount, 0);
    assert_eq!(world.balance(client), client_balance_before);
    assert_eq!(world.balance(ESCROW), escrow_balance_before);
    assert!(world.env.transfers.is_empty());
}

#[test]
fn cancel_funded_contract_refunds_the_remaining_balance_to_the_client() {
    let (mut world, client, _, contract_id) = setup_cancel_context();

    assert!(world
        .call(|env| Escrow::deposit_funds(env, contract_id, client, 600_i128))
        .unwrap());
    let contract = Escrow::get_contract(&world.env, contract_id).unwrap();
    assert_eq!(contract.status, ContractStatus::Funded);

    let client_balance_before = world.balance(client);
    let escrow_balance_before = world.balance(ESCROW);
    assert_eq!(escrow_balance_before, 600_i128);

    assert!(world.call(|env| Escrow::cancel_contract(env, contract_id, client)).unwrap());

    let contract = Escrow::get_contract(&world.env, contract_id).unwrap();
    assert_eq!(contract.status, ContractStatus::Cancelled);
    assert_eq!(contract.refunded_amount, 600_i128);
    assert_eq!(world.balance(client), client_balance_before + 600_i128);
    assert_eq!(world.balance(ESCROW), escrow_balance_before - 600_i128);
}

#[test]
fn cancel_refund_leaves_other_contract_funds_in_escrow() {
    let (mut world, client, freelancer, first_contract_id) = setup_cancel_context();
    let second_contract_id = world
        .call(|env| {
            Escrow::create_contract(
                env,
                client,
                freelancer,
                None,
                vec![400_i128],
                ReleaseAuthorization::ClientOnly,
            )
        })
        .unwrap();

    assert!(world
        .call(|env| Escrow::deposit_funds(env, first_contract_id, client, 600_i128))
        .unwrap());
    assert!(world
        .call(|env| Escrow::deposit_funds(env, second_contract_id, client, 400_i128))
        .unwrap());
    let client_balance_before = world.balance(client);
    assert_eq!(world.balance(ESCROW), 1_000_i128);

    assert!(world
        .call(|env| Escrow::cancel_contract(env, first_contract_id, client))
        .unwrap());

    assert_eq!(world.balance(client), client_balance_before + 600_i128);
    assert_eq!(
        world.balance(ESCROW),
        Escrow::get_refundable_balance(&world.env, second_contract_id).unwrap(),
        "escrow balance must contain only the remaining active contract funds"
    );
    assert_eq!(Escrow::get_refundable_balance(&world.env, first_contract_id), Ok(0));
}

#[test]
fn cancel_rejects_unauthorized_caller() {
    let (mut world, client, _, contract_id) = setup_cancel_context();
    let unauthorized = world.address();

    assert_eq!(
        world.call(|env| Escrow::cancel_contract(env, contract_id, unauthorized)),
        Err(Error::UnauthorizedRole)
    );

    let contract = Escrow::get_contract(&world.env, contract_id).unwrap();
    assert_eq!(contract.status, ContractStatus::Created);
    assert_eq!(contract.client, client);
}

#[test]
fn cancel_rejects_contract_after_a_release() {
    let (mut world, client, _, contract_id) = setup_cancel_context();

    assert!(world
        .call(|env| Escrow::deposit_funds(env, contract_id, client, 600_i128))
        .unwrap());
    assert!(world
        .call(|env| Escrow::approve_milestone_release(env, contract_id, client, 0))
        .unwrap());
    assert!(world
        .call(|env| Escrow::release_milestone(env, contract_id, client, 0))
        .unwrap());

    assert_eq!(
        world.call(|env| Escrow::cancel_contract(env, contract_id, client)),
        Err(Error::InvalidStatusTransition)
    );
}

#[test]
fn double_cancel_rejects_with_already_cancelled() {
    let (mut world, client, _, contract_id) = setup_cancel_context();

    assert!(world.call(|env| Escrow::cancel_contract(env, contract_id, client)).unwrap());

    assert_eq!(
        world.call(|env| Escrow::cancel_contract(env, contract_id, client)),
        Err(EscrowError::ContractCancelled)
    );
}

#[test]
fn cancel_rejects_completed_contract() {
    let (mut world, client, _, contract_id) = setup_cancel_context();

    assert!(world
        .call(|env| Escrow::deposit_funds(env, contract_id, client, 600_i128))
        .unwrap());
    for milestone_idx in 0..3 {
        assert!(world
            .call(|env| Escrow::approve_milestone_release(env, contract_id, client, milestone_idx))
            .unwrap());
        assert!(world
            .call(|env| Escrow::release_milestone(env, contract_id, client, milestone_idx))
            .unwrap());
    }

    assert_eq!(
        world.call(|env| Escrow::cancel_contract(env, contract_id, client)),
        Err(Error::InvalidStatusTransition)
    );
}

#[test]
fn cancel_emits_cancelled_event_with_correct_payload() {
    let (mut world, client, _, contract_id) = setup_cancel_context();

    assert!(world.call(|env| Escrow::cancel_contract(env, contract_id, client)).unwrap());

    let found = world.env.events.iter().any(|event| event.topic() == "cancelled");
    assert!(
        found,
        "Expected cancelled event with (Symbol(\"cancelled\"), contract_id) topics"
    );
    assert_eq!(
        world.env.events,
        vec![Event::Cancelled {
            contract_id,
            client,
            previous_status: ContractStatus::Created,
            timestamp: 1_000,
        }]
    );
}

#[test]
fn cancel_rejects_partially_funded_and_disputed_agreements() {
    let (mut world, client, freelancer, contract_id) = setup_cancel_context();
    let arbiter = world.address();
    let disputed = world
        .call(|env| {
            Escrow::create_contract(
                env,
                client,
                freelancer,
                Some(arbiter),
                vec![50_i128],
                ReleaseAuthorization::ClientOnly,
            )
        })
        .unwrap();
    world.call(|env| Escrow::deposit_funds(env, disputed, client, 50)).unwrap();
    world.call(|env| Escrow::raise_dispute(env, disputed, client)).unwrap();
    assert_eq!(
        world.call(|env| Escrow::cancel_contract(env, disputed, client)),
        Err(Error::InvalidStatusTransition)
    );

    let mut contract = Escrow::get_contract(&world.env, contract_id).unwrap();
    contract.status = ContractStatus::PartiallyFunded;
    assert!(world.env.load_contract(contract_id, contract));
    assert_eq!(
        world.call(|env| Escrow::cancel_contract(env, contract_id, client)),
        Err(Error::InvalidStatusTransition)
    );
}

#[test]
fn cancel_rejects_contract_after_a_release_that_paid_nothing_out() {
    let (mut world, client, _, contract_id) = setup_cancel_context();
    world.call(|env| Escrow::set_protocol_fee_bps(env, 10_000)).unwrap();
    world.call(|env| Escrow::deposit_funds(env, contract_id, client, 600)).unwrap();
    world.call(|env| Escrow::approve_milestone_release(env, contract_id, client, 0)).unwrap();
    world.call(|env| Escrow::release_milestone(env, contract_id, client, 0)).unwrap();
    assert_eq!(Escrow::get_contract(&world.env, contract_id).unwrap().released_amount, 0);
    assert_eq!(Escrow::get_accumulated_protocol_fees(&world.env), 100);
    assert_eq!(
        world.call(|env| Escrow::cancel_contract(env, contract_id, client)),
        Err(Error::InvalidStatusTransition)
    );
    assert_eq!(world.balance(ESCROW), 600);
}

#[test]
fn cancel_after_a_partial_deposit_pays_it_back() {
    let (mut world, client, _, contract_id) = setup_cancel_context();
    world.call(|env| Escrow::deposit_funds(env, contract_id, client, 150)).unwrap();
    assert_eq!(world.balance(ESCROW), 150);
    assert!(world.call(|env| Escrow::cancel_contract(env, contract_id, client)).unwrap());
    assert_eq!(world.balance(ESCROW), 0);
    assert_eq!(world.balance(client), 10_000_0000000_i128);
}

#[test]
fn cancel_is_refused_while_stopped_and_before_initialization() {
    let (mut world, client, _, contract_id) = setup_cancel_context();
    world.call(|env| Escrow::pause(env)).unwrap();
    assert_eq!(
        world.call(|env| Escrow::cancel_contract(env, contract_id, client)),
        Err(Error::ContractPaused)
    );
    world.call(|env| Escrow::activate_emergency_pause(env)).unwrap();
    assert_eq!(
        world.call(|env| Escrow::cancel_contract(env, contract_id, client)),
        Err(Error::EmergencyActive)
    );
    world.call(|env| Escrow::resolve_emergency(env)).unwrap();
    assert_eq!(
        world.call(|env| Escrow::cancel_contract(env, contract_id + 1, client)),
        Err(Error::ContractNotFound)
    );
    let mut blank = World::new();
    assert_eq!(
        blank.call(|env| Escrow::cancel_contract(env, contract_id, client)),
        Err(Error::NotInitialized)
    );
}
