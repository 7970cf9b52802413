//! The life of agreements: creation, deposits, approvals, releases, refunds,
//! deliverable references, migrations and their close.
use escrow::ttl::{compute_expiry, PENDING_APPROVAL_TTL_LEDGERS};
use escrow::{
    Address, Config, Contract, ContractStatus, Env, Error, Escrow, Event, GovernedParameters,
    Halt, Invocation, Milestone, MilestoneApprovals, ReleaseAuthorization, Transfer,
    MAX_SINGLE_AMOUNT_STROOPS,
};
use std::collections::HashMap;

/// The address of the escrow itself.
const ESCROW: Address = Address { id: 1 };

/// A host: it answers authorizations and token probes, and carries out transfers.
struct World {
    env: Env,
    balances: HashMap<u64, i128>,
    tokens: Vec<Address>,
    last_address: u64,
}

impl World {
    /// A host with an escrow that nobody has set up.
    fn new() -> World {
        let call = Invocation { contract_address: ESCROW, timestamp: 1_000, sequence: 100 };
        World {
            env: Env::new(call, Config::default()).unwrap(),
            balances: HashMap::new(),
            tokens: Vec::new(),
            last_address: ESCROW.id,
        }
    }

    fn address(&mut self) -> Address {
        self.last_address += 1;
        Address { id: self.last_address }
    }

    fn token(&mut self) -> Address {
        let token = self.address();
        self.tokens.push(token);
        token
    }

    fn balance(&self, address: Address) -> i128 {
        *self.balances.get(&address.id).unwrap_or(&0)
    }

    /// Runs one invocation in which everybody authorizes.
    fn call<T>(&mut self, entrypoint: impl Fn(&mut Env) -> Result<T, Halt>) -> Result<T, Error> {
        self.env.authorized.clear();
        self.env.token_probes.clear();
        self.env.events.clear();
        self.env.transfers.clear();
        loop {
            match entrypoint(&mut self.env) {
                Ok(value) => {
                    for t in self.env.transfers.iter() {
                        *self.balances.entry(t.from.id).or_insert(0) -= t.amount;
                        *self.balances.entry(t.to.id).or_insert(0) += t.amount;
                    }
                    return Ok(value);
                }
                Err(Halt::AuthRequired(address)) => self.env.authorized.push(address),
                Err(Halt::ProbeRequired(address)) => {
                    let answered = self.tokens.contains(&address);
                    self.env.token_probes.insert(address.id, answered);
                }
                Err(Halt::Failed(error)) => {
                    assert!(self.env.events.is_empty());
                    assert!(self.env.transfers.is_empty());
                    return Err(error);
                }
            }
        }
    }

    /// Makes an agreement between the two parties and returns its id.
    fn create(&mut self, parties: Parties, amounts: &[i128], mode: ReleaseAuthorization) -> u32 {
        self.call(|env| {
            Escrow::create_contract(
                env,
                parties.client,
                parties.freelancer,
                Some(parties.arbiter),
                amounts.to_vec(),
                mode,
            )
        })
        .unwrap()
    }

    /// Makes an agreement in which the client decides, and funds all of it.
    fn funded(&mut self, parties: Parties, amounts: &[i128]) -> u32 {
        let contract_id = self.create(parties, amounts, ReleaseAuthorization::ClientOnly);
        let total: i128 = amounts.iter().sum();
        self.call(|env| Escrow::deposit_funds(env, contract_id, parties.client, total)).unwrap();
        contract_id
    }

    /// Approves and releases one milestone as the client.
    fn release(&mut self, parties: Parties, contract_id: u32, index: u32) {
        let client = parties.client;
        self.call(|env| Escrow::approve_milestone_release(env, contract_id, client, index))
            .unwrap();
        self.call(|env| Escrow::release_milestone(env, contract_id, client, index)).unwrap();
    }
}

#[derive(Clone, Copy)]
struct Parties {
    admin: Address,
    client: Address,
    freelancer: Address,
    arbiter: Address,
}

/// An initialized escrow with a bound token, and its parties.
fn setup() -> (World, Parties) {
    let mut world = World::new();
    let parties = Parties {
        admin: world.address(),
        client: world.address(),
        freelancer: world.address(),
        arbiter: world.address(),
    };
    world.call(|env| Escrow::initialize(env, parties.admin)).unwrap();
    let token = world.token();
    world.call(|env| Escrow::bind_settlement_token(env, parties.admin, token)).unwrap();
    world.balances.insert(parties.client.id, 1_000_000);
    (world, parties)
}

#[test]
fn ids_are_handed_out_in_order() {
    let (mut world, parties) = setup();
    assert_eq!(Escrow::get_next_contract_id(&world.env), 1);
    assert!(!Escrow::contract_exists(&world.env, 1));
    assert_eq!(world.create(parties, &[10, 20], ReleaseAuthorization::ClientOnly), 1);
    assert_eq!(
        world.env.events,
        vec![Event::ContractCreated {
            contract_id: 1,
            client: parties.client,
            freelancer: parties.freelancer,
            timestamp: 1_000,
        }]
    );
    assert_eq!(world.create(parties, &[30], ReleaseAuthorization::MultiSig), 2);
    assert_eq!(Escrow::get_next_contract_id(&world.env), 3);
    assert!(Escrow::contract_exists(&world.env, 1));
    assert!(Escrow::contract_exists(&world.env, 2));
    assert!(!Escrow::contract_exists(&world.env, 3));
    assert_eq!(
        Escrow::get_contract(&world.env, 2),
        Ok(Contract {
            client: parties.client,
            freelancer: parties.freelancer,
            arbiter: Some(parties.arbiter),
            status: ContractStatus::Created,
            total_deposited: 0,
            funded_amount: 0,
            released_amount: 0,
            refunded_amount: 0,
            release_authorization: ReleaseAuthorization::MultiSig,
            reputation_issued: false,
        })
    );
    assert_eq!(Escrow::get_contract(&world.env, 3), Err(Halt::Failed(Error::ContractNotFound)));
}

#[test]
fn invalid_agreements_are_refused() {
    let (mut world, p) = setup();
    let only = ReleaseAuthorization::ClientOnly;
    let try_create = |world: &mut World,
                      freelancer: Address,
                      arbiter: Option<Address>,
                      amounts: Vec<i128>,
                      mode: ReleaseAuthorization| {
        world.call(|env| {
            Escrow::create_contract(env, p.client, freelancer, arbiter, amounts.clone(), mode)
        })
    };
    assert_eq!(
        try_create(&mut world, p.client, None, vec![1], only),
        Err(Error::InvalidParticipant)
    );
    assert_eq!(
        try_create(&mut world, p.freelancer, None, vec![1], ReleaseAuthorization::ArbiterOnly),
        Err(Error::MissingArbiter)
    );
    assert_eq!(
        try_create(&mut world, p.freelancer, None, vec![1], ReleaseAuthorization::ClientAndArbiter),
        Err(Error::MissingArbiter)
    );
    assert_eq!(
        try_create(&mut world, p.freelancer, Some(p.client), vec![1], only),
        Err(Error::InvalidArbiter)
    );
    assert_eq!(
        try_create(&mut world, p.freelancer, Some(p.freelancer), vec![1], only),
        Err(Error::InvalidArbiter)
    );
    assert_eq!(
        try_create(&mut world, p.freelancer, None, vec![], only),
        Err(Error::EmptyMilestones)
    );
    assert_eq!(
        try_create(&mut world, p.freelancer, None, vec![1; 11], only),
        Err(Error::TooManyMilestones)
    );
    assert_eq!(
        try_create(&mut world, p.freelancer, None, vec![1, 0], only),
        Err(Error::InvalidMilestoneAmount)
    );
    assert_eq!(
        try_create(&mut world, p.freelancer, None, vec![-5], only),
        Err(Error::InvalidMilestoneAmount)
    );
    assert_eq!(
        try_create(&mut world, p.freelancer, None, vec![MAX_SINGLE_AMOUNT_STROOPS + 1], only),
        Err(Error::InvalidMilestoneAmount)
    );
    assert_eq!(
        try_create(&mut world, p.freelancer, None, vec![MAX_SINGLE_AMOUNT_STROOPS, 1], only),
        Err(Error::TotalCapExceeded)
    );
    assert_eq!(
        try_create(&mut world, p.freelancer, None, vec![MAX_SINGLE_AMOUNT_STROOPS], only),
        Ok(1)
    );
    assert_eq!(try_create(&mut world, p.freelancer, None, vec![1; 10], only), Ok(2));
    world.env.config.governed =
        Some(GovernedParameters { protocol_fee_bps: 0, max_escrow_total_stroops: 50 });
    assert_eq!(
        try_create(&mut world, p.freelancer, None, vec![51], only),
        Err(Error::TotalCapExceeded)
    );
    assert_eq!(try_create(&mut world, p.freelancer, None, vec![50], only), Ok(3));
}

#[test]
fn exhausted_or_taken_ids_are_refused() {
    let (mut world, p) = setup();
    let contract_id = world.create(p, &[5], ReleaseAuthorization::ClientOnly);
    world.env.config.next_contract_id = contract_id;
    let again = |env: &mut Env| {
        Escrow::create_contract(
            env,
            p.client,
            p.freelancer,
            None,
            vec![5],
            ReleaseAuthorization::ClientOnly,
        )
    };
    assert_eq!(world.call(again), Err(Error::ContractIdCollision));
    world.env.config.next_contract_id = u32::MAX;
    assert_eq!(world.call(again), Err(Error::ContractIdOverflow));
    let mut blank = World::new();
    assert_eq!(blank.call(again), Err(Error::NotInitialized));
}

fn funding(env: &Env, contract_id: u32) -> Vec<i128> {
    Escrow::get_milestones(env, contract_id).unwrap().iter().map(|m| m.funded_amount).collect()
}

#[test]
fn deposits_fund_milestones_in_order() {
    let (mut world, p) = setup();
    let id = world.create(p, &[100, 200, 300], ReleaseAuthorization::ClientOnly);
    world.call(|env| Escrow::deposit_funds(env, id, p.client, 150)).unwrap();
    assert_eq!(
        world.env.transfers,
        vec![Transfer {
            token: world.tokens[0],
            from: p.client,
            to: ESCROW,
            amount: 150,
        }]
    );
    assert_eq!(funding(&world.env, id), vec![100, 50, 0]);
    let contract = Escrow::get_contract(&world.env, id).unwrap();
    assert_eq!(contract.status, ContractStatus::Created);
    assert_eq!(contract.total_deposited, 150);
    assert_eq!(contract.funded_amount, 150);
    world.call(|env| Escrow::deposit_funds(env, id, p.client, 450)).unwrap();
    assert_eq!(funding(&world.env, id), vec![100, 200, 300]);
    assert_eq!(Escrow::get_contract(&world.env, id).unwrap().status, ContractStatus::Funded);
    assert_eq!(world.balance(ESCROW), 600);
    assert_eq!(Escrow::get_refundable_balance(&world.env, id), Ok(600));
}

#[test]
fn invalid_deposits_are_refused() {
    let (mut world, p) = setup();
    let id = world.create(p, &[100, 200], ReleaseAuthorization::ClientOnly);
    let deposit = |who: Address, id: u32, amount: i128| {
        move |env: &mut Env| Escrow::deposit_funds(env, id, who, amount)
    };
    assert_eq!(world.call(deposit(p.client, id, 0)), Err(Error::AmountMustBePositive));
    assert_eq!(world.call(deposit(p.client, id, -1)), Err(Error::AmountMustBePositive));
    assert_eq!(world.call(deposit(p.client, id + 1, 5)), Err(Error::ContractNotFound));
    assert_eq!(world.call(deposit(p.freelancer, id, 5)), Err(Error::UnauthorizedRole));
    assert_eq!(world.call(deposit(p.client, id, 301)), Err(Error::InvalidDepositAmount));
    assert_eq!(world.call(deposit(p.client, id, 300)), Ok(true));
    assert_eq!(world.call(deposit(p.client, id, 1)), Err(Error::InvalidState));
    let second = world.create(p, &[10], ReleaseAuthorization::ClientOnly);
    world.env.config.settlement_token = None;
    assert_eq!(
        world.call(deposit(p.client, second, 10)),
        Err(Error::SettlementTokenNotConfigured)
    );
    assert_eq!(Escrow::get_contract(&world.env, second).unwrap().funded_amount, 0);
}

#[test]
fn release_pays_the_freelancer_and_completes_the_agreement() {
    let (mut world, p) = setup();
    let id = world.funded(p, &[100, 200]);
    world.release(p, id, 0);
    assert_eq!(
        world.env.events,
        vec![Event::MilestoneReleased {
            contract_id: id,
            milestone_index: 0,
            amount: 100,
            fee: 0,
            new_released_amount: 100,
            caller: p.client,
            timestamp: 1_000,
        }]
    );
    assert_eq!(world.balance(p.freelancer), 100);
    assert_eq!(Escrow::get_milestone_approvals(&world.env, id, 0), None);
    assert_eq!(Escrow::get_contract(&world.env, id).unwrap().status, ContractStatus::Funded);
    assert_eq!(Escrow::get_pending_reputation_credits(&world.env, p.freelancer), 0);
    world.release(p, id, 1);
    assert_eq!(
        world.env.events[1],
        Event::ContractCompleted { contract_id: id, caller: p.client, timestamp: 1_000 }
    );
    assert_eq!(world.balance(p.freelancer), 300);
    assert_eq!(world.balance(ESCROW), 0);
    let contract = Escrow::get_contract(&world.env, id).unwrap();
    assert_eq!(contract.status, ContractStatus::Completed);
    assert_eq!(contract.released_amount, 300);
    assert_eq!(Escrow::get_pending_reputation_credits(&world.env, p.freelancer), 1);
}

#[test]
fn invalid_releases_are_refused() {
    let (mut world, p) = setup();
    let release = |who: Address, id: u32, index: u32| {
        move |env: &mut Env| Escrow::release_milestone(env, id, who, index)
    };
    let unfunded = world.create(p, &[100], ReleaseAuthorization::ClientOnly);
    assert_eq!(world.call(release(p.client, unfunded, 0)), Err(Error::InvalidState));
    let id = world.funded(p, &[100, 200, 300]);
    assert_eq!(world.call(release(p.client, id + 1, 0)), Err(Error::ContractNotFound));
    assert_eq!(world.call(release(p.freelancer, id, 0)), Err(Error::UnauthorizedRole));
    assert_eq!(world.call(release(p.client, id, 3)), Err(Error::InvalidMilestone));
    assert_eq!(world.call(release(p.client, id, 0)), Err(Error::InsufficientApprovals));
    world.release(p, id, 0);
    assert_eq!(world.call(release(p.client, id, 0)), Err(Error::AlreadyReleased));
    world.call(|env| Escrow::refund_unreleased_milestones(env, id, vec![1])).unwrap();
    assert_eq!(world.call(release(p.client, id, 1)), Err(Error::AlreadyRefunded));
    world.call(|env| Escrow::approve_milestone_release(env, id, p.client, 2)).unwrap();
    world.env.config.accumulated_fees = 1;
    assert_eq!(world.call(release(p.client, id, 2)), Err(Error::InsufficientFunds));
    world.env.config.accumulated_fees = 0;
    world.env.config.settlement_token = None;
    assert_eq!(world.call(release(p.client, id, 2)), Err(Error::SettlementTokenNotConfigured));
    let mut blank = World::new();
    assert_eq!(blank.call(release(p.client, id, 2)), Err(Error::NotInitialized));
}

fn milestone(amount: i128, funded_amount: i128, deadline: Option<u64>) -> Milestone {
    Milestone {
        amount,
        funded_amount,
        released: false,
        refunded: false,
        work_evidence: None,
        refunded_amount: 0,
        deadline,
    }
}

#[test]
fn an_underfunded_milestone_is_not_released() {
    let (mut world, p) = setup();
    let id = world.funded(p, &[100, 200]);
    assert!(world.env.load_milestones(id, vec![milestone(100, 99, None), milestone(200, 200, None)]));
    world.call(|env| Escrow::approve_milestone_release(env, id, p.client, 0)).unwrap();
    assert_eq!(
        world.call(|env| Escrow::release_milestone(env, id, p.client, 0)),
        Err(Error::InsufficientFunds)
    );
}

#[test]
fn approvals_follow_the_mode() {
    let (mut world, p) = setup();
    let approve = |who: Address, id: u32| {
        move |env: &mut Env| Escrow::approve_milestone_release(env, id, who, 0)
    };
    let release = |who: Address, id: u32| {
        move |env: &mut Env| Escrow::release_milestone(env, id, who, 0)
    };
    let fund = |world: &mut World, mode: ReleaseAuthorization| {
        let id = world.create(p, &[100, 50], mode);
        world.call(|env| Escrow::deposit_funds(env, id, p.client, 150)).unwrap();
        id
    };

    let id = fund(&mut world, ReleaseAuthorization::MultiSig);
    assert_eq!(world.call(approve(p.arbiter, id)), Err(Error::UnauthorizedRole));
    world.call(approve(p.client, id)).unwrap();
    assert_eq!(world.call(approve(p.client, id)), Err(Error::AlreadyApproved));
    assert_eq!(world.call(release(p.client, id)), Err(Error::InsufficientApprovals));
    world.call(approve(p.freelancer, id)).unwrap();
    assert_eq!(
        Escrow::get_milestone_approvals(&world.env, id, 0),
        Some(MilestoneApprovals {
            client_approved: true,
            freelancer_approved: true,
            arbiter_approved: false,
        })
    );
    assert_eq!(world.call(release(p.arbiter, id)), Err(Error::UnauthorizedRole));
    assert_eq!(world.call(release(p.freelancer, id)), Ok(true));

    let id = fund(&mut world, ReleaseAuthorization::ArbiterOnly);
    assert_eq!(world.call(approve(p.client, id)), Err(Error::UnauthorizedRole));
    world.call(approve(p.arbiter, id)).unwrap();
    assert_eq!(world.call(release(p.client, id)), Err(Error::UnauthorizedRole));
    assert_eq!(world.call(release(p.arbiter, id)), Ok(true));

    let id = fund(&mut world, ReleaseAuthorization::ClientAndArbiter);
    assert_eq!(world.call(approve(p.freelancer, id)), Err(Error::UnauthorizedRole));
    world.call(approve(p.arbiter, id)).unwrap();
    assert_eq!(world.call(release(p.client, id)), Ok(true));
}

#[test]
fn invalid_approvals_are_refused() {
    let (mut world, p) = setup();
    let approve = |id: u32, index: u32| {
        move |env: &mut Env| Escrow::approve_milestone_release(env, id, p.client, index)
    };
    assert_eq!(world.call(approve(1, 0)), Err(Error::ContractNotFound));
    let id = world.create(p, &[100], ReleaseAuthorization::ClientOnly);
    assert_eq!(world.call(approve(id, 0)), Err(Error::InvalidState));
    let id = world.funded(p, &[100, 200, 300]);
    assert_eq!(world.call(approve(id, 3)), Err(Error::IndexOutOfBounds));
    world.release(p, id, 0);
    assert_eq!(world.call(approve(id, 0)), Err(Error::AlreadyReleased));
    world.call(|env| Escrow::refund_unreleased_milestones(env, id, vec![1])).unwrap();
    assert_eq!(world.call(approve(id, 1)), Err(Error::AlreadyRefunded));
}

#[test]
fn an_approval_has_ledgers_left_while_it_is_live() {
    let (mut world, p) = setup();
    let id = world.funded(p, &[100]);
    assert_eq!(Escrow::get_approval_deadline(&world.env, id, 0), None);
    world.call(|env| Escrow::approve_milestone_release(env, id, p.client, 0)).unwrap();
    assert_eq!(
        Escrow::get_approval_deadline(&world.env, id, 0),
        Some(PENDING_APPROVAL_TTL_LEDGERS)
    );
    assert_eq!(PENDING_APPROVAL_TTL_LEDGERS, 120_960);
    assert_eq!(compute_expiry(&world.env, PENDING_APPROVAL_TTL_LEDGERS), 121_060);
    world.env.call.sequence = u32::MAX - 5;
    assert_eq!(Escrow::get_approval_deadline(&world.env, id, 0), Some(5));
    assert_eq!(compute_expiry(&world.env, 10), u32::MAX);
    assert_eq!(compute_expiry(&world.env, 5), u32::MAX);
    assert_eq!(compute_expiry(&world.env, 4), u32::MAX - 1);
    world.env.approvals.clear();
    assert_eq!(Escrow::get_approval_deadline(&world.env, id, 0), None);
    assert_eq!(
        world.call(|env| Escrow::release_milestone(env, id, p.client, 0)),
        Err(Error::InsufficientApprovals)
    );
}

#[test]
fn a_batch_release_equals_single_releases() {
    let (mut world, p) = setup();
    world.call(|env| Escrow::set_protocol_fee_bps(env, 333)).unwrap();
    let batch = world.funded(p, &[101, 202, 1_000]);
    for index in [0, 1] {
        world
            .call(|env| Escrow::approve_milestone_release(env, batch, p.client, index))
            .unwrap();
    }
    world.call(|env| Escrow::release_milestones(env, batch, p.client, vec![1, 0])).unwrap();
    assert_eq!(
        world.env.events,
        vec![Event::MilestonesReleased {
            contract_id: batch,
            milestone_indices: vec![1, 0],
            total_gross: 303,
            total_fee: 9,
            new_released_amount: 294,
            caller: p.client,
            timestamp: 1_000,
        }]
    );
    assert_eq!(world.env.transfers.len(), 1);
    let paid_by_batch = world.balance(p.freelancer);
    assert_eq!(paid_by_batch, 294);
    assert_eq!(Escrow::get_milestone_approvals(&world.env, batch, 0), None);
    assert_eq!(Escrow::get_milestone_approvals(&world.env, batch, 1), None);
    assert_eq!(Escrow::get_accumulated_protocol_fees(&world.env), 9);

    let permuted = world.funded(p, &[101, 202, 1_000]);
    for index in [0, 1] {
        world
            .call(|env| Escrow::approve_milestone_release(env, permuted, p.client, index))
            .unwrap();
    }
    world.call(|env| Escrow::release_milestones(env, permuted, p.client, vec![0, 1])).unwrap();
    assert_eq!(world.env.transfers[0].amount, paid_by_batch);
    assert_eq!(
        Escrow::get_contract(&world.env, batch),
        Escrow::get_contract(&world.env, permuted)
    );
    assert_eq!(
        Escrow::get_milestones(&world.env, batch),
        Escrow::get_milestones(&world.env, permuted)
    );

    let single = world.funded(p, &[101, 202, 1_000]);
    world.release(p, single, 0);
    world.release(p, single, 1);
    assert_eq!(world.balance(p.freelancer), 3 * paid_by_batch);
    assert_eq!(Escrow::get_accumulated_protocol_fees(&world.env), 27);
    assert_eq!(
        Escrow::get_contract(&world.env, batch),
        Escrow::get_contract(&world.env, single)
    );
    assert_eq!(
        Escrow::get_milestones(&world.env, batch),
        Escrow::get_milestones(&world.env, single)
    );
}

#[test]
fn a_batch_of_all_milestones_completes_the_agreement() {
    let (mut world, p) = setup();
    let id = world.funded(p, &[10, 20]);
    for index in [0, 1] {
        world.call(|env| Escrow::approve_milestone_release(env, id, p.client, index)).unwrap();
    }
    world.call(|env| Escrow::release_milestones(env, id, p.client, vec![0, 1])).unwrap();
    assert_eq!(world.env.events.len(), 2);
    assert_eq!(world.env.events[1].topic(), "ctrct_cmp");
    assert_eq!(Escrow::get_contract(&world.env, id).unwrap().status, ContractStatus::Completed);
    assert_eq!(Escrow::get_pending_reputation_credits(&world.env, p.freelancer), 1);
}

#[test]
fn one_invalid_milestone_refuses_the_whole_batch() {
    let (mut world, p) = setup();
    let batch = |id: u32, indices: Vec<u32>| {
        move |env: &mut Env| Escrow::release_milestones(env, id, p.client, indices.clone())
    };
    let unfunded = world.create(p, &[100], ReleaseAuthorization::ClientOnly);
    assert_eq!(world.call(batch(unfunded, vec![0])), Err(Error::InvalidState));
    let id = world.funded(p, &[100, 200, 300, 400]);
    assert_eq!(world.call(batch(id, vec![])), Err(Error::EmptyReleaseIndices));
    assert_eq!(world.call(batch(id, vec![2, 0, 2])), Err(Error::DuplicateMilestoneInRelease));
    assert_eq!(world.call(batch(id + 1, vec![0])), Err(Error::ContractNotFound));
    world.call(|env| Escrow::approve_milestone_release(env, id, p.client, 0)).unwrap();
    assert_eq!(world.call(batch(id, vec![0, 4])), Err(Error::IndexOutOfBounds));
    assert_eq!(world.call(batch(id, vec![0, 1])), Err(Error::InsufficientApprovals));
    world.release(p, id, 1);
    assert_eq!(world.call(batch(id, vec![0, 1])), Err(Error::MilestoneAlreadyReleased));
    world.call(|env| Escrow::refund_unreleased_milestones(env, id, vec![2])).unwrap();
    assert_eq!(world.call(batch(id, vec![0, 2])), Err(Error::AlreadyRefunded));
    world.env.config.accumulated_fees = 401;
    assert_eq!(world.call(batch(id, vec![0])), Err(Error::InsufficientFunds));
    world.env.config.accumulated_fees = 0;
    assert_eq!(
        world.call(|env| Escrow::release_milestones(env, id, p.freelancer, vec![0])),
        Err(Error::UnauthorizedRole)
    );
    assert!(!Escrow::get_milestone(&world.env, id, 0).unwrap().unwrap().released);
    assert_eq!(world.call(batch(id, vec![0])), Ok(true));
}

#[test]
fn refunds_pay_the_client_back() {
    let (mut world, p) = setup();
    let id = world.funded(p, &[100, 200, 300]);
    let before = world.balance(p.client);
    assert_eq!(
        world.call(|env| Escrow::refund_unreleased_milestones(env, id, vec![2, 0])),
        Ok(400)
    );
    assert_eq!(
        world.env.events,
        vec![Event::Refunded {
            contract_id: id,
            total_refund_amount: 400,
            new_status: ContractStatus::Funded,
            timestamp: 1_000,
        }]
    );
    assert_eq!(world.balance(p.client), before + 400);
    let first = Escrow::get_milestone(&world.env, id, 0).unwrap().unwrap();
    assert!(first.refunded);
    assert_eq!(first.refunded_amount, 100);
    assert_eq!(Escrow::get_refundable_balance(&world.env, id), Ok(200));
    assert_eq!(
        world.call(|env| Escrow::refund_unreleased_milestones(env, id, vec![1])),
        Ok(200)
    );
    assert_eq!(Escrow::get_contract(&world.env, id).unwrap().status, ContractStatus::Refunded);
    assert_eq!(Escrow::get_pending_reputation_credits(&world.env, p.freelancer), 0);
    assert_eq!(
        world.call(|env| Escrow::refund_unreleased_milestones(env, id, vec![1])),
        Err(Error::InvalidState)
    );
}

#[test]
fn a_refund_of_the_rest_completes_an_agreement_that_had_a_release() {
    let (mut world, p) = setup();
    let id = world.funded(p, &[100, 200]);
    world.release(p, id, 0);
    world.call(|env| Escrow::refund_unreleased_milestones(env, id, vec![1])).unwrap();
    assert_eq!(Escrow::get_contract(&world.env, id).unwrap().status, ContractStatus::Completed);
    assert_eq!(Escrow::get_pending_reputation_credits(&world.env, p.freelancer), 1);
}

#[test]
fn invalid_refunds_are_refused() {
    let (mut world, p) = setup();
    let refund = |id: u32, indices: Vec<u32>| {
        move |env: &mut Env| Escrow::refund_unreleased_milestones(env, id, indices.clone())
    };
    let id = world.funded(p, &[100, 200, 300]);
    assert_eq!(world.call(refund(id, vec![])), Err(Error::EmptyRefundRequest));
    assert_eq!(world.call(refund(id, vec![1, 1])), Err(Error::DuplicateMilestoneInRefund));
    assert_eq!(world.call(refund(id + 1, vec![0])), Err(Error::ContractNotFound));
    assert_eq!(world.call(refund(id, vec![0, 3])), Err(Error::IndexOutOfBounds));
    world.release(p, id, 0);
    assert_eq!(world.call(refund(id, vec![1, 0])), Err(Error::AlreadyReleased));
    world.call(refund(id, vec![1])).unwrap();
    assert_eq!(world.call(refund(id, vec![1])), Err(Error::AlreadyRefunded));
    let unfunded = world.create(p, &[100], ReleaseAuthorization::ClientOnly);
    assert_eq!(world.call(refund(unfunded, vec![0])), Err(Error::InsufficientFunds));
    world.env.config.settlement_token = None;
    assert_eq!(world.call(refund(id, vec![2])), Err(Error::SettlementTokenNotConfigured));
    world.env.config.paused = true;
    assert_eq!(world.call(refund(id, vec![2])), Err(Error::ContractPaused));
}

#[test]
fn a_deadline_has_to_pass_before_a_refund() {
    let (mut world, p) = setup();
    let id = world.funded(p, &[100, 200]);
    assert!(world.env.load_milestones(
        id,
        vec![milestone(100, 100, Some(2_000)), milestone(200, 200, None)]
    ));
    world.env.call.timestamp = 2_000;
    assert!(!Escrow::is_milestone_overdue(&world.env, id, 0));
    assert!(!Escrow::is_milestone_overdue(&world.env, id, 1));
    assert!(!Escrow::is_milestone_overdue(&world.env, id, 2));
    assert!(!Escrow::is_milestone_overdue(&world.env, id + 1, 0));
    assert_eq!(
        world.call(|env| Escrow::refund_unreleased_milestones(env, id, vec![0])),
        Err(Error::MilestoneNotOverdue)
    );
    world.env.call.timestamp = 2_001;
    assert!(Escrow::is_milestone_overdue(&world.env, id, 0));
    assert!(!Escrow::is_milestone_overdue(&world.env, id, 1));
    assert_eq!(
        world.call(|env| Escrow::refund_unreleased_milestones(env, id, vec![0, 1])),
        Ok(300)
    );
}

#[test]
fn a_released_milestone_is_not_overdue() {
    let (mut world, p) = setup();
    let id = world.funded(p, &[100]);
    assert!(world.env.load_milestones(id, vec![milestone(100, 100, Some(500))]));
    assert!(Escrow::is_milestone_overdue(&world.env, id, 0));
    world.release(p, id, 0);
    assert!(!Escrow::is_milestone_overdue(&world.env, id, 0));
}

#[test]
fn evidence_is_kept_until_replaced() {
    let (mut world, p) = setup();
    let id = world.funded(p, &[100, 200]);
    let submit = |who: Address, index: u32, evidence: Vec<u8>| {
        move |env: &mut Env| Escrow::submit_work_evidence(env, id, who, index, evidence.clone())
    };
    assert_eq!(Escrow::get_work_evidence(&world.env, id, 0), Ok(None));
    world.call(submit(p.freelancer, 0, b"first".to_vec())).unwrap();
    assert_eq!(
        world.env.events,
        vec![Event::EvidenceSubmitted {
            contract_id: id,
            milestone_index: 0,
            freelancer: p.freelancer,
            timestamp: 1_000,
        }]
    );
    assert_eq!(Escrow::get_work_evidence(&world.env, id, 0), Ok(Some(&b"first".to_vec())));
    world.call(submit(p.freelancer, 0, vec![7; 256])).unwrap();
    assert_eq!(Escrow::get_work_evidence(&world.env, id, 0), Ok(Some(&vec![7; 256])));
    assert_eq!(Escrow::get_work_evidence(&world.env, id, 1), Ok(None));
    assert_eq!(Escrow::get_work_evidence(&world.env, id, 2), Ok(None));
    assert_eq!(
        Escrow::get_work_evidence(&world.env, id + 1, 0),
        Err(Halt::Failed(Error::ContractNotFound))
    );

    assert_eq!(world.call(submit(p.freelancer, 0, vec![7; 257])), Err(Error::EvidenceTooLong));
    assert_eq!(world.call(submit(p.client, 0, vec![])), Err(Error::UnauthorizedRole));
    assert_eq!(world.call(submit(p.freelancer, 2, vec![])), Err(Error::IndexOutOfBounds));
    world.release(p, id, 0);
    assert_eq!(world.call(submit(p.freelancer, 0, vec![])), Err(Error::AlreadyReleased));
    world.call(|env| Escrow::refund_unreleased_milestones(env, id, vec![1])).unwrap();
    assert_eq!(world.call(submit(p.freelancer, 1, vec![])), Err(Error::InvalidState));
}

#[test]
fn evidence_for_a_refunded_milestone_is_refused() {
    let (mut world, p) = setup();
    let id = world.funded(p, &[100, 200]);
    world.call(|env| Escrow::refund_unreleased_milestones(env, id, vec![1])).unwrap();
    assert_eq!(
        world.call(|env| Escrow::submit_work_evidence(env, id, p.freelancer, 1, vec![1])),
        Err(Error::AlreadyRefunded)
    );
    let mut blank = World::new();
    assert_eq!(
        blank.call(|env| Escrow::submit_work_evidence(env, id, p.freelancer, 1, vec![1])),
        Err(Error::NotInitialized)
    );
}

#[test]
fn a_migration_hands_the_agreement_over() {
    let (mut world, p) = setup();
    let id = world.create(p, &[100], ReleaseAuthorization::ClientOnly);
    let heir = world.address();
    let propose = |who: Address, new: Address| {
        move |env: &mut Env| Escrow::propose_client_migration(env, id, who, new)
    };
    assert_eq!(world.call(propose(p.freelancer, heir)), Err(Error::UnauthorizedRole));
    assert_eq!(world.call(propose(p.client, p.client)), Err(Error::InvalidParticipant));
    assert_eq!(world.call(propose(p.client, p.freelancer)), Err(Error::InvalidParticipant));
    assert!(!Escrow::has_pending_client_migration(&world.env, id));
    assert_eq!(
        Escrow::get_pending_client_migration(&world.env, id),
        Err(Halt::Failed(Error::InvalidState))
    );
    assert_eq!(
        world.call(|env| Escrow::accept_client_migration(env, id, heir)),
        Err(Error::InvalidState)
    );
    world.call(propose(p.client, heir)).unwrap();
    assert!(Escrow::has_pending_client_migration(&world.env, id));
    let pending = Escrow::get_pending_client_migration(&world.env, id).unwrap();
    assert_eq!(pending.current_client, p.client);
    assert_eq!(pending.proposed_client, heir);
    assert_eq!(
        world.call(|env| Escrow::accept_client_migration(env, id, p.arbiter)),
        Err(Error::UnauthorizedRole)
    );
    world.call(|env| Escrow::accept_client_migration(env, id, heir)).unwrap();
    assert_eq!(Escrow::get_contract(&world.env, id).unwrap().client, heir);
    assert!(!Escrow::has_pending_client_migration(&world.env, id));
    assert_eq!(
        world.call(|env| Escrow::deposit_funds(env, id, p.client, 1)),
        Err(Error::UnauthorizedRole)
    );
}

#[test]
fn a_migration_can_be_withdrawn() {
    let (mut world, p) = setup();
    let id = world.create(p, &[100], ReleaseAuthorization::ClientOnly);
    let heir = world.address();
    assert_eq!(
        world.call(|env| Escrow::cancel_client_migration(env, id, p.client)),
        Err(Error::InvalidState)
    );
    world.call(|env| Escrow::propose_client_migration(env, id, p.client, heir)).unwrap();
    assert_eq!(
        world.call(|env| Escrow::cancel_client_migration(env, id, heir)),
        Err(Error::UnauthorizedRole)
    );
    world.call(|env| Escrow::cancel_client_migration(env, id, p.client)).unwrap();
    assert_eq!(world.env.events[0].topic(), "client_migration_cancelled");
    assert_eq!(
        world.call(|env| Escrow::accept_client_migration(env, id, heir)),
        Err(Error::InvalidState)
    );
}

#[test]
fn a_finalized_agreement_refuses_every_change() {
    let (mut world, p) = setup();
    let id = world.funded(p, &[100]);
    let finalize = |who: Address| move |env: &mut Env| Escrow::finalize_contract(env, id, who);
    assert_eq!(world.call(finalize(p.client)), Err(Error::InvalidStatusTransition));
    world.release(p, id, 0);
    assert_eq!(world.call(finalize(p.admin)), Err(Error::UnauthorizedRole));
    assert_eq!(
        world.call(|env| Escrow::finalize_contract(env, id + 1, p.client)),
        Err(Error::ContractNotFound)
    );
    world.call(|env| Escrow::activate_emergency_pause(env)).unwrap();
    assert_eq!(world.call(finalize(p.arbiter)), Err(Error::ContractPaused));
    world.call(|env| Escrow::resolve_emergency(env)).unwrap();
    assert_eq!(Escrow::get_finalization_record(&world.env, id), None);
    world.call(finalize(p.arbiter)).unwrap();
    let record = Escrow::get_finalization_record(&world.env, id).unwrap();
    assert_eq!(record.finalizer, p.arbiter);
    assert_eq!(record.status, ContractStatus::Completed);
    assert_eq!(record.finalized_at, 1_000);
    assert_eq!(world.env.events[0].topic(), "finalized");

    assert_eq!(world.call(finalize(p.client)), Err(Error::AlreadyFinalized));
    assert_eq!(
        world.call(|env| Escrow::cancel_contract(env, id, p.client)),
        Err(Error::AlreadyFinalized)
    );
    assert_eq!(
        world.call(|env| Escrow::deposit_funds(env, id, p.client, 1)),
        Err(Error::AlreadyFinalized)
    );
    assert_eq!(
        world.call(|env| Escrow::approve_milestone_release(env, id, p.client, 0)),
        Err(Error::AlreadyFinalized)
    );
    assert_eq!(
        world.call(|env| Escrow::release_milestone(env, id, p.client, 0)),
        Err(Error::AlreadyFinalized)
    );
    assert_eq!(
        world.call(|env| Escrow::refund_unreleased_milestones(env, id, vec![0])),
        Err(Error::AlreadyFinalized)
    );
    assert_eq!(
        world.call(|env| Escrow::raise_dispute(env, id, p.client)),
        Err(Error::AlreadyFinalized)
    );
    assert_eq!(
        world.call(|env| Escrow::issue_reputation(env, id, p.client, 5, vec![1])),
        Err(Error::AlreadyFinalized)
    );
    assert_eq!(
        world.call(|env| Escrow::submit_work_evidence(env, id, p.freelancer, 0, vec![1])),
        Err(Error::AlreadyFinalized)
    );
    assert_eq!(
        world.call(|env| Escrow::propose_client_migration(env, id, p.client, p.admin)),
        Err(Error::AlreadyFinalized)
    );
}

#[test]
fn a_stopped_escrow_refuses_changes_of_agreements() {
    let (mut world, p) = setup();
    let id = world.funded(p, &[100]);
    world.call(|env| Escrow::pause(env)).unwrap();
    let paused = Err(Error::ContractPaused);
    assert_eq!(
        world.call(|env| Escrow::approve_milestone_release(env, id, p.client, 0)),
        paused
    );
    assert_eq!(world.call(|env| Escrow::release_milestone(env, id, p.client, 0)), paused);
    assert_eq!(world.call(|env| Escrow::raise_dispute(env, id, p.client)), paused);
    assert_eq!(world.call(|env| Escrow::finalize_contract(env, id, p.client)), paused);
    assert_eq!(
        world.call(|env| Escrow::propose_client_migration(env, id, p.client, p.admin)),
        paused
    );
    assert_eq!(world.call(|env| Escrow::withdraw_protocol_fees(env, 1, p.admin)), paused);
    world.call(|env| Escrow::activate_emergency_pause(env)).unwrap();
    assert_eq!(
        world.call(|env| Escrow::release_milestone(env, id, p.client, 0)),
        Err(Error::EmergencyActive)
    );
    assert_eq!(world.call(|env| Escrow::raise_dispute(env, id, p.client)), paused);
    world.call(|env| Escrow::resolve_emergency(env)).unwrap();
    world.release(p, id, 0);
}
