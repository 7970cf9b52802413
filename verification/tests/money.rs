//! Fees, disputes, ratings, summaries and limits.
use escrow::{
    accumulate_amounts, final_status_after_resolution, resolution_payouts, Address, Config,
    Contract, ContractBounds, ContractStatus, ContractSummary, DisputeResolution, DisputeSplit,
    Env, Error, Escrow, Event, Halt, Invocation, Milestone, MilestoneSummary,
    ReleaseAuthorization, Reputation, ReputationView, Transfer, CONTRACT_SUMMARY_SCHEMA_VERSION,
    MAX_MILESTONES, MAX_SINGLE_AMOUNT_STROOPS, MAX_TOTAL_ESCROW_STROOPS,
};
use std::collections::HashMap;

/// The address of the escrow itself.
const ESCROW: Address = Address { id: 1 };

/// A host: it answers authorizations and token probes, and carries out transfers.
struct World {
    env: Env,
    balances: HashMap<u64, i128>,
    tokens: Vec<Address>,
    last_address: u64,
}

impl World {
    /// A host with an escrow that nobody has set up.
    fn new() -> World {
        let call = Invocation { contract_address: ESCROW, timestamp: 1_000, sequence: 100 };
        World {
            env: Env::new(call, Config::default()).unwrap(),
            balances: HashMap::new(),
            tokens: Vec::new(),
            last_address: ESCROW.id,
        }
    }

    fn address(&mut self) -> Address {
        self.last_address += 1;
        Address { id: self.last_address }
    }

    fn token(&mut self) -> Address {
        let token = self.address();
        self.tokens.push(token);
        token
    }

    fn balance(&self, address: Address) -> i128 {
        *self.balances.get(&address.id).unwrap_or(&0)
    }

    /// Runs one invocation in which everybody authorizes.
    fn call<T>(&mut self, entrypoint: impl Fn(&mut Env) -> Result<T, Halt>) -> Result<T, Error> {
        self.env.authorized.clear();
        self.env.token_probes.clear();
        self.env.events.clear();
        self.env.transfers.clear();
        loop {
            match entrypoint(&mut self.env) {
                Ok(value) => {
                    for t in self.env.transfers.iter() {
                        *self.balances.entry(t.from.id).or_insert(0) -= t.amount;
                        *self.balances.entry(t.to.id).or_insert(0) += t.amount;
                    }
                    return Ok(value);
                }
                Err(Halt::AuthRequired(address)) => self.env.authorized.push(address),
                Err(Halt::ProbeRequired(address)) => {
                    let answered = self.tokens.contains(&address);
                    self.env.token_probes.insert(address.id, answered);
                }
                Err(Halt::Failed(error)) => {
                    assert!(self.env.events.is_empty());
                    assert!(self.env.transfers.is_empty());
                    return Err(error);
                }
            }
        }
    }

    /// Makes an agreement between the two parties and returns its id.
    fn create(&mut self, parties: Parties, amounts: &[i128], mode: ReleaseAuthorization) -> u32 {
        self.call(|env| {
            Escrow::create_contract(
                env,
                parties.client,
                parties.freelancer,
                Some(parties.arbiter),
                amounts.to_vec(),
                mode,
            )
        })
        .unwrap()
    }

    /// Makes an agreement in which the client decides, and funds all of it.
    fn funded(&mut self, parties: Parties, amounts: &[i128]) -> u32 {
        let contract_id = self.create(parties, amounts, ReleaseAuthorization::ClientOnly);
        let total: i128 = amounts.iter().sum();
        self.call(|env| Escrow::deposit_funds(env, contract_id, parties.client, total)).unwrap();
        contract_id
    }

    /// Approves and releases one milestone as the client.
    fn release(&mut self, parties: Parties, contract_id: u32, index: u32) {
        let client = parties.client;
        self.call(|env| Escrow::approve_milestone_release(env, contract_id, client, index))
            .unwrap();
        self.call(|env| Escrow::release_milestone(env, contract_id, client, index)).unwrap();
    }
}

#[derive(Clone, Copy)]
struct Parties {
    admin: Address,
    client: Address,
    freelancer: Address,
    arbiter: Address,
}

/// An initialized escrow with a bound token, and its parties.
fn setup() -> (World, Parties) {
    let mut world = World::new();
    let parties = Parties {
        admin: world.address(),
        client: world.address(),
        freelancer: world.address(),
        arbiter: world.address(),
    };
    world.call(|env| Escrow::initialize(env, parties.admin)).unwrap();
    let token = world.token();
    world.call(|env| Escrow::bind_settlement_token(env, parties.admin, token)).unwrap();
    world.balances.insert(parties.client.id, 1_000_000);
    (world, parties)
}

#[test]
fn fees_are_rounded_down() {
    let world = World::new();
    let fee = |amount: i128, bps: u32| Escrow::calculate_protocol_fee(&world.env, amount, bps);
    assert_eq!(fee(1_001, 250), Ok(25));
    assert_eq!(fee(9, 1_000), Ok(0));
    assert_eq!(fee(10_000, 1), Ok(1));
    assert_eq!(fee(9_999, 1), Ok(0));
    assert_eq!(fee(1, 9_999), Ok(0));
    assert_eq!(fee(1_000, 9_999), Ok(999));
    assert_eq!(fee(1_000, 10_000), Ok(1_000));
    assert_eq!(fee(i128::MAX, 0), Ok(0));
    let overflow = Err(Halt::Failed(Error::PotentialOverflow));
    assert_eq!(fee(-1_001, 250), overflow);
    assert_eq!(fee(1_000, 10_010), overflow);
    assert_eq!(fee(1, 10_001), Ok(1));
    assert_eq!(fee(i128::MAX, 2), overflow);
    assert_eq!(fee(i128::MIN, 2), overflow);
}

#[test]
fn fees_are_retained_and_withdrawn() {
    let (mut world, p) = setup();
    world.call(|env| Escrow::set_protocol_fee_bps(env, 250)).unwrap();
    let id = world.funded(p, &[1_001, 5_000]);
    assert_eq!(Escrow::get_accumulated_protocol_fees(&world.env), 0);
    world.release(p, id, 0);
    assert_eq!(Escrow::get_accumulated_protocol_fees(&world.env), 25);
    assert_eq!(world.balance(p.freelancer), 976);
    assert_eq!(Escrow::get_contract(&world.env, id).unwrap().released_amount, 976);
    assert_eq!(world.balance(ESCROW), 5_025);

    let withdraw = |amount: i128| {
        move |env: &mut Env| Escrow::withdraw_protocol_fees(env, amount, p.arbiter)
    };
    assert_eq!(world.call(withdraw(0)), Err(Error::AmountMustBePositive));
    assert_eq!(world.call(withdraw(26)), Err(Error::InsufficientAccumulatedFees));
    assert_eq!(world.call(withdraw(10)), Ok(true));
    assert_eq!(
        world.env.events,
        vec![Event::FeesWithdrawn {
            admin: p.admin,
            to: p.arbiter,
            amount: 10,
            timestamp: 1_000,
        }]
    );
    assert_eq!(
        world.env.transfers,
        vec![Transfer { token: world.tokens[0], from: ESCROW, to: p.arbiter, amount: 10 }]
    );
    assert_eq!(Escrow::get_accumulated_protocol_fees(&world.env), 15);
    assert_eq!(world.balance(p.arbiter), 10);
    world.env.config.settlement_token = None;
    assert_eq!(world.call(withdraw(1)), Err(Error::SettlementTokenNotConfigured));
    let mut blank = World::new();
    assert_eq!(blank.call(withdraw(1)), Err(Error::NotInitialized));
}

#[test]
fn retained_fees_are_not_paid_out_again() {
    let (mut world, p) = setup();
    world.call(|env| Escrow::set_protocol_fee_bps(env, 1_000)).unwrap();
    let id = world.funded(p, &[100, 200]);
    world.release(p, id, 0);
    assert_eq!(Escrow::get_accumulated_protocol_fees(&world.env), 10);
    assert_eq!(Escrow::get_refundable_balance(&world.env, id), Ok(210));
    world.release(p, id, 1);
    assert_eq!(Escrow::get_accumulated_protocol_fees(&world.env), 30);
    let contract = Escrow::get_contract(&world.env, id).unwrap();
    assert_eq!(contract.released_amount, 270);
    assert_eq!(contract.released_amount + 30, contract.funded_amount);
    assert_eq!(world.balance(ESCROW), 30);
}

#[test]
fn a_fee_above_the_amount_refuses_the_release() {
    let (mut world, p) = setup();
    world.env.config.protocol_fee_bps = 20_000;
    let id = world.funded(p, &[100, 200]);
    world.call(|env| Escrow::approve_milestone_release(env, id, p.client, 0)).unwrap();
    assert_eq!(
        world.call(|env| Escrow::release_milestone(env, id, p.client, 0)),
        Err(Error::PotentialOverflow)
    );
    assert_eq!(
        world.call(|env| Escrow::release_milestones(env, id, p.client, vec![0])),
        Err(Error::PotentialOverflow)
    );
    world.call(|env| Escrow::set_protocol_fee_bps(env, 10_000)).unwrap();
    world.call(|env| Escrow::release_milestone(env, id, p.client, 0)).unwrap();
    assert_eq!(world.balance(p.freelancer), 0);
    assert_eq!(Escrow::get_accumulated_protocol_fees(&world.env), 100);
}

#[test]
fn the_escrow_covers_its_agreements() {
    let (mut world, p) = setup();
    world.call(|env| Escrow::set_protocol_fee_bps(env, 1_000)).unwrap();
    let first = world.funded(p, &[100, 200, 300]);
    let second = world.funded(p, &[500]);
    let third = world.create(p, &[70, 80], ReleaseAuthorization::ClientOnly);
    let left = |world: &World| -> i128 {
        [first, second, third]
            .iter()
            .map(|id| Escrow::get_refundable_balance(&world.env, *id).unwrap())
            .sum()
    };
    assert_eq!(world.balance(ESCROW), left(&world));
    world.call(|env| Escrow::deposit_funds(env, third, p.client, 75)).unwrap();
    assert_eq!(world.balance(ESCROW), left(&world));
    world.release(p, first, 2);
    assert_eq!(world.balance(ESCROW), left(&world));
    world.call(|env| Escrow::refund_unreleased_milestones(env, first, vec![0])).unwrap();
    assert_eq!(world.balance(ESCROW), left(&world));
    world.call(|env| Escrow::cancel_contract(env, second, p.client)).unwrap();
    assert_eq!(world.balance(ESCROW), left(&world));
    world.call(|env| Escrow::withdraw_protocol_fees(env, 20, p.admin)).unwrap();
    assert_eq!(world.balance(ESCROW) + 20, left(&world));
    world.call(|env| Escrow::raise_dispute(env, first, p.client)).unwrap();
    world
        .call(|env| Escrow::resolve_dispute(env, first, p.arbiter, DisputeResolution::FullRefund))
        .unwrap();
    assert!(world.balance(ESCROW) + 20 >= left(&world));
    assert_eq!(left(&world), 75);
}

#[test]
fn the_escrow_holds_its_fees_and_its_debts() {
    let (mut world, p) = setup();
    let first = world.funded(p, &[100, 200, 300]);
    let second = world.funded(p, &[500, 50]);
    let held = |world: &World| -> i128 {
        let unsettled: i128 = [first, second]
            .iter()
            .flat_map(|id| Escrow::get_milestones(&world.env, *id).unwrap().iter())
            .filter(|m| !m.released && !m.refunded)
            .map(|m| m.funded_amount)
            .sum();
        Escrow::get_accumulated_protocol_fees(&world.env) + unsettled
    };
    assert_eq!(world.balance(ESCROW), held(&world));
    world.call(|env| Escrow::set_protocol_fee_bps(env, 10_000)).unwrap();
    world.release(p, first, 0);
    assert_eq!(world.balance(ESCROW), 1_150);
    assert_eq!(world.balance(ESCROW), held(&world));
    world.call(|env| Escrow::set_protocol_fee_bps(env, 333)).unwrap();
    world.release(p, first, 1);
    assert_eq!(world.balance(ESCROW), held(&world));
    world.call(|env| Escrow::refund_unreleased_milestones(env, second, vec![0])).unwrap();
    assert_eq!(world.balance(ESCROW), held(&world));
    assert_eq!(
        world.call(|env| Escrow::cancel_contract(env, first, p.client)),
        Err(Error::InvalidStatusTransition)
    );
    world.call(|env| Escrow::withdraw_protocol_fees(env, 106, p.admin)).unwrap();
    assert_eq!(Escrow::get_accumulated_protocol_fees(&world.env), 0);
    assert_eq!(world.balance(ESCROW), 350);
    assert_eq!(world.balance(ESCROW), held(&world));
}

fn disputed(world: &mut World, p: Parties) -> u32 {
    let id = world.funded(p, &[100, 201]);
    world.call(|env| Escrow::raise_dispute(env, id, p.freelancer)).unwrap();
    assert_eq!(
        world.env.events,
        vec![Event::DisputeOpened { contract_id: id, caller: p.freelancer }]
    );
    id
}

#[test]
fn a_dispute_blocks_releases_until_it_is_resolved() {
    let (mut world, p) = setup();
    let id = disputed(&mut world, p);
    assert_eq!(Escrow::get_contract(&world.env, id).unwrap().status, ContractStatus::Disputed);
    assert_eq!(
        world.call(|env| Escrow::release_milestone(env, id, p.client, 0)),
        Err(Error::InvalidState)
    );
    assert_eq!(
        world.call(|env| Escrow::raise_dispute(env, id, p.client)),
        Err(Error::InvalidState)
    );
}

#[test]
fn decisions_divide_all_that_is_left() {
    let (mut world, p) = setup();
    let resolve = |id: u32, decision: DisputeResolution| {
        move |env: &mut Env| Escrow::resolve_dispute(env, id, p.arbiter, decision)
    };
    let books = |world: &World, id: u32| {
        let c = Escrow::get_contract(&world.env, id).unwrap();
        (c.refunded_amount, c.released_amount, c.status)
    };

    let id = disputed(&mut world, p);
    world.call(resolve(id, DisputeResolution::FullRefund)).unwrap();
    assert_eq!(books(&world, id), (301, 0, ContractStatus::Refunded));
    assert_eq!(Escrow::get_pending_reputation_credits(&world.env, p.freelancer), 0);
    assert_eq!(
        world.env.events,
        vec![Event::DisputeResolved { contract_id: id, resolution_code: 0 }]
    );
    assert!(world.env.transfers.is_empty());

    let id = disputed(&mut world, p);
    world.call(resolve(id, DisputeResolution::FullPayout)).unwrap();
    assert_eq!(books(&world, id), (0, 301, ContractStatus::Completed));
    assert_eq!(Escrow::get_pending_reputation_credits(&world.env, p.freelancer), 1);

    let id = disputed(&mut world, p);
    world.call(resolve(id, DisputeResolution::PartialRefund)).unwrap();
    assert_eq!(books(&world, id), (210, 91, ContractStatus::Completed));

    let id = disputed(&mut world, p);
    let split = |client_amount: i128, freelancer_amount: i128| {
        DisputeResolution::Split(DisputeSplit { client_amount, freelancer_amount })
    };
    assert_eq!(world.call(resolve(id, split(300, 2))), Err(Error::InvalidDisputeSplit));
    assert_eq!(world.call(resolve(id, split(302, -1))), Err(Error::InvalidDisputeSplit));
    assert_eq!(world.call(resolve(id, split(-1, 302))), Err(Error::InvalidDisputeSplit));
    world.call(resolve(id, split(300, 1))).unwrap();
    assert_eq!(books(&world, id), (300, 1, ContractStatus::Completed));
    assert_eq!(Escrow::get_refundable_balance(&world.env, id), Ok(0));
    assert_eq!(
        world.call(resolve(id, DisputeResolution::FullRefund)),
        Err(Error::InvalidStatusTransition)
    );
}

#[test]
fn decisions_have_numbers() {
    let split = DisputeSplit { client_amount: 1, freelancer_amount: 2 };
    assert_eq!(DisputeResolution::FullRefund.code(), 0);
    assert_eq!(DisputeResolution::PartialRefund.code(), 1);
    assert_eq!(DisputeResolution::FullPayout.code(), 2);
    assert_eq!(DisputeResolution::Split(split).code(), 3);
}

#[test]
fn invalid_disputes_are_refused() {
    let (mut world, p) = setup();
    let lonely = world
        .call(|env| {
            Escrow::create_contract(
                env,
                p.client,
                p.freelancer,
                None,
                vec![10],
                ReleaseAuthorization::ClientOnly,
            )
        })
        .unwrap();
    assert_eq!(
        world.call(|env| Escrow::raise_dispute(env, lonely, p.client)),
        Err(Error::ArbiterRequired)
    );
    let id = world.create(p, &[10], ReleaseAuthorization::ClientOnly);
    assert_eq!(
        world.call(|env| Escrow::raise_dispute(env, id, p.client)),
        Err(Error::InvalidState)
    );
    assert_eq!(
        world.call(|env| Escrow::raise_dispute(env, id, p.arbiter)),
        Err(Error::UnauthorizedRole)
    );
    assert_eq!(
        world.call(|env| Escrow::raise_dispute(env, 99, p.client)),
        Err(Error::ContractNotFound)
    );
    let id = disputed(&mut world, p);
    assert_eq!(
        world.call(|env| {
            Escrow::resolve_dispute(env, id, p.client, DisputeResolution::FullRefund)
        }),
        Err(Error::UnauthorizedRole)
    );
    let mut blank = World::new();
    assert_eq!(
        blank.call(|env| Escrow::raise_dispute(env, 1, p.client)),
        Err(Error::NotInitialized)
    );
    assert_eq!(
        blank.call(|env| {
            Escrow::resolve_dispute(env, 1, p.arbiter, DisputeResolution::FullRefund)
        }),
        Err(Error::NotInitialized)
    );
}

fn agreement(funded: i128, released: i128, refunded: i128) -> Contract {
    Contract {
        client: Address { id: 2 },
        freelancer: Address { id: 3 },
        arbiter: None,
        status: ContractStatus::Disputed,
        total_deposited: funded,
        funded_amount: funded,
        released_amount: released,
        refunded_amount: refunded,
        release_authorization: ReleaseAuthorization::ClientOnly,
        reputation_issued: false,
    }
}

#[test]
fn payouts_check_the_books() {
    let full = DisputeResolution::FullRefund;
    assert_eq!(resolution_payouts(&agreement(100, 30, 20), &full), Ok((50, 0)));
    assert_eq!(
        resolution_payouts(&agreement(100, 30, 20), &DisputeResolution::PartialRefund),
        Ok((35, 15))
    );
    assert_eq!(
        resolution_payouts(&agreement(10, 30, 20), &full),
        Err(Error::AccountingInvariantViolated)
    );
    assert_eq!(
        resolution_payouts(&agreement(i128::MAX, -1, 0), &full),
        Err(Error::PotentialOverflow)
    );
    let edge = DisputeResolution::PartialRefund;
    let (client, freelancer) = resolution_payouts(&agreement(i128::MAX, 0, 0), &edge).unwrap();
    assert_eq!(client + freelancer, i128::MAX);
    assert_eq!(final_status_after_resolution(&agreement(9, 1, 8)), ContractStatus::Completed);
    assert_eq!(final_status_after_resolution(&agreement(9, 0, 9)), ContractStatus::Refunded);
}

fn completed(world: &mut World, p: Parties) -> u32 {
    let id = world.funded(p, &[10]);
    world.release(p, id, 0);
    id
}

#[test]
fn ratings_add_up() {
    let (mut world, p) = setup();
    assert_eq!(Escrow::get_reputation(&world.env, p.freelancer), None);
    assert_eq!(Escrow::get_average_rating(&world.env, p.freelancer), None);
    assert_eq!(
        Escrow::get_reputation_view(&world.env, p.freelancer),
        ReputationView::default()
    );
    let first = completed(&mut world, p);
    let second = completed(&mut world, p);
    assert_eq!(Escrow::get_pending_reputation_credits(&world.env, p.freelancer), 2);
    assert_eq!(Escrow::get_reputation_comment(&world.env, first), None);
    world
        .call(|env| Escrow::issue_reputation(env, first, p.client, 4, b"good".to_vec()))
        .unwrap();
    assert_eq!(
        world.env.events,
        vec![Event::ReputationIssued {
            contract_id: first,
            client: p.client,
            freelancer: p.freelancer,
            rating: 4,
            completed_contracts: 1,
            total_rating: 4,
            last_rating: 4,
            caller: p.client,
            timestamp: 1_000,
        }]
    );
    world
        .call(|env| Escrow::issue_reputation(env, second, p.client, 5, b"great".to_vec()))
        .unwrap();
    assert_eq!(
        Escrow::get_reputation(&world.env, p.freelancer),
        Some(Reputation { completed_contracts: 2, total_rating: 9, last_rating: 5 })
    );
    assert_eq!(Escrow::get_average_rating(&world.env, p.freelancer), Some(45_000));
    assert_eq!(
        Escrow::get_reputation_view(&world.env, p.freelancer),
        ReputationView {
            completed_contracts: 2,
            total_rating: 9,
            last_rating: 5,
            average_rating_bps: 45_000,
            pending_credits: 0,
        }
    );
    assert_eq!(Escrow::get_reputation_comment(&world.env, first), Some(&b"good".to_vec()));
    assert!(Escrow::get_contract(&world.env, first).unwrap().reputation_issued);
}

#[test]
fn invalid_ratings_are_refused() {
    let (mut world, p) = setup();
    let rate = |id: u32, who: Address, rating: u32, comment: Vec<u8>| {
        move |env: &mut Env| Escrow::issue_reputation(env, id, who, rating, comment.clone())
    };
    let open = world.funded(p, &[10]);
    assert_eq!(world.call(rate(open, p.client, 5, vec![1])), Err(Error::NotCompleted));
    let id = completed(&mut world, p);
    assert_eq!(world.call(rate(99, p.client, 5, vec![1])), Err(Error::ContractNotFound));
    assert_eq!(world.call(rate(id, p.freelancer, 5, vec![1])), Err(Error::UnauthorizedRole));
    assert_eq!(world.call(rate(id, p.client, 0, vec![1])), Err(Error::InvalidRating));
    assert_eq!(world.call(rate(id, p.client, 6, vec![1])), Err(Error::InvalidRating));
    assert_eq!(world.call(rate(id, p.client, 5, vec![])), Err(Error::EmptyComment));
    assert_eq!(world.call(rate(id, p.client, 5, vec![1; 201])), Err(Error::CommentTooLong));
    assert_eq!(world.call(rate(id, p.client, 5, vec![1; 200])), Ok(true));
    assert_eq!(
        world.call(rate(id, p.client, 5, vec![1])),
        Err(Error::ReputationAlreadyIssued)
    );

    let own = completed(&mut world, p);
    let mut contract = Escrow::get_contract(&world.env, own).unwrap();
    contract.client = contract.freelancer;
    assert!(world.env.load_contract(own, contract));
    assert_eq!(world.call(rate(own, p.freelancer, 5, vec![1])), Err(Error::SelfRating));
    let bare = completed(&mut world, p);
    assert!(world.env.load_credits(p.freelancer, 0));
    assert_eq!(world.call(rate(bare, p.client, 5, vec![1])), Err(Error::InvalidState));
    assert!(!Escrow::get_contract(&world.env, bare).unwrap().reputation_issued);
}

#[test]
fn summaries_describe_agreements() {
    let (mut world, p) = setup();
    let id = world.funded(p, &[100, 200, 300]);
    world.release(p, id, 1);
    world.call(|env| Escrow::refund_unreleased_milestones(env, id, vec![2])).unwrap();
    let line = |index: u32, amount: i128, released: bool, refunded: bool| MilestoneSummary {
        index,
        amount,
        released,
        refunded,
    };
    assert_eq!(
        Escrow::get_contract_summary(&world.env, id),
        Ok(ContractSummary {
            schema_version: CONTRACT_SUMMARY_SCHEMA_VERSION,
            client: p.client,
            freelancer: p.freelancer,
            arbiter: Some(p.arbiter),
            status: ContractStatus::Funded,
            reputation_issued: false,
            total_amount: 600,
            funded_amount: 600,
            released_amount: 200,
            refundable_balance: 100,
            released_milestone_count: 1,
            milestones: vec![
                line(0, 100, false, false),
                line(1, 200, true, false),
                line(2, 300, false, true),
            ],
        })
    );
    assert_eq!(
        Escrow::get_contract_summary(&world.env, id + 1),
        Err(Halt::Failed(Error::ContractNotFound))
    );
    assert_eq!(Escrow::get_milestone(&world.env, id, 3), Ok(None));
    assert_eq!(
        Escrow::get_milestone(&world.env, id + 1, 0),
        Err(Halt::Failed(Error::ContractNotFound))
    );
    assert_eq!(
        Escrow::get_milestones(&world.env, id + 1),
        Err(Halt::Failed(Error::ContractNotFound))
    );
    assert_eq!(
        Escrow::get_refundable_balance(&world.env, id + 1),
        Err(Halt::Failed(Error::ContractNotFound))
    );
}

#[test]
fn limits_are_published() {
    let world = World::new();
    assert_eq!(
        Escrow::get_bounds(&world.env),
        ContractBounds {
            max_milestones: 10,
            max_single_milestone_stroops: 1_000_000_000_000_000,
            max_total_escrow_stroops: 1_000_000_000_000_000,
            max_fee_bps: 10_000,
        }
    );
    assert_eq!(MAX_MILESTONES, 10);
    assert_eq!(MAX_TOTAL_ESCROW_STROOPS, MAX_SINGLE_AMOUNT_STROOPS);
}

#[test]
fn sums_of_amounts_are_checked() {
    assert_eq!(accumulate_amounts(&vec![]), Ok(0));
    assert_eq!(accumulate_amounts(&vec![100, 200, 300]), Ok(600));
    assert_eq!(accumulate_amounts(&vec![i128::MAX, 1]), Err(Error::PotentialOverflow));
}

#[test]
fn calls_without_authorization_change_nothing() {
    let (mut world, p) = setup();
    let id = world.funded(p, &[100]);
    world.env.authorized.clear();
    let env = &mut world.env;
    let asks = |who: Address| Err(Halt::AuthRequired(who));
    assert_eq!(Escrow::approve_milestone_release(env, id, p.client, 0), asks(p.client));
    assert_eq!(Escrow::cancel_contract(env, id, p.client), asks(p.client));
    assert_eq!(Escrow::raise_dispute(env, id, p.freelancer), asks(p.freelancer));
    assert_eq!(
        Escrow::refund_unreleased_milestones(env, id, vec![0]),
        Err(Halt::AuthRequired(p.client))
    );
    assert_eq!(Escrow::get_contract(env, id).unwrap().status, ContractStatus::Funded);
    assert_eq!(Escrow::get_refundable_balance(env, id), Ok(100));
}

#[test]
fn unsound_records_are_not_taken_in() {
    let call = Invocation { contract_address: ESCROW, timestamp: 0, sequence: 0 };
    let mut config = Config::default();
    config.initialized = true;
    assert!(Env::new(call, config).is_none());
    config.admin = Some(Address { id: 9 });
    assert!(Env::new(call, config).is_some());
    config.emergency = true;
    assert!(Env::new(call, config).is_none());
    config.emergency = false;
    config.accumulated_fees = -1;
    assert!(Env::new(call, config).is_none());

    let mut world = World::new();
    assert!(!world.env.load_contract(1, agreement(10, 8, 3)));
    assert!(world.env.load_contract(1, agreement(10, 8, 2)));
    assert_eq!(Escrow::get_refundable_balance(&world.env, 1), Ok(0));
    let milestone = |amount: i128, released: bool, refunded: bool| Milestone {
        amount,
        funded_amount: amount,
        released,
        refunded,
        work_evidence: None,
        refunded_amount: if refunded { amount } else { 0 },
        deadline: None,
    };
    assert!(!world.env.load_milestones(1, vec![milestone(5, true, true)]));
    assert!(!world.env.load_milestones(1, vec![milestone(0, false, false)]));
    assert!(world.env.load_milestones(1, vec![milestone(5, false, true)]));
    let someone = Address { id: 4 };
    let rated = |completed_contracts: i128, total_rating: i128| Reputation {
        completed_contracts,
        total_rating,
        last_rating: 5,
    };
    assert!(!world.env.load_reputation(someone, rated(1, 6)));
    assert!(!world.env.load_reputation(someone, rated(2, 1)));
    assert!(world.env.load_reputation(someone, rated(2, 10)));
    assert_eq!(Escrow::get_average_rating(&world.env, someone), Some(50_000));
    assert!(!world.env.load_credits(someone, -1));
    assert!(world.env.load_credits(someone, 3));
    assert_eq!(Escrow::get_pending_reputation_credits(&world.env, someone), 3);
}

#[test]
fn errors_have_the_numbers_that_callers_know() {
    assert_eq!(Error::InvalidParticipant.code(), 1);
    assert_eq!(Error::ContractNotFound.code(), 6);
    assert_eq!(Error::NotInitialized.code(), 14);
    assert_eq!(Error::UnauthorizedRole.code(), 15);
    assert_eq!(Error::PotentialOverflow.code(), 28);
    assert_eq!(Error::InvalidSettlementToken.code(), 39);
    assert_eq!(Error::EmptyReleaseIndices.code(), 44);
    assert_eq!(Error::DuplicateMilestoneInRelease.code(), 45);
}
