//! Events at the boundaries between acceptance and refusal.
use escrow::{
    Address, Config, Env, Error, Escrow, EscrowError, Event, Halt, Invocation,
    ADMIN_ROTATION_MIN_DELAY_LEDGERS,
};
use std::collections::HashMap;

/// The address of the escrow itself.
const ESCROW: Address = Address { id: 1 };

/// A host: it answers authorizations and token probes, and carries out transfers.
struct World {
    env: Env,
    balances: HashMap<u64, i128>,
    tokens: Vec<Address>,
    last_address: u64,
}

impl World {
    /// A host with an escrow that nobody has set up.
    fn new() -> World {
        let call = Invocation { contract_address: ESCROW, timestamp: 1_000, sequence: 100 };
        World {
            env: Env::new(call, Config::default()).unwrap(),
            balances: HashMap::new(),
            tokens: Vec::new(),
            last_address: ESCROW.id,
        }
    }

    fn address(&mut self) -> Address {
        self.last_address += 1;
        Address { id: self.last_address }
    }

    fn token(&mut self) -> Address {
        let token = self.address();
        self.tokens.push(token);
        token
    }

    fn balance(&self, address: Address) -> i128 {
        *self.balances.get(&address.id).unwrap_or(&0)
    }

    /// Runs one invocation in which everybody authorizes.
    fn call<T>(&mut self, entrypoint: impl Fn(&mut Env) -> Result<T, Halt>) -> Result<T, Error> {
        self.env.authorized.clear();
        self.env.token_probes.clear();
        self.env.events.clear();
        self.env.transfers.clear();
        loop {
            match entrypoint(&mut self.env) {
                Ok(value) => {
                    for t in self.env.transfers.iter() {
                        *self.balances.entry(t.from.id).or_insert(0) -= t.amount;
                        *self.balances.entry(t.to.id).or_insert(0) += t.amount;
                    }
                    return Ok(value);
                }
                Err(Halt::AuthRequired(address)) => self.env.authorized.push(address),
                Err(Halt::ProbeRequired(address)) => {
                    let answered = self.tokens.contains(&address);
                    self.env.token_probes.insert(address.id, answered);
                }
                Err(Halt::Failed(error)) => {
                    assert!(self.env.events.is_empty());
                    assert!(self.env.transfers.is_empty());
                    return Err(error);
                }
            }
        }
    }

    /// Whether the last invocation published an event under `topic`.
    fn has_event_with_topic(&self, topic: &str) -> bool {
        self.env.events.iter().any(|event| event.topic() == topic)
    }

    /// Whether the last invocation published an event under both topics.
    fn has_event_with_two_topics(&self, topic: &str, subtopic: &str) -> bool {
        self.env
            .events
            .iter()
            .any(|event| event.topic() == topic && event.subtopic() == Some(subtopic))
    }

    fn advance_ledgers(&mut self, delta: u32) {
        self.env.call.sequence += delta;
        self.env.call.timestamp += delta as u64 * 5;
    }
}

/// An escrow that is initialized, and its admin.
fn initialized() -> (World, Address) {
    let mut world = World::new();
    let admin = world.address();
    assert!(world.call(|env| Escrow::initialize(env, admin)).unwrap());
    (world, admin)
}

#[test]
fn initialize_first_call_emits_init_admin_set_event() {
    let mut world = World::new();
    let admin = world.address();

    assert!(world.call(|env| Escrow::initialize(env, admin)).unwrap());

    assert!(
        world.has_event_with_two_topics("init", "admin_set"),
        "initialize must publish (init, admin_set) topics on its first call"
    );
    assert_eq!(world.env.events, vec![Event::Initialized { admin, timestamp: 1_000 }]);
    assert_eq!(Escrow::get_admin(&world.env), Some(admin));
    assert!(Escrow::get_mainnet_readiness_info(&world.env).initialized);
}

#[test]
fn initialize_rejected_after_first_call_does_not_emit_event() {
    let (mut world, _) = initialized();

    let admin = Escrow::get_admin(&world.env).unwrap();
    assert_eq!(
        world.call(|env| Escrow::initialize(env, admin)),
        Err(Error::AlreadyInitialized)
    );

    assert!(
        !world.has_event_with_topic("init"),
        "rejected double-initialize must not publish 'init' event"
    );
}

#[test]
fn bind_settlement_token_first_call_emits_event_at_accept_boundary() {
    let (mut world, admin) = initialized();

    let sac = world.token();
    assert!(!Escrow::is_settlement_token_bound(&world.env));
    assert!(world.call(|env| Escrow::bind_settlement_token(env, admin, sac)).unwrap());

    assert!(
        world.has_event_with_topic("settlement_token_bound"),
        "successful first bind must publish settlement_token_bound"
    );
    assert_eq!(Escrow::get_settlement_token(&world.env), Some(sac));
    assert!(Escrow::is_settlement_token_bound(&world.env));
}

#[test]
fn bind_settlement_token_rejected_double_bind_does_not_emit_event() {
    let (mut world, admin) = initialized();

    let sac1 = world.token();
    let sac2 = world.token();
    assert!(world.call(|env| Escrow::bind_settlement_token(env, admin, sac1)).unwrap());

    assert_eq!(
        world.call(|env| Escrow::bind_settlement_token(env, admin, sac2)),
        Err(EscrowError::SettlementTokenAlreadyBound)
    );

    assert!(
        !world.has_event_with_topic("settlement_token_bound"),
        "rejected double-bind must not publish settlement_token_bound event"
    );
    assert_eq!(Escrow::get_settlement_token(&world.env), Some(sac1));
}

#[test]
fn bind_settlement_token_rejected_self_address_does_not_emit_event() {
    let (mut world, admin) = initialized();

    assert_eq!(
        world.call(|env| Escrow::bind_settlement_token(env, admin, ESCROW)),
        Err(EscrowError::SettlementTokenIsSelf)
    );

    assert!(
        !world.has_event_with_topic("settlement_token_bound"),
        "rejected self-bind must not publish settlement_token_bound event"
    );
}

#[test]
fn bind_settlement_token_rejected_admin_address_does_not_emit_event() {
    let (mut world, admin) = initialized();

    assert_eq!(
        world.call(|env| Escrow::bind_settlement_token(env, admin, admin)),
        Err(EscrowError::SettlementTokenIsAdmin)
    );

    assert!(
        !world.has_event_with_topic("settlement_token_bound"),
        "rejected admin-bind must not publish settlement_token_bound event"
    );
}

#[test]
fn bind_settlement_token_rejected_unauthorized_does_not_emit_event() {
    let (mut world, _) = initialized();

    let stranger = world.address();
    let sac = world.token();

    assert_eq!(
        world.call(|env| Escrow::bind_settlement_token(env, stranger, sac)),
        Err(EscrowError::UnauthorizedRole)
    );

    assert!(
        !world.has_event_with_topic("settlement_token_bound"),
        "rejected unauthorized bind must not publish settlement_token_bound event"
    );
}

#[test]
fn bind_settlement_token_rejects_an_address_that_is_no_token() {
    let (mut world, admin) = initialized();
    let stranger = world.address();
    assert_eq!(
        world.call(|env| Escrow::bind_settlement_token(env, admin, stranger)),
        Err(EscrowError::InvalidSettlementToken)
    );
    let mut blank = World::new();
    let token = blank.token();
    assert_eq!(
        blank.call(|env| Escrow::bind_settlement_token(env, admin, token)),
        Err(EscrowError::NotInitialized)
    );
}

#[test]
fn set_protocol_fee_bps_at_zero_boundary_emits_event() {
    let (mut world, _) = initialized();

    assert!(world.call(|env| Escrow::set_protocol_fee_bps(env, 0u32)).unwrap());

    assert!(
        world.has_event_with_topic("protocol_fee_bps"),
        "set_protocol_fee_bps(0) must publish protocol_fee_bps event"
    );
    assert_eq!(Escrow::get_protocol_fee_bps(&world.env), 0);
}

#[test]
fn set_protocol_fee_bps_at_max_boundary_emits_event() {
    let (mut world, _) = initialized();

    assert!(world.call(|env| Escrow::set_protocol_fee_bps(env, 10_000u32)).unwrap());

    assert!(
        world.has_event_with_topic("protocol_fee_bps"),
        "set_protocol_fee_bps(10_000) must publish protocol_fee_bps event"
    );
    assert_eq!(Escrow::get_protocol_fee_bps(&world.env), 10_000);
}

#[test]
fn set_protocol_fee_bps_repeated_updates_each_emit_event() {
    let (mut world, _) = initialized();

    assert!(world.call(|env| Escrow::set_protocol_fee_bps(env, 10_000u32)).unwrap());
    assert!(world.call(|env| Escrow::set_protocol_fee_bps(env, 0u32)).unwrap());
    assert!(world.call(|env| Escrow::set_protocol_fee_bps(env, 1u32)).unwrap());

    assert!(
        world.has_event_with_topic("protocol_fee_bps"),
        "each successful set_protocol_fee_bps call must publish a follow-up event"
    );
    assert_eq!(Escrow::get_protocol_fee_bps(&world.env), 1);
}

#[test]
fn set_protocol_fee_bps_above_max_boundary_does_not_emit_event() {
    let (mut world, _) = initialized();
    assert!(world.call(|env| Escrow::set_protocol_fee_bps(env, 10_000u32)).unwrap());
    assert_eq!(
        world.call(|env| Escrow::set_protocol_fee_bps(env, 10_001u32)),
        Err(Error::InvalidProtocolParameters)
    );
    assert!(!world.has_event_with_topic("protocol_fee_bps"));
    assert_eq!(Escrow::get_protocol_fee_bps(&world.env), 10_000);
    assert_eq!(Escrow::get_bounds(&world.env).max_fee_bps, 10_000);
}

#[test]
fn setting_the_fee_completes_the_governance_step_of_the_checklist() {
    let (mut world, _) = initialized();
    assert!(!Escrow::get_mainnet_readiness_info(&world.env).governed_params_set);
    assert!(world.call(|env| Escrow::set_protocol_fee_bps(env, 10_001u32)).is_err());
    assert!(!Escrow::get_mainnet_readiness_info(&world.env).governed_params_set);
    assert!(world.call(|env| Escrow::set_protocol_fee_bps(env, 25u32)).unwrap());
    let checklist = Escrow::get_mainnet_readiness_info(&world.env);
    assert!(checklist.governed_params_set);
    assert!(checklist.initialized);
    assert!(!checklist.emergency_controls_enabled);
}

#[test]
fn accept_governance_admin_exactly_at_min_delay_emits_accepted_event() {
    let (mut world, admin) = initialized();

    let next_admin = world.address();
    world.call(|env| Escrow::propose_governance_admin(env, next_admin)).unwrap();
    assert_eq!(Escrow::get_pending_admin_proposed_at(&world.env), Some(100));

    world.advance_ledgers(ADMIN_ROTATION_MIN_DELAY_LEDGERS);

    assert!(world.call(|env| Escrow::accept_governance_admin(env)).unwrap());

    assert!(
        world.has_event_with_two_topics("admin", "accepted"),
        "accept at exactly min-delay must publish (admin, accepted)"
    );
    assert_ne!(admin, next_admin);
    assert_eq!(Escrow::get_admin(&world.env), Some(next_admin));
    assert_eq!(Escrow::get_pending_admin_proposed_at(&world.env), None);
}

#[test]
fn accept_governance_admin_one_below_min_delay_does_not_emit_event() {
    let (mut world, admin) = initialized();

    let next_admin = world.address();
    world.call(|env| Escrow::propose_governance_admin(env, next_admin)).unwrap();

    world.advance_ledgers(ADMIN_ROTATION_MIN_DELAY_LEDGERS - 1);

    assert_eq!(
        world.call(|env| Escrow::accept_governance_admin(env)),
        Err(EscrowError::TimelockNotElapsed)
    );

    assert!(
        !world.has_event_with_two_topics("admin", "accepted"),
        "rejected accept must not publish (admin, accepted)"
    );
    assert_eq!(Escrow::get_admin(&world.env), Some(admin));
}

#[test]
fn accept_governance_admin_one_over_min_delay_emits_accepted_event() {
    let (mut world, _) = initialized();

    let next_admin = world.address();
    world.call(|env| Escrow::propose_governance_admin(env, next_admin)).unwrap();

    world.advance_ledgers(ADMIN_ROTATION_MIN_DELAY_LEDGERS + 1);

    assert!(world.call(|env| Escrow::accept_governance_admin(env)).unwrap());

    assert!(
        world.has_event_with_two_topics("admin", "accepted"),
        "accept one ledger past min-delay must publish (admin, accepted)"
    );
}

#[test]
fn accept_governance_admin_with_no_pending_proposal_does_not_emit_event() {
    let (mut world, _) = initialized();

    assert_eq!(
        world.call(|env| Escrow::accept_governance_admin(env)),
        Err(Error::InvalidState)
    );

    assert!(
        !world.has_event_with_two_topics("admin", "accepted"),
        "rejected accept must not publish (admin, accepted)"
    );
}

#[test]
fn propose_governance_admin_emits_proposed_event() {
    let (mut world, _) = initialized();

    let next_admin = world.address();
    assert!(world
        .call(|env| Escrow::propose_governance_admin(env, next_admin))
        .unwrap());

    assert!(
        world.has_event_with_two_topics("admin", "proposed"),
        "propose must publish (admin, proposed)"
    );
}

#[test]
fn cancel_governance_admin_proposal_emits_cancelled_event() {
    let (mut world, _) = initialized();

    let next_admin = world.address();
    world.call(|env| Escrow::propose_governance_admin(env, next_admin)).unwrap();
    assert!(world
        .call(|env| Escrow::cancel_governance_admin_proposal(env))
        .unwrap());

    assert!(
        world.has_event_with_two_topics("admin", "cancelled"),
        "cancel must publish (admin, cancelled)"
    );
}

#[test]
fn cancel_governance_admin_proposal_with_no_pending_does_not_emit_event() {
    let (mut world, _) = initialized();

    assert_eq!(
        world.call(|env| Escrow::cancel_governance_admin_proposal(env)),
        Err(Error::InvalidState)
    );

    assert!(
        !world.has_event_with_two_topics("admin", "cancelled"),
        "rejected cancel must not publish (admin, cancelled)"
    );
}

#[test]
fn pause_by_admin_emits_pause_event() {
    let (mut world, _) = initialized();

    assert!(world.call(|env| Escrow::pause(env)).unwrap());

    assert!(
        world.has_event_with_topic("pause"),
        "successful pause must publish 'pause' event"
    );
    assert!(Escrow::is_paused(&world.env));
}

#[test]
fn unpause_after_pause_emits_unpaused_event() {
    let (mut world, _) = initialized();

    assert!(world.call(|env| Escrow::pause(env)).unwrap());
    assert!(world.call(|env| Escrow::unpause(env)).unwrap());

    assert!(
        world.has_event_with_topic("unpaused"),
        "successful unpause must publish 'unpaused' event"
    );
    assert!(!Escrow::is_paused(&world.env));
}

#[test]
fn unpause_blocked_by_emergency_does_not_emit_event() {
    let (mut world, _) = initialized();

    assert!(world.call(|env| Escrow::activate_emergency_pause(env)).unwrap());
    assert!(
        world.has_event_with_two_topics("emergency", "activated"),
        "setup: activate_emergency_pause must publish (emergency, activated)"
    );

    assert_eq!(world.call(|env| Escrow::unpause(env)), Err(Error::EmergencyActive));

    assert!(
        !world.has_event_with_topic("unpaused"),
        "rejected unpause must not publish 'unpaused' event"
    );
    assert!(Escrow::is_emergency(&world.env));
    assert!(Escrow::is_paused(&world.env));
}

#[test]
fn activate_emergency_pause_emits_event() {
    let (mut world, _) = initialized();

    assert!(world.call(|env| Escrow::activate_emergency_pause(env)).unwrap());

    assert!(
        world.has_event_with_two_topics("emergency", "activated"),
        "activate_emergency_pause must publish (emergency, activated)"
    );
    assert!(Escrow::get_mainnet_readiness_info(&world.env).emergency_controls_enabled);
}

#[test]
fn resolve_emergency_after_activation_emits_event() {
    let (mut world, _) = initialized();

    assert!(world.call(|env| Escrow::activate_emergency_pause(env)).unwrap());
    assert!(world.call(|env| Escrow::resolve_emergency(env)).unwrap());

    assert!(
        world.has_event_with_two_topics("emergency", "resolved"),
        "resolve_emergency must publish (emergency, resolved)"
    );
    assert!(!Escrow::is_emergency(&world.env));
    assert!(!Escrow::is_paused(&world.env));
}

#[test]
fn activate_emergency_pause_rejected_uninitialized_does_not_emit_event() {
    let mut world = World::new();

    assert_eq!(
        world.call(|env| Escrow::activate_emergency_pause(env)),
        Err(Error::NotInitialized)
    );

    assert!(
        !world.has_event_with_two_topics("emergency", "activated"),
        "rejected (uninitialized) activate must not publish (emergency, activated)"
    );
}

#[test]
fn governance_needs_an_initialized_escrow_and_its_admin() {
    let mut world = World::new();
    assert_eq!(
        world.call(|env| Escrow::set_protocol_fee_bps(env, 5)),
        Err(Error::NotInitialized)
    );
    assert_eq!(world.call(|env| Escrow::accept_governance_admin(env)), Err(Error::NotInitialized));
    assert_eq!(world.call(|env| Escrow::pause(env)), Err(Error::NotInitialized));
    assert_eq!(world.call(|env| Escrow::unpause(env)), Err(Error::NotInitialized));
    assert_eq!(world.call(|env| Escrow::resolve_emergency(env)), Err(Error::NotInitialized));

    let (mut world, admin) = initialized();
    world.env.authorized.clear();
    assert_eq!(
        Escrow::set_protocol_fee_bps(&mut world.env, 5),
        Err(Halt::AuthRequired(admin))
    );
    assert_eq!(Escrow::pause(&mut world.env), Err(Halt::AuthRequired(admin)));
    assert_eq!(Escrow::get_protocol_fee_bps(&world.env), 0);
    assert!(!Escrow::is_paused(&world.env));
}

#[test]
fn a_new_proposal_restarts_the_delay() {
    let (mut world, _) = initialized();
    let first = world.address();
    let second = world.address();
    world.call(|env| Escrow::propose_governance_admin(env, first)).unwrap();
    world.advance_ledgers(ADMIN_ROTATION_MIN_DELAY_LEDGERS);
    world.call(|env| Escrow::propose_governance_admin(env, second)).unwrap();
    assert_eq!(
        world.call(|env| Escrow::accept_governance_admin(env)),
        Err(Error::TimelockNotElapsed)
    );
    world.advance_ledgers(ADMIN_ROTATION_MIN_DELAY_LEDGERS);
    world.call(|env| Escrow::accept_governance_admin(env)).unwrap();
    assert_eq!(Escrow::get_admin(&world.env), Some(second));
}
