//! The escrow's view of its host.
//!
//! An [`Env`] holds what one invocation can see: the ledger it runs in, the
//! authorizations and token probes that the host has answered, and the stored
//! records. An entrypoint reads and changes only its `Env`; the host loads the
//! records before the call, and after an accepted call stores them again,
//! carries out the new transfers and publishes the new events.
use std::collections::HashMap;
use vstd::prelude::*;
use crate::amount_validation::{MAX_MILESTONES, MAX_SINGLE_AMOUNT_STROOPS};
use crate::event::{Event, Transfer};
use crate::types::{
    Address, Contract, Error, FinalizationRecord, GovernedParameters, Halt,
    Milestone, MilestoneApprovals, PendingAdminProposal, PendingClientMigration,
    ReadinessChecklist, Reputation,
};

verus! {

broadcast use vstd::std_specs::hash::group_hash_axioms;

/// The ledger that an invocation runs in.
#[derive(Clone, Copy, Debug, PartialEq, Eq)]
pub struct Invocation {
    /// The address of the escrow itself.
    pub contract_address: Address,
    /// Ledger time in Unix seconds.
    pub timestamp: u64,
    /// Ledger sequence number.
    pub sequence: u32,
}

/// The records that exist once per escrow.
#[derive(Clone, Copy, Debug, PartialEq, Eq)]
pub struct Config {
    pub initialized: bool,
    pub admin: Option<Address>,
    pub settlement_token: Option<Address>,
    pub paused: bool,
    pub emergency: bool,
    pub checklist: ReadinessChecklist,
    /// Protocol fee in basis points.
    pub protocol_fee_bps: u32,
    /// Fees that were retained and not withdrawn yet, in stroops.
    pub accumulated_fees: i128,
    pub pending_admin: Option<PendingAdminProposal>,
    pub governed: Option<GovernedParameters>,
    pub next_contract_id: u32,
}

impl Config {
    /// An initialized escrow has an admin, an emergency is a pause, fees are not
    /// negative, and contract ids start at one.
    pub open spec fn sound(self) -> bool {
        &&& self.initialized ==> self.admin is Some
        &&& self.emergency ==> self.paused
        &&& self.accumulated_fees >= 0
        &&& self.next_contract_id >= 1
    }
}

impl Default for Config {
    /// The records of an escrow that nobody has set up.
    fn default() -> (config: Self)
        ensures
            config == (Config {
                initialized: false,
                admin: None,
                settlement_token: None,
                paused: false,
                emergency: false,
                checklist: config.checklist,
                protocol_fee_bps: 0,
                accumulated_fees: 0,
                pending_admin: None,
                governed: None,
                next_contract_id: 1,
            }),
            !config.checklist.initialized,
            !config.checklist.governed_params_set,
            !config.checklist.emergency_controls_enabled,
            config.sound(),
    {
        Config {
            initialized: false,
            admin: None,
            settlement_token: None,
            paused: false,
            emergency: false,
            checklist: ReadinessChecklist::default(),
            protocol_fee_bps: 0,
            accumulated_fees: 0,
            pending_admin: None,
            governed: None,
            next_contract_id: 1,
        }
    }
}

/// What one invocation can see and change.
pub struct Env {
    pub call: Invocation,
    pub config: Config,
    /// Addresses whose authorization of this call the host has confirmed.
    pub authorized: Vec<Address>,
    /// For each address that the host has asked for a token balance, whether it
    /// answered.
    pub token_probes: HashMap<u64, bool>,
    pub contracts: HashMap<u32, Contract>,
    pub milestones: HashMap<u32, Vec<Milestone>>,
    /// Live approvals, under [`approval_slot`].
    pub approvals: HashMap<u64, MilestoneApprovals>,
    pub finalizations: HashMap<u32, FinalizationRecord>,
    /// Live client migrations.
    pub migrations: HashMap<u32, PendingClientMigration>,
    pub reputation_issued: HashMap<u32, bool>,
    pub reputation_comments: HashMap<u32, Vec<u8>>,
    /// Completed contracts that await a rating, by freelancer.
    pub reputation_credits: HashMap<u64, i128>,
    /// Ratings, by freelancer.
    pub reputations: HashMap<u64, Reputation>,
    /// Token movements that the host has to carry out.
    pub transfers: Vec<Transfer>,
    /// Events that the host has to publish.
    pub events: Vec<Event>,
}

/// The mathematical content of an [`Env`].
#[verifier::ext_equal]
pub struct State {
    pub call: Invocation,
    pub config: Config,
    pub authorized: Seq<Address>,
    pub token_probes: Map<u64, bool>,
    pub contracts: Map<u32, Contract>,
    pub milestones: Map<u32, Seq<Milestone>>,
    pub approvals: Map<u64, MilestoneApprovals>,
    pub finalizations: Map<u32, FinalizationRecord>,
    pub migrations: Map<u32, PendingClientMigration>,
    pub reputation_issued: Map<u32, bool>,
    pub reputation_comments: Map<u32, Vec<u8>>,
    pub reputation_credits: Map<u64, i128>,
    pub reputations: Map<u64, Reputation>,
    pub transfers: Seq<Transfer>,
    pub events: Seq<Event>,
}

impl View for Env {
    type V = State;

    open spec fn view(&self) -> State {
        State {
            call: self.call,
            config: self.config,
            authorized: self.authorized@,
            token_probes: self.token_probes@,
            contracts: self.contracts@,
            milestones: self.milestones@.map_values(|list: Vec<Milestone>| list@),
            approvals: self.approvals@,
            finalizations: self.finalizations@,
            migrations: self.migrations@,
            reputation_issued: self.reputation_issued@,
            reputation_comments: self.reputation_comments@,
            reputation_credits: self.reputation_credits@,
            reputations: self.reputations@,
            transfers: self.transfers@,
            events: self.events@,
        }
    }
}

/// A refusal with one of the escrow's own errors.
pub open spec fn fail(error: Error) -> Option<Halt> {
    Some(Halt::Failed(error))
}

/// How an entrypoint answers: without a refusal it returns `true` and leaves the
/// state `effect`; with one it returns it and changes nothing.
pub open spec fn answers(
    result: Result<bool, Halt>,
    refusal: Option<Halt>,
    before: State,
    after: State,
    effect: State,
) -> bool {
    match result {
        Ok(done) => done && refusal is None && after == effect,
        Err(halt) => refusal == Some(halt) && after == before,
    }
}

/// The key of the approvals of one milestone.
pub open spec fn approval_slot(contract_id: u32, milestone_index: u32) -> u64 {
    (contract_id * 0x1_0000_0000 + milestone_index) as u64
}

/// The key of the approvals of one milestone.
pub fn compute_approval_slot(contract_id: u32, milestone_index: u32) -> (slot: u64)
    ensures
        slot == approval_slot(contract_id, milestone_index),
{
    contract_id as u64 * 0x1_0000_0000 + milestone_index as u64
}

impl Milestone {
    /// A milestone within the limits, funded no further than its amount, and
    /// either released or refunded but never both.
    pub open spec fn sound(self) -> bool {
        &&& 0 < self.amount <= MAX_SINGLE_AMOUNT_STROOPS
        &&& 0 <= self.funded_amount <= self.amount
        &&& self.released ==> self.funded_amount == self.amount
        &&& !(self.released && self.refunded)
        &&& self.refunded_amount == (if self.refunded { self.amount } else { 0 })
    }
}

/// The milestones of one agreement are within the limits.
pub open spec fn milestones_sound(milestones: Seq<Milestone>) -> bool {
    &&& milestones.len() <= MAX_MILESTONES
    &&& forall|i: int| 0 <= i < milestones.len() ==> (#[trigger] milestones[i]).sound()
}

/// Every milestone is released or refunded.
pub open spec fn all_settled(milestones: Seq<Milestone>) -> bool {
    forall|i: int| 0 <= i < milestones.len() ==> (#[trigger] milestones[i]).settled()
}

/// Every milestone is refunded.
pub open spec fn all_refunded(milestones: Seq<Milestone>) -> bool {
    forall|i: int| 0 <= i < milestones.len() ==> (#[trigger] milestones[i]).refunded
}

impl State {
    /// What every entrypoint relies on and keeps: sound settings, balanced books,
    /// milestones within their limits and consistent reputation records.
    pub open spec fn wf(self) -> bool {
        &&& self.config.sound()
        &&& forall|id: u32|
            self.contracts.contains_key(id) ==> (#[trigger] self.contracts[id]).balanced()
        &&& forall|id: u32|
            self.milestones.contains_key(id) ==> milestones_sound(#[trigger] self.milestones[id])
        &&& forall|key: u64|
            self.reputation_credits.contains_key(key) ==> #[trigger] self.reputation_credits[key]
                >= 0
        &&& forall|key: u64|
            self.reputations.contains_key(key) ==> (#[trigger] self.reputations[key]).consistent()
    }

    /// An emergency refuses every change; so does a pause.
    pub open spec fn freeze(self) -> Option<Halt> {
        if self.config.emergency {
            fail(Error::EmergencyActive)
        } else if self.config.paused {
            fail(Error::ContractPaused)
        } else {
            None
        }
    }

    /// An emergency or a pause, told as a pause.
    pub open spec fn stopped(self) -> Option<Halt> {
        if self.config.emergency || self.config.paused {
            fail(Error::ContractPaused)
        } else {
            None
        }
    }

    /// The agreement is unknown, or closed for good.
    pub open spec fn closed(self, contract_id: u32) -> Option<Halt> {
        if !self.contracts.contains_key(contract_id) {
            fail(Error::ContractNotFound)
        } else if self.finalizations.contains_key(contract_id) {
            fail(Error::AlreadyFinalized)
        } else {
            None
        }
    }

    /// The approvals of a milestone that are live.
    pub open spec fn approvals_of(self, contract_id: u32, milestone_index: u32) -> Option<
        MilestoneApprovals,
    > {
        let slot = approval_slot(contract_id, milestone_index);
        if self.approvals.contains_key(slot) {
            Some(self.approvals[slot])
        } else {
            None
        }
    }

    /// Completed contracts of `address` that await a rating.
    pub open spec fn credits_of(self, address: Address) -> i128 {
        if self.reputation_credits.contains_key(address.id) {
            self.reputation_credits[address.id]
        } else {
            0
        }
    }

    /// The ratings of `address`.
    pub open spec fn reputation_of(self, address: Address) -> Reputation {
        if self.reputations.contains_key(address.id) {
            self.reputations[address.id]
        } else {
            Reputation::none()
        }
    }

    /// The credits of the freelancer of `contract_id` can still be counted up.
    pub open spec fn credit_room(self, contract_id: u32) -> bool {
        self.contracts.contains_key(contract_id) ==> self.credits_of(
            self.contracts[contract_id].freelancer,
        ) < i128::MAX
    }

    /// This state with one settings record replaced.
    pub open spec fn with_config(self, config: Config) -> State {
        State { config, ..self }
    }

    /// This state with one agreement replaced.
    pub open spec fn with_contract(self, contract_id: u32, contract: Contract) -> State {
        State { contracts: self.contracts.insert(contract_id, contract), ..self }
    }

    /// This state with the milestones of one agreement replaced.
    pub open spec fn with_milestones(self, contract_id: u32, milestones: Seq<Milestone>) -> State {
        State { milestones: self.milestones.insert(contract_id, milestones), ..self }
    }

    /// This state with one more reputation credit for `address`.
    pub open spec fn with_credit(self, address: Address) -> State {
        State {
            reputation_credits: self.reputation_credits.insert(
                address.id,
                (self.credits_of(address) + 1) as i128,
            ),
            ..self
        }
    }

    /// This state with one more event to publish.
    pub open spec fn with_event(self, event: Event) -> State {
        State { events: self.events.push(event), ..self }
    }

    /// This state with one more payment out of the escrow, in the bound token.
    pub open spec fn with_payment(self, to: Address, amount: int) -> State {
        State {
            transfers: self.transfers.push(
                Transfer {
                    token: self.config.settlement_token->0,
                    from: self.call.contract_address,
                    to,
                    amount: amount as i128,
                },
            ),
            ..self
        }
    }
}

impl Env {
    /// An environment with settings and no other records, or `None` where the
    /// settings are not sound.
    pub fn new(call: Invocation, config: Config) -> (env: Option<Env>)
        ensures
            match env {
                Some(env) => {
                    &&& config.sound()
                    &&& env@.wf()
                    &&& env@ == (State {
                        call,
                        config,
                        authorized: Seq::empty(),
                        token_probes: Map::empty(),
                        contracts: Map::empty(),
                        milestones: Map::empty(),
                        approvals: Map::empty(),
                        finalizations: Map::empty(),
                        migrations: Map::empty(),
                        reputation_issued: Map::empty(),
                        reputation_comments: Map::empty(),
                        reputation_credits: Map::empty(),
                        reputations: Map::empty(),
                        transfers: Seq::empty(),
                        events: Seq::empty(),
                    })
                },
                None => !config.sound(),
            },
    {
        if config.initialized && config.admin.is_none() || config.emergency && !config.paused
            || config.accumulated_fees < 0 || config.next_contract_id < 1 {
            return None;
        }
        Some(
            Env {
                call,
                config,
                authorized: Vec::new(),
                token_probes: HashMap::new(),
                contracts: HashMap::new(),
                milestones: HashMap::new(),
                approvals: HashMap::new(),
                finalizations: HashMap::new(),
                migrations: HashMap::new(),
                reputation_issued: HashMap::new(),
                reputation_comments: HashMap::new(),
                reputation_credits: HashMap::new(),
                reputations: HashMap::new(),
                transfers: Vec::new(),
                events: Vec::new(),
            },
        )
    }

    /// Takes in a stored agreement. Returns `false`, and takes nothing in, where
    /// its books are not balanced.
    pub fn load_contract(&mut self, contract_id: u32, contract: Contract) -> (taken: bool)
        requires
            old(self)@.wf(),
        ensures
            taken == contract.balanced(),
            final(self)@ == (if taken {
                old(self)@.with_contract(contract_id, contract)
            } else {
                old(self)@
            }),
            final(self)@.wf(),
    {
        if contract.funded_amount < 0 || contract.total_deposited != contract.funded_amount
            || contract.released_amount < 0 || contract.refunded_amount < 0
            || contract.funded_amount - contract.released_amount < contract.refunded_amount {
            return false;
        }
        self.contracts.insert(contract_id, contract);
        true
    }

    /// Takes in the stored milestones of an agreement. Returns `false`, and takes
    /// nothing in, where one of them is out of its limits.
    pub fn load_milestones(&mut self, contract_id: u32, milestones: Vec<Milestone>) -> (taken: bool)
        requires
            old(self)@.wf(),
        ensures
            taken == milestones_sound(milestones@),
            final(self)@ == (if taken {
                old(self)@.with_milestones(contract_id, milestones@)
            } else {
                old(self)@
            }),
            final(self)@.wf(),
    {
        if milestones.len() > MAX_MILESTONES as usize {
            return false;
        }
        for i in 0..milestones.len()
            invariant
                old(self)@.wf(),
                self@ == old(self)@,
                forall|j: int| 0 <= j < i ==> (#[trigger] milestones@[j]).sound(),
        {
            let m = &milestones[i];
            let refunded_amount: i128 = if m.refunded { m.amount } else { 0 };
            if m.amount <= 0 || m.amount > MAX_SINGLE_AMOUNT_STROOPS || m.funded_amount < 0
                || m.funded_amount > m.amount || m.released && m.funded_amount != m.amount
                || m.released && m.refunded || m.refunded_amount != refunded_amount {
                assert(!milestones@[i as int].sound());
                return false;
            }
        }
        self.milestones.insert(contract_id, milestones);
        assert(self@.milestones =~= old(self)@.milestones.insert(contract_id, milestones@));
        true
    }

    /// Takes in the stored ratings of a freelancer. Returns `false`, and takes
    /// nothing in, where they cannot come from ratings between one and five.
    pub fn load_reputation(&mut self, address: Address, reputation: Reputation) -> (taken: bool)
        requires
            old(self)@.wf(),
        ensures
            taken == reputation.consistent(),
            final(self)@ == (if taken {
                State {
                    reputations: old(self)@.reputations.insert(address.id, reputation),
                    ..old(self)@
                }
            } else {
                old(self)@
            }),
            final(self)@.wf(),
    {
        if reputation.completed_contracts < 0 || reputation.completed_contracts
            > reputation.total_rating || reputation.last_rating < 0 || reputation.last_rating > 5 {
            return false;
        }
        if let Some(most) = reputation.completed_contracts.checked_mul(5) {
            if reputation.total_rating > most {
                return false;
            }
        }
        self.reputations.insert(address.id, reputation);
        true
    }

    /// Takes in the stored reputation credits of a freelancer. Returns `false`,
    /// and takes nothing in, where they are negative.
    pub fn load_credits(&mut self, address: Address, credits: i128) -> (taken: bool)
        requires
            old(self)@.wf(),
        ensures
            taken == (credits >= 0),
            final(self)@ == (if taken {
                State {
                    reputation_credits: old(self)@.reputation_credits.insert(address.id, credits),
                    ..old(self)@
                }
            } else {
                old(self)@
            }),
            final(self)@.wf(),
    {
        if credits < 0 {
            return false;
        }
        self.reputation_credits.insert(address.id, credits);
        true
    }

    /// Goes on only if the host has confirmed that `address` authorized the call.
    pub(crate) fn require_auth(&self, address: Address) -> (result: Result<(), Halt>)
        ensures
            result == (if self@.authorized.contains(address) {
                Ok::<(), Halt>(())
            } else {
                Err(Halt::AuthRequired(address))
            }),
    {
        for i in 0..self.authorized.len()
            invariant
                forall|j: int| 0 <= j < i ==> self.authorized@[j] != address,
        {
            if self.authorized[i] == address {
                assert(self.authorized@.contains(address));
                return Ok(());
            }
        }
        Err(Halt::AuthRequired(address))
    }

    /// Goes on only if the escrow is initialized.
    pub(crate) fn require_initialized(&self) -> (result: Result<(), Halt>)
        ensures
            result == (if self@.config.initialized {
                Ok::<(), Halt>(())
            } else {
                Err(Halt::Failed(Error::NotInitialized))
            }),
    {
        if self.config.initialized {
            Ok(())
        } else {
            Err(Halt::Failed(Error::NotInitialized))
        }
    }

    /// Goes on only if neither an emergency nor a pause is active.
    pub(crate) fn require_not_paused(&self) -> (result: Result<(), Halt>)
        ensures
            result == (match self@.freeze() {
                None => Ok::<(), Halt>(()),
                Some(halt) => Err(halt),
            }),
    {
        if self.config.emergency {
            Err(Halt::Failed(Error::EmergencyActive))
        } else if self.config.paused {
            Err(Halt::Failed(Error::ContractPaused))
        } else {
            Ok(())
        }
    }

    /// Goes on only if neither an emergency nor a pause is active, and tells both as
    /// a pause.
    pub(crate) fn require_not_stopped(&self) -> (result: Result<(), Halt>)
        ensures
            result == (match self@.stopped() {
                None => Ok::<(), Halt>(()),
                Some(halt) => Err(halt),
            }),
    {
        if self.config.emergency || self.config.paused {
            Err(Halt::Failed(Error::ContractPaused))
        } else {
            Ok(())
        }
    }

    /// The agreement, if it is known.
    pub(crate) fn read_contract(&self, contract_id: u32) -> (result: Result<Contract, Halt>)
        ensures
            result == (if self@.contracts.contains_key(contract_id) {
                Ok::<Contract, Halt>(self@.contracts[contract_id])
            } else {
                Err(Halt::Failed(Error::ContractNotFound))
            }),
    {
        match self.contracts.get(&contract_id) {
            Some(contract) => Ok(*contract),
            None => Err(Halt::Failed(Error::ContractNotFound)),
        }
    }

    /// The agreement, if it is known and not finalized.
    pub(crate) fn read_open_contract(&self, contract_id: u32) -> (result: Result<Contract, Halt>)
        ensures
            result == (match self@.closed(contract_id) {
                None => Ok::<Contract, Halt>(self@.contracts[contract_id]),
                Some(halt) => Err(halt),
            }),
    {
        let contract = self.read_contract(contract_id)?;
        if self.finalizations.contains_key(&contract_id) {
            return Err(Halt::Failed(Error::AlreadyFinalized));
        }
        Ok(contract)
    }

    /// The milestones of an agreement, if there are any on record.
    pub(crate) fn read_milestones(&self, contract_id: u32) -> (result: Result<
        &Vec<Milestone>,
        Halt,
    >)
        ensures
            match result {
                Ok(list) => self@.milestones.contains_key(contract_id) && list@
                    == self@.milestones[contract_id],
                Err(halt) => !self@.milestones.contains_key(contract_id) && halt == Halt::Failed(
                    Error::ContractNotFound,
                ),
            },
    {
        match self.milestones.get(&contract_id) {
            Some(list) => Ok(list),
            None => Err(Halt::Failed(Error::ContractNotFound)),
        }
    }

    /// The live approvals of one milestone.
    pub(crate) fn read_approvals(&self, contract_id: u32, milestone_index: u32) -> (result: Option<
        MilestoneApprovals,
    >)
        ensures
            result == self@.approvals_of(contract_id, milestone_index),
    {
        match self.approvals.get(&compute_approval_slot(contract_id, milestone_index)) {
            Some(approvals) => Some(*approvals),
            None => None,
        }
    }

    /// The credits of `address`.
    pub(crate) fn read_credits(&self, address: Address) -> (credits: i128)
        ensures
            credits == self@.credits_of(address),
    {
        match self.reputation_credits.get(&address.id) {
            Some(credits) => *credits,
            None => 0,
        }
    }

    /// The ratings of `address`.
    pub(crate) fn read_reputation(&self, address: Address) -> (reputation: Reputation)
        ensures
            reputation == self@.reputation_of(address),
    {
        match self.reputations.get(&address.id) {
            Some(reputation) => *reputation,
            None => Reputation::default(),
        }
    }

    pub(crate) fn write_contract(&mut self, contract_id: u32, contract: Contract)
        ensures
            final(self)@ == old(self)@.with_contract(contract_id, contract),
    {
        self.contracts.insert(contract_id, contract);
    }

    pub(crate) fn write_milestones(&mut self, contract_id: u32, milestones: Vec<Milestone>)
        ensures
            final(self)@ == old(self)@.with_milestones(contract_id, milestones@),
    {
        self.milestones.insert(contract_id, milestones);
        assert(self@.milestones =~= old(self)@.milestones.insert(contract_id, milestones@));
    }

    /// Takes the milestones of an agreement out, to be written back changed.
    pub(crate) fn take_milestones(&mut self, contract_id: u32) -> (milestones: Vec<Milestone>)
        requires
            old(self)@.milestones.contains_key(contract_id),
        ensures
            milestones@ == old(self)@.milestones[contract_id],
            final(self)@ == (State {
                milestones: old(self)@.milestones.remove(contract_id),
                ..old(self)@
            }),
    {
        match self.milestones.remove(&contract_id) {
            Some(milestones) => {
                assert(self@.milestones =~= old(self)@.milestones.remove(contract_id));
                milestones
            },
            None => Vec::new(),
        }
    }

    /// Counts one more completed contract of `freelancer` that awaits a rating.
    pub(crate) fn grant_pending_reputation_credit(&mut self, freelancer: Address)
        requires
            old(self)@.credits_of(freelancer) < i128::MAX,
        ensures
            final(self)@ == old(self)@.with_credit(freelancer),
    {
        let pending: i128 = self.read_credits(freelancer);
        self.reputation_credits.insert(freelancer.id, pending + 1);
    }

    pub(crate) fn publish(&mut self, event: Event)
        ensures
            final(self)@ == old(self)@.with_event(event),
    {
        self.events.push(event);
    }

    /// Pays `amount` of the bound token out of the escrow.
    pub(crate) fn pay(&mut self, token: Address, to: Address, amount: i128)
        requires
            old(self)@.config.settlement_token == Some(token),
        ensures
            final(self)@ == old(self)@.with_payment(to, amount as int),
    {
        self.transfers.push(Transfer { token, from: self.call.contract_address, to, amount });
    }

    /// The bound settlement token, if there is one.
    pub(crate) fn require_settlement_token(&self) -> (result: Result<Address, Halt>)
        ensures
            result == (match self@.config.settlement_token {
                Some(token) => Ok::<Address, Halt>(token),
                None => Err(Halt::Failed(Error::SettlementTokenNotConfigured)),
            }),
    {
        match self.config.settlement_token {
            Some(token) => Ok(token),
            None => Err(Halt::Failed(Error::SettlementTokenNotConfigured)),
        }
    }
}

/// Whether every milestone is released or refunded.
pub(crate) fn check_all_settled(milestones: &Vec<Milestone>) -> (settled: bool)
    ensures
        settled == all_settled(milestones@),
{
    for i in 0..milestones.len()
        invariant
            forall|j: int| 0 <= j < i ==> (#[trigger] milestones@[j]).settled(),
    {
        if !milestones[i].released && !milestones[i].refunded {
            assert(!milestones@[i as int].settled());
            return false;
        }
    }
    true
}

/// Whether every milestone is refunded.
pub(crate) fn check_all_refunded(milestones: &Vec<Milestone>) -> (refunded: bool)
    ensures
        refunded == all_refunded(milestones@),
{
    for i in 0..milestones.len()
        invariant
            forall|j: int| 0 <= j < i ==> (#[trigger] milestones@[j]).refunded,
    {
        if !milestones[i].refunded {
            return false;
        }
    }
    true
}

} // verus!
