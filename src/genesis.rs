//! Settings of a test runtime's genesis state, and the plan they produce:
//! the endowed balances, the stakers and the session keys.

use vstd::prelude::*;

use crate::{AccountId, Balance};

verus! {

/// Marker for the runtime configuration that the windows are wired into.
#[derive(Debug, Clone, Copy, PartialEq, Eq, Structural)]
pub struct Test;

/// Conversion between balances and voting weight.
pub struct CurrencyToVoteHandler;

impl CurrencyToVoteHandler {
    /// A balance counts as its own voting weight.
    pub fn convert_balance(x: u64) -> (r: u64)
        ensures
            r == x,
    {
        x
    }

    /// A wide balance keeps its low 64 bits.
    pub fn convert_extended(x: u128) -> (r: u64)
        ensures
            r == x as u64,
    {
        x as u64
    }
}

/// The existential deposit of the runtime configuration.
pub struct ExistentialDeposit;

impl ExistentialDeposit {
    /// Always zero: no account is reaped for a small balance.
    pub fn get() -> (r: u64)
        ensures
            r == 0,
    {
        0
    }
}

/// Constants that a built genesis publishes to the rest of the runtime.
pub struct AssociatedConsts {
    pub existential_deposit: u64,
}

/// Role of a staker at genesis.
#[derive(Debug, Clone, Copy, PartialEq, Eq, Structural)]
pub enum StakerStatus {
    Validator,
    Idle,
    Nominator,
}

/// One staker at genesis; `nominations` is empty unless it nominates.
pub struct StakerPlan {
    pub stash: AccountId,
    pub controller: AccountId,
    pub bond: Balance,
    pub status: StakerStatus,
    pub nominations: Vec<AccountId>,
}

/// Everything a genesis build hands to the runtime's modules.
pub struct GenesisPlan {
    pub balances: Vec<(AccountId, Balance)>,
    pub stakers: Vec<StakerPlan>,
    pub session_keys: Vec<AccountId>,
    pub validator_count: u32,
    pub minimum_validator_count: u32,
    pub session_reward_millionths: u32,
    pub offline_slash_percent: u32,
    pub current_session_reward: u64,
    pub current_era: u32,
    pub offline_slash_grace: u32,
}

/// The settings an `ExtBuilder` holds.
pub ghost struct BuilderSettings {
    pub existential_deposit: u64,
    pub reward: u64,
    pub validator_pool: bool,
    pub nominate: bool,
    pub validator_count: u32,
    pub minimum_validator_count: u32,
    pub fair: bool,
    pub num_validators: Option<u32>,
}

/// Multiplier of every genesis balance: large when an existential deposit
/// is set, so that every endowed account stays above it.
pub open spec fn balance_factor(s: BuilderSettings) -> u64 {
    if s.existential_deposit > 0 {
        256
    } else {
        1
    }
}

/// The endowed accounts and their balances.
pub open spec fn genesis_balances(f: u64) -> Seq<(AccountId, Balance)> {
    seq![
        (1, (10 * f) as u64),
        (2, (20 * f) as u64),
        (3, (300 * f) as u64),
        (4, (400 * f) as u64),
        (10, f),
        (11, (f * 1000) as u64),
        (20, f),
        (21, (f * 2000) as u64),
        (30, f),
        (31, (f * 2000) as u64),
        (40, f),
        (41, (f * 2000) as u64),
        (100, (2000 * f) as u64),
        (101, (2000 * f) as u64),
    ]
}

/// Stash, controller, bond and status of each genesis staker.
pub open spec fn genesis_stakers(s: BuilderSettings) -> Seq<
    (AccountId, AccountId, Balance, StakerStatus),
> {
    let f = balance_factor(s);
    seq![
        (11, 10, (f * 1000) as u64, StakerStatus::Validator),
        (21, 20, if s.fair { 1000u64 } else { 2000u64 }, StakerStatus::Validator),
        (31, 30, if s.validator_pool { (f * 1000) as u64 } else { 1u64 }, StakerStatus::Validator),
        (41, 40, (f * 1000) as u64, if s.validator_pool {
            StakerStatus::Validator
        } else {
            StakerStatus::Idle
        }),
        (101, 100, (f * 500) as u64, StakerStatus::Nominator),
    ]
}

/// The validators that the nominator backs.
pub open spec fn genesis_nominations(s: BuilderSettings) -> Seq<AccountId> {
    if s.nominate {
        seq![11, 21]
    } else {
        Seq::<AccountId>::empty()
    }
}

/// How many validators get session keys.
pub open spec fn keyed_validators(s: BuilderSettings) -> u32 {
    match s.num_validators {
        Some(n) => n,
        None => s.validator_count,
    }
}

/// Builder of a test runtime's genesis state.
pub struct ExtBuilder {
    existential_deposit: u64,
    reward: u64,
    validator_pool: bool,
    nominate: bool,
    validator_count: u32,
    minimum_validator_count: u32,
    fair: bool,
    num_validators: Option<u32>,
}

impl View for ExtBuilder {
    type V = BuilderSettings;

    closed spec fn view(&self) -> BuilderSettings {
        BuilderSettings {
            existential_deposit: self.existential_deposit,
            reward: self.reward,
            validator_pool: self.validator_pool,
            nominate: self.nominate,
            validator_count: self.validator_count,
            minimum_validator_count: self.minimum_validator_count,
            fair: self.fair,
            num_validators: self.num_validators,
        }
    }
}

impl Default for ExtBuilder {
    fn default() -> (r: Self)
        ensures
            r@ == (BuilderSettings {
                existential_deposit: 0,
                reward: 10,
                validator_pool: false,
                nominate: true,
                validator_count: 2,
                minimum_validator_count: 0,
                fair: true,
                num_validators: None,
            }),
    {
        ExtBuilder {
            existential_deposit: 0,
            reward: 10,
            validator_pool: false,
            nominate: true,
            validator_count: 2,
            minimum_validator_count: 0,
            fair: true,
            num_validators: None,
        }
    }
}

impl ExtBuilder {
    /// Sets the existential deposit.
    pub fn existential_deposit(self, existential_deposit: u64) -> (r: Self)
        ensures
            r@ == (BuilderSettings { existential_deposit, ..self@ }),
    {
        let mut b = self;
        b.existential_deposit = existential_deposit;
        b
    }

    /// Sets whether the pool holds a third validator with a full stake.
    pub fn validator_pool(self, validator_pool: bool) -> (r: Self)
        ensures
            r@ == (BuilderSettings { validator_pool, ..self@ }),
    {
        let mut b = self;
        b.validator_pool = validator_pool;
        b
    }

    /// Sets whether the genesis nominator backs any validator.
    pub fn nominate(self, nominate: bool) -> (r: Self)
        ensures
            r@ == (BuilderSettings { nominate, ..self@ }),
    {
        let mut b = self;
        b.nominate = nominate;
        b
    }

    /// Sets the number of validators to elect.
    pub fn validator_count(self, count: u32) -> (r: Self)
        ensures
            r@ == (BuilderSettings { validator_count: count, ..self@ }),
    {
        let mut b = self;
        b.validator_count = count;
        b
    }

    /// Sets the fewest validators an election may produce.
    pub fn minimum_validator_count(self, count: u32) -> (r: Self)
        ensures
            r@ == (BuilderSettings { minimum_validator_count: count, ..self@ }),
    {
        let mut b = self;
        b.minimum_validator_count = count;
        b
    }

    /// Sets whether the second validator's stake equals the first's.
    pub fn fair(self, is_fair: bool) -> (r: Self)
        ensures
            r@ == (BuilderSettings { fair: is_fair, ..self@ }),
    {
        let mut b = self;
        b.fair = is_fair;
        b
    }

    /// Sets how many validators get session keys, in place of the
    /// validator count.
    pub fn num_validators(self, num_validators: u32) -> (r: Self)
        ensures
            r@ == (BuilderSettings { num_validators: Some(num_validators), ..self@ }),
    {
        let mut b = self;
        b.num_validators = Some(num_validators);
        b
    }

    /// Publishes the builder's existential deposit into `consts`.
    pub fn set_associated_consts(&self, consts: &mut AssociatedConsts)
        ensures
            final(consts).existential_deposit == self@.existential_deposit,
    {
        consts.existential_deposit = self.existential_deposit;
    }

    /// The genesis state that these settings describe.
    pub fn genesis(&self) -> (r: GenesisPlan)
        ensures
            r.balances@ == genesis_balances(balance_factor(self@)),
            r.stakers@.len() == 5,
            forall|i: int|
                0 <= i < 5 ==> (#[trigger] r.stakers@[i].stash, r.stakers@[i].controller,
                r.stakers@[i].bond, r.stakers@[i].status) == genesis_stakers(self@)[i],
            forall|i: int|
                0 <= i < 4 ==> (#[trigger] r.stakers@[i].nominations@).len() == 0,
            r.stakers@[4].nominations@ == genesis_nominations(self@),
            r.session_keys@.len() == keyed_validators(self@),
            forall|i: int|
                0 <= i < r.session_keys@.len() ==> #[trigger] r.session_keys@[i] == (i + 1) * 10,
            r.validator_count == self@.validator_count,
            r.minimum_validator_count == self@.minimum_validator_count,
            r.session_reward_millionths == ((1_000_000 * self@.reward) / balance_factor(
                self@,
            ) as int) as u32,
            r.offline_slash_percent == 5,
            r.current_session_reward == self@.reward,
            r.current_era == 0,
            r.offline_slash_grace == 0,
    {
        let f: u64 = if self.existential_deposit > 0 {
            256
        } else {
            1
        };
        let mut balances: Vec<(AccountId, Balance)> = Vec::new();
        balances.push((1, 10 * f));
        balances.push((2, 20 * f));
        balances.push((3, 300 * f));
        balances.push((4, 400 * f));
        balances.push((10, f));
        balances.push((11, f * 1000));
        balances.push((20, f));
        balances.push((21, f * 2000));
        balances.push((30, f));
        balances.push((31, f * 2000));
        balances.push((40, f));
        balances.push((41, f * 2000));
        balances.push((100, 2000 * f));
        balances.push((101, 2000 * f));
        assert(balances@ =~= genesis_balances(f));

        let stake_21: u64 = if self.fair {
            1000
        } else {
            2000
        };
        let stake_31: u64 = if self.validator_pool {
            f * 1000
        } else {
            1
        };
        let status_41 = if self.validator_pool {
            StakerStatus::Validator
        } else {
            StakerStatus::Idle
        };
        let mut nominated: Vec<AccountId> = Vec::new();
        if self.nominate {
            nominated.push(11);
            nominated.push(21);
        }
        assert(nominated@ =~= genesis_nominations(self@));
        let mut stakers: Vec<StakerPlan> = Vec::new();
        stakers.push(
            StakerPlan {
                stash: 11,
                controller: 10,
                bond: f * 1000,
                status: StakerStatus::Validator,
                nominations: Vec::new(),
            },
        );
        stakers.push(
            StakerPlan {
                stash: 21,
                controller: 20,
                bond: stake_21,
                status: StakerStatus::Validator,
                nominations: Vec::new(),
            },
        );
        stakers.push(
            StakerPlan {
                stash: 31,
                controller: 30,
                bond: stake_31,
                status: StakerStatus::Validator,
                nominations: Vec::new(),
            },
        );
        stakers.push(
            StakerPlan {
                stash: 41,
                controller: 40,
                bond: f * 1000,
                status: status_41,
                nominations: Vec::new(),
            },
        );
        stakers.push(
            StakerPlan {
                stash: 101,
                controller: 100,
                bond: f * 500,
                status: StakerStatus::Nominator,
                nominations: nominated,
            },
        );

        let n = match self.num_validators {
            Some(n) => n,
            None => self.validator_count,
        };
        let mut session_keys: Vec<AccountId> = Vec::new();
        let mut x: u32 = 0;
        while x < n
            invariant
                x <= n,
                session_keys@.len() == x,
                forall|i: int| 0 <= i < x ==> #[trigger] session_keys@[i] == (i + 1) * 10,
            decreases n - x,
        {
            session_keys.push((x as u64 + 1) * 10);
            x = x + 1;
        }

        let reward_millionths = ((1_000_000u128 * self.reward as u128) / f as u128) as u32;
        GenesisPlan {
            balances,
            stakers,
            session_keys,
            validator_count: self.validator_count,
            minimum_validator_count: self.minimum_validator_count,
            session_reward_millionths: reward_millionths,
            offline_slash_percent: 5,
            current_session_reward: self.reward,
            current_era: 0,
            offline_slash_grace: 0,
        }
    }
}

} // verus!
