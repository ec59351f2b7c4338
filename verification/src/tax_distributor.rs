//! The tax distributor: splits a taxed amount into a global developer fee,
//! a part to burn, a part for the token's developers, a part for the future,
//! and a remainder that goes to staking through a reward distributor.
//!
//! Every part is a percentage of the whole amount, rounded down, and is
//! taken from what is left of it. The arithmetic is done by `bigint::U256`.
//! The distributor moves no tokens: `distribute_tax` says what is to be paid
//! to whom, and the caller pays. Where the reward distributor refuses to
//! update the rewards, the failure says so together with what was paid by
//! then.

use crate::address::{is_zero_address, is_zero_bytes, zero_address, Address};
use crate::amount::{amount_limit, Amount};
use crate::error::ErrorKind;
use crate::registry::Registry;
use bigint::U256;
use vstd::prelude::*;

verus! {

/// The least global developer fee that can be set.
pub const DEV_FEE_MIN_AMOUNT: u8 = 100;

/// Where staked amounts go, and who is told of them. Implemented by the
/// users of this crate; nothing is assumed of what the methods return.
pub trait IRewardDistributor {
    /// The address to which the stake of `address` is to be paid; the zero
    /// address when nothing is to be paid.
    fn roll_and_get_distribution_address(&self, address: Address) -> Address;

    /// Tells the distributor of a payment to `address`; `false` when it
    /// could not take note of it.
    fn update_rewards(&self, address: Address) -> bool;
}

/// The percentages into which the tax of a token is split.
#[derive(Clone, Copy, Debug, PartialEq, Eq, Structural)]
pub struct Distribution {
    pub stake: u8,
    pub burn: u8,
    pub future: u8,
    pub dev: u8,
}

/// The parts of a taxed amount, as numbers.
pub struct TaxShares {
    pub global_dev: nat,
    pub burn: nat,
    pub dev: nat,
    pub future: nat,
    /// What is left after the four parts: the stake.
    pub remaining: nat,
}

/// The parts of a taxed amount.
#[derive(Clone, Copy, Debug, PartialEq, Eq)]
pub struct TaxSplit {
    pub global_dev: Amount,
    pub burn: Amount,
    pub dev: Amount,
    pub future: Amount,
    /// What is left after the four parts: the stake.
    pub remaining: Amount,
}

impl View for TaxSplit {
    type V = TaxShares;

    open spec fn view(&self) -> TaxShares {
        TaxShares {
            global_dev: self.global_dev@,
            burn: self.burn@,
            dev: self.dev@,
            future: self.future@,
            remaining: self.remaining@,
        }
    }
}

/// What is to be paid, and to whom. The part to burn has no recipient.
#[derive(Clone, Copy, Debug, PartialEq, Eq)]
pub struct TaxPayout {
    pub split: TaxSplit,
    /// Receives `split.global_dev`.
    pub global_dev_to: Address,
    /// Receives `split.dev`; all zero when the token has no such address.
    pub dev_to: Address,
    /// Receives `split.future`; all zero when the token has no such address.
    pub future_to: Address,
    /// Receives `split.remaining`; all zero when nothing is staked.
    pub stake_to: Address,
}

/// Why a distribution failed, and what had been paid when it did.
#[derive(Clone, Copy, Debug, PartialEq, Eq)]
pub struct TaxFailure {
    pub kind: ErrorKind,
    /// `None` when the failure came before any payment.
    pub paid: Option<TaxPayout>,
}

/// Takes `percent` per cent of `amount` out of `remaining`: the part and what
/// is left. `Overflow` when `amount * percent` does not fit in 256 bits,
/// `Underflow` when the part is more than what remains.
pub open spec fn take_share(remaining: nat, amount: nat, percent: nat) -> Result<
    (nat, nat),
    ErrorKind,
> {
    if amount * percent >= amount_limit() {
        Err(ErrorKind::Overflow)
    } else if amount * percent / 100 > remaining {
        Err(ErrorKind::Underflow)
    } else {
        Ok((amount * percent / 100, (remaining - amount * percent / 100) as nat))
    }
}

/// The parts of `amount`: the global developer fee first, then what is
/// burnt, the developers' part and the part for the future, each a percentage
/// of `amount` itself and taken from what the parts before it left.
pub open spec fn split_outcome(distribution: Distribution, global_fee: nat, amount: nat) -> Result<
    TaxShares,
    ErrorKind,
> {
    match take_share(amount, amount, global_fee) {
        Err(e) => Err(e),
        Ok((global_dev, after_global)) => match take_share(
            after_global,
            amount,
            distribution.burn as nat,
        ) {
            Err(e) => Err(e),
            Ok((burn, after_burn)) => match take_share(after_burn, amount, distribution.dev as nat) {
                Err(e) => Err(e),
                Ok((dev, after_dev)) => match take_share(
                    after_dev,
                    amount,
                    distribution.future as nat,
                ) {
                    Err(e) => Err(e),
                    Ok((future, remaining)) => Ok(
                        TaxShares { global_dev, burn, dev, future, remaining },
                    ),
                },
            },
        },
    }
}

/// Trusted: `U256::overflowing_mul` of `bigint` returns the low 256 bits of
/// the product and whether the product needed more; the product itself is
/// handed on when it did not.
#[verifier::external_body]
fn product(a: &Amount, b: &Amount) -> (p: Option<Amount>)
    ensures
        match p {
            Some(p) => p@ == a@ * b@,
            None => a@ * b@ >= amount_limit(),
        },
{
    match U256(a.limbs).overflowing_mul(U256(b.limbs)) {
        (p, false) => Some(Amount { limbs: p.0 }),
        (_, true) => None,
    }
}

/// Trusted: `/` of `bigint::U256` is the integer quotient by a divisor that
/// is not zero.
#[verifier::external_body]
fn quotient(a: &Amount, b: &Amount) -> (q: Amount)
    requires
        b@ != 0,
    ensures
        q@ == a@ / b@,
{
    Amount { limbs: (U256(a.limbs) / U256(b.limbs)).0 }
}

/// Trusted: `U256::overflowing_sub` of `bigint` returns the difference
/// modulo `2^256` and whether the second number was the larger; the
/// difference itself is handed on when it was not.
#[verifier::external_body]
fn difference(a: &Amount, b: &Amount) -> (d: Option<Amount>)
    ensures
        match d {
            Some(d) => d@ == a@ - b@,
            None => a@ < b@,
        },
{
    match U256(a.limbs).overflowing_sub(U256(b.limbs)) {
        (d, false) => Some(Amount { limbs: d.0 }),
        (_, true) => None,
    }
}

/// Trusted: `<` of `bigint::U256` compares the words from the most
/// significant down, which is the order of the numbers.
#[verifier::external_body]
fn is_below(a: &Amount, b: &Amount) -> (below: bool)
    ensures
        below == (a@ < b@),
{
    U256(a.limbs) < U256(b.limbs)
}

/// Whether `share` and `left` are what `outcome` says was taken and left.
pub open spec fn taken(share: Amount, left: Amount, outcome: Result<(nat, nat), ErrorKind>)
    -> bool {
    outcome == Ok::<(nat, nat), ErrorKind>((share@, left@))
}

/// Takes `percent` per cent of `amount` out of `remaining`.
fn take(remaining: &Amount, amount: &Amount, percent: &Amount) -> (parts: Result<
    (Amount, Amount),
    ErrorKind,
>)
    ensures
        match parts {
            Ok((share, left)) => taken(share, left, take_share(remaining@, amount@, percent@)),
            Err(e) => take_share(remaining@, amount@, percent@) == Err::<(nat, nat), ErrorKind>(e),
        },
{
    let scaled = match product(amount, percent) {
        None => {
            return Err(ErrorKind::Overflow);
        },
        Some(scaled) => scaled,
    };
    let share = quotient(&scaled, &Amount::from_u64(100));
    match difference(remaining, &share) {
        None => Err(ErrorKind::Underflow),
        Some(left) => Ok((share, left)),
    }
}

/// The parts of `amount` under `distribution` and the global developer fee
/// `global_dev_fee_per_100`.
pub fn split_tax(distribution: &Distribution, global_dev_fee_per_100: &Amount, amount: &Amount)
    -> (split: Result<TaxSplit, ErrorKind>)
    ensures
        match split {
            Ok(s) => split_outcome(*distribution, global_dev_fee_per_100@, amount@) == Ok::<
                TaxShares,
                ErrorKind,
            >(s@),
            Err(e) => split_outcome(*distribution, global_dev_fee_per_100@, amount@) == Err::<
                TaxShares,
                ErrorKind,
            >(e),
        },
{
    let (global_dev, after_global) = match take(amount, amount, global_dev_fee_per_100) {
        Err(e) => {
            return Err(e);
        },
        Ok(parts) => parts,
    };
    let (burn, after_burn) = match take(
        &after_global,
        amount,
        &Amount::from_u64(distribution.burn as u64),
    ) {
        Err(e) => {
            return Err(e);
        },
        Ok(parts) => parts,
    };
    let (dev, after_dev) = match take(
        &after_burn,
        amount,
        &Amount::from_u64(distribution.dev as u64),
    ) {
        Err(e) => {
            return Err(e);
        },
        Ok(parts) => parts,
    };
    let (future, remaining) = match take(
        &after_dev,
        amount,
        &Amount::from_u64(distribution.future as u64),
    ) {
        Err(e) => {
            return Err(e);
        },
        Ok(parts) => parts,
    };
    Ok(TaxSplit { global_dev, burn, dev, future, remaining })
}

/// What the distributor holds, as mathematics.
pub struct TaxState<D> {
    /// The percentages of each configured token.
    pub distribution: Map<Seq<u8>, Distribution>,
    /// The reward distributor bound to each token.
    pub reward_distributor: Map<Seq<u8>, D>,
    /// The developers' address of each token.
    pub dev_address: Map<Seq<u8>, Seq<u8>>,
    /// The address for the future of each token.
    pub future_address: Map<Seq<u8>, Seq<u8>>,
    /// The global developers' address.
    pub global_dev_address: Seq<u8>,
    /// The global developer fee, in per cent; zero while unset.
    pub global_dev_fee_per_100: nat,
}

/// What `set_default_distribution` does: the zero token is refused as
/// `InvalidInput`, percentages that do not add up to 100 as
/// `BadPercentageSum`; else they become the distribution of the token.
pub open spec fn set_default_distribution_outcome<D>(
    state: TaxState<D>,
    token: Seq<u8>,
    stake: u8,
    burn: u8,
    dev: u8,
    future: u8,
) -> Result<TaxState<D>, ErrorKind> {
    if is_zero_bytes(token) {
        Err(ErrorKind::InvalidInput)
    } else if stake + burn + dev + future != 100 {
        Err(ErrorKind::BadPercentageSum)
    } else {
        Ok(
            TaxState {
                distribution: state.distribution.insert(
                    token,
                    Distribution { stake, burn, future, dev },
                ),
                ..state
            },
        )
    }
}

/// What binding a reward distributor does, given the address `probe` that it
/// rolled: the zero token and a distributor that rolls the zero address are
/// refused; else the distributor is bound to the token.
pub open spec fn bind_outcome<D>(
    state: TaxState<D>,
    token: Seq<u8>,
    distributor: D,
    probe: Seq<u8>,
) -> Result<TaxState<D>, ErrorKind> {
    if is_zero_bytes(token) || is_zero_bytes(probe) {
        Err(ErrorKind::InvalidInput)
    } else {
        Ok(
            TaxState {
                reward_distributor: state.reward_distributor.insert(token, distributor),
                ..state
            },
        )
    }
}

/// The address stored for `token` in `addresses`, and 32 zero bytes when there
/// is none.
pub open spec fn recipient(addresses: Map<Seq<u8>, Seq<u8>>, token: Seq<u8>) -> Seq<u8> {
    if addresses.contains_key(token) {
        addresses[token]
    } else {
        Seq::new(32, |i: int| 0u8)
    }
}

/// What can be worked out of a distribution before the reward distributor is
/// asked: the parts of `amount`.
/// - `UnknownToken` when the token has no distribution.
/// - Else what `split_outcome` fails with.
/// - Else `UnknownToken` when there is a stake and no reward distributor.
pub open spec fn plan_outcome<D>(state: TaxState<D>, token: Seq<u8>, amount: nat) -> Result<
    TaxShares,
    ErrorKind,
> {
    if !state.distribution.contains_key(token) {
        Err(ErrorKind::UnknownToken)
    } else {
        match split_outcome(state.distribution[token], state.global_dev_fee_per_100, amount) {
            Err(e) => Err(e),
            Ok(shares) => if state.distribution[token].stake != 0
                && !state.reward_distributor.contains_key(token) {
                Err(ErrorKind::UnknownToken)
            } else {
                Ok(shares)
            },
        }
    }
}

/// Whether `payout` pays the parts `shares` of a tax on `token` to the
/// recipients that `state` names, and the stake to `stake_to`.
pub open spec fn pays<D>(
    payout: TaxPayout,
    state: TaxState<D>,
    token: Seq<u8>,
    shares: TaxShares,
    stake_to: Seq<u8>,
) -> bool {
    &&& payout.split@ == shares
    &&& payout.global_dev_to@ == state.global_dev_address
    &&& payout.dev_to@ == recipient(state.dev_address, token)
    &&& payout.future_to@ == recipient(state.future_address, token)
    &&& payout.stake_to@ == stake_to
}

/// Whether the distribution of a tax of `amount` on `token` can be planned,
/// and `payout` pays the planned parts to the configured recipients (and the
/// stake to the address that it names).
pub open spec fn as_planned<D>(payout: TaxPayout, state: TaxState<D>, token: Seq<u8>, amount: nat)
    -> bool {
    plan_outcome(state, token, amount) is Ok && pays(
        payout,
        state,
        token,
        plan_outcome(state, token, amount)->Ok_0,
        payout.stake_to@,
    )
}

/// What becomes of a payout once the reward distributor has rolled
/// `stake_address` and, if that is not the zero address, has answered
/// `rewards_updated` to the update:
/// - the zero address: nothing is staked, and `rewards_updated` counts for
///   nothing;
/// - else the stake goes to `stake_address`, and the distribution fails as
///   `StakingUpdateFailed`, with everything paid, when the update was refused.
pub open spec fn stake_outcome(payout: TaxPayout, stake_address: Address, rewards_updated: bool)
    -> Result<TaxPayout, TaxFailure> {
    if is_zero_bytes(stake_address@) {
        Ok(TaxPayout { stake_to: stake_address, ..payout })
    } else if rewards_updated {
        Ok(TaxPayout { stake_to: stake_address, ..payout })
    } else {
        Err(
            TaxFailure {
                kind: ErrorKind::StakingUpdateFailed,
                paid: Some(TaxPayout { stake_to: stake_address, ..payout }),
            },
        )
    }
}

/// Completes `payout` with what the reward distributor answered: see
/// `stake_outcome`.
pub fn settle_stake(payout: TaxPayout, stake_address: Address, rewards_updated: bool) -> (settled:
    Result<TaxPayout, TaxFailure>)
    ensures
        settled == stake_outcome(payout, stake_address, rewards_updated),
{
    let staked = TaxPayout {
        split: payout.split,
        global_dev_to: payout.global_dev_to,
        dev_to: payout.dev_to,
        future_to: payout.future_to,
        stake_to: stake_address,
    };
    if is_zero_address(&stake_address) || rewards_updated {
        Ok(staked)
    } else {
        Err(TaxFailure { kind: ErrorKind::StakingUpdateFailed, paid: Some(staked) })
    }
}

/// The tax distributor, over the reward distributors `D` of its tokens.
pub struct TaxDistributor<D> {
    distribution: Registry<Address, Distribution>,
    reward_distributor: Registry<Address, D>,
    dev_address: Registry<Address, Address>,
    future_address: Registry<Address, Address>,
    global_dev_address: Address,
    global_dev_fee_per_100: Amount,
}

impl<D> View for TaxDistributor<D> where D: IRewardDistributor {
    type V = TaxState<D>;

    closed spec fn view(&self) -> TaxState<D> {
        TaxState {
            distribution: self.distribution@,
            reward_distributor: self.reward_distributor@,
            dev_address: self.dev_address@.map_values(|a: Address| a@),
            future_address: self.future_address@.map_values(|a: Address| a@),
            global_dev_address: self.global_dev_address@,
            global_dev_fee_per_100: self.global_dev_fee_per_100@,
        }
    }
}

impl<D> TaxDistributor<D> where D: IRewardDistributor {
    /// A distributor with nothing configured and no global developer fee.
    pub fn default() -> (fresh: Self)
        ensures
            fresh@.distribution == Map::<Seq<u8>, Distribution>::empty(),
            fresh@.reward_distributor == Map::<Seq<u8>, D>::empty(),
            fresh@.dev_address == Map::<Seq<u8>, Seq<u8>>::empty(),
            fresh@.future_address == Map::<Seq<u8>, Seq<u8>>::empty(),
            is_zero_bytes(fresh@.global_dev_address),
            fresh@.global_dev_fee_per_100 == 0,
    {
        let fresh = TaxDistributor {
            distribution: Registry::new(),
            reward_distributor: Registry::new(),
            dev_address: Registry::new(),
            future_address: Registry::new(),
            global_dev_address: zero_address(),
            global_dev_fee_per_100: Amount::from_u64(0),
        };
        assert(fresh@.dev_address =~= Map::<Seq<u8>, Seq<u8>>::empty());
        assert(fresh@.future_address =~= Map::<Seq<u8>, Seq<u8>>::empty());
        fresh
    }

    /// Binds `rwrd_distributor` to `token`, given the address `probe` that it
    /// rolled for the caller: see `bind_outcome`.
    pub fn bind_reward_distributor(&mut self, token: Address, rwrd_distributor: D, probe: Address)
        -> (done: Result<(), ErrorKind>)
        ensures
            match done {
                Ok(_) => bind_outcome(old(self)@, token@, rwrd_distributor, probe@) == Ok::<
                    TaxState<D>,
                    ErrorKind,
                >(final(self)@),
                Err(e) => bind_outcome(old(self)@, token@, rwrd_distributor, probe@) == Err::<
                    TaxState<D>,
                    ErrorKind,
                >(e) && final(self)@ == old(self)@,
            },
    {
        if is_zero_address(&token) || is_zero_address(&probe) {
            return Err(ErrorKind::InvalidInput);
        }
        self.reward_distributor.insert(token, rwrd_distributor);
        Ok(())
    }

    /// Binds `rwrd_distributor` to `token`, after asking it to roll an
    /// address for `sender`. The zero token is refused; so is a distributor
    /// that rolls the zero address. Nothing else can fail.
    pub fn set_reward_distributor(&mut self, sender: Address, token: Address, rwrd_distributor: D)
        -> (done: Result<(), ErrorKind>)
        ensures
            match done {
                Ok(_) => !is_zero_bytes(token@) && final(self)@ == (TaxState {
                    reward_distributor: old(self)@.reward_distributor.insert(
                        token@,
                        rwrd_distributor,
                    ),
                    ..old(self)@
                }),
                Err(e) => e == ErrorKind::InvalidInput && final(self)@ == old(self)@,
            },
            is_zero_bytes(token@) ==> done is Err,
    {
        if is_zero_address(&token) {
            return Err(ErrorKind::InvalidInput);
        }
        let probe = rwrd_distributor.roll_and_get_distribution_address(sender);
        self.bind_reward_distributor(token, rwrd_distributor, probe)
    }

    /// Sets the developers' address of `token`; the zero token is refused.
    /// The address itself may be the zero address.
    pub fn set_dev_address(&mut self, token: Address, dev_addr: Address) -> (done: Result<
        (),
        ErrorKind,
    >)
        ensures
            match done {
                Ok(_) => !is_zero_bytes(token@) && final(self)@ == (TaxState {
                    dev_address: old(self)@.dev_address.insert(token@, dev_addr@),
                    ..old(self)@
                }),
                Err(e) => is_zero_bytes(token@) && e == ErrorKind::InvalidInput && final(self)@
                    == old(self)@,
            },
    {
        if is_zero_address(&token) {
            return Err(ErrorKind::InvalidInput);
        }
        self.dev_address.insert(token, dev_addr);
        assert(final(self)@.dev_address =~= old(self)@.dev_address.insert(token@, dev_addr@));
        Ok(())
    }

    /// Sets the global developers' address and fee; a fee below
    /// `DEV_FEE_MIN_AMOUNT` is refused.
    pub fn set_global_dev_address(&mut self, dev_add: Address, dev_fee_per_100: Amount) -> (done:
        Result<(), ErrorKind>)
        ensures
            match done {
                Ok(_) => dev_fee_per_100@ >= 100 && final(self)@ == (TaxState {
                    global_dev_address: dev_add@,
                    global_dev_fee_per_100: dev_fee_per_100@,
                    ..old(self)@
                }),
                Err(e) => dev_fee_per_100@ < 100 && e == ErrorKind::InvalidInput && final(self)@
                    == old(self)@,
            },
    {
        if is_below(&dev_fee_per_100, &Amount::from_u64(DEV_FEE_MIN_AMOUNT as u64)) {
            return Err(ErrorKind::InvalidInput);
        }
        self.global_dev_address = dev_add;
        self.global_dev_fee_per_100 = dev_fee_per_100;
        Ok(())
    }

    /// Sets the address for the future of `token`; the zero token is refused.
    pub fn set_future_address(&mut self, token: Address, fut_addr: Address) -> (done: Result<
        (),
        ErrorKind,
    >)
        ensures
            match done {
                Ok(_) => !is_zero_bytes(token@) && final(self)@ == (TaxState {
                    future_address: old(self)@.future_address.insert(token@, fut_addr@),
                    ..old(self)@
                }),
                Err(e) => is_zero_bytes(token@) && e == ErrorKind::InvalidInput && final(self)@
                    == old(self)@,
            },
    {
        if is_zero_address(&token) {
            return Err(ErrorKind::InvalidInput);
        }
        self.future_address.insert(token, fut_addr);
        assert(final(self)@.future_address =~= old(self)@.future_address.insert(
            token@,
            fut_addr@,
        ));
        Ok(())
    }

    /// Sets the percentages of `token`: see
    /// `set_default_distribution_outcome`.
    pub fn set_default_distribution(
        &mut self,
        token: Address,
        stake: u8,
        burn: u8,
        dev: u8,
        future: u8,
    ) -> (done: Result<(), ErrorKind>)
        ensures
            match done {
                Ok(_) => set_default_distribution_outcome(
                    old(self)@,
                    token@,
                    stake,
                    burn,
                    dev,
                    future,
                ) == Ok::<TaxState<D>, ErrorKind>(final(self)@),
                Err(e) => set_default_distribution_outcome(
                    old(self)@,
                    token@,
                    stake,
                    burn,
                    dev,
                    future,
                ) == Err::<TaxState<D>, ErrorKind>(e) && final(self)@ == old(self)@,
            },
    {
        if is_zero_address(&token) {
            return Err(ErrorKind::InvalidInput);
        }
        let sum: u32 = stake as u32 + burn as u32 + dev as u32 + future as u32;
        if sum != 100 {
            return Err(ErrorKind::BadPercentageSum);
        }
        self.distribution.insert(token, Distribution { stake, burn, future, dev });
        Ok(())
    }

    /// The percentages of `token`, if they are set.
    pub fn distribution_of(&self, token: &Address) -> (distribution: Option<Distribution>)
        ensures
            match distribution {
                Some(d) => self@.distribution.contains_key(token@) && d
                    == self@.distribution[token@],
                None => !self@.distribution.contains_key(token@),
            },
    {
        match self.distribution.get(token) {
            Some(d) => Some(*d),
            None => None,
        }
    }

    /// The address stored for `token` in `addresses`, or the zero address.
    fn recipient_of(addresses: &Registry<Address, Address>, token: &Address) -> (to: Address)
        ensures
            to@ == recipient(addresses@.map_values(|a: Address| a@), token@),
    {
        match addresses.get(token) {
            Some(to) => *to,
            None => {
                let zero = [0u8; 32];
                assert(zero@ =~= Seq::new(32, |i: int| 0u8));
                zero
            },
        }
    }

    /// Works out what a tax of `amount` on `token` pays to whom, with
    /// `sender` as the one whose stake it is.
    ///
    /// Whatever the reward distributor answers:
    /// - a failure without payment is exactly what `plan_outcome` fails
    ///   with;
    /// - a payout pays the parts that `plan_outcome` gives to the configured
    ///   recipients; without a stake percentage nothing is staked and the
    ///   distribution succeeds;
    /// - a failure with payment is `StakingUpdateFailed`, comes only with a
    ///   stake percentage and a stake address that is not zero, and reports
    ///   the same payout as paid.
    pub fn distribute_tax(&self, sender: Address, token: Address, amount: Amount) -> (paid: Result<
        TaxPayout,
        TaxFailure,
    >)
        ensures
            match paid {
                Ok(payout) => as_planned(payout, self@, token@, amount@) && (
                self@.distribution[token@].stake == 0 ==> is_zero_bytes(payout.stake_to@)),
                Err(failure) => match failure.paid {
                    None => plan_outcome(self@, token@, amount@) == Err::<TaxShares, ErrorKind>(
                        failure.kind,
                    ),
                    Some(payout) => failure.kind == ErrorKind::StakingUpdateFailed && as_planned(
                        payout,
                        self@,
                        token@,
                        amount@,
                    ) && self@.distribution[token@].stake != 0 && !is_zero_bytes(payout.stake_to@),
                },
            },
    {
        let distribution = match self.distribution.get(&token) {
            None => {
                return Err(TaxFailure { kind: ErrorKind::UnknownToken, paid: None });
            },
            Some(distribution) => *distribution,
        };
        let split = match split_tax(&distribution, &self.global_dev_fee_per_100, &amount) {
            Err(kind) => {
                return Err(TaxFailure { kind, paid: None });
            },
            Ok(split) => split,
        };
        let payout = TaxPayout {
            split,
            global_dev_to: self.global_dev_address,
            dev_to: Self::recipient_of(&self.dev_address, &token),
            future_to: Self::recipient_of(&self.future_address, &token),
            stake_to: zero_address(),
        };
        if distribution.stake == 0 {
            return Ok(payout);
        }
        let reward_distributor = match self.reward_distributor.get(&token) {
            None => {
                return Err(TaxFailure { kind: ErrorKind::UnknownToken, paid: None });
            },
            Some(reward_distributor) => reward_distributor,
        };
        let stake_address = reward_distributor.roll_and_get_distribution_address(sender);
        let rewards_updated = is_zero_address(&stake_address) || reward_distributor.update_rewards(
            stake_address,
        );
        settle_stake(payout, stake_address, rewards_updated)
    }
}

/// The parts and the remainder of a split add up to the amount: nothing is
/// lost and nothing is made.
pub proof fn lemma_shares_add_up(distribution: Distribution, global_fee: nat, amount: nat)
    requires
        split_outcome(distribution, global_fee, amount) is Ok,
    ensures
        ({
            let shares = split_outcome(distribution, global_fee, amount)->Ok_0;
            shares.global_dev + shares.burn + shares.dev + shares.future + shares.remaining
                == amount
        }),
{
}

/// Each part of a split is its percentage of the whole amount, whatever
/// was taken before it.
pub proof fn lemma_shares_are_of_the_whole(
    distribution: Distribution,
    global_fee: nat,
    amount: nat,
)
    requires
        split_outcome(distribution, global_fee, amount) is Ok,
    ensures
        ({
            let shares = split_outcome(distribution, global_fee, amount)->Ok_0;
            &&& shares.global_dev == amount * global_fee / 100
            &&& shares.burn == amount * (distribution.burn as nat) / 100
            &&& shares.dev == amount * (distribution.dev as nat) / 100
            &&& shares.future == amount * (distribution.future as nat) / 100
        }),
{
}

/// Percentages that add up to exactly 100 are accepted for every token but
/// the zero address.
pub proof fn lemma_sum_of_100_is_accepted<D>(
    state: TaxState<D>,
    token: Seq<u8>,
    stake: u8,
    burn: u8,
    dev: u8,
    future: u8,
)
    requires
        !is_zero_bytes(token),
        stake + burn + dev + future == 100,
    ensures
        set_default_distribution_outcome(state, token, stake, burn, dev, future) is Ok,
{
}

} // verus!
