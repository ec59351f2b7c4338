//! The bridge pool: liquidity per token and provider, swap fees, and
//! withdrawals released against a signature of the trusted signer.
//!
//! The pool moves no tokens itself. Each operation changes the pool's own
//! records and says what is to be moved: the caller moves it. Where tokens
//! leave custody (`remove_liquidity_ifpossible`, `withdraw_signed`) the
//! records are changed first, so the caller's transfer comes after them.
//!
//! What the pool holds is modelled by `PoolState`, and what each operation does
//! by a function from a state and the arguments to the outcome
//! (`add_liquidity_outcome`, `withdraw_outcome`, ...). The laws at the end of
//! the module are stated over those functions.

use crate::address::{is_zero_address, is_zero_bytes, zero_address, Address};
use crate::amount::{amount_limit, be_bytes32, Amount};
use crate::crypto_utils::{keccak256_digest, keccak_v256, signer_outcome, CryptoUtils};
use crate::error::ErrorKind;
use crate::registry::Registry;
use vstd::prelude::*;

verus! {

/// The name and the version of this pool: `FERRUM_TOKEN_BRIDGE_POOL` and
/// `000.001` in ASCII. Every withdrawal digest starts with them.
pub const DOMAIN_SEPARATOR: [u8; 31] = [
    70, 69, 82, 82, 85, 77, 95, 84, 79, 75, 69, 78, 95, 66, 82, 73, 68, 71, 69, 95, 80, 79, 79, 76,
    48, 48, 48, 46, 48, 48, 49,
];

/// Fees are given in parts of this many.
pub const FEE_DENOMINATOR: u64 = 10000;

/// The fee of a token, in parts of 10000: never more than 10000.
#[derive(Clone, Copy, Debug)]
pub struct FeeRate {
    parts: u16,
}

impl View for FeeRate {
    type V = nat;

    closed spec fn view(&self) -> nat {
        self.parts as nat
    }
}

impl FeeRate {
    #[verifier::type_invariant]
    spec fn in_range(self) -> bool {
        self.parts <= 10000
    }

    /// The rate `fee_10000`, unless it is above 10000.
    pub fn new(fee_10000: &Amount) -> (rate: Option<FeeRate>)
        ensures
            match rate {
                Some(r) => r@ == fee_10000@ && fee_10000@ <= 10000,
                None => fee_10000@ > 10000,
            },
    {
        let limit = Amount::from_u64(FEE_DENOMINATOR);
        if limit.less_than(fee_10000) {
            return None;
        }
        proof {
            lemma_small_amount(*fee_10000);
        }
        Some(FeeRate { parts: fee_10000.limbs[0] as u16 })
    }

    /// The rate as an amount.
    pub fn amount(&self) -> (a: Amount)
        ensures
            a@ == self@,
            a@ <= 10000,
    {
        proof {
            use_type_invariant(self);
        }
        Amount::from_u64(self.parts as u64)
    }
}

/// An amount below `2^64` is its lowest word.
proof fn lemma_small_amount(a: Amount)
    requires
        a@ < 0x1_0000_0000_0000_0000,
    ensures
        a@ == a.limbs[0],
{
    let w = 0x1_0000_0000_0000_0000int;
    let rest = a.limbs[1] as int + w * (a.limbs[2] as int + w * (a.limbs[3] as int));
    assert(rest >= 0) by (nonlinear_arith)
        requires
            rest == a.limbs[1] as int + w * (a.limbs[2] as int + w * (a.limbs[3] as int)),
            w > 0,
            a.limbs[1] >= 0,
            a.limbs[2] >= 0,
            a.limbs[3] >= 0,
    ;
    assert(rest == 0) by (nonlinear_arith)
        requires
            rest >= 0,
            w > 0,
            a.limbs[0] >= 0,
            a.limbs[0] as int + w * rest < w,
    ;
}

/// What the pool holds, as mathematics.
pub struct PoolState {
    /// The address of the trusted signer; all zero while unset.
    pub signer: Seq<u8>,
    /// The fee distributor; all zero when none is configured.
    pub fee_distributor: Seq<u8>,
    /// The fee of each configured token, in parts of 10000.
    pub fees: Map<Seq<u8>, nat>,
    /// The tracked balance of each position, keyed by token and provider.
    pub liquidity: Map<(Seq<u8>, Seq<u8>), nat>,
    /// The withdrawal digests that have been consumed.
    pub used: Set<Seq<u8>>,
}

impl PoolState {
    /// The tracked balance of `provider` in `token`: zero for a position
    /// that was never credited.
    pub open spec fn balance(self, token: Seq<u8>, provider: Seq<u8>) -> nat {
        if self.liquidity.contains_key((token, provider)) {
            self.liquidity[(token, provider)]
        } else {
            0
        }
    }

    /// This state with the balance of one position replaced.
    pub open spec fn with_balance(self, token: Seq<u8>, provider: Seq<u8>, balance: nat)
        -> PoolState {
        PoolState { liquidity: self.liquidity.insert((token, provider), balance), ..self }
    }
}

/// Adding or removing liquidity is refused outright when the amount is zero
/// and the token is the zero address, both at once.
pub open spec fn rejected_input(token: Seq<u8>, amount: nat) -> bool {
    amount == 0 && is_zero_bytes(token)
}

/// What `set_signer` does: the zero address is refused, any other becomes
/// the trusted signer.
pub open spec fn set_signer_outcome(state: PoolState, signer: Seq<u8>) -> Result<
    PoolState,
    ErrorKind,
> {
    if is_zero_bytes(signer) {
        Err(ErrorKind::InvalidInput)
    } else {
        Ok(PoolState { signer: signer, ..state })
    }
}

/// What `set_fee` does: the zero token and a fee above 10000 are refused,
/// else the fee of the token is set.
pub open spec fn set_fee_outcome(state: PoolState, token: Seq<u8>, fee_10000: nat) -> Result<
    PoolState,
    ErrorKind,
> {
    if is_zero_bytes(token) || fee_10000 > 10000 {
        Err(ErrorKind::InvalidInput)
    } else {
        Ok(PoolState { fees: state.fees.insert(token, fee_10000), ..state })
    }
}

/// What `add_liquidity` does: the new state, or why nothing changed.
pub open spec fn add_liquidity_outcome(
    state: PoolState,
    sender: Seq<u8>,
    token: Seq<u8>,
    amount: nat,
) -> Result<PoolState, ErrorKind> {
    if rejected_input(token, amount) {
        Err(ErrorKind::InvalidInput)
    } else if state.balance(token, sender) + amount >= amount_limit() {
        Err(ErrorKind::Overflow)
    } else {
        Ok(state.with_balance(token, sender, state.balance(token, sender) + amount))
    }
}

/// What `remove_liquidity_ifpossible` does: the new state and the amount
/// that leaves custody, or why nothing changed. The request is refused unless
/// the tracked balance is strictly above it; what leaves is the request, cut
/// down to what the pool has on hand.
pub open spec fn remove_liquidity_outcome(
    state: PoolState,
    sender: Seq<u8>,
    token: Seq<u8>,
    amount: nat,
    on_hand: nat,
) -> Result<(PoolState, nat), ErrorKind> {
    if rejected_input(token, amount) {
        Err(ErrorKind::InvalidInput)
    } else if state.balance(token, sender) <= amount {
        Err(ErrorKind::InsufficientLiquidity)
    } else {
        let actual = if on_hand > amount {
            amount
        } else {
            on_hand
        };
        Ok(
            (
                state.with_balance(token, sender, (state.balance(token, sender) - actual) as nat),
                actual,
            ),
        )
    }
}

/// What a swap of `amount` of `token` comes to: the amount that enters
/// custody and the fee.
/// - Without a fee for `token`: `UnknownToken`.
/// - With no fee distributor configured, the fee is `amount * fee / 10000`
///   rounded down (`Overflow` when the product does not fit), and the rest
///   enters custody.
/// - With a fee distributor configured, no fee is taken.
pub open spec fn swap_amounts(state: PoolState, token: Seq<u8>, amount: nat) -> Result<
    (nat, nat),
    ErrorKind,
> {
    if !state.fees.contains_key(token) {
        Err(ErrorKind::UnknownToken)
    } else if !is_zero_bytes(state.fee_distributor) {
        Ok((amount, 0nat))
    } else if amount * state.fees[token] >= amount_limit() {
        Err(ErrorKind::Overflow)
    } else {
        let fee = amount * state.fees[token] / 10000;
        Ok(((amount - fee) as nat, fee))
    }
}

/// The bytes that are hashed into a withdrawal digest: the domain separator,
/// then token, payee, the amount as 32 bytes (most significant first), and the
/// salt.
pub open spec fn withdrawal_preimage(token: Seq<u8>, payee: Seq<u8>, amount: nat, salt: Seq<u8>)
    -> Seq<u8> {
    DOMAIN_SEPARATOR@ + token + payee + be_bytes32(amount) + salt
}

/// The digest that authorizes one withdrawal.
pub open spec fn withdrawal_digest(token: Seq<u8>, payee: Seq<u8>, amount: nat, salt: Seq<u8>)
    -> Seq<u8> {
    keccak256_digest(withdrawal_preimage(token, payee, amount, salt))
}

/// A 20-byte address as the pool stores it: 12 zero bytes, then the address.
pub open spec fn padded_address(address: Seq<u8>) -> Seq<u8> {
    Seq::new(
        32,
        |i: int|
            if i < 12 {
                0u8
            } else {
                address[i - 12]
            },
    )
}

/// What `withdraw_signed` does: the new state and the digest, or why nothing
/// changed.
/// - A digest that was consumed before: `AlreadyUsed`.
/// - Else what recovering the signer fails with (`WrongSignatureLength`,
///   `InvalidSignature`, `RecoveryFailed`).
/// - Else `InvalidSigner` unless the signer is the trusted one.
/// - Else the digest is consumed.
pub open spec fn withdraw_outcome(
    state: PoolState,
    token: Seq<u8>,
    payee: Seq<u8>,
    amount: nat,
    salt: Seq<u8>,
    signature: Seq<u8>,
) -> Result<(PoolState, Seq<u8>), ErrorKind> {
    let digest = withdrawal_digest(token, payee, amount, salt);
    if state.used.contains(digest) {
        Err(ErrorKind::AlreadyUsed)
    } else {
        match signer_outcome(digest, signature) {
            Err(e) => Err(e),
            Ok(signer) => if padded_address(signer) != state.signer {
                Err(ErrorKind::InvalidSigner)
            } else {
                Ok((PoolState { used: state.used.insert(digest), ..state }, digest))
            },
        }
    }
}

/// The record of a swap, for those who watch the bridge.
#[derive(Clone, Copy, Debug, PartialEq, Eq)]
pub struct SwapRecord {
    pub from: Address,
    pub token: Address,
    pub target_network: Amount,
    pub target_token: Address,
    /// All zero when the swap names no target address.
    pub target_address: Address,
    /// What the caller is to move from `from` into custody.
    pub actual: Amount,
    /// The fee, which stays with the pool.
    pub fee: Amount,
}

/// The bridge pool.
pub struct BridgePool {
    signer: Address,
    used_hashes: Registry<[u8; 32], ()>,
    fees: Registry<Address, FeeRate>,
    fee_distributor: Address,
    liquidities: Registry<(Address, Address), Amount>,
}

impl View for BridgePool {
    type V = PoolState;

    closed spec fn view(&self) -> PoolState {
        PoolState {
            signer: self.signer@,
            fee_distributor: self.fee_distributor@,
            fees: self.fees@.map_values(|rate: FeeRate| rate@),
            liquidity: self.liquidities@.map_values(|balance: Amount| balance@),
            used: self.used_hashes@.dom(),
        }
    }
}

/// Whether the 32 bytes of `signer` are the 20 bytes of `recovered` behind
/// 12 zero bytes.
fn is_trusted_signer(signer: &Address, recovered: &Vec<u8>) -> (trusted: bool)
    requires
        recovered@.len() == 20,
    ensures
        trusted == (padded_address(recovered@) == signer@),
{
    let mut i: usize = 0;
    while i < 32
        invariant
            i <= 32,
            recovered@.len() == 20,
            forall|j: int| 0 <= j < i ==> padded_address(recovered@)[j] == signer[j],
        decreases 32 - i,
    {
        let expected = if i < 12 {
            0u8
        } else {
            recovered[i - 12]
        };
        if signer[i] != expected {
            assert(padded_address(recovered@)[i as int] != signer@[i as int]);
            return false;
        }
        i = i + 1;
    }
    assert(padded_address(recovered@) =~= signer@);
    true
}

/// The digest of a withdrawal, computed.
pub fn digest_of_withdrawal(token: &Address, payee: &Address, amount: &Amount, salt: &[u8; 32])
    -> (digest: [u8; 32])
    ensures
        digest@ == withdrawal_digest(token@, payee@, amount@, salt@),
{
    let mut preimage: Vec<u8> = Vec::with_capacity(159);
    preimage.extend_from_slice(DOMAIN_SEPARATOR.as_slice());
    preimage.extend_from_slice(token.as_slice());
    preimage.extend_from_slice(payee.as_slice());
    let amount_bytes = amount.to_be_bytes();
    preimage.extend_from_slice(amount_bytes.as_slice());
    preimage.extend_from_slice(salt.as_slice());
    assert(preimage@ == withdrawal_preimage(token@, payee@, amount@, salt@));
    keccak_v256(preimage.as_slice())
}

impl BridgePool {
    /// A pool with no signer, no fee distributor, no fees, no liquidity and
    /// no consumed digest.
    pub fn new() -> (pool: Self)
        ensures
            is_zero_bytes(pool@.signer),
            pool@.signer.len() == 32,
            is_zero_bytes(pool@.fee_distributor),
            pool@.fee_distributor.len() == 32,
            pool@.fees == Map::<Seq<u8>, nat>::empty(),
            pool@.liquidity == Map::<(Seq<u8>, Seq<u8>), nat>::empty(),
            pool@.used == Set::<Seq<u8>>::empty(),
    {
        let pool = BridgePool {
            signer: zero_address(),
            used_hashes: Registry::new(),
            fees: Registry::new(),
            fee_distributor: zero_address(),
            liquidities: Registry::new(),
        };
        assert(pool@.fees =~= Map::<Seq<u8>, nat>::empty());
        assert(pool@.liquidity =~= Map::<(Seq<u8>, Seq<u8>), nat>::empty());
        assert(pool@.used =~= Set::<Seq<u8>>::empty());
        pool
    }

    /// Names the trusted signer. The zero address is refused.
    pub fn set_signer(&mut self, signer: Address) -> (done: Result<(), ErrorKind>)
        ensures
            match done {
                Ok(_) => set_signer_outcome(old(self)@, signer@) == Ok::<PoolState, ErrorKind>(
                    final(self)@,
                ),
                Err(e) => set_signer_outcome(old(self)@, signer@) == Err::<PoolState, ErrorKind>(e)
                    && final(self)@ == old(self)@,
            },
    {
        if is_zero_address(&signer) {
            return Err(ErrorKind::InvalidInput);
        }
        self.signer = signer;
        Ok(())
    }

    /// Sets the fee of `token`, in parts of 10000. The zero token and a fee
    /// above 10000 are refused.
    pub fn set_fee(&mut self, token: Address, fee_10000: Amount) -> (done: Result<(), ErrorKind>)
        ensures
            match done {
                Ok(_) => set_fee_outcome(old(self)@, token@, fee_10000@) == Ok::<
                    PoolState,
                    ErrorKind,
                >(final(self)@),
                Err(e) => set_fee_outcome(old(self)@, token@, fee_10000@) == Err::<
                    PoolState,
                    ErrorKind,
                >(e) && final(self)@ == old(self)@,
            },
    {
        if is_zero_address(&token) {
            return Err(ErrorKind::InvalidInput);
        }
        match FeeRate::new(&fee_10000) {
            None => Err(ErrorKind::InvalidInput),
            Some(rate) => {
                self.fees.insert(token, rate);
                assert(final(self)@.fees =~= old(self)@.fees.insert(token@, fee_10000@));
                Ok(())
            },
        }
    }

    /// Names the fee distributor; the zero address means that there is none.
    pub fn set_fee_distributor(&mut self, fee_distributor: Address)
        ensures
            final(self)@ == (PoolState { fee_distributor: fee_distributor@, ..old(self)@ }),
    {
        self.fee_distributor = fee_distributor;
    }

    /// The fee of `token`, in parts of 10000, if one is set.
    pub fn fee(&self, token: &Address) -> (fee: Option<Amount>)
        ensures
            match fee {
                Some(f) => self@.fees.contains_key(token@) && f@ == self@.fees[token@] && f@
                    <= 10000,
                None => !self@.fees.contains_key(token@),
            },
    {
        match self.fees.get(token) {
            Some(rate) => Some(rate.amount()),
            None => None,
        }
    }

    /// A swap that names no target address.
    pub fn swap(
        &self,
        sender: Address,
        token: Address,
        amount: Amount,
        target_network: Amount,
        target_token: Address,
    ) -> (record: Result<SwapRecord, ErrorKind>)
        ensures
            match record {
                Ok(r) => swap_amounts(self@, token@, amount@) == Ok::<(nat, nat), ErrorKind>(
                    (r.actual@, r.fee@),
                ) && r.from == sender && r.token == token && r.target_network == target_network
                    && r.target_token == target_token && is_zero_bytes(r.target_address@),
                Err(e) => swap_amounts(self@, token@, amount@) == Err::<(nat, nat), ErrorKind>(e),
            },
    {
        self.swap_helper(sender, token, amount, target_network, target_token, zero_address())
    }

    /// A swap to `target_address`, which must not be the zero address.
    pub fn swap_to_address(
        &self,
        sender: Address,
        token: Address,
        amount: Amount,
        target_network: Amount,
        target_token: Address,
        target_address: Address,
    ) -> (record: Result<SwapRecord, ErrorKind>)
        ensures
            is_zero_bytes(target_address@) ==> record == Err::<SwapRecord, ErrorKind>(
                ErrorKind::MissingTargetAddress,
            ),
            !is_zero_bytes(target_address@) ==> match record {
                Ok(r) => swap_amounts(self@, token@, amount@) == Ok::<(nat, nat), ErrorKind>(
                    (r.actual@, r.fee@),
                ) && r.from == sender && r.token == token && r.target_network == target_network
                    && r.target_token == target_token && r.target_address == target_address,
                Err(e) => swap_amounts(self@, token@, amount@) == Err::<(nat, nat), ErrorKind>(e),
            },
    {
        if is_zero_address(&target_address) {
            return Err(ErrorKind::MissingTargetAddress);
        }
        self.swap_helper(sender, token, amount, target_network, target_token, target_address)
    }

    /// Works out what a swap comes to and records it. The pool's records do
    /// not change; the caller moves `actual` from `from` into custody.
    pub fn swap_helper(
        &self,
        from: Address,
        token: Address,
        amount: Amount,
        target_network: Amount,
        target_token: Address,
        target_address: Address,
    ) -> (record: Result<SwapRecord, ErrorKind>)
        ensures
            match record {
                Ok(r) => swap_amounts(self@, token@, amount@) == Ok::<(nat, nat), ErrorKind>(
                    (r.actual@, r.fee@),
                ) && r.from == from && r.token == token && r.target_network == target_network
                    && r.target_token == target_token && r.target_address == target_address,
                Err(e) => swap_amounts(self@, token@, amount@) == Err::<(nat, nat), ErrorKind>(e),
            },
    {
        let rate = match self.fees.get(&token) {
            None => {
                return Err(ErrorKind::UnknownToken);
            },
            Some(rate) => rate.amount(),
        };
        if !is_zero_address(&self.fee_distributor) {
            let record = SwapRecord {
                from,
                token,
                target_network,
                target_token,
                target_address,
                actual: amount,
                fee: Amount::zero(),
            };
            return Ok(record);
        }
        let product = match amount.checked_mul(&rate) {
            None => {
                return Err(ErrorKind::Overflow);
            },
            Some(product) => product,
        };
        let fee = match product.checked_div(&Amount::from_u64(FEE_DENOMINATOR)) {
            None => {
                return Err(ErrorKind::Overflow);
            },
            Some(fee) => fee,
        };
        // The fee is at most the amount, since the rate is at most 10000.
        assert(fee@ <= amount@) by (nonlinear_arith)
            requires
                fee@ == (amount@ * rate@) / 10000,
                rate@ <= 10000,
        ;
        let actual = match amount.checked_sub(&fee) {
            None => {
                return Err(ErrorKind::Underflow);
            },
            Some(actual) => actual,
        };
        Ok(SwapRecord { from, token, target_network, target_token, target_address, actual, fee })
    }

    /// The tracked balance of `liquidity_adder` in `token`; zero when there
    /// is no such position.
    pub fn liquidity(&self, token: Address, liquidity_adder: Address) -> (balance: Amount)
        ensures
            balance@ == self@.balance(token@, liquidity_adder@),
    {
        match self.liquidities.get(&(token, liquidity_adder)) {
            Some(balance) => *balance,
            None => Amount::zero(),
        }
    }

    /// Credits `amount` of `token` to the position of `sender`. The caller
    /// has moved the tokens into custody before.
    pub fn add_liquidity(&mut self, sender: Address, token: Address, amount: Amount) -> (done:
        Result<(), ErrorKind>)
        ensures
            match done {
                Ok(_) => add_liquidity_outcome(old(self)@, sender@, token@, amount@) == Ok::<
                    PoolState,
                    ErrorKind,
                >(final(self)@),
                Err(e) => add_liquidity_outcome(old(self)@, sender@, token@, amount@) == Err::<
                    PoolState,
                    ErrorKind,
                >(e) && final(self)@ == old(self)@,
            },
    {
        if amount.is_zero() && is_zero_address(&token) {
            return Err(ErrorKind::InvalidInput);
        }
        let balance = self.liquidity(token, sender);
        match balance.checked_add(&amount) {
            None => Err(ErrorKind::Overflow),
            Some(credited) => {
                self.liquidities.insert((token, sender), credited);
                assert(final(self)@.liquidity =~= old(self)@.liquidity.insert(
                    (token@, sender@),
                    credited@,
                ));
                Ok(())
            },
        }
    }

    /// Takes liquidity of `sender` in `token` out of the records and returns
    /// the amount that the caller is to move to `sender`: `amount`, or
    /// `on_hand` (what the pool physically holds of `token`) if that is less.
    /// The request is refused unless the tracked balance is strictly above
    /// `amount`.
    pub fn remove_liquidity_ifpossible(
        &mut self,
        sender: Address,
        token: Address,
        amount: Amount,
        on_hand: Amount,
    ) -> (removed: Result<Amount, ErrorKind>)
        ensures
            match removed {
                Ok(actual) => remove_liquidity_outcome(
                    old(self)@,
                    sender@,
                    token@,
                    amount@,
                    on_hand@,
                ) == Ok::<(PoolState, nat), ErrorKind>((final(self)@, actual@)),
                Err(e) => remove_liquidity_outcome(
                    old(self)@,
                    sender@,
                    token@,
                    amount@,
                    on_hand@,
                ) == Err::<(PoolState, nat), ErrorKind>(e) && final(self)@ == old(self)@,
            },
    {
        if amount.is_zero() && is_zero_address(&token) {
            return Err(ErrorKind::InvalidInput);
        }
        let balance = self.liquidity(token, sender);
        if !amount.less_than(&balance) {
            return Err(ErrorKind::InsufficientLiquidity);
        }
        let actual = if amount.less_than(&on_hand) {
            amount
        } else {
            on_hand
        };
        match balance.checked_sub(&actual) {
            None => Err(ErrorKind::Underflow),
            Some(left) => {
                self.liquidities.insert((token, sender), left);
                assert(final(self)@.liquidity =~= old(self)@.liquidity.insert(
                    (token@, sender@),
                    left@,
                ));
                Ok(actual)
            },
        }
    }

    /// Whether `digest` has been consumed by a withdrawal.
    pub fn is_used(&self, digest: &[u8; 32]) -> (used: bool)
        ensures
            used == self@.used.contains(digest@),
    {
        self.used_hashes.get(digest).is_some()
    }

    /// Releases `amount` of `token` to `payee` against a signature of the
    /// trusted signer over the digest of `(token, payee, amount, salt)`, once.
    /// On success the digest is consumed and returned, and the caller moves
    /// the tokens; on failure nothing changes.
    pub fn withdraw_signed(
        &mut self,
        token: Address,
        payee: Address,
        amount: Amount,
        salt: [u8; 32],
        signature: &[u8],
    ) -> (receipt: Result<[u8; 32], ErrorKind>)
        ensures
            match receipt {
                Ok(digest) => withdraw_outcome(
                    old(self)@,
                    token@,
                    payee@,
                    amount@,
                    salt@,
                    signature@,
                ) == Ok::<(PoolState, Seq<u8>), ErrorKind>((final(self)@, digest@)),
                Err(e) => withdraw_outcome(
                    old(self)@,
                    token@,
                    payee@,
                    amount@,
                    salt@,
                    signature@,
                ) == Err::<(PoolState, Seq<u8>), ErrorKind>(e) && final(self)@ == old(self)@,
            },
    {
        let digest = digest_of_withdrawal(&token, &payee, &amount, &salt);
        if self.is_used(&digest) {
            return Err(ErrorKind::AlreadyUsed);
        }
        let recovered = match CryptoUtils::new().recover(digest.as_slice(), signature) {
            Err(e) => {
                return Err(e);
            },
            Ok(recovered) => recovered,
        };
        if !is_trusted_signer(&self.signer, &recovered) {
            return Err(ErrorKind::InvalidSigner);
        }
        self.used_hashes.insert(digest, ());
        assert(final(self)@.used =~= old(self)@.used.insert(digest@));
        Ok(digest)
    }
}

// ---------------------------------------------------------------------------
// Laws
// ---------------------------------------------------------------------------
/// One call that can change the pool, with its arguments.
pub enum PoolCall {
    SetSigner { signer: Seq<u8> },
    SetFee { token: Seq<u8>, fee_10000: nat },
    SetFeeDistributor { fee_distributor: Seq<u8> },
    AddLiquidity { sender: Seq<u8>, token: Seq<u8>, amount: nat },
    RemoveLiquidity { sender: Seq<u8>, token: Seq<u8>, amount: nat, on_hand: nat },
    Withdraw {
        token: Seq<u8>,
        payee: Seq<u8>,
        amount: nat,
        salt: Seq<u8>,
        signature: Seq<u8>,
    },
}

/// The state after `call`: what the call's outcome says, and the state as it
/// was where the call fails.
pub open spec fn after_call(state: PoolState, call: PoolCall) -> PoolState {
    match call {
        PoolCall::SetSigner { signer } => match set_signer_outcome(state, signer) {
            Ok(next) => next,
            Err(_) => state,
        },
        PoolCall::SetFee { token, fee_10000 } => match set_fee_outcome(state, token, fee_10000) {
            Ok(next) => next,
            Err(_) => state,
        },
        PoolCall::SetFeeDistributor { fee_distributor } => PoolState {
            fee_distributor: fee_distributor,
            ..state
        },
        PoolCall::AddLiquidity { sender, token, amount } => match add_liquidity_outcome(
            state,
            sender,
            token,
            amount,
        ) {
            Ok(next) => next,
            Err(_) => state,
        },
        PoolCall::RemoveLiquidity {
            sender,
            token,
            amount,
            on_hand,
        } => match remove_liquidity_outcome(state, sender, token, amount, on_hand) {
            Ok((next, _)) => next,
            Err(_) => state,
        },
        PoolCall::Withdraw { token, payee, amount, salt, signature } => match withdraw_outcome(
            state,
            token,
            payee,
            amount,
            salt,
            signature,
        ) {
            Ok((next, _)) => next,
            Err(_) => state,
        },
    }
}

/// The state after the calls `calls`, made in order from `state`.
pub open spec fn after_calls(state: PoolState, calls: Seq<PoolCall>) -> PoolState
    decreases calls.len(),
{
    if calls.len() == 0 {
        state
    } else {
        after_call(after_calls(state, calls.drop_last()), calls.last())
    }
}

/// What `call`, made in `state`, credits to the position of `provider` in
/// `token`: the amount of a successful `add_liquidity` for that position.
pub open spec fn credit_of(state: PoolState, call: PoolCall, token: Seq<u8>, provider: Seq<u8>)
    -> nat {
    match call {
        PoolCall::AddLiquidity { sender, token: t, amount } => if sender == provider && t == token
            && add_liquidity_outcome(state, sender, t, amount) is Ok {
            amount
        } else {
            0
        },
        _ => 0,
    }
}

/// What `call`, made in `state`, debits from the position of `provider` in
/// `token`: the amount that a successful `remove_liquidity_ifpossible` for
/// that position returns.
pub open spec fn debit_of(state: PoolState, call: PoolCall, token: Seq<u8>, provider: Seq<u8>)
    -> nat {
    match call {
        PoolCall::RemoveLiquidity { sender, token: t, amount, on_hand } => if sender == provider
            && t == token {
            match remove_liquidity_outcome(state, sender, t, amount, on_hand) {
                Ok((_, actual)) => actual,
                Err(_) => 0,
            }
        } else {
            0
        },
        _ => 0,
    }
}

/// The sum of what the calls `calls`, made in order from `state`, credit to
/// one position.
pub open spec fn credits(
    state: PoolState,
    calls: Seq<PoolCall>,
    token: Seq<u8>,
    provider: Seq<u8>,
) -> nat
    decreases calls.len(),
{
    if calls.len() == 0 {
        0
    } else {
        credits(state, calls.drop_last(), token, provider) + credit_of(
            after_calls(state, calls.drop_last()),
            calls.last(),
            token,
            provider,
        )
    }
}

/// The sum of what the calls `calls`, made in order from `state`, debit from
/// one position.
pub open spec fn debits(
    state: PoolState,
    calls: Seq<PoolCall>,
    token: Seq<u8>,
    provider: Seq<u8>,
) -> nat
    decreases calls.len(),
{
    if calls.len() == 0 {
        0
    } else {
        debits(state, calls.drop_last(), token, provider) + debit_of(
            after_calls(state, calls.drop_last()),
            calls.last(),
            token,
            provider,
        )
    }
}

/// One call changes the balance of a position by what it credits to it, less
/// what it debits from it, and a debit never exceeds the balance.
pub proof fn lemma_call_moves_balance(
    state: PoolState,
    call: PoolCall,
    token: Seq<u8>,
    provider: Seq<u8>,
)
    ensures
        debit_of(state, call, token, provider) <= state.balance(token, provider),
        after_call(state, call).balance(token, provider) == state.balance(token, provider)
            + credit_of(state, call, token, provider) - debit_of(state, call, token, provider),
{
}

/// The tracked balance of a position is what it was, plus every successful
/// credit, less every successful debit, whatever calls were made; it is never
/// negative. From a fresh pool it is the credits less the debits.
pub proof fn lemma_balance_is_credits_less_debits(
    state: PoolState,
    calls: Seq<PoolCall>,
    token: Seq<u8>,
    provider: Seq<u8>,
)
    ensures
        after_calls(state, calls).balance(token, provider) + debits(state, calls, token, provider)
            == state.balance(token, provider) + credits(state, calls, token, provider),
    decreases calls.len(),
{
    if calls.len() > 0 {
        lemma_balance_is_credits_less_debits(state, calls.drop_last(), token, provider);
        lemma_call_moves_balance(
            after_calls(state, calls.drop_last()),
            calls.last(),
            token,
            provider,
        );
    }
}

/// A request for the whole tracked balance is refused as
/// `InsufficientLiquidity`: only less than the balance can be removed. (A
/// request of zero for the zero token is no request at all and is refused as
/// `InvalidInput` before.)
pub proof fn lemma_full_balance_is_refused(
    state: PoolState,
    sender: Seq<u8>,
    token: Seq<u8>,
    on_hand: nat,
)
    requires
        !rejected_input(token, state.balance(token, sender)),
    ensures
        remove_liquidity_outcome(state, sender, token, state.balance(token, sender), on_hand)
            == Err::<(PoolState, nat), ErrorKind>(ErrorKind::InsufficientLiquidity),
{
}

/// No call takes a digest out of the set of consumed digests.
pub proof fn lemma_used_digests_stay(state: PoolState, calls: Seq<PoolCall>, digest: Seq<u8>)
    requires
        state.used.contains(digest),
    ensures
        after_calls(state, calls).used.contains(digest),
    decreases calls.len(),
{
    if calls.len() > 0 {
        lemma_used_digests_stay(state, calls.drop_last(), digest);
    }
}

/// A withdrawal that succeeded cannot be repeated: after it, and after
/// whatever other calls, a withdrawal of the same token, payee, amount and
/// salt is refused as `AlreadyUsed`, whatever signature comes with it.
pub proof fn lemma_withdrawal_is_single_use(
    state: PoolState,
    token: Seq<u8>,
    payee: Seq<u8>,
    amount: nat,
    salt: Seq<u8>,
    signature: Seq<u8>,
    calls: Seq<PoolCall>,
    later_signature: Seq<u8>,
)
    requires
        withdraw_outcome(state, token, payee, amount, salt, signature) is Ok,
    ensures
        withdraw_outcome(
            after_calls(
                withdraw_outcome(state, token, payee, amount, salt, signature)->Ok_0.0,
                calls,
            ),
            token,
            payee,
            amount,
            salt,
            later_signature,
        ) == Err::<(PoolState, Seq<u8>), ErrorKind>(ErrorKind::AlreadyUsed),
{
    let consumed = withdraw_outcome(state, token, payee, amount, salt, signature)->Ok_0.0;
    lemma_used_digests_stay(consumed, calls, withdrawal_digest(token, payee, amount, salt));
}

/// A signature that is not 65 bytes long is refused as `WrongSignatureLength`
/// wherever the digest is still unused: the length is looked at before any
/// key is recovered.
pub proof fn lemma_wrong_length_is_refused(
    state: PoolState,
    token: Seq<u8>,
    payee: Seq<u8>,
    amount: nat,
    salt: Seq<u8>,
    signature: Seq<u8>,
)
    requires
        signature.len() != 65,
        !state.used.contains(withdrawal_digest(token, payee, amount, salt)),
    ensures
        withdraw_outcome(state, token, payee, amount, salt, signature) == Err::<
            (PoolState, Seq<u8>),
            ErrorKind,
        >(ErrorKind::WrongSignatureLength),
{
}

} // verus!
