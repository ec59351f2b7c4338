use token_bridge::address::{zero_address, Address};
use token_bridge::amount::Amount;
use token_bridge::error::ErrorKind;
use token_bridge::tax_distributor::{
    settle_stake, split_tax, Distribution, IRewardDistributor, TaxDistributor, TaxFailure,
    TaxPayout, TaxSplit, DEV_FEE_MIN_AMOUNT,
};

fn addr(byte: u8) -> Address {
    [byte; 32]
}

fn amt(v: u64) -> Amount {
    Amount::from_u64(v)
}

fn max_amount() -> Amount {
    Amount { limbs: [u64::MAX; 4] }
}

/// A reward distributor that rolls a fixed address and gives a fixed answer.
struct Fixed {
    rolls: Address,
    updates: bool,
}

impl IRewardDistributor for Fixed {
    fn roll_and_get_distribution_address(&self, _address: Address) -> Address {
        self.rolls
    }

    fn update_rewards(&self, address: Address) -> bool {
        assert_eq!(address, self.rolls);
        self.updates
    }
}

/// A reward distributor that rolls the address it is asked about.
struct Echo;

impl IRewardDistributor for Echo {
    fn roll_and_get_distribution_address(&self, address: Address) -> Address {
        address
    }

    fn update_rewards(&self, _address: Address) -> bool {
        true
    }
}

fn split(global_dev: u64, burn: u64, dev: u64, future: u64, remaining: u64) -> TaxSplit {
    TaxSplit {
        global_dev: amt(global_dev),
        burn: amt(burn),
        dev: amt(dev),
        future: amt(future),
        remaining: amt(remaining),
    }
}

fn configured(rolls: Address, updates: bool) -> TaxDistributor<Fixed> {
    let mut tax = TaxDistributor::default();
    tax.set_default_distribution(addr(1), 40, 30, 20, 10).unwrap();
    tax.set_reward_distributor(addr(7), addr(1), Fixed { rolls: addr(50), updates: true }).unwrap();
    tax.set_reward_distributor(addr(7), addr(1), Fixed { rolls: addr(50), updates }).unwrap();
    if rolls != addr(50) {
        // A distributor that rolls nothing can only be bound through its probe.
        tax.bind_reward_distributor(addr(1), Fixed { rolls, updates }, addr(50)).unwrap();
    }
    tax.set_dev_address(addr(1), addr(60)).unwrap();
    tax.set_future_address(addr(1), addr(61)).unwrap();
    tax
}

#[test]
fn dev_fee_minimum_is_100() {
    assert_eq!(DEV_FEE_MIN_AMOUNT, 100);
}

#[test]
fn split_takes_each_part_of_the_whole_amount() {
    let distribution = Distribution { stake: 40, burn: 20, dev: 10, future: 10 };
    assert_eq!(split_tax(&distribution, &amt(0), &amt(1000)), Ok(split(0, 200, 100, 100, 600)));
}

#[test]
fn split_rounds_each_part_down() {
    let distribution = Distribution { stake: 40, burn: 30, dev: 20, future: 10 };
    assert_eq!(split_tax(&distribution, &amt(0), &amt(1000)), Ok(split(0, 300, 200, 100, 400)));
    assert_eq!(split_tax(&distribution, &amt(0), &amt(9)), Ok(split(0, 2, 1, 0, 6)));
    assert_eq!(split_tax(&distribution, &amt(0), &amt(0)), Ok(split(0, 0, 0, 0, 0)));
    assert_eq!(split_tax(&distribution, &amt(0), &amt(1)), Ok(split(0, 0, 0, 0, 1)));
}

#[test]
fn split_takes_the_global_fee_first() {
    let nothing = Distribution { stake: 0, burn: 0, dev: 0, future: 0 };
    assert_eq!(split_tax(&nothing, &amt(100), &amt(1000)), Ok(split(1000, 0, 0, 0, 0)));
    assert_eq!(split_tax(&nothing, &amt(50), &amt(1000)), Ok(split(500, 0, 0, 0, 500)));
    let some = Distribution { stake: 0, burn: 30, dev: 10, future: 10 };
    assert_eq!(split_tax(&some, &amt(50), &amt(1000)), Ok(split(500, 300, 100, 100, 0)));
}

#[test]
fn split_reports_parts_that_exceed_what_is_left() {
    let distribution = Distribution { stake: 40, burn: 30, dev: 20, future: 10 };
    assert_eq!(split_tax(&distribution, &amt(100), &amt(1000)), Err(ErrorKind::Underflow));
    assert_eq!(split_tax(&distribution, &amt(101), &amt(1000)), Err(ErrorKind::Underflow));
    let greedy = Distribution { stake: 0, burn: 60, dev: 60, future: 0 };
    assert_eq!(split_tax(&greedy, &amt(0), &amt(1000)), Err(ErrorKind::Underflow));
    assert_eq!(split_tax(&greedy, &amt(0), &amt(1)), Ok(split(0, 0, 0, 0, 1)));
}

#[test]
fn split_reports_a_product_that_does_not_fit() {
    let distribution = Distribution { stake: 40, burn: 30, dev: 20, future: 10 };
    assert_eq!(split_tax(&distribution, &amt(0), &max_amount()), Err(ErrorKind::Overflow));
    assert_eq!(split_tax(&distribution, &amt(2), &max_amount()), Err(ErrorKind::Overflow));
    let only_dev = Distribution { stake: 80, burn: 0, dev: 20, future: 0 };
    let twentieth = Amount {
        limbs: [0xcccccccccccccccc, 0xcccccccccccccccc, 0xcccccccccccccccc, 0x0ccccccccccccccc],
    };
    let fifth_of_it = Amount {
        limbs: [0xf5c28f5c28f5c28f, 0x8f5c28f5c28f5c28, 0x28f5c28f5c28f5c2, 0x028f5c28f5c28f5c],
    };
    let parts = split_tax(&only_dev, &amt(0), &twentieth).unwrap();
    assert_eq!(parts.dev, fifth_of_it);
    assert_eq!(parts.burn, amt(0));
    let mut more = twentieth;
    more.limbs[0] += 1;
    assert_eq!(split_tax(&only_dev, &amt(0), &more), Err(ErrorKind::Overflow));
}

#[test]
fn split_borrows_between_words() {
    let half = Distribution { stake: 50, burn: 50, dev: 0, future: 0 };
    let amount = Amount { limbs: [0, 1, 0, 0] };
    let parts = split_tax(&half, &amt(0), &amount).unwrap();
    assert_eq!(parts.burn, amt(1 << 63));
    assert_eq!(parts.remaining, amt(1 << 63));
}

#[test]
fn set_default_distribution_wants_a_sum_of_100() {
    let mut tax: TaxDistributor<Echo> = TaxDistributor::default();
    assert_eq!(tax.set_default_distribution(addr(1), 40, 30, 20, 10), Ok(()));
    assert_eq!(
        tax.distribution_of(&addr(1)),
        Some(Distribution { stake: 40, burn: 30, dev: 20, future: 10 })
    );
    assert_eq!(tax.set_default_distribution(addr(2), 100, 0, 0, 0), Ok(()));
    assert_eq!(tax.set_default_distribution(addr(3), 0, 0, 0, 100), Ok(()));
    assert_eq!(
        tax.set_default_distribution(addr(1), 40, 20, 10, 10),
        Err(ErrorKind::BadPercentageSum)
    );
    assert_eq!(
        tax.set_default_distribution(addr(1), 40, 30, 20, 11),
        Err(ErrorKind::BadPercentageSum)
    );
    assert_eq!(tax.set_default_distribution(addr(1), 0, 0, 0, 0), Err(ErrorKind::BadPercentageSum));
    assert_eq!(
        tax.set_default_distribution(addr(1), 200, 100, 56, 0),
        Err(ErrorKind::BadPercentageSum)
    );
    assert_eq!(
        tax.set_default_distribution(addr(1), 255, 255, 255, 255),
        Err(ErrorKind::BadPercentageSum)
    );
    assert_eq!(
        tax.distribution_of(&addr(1)),
        Some(Distribution { stake: 40, burn: 30, dev: 20, future: 10 })
    );
    assert_eq!(tax.distribution_of(&addr(9)), None);
}

#[test]
fn set_default_distribution_refuses_the_zero_token() {
    let mut tax: TaxDistributor<Echo> = TaxDistributor::default();
    assert_eq!(
        tax.set_default_distribution(zero_address(), 40, 30, 20, 10),
        Err(ErrorKind::InvalidInput)
    );
    assert_eq!(
        tax.set_default_distribution(zero_address(), 1, 1, 1, 1),
        Err(ErrorKind::InvalidInput)
    );
}

#[test]
fn setters_refuse_the_zero_token() {
    let mut tax: TaxDistributor<Echo> = TaxDistributor::default();
    assert_eq!(tax.set_dev_address(zero_address(), addr(5)), Err(ErrorKind::InvalidInput));
    assert_eq!(tax.set_future_address(zero_address(), addr(5)), Err(ErrorKind::InvalidInput));
    assert_eq!(tax.set_reward_distributor(addr(7), zero_address(), Echo), Err(ErrorKind::InvalidInput));
    assert_eq!(tax.set_dev_address(addr(1), zero_address()), Ok(()));
    assert_eq!(tax.set_future_address(addr(1), zero_address()), Ok(()));
    assert_eq!(tax.set_reward_distributor(addr(7), addr(1), Echo), Ok(()));
}

#[test]
fn set_reward_distributor_refuses_one_that_rolls_nothing() {
    let mut tax: TaxDistributor<Echo> = TaxDistributor::default();
    assert_eq!(tax.set_reward_distributor(zero_address(), addr(1), Echo), Err(ErrorKind::InvalidInput));
    assert_eq!(tax.set_reward_distributor(addr(7), addr(1), Echo), Ok(()));
    assert_eq!(
        tax.bind_reward_distributor(addr(1), Echo, zero_address()),
        Err(ErrorKind::InvalidInput)
    );
    assert_eq!(
        tax.bind_reward_distributor(zero_address(), Echo, addr(3)),
        Err(ErrorKind::InvalidInput)
    );
    assert_eq!(tax.bind_reward_distributor(addr(1), Echo, addr(3)), Ok(()));
}

#[test]
fn set_global_dev_address_wants_a_fee_of_100_or_more() {
    let mut tax: TaxDistributor<Echo> = TaxDistributor::default();
    assert_eq!(tax.set_global_dev_address(addr(9), amt(99)), Err(ErrorKind::InvalidInput));
    assert_eq!(tax.set_global_dev_address(addr(9), amt(0)), Err(ErrorKind::InvalidInput));
    assert_eq!(tax.set_global_dev_address(addr(9), amt(100)), Ok(()));
    assert_eq!(tax.set_global_dev_address(addr(9), max_amount()), Ok(()));
    assert_eq!(tax.set_global_dev_address(addr(9), Amount { limbs: [0, 0, 1, 0] }), Ok(()));
}

#[test]
fn distribute_tax_pays_the_parts_and_the_stake() {
    let tax = configured(addr(50), true);
    let paid = tax.distribute_tax(addr(7), addr(1), amt(1000)).unwrap();
    assert_eq!(
        paid,
        TaxPayout {
            split: split(0, 300, 200, 100, 400),
            global_dev_to: zero_address(),
            dev_to: addr(60),
            future_to: addr(61),
            stake_to: addr(50),
        }
    );
}

#[test]
fn distribute_tax_rolls_the_address_for_the_sender() {
    let mut tax: TaxDistributor<Echo> = TaxDistributor::default();
    tax.set_default_distribution(addr(1), 100, 0, 0, 0).unwrap();
    tax.set_reward_distributor(addr(7), addr(1), Echo).unwrap();
    let paid = tax.distribute_tax(addr(33), addr(1), amt(10)).unwrap();
    assert_eq!(paid.stake_to, addr(33));
    assert_eq!(paid.split, split(0, 0, 0, 0, 10));
    assert_eq!(paid.dev_to, zero_address());
    assert_eq!(paid.future_to, zero_address());
    let paid = tax.distribute_tax(zero_address(), addr(1), amt(10)).unwrap();
    assert_eq!(paid.stake_to, zero_address());
}

#[test]
fn distribute_tax_reports_a_refused_update_with_what_was_paid() {
    let tax = configured(addr(50), false);
    let failure = tax.distribute_tax(addr(7), addr(1), amt(1000)).unwrap_err();
    assert_eq!(failure.kind, ErrorKind::StakingUpdateFailed);
    assert_eq!(
        failure.paid,
        Some(TaxPayout {
            split: split(0, 300, 200, 100, 400),
            global_dev_to: zero_address(),
            dev_to: addr(60),
            future_to: addr(61),
            stake_to: addr(50),
        })
    );
}

#[test]
fn distribute_tax_stakes_nothing_to_the_zero_address() {
    let tax = configured(zero_address(), false);
    let paid = tax.distribute_tax(addr(7), addr(1), amt(1000)).unwrap();
    assert_eq!(paid.stake_to, zero_address());
    assert_eq!(paid.split, split(0, 300, 200, 100, 400));
}

#[test]
fn distribute_tax_without_a_stake_asks_no_distributor() {
    let mut tax: TaxDistributor<Fixed> = TaxDistributor::default();
    tax.set_default_distribution(addr(1), 0, 50, 25, 25).unwrap();
    let paid = tax.distribute_tax(addr(7), addr(1), amt(1000)).unwrap();
    assert_eq!(paid.split, split(0, 500, 250, 250, 0));
    assert_eq!(paid.stake_to, zero_address());
    tax.set_reward_distributor(addr(7), addr(1), Fixed { rolls: addr(50), updates: false })
        .unwrap();
    let paid = tax.distribute_tax(addr(7), addr(1), amt(1000)).unwrap();
    assert_eq!(paid.stake_to, zero_address());
}

#[test]
fn distribute_tax_fails_early_without_payment() {
    let mut tax: TaxDistributor<Fixed> = TaxDistributor::default();
    assert_eq!(
        tax.distribute_tax(addr(7), addr(1), amt(1000)),
        Err(TaxFailure { kind: ErrorKind::UnknownToken, paid: None })
    );
    tax.set_default_distribution(addr(1), 40, 30, 20, 10).unwrap();
    assert_eq!(
        tax.distribute_tax(addr(7), addr(1), amt(1000)),
        Err(TaxFailure { kind: ErrorKind::UnknownToken, paid: None })
    );
    assert_eq!(
        tax.distribute_tax(addr(7), addr(1), max_amount()),
        Err(TaxFailure { kind: ErrorKind::Overflow, paid: None })
    );
    tax.set_reward_distributor(addr(7), addr(1), Fixed { rolls: addr(50), updates: true }).unwrap();
    tax.set_global_dev_address(addr(70), amt(100)).unwrap();
    assert_eq!(
        tax.distribute_tax(addr(7), addr(1), amt(1000)),
        Err(TaxFailure { kind: ErrorKind::Underflow, paid: None })
    );
    let paid = tax.distribute_tax(addr(7), addr(1), amt(1)).unwrap();
    assert_eq!(paid.split, split(1, 0, 0, 0, 0));
    assert_eq!(paid.global_dev_to, addr(70));
    assert_eq!(paid.stake_to, addr(50));
}

#[test]
fn settle_stake_decides_by_address_and_answer() {
    let payout = TaxPayout {
        split: split(1, 2, 3, 4, 5),
        global_dev_to: addr(1),
        dev_to: addr(2),
        future_to: addr(3),
        stake_to: zero_address(),
    };
    let staked = TaxPayout { stake_to: addr(9), ..payout };
    assert_eq!(settle_stake(payout, zero_address(), false), Ok(payout));
    assert_eq!(settle_stake(payout, zero_address(), true), Ok(payout));
    assert_eq!(settle_stake(payout, addr(9), true), Ok(staked));
    assert_eq!(
        settle_stake(payout, addr(9), false),
        Err(TaxFailure { kind: ErrorKind::StakingUpdateFailed, paid: Some(staked) })
    );
}
