use erc20aton::config::EnvVars;
use erc20aton::ledger::Erc20Aton;
use erc20aton::model::{CallContext, Commissions, Effect, Error};
use erc20aton::values::{Address, Amount};

const OWN: u128 = 999;

fn addr(n: u128) -> Address {
    Address::new(0, n)
}

fn amt(n: u64) -> Amount {
    Amount::from_u64(n)
}

fn ctx(sender: u128) -> CallContext {
    CallContext { sender: addr(sender), value: Amount::zero(), own_address: addr(OWN), own_balance: Amount::zero() }
}

fn no_commissions() -> Commissions {
    Commissions { from: Amount::zero(), to: Amount::zero(), owner_side: Amount::zero() }
}

fn sum_of(l: &Erc20Aton, accounts: &[u128]) -> u64 {
    accounts.iter().map(|a| l.balance_of(addr(*a)).l0).sum()
}

#[test]
fn example_scenario_mint_approve_transfer_from() {
    let mut l = Erc20Aton::new();
    assert!(l.initialize(&ctx(1)));
    assert_eq!(l.owner(), addr(1));
    assert_eq!(l._mint(addr(1), amt(100)), Ok(()));
    assert_eq!(l.balance_of(addr(1)), amt(100));
    assert_eq!(l.total_supply(), amt(100));
    assert_eq!(l.approve(&ctx(1), addr(2), amt(40)), Ok(true));
    assert_eq!(l.transfer_from(&ctx(2), addr(1), addr(3), amt(40), &no_commissions()), Ok(true));
    assert_eq!(l.balance_of(addr(1)), amt(60));
    assert_eq!(l.balance_of(addr(3)), amt(40));
    assert_eq!(l.allowance(addr(1), addr(2)), amt(0));
}

#[test]
fn swap_more_than_balance_fails_and_changes_nothing() {
    let mut l = Erc20Aton::new();
    l._mint(addr(1), amt(30)).unwrap();
    let before = l.effects().clone();
    let mut c = ctx(1);
    c.own_balance = amt(1000);
    assert_eq!(l.swap(&c, amt(50)), Err(Error::Zero { account: addr(1) }));
    assert_eq!(l.balance_of(addr(1)), amt(30));
    assert_eq!(l.total_supply(), amt(30));
    assert_eq!(l.effects(), &before);
}

#[test]
fn swap_burns_and_releases_native_value() {
    let mut l = Erc20Aton::new();
    l._mint(addr(1), amt(80)).unwrap();
    l.take_effects();
    let mut c = ctx(1);
    c.own_balance = amt(50);
    assert_eq!(l.swap(&c, amt(50)), Ok(true));
    assert_eq!(l.balance_of(addr(1)), amt(30));
    assert_eq!(l.total_supply(), amt(30));
    assert_eq!(
        l.take_effects(),
        vec![
            Effect::Transfer { from: addr(1), to: Address::zero(), value: amt(50) },
            Effect::ReleaseNative { to: addr(1), amount: amt(50) },
        ]
    );
}

#[test]
fn swap_refuses_zero_and_short_reserve() {
    let mut l = Erc20Aton::new();
    l._mint(addr(1), amt(80)).unwrap();
    let mut c = ctx(1);
    c.own_balance = amt(49);
    assert_eq!(l.swap(&c, amt(50)), Err(Error::Zero { account: addr(1) }));
    assert_eq!(l.swap(&c, amt(0)), Err(Error::Zero { account: addr(1) }));
    assert_eq!(l.balance_of(addr(1)), amt(80));
}

#[test]
fn balances_add_up_to_supply_over_a_sequence() {
    let mut l = Erc20Aton::new();
    let accounts = [1, 2, 3, 4];
    l._mint(addr(1), amt(500)).unwrap();
    l._mint(addr(2), amt(70)).unwrap();
    l.transfer(&ctx(1), addr(3), amt(120), &no_commissions()).unwrap();
    l._burn(addr(2), amt(20)).unwrap();
    let _ = l._burn(addr(3), amt(1000));
    let _ = l.transfer(&ctx(4), addr(1), amt(1), &no_commissions());
    l.transfer(&ctx(3), addr(4), amt(20), &no_commissions()).unwrap();
    assert_eq!(sum_of(&l, &accounts), l.total_supply().l0);
    assert_eq!(l.total_supply(), amt(550));
    assert_eq!(l.balance_of(addr(1)), amt(380));
    assert_eq!(l.balance_of(addr(3)), amt(100));
}

#[test]
fn mint_past_the_largest_supply_fails_and_changes_nothing() {
    let mut l = Erc20Aton::new();
    let big = Amount { l0: u64::MAX, l1: u64::MAX, l2: u64::MAX, l3: u64::MAX - 1 };
    l._mint(addr(1), big).unwrap();
    let supply = l.total_supply();
    let too_much = Amount { l0: 1, l1: 0, l2: 0, l3: 1 };
    assert_eq!(
        l._mint(addr(2), too_much),
        Err(Error::InsufficientBalance { sender: Address::zero(), balance: supply, needed: too_much })
    );
    assert_eq!(l.total_supply(), supply);
    assert_eq!(l.balance_of(addr(2)), Amount::zero());
    assert_eq!(l._mint(addr(2), Amount { l0: 0, l1: 0, l2: 0, l3: 1 }), Ok(()));
    assert_eq!(l.total_supply(), Amount::max());
    assert_eq!(l._mint(addr(2), amt(1)).is_err(), true);
}

#[test]
fn mint_carries_across_limbs() {
    let mut l = Erc20Aton::new();
    l._mint(addr(1), amt(u64::MAX)).unwrap();
    l._mint(addr(1), amt(1)).unwrap();
    assert_eq!(l.balance_of(addr(1)), Amount { l0: 0, l1: 1, l2: 0, l3: 0 });
    l._burn(addr(1), amt(2)).unwrap();
    assert_eq!(l.balance_of(addr(1)), Amount { l0: u64::MAX - 1, l1: 0, l2: 0, l3: 0 });
    assert_eq!(l.total_supply(), Amount { l0: u64::MAX - 1, l1: 0, l2: 0, l3: 0 });
}

#[test]
fn failed_transfer_rolls_back_settlement() {
    let mut l = Erc20Aton::new();
    let vault = addr(50);
    l.set_vault(vault);
    l._mint(vault, amt(100)).unwrap();
    l._mint(addr(1), amt(10)).unwrap();
    l.take_effects();
    let c = Commissions { from: amt(5), to: amt(7), owner_side: Amount::zero() };
    let r = l.transfer(&ctx(1), addr(2), amt(100), &c);
    assert_eq!(
        r,
        Err(Error::InsufficientBalance { sender: addr(1), balance: amt(15), needed: amt(100) })
    );
    assert_eq!(l.balance_of(addr(1)), amt(10));
    assert_eq!(l.balance_of(addr(2)), amt(0));
    assert_eq!(l.balance_of(vault), amt(100));
    assert!(l.effects().is_empty());
}

#[test]
fn transfer_settles_commissions_first() {
    let mut l = Erc20Aton::new();
    let vault = addr(50);
    l.set_vault(vault);
    l._mint(vault, amt(100)).unwrap();
    l._mint(addr(1), amt(10)).unwrap();
    l.take_effects();
    let c = Commissions { from: amt(5), to: amt(7), owner_side: Amount::zero() };
    assert_eq!(l.transfer(&ctx(1), addr(2), amt(15), &c), Ok(true));
    assert_eq!(l.balance_of(addr(1)), amt(0));
    assert_eq!(l.balance_of(addr(2)), amt(22));
    assert_eq!(l.balance_of(vault), amt(88));
    assert_eq!(
        l.take_effects(),
        vec![
            Effect::Transfer { from: vault, to: addr(2), value: amt(7) },
            Effect::Transfer { from: vault, to: addr(1), value: amt(5) },
            Effect::ClearCommission { account: addr(2) },
            Effect::ClearCommission { account: addr(1) },
            Effect::Transfer { from: addr(1), to: addr(2), value: amt(15) },
        ]
    );
}

#[test]
fn settlement_pays_the_owner_when_the_contract_takes_part() {
    let mut l = Erc20Aton::new();
    let vault = addr(50);
    l.initialize(&ctx(7));
    l.set_vault(vault);
    l._mint(vault, amt(100)).unwrap();
    l._mint(addr(1), amt(10)).unwrap();
    l.take_effects();
    assert!(Erc20Aton::involves_contract(&ctx(1), addr(OWN), addr(1)));
    assert!(!Erc20Aton::involves_contract(&ctx(1), addr(2), addr(1)));
    let c = Commissions { from: amt(1), to: amt(2), owner_side: amt(3) };
    assert_eq!(l._pay_commissions(&ctx(1), addr(OWN), addr(1), &c), Ok(()));
    assert_eq!(l.balance_of(addr(OWN)), amt(2));
    assert_eq!(l.balance_of(addr(1)), amt(11));
    assert_eq!(l.balance_of(addr(7)), amt(3));
    assert_eq!(l.balance_of(vault), amt(94));
    let effects = l.take_effects();
    assert_eq!(effects.len(), 6);
    assert_eq!(effects[5], Effect::ClearCommission { account: addr(7) });
}

#[test]
fn settlement_skips_payments_the_vault_cannot_make() {
    let mut l = Erc20Aton::new();
    l._mint(addr(1), amt(10)).unwrap();
    l.take_effects();
    let c = Commissions { from: amt(5), to: amt(7), owner_side: Amount::zero() };
    assert_eq!(l._pay_commissions(&ctx(1), addr(2), addr(1), &c), Ok(()));
    assert_eq!(l.balance_of(addr(1)), amt(10));
    assert_eq!(
        l.take_effects(),
        vec![
            Effect::PaymentSkipped { to: addr(2), amount: amt(7) },
            Effect::PaymentSkipped { to: addr(1), amount: amt(5) },
            Effect::ClearCommission { account: addr(2) },
            Effect::ClearCommission { account: addr(1) },
        ]
    );
}

#[test]
fn can_spend_follows_the_allowance() {
    let mut l = Erc20Aton::new();
    l.approve(&ctx(1), addr(2), amt(25)).unwrap();
    assert!(l.can_spend(&ctx(2), addr(1), amt(25)));
    assert!(!l.can_spend(&ctx(2), addr(1), amt(26)));
    assert!(!l.can_spend(&ctx(3), addr(1), amt(1)));
    assert!(l.can_spend(&ctx(3), addr(1), amt(0)));
    l.approve(&ctx(1), addr(3), Amount::max()).unwrap();
    assert!(l.can_spend(&ctx(3), addr(1), Amount::max()));
}

#[test]
fn transfer_from_by_the_zero_address_is_not_refused_for_it() {
    let mut l = Erc20Aton::new();
    assert_eq!(l.transfer_from(&ctx(0), addr(1), addr(3), amt(0), &no_commissions()), Ok(true));
    assert_eq!(l.balance_of(addr(3)), amt(0));
}

#[test]
fn transfer_from_the_zero_address_is_an_invalid_sender() {
    let mut l = Erc20Aton::new();
    assert_eq!(
        l.transfer_from(&ctx(2), Address::zero(), addr(3), amt(0), &no_commissions()),
        Err(Error::InvalidSender { sender: Address::zero() })
    );
}

#[test]
fn transfer_from_exactly_the_allowance_uses_it_up() {
    let mut l = Erc20Aton::new();
    l._mint(addr(1), amt(100)).unwrap();
    l.approve(&ctx(1), addr(2), amt(25)).unwrap();
    assert_eq!(l.transfer_from(&ctx(2), addr(1), addr(3), amt(25), &no_commissions()), Ok(true));
    assert_eq!(l.allowance(addr(1), addr(2)), amt(0));
    assert_eq!(l.balance_of(addr(3)), amt(25));
}

#[test]
fn transfer_from_beyond_the_allowance_is_refused() {
    let mut l = Erc20Aton::new();
    l._mint(addr(1), amt(100)).unwrap();
    l.approve(&ctx(1), addr(2), amt(25)).unwrap();
    let before = l.effects().clone();
    assert_eq!(
        l.transfer_from(&ctx(2), addr(1), addr(3), amt(26), &no_commissions()),
        Err(Error::InsufficientAllowance { spender: addr(2), allowance: amt(25), needed: amt(26) })
    );
    assert_eq!(l.allowance(addr(1), addr(2)), amt(25));
    assert_eq!(l.balance_of(addr(1)), amt(100));
    assert_eq!(l.effects(), &before);
}

#[test]
fn unlimited_allowance_is_never_decremented() {
    let mut l = Erc20Aton::new();
    l._mint(addr(1), amt(100)).unwrap();
    l.approve(&ctx(1), addr(2), Amount::max()).unwrap();
    for _ in 0..4 {
        l.transfer_from(&ctx(2), addr(1), addr(3), amt(10), &no_commissions()).unwrap();
        assert_eq!(l.allowance(addr(1), addr(2)), Amount::max());
    }
    assert_eq!(l.balance_of(addr(3)), amt(40));
}

#[test]
fn transfer_from_with_enough_allowance_but_short_balance_changes_nothing() {
    let mut l = Erc20Aton::new();
    l._mint(addr(1), amt(5)).unwrap();
    l.approve(&ctx(1), addr(2), amt(25)).unwrap();
    assert_eq!(
        l.transfer_from(&ctx(2), addr(1), addr(3), amt(20), &no_commissions()),
        Err(Error::InsufficientBalance { sender: addr(1), balance: amt(5), needed: amt(20) })
    );
    assert_eq!(l.allowance(addr(1), addr(2)), amt(25));
}

#[test]
fn initialize_twice_keeps_the_first_owner() {
    let mut l = Erc20Aton::new();
    assert!(l.initialize(&ctx(1)));
    assert!(!l.initialize(&ctx(2)));
    assert_eq!(l.owner(), addr(1));
}

#[test]
fn set_vault_twice_keeps_the_first_vault() {
    let mut l = Erc20Aton::new();
    assert!(l.set_vault(addr(5)));
    assert!(!l.set_vault(addr(6)));
    assert_eq!(l.vault(), addr(5));
    assert_eq!(l.vault_address(), addr(5));
}

#[test]
fn approve_rejects_zero_parties() {
    let mut l = Erc20Aton::new();
    assert_eq!(
        l.approve(&ctx(0), addr(2), amt(1)),
        Err(Error::InvalidApprover { approver: Address::zero() })
    );
    assert_eq!(
        l.approve(&ctx(1), Address::zero(), amt(1)),
        Err(Error::InvalidSpender { spender: Address::zero() })
    );
}

#[test]
fn approve_overwrites_and_emits() {
    let mut l = Erc20Aton::new();
    l.approve(&ctx(1), addr(2), amt(10)).unwrap();
    l.approve(&ctx(1), addr(2), amt(3)).unwrap();
    assert_eq!(l.allowance(addr(1), addr(2)), amt(3));
    assert_eq!(
        l.effects()[1],
        Effect::Approval { owner: addr(1), spender: addr(2), value: amt(3) }
    );
}

#[test]
fn internal_transfer_rejects_zero_endpoints() {
    let mut l = Erc20Aton::new();
    l._mint(addr(1), amt(10)).unwrap();
    assert_eq!(
        l._transfer(Address::zero(), addr(1), amt(1)),
        Err(Error::InvalidSender { sender: Address::zero() })
    );
    assert_eq!(
        l._transfer(addr(1), Address::zero(), amt(1)),
        Err(Error::InvalidReceiver { receiver: Address::zero() })
    );
    assert_eq!(
        l._mint(Address::zero(), amt(1)),
        Err(Error::InvalidReceiver { receiver: Address::zero() })
    );
    assert_eq!(
        l._burn(Address::zero(), amt(1)),
        Err(Error::InvalidSender { sender: Address::zero() })
    );
}

#[test]
fn burn_more_than_balance_is_refused() {
    let mut l = Erc20Aton::new();
    l._mint(addr(1), amt(10)).unwrap();
    assert_eq!(
        l._burn(addr(1), amt(11)),
        Err(Error::InsufficientBalance { sender: addr(1), balance: amt(10), needed: amt(11) })
    );
    assert_eq!(l.total_supply(), amt(10));
}

#[test]
fn transfer_reports_any_failure_as_insufficient_balance() {
    let mut l = Erc20Aton::new();
    l._mint(addr(1), amt(10)).unwrap();
    assert_eq!(
        l.transfer(&ctx(1), Address::zero(), amt(1), &no_commissions()),
        Err(Error::InsufficientBalance { sender: addr(1), balance: amt(10), needed: amt(1) })
    );
}

#[test]
fn perform_transfer_maps_errors_to_the_sender_balance() {
    let mut l = Erc20Aton::new();
    l._mint(addr(1), amt(10)).unwrap();
    assert_eq!(
        l._perform_transfer(addr(1), Address::zero(), amt(4)),
        Err(Error::InsufficientBalance { sender: addr(1), balance: amt(10), needed: amt(4) })
    );
    assert_eq!(l._perform_transfer(addr(1), addr(2), amt(4)), Ok(()));
    assert_eq!(l.balance_of(addr(2)), amt(4));
}

#[test]
fn update_with_both_ends_zero_keeps_supply() {
    let mut l = Erc20Aton::new();
    l._mint(addr(1), amt(10)).unwrap();
    assert_eq!(l._update(Address::zero(), Address::zero(), amt(5)), Ok(()));
    assert_eq!(l.total_supply(), amt(10));
}

#[test]
fn self_transfer_keeps_balance() {
    let mut l = Erc20Aton::new();
    l._mint(addr(1), amt(10)).unwrap();
    assert_eq!(l.transfer(&ctx(1), addr(1), amt(10), &no_commissions()), Ok(true));
    assert_eq!(l.balance_of(addr(1)), amt(10));
}

#[test]
fn spend_allowance_decrements_without_event() {
    let mut l = Erc20Aton::new();
    l.approve(&ctx(1), addr(2), amt(10)).unwrap();
    l.take_effects();
    assert_eq!(l._spend_allowance(addr(1), addr(2), amt(4)), Ok(()));
    assert_eq!(l.allowance(addr(1), addr(2)), amt(6));
    assert!(l.effects().is_empty());
}

#[test]
fn owner_only_operations_refuse_others() {
    let mut l = Erc20Aton::new();
    l.initialize(&ctx(1));
    assert_eq!(
        l.update_stake_engine(&ctx(2), addr(3), true),
        Err(Error::UnauthorizedAccount { account: addr(2) })
    );
    assert_eq!(l._only_owner(&ctx(2)), Err(Error::UnauthorizedAccount { account: addr(2) }));
    assert_eq!(l._only_owner(&ctx(1)), Ok(()));
    assert!(!l.is_stake_engine(addr(3)));
    assert_eq!(
        l.transfer_ownership(&ctx(2), addr(3)),
        Err(Error::UnauthorizedAccount { account: addr(2) })
    );
    assert_eq!(
        l.transfer_ownership(&ctx(1), Address::zero()),
        Err(Error::UnauthorizedAccount { account: Address::zero() })
    );
    assert_eq!(l.owner(), addr(1));
}

#[test]
fn ownership_moves_to_a_new_owner() {
    let mut l = Erc20Aton::new();
    l.initialize(&ctx(1));
    assert_eq!(l.transfer_ownership(&ctx(1), addr(3)), Ok(()));
    assert_eq!(l.owner(), addr(3));
    assert_eq!(
        l.effects().last(),
        Some(&Effect::OwnershipTransferred { previous_owner: addr(1), new_owner: addr(3) })
    );
    assert_eq!(l.update_stake_engine(&ctx(3), addr(4), true), Ok(()));
    assert!(l.is_stake_engine(addr(4)));
    assert_eq!(l.update_stake_engine(&ctx(3), addr(4), false), Ok(()));
    assert!(!l.is_stake_engine(addr(4)));
}

#[test]
fn mint_aton_credits_the_attached_value() {
    let mut l = Erc20Aton::new();
    let mut c = ctx(1);
    c.value = amt(42);
    assert_eq!(l.mint_aton(&c), Ok(true));
    assert_eq!(l.balance_of(addr(1)), amt(42));
    assert_eq!(l.total_supply(), amt(42));
    assert_eq!(
        l.take_effects(),
        vec![Effect::Transfer { from: Address::zero(), to: addr(1), value: amt(42) }]
    );
    assert!(l.effects().is_empty());
}

#[test]
fn mint_aton_past_the_largest_supply_fails_and_changes_nothing() {
    let mut l = Erc20Aton::new();
    l._mint(addr(1), Amount::max()).unwrap();
    l.take_effects();
    let mut c = ctx(2);
    c.value = amt(1);
    assert_eq!(
        l.mint_aton(&c),
        Err(Error::InsufficientBalance { sender: Address::zero(), balance: Amount::max(), needed: amt(1) })
    );
    assert_eq!(l.total_supply(), Amount::max());
    assert_eq!(l.balance_of(addr(2)), Amount::zero());
    assert!(l.effects().is_empty());
}

#[test]
fn constants_and_number() {
    let l = Erc20Aton::new();
    assert_eq!(l.number(), Amount::zero());
    assert!(Amount::max().is_max());
    assert!(!amt(5).is_max());
    assert!(Amount::zero().is_zero());
}

#[test]
fn env_vars_take_defaults() {
    let e = EnvVars::resolve(None, Some("0xabc".to_string()), None, None, None);
    assert_eq!(e.rpc_url, "http://127.0.0.1:8547");
    assert_eq!(e.erc20aton_address, "0xabc");
    assert_eq!(e.engine_address, "0x000000000000000000000000000");
    assert_eq!(e.vault_address, "0x000000000000000000000000000");
    assert_eq!(e.chain_id, 412346);
    let e = EnvVars::resolve(None, None, None, None, Some(7));
    assert_eq!(e.chain_id, 7);
}
