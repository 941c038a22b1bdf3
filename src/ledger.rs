//! The ledger: balances, allowances, supply, and the access-control slots.

use crate::model::{zero_address, CallContext, Effect, Error, TokenState};
use crate::table::{Table, TableKey};
use crate::values::{checked_add, checked_sub, Address, AllowanceKey, Amount};
use vstd::prelude::*;

verus! {

/// The token contract's storage.
pub struct Erc20Aton {
    owner: Address,
    balances: Table<Address, Amount>,
    allowances: Table<AllowanceKey, Amount>,
    total_supply: Amount,
    stake_engine: Table<Address, bool>,
    vault_address: Address,
    effects: Vec<Effect>,
}

impl View for Erc20Aton {
    type V = TokenState;

    closed spec fn view(&self) -> TokenState {
        TokenState {
            balances: Map::new(
                |a: Address| self.balances@.contains_key(a),
                |a: Address| self.balances@[a]@,
            ),
            allowances: Map::new(
                |k: AllowanceKey| self.allowances@.contains_key(k),
                |k: AllowanceKey| self.allowances@[k]@,
            ),
            supply: self.total_supply@,
            owner: self.owner,
            vault: self.vault_address,
            engines: self.stake_engine@,
            effects: self.effects@,
        }
    }
}

impl Erc20Aton {
    /// The tables are consistent, the balances add up to the supply, and the
    /// zero address holds nothing.
    pub closed spec fn wf(&self) -> bool {
        &&& self.balances.wf()
        &&& self.allowances.wf()
        &&& self.stake_engine.wf()
        &&& self.balances.total() == self.total_supply@
        &&& self.balances.amount_of(zero_address()) == 0
    }

    /// A fresh ledger: everything zero or empty.
    pub fn new() -> (r: Erc20Aton)
        ensures
            r.wf(),
            r@.balances == Map::<Address, nat>::empty(),
            r@.allowances == Map::<AllowanceKey, nat>::empty(),
            r@.supply == 0,
            r@.owner == zero_address(),
            r@.vault == zero_address(),
            r@.engines == Map::<Address, bool>::empty(),
            r@.effects == Seq::<Effect>::empty(),
    {
        let r = Erc20Aton {
            owner: Address::zero(),
            balances: Table::new(),
            allowances: Table::new(),
            total_supply: Amount::zero(),
            stake_engine: Table::new(),
            vault_address: Address::zero(),
            effects: Vec::new(),
        };
        assert(r@.balances =~= Map::<Address, nat>::empty());
        assert(r@.allowances =~= Map::<AllowanceKey, nat>::empty());
        r
    }

    /// Balance of `owner`; zero for an unknown account.
    pub fn balance_of(&self, owner: Address) -> (r: Amount)
        requires
            self.wf(),
        ensures
            r@ == self@.balance(owner),
    {
        self.stored_balance(owner)
    }

    fn stored_balance(&self, a: Address) -> (r: Amount)
        requires
            self.balances.wf(),
        ensures
            r@ == self.balances.amount_of(a),
            r@ == self@.balance(a),
    {
        match self.balances.get(&a) {
            Some(v) => v,
            None => Amount::zero(),
        }
    }

    /// Moves `value` from `from` to `to`; a zero `from` mints and a zero `to`
    /// burns, changing the supply instead of a balance. Emits one `Transfer`.
    pub fn _update(&mut self, from: Address, to: Address, value: Amount) -> (r: Result<
        (),
        Error,
    >)
        requires
            old(self).wf(),
        ensures
            final(self).wf(),
            match r {
                Ok(()) => !old(self)@.update_fails(from, value) && final(self)@ == old(self)@.updated(
                    from,
                    to,
                    value,
                ),
                Err(e) => old(self)@.update_fails(from, value) && old(self)@.update_error(
                    e,
                    from,
                    value,
                ) && final(self)@ == old(self)@,
            },
    {
        let ghost s0 = self@;
        proof {
            crate::values::lemma_amount_bounded(self.total_supply);
        }
        if from.is_zero() {
            let current_supply = self.total_supply;
            match checked_add(current_supply, value) {
                None => {
                    return Err(
                        Error::InsufficientBalance {
                            sender: from,
                            balance: current_supply,
                            needed: value,
                        },
                    );
                },
                Some(new_supply) => {
                    self.total_supply = new_supply;
                },
            }
            assert(self@ =~= TokenState { supply: s0.supply + value@, ..s0 });
        } else {
            let from_balance = self.balance_of(from);
            match checked_sub(from_balance, value) {
                None => {
                    return Err(
                        Error::InsufficientBalance {
                            sender: from,
                            balance: from_balance,
                            needed: value,
                        },
                    );
                },
                Some(new_balance) => {
                    self.balances.set_amount(from, new_balance);
                },
            }
            assert(self@ =~= s0.with_balance(from, (s0.balance(from) - value@) as nat));
        }
        let ghost s1 = self@;
        assert(self.balances.total() + value@ == self.total_supply@);
        assert(self.balances.amount_of(zero_address()) == 0);
        if to.is_zero() {
            let current_supply = self.total_supply;
            match checked_sub(current_supply, value) {
                None => {
                    return Err(
                        Error::InsufficientBalance {
                            sender: from,
                            balance: current_supply,
                            needed: value,
                        },
                    );
                },
                Some(new_supply) => {
                    self.total_supply = new_supply;
                },
            }
            assert(self@ =~= TokenState { supply: (s1.supply - value@) as nat, ..s1 });
        } else {
            let to_balance = self.stored_balance(to);
            proof {
                self.balances.lemma_amount_le_total(to);
                crate::values::lemma_amount_bounded(self.total_supply);
            }
            match checked_add(to_balance, value) {
                None => {
                    return Err(
                        Error::InsufficientBalance {
                            sender: to,
                            balance: to_balance,
                            needed: value,
                        },
                    );
                },
                Some(new_balance) => {
                    self.balances.set_amount(to, new_balance);
                },
            }
            assert(self@ =~= s1.with_balance(to, s1.balance(to) + value@));
        }
        let ghost s2 = self@;
        self.effects.push(Effect::Transfer { from, to, value });
        assert(self@ =~= s2.logged(Effect::Transfer { from, to, value }));
        Ok(())
    }

    /// Moves `value` between two accounts, neither of which may be zero.
    pub fn _transfer(&mut self, from: Address, to: Address, value: Amount) -> (r: Result<
        (),
        Error,
    >)
        requires
            old(self).wf(),
        ensures
            final(self).wf(),
            match r {
                Ok(()) => !old(self)@.transfer_fails(from, to, value) && final(self)@ == old(
                    self,
                )@.updated(from, to, value),
                Err(e) => old(self)@.transfer_fails(from, to, value) && old(self)@.transfer_error(
                    e,
                    from,
                    to,
                    value,
                ) && final(self)@ == old(self)@,
            },
    {
        if from.is_zero() {
            return Err(Error::InvalidSender { sender: Address::zero() });
        }
        if to.is_zero() {
            return Err(Error::InvalidReceiver { receiver: Address::zero() });
        }
        self._update(from, to, value)
    }

    /// Creates `value` tokens for `account`; the supply never wraps.
    pub fn _mint(&mut self, account: Address, value: Amount) -> (r: Result<(), Error>)
        requires
            old(self).wf(),
        ensures
            final(self).wf(),
            match r {
                Ok(()) => !old(self)@.mint_fails(account, value) && final(self)@ == old(
                    self,
                )@.updated(zero_address(), account, value),
                Err(e) => old(self)@.mint_fails(account, value) && old(self)@.mint_error(
                    e,
                    account,
                    value,
                ) && final(self)@ == old(self)@,
            },
    {
        if account.is_zero() {
            return Err(Error::InvalidReceiver { receiver: Address::zero() });
        }
        self._update(Address::zero(), account, value)
    }

    /// Destroys `value` of the tokens of `account`, lowering the supply.
    pub fn _burn(&mut self, account: Address, value: Amount) -> (r: Result<(), Error>)
        requires
            old(self).wf(),
        ensures
            final(self).wf(),
            match r {
                Ok(()) => !old(self)@.burn_fails(account, value) && final(self)@ == old(
                    self,
                )@.updated(account, zero_address(), value) && final(self)@.supply + value@ == old(
                    self,
                )@.supply,
                Err(e) => old(self)@.burn_fails(account, value) && old(self)@.burn_error(
                    e,
                    account,
                    value,
                ) && final(self)@ == old(self)@,
            },
    {
        if account.is_zero() {
            return Err(Error::InvalidSender { sender: Address::zero() });
        }
        proof {
            lemma_balance_le_supply(self, account);
        }
        self._update(account, Address::zero(), value)
    }

    /// Sets the allowance of `spender` over the tokens of `owner` to `value`,
    /// replacing the earlier one; emits `Approval` when `emit_event` is set.
    pub fn _approve(&mut self, owner: Address, spender: Address, value: Amount, emit_event: bool) -> (r:
        Result<bool, Error>)
        requires
            old(self).wf(),
        ensures
            final(self).wf(),
            match r {
                Ok(b) => b && !old(self)@.approve_fails(owner, spender) && final(self)@ == (if emit_event {
                    old(self)@.with_allowance(owner, spender, value@).logged(
                        Effect::Approval { owner, spender, value },
                    )
                } else {
                    old(self)@.with_allowance(owner, spender, value@)
                }),
                Err(e) => old(self)@.approve_fails(owner, spender) && old(self)@.approve_error(
                    e,
                    owner,
                    spender,
                ) && final(self)@ == old(self)@,
            },
    {
        if owner.is_zero() {
            return Err(Error::InvalidApprover { approver: Address::zero() });
        }
        if spender.is_zero() {
            return Err(Error::InvalidSpender { spender: Address::zero() });
        }
        let ghost s0 = self@;
        self.allowances.set(AllowanceKey { owner, spender }, value);
        assert(self@ =~= s0.with_allowance(owner, spender, value@));
        if emit_event {
            let ghost s1 = self@;
            self.effects.push(Effect::Approval { owner, spender, value });
            assert(self@ =~= s1.logged(Effect::Approval { owner, spender, value }));
        }
        Ok(true)
    }

    /// Allowance of `spender` over the tokens of `owner`; zero by default.
    pub fn allowance(&self, owner: Address, spender: Address) -> (r: Amount)
        requires
            self.wf(),
        ensures
            r@ == self@.allowance(owner, spender),
    {
        match self.allowances.get(&AllowanceKey { owner, spender }) {
            Some(v) => v,
            None => Amount::zero(),
        }
    }

    /// Takes `value` from an allowance; an unlimited allowance stays as it is.
    pub fn _spend_allowance(&mut self, owner: Address, spender: Address, value: Amount) -> (r:
        Result<(), Error>)
        requires
            old(self).wf(),
        ensures
            final(self).wf(),
            match r {
                Ok(()) => !old(self)@.spend_fails(owner, spender, value) && final(self)@ == old(
                    self,
                )@.spent(owner, spender, value),
                Err(e) => old(self)@.spend_fails(owner, spender, value) && old(self)@.spend_error(
                    e,
                    owner,
                    spender,
                    value,
                ) && final(self)@ == old(self)@,
            },
    {
        let current_allowance = self.allowance(owner, spender);
        if !current_allowance.is_max() {
            match checked_sub(current_allowance, value) {
                None => {
                    return Err(
                        Error::InsufficientAllowance {
                            spender,
                            allowance: current_allowance,
                            needed: value,
                        },
                    );
                },
                Some(rest) => {
                    match self._approve(owner, spender, rest, false) {
                        Ok(_) => {},
                        Err(e) => {
                            return Err(e);
                        },
                    }
                },
            }
        }
        Ok(())
    }

    /// Whether `transfer_from` by the caller may spend `value` of the tokens
    /// of `from`: the allowance covers it or is unlimited. A host can ask
    /// this before it reads anything from the vault.
    pub fn can_spend(&self, ctx: &CallContext, from: Address, value: Amount) -> (r: bool)
        requires
            self.wf(),
        ensures
            r == !self@.allowance_short(from, ctx.sender, value),
    {
        let current = self.allowance(from, ctx.sender);
        current.is_max() || !crate::values::less_than(current, value)
    }

    /// Takes `value` from the allowance of `spender` over the tokens of
    /// `owner`, with no event; an unlimited allowance stays as it is.
    pub(crate) fn take_allowance(&mut self, owner: Address, spender: Address, value: Amount) -> (r:
        Result<(), Error>)
        requires
            old(self).wf(),
        ensures
            final(self).wf(),
            match r {
                Ok(()) => !old(self)@.allowance_short(owner, spender, value) && final(self)@ == old(
                    self,
                )@.spent(owner, spender, value),
                Err(e) => old(self)@.allowance_short(owner, spender, value) && old(
                    self,
                )@.allowance_error(e, owner, spender, value) && final(self)@ == old(self)@,
            },
    {
        let current_allowance = self.allowance(owner, spender);
        if !current_allowance.is_max() {
            match checked_sub(current_allowance, value) {
                None => {
                    return Err(
                        Error::InsufficientAllowance {
                            spender,
                            allowance: current_allowance,
                            needed: value,
                        },
                    );
                },
                Some(rest) => {
                    let ghost s0 = self@;
                    self.allowances.set(AllowanceKey { owner, spender }, rest);
                    assert(self@ =~= s0.with_allowance(owner, spender, rest@));
                },
            }
        }
        Ok(())
    }

    /// Sets the caller's allowance for `spender` and emits `Approval`.
    pub fn approve(&mut self, ctx: &CallContext, spender: Address, value: Amount) -> (r: Result<
        bool,
        Error,
    >)
        requires
            old(self).wf(),
        ensures
            final(self).wf(),
            match r {
                Ok(b) => b && !old(self)@.approve_fails(ctx.sender, spender) && final(self)@ == old(
                    self,
                )@.with_allowance(ctx.sender, spender, value@).logged(
                    Effect::Approval { owner: ctx.sender, spender, value },
                ),
                Err(e) => old(self)@.approve_fails(ctx.sender, spender) && old(
                    self,
                )@.approve_error(e, ctx.sender, spender) && final(self)@ == old(self)@,
            },
    {
        self._approve(ctx.sender, spender, value, true)
    }

    /// Binds the caller as owner, once; later calls return false and change nothing.
    pub fn initialize(&mut self, ctx: &CallContext) -> (r: bool)
        requires
            old(self).wf(),
        ensures
            final(self).wf(),
            (r, final(self)@) == old(self)@.initialized(ctx.sender),
    {
        if !self.owner.is_zero() {
            return false;
        }
        self.owner = ctx.sender;
        true
    }

    /// Binds the vault address, once; later calls return false and change nothing.
    pub fn set_vault(&mut self, vault_address: Address) -> (r: bool)
        requires
            old(self).wf(),
        ensures
            final(self).wf(),
            (r, final(self)@) == old(self)@.vault_set(vault_address),
    {
        if !self.vault_address.is_zero() {
            return false;
        }
        self.vault_address = vault_address;
        true
    }

    /// Succeeds exactly when the caller is the owner.
    pub fn _only_owner(&self, ctx: &CallContext) -> (r: Result<(), Error>)
        ensures
            r == (if self@.owner == ctx.sender {
                Ok(())
            } else {
                Err(Error::UnauthorizedAccount { account: ctx.sender })
            }),
    {
        if !self.owner.same_key(&ctx.sender) {
            return Err(Error::UnauthorizedAccount { account: ctx.sender });
        }
        Ok(())
    }

    /// Replaces the owner and emits `OwnershipTransferred`.
    pub fn _transfer_ownership(&mut self, new_owner: Address)
        requires
            old(self).wf(),
        ensures
            final(self).wf(),
            final(self)@ == old(self)@.owner_changed(new_owner),
    {
        let previous_owner = self.owner;
        let ghost s0 = self@;
        self.owner = new_owner;
        self.effects.push(Effect::OwnershipTransferred { previous_owner, new_owner });
        assert(self@ =~= s0.owner_changed(new_owner));
    }

    /// The owner hands ownership to a non-zero address.
    pub fn transfer_ownership(&mut self, ctx: &CallContext, new_owner: Address) -> (r: Result<
        (),
        Error,
    >)
        requires
            old(self).wf(),
        ensures
            final(self).wf(),
            old(self)@.owner != ctx.sender ==> r == Err::<(), Error>(
                Error::UnauthorizedAccount { account: ctx.sender },
            ) && final(self)@ == old(self)@,
            old(self)@.owner == ctx.sender && new_owner == zero_address() ==> r == Err::<(), Error>(
                Error::UnauthorizedAccount { account: zero_address() },
            ) && final(self)@ == old(self)@,
            old(self)@.owner == ctx.sender && new_owner != zero_address() ==> r == Ok::<(), Error>(
                (),
            ) && final(self)@ == old(self)@.owner_changed(new_owner),
    {
        match self._only_owner(ctx) {
            Ok(()) => {},
            Err(e) => {
                return Err(e);
            },
        }
        if new_owner.is_zero() {
            return Err(Error::UnauthorizedAccount { account: Address::zero() });
        }
        self._transfer_ownership(new_owner);
        Ok(())
    }

    /// The owner grants or revokes mint authorization; emits `EngineUpdated`.
    pub fn update_stake_engine(&mut self, ctx: &CallContext, account: Address, status: bool) -> (r:
        Result<(), Error>)
        requires
            old(self).wf(),
        ensures
            final(self).wf(),
            old(self)@.owner != ctx.sender ==> r == Err::<(), Error>(
                Error::UnauthorizedAccount { account: ctx.sender },
            ) && final(self)@ == old(self)@,
            old(self)@.owner == ctx.sender ==> r == Ok::<(), Error>(()) && final(self)@ == old(
                self,
            )@.engine_updated(account, status),
    {
        match self._only_owner(ctx) {
            Ok(()) => {},
            Err(e) => {
                return Err(e);
            },
        }
        let ghost s0 = self@;
        self.stake_engine.set(account, status);
        self.effects.push(Effect::EngineUpdated { account, status });
        assert(self@ =~= s0.engine_updated(account, status));
        Ok(())
    }

    /// Whether `account` may mint.
    pub fn is_stake_engine(&self, account: Address) -> (r: bool)
        requires
            self.wf(),
        ensures
            r == self@.is_engine(account),
    {
        match self.stake_engine.get(&account) {
            Some(b) => b,
            None => false,
        }
    }

    pub fn owner(&self) -> (r: Address)
        ensures
            r == self@.owner,
    {
        self.owner
    }

    pub fn vault(&self) -> (r: Address)
        ensures
            r == self@.vault,
    {
        self.vault_address
    }

    pub fn vault_address(&self) -> (r: Address)
        ensures
            r == self@.vault,
    {
        self.vault_address
    }

    pub fn total_supply(&self) -> (r: Amount)
        ensures
            r@ == self@.supply,
    {
        self.total_supply
    }

    /// Appends an effect to the record.
    pub(crate) fn record(&mut self, e: Effect)
        requires
            old(self).wf(),
        ensures
            final(self).wf(),
            final(self)@ == old(self)@.logged(e),
    {
        let ghost s0 = self@;
        self.effects.push(e);
        assert(self@ =~= s0.logged(e));
    }

    /// The effects recorded so far, oldest first.
    pub fn effects(&self) -> (r: &Vec<Effect>)
        ensures
            r@ == self@.effects,
    {
        &self.effects
    }

    /// Hands the recorded effects to the host and empties the record.
    pub fn take_effects(&mut self) -> (r: Vec<Effect>)
        requires
            old(self).wf(),
        ensures
            final(self).wf(),
            r@ == old(self)@.effects,
            final(self)@ == (TokenState { effects: Seq::empty(), ..old(self)@ }),
    {
        let mut taken: Vec<Effect> = Vec::new();
        let ghost s0 = self@;
        std::mem::swap(&mut taken, &mut self.effects);
        assert(self@ =~= (TokenState { effects: Seq::empty(), ..s0 }));
        taken
    }

    /// A copy of the whole state, with the same invariant.
    pub(crate) fn duplicate(&self) -> (r: Erc20Aton)
        requires
            self.wf(),
        ensures
            r.wf(),
            r@ == self@,
    {
        let mut effects: Vec<Effect> = Vec::new();
        let mut i: usize = 0;
        while i < self.effects.len()
            invariant
                i <= self.effects@.len(),
                effects@ == self.effects@.subrange(0, i as int),
            decreases self.effects@.len() - i,
        {
            effects.push(self.effects[i]);
            i = i + 1;
        }
        assert(effects@ =~= self.effects@);
        let r = Erc20Aton {
            owner: self.owner,
            balances: self.balances.duplicate(),
            allowances: self.allowances.duplicate(),
            total_supply: self.total_supply,
            stake_engine: self.stake_engine.duplicate(),
            vault_address: self.vault_address,
            effects,
        };
        assert(r@ =~= self@);
        r
    }

    /// The token's name.
    pub fn name(&self) -> (r: String)
        ensures
            r@ == "ATON Stylus"@,
    {
        "ATON Stylus".to_owned()
    }

    /// The token's symbol.
    pub fn symbol(&self) -> (r: String)
        ensures
            r@ == "ATON"@,
    {
        "ATON".to_owned()
    }

    /// Decimal places shown for the token.
    pub fn decimals(&self) -> (r: u8)
        ensures
            r == 18,
    {
        18u8
    }

    /// A constant zero, kept for callers that read it.
    pub fn number(&self) -> (r: Amount)
        ensures
            r@ == 0,
    {
        Amount::zero()
    }
}

/// Conservation: in every reachable state the accounts that hold a balance,
/// each counted once, hold the total supply between them. Every operation
/// keeps `wf`, so this holds after any sequence of mints, burns and transfers.
pub proof fn lemma_balances_sum_to_supply(l: &Erc20Aton)
    requires
        l.wf(),
    ensures
        exists|accounts: Seq<Address>|
            {
                &&& accounts.no_duplicates()
                &&& forall|a: Address| l@.balances.contains_key(a) <==> accounts.contains(a)
                &&& l@.balances_of(accounts) == l@.supply
            },
{
    let entries = l.balances.entries@;
    let accounts = Seq::new(entries.len(), |i: int| entries[i].0);
    lemma_prefix_sums(l, accounts, entries.len() as int);
    assert(accounts.subrange(0, entries.len() as int) =~= accounts);
    assert(entries.subrange(0, entries.len() as int) =~= entries);
    assert forall|a: Address| l@.balances.contains_key(a) <==> accounts.contains(a) by {
        if l@.balances.contains_key(a) {
            let i = choose|i: int| 0 <= i < entries.len() && entries[i].0 == a;
            assert(accounts[i] == a);
        }
        if accounts.contains(a) {
            let i = choose|i: int| 0 <= i < accounts.len() && accounts[i] == a;
            assert(l.balances@.contains_key(entries[i].0));
        }
    }
    assert(accounts.no_duplicates());
}

proof fn lemma_prefix_sums(l: &Erc20Aton, accounts: Seq<Address>, k: int)
    requires
        l.wf(),
        accounts.len() == l.balances.entries@.len(),
        forall|i: int| 0 <= i < accounts.len() ==> accounts[i] == l.balances.entries@[i].0,
        0 <= k <= accounts.len(),
    ensures
        l@.balances_of(accounts.subrange(0, k)) == crate::table::sum_amounts(
            l.balances.entries@.subrange(0, k),
        ),
    decreases k,
{
    let entries = l.balances.entries@;
    if k > 0 {
        lemma_prefix_sums(l, accounts, k - 1);
        assert(accounts.subrange(0, k).drop_last() =~= accounts.subrange(0, k - 1));
        assert(entries.subrange(0, k).drop_last() =~= entries.subrange(0, k - 1));
        assert(l.balances@.contains_key(entries[k - 1].0));
    }
}

/// No account holds more than the total supply.
pub proof fn lemma_balance_le_supply(l: &Erc20Aton, a: Address)
    requires
        l.wf(),
    ensures
        l@.balance(a) <= l@.supply,
{
    l.balances.lemma_amount_le_total(a);
}

/// The zero address never holds tokens: minting and burning go through it.
pub proof fn lemma_zero_address_holds_nothing(l: &Erc20Aton)
    requires
        l.wf(),
    ensures
        l@.balance(zero_address()) == 0,
{
}

} // verus!
