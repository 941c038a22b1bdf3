//! Commission settlement and the transfer-class operations built on it.

use crate::ledger::Erc20Aton;
use crate::model::{zero_address, CallContext, Commissions, Effect, Error, TokenState};
use crate::values::{less_than, Address, Amount};
use vstd::prelude::*;

verus! {

impl Erc20Aton {
    /// Whether settlement between `from` and `to` pays the owner's commission
    /// too, so that the host must read it (`Commissions::owner_side`).
    pub fn involves_contract(ctx: &CallContext, to: Address, from: Address) -> (r: bool)
        ensures
            r == TokenState::involves_contract(ctx.own_address, to, from),
    {
        from == ctx.own_address || to == ctx.own_address
    }

    /// `_transfer`, with every failure reported as the balance of `from`.
    pub fn _perform_transfer(&mut self, from: Address, to: Address, amount: Amount) -> (r: Result<
        (),
        Error,
    >)
        requires
            old(self).wf(),
        ensures
            final(self).wf(),
            match r {
                Ok(()) => !old(self)@.transfer_fails(from, to, amount) && final(self)@ == old(
                    self,
                )@.updated(from, to, amount),
                Err(e) => old(self)@.transfer_fails(from, to, amount) && (e matches Error::InsufficientBalance {
                    sender,
                    balance,
                    needed,
                } && sender == from && needed == amount && balance@ == old(self)@.balance(from))
                    && final(self)@ == old(self)@,
            },
    {
        match self._transfer(from, to, amount) {
            Ok(()) => Ok(()),
            Err(_) => Err(
                Error::InsufficientBalance {
                    sender: from,
                    needed: amount,
                    balance: self.balance_of(from),
                },
            ),
        }
    }

    /// One settlement payment from the vault's tokens; where it cannot be made,
    /// a `PaymentSkipped` is recorded instead.
    fn pay(&mut self, vault_address: Address, to: Address, amount: Amount)
        requires
            old(self).wf(),
        ensures
            final(self).wf(),
            final(self)@ == old(self)@.paid(vault_address, to, amount),
    {
        match self._perform_transfer(vault_address, to, amount) {
            Ok(()) => {},
            Err(_) => {
                self.record(Effect::PaymentSkipped { to, amount });
            },
        }
    }

    /// Pays out the commissions the vault reported, from the vault's tokens, and
    /// records that the vault must clear them. Each payment that fails is
    /// skipped and recorded as such; settlement itself never fails.
    pub fn _pay_commissions(
        &mut self,
        ctx: &CallContext,
        to: Address,
        from: Address,
        commissions: &Commissions,
    ) -> (r: Result<(), Error>)
        requires
            old(self).wf(),
        ensures
            final(self).wf(),
            r == Ok::<(), Error>(()),
            final(self)@ == old(self)@.settled(ctx.own_address, to, from, *commissions),
    {
        let owner = self.owner();
        let vault_address = self.vault();
        self.pay(vault_address, to, commissions.to);
        self.pay(vault_address, from, commissions.from);
        self.record(Effect::ClearCommission { account: to });
        self.record(Effect::ClearCommission { account: from });
        if Erc20Aton::involves_contract(ctx, to, from) {
            self.pay(vault_address, owner, commissions.owner_side);
            self.record(Effect::ClearCommission { account: owner });
        }
        Ok(())
    }

    /// Moves `amount` from the caller to `to`, after settling commissions. On
    /// failure nothing changes, settlement included.
    pub fn transfer(
        &mut self,
        ctx: &CallContext,
        to: Address,
        amount: Amount,
        commissions: &Commissions,
    ) -> (r: Result<bool, Error>)
        requires
            old(self).wf(),
        ensures
            final(self).wf(),
            match r {
                Ok(b) => b && !old(self)@.transfer_call_fails(*ctx, to, amount, *commissions)
                    && final(self)@ == old(self)@.transfer_call(*ctx, to, amount, *commissions),
                Err(e) => old(self)@.transfer_call_fails(*ctx, to, amount, *commissions) && old(
                    self,
                )@.transfer_call_error(e, *ctx, to, amount, *commissions) && final(self)@ == old(
                    self,
                )@,
            },
    {
        let caller = ctx.sender;
        let mut work = self.duplicate();
        let _ = work._pay_commissions(ctx, to, caller, commissions);
        match work._transfer(caller, to, amount) {
            Ok(()) => {
                *self = work;
                Ok(true)
            },
            Err(_) => Err(
                Error::InsufficientBalance {
                    sender: caller,
                    needed: amount,
                    balance: work.balance_of(caller),
                },
            ),
        }
    }

    /// Moves `value` from `from` to `to` on the caller's allowance, after
    /// settling commissions. The allowance is spent first, so a refused
    /// allowance settles nothing; on failure nothing changes.
    pub fn transfer_from(
        &mut self,
        ctx: &CallContext,
        from: Address,
        to: Address,
        value: Amount,
        commissions: &Commissions,
    ) -> (r: Result<bool, Error>)
        requires
            old(self).wf(),
        ensures
            final(self).wf(),
            match r {
                Ok(b) => b && !old(self)@.transfer_from_fails(*ctx, from, to, value, *commissions)
                    && final(self)@ == old(self)@.transfer_from_call(
                    *ctx,
                    from,
                    to,
                    value,
                    *commissions,
                ),
                Err(e) => old(self)@.transfer_from_fails(*ctx, from, to, value, *commissions) && old(
                    self,
                )@.transfer_from_error(e, *ctx, from, to, value, *commissions) && final(self)@
                    == old(self)@,
            },
    {
        let mut work = self.duplicate();
        match work.take_allowance(from, ctx.sender, value) {
            Ok(()) => {},
            Err(e) => {
                return Err(e);
            },
        }
        let _ = work._pay_commissions(ctx, to, from, commissions);
        match work._transfer(from, to, value) {
            Ok(()) => {},
            Err(e) => {
                return Err(e);
            },
        }
        *self = work;
        Ok(true)
    }

    /// Credits the caller with the native value attached to the call. A mint
    /// to the zero address, or one that would take the supply past 2^256 - 1,
    /// is refused and changes nothing.
    pub fn mint_aton(&mut self, ctx: &CallContext) -> (r: Result<bool, Error>)
        requires
            old(self).wf(),
        ensures
            final(self).wf(),
            match r {
                Ok(b) => b && !old(self)@.mint_fails(ctx.sender, ctx.value) && final(self)@ == old(
                    self,
                )@.updated(zero_address(), ctx.sender, ctx.value),
                Err(e) => old(self)@.mint_fails(ctx.sender, ctx.value) && old(self)@.mint_error(
                    e,
                    ctx.sender,
                    ctx.value,
                ) && final(self)@ == old(self)@,
            },
    {
        match self._mint(ctx.sender, ctx.value) {
            Ok(()) => Ok(true),
            Err(e) => Err(e),
        }
    }

    /// Exchanges `amount` of the caller's tokens for as much native value: the
    /// tokens are burnt and a `ReleaseNative` is recorded, which the host must
    /// carry out or revert the call.
    pub fn swap(&mut self, ctx: &CallContext, amount: Amount) -> (r: Result<bool, Error>)
        requires
            old(self).wf(),
        ensures
            final(self).wf(),
            match r {
                Ok(b) => b && !old(self)@.swap_fails(*ctx, amount) && final(self)@ == old(
                    self,
                )@.swapped(*ctx, amount) && final(self)@.supply + amount@ == old(self)@.supply,
                Err(e) => old(self)@.swap_fails(*ctx, amount) && e == Error::Zero {
                    account: ctx.sender,
                } && final(self)@ == old(self)@,
            },
    {
        let sender = ctx.sender;
        if amount.is_zero() || less_than(self.balance_of(sender), amount) || less_than(
            ctx.own_balance,
            amount,
        ) {
            return Err(Error::Zero { account: sender });
        }
        proof {
            crate::ledger::lemma_balance_le_supply(self, sender);
            crate::ledger::lemma_zero_address_holds_nothing(self);
        }
        let _ = self._burn(sender, amount);
        self.record(Effect::ReleaseNative { to: sender, amount });
        Ok(true)
    }
}

} // verus!
