//! The abstract state of the token and the transitions of every operation.

use crate::values::{max_amount, Address, AllowanceKey, Amount};
use vstd::prelude::*;

verus! {

/// Why an operation was refused.
#[derive(Clone, Copy, Debug, PartialEq, Eq, Structural)]
pub enum Error {
    /// A swap of nothing, or of more than the caller or the reserve holds.
    Zero { account: Address },
    /// An owner-only operation called by someone else.
    UnauthorizedAccount { account: Address },
    /// Too small a balance, or a supply or balance that would overflow.
    InsufficientBalance { sender: Address, balance: Amount, needed: Amount },
    /// A transfer from the zero address.
    InvalidSender { sender: Address },
    /// A transfer to the zero address.
    InvalidReceiver { receiver: Address },
    /// Too small an allowance.
    InsufficientAllowance { spender: Address, allowance: Amount, needed: Amount },
    /// An approval for the zero address.
    InvalidSpender { spender: Address },
    /// An approval by the zero address.
    InvalidApprover { approver: Address },
}

/// What the host must do after a successful call: emit an event, or call out.
#[derive(Clone, Copy, Debug, PartialEq, Eq, Structural)]
pub enum Effect {
    /// Event: `value` tokens moved (from zero: minted; to zero: burnt).
    Transfer { from: Address, to: Address, value: Amount },
    /// Event: `owner` allowed `spender` to spend `value`.
    Approval { owner: Address, spender: Address, value: Amount },
    /// Event: the owner changed.
    OwnershipTransferred { previous_owner: Address, new_owner: Address },
    /// Event: an account's mint authorization changed.
    EngineUpdated { account: Address, status: bool },
    /// Call: clear the commission the vault holds for `account`.
    ClearCommission { account: Address },
    /// Call: send `amount` of native value to `to`; the call must revert if this fails.
    ReleaseNative { to: Address, amount: Amount },
    /// Diagnostic: settlement could not pay `to` its commission of `amount`
    /// from the vault's tokens, and went on without it.
    PaymentSkipped { to: Address, amount: Amount },
}

/// What the host tells about the current call.
#[derive(Clone, Copy, Debug, PartialEq, Eq, Structural)]
pub struct CallContext {
    /// The account making the call.
    pub sender: Address,
    /// The native value attached to the call.
    pub value: Amount,
    /// The token contract's own address.
    pub own_address: Address,
    /// The native value the token contract holds.
    pub own_balance: Amount,
}

/// The commissions the vault reports before a transfer; a failed query counts as zero.
#[derive(Clone, Copy, Debug, PartialEq, Eq, Structural)]
pub struct Commissions {
    /// Owed to the sending side.
    pub from: Amount,
    /// Owed to the receiving side.
    pub to: Amount,
    /// Paid to the owner when the contract itself takes part (the receiver's, read again).
    pub owner_side: Amount,
}

/// The token's state as mathematics. Unknown balances and allowances are zero.
#[verifier::ext_equal]
pub struct TokenState {
    pub balances: Map<Address, nat>,
    pub allowances: Map<AllowanceKey, nat>,
    pub supply: nat,
    pub owner: Address,
    pub vault: Address,
    pub engines: Map<Address, bool>,
    pub effects: Seq<Effect>,
}

pub open spec fn zero_address() -> Address {
    Address::spec_zero()
}

impl TokenState {
    pub open spec fn balance(self, a: Address) -> nat {
        if self.balances.contains_key(a) {
            self.balances[a]
        } else {
            0
        }
    }

    /// The sum of the balances of a list of accounts.
    pub open spec fn balances_of(self, accounts: Seq<Address>) -> nat
        decreases accounts.len(),
    {
        if accounts.len() == 0 {
            0
        } else {
            self.balances_of(accounts.drop_last()) + self.balance(accounts.last())
        }
    }

    pub open spec fn allowance(self, owner: Address, spender: Address) -> nat {
        let k = AllowanceKey { owner, spender };
        if self.allowances.contains_key(k) {
            self.allowances[k]
        } else {
            0
        }
    }

    pub open spec fn is_engine(self, a: Address) -> bool {
        self.engines.contains_key(a) && self.engines[a]
    }

    pub open spec fn logged(self, e: Effect) -> TokenState {
        TokenState { effects: self.effects.push(e), ..self }
    }

    pub open spec fn with_balance(self, a: Address, n: nat) -> TokenState {
        TokenState { balances: self.balances.insert(a, n), ..self }
    }

    pub open spec fn with_allowance(self, owner: Address, spender: Address, n: nat) -> TokenState {
        TokenState {
            allowances: self.allowances.insert(AllowanceKey { owner, spender }, n),
            ..self
        }
    }

    /// The unified move of value: a zero `from` mints, a zero `to` burns.
    pub open spec fn update_fails(self, from: Address, v: Amount) -> bool {
        if from == zero_address() {
            self.supply + v@ > max_amount()
        } else {
            self.balance(from) < v@
        }
    }

    pub open spec fn update_error(self, e: Error, from: Address, v: Amount) -> bool {
        e matches Error::InsufficientBalance { sender, balance, needed } && sender == from
            && needed == v && balance@ == (if from == zero_address() {
            self.supply
        } else {
            self.balance(from)
        })
    }

    pub open spec fn updated(self, from: Address, to: Address, v: Amount) -> TokenState {
        let debited = if from == zero_address() {
            TokenState { supply: self.supply + v@, ..self }
        } else {
            self.with_balance(from, (self.balance(from) - v@) as nat)
        };
        let credited = if to == zero_address() {
            TokenState { supply: (debited.supply - v@) as nat, ..debited }
        } else {
            debited.with_balance(to, debited.balance(to) + v@)
        };
        credited.logged(Effect::Transfer { from, to, value: v })
    }

    /// A transfer between two accounts, neither of them zero.
    pub open spec fn transfer_fails(self, from: Address, to: Address, v: Amount) -> bool {
        from == zero_address() || to == zero_address() || self.balance(from) < v@
    }

    pub open spec fn transfer_error(self, e: Error, from: Address, to: Address, v: Amount) -> bool {
        if from == zero_address() {
            e == Error::InvalidSender { sender: zero_address() }
        } else if to == zero_address() {
            e == Error::InvalidReceiver { receiver: zero_address() }
        } else {
            self.update_error(e, from, v)
        }
    }

    /// A settlement payment from the vault: made where it can be, recorded as
    /// skipped where it cannot.
    pub open spec fn paid(self, vault: Address, to: Address, v: Amount) -> TokenState {
        if self.transfer_fails(vault, to, v) {
            self.logged(Effect::PaymentSkipped { to, amount: v })
        } else {
            self.updated(vault, to, v)
        }
    }

    pub open spec fn mint_fails(self, account: Address, v: Amount) -> bool {
        account == zero_address() || self.supply + v@ > max_amount()
    }

    pub open spec fn mint_error(self, e: Error, account: Address, v: Amount) -> bool {
        if account == zero_address() {
            e == Error::InvalidReceiver { receiver: zero_address() }
        } else {
            self.update_error(e, zero_address(), v)
        }
    }

    pub open spec fn burn_fails(self, account: Address, v: Amount) -> bool {
        account == zero_address() || self.balance(account) < v@
    }

    pub open spec fn burn_error(self, e: Error, account: Address, v: Amount) -> bool {
        if account == zero_address() {
            e == Error::InvalidSender { sender: zero_address() }
        } else {
            self.update_error(e, account, v)
        }
    }

    pub open spec fn approve_fails(self, owner: Address, spender: Address) -> bool {
        owner == zero_address() || spender == zero_address()
    }

    pub open spec fn approve_error(self, e: Error, owner: Address, spender: Address) -> bool {
        if owner == zero_address() {
            e == Error::InvalidApprover { approver: zero_address() }
        } else {
            e == Error::InvalidSpender { spender: zero_address() }
        }
    }

    /// Spending from an allowance; the largest amount stands for "unlimited".
    pub open spec fn spend_fails(self, owner: Address, spender: Address, v: Amount) -> bool {
        let current = self.allowance(owner, spender);
        current != max_amount() && (current < v@ || self.approve_fails(owner, spender))
    }

    pub open spec fn spend_error(self, e: Error, owner: Address, spender: Address, v: Amount) -> bool {
        let current = self.allowance(owner, spender);
        if current < v@ {
            e matches Error::InsufficientAllowance { spender: s, allowance, needed } && s
                == spender && allowance@ == current && needed == v
        } else {
            self.approve_error(e, owner, spender)
        }
    }

    /// What `transfer_from` asks of an allowance: enough of it, or the unlimited amount.
    pub open spec fn allowance_short(self, owner: Address, spender: Address, v: Amount) -> bool {
        let current = self.allowance(owner, spender);
        current != max_amount() && current < v@
    }

    pub open spec fn allowance_error(self, e: Error, owner: Address, spender: Address, v: Amount) -> bool {
        e matches Error::InsufficientAllowance { spender: s, allowance, needed } && s == spender
            && allowance@ == self.allowance(owner, spender) && needed == v
    }

    pub open spec fn spent(self, owner: Address, spender: Address, v: Amount) -> TokenState {
        let current = self.allowance(owner, spender);
        if current == max_amount() {
            self
        } else {
            self.with_allowance(owner, spender, (current - v@) as nat)
        }
    }

    /// Whether the owner's commission is settled too: the contract itself takes part.
    pub open spec fn involves_contract(own: Address, to: Address, from: Address) -> bool {
        from == own || to == own
    }

    /// Best-effort commission settlement before a transfer from `from` to `to`;
    /// it never fails.
    pub open spec fn settled(self, own: Address, to: Address, from: Address, c: Commissions) -> TokenState {
        let owner = self.owner;
        let vault = self.vault;
        let paid = self.paid(vault, to, c.to).paid(vault, from, c.from);
        let cleared = paid.logged(Effect::ClearCommission { account: to }).logged(
            Effect::ClearCommission { account: from },
        );
        if TokenState::involves_contract(own, to, from) {
            cleared.paid(vault, owner, c.owner_side).logged(
                Effect::ClearCommission { account: owner },
            )
        } else {
            cleared
        }
    }

    /// Binds the owner once: the first call from the zero slot wins.
    pub open spec fn initialized(self, sender: Address) -> (bool, TokenState) {
        if self.owner != zero_address() {
            (false, self)
        } else {
            (true, TokenState { owner: sender, ..self })
        }
    }

    /// Binds the vault address once, in the same way as the owner.
    pub open spec fn vault_set(self, vault: Address) -> (bool, TokenState) {
        if self.vault != zero_address() {
            (false, self)
        } else {
            (true, TokenState { vault, ..self })
        }
    }

    pub open spec fn owner_changed(self, new_owner: Address) -> TokenState {
        TokenState { owner: new_owner, ..self }.logged(
            Effect::OwnershipTransferred { previous_owner: self.owner, new_owner },
        )
    }

    pub open spec fn engine_updated(self, account: Address, status: bool) -> TokenState {
        TokenState { engines: self.engines.insert(account, status), ..self }.logged(
            Effect::EngineUpdated { account, status },
        )
    }

    /// `transfer`: settle commissions for the caller and `to`, then move the principal.
    pub open spec fn transfer_call_settled(self, ctx: CallContext, to: Address, c: Commissions) -> TokenState {
        self.settled(ctx.own_address, to, ctx.sender, c)
    }

    pub open spec fn transfer_call_fails(self, ctx: CallContext, to: Address, amount: Amount, c: Commissions) -> bool {
        self.transfer_call_settled(ctx, to, c).transfer_fails(ctx.sender, to, amount)
    }

    /// Any failure of the principal move is reported as the caller's balance
    /// after settlement.
    pub open spec fn transfer_call_error(
        self,
        e: Error,
        ctx: CallContext,
        to: Address,
        amount: Amount,
        c: Commissions,
    ) -> bool {
        e matches Error::InsufficientBalance { sender, balance, needed } && sender == ctx.sender
            && needed == amount && balance@ == self.transfer_call_settled(ctx, to, c).balance(
            ctx.sender,
        )
    }

    pub open spec fn transfer_call(self, ctx: CallContext, to: Address, amount: Amount, c: Commissions) -> TokenState {
        self.transfer_call_settled(ctx, to, c).updated(ctx.sender, to, amount)
    }

    /// `transfer_from`: spend the caller's allowance, settle commissions for
    /// `from` and `to`, then move the principal.
    pub open spec fn transfer_from_settled(
        self,
        ctx: CallContext,
        from: Address,
        to: Address,
        v: Amount,
        c: Commissions,
    ) -> TokenState {
        self.spent(from, ctx.sender, v).settled(ctx.own_address, to, from, c)
    }

    pub open spec fn transfer_from_fails(
        self,
        ctx: CallContext,
        from: Address,
        to: Address,
        v: Amount,
        c: Commissions,
    ) -> bool {
        self.allowance_short(from, ctx.sender, v) || self.transfer_from_settled(
            ctx,
            from,
            to,
            v,
            c,
        ).transfer_fails(from, to, v)
    }

    pub open spec fn transfer_from_error(
        self,
        e: Error,
        ctx: CallContext,
        from: Address,
        to: Address,
        v: Amount,
        c: Commissions,
    ) -> bool {
        if self.allowance_short(from, ctx.sender, v) {
            self.allowance_error(e, from, ctx.sender, v)
        } else {
            self.transfer_from_settled(ctx, from, to, v, c).transfer_error(e, from, to, v)
        }
    }

    pub open spec fn transfer_from_call(
        self,
        ctx: CallContext,
        from: Address,
        to: Address,
        v: Amount,
        c: Commissions,
    ) -> TokenState {
        self.transfer_from_settled(ctx, from, to, v, c).updated(from, to, v)
    }

    /// `swap`: refused for nothing, or for more than the caller's balance or
    /// the contract's native reserve.
    pub open spec fn swap_fails(self, ctx: CallContext, amount: Amount) -> bool {
        amount@ == 0 || self.balance(ctx.sender) < amount@ || ctx.own_balance@ < amount@
    }

    /// Burns the tokens, then asks the host to release as much native value.
    pub open spec fn swapped(self, ctx: CallContext, amount: Amount) -> TokenState {
        let burnt = if self.burn_fails(ctx.sender, amount) {
            self
        } else {
            self.updated(ctx.sender, zero_address(), amount)
        };
        burnt.logged(Effect::ReleaseNative { to: ctx.sender, amount })
    }
}

} // verus!
