//! Properties that relate several operations, stated over the model.

use crate::model::{zero_address, CallContext, Commissions, Effect, Error, TokenState};
use crate::values::{max_amount, Address, Amount};
use vstd::prelude::*;

verus! {

/// A mint that would take the supply past 2^256 - 1 is refused; the ledger's
/// `_mint` then leaves the state as it was.
pub proof fn lemma_mint_never_wraps(s: TokenState, account: Address, v: Amount)
    requires
        s.supply + v@ > max_amount(),
    ensures
        s.mint_fails(account, v),
        account != zero_address() ==> forall|e: Error|
            #[trigger] s.mint_error(e, account, v) ==> e matches Error::InsufficientBalance {
                ..
            },
{
}

/// After `owner` approves `spender` for `v`, a `transfer_from` of exactly `v`
/// by `spender` succeeds when the balance of `owner` covers it, and leaves the
/// allowance at zero. (`v` is not the unlimited amount, which is never spent.)
pub proof fn lemma_exact_allowance_is_used_up(
    s: TokenState,
    owner: CallContext,
    spender: CallContext,
    to: Address,
    v: Amount,
    c: Commissions,
)
    requires
        owner.sender != zero_address(),
        spender.sender != zero_address(),
        to != zero_address(),
        v@ != max_amount(),
        s.with_allowance(owner.sender, spender.sender, v@).logged(
            Effect::Approval { owner: owner.sender, spender: spender.sender, value: v },
        ).transfer_from_settled(spender, owner.sender, to, v, c).balance(owner.sender) >= v@,
    ensures
        ({
            let approved = s.with_allowance(owner.sender, spender.sender, v@).logged(
                Effect::Approval { owner: owner.sender, spender: spender.sender, value: v },
            );
            &&& !approved.approve_fails(owner.sender, spender.sender)
            &&& !approved.transfer_from_fails(spender, owner.sender, to, v, c)
            &&& approved.transfer_from_call(spender, owner.sender, to, v, c).allowance(
                owner.sender,
                spender.sender,
            ) == 0
        }),
{
    let approved = s.with_allowance(owner.sender, spender.sender, v@).logged(
        Effect::Approval { owner: owner.sender, spender: spender.sender, value: v },
    );
    let spent = approved.spent(owner.sender, spender.sender, v);
    assert(spent.allowance(owner.sender, spender.sender) == 0);
    lemma_settled_keeps_allowances(spent, spender.own_address, to, owner.sender, c);
}

/// A `transfer_from` of more than a limited allowance is refused with
/// `InsufficientAllowance` (and the ledger's `transfer_from` then changes nothing).
pub proof fn lemma_exceeding_allowance_is_refused(
    s: TokenState,
    ctx: CallContext,
    from: Address,
    to: Address,
    v: Amount,
    c: Commissions,
)
    requires
        s.allowance(from, ctx.sender) != max_amount(),
        s.allowance(from, ctx.sender) < v@,
    ensures
        s.transfer_from_fails(ctx, from, to, v, c),
        forall|e: Error|
            #[trigger] s.transfer_from_error(e, ctx, from, to, v, c) ==> e matches Error::InsufficientAllowance {
                ..
            },
{
}

/// An unlimited allowance stays unlimited through any `transfer_from`, so
/// repeated calls never decrement it.
pub proof fn lemma_unlimited_allowance_is_kept(
    s: TokenState,
    ctx: CallContext,
    from: Address,
    to: Address,
    v: Amount,
    c: Commissions,
)
    requires
        s.allowance(from, ctx.sender) == max_amount(),
    ensures
        !s.transfer_from_fails(ctx, from, to, v, c) ==> s.transfer_from_call(
            ctx,
            from,
            to,
            v,
            c,
        ).allowance(from, ctx.sender) == max_amount(),
{
    lemma_settled_keeps_allowances(s, ctx.own_address, to, from, c);
}

/// Settlement and transfers touch balances, supply and effects only.
pub proof fn lemma_settled_keeps_allowances(
    s: TokenState,
    own: Address,
    to: Address,
    from: Address,
    c: Commissions,
)
    ensures
        s.settled(own, to, from, c).allowances == s.allowances,
        forall|a: Address, b: Address, v: Amount|
            #[trigger] s.settled(own, to, from, c).updated(a, b, v).allowances == s.allowances,
{
}

/// Initializing twice: the second call returns false and keeps the owner
/// bound by the first (a first caller of zero binds nothing).
pub proof fn lemma_initialize_binds_once(s: TokenState, first: Address, second: Address)
    requires
        first != zero_address(),
    ensures
        ({
            let (_, s1) = s.initialized(first);
            let (b2, s2) = s1.initialized(second);
            !b2 && s2 == s1 && s2.owner == s1.owner
        }),
{
}

/// Setting the vault twice: the second call returns false and keeps the vault
/// bound by the first (binding zero binds nothing).
pub proof fn lemma_vault_binds_once(s: TokenState, first: Address, second: Address)
    requires
        first != zero_address(),
    ensures
        ({
            let (_, s1) = s.vault_set(first);
            let (b2, s2) = s1.vault_set(second);
            !b2 && s2 == s1 && s2.vault == s1.vault
        }),
{
}

} // verus!
