//! Plain values of the ledger: account addresses and 256-bit token amounts.

use stylus_sdk::alloy_primitives::U256;
use vstd::prelude::*;

verus! {

/// 2^64: the weight of the second limb of an amount.
pub open spec fn limb_base() -> nat {
    0x1_0000_0000_0000_0000
}

/// The largest amount a 256-bit word can hold, 2^256 - 1.
pub open spec fn max_amount() -> nat {
    (limb_base() * limb_base() * limb_base() * limb_base() - 1) as nat
}

/// A 160-bit account address, split into its high 32 bits and low 128 bits.
#[derive(Clone, Copy, Debug, PartialEq, Eq, Structural)]
pub struct Address {
    pub hi: u32,
    pub lo: u128,
}

impl Address {
    /// The zero address, which stands for "nobody" (mint source, burn target).
    pub open spec fn spec_zero() -> Address {
        Address { hi: 0, lo: 0 }
    }

    pub fn new(hi: u32, lo: u128) -> (r: Address)
        ensures
            r.hi == hi,
            r.lo == lo,
    {
        Address { hi, lo }
    }

    pub fn zero() -> (r: Address)
        ensures
            r == Address::spec_zero(),
    {
        Address { hi: 0, lo: 0 }
    }

    pub fn is_zero(&self) -> (r: bool)
        ensures
            r == (*self == Address::spec_zero()),
    {
        self.hi == 0 && self.lo == 0
    }
}

/// The pair of accounts an allowance belongs to.
#[derive(Clone, Copy, Debug, PartialEq, Eq, Structural)]
pub struct AllowanceKey {
    pub owner: Address,
    pub spender: Address,
}

/// An unsigned 256-bit amount, as four 64-bit limbs, least significant first.
#[derive(Clone, Copy, Debug, PartialEq, Eq, Structural)]
pub struct Amount {
    pub l0: u64,
    pub l1: u64,
    pub l2: u64,
    pub l3: u64,
}

impl View for Amount {
    type V = nat;

    open spec fn view(&self) -> nat {
        self.l0 as nat + limb_base() * (self.l1 as nat + limb_base() * (self.l2 as nat
            + limb_base() * self.l3 as nat))
    }
}

/// Every amount lies in `0 ..= max_amount()`.
pub proof fn lemma_amount_bounded(a: Amount)
    ensures
        a@ <= max_amount(),
{
    let b = limb_base() as int;
    let x2 = a.l2 as int + b * a.l3 as int;
    let x1 = a.l1 as int + b * x2;
    assert(a.l3 as int <= b - 1);
    assert(b * a.l3 as int <= b * (b - 1)) by (nonlinear_arith)
        requires
            a.l3 as int <= b - 1,
            b > 0,
    ;
    assert(x2 <= b * b - 1);
    assert(b * x2 <= b * (b * b - 1)) by (nonlinear_arith)
        requires
            x2 <= b * b - 1,
            b > 0,
    ;
    assert(x1 <= b * b * b - 1) by (nonlinear_arith)
        requires
            x1 == a.l1 as int + b * x2,
            a.l1 as int <= b - 1,
            b * x2 <= b * (b * b - 1),
    ;
    assert(b * x1 <= b * (b * b * b - 1)) by (nonlinear_arith)
        requires
            x1 <= b * b * b - 1,
            b > 0,
    ;
    assert(b * b * b * b - 1 == max_amount());
    assert(a@ <= b * b * b * b - 1) by (nonlinear_arith)
        requires
            a@ == a.l0 as int + b * x1,
            a.l0 as int <= b - 1,
            b * x1 <= b * (b * b * b - 1),
    ;
}

impl Amount {
    pub fn from_u64(v: u64) -> (r: Amount)
        ensures
            r@ == v,
    {
        Amount { l0: v, l1: 0, l2: 0, l3: 0 }
    }

    pub fn zero() -> (r: Amount)
        ensures
            r@ == 0,
    {
        Amount { l0: 0, l1: 0, l2: 0, l3: 0 }
    }

    /// The largest amount, which as an allowance means "unlimited".
    pub fn max() -> (r: Amount)
        ensures
            r@ == max_amount(),
    {
        let r = Amount { l0: u64::MAX, l1: u64::MAX, l2: u64::MAX, l3: u64::MAX };
        assert(r@ == max_amount());
        r
    }

    pub fn is_zero(&self) -> (r: bool)
        ensures
            r == (self@ == 0),
    {
        self.l0 == 0 && self.l1 == 0 && self.l2 == 0 && self.l3 == 0
    }

    pub fn is_max(&self) -> (r: bool)
        ensures
            r == (self@ == max_amount()),
    {
        proof {
            lemma_amount_bounded(*self);
        }
        let r = self.l0 == u64::MAX && self.l1 == u64::MAX && self.l2 == u64::MAX && self.l3
            == u64::MAX;
        assert(r == (self@ == max_amount())) by (nonlinear_arith)
            requires
                r == (self.l0 == u64::MAX && self.l1 == u64::MAX && self.l2 == u64::MAX && self.l3
                    == u64::MAX),
                self@ == self.l0 as nat + limb_base() * (self.l1 as nat + limb_base() * (
                self.l2 as nat + limb_base() * self.l3 as nat)),
                limb_base() == 0x1_0000_0000_0000_0000,
                max_amount() == limb_base() * limb_base() * limb_base() * limb_base() - 1,
        ;
        r
    }
}

/// Relies on `U256::checked_add`: the sum, or nothing where it exceeds 2^256 - 1.
#[verifier::external_body]
pub(crate) fn checked_add(a: Amount, b: Amount) -> (r: Option<Amount>)
    ensures
        match r {
            Some(c) => c@ == a@ + b@,
            None => a@ + b@ > max_amount(),
        },
{
    let x = U256::from_limbs([a.l0, a.l1, a.l2, a.l3]);
    let y = U256::from_limbs([b.l0, b.l1, b.l2, b.l3]);
    match x.checked_add(y) {
        Some(c) => {
            let l = c.into_limbs();
            Some(Amount { l0: l[0], l1: l[1], l2: l[2], l3: l[3] })
        },
        None => None,
    }
}

/// Relies on `U256::checked_sub`: the difference, or nothing where `b` exceeds `a`.
#[verifier::external_body]
pub(crate) fn checked_sub(a: Amount, b: Amount) -> (r: Option<Amount>)
    ensures
        match r {
            Some(c) => c@ == a@ - b@ && b@ <= a@,
            None => a@ < b@,
        },
{
    let x = U256::from_limbs([a.l0, a.l1, a.l2, a.l3]);
    let y = U256::from_limbs([b.l0, b.l1, b.l2, b.l3]);
    match x.checked_sub(y) {
        Some(c) => {
            let l = c.into_limbs();
            Some(Amount { l0: l[0], l1: l[1], l2: l[2], l3: l[3] })
        },
        None => None,
    }
}

/// Relies on `U256`'s `<`: whether `a` is less than `b`.
#[verifier::external_body]
pub(crate) fn less_than(a: Amount, b: Amount) -> (r: bool)
    ensures
        r == (a@ < b@),
{
    U256::from_limbs([a.l0, a.l1, a.l2, a.l3]) < U256::from_limbs([b.l0, b.l1, b.l2, b.l3])
}

} // verus!
