use stylus_sdk::alloy_primitives::U256;
use vstd::prelude::*;

verus! {

/// 2^256: every amount is below it.
pub open spec fn amount_modulus() -> nat {
    0x1_0000_0000_0000_0000_0000_0000_0000_0000_0000_0000_0000_0000_0000_0000_0000_0000nat
}

/// An unsigned 256-bit token amount, held as four 64-bit limbs, least
/// significant first.
#[derive(Clone, Copy, Debug, PartialEq, Eq)]
pub struct Amount {
    pub limbs: [u64; 4],
}

impl View for Amount {
    type V = nat;

    open spec fn view(&self) -> nat {
        self.limbs@[0] as nat + 0x1_0000_0000_0000_0000nat * (self.limbs@[1] as nat
            + 0x1_0000_0000_0000_0000nat * (self.limbs@[2] as nat
            + 0x1_0000_0000_0000_0000nat * (self.limbs@[3] as nat)))
    }
}

/// Relies on ruint's `Uint::wrapping_add` (the `+` of `U256`): the sum modulo 2^256,
/// with limbs kept least significant first by `from_limbs` and `into_limbs`.
#[verifier::external_body]
fn wrapping_sum(a: Amount, b: Amount) -> (r: Amount)
    ensures
        r@ == (a@ + b@) % amount_modulus(),
{
    Amount { limbs: U256::from_limbs(a.limbs).wrapping_add(U256::from_limbs(b.limbs)).into_limbs() }
}

impl Amount {
    /// The zero amount.
    pub fn zero() -> (r: Amount)
        ensures
            r@ == 0,
    {
        Amount { limbs: [0u64; 4] }
    }

    /// A small amount.
    pub fn from_u64(v: u64) -> (r: Amount)
        ensures
            r@ == v as nat,
    {
        Amount { limbs: [v, 0, 0, 0] }
    }

    /// Addition modulo 2^256.
    pub fn wrapping_add(self, other: Amount) -> (r: Amount)
        ensures
            r@ == (self@ + other@) % amount_modulus(),
    {
        wrapping_sum(self, other)
    }
}

} // verus!
