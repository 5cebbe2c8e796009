//! Unsigned 256-bit integers, held as 32 big-endian bytes.
//!
//! The arithmetic is `cosmwasm_std::Uint256`'s. Each operation that this
//! module takes from it stands behind one private function whose contract is
//! stated over the numbers that the bytes denote; everything else is proved
//! from those contracts.

use vstd::prelude::*;
use vstd::std_specs::cmp::PartialEqSpecImpl;

verus! {

/// The number that a big-endian byte string denotes.
pub open spec fn be_value(bytes: Seq<u8>) -> nat
    decreases bytes.len(),
{
    if bytes.len() == 0 {
        0
    } else {
        be_value(bytes.drop_last()) * 256 + bytes.last() as nat
    }
}

/// 2^256: one more than the largest value of a [`Uint256`].
pub open spec fn limit() -> nat {
    0x1_0000_0000_0000_0000_0000_0000_0000_0000_0000_0000_0000_0000_0000_0000_0000_0000nat
}

/// 256 to the power `n`.
pub open spec fn radix_power(n: nat) -> nat
    decreases n,
{
    if n == 0 {
        1
    } else {
        256 * radix_power((n - 1) as nat)
    }
}

/// The limit is 256^32: what 32 bytes can count to, and no more.
pub proof fn lemma_limit_is_radix_power()
    ensures
        limit() == radix_power(32),
{
    reveal_with_fuel(radix_power, 33);
}

/// A byte string of length `n` denotes a number below 256^n.
pub proof fn lemma_be_value_bound(bytes: Seq<u8>)
    ensures
        be_value(bytes) < radix_power(bytes.len()),
    decreases bytes.len(),
{
    if bytes.len() > 0 {
        lemma_be_value_bound(bytes.drop_last());
    }
}

/// Two byte strings of one length that denote the same number are the same.
pub proof fn lemma_be_value_injective(s: Seq<u8>, t: Seq<u8>)
    requires
        s.len() == t.len(),
        be_value(s) == be_value(t),
    ensures
        s =~= t,
    decreases s.len(),
{
    if s.len() > 0 {
        lemma_be_value_injective(s.drop_last(), t.drop_last());
        assert(s =~= s.drop_last().push(s.last()));
        assert(t =~= t.drop_last().push(t.last()));
    }
}

/// Byte strings of one length are ordered as their numbers are, by the first
/// byte in which they differ.
pub proof fn lemma_be_value_ordered(s: Seq<u8>, t: Seq<u8>, i: int)
    requires
        s.len() == t.len(),
        0 <= i < s.len(),
        forall|j: int| 0 <= j < i ==> s[j] == t[j],
        s[i] < t[i],
    ensures
        be_value(s) < be_value(t),
    decreases s.len(),
{
    if i == s.len() - 1 {
        assert(s.drop_last() =~= t.drop_last());
    } else {
        lemma_be_value_ordered(s.drop_last(), t.drop_last(), i);
    }
}

/// An unsigned integer below 2^256.
#[derive(Clone, Copy, Debug, Eq)]
pub struct Uint256 {
    bytes: [u8; 32],
}

impl View for Uint256 {
    type V = nat;

    closed spec fn view(&self) -> nat {
        be_value(self.bytes@)
    }
}

impl PartialEq for Uint256 {
    fn eq(&self, other: &Self) -> (r: bool) {
        let mut i: usize = 0;
        while i < 32
            invariant
                i <= 32,
                forall|j: int| 0 <= j < i ==> self.bytes@[j] == other.bytes@[j],
            decreases 32 - i,
        {
            if self.bytes[i] != other.bytes[i] {
                proof {
                    if self@ == other@ {
                        lemma_be_value_injective(self.bytes@, other.bytes@);
                    }
                }
                return false;
            }
            i += 1;
        }
        assert(self.bytes@ =~= other.bytes@);
        true
    }
}

impl PartialEqSpecImpl for Uint256 {
    open spec fn obeys_eq_spec() -> bool {
        true
    }

    open spec fn eq_spec(&self, other: &Self) -> bool {
        self@ == other@
    }
}

/// `cosmwasm_std::Uint256::from_u128`: the same number, widened.
#[verifier::external_body]
pub(crate) fn outside_from_u128(num: u128) -> (r: Uint256)
    ensures
        r@ == num,
{
    Uint256 { bytes: cosmwasm_std::Uint256::from_u128(num).to_be_bytes() }
}

/// `cosmwasm_std::Uint256::checked_add`: the sum where it is below 2^256,
/// nothing where it is not.
#[verifier::external_body]
pub(crate) fn outside_checked_add(a: &Uint256, b: &Uint256) -> (r: Option<Uint256>)
    ensures
        r is Some <==> a@ + b@ < limit(),
        r is Some ==> r->0@ == a@ + b@,
{
    let sum = cosmwasm_std::Uint256::from_be_bytes(a.bytes)
        .checked_add(cosmwasm_std::Uint256::from_be_bytes(b.bytes));
    match sum {
        Ok(v) => Some(Uint256 { bytes: v.to_be_bytes() }),
        Err(_) => None,
    }
}

/// `cosmwasm_std::Uint256::checked_sub`: the difference where the second
/// number is not the larger, nothing where it is.
#[verifier::external_body]
pub(crate) fn outside_checked_sub(a: &Uint256, b: &Uint256) -> (r: Option<Uint256>)
    ensures
        r is Some <==> b@ <= a@,
        r is Some ==> r->0@ == a@ - b@,
{
    let difference = cosmwasm_std::Uint256::from_be_bytes(a.bytes)
        .checked_sub(cosmwasm_std::Uint256::from_be_bytes(b.bytes));
    match difference {
        Ok(v) => Some(Uint256 { bytes: v.to_be_bytes() }),
        Err(_) => None,
    }
}

/// `cosmwasm_std::Uint256::checked_mul`: the product where it is below 2^256,
/// nothing where it is not.
#[verifier::external_body]
pub(crate) fn outside_checked_mul(a: &Uint256, b: &Uint256) -> (r: Option<Uint256>)
    ensures
        r is Some <==> a@ * b@ < limit(),
        r is Some ==> r->0@ == a@ * b@,
{
    let product = cosmwasm_std::Uint256::from_be_bytes(a.bytes)
        .checked_mul(cosmwasm_std::Uint256::from_be_bytes(b.bytes));
    match product {
        Ok(v) => Some(Uint256 { bytes: v.to_be_bytes() }),
        Err(_) => None,
    }
}

/// `cosmwasm_std::Uint256::checked_div`: the quotient, rounded down, where the
/// divisor is not zero, nothing where it is.
#[verifier::external_body]
pub(crate) fn outside_checked_div(a: &Uint256, b: &Uint256) -> (r: Option<Uint256>)
    ensures
        r is Some <==> b@ != 0,
        r is Some ==> r->0@ == a@ / b@,
{
    let quotient = cosmwasm_std::Uint256::from_be_bytes(a.bytes)
        .checked_div(cosmwasm_std::Uint256::from_be_bytes(b.bytes));
    match quotient {
        Ok(v) => Some(Uint256 { bytes: v.to_be_bytes() }),
        Err(_) => None,
    }
}

/// `TryFrom<cosmwasm_std::Uint256>` of `cosmwasm_std::Uint128`: the same
/// number where it fits in 128 bits, nothing where it does not.
#[verifier::external_body]
pub(crate) fn outside_narrow(a: &Uint256) -> (r: Option<u128>)
    ensures
        r is Some <==> a@ <= u128::MAX,
        r is Some ==> r->0 == a@,
{
    match cosmwasm_std::Uint128::try_from(cosmwasm_std::Uint256::from_be_bytes(a.bytes)) {
        Ok(v) => Some(v.u128()),
        Err(_) => None,
    }
}

impl Uint256 {
    /// The number that 32 big-endian bytes denote.
    pub fn from_be_bytes(bytes: [u8; 32]) -> (r: Uint256)
        ensures
            r@ == be_value(bytes@),
    {
        Uint256 { bytes }
    }

    /// The number as 32 big-endian bytes.
    pub fn to_be_bytes(&self) -> (r: [u8; 32])
        ensures
            be_value(r@) == self@,
    {
        self.bytes
    }

    /// The number `num`.
    pub fn from_u128(num: u128) -> (r: Uint256)
        ensures
            r@ == num,
    {
        outside_from_u128(num)
    }

    /// Zero.
    pub fn zero() -> (r: Uint256)
        ensures
            r@ == 0,
    {
        outside_from_u128(0)
    }

    /// Whether the number is zero.
    pub fn is_zero(&self) -> (r: bool)
        ensures
            r == (self@ == 0),
    {
        *self == Uint256::zero()
    }

    /// Whether the number is smaller than `other`.
    pub fn lt(&self, other: &Uint256) -> (r: bool)
        ensures
            r == (self@ < other@),
    {
        let mut i: usize = 0;
        while i < 32
            invariant
                i <= 32,
                forall|j: int| 0 <= j < i ==> self.bytes@[j] == other.bytes@[j],
            decreases 32 - i,
        {
            if self.bytes[i] < other.bytes[i] {
                proof {
                    lemma_be_value_ordered(self.bytes@, other.bytes@, i as int);
                }
                return true;
            }
            if self.bytes[i] > other.bytes[i] {
                proof {
                    lemma_be_value_ordered(other.bytes@, self.bytes@, i as int);
                }
                return false;
            }
            i += 1;
        }
        assert(self.bytes@ =~= other.bytes@);
        false
    }

    /// Every value is below 2^256.
    pub proof fn lemma_below_limit(self)
        ensures
            self@ < limit(),
    {
        lemma_be_value_bound(self.bytes@);
        lemma_limit_is_radix_power();
    }
}

} // verus!
