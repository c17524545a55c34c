//! Prices.
use crate::binary64::{is_non_negative, non_negative};
use vstd::prelude::*;

verus! {

/// A price in the pair's quote currency: a binary64 number that is not below
/// zero, held as its bit pattern.
#[derive(Clone, Copy, Debug, PartialEq, Eq)]
pub struct Price {
    bits: u64,
}

impl View for Price {
    type V = u64;

    /// The bit pattern of the price.
    closed spec fn view(&self) -> u64 {
        self.bits
    }
}

impl Price {
    #[verifier::type_invariant]
    spec fn is_a_price(self) -> bool {
        is_non_negative(self.bits)
    }

    /// The price with the given bit pattern, if the pattern denotes a number
    /// that is not below zero.
    pub fn from_bits(bits: u64) -> (price: Option<Price>)
        ensures
            price is Some <==> is_non_negative(bits),
            price matches Some(p) ==> p@ == bits,
    {
        if non_negative(bits) {
            Some(Price { bits })
        } else {
            None
        }
    }

    /// The price with the given bit pattern, which denotes a number that is
    /// not below zero.
    pub(crate) fn of_non_negative(bits: u64) -> (price: Price)
        requires
            is_non_negative(bits),
        ensures
            price@ == bits,
    {
        Price { bits }
    }

    /// The bit pattern of the price.
    pub fn to_bits(&self) -> (bits: u64)
        ensures
            bits == self@,
            is_non_negative(bits),
    {
        proof {
            use_type_invariant(self);
        }
        self.bits
    }
}

/// Two prices with the same bit pattern are the same price.
pub proof fn lemma_price_is_its_bits(a: Price, b: Price)
    requires
        a@ == b@,
    ensures
        a == b,
{
}

/// A result with the price in it replaced by its bit pattern.
pub open spec fn price_bits<E>(result: Result<Price, E>) -> Result<u64, E> {
    match result {
        Ok(price) => Ok(price@),
        Err(e) => Err(e),
    }
}

} // verus!
