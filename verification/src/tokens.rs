use vstd::prelude::*;

verus! {

/// An unsigned 128-bit token quantity.
///
/// Every arithmetic operation is checked: on overflow or division by zero it
/// returns `None` rather than wrapping or trapping, so every failure path is
/// surfaced to the caller.
#[derive(Clone, Copy, Debug, PartialEq, Eq, Hash, Structural)]
pub struct Tokens128 {
    pub amount: u128,
}

impl Tokens128 {
    pub fn new(amount: u128) -> (r: Self)
        ensures
            r.amount == amount,
    {
        Tokens128 { amount }
    }

    pub fn zero() -> (r: Self)
        ensures
            r.amount == 0,
    {
        Tokens128 { amount: 0 }
    }

    pub fn is_zero(&self) -> (r: bool)
        ensures
            r == (self.amount == 0),
    {
        self.amount == 0
    }

    pub fn checked_add(self, other: Self) -> (r: Option<Self>)
        ensures
            self.amount + other.amount <= u128::MAX ==> r == Some(
                Tokens128 { amount: (self.amount + other.amount) as u128 },
            ),
            self.amount + other.amount > u128::MAX ==> r is None,
    {
        match self.amount.checked_add(other.amount) {
            Some(amount) => Some(Tokens128 { amount }),
            None => None,
        }
    }

    pub fn checked_sub(self, other: Self) -> (r: Option<Self>)
        ensures
            other.amount <= self.amount ==> r == Some(
                Tokens128 { amount: (self.amount - other.amount) as u128 },
            ),
            other.amount > self.amount ==> r is None,
    {
        match self.amount.checked_sub(other.amount) {
            Some(amount) => Some(Tokens128 { amount }),
            None => None,
        }
    }

    pub fn checked_mul(self, other: Self) -> (r: Option<Self>)
        ensures
            self.amount * other.amount <= u128::MAX ==> r == Some(
                Tokens128 { amount: (self.amount * other.amount) as u128 },
            ),
            self.amount * other.amount > u128::MAX ==> r is None,
    {
        match self.amount.checked_mul(other.amount) {
            Some(amount) => Some(Tokens128 { amount }),
            None => None,
        }
    }

    pub fn checked_div(self, other: Self) -> (r: Option<Self>)
        ensures
            other.amount != 0 ==> r == Some(
                Tokens128 { amount: (self.amount / other.amount) as u128 },
            ),
            other.amount == 0 ==> r is None,
    {
        match self.amount.checked_div(other.amount) {
            Some(amount) => Some(Tokens128 { amount }),
            None => None,
        }
    }
}

} // verus!
