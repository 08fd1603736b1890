use vstd::prelude::*;

verus! {

/// A field element of the VM, held as the four 64-bit digits of its canonical
/// representative, least significant first.
#[derive(Clone, Copy, Debug, PartialEq, Eq, Hash, Structural)]
pub struct Felt {
    pub d0: u64,
    pub d1: u64,
    pub d2: u64,
    pub d3: u64,
}

/// The base of the digits.
pub open spec fn two_pow_64() -> int {
    0x1_0000_0000_0000_0000
}

/// The field's modulus, 2^251 + 17 * 2^192 + 1.
pub open spec fn field_modulus() -> nat {
    0x800000000000011000000000000000000000000000000000000000000000001nat
}

impl Felt {
    /// Whether the digits are a canonical representative, below the modulus.
    pub open spec fn is_canonical(self) -> bool {
        self.value() < field_modulus()
    }

    /// The integer that the digits stand for.
    pub open spec fn value(self) -> nat {
        (self.d0 + two_pow_64() * self.d1 + two_pow_64() * two_pow_64() * self.d2
            + two_pow_64() * two_pow_64() * two_pow_64() * self.d3) as nat
    }

    /// The element whose representative is `n`.
    pub fn from_u64(n: u64) -> (r: Felt)
        ensures
            r.value() == n,
            r.d0 == n && r.d1 == 0 && r.d2 == 0 && r.d3 == 0,
    {
        Felt { d0: n, d1: 0, d2: 0, d3: 0 }
    }

    /// Whether two elements are the same element.
    pub fn same(&self, other: &Felt) -> (r: bool)
        ensures
            r == (*self == *other),
    {
        self.d0 == other.d0 && self.d1 == other.d1 && self.d2 == other.d2 && self.d3 == other.d3
    }
}

/// Converts an element to a machine-sized unsigned integer, failing when its
/// representative does not fit.
pub fn felt_to_usize(f: &Felt) -> (r: Option<usize>)
    ensures
        r is Some <==> f.value() <= usize::MAX,
        r matches Some(n) ==> n == f.value(),
{
    if f.d1 == 0 && f.d2 == 0 && f.d3 == 0 && f.d0 <= usize::MAX as u64 {
        Some(f.d0 as usize)
    } else {
        assert(f.value() >= two_pow_64() || f.d0 > usize::MAX) by (nonlinear_arith)
            requires
                f.d1 != 0 || f.d2 != 0 || f.d3 != 0 || f.d0 > usize::MAX,
                f.value() == f.d0 + two_pow_64() * f.d1 + two_pow_64() * two_pow_64() * f.d2
                    + two_pow_64() * two_pow_64() * two_pow_64() * f.d3,
                two_pow_64() == 0x1_0000_0000_0000_0000int,
        ;
        None
    }
}

} // verus!
