use vstd::prelude::*;

use crate::felt::Felt;

verus! {

/// A VM memory address: a segment and an offset inside it.
#[derive(Clone, Copy, Debug, PartialEq, Eq, Structural)]
pub struct Addr {
    pub segment: isize,
    pub offset: usize,
}

/// What a memory cell holds: a field element or an address.
#[derive(Clone, Copy, Debug, PartialEq, Eq, Structural)]
pub enum Cell {
    Int(Felt),
    Ptr(Addr),
}

/// Why address arithmetic failed.
#[derive(Clone, Copy, Debug, PartialEq, Eq, Structural)]
pub enum AddressFault {
    /// The offset would leave the range of `usize`.
    OffsetOverflow { base: Addr, delta: usize },
    /// The two addresses lie in different segments.
    DifferentSegments { end: Addr, start: Addr },
    /// The end lies before the start.
    NegativeDistance { end: Addr, start: Addr },
    /// A count does not fit in `usize`.
    NotAUsize { value: Felt },
}

impl Addr {
    pub fn new(segment: isize, offset: usize) -> (r: Addr)
        ensures
            r.segment == segment && r.offset == offset,
    {
        Addr { segment, offset }
    }

    /// The address `delta` cells further in the same segment, if the offset fits.
    pub open spec fn spec_add(self, delta: int) -> Option<Addr> {
        if 0 <= self.offset + delta <= usize::MAX {
            Some(Addr { segment: self.segment, offset: (self.offset + delta) as usize })
        } else {
            None
        }
    }

    /// The number of cells from `start` to `self`, when both lie in one segment
    /// and `start` is not after `self`.
    pub open spec fn spec_distance(self, start: Addr) -> Option<nat> {
        if self.segment == start.segment && start.offset <= self.offset {
            Some((self.offset - start.offset) as nat)
        } else {
            None
        }
    }

    pub fn add_offset(self, delta: usize) -> (r: Result<Addr, AddressFault>)
        ensures
            r is Ok <==> self.spec_add(delta as int) is Some,
            r matches Ok(a) ==> self.spec_add(delta as int) == Some(a),
            r matches Err(e) ==> e == (AddressFault::OffsetOverflow { base: self, delta }),
    {
        match self.offset.checked_add(delta) {
            Some(o) => Ok(Addr { segment: self.segment, offset: o }),
            None => Err(AddressFault::OffsetOverflow { base: self, delta }),
        }
    }

    pub fn distance_from(self, start: Addr) -> (r: Result<usize, AddressFault>)
        ensures
            r is Ok <==> self.spec_distance(start) is Some,
            r matches Ok(n) ==> self.spec_distance(start) == Some(n as nat),
            r matches Err(e) ==> (if self.segment != start.segment {
                e == (AddressFault::DifferentSegments { end: self, start })
            } else {
                e == (AddressFault::NegativeDistance { end: self, start })
            }),
    {
        if self.segment != start.segment {
            Err(AddressFault::DifferentSegments { end: self, start })
        } else if self.offset < start.offset {
            Err(AddressFault::NegativeDistance { end: self, start })
        } else {
            Ok(self.offset - start.offset)
        }
    }
}

impl Cell {
    /// A cell whose value memory reports back unchanged: elements are stored
    /// reduced by the modulus, and relocation rules only touch addresses in
    /// temporary (negative) segments.
    pub open spec fn is_stable(self) -> bool {
        match self {
            Cell::Int(f) => f.is_canonical(),
            Cell::Ptr(a) => a.segment >= 0,
        }
    }
}

/// Reads a count held in a field element.
pub fn felt_to_count(f: &Felt) -> (r: Result<usize, AddressFault>)
    ensures
        r is Ok <==> f.value() <= usize::MAX,
        r matches Ok(n) ==> n == f.value(),
        r matches Err(e) ==> e == (AddressFault::NotAUsize { value: *f }),
{
    match crate::felt::felt_to_usize(f) {
        Some(n) => Ok(n),
        None => Err(AddressFault::NotAUsize { value: *f }),
    }
}

} // verus!
