use vstd::prelude::*;

verus! {

/// A native window, known only by its address; passed through unchanged.
#[derive(Debug, Clone, Copy, PartialEq, Eq, Structural)]
pub struct Window {
    pub addr: usize,
}

/// How the native engine treats a requested window size.
#[derive(Debug, Clone, Copy, PartialEq, Eq, Structural)]
pub enum SizeHint {
    NONE,
    MIN,
    MAX,
    FIXED,
}

impl SizeHint {
    /// The integer that the native engine expects for this hint.
    pub open spec fn wire(self) -> i32 {
        match self {
            SizeHint::NONE => 0,
            SizeHint::MIN => 1,
            SizeHint::MAX => 2,
            SizeHint::FIXED => 3,
        }
    }

    /// The integer that the native engine expects for this hint.
    pub fn to_wire(self) -> (r: i32)
        ensures
            r == self.wire(),
    {
        match self {
            SizeHint::NONE => 0,
            SizeHint::MIN => 1,
            SizeHint::MAX => 2,
            SizeHint::FIXED => 3,
        }
    }

    /// The hint whose wire value is `v`, if there is one.
    pub fn from_wire(v: i32) -> (r: Option<SizeHint>)
        ensures
            r matches Some(h) ==> h.wire() == v,
            r is None <==> !(0 <= v <= 3),
    {
        if v == 0 {
            Some(SizeHint::NONE)
        } else if v == 1 {
            Some(SizeHint::MIN)
        } else if v == 2 {
            Some(SizeHint::MAX)
        } else if v == 3 {
            Some(SizeHint::FIXED)
        } else {
            None
        }
    }
}

impl Default for SizeHint {
    fn default() -> (r: SizeHint)
        ensures
            r == SizeHint::NONE,
    {
        SizeHint::NONE
    }
}

/// Reading back the wire value of a hint gives the same hint.
pub proof fn lemma_wire_round_trip(h: SizeHint)
    ensures
        0 <= h.wire() <= 3,
        forall|g: SizeHint| g.wire() == h.wire() ==> g == h,
{
}

} // verus!
