use vstd::prelude::*;

verus! {

/// The accumulator and the two index registers.
pub struct Registers {
    pub a: u8,
    pub x: u8,
    pub y: u8,
}

impl Registers {
    /// All three registers at zero.
    pub fn new() -> (r: Registers)
        ensures
            r.a == 0,
            r.x == 0,
            r.y == 0,
    {
        Registers { a: 0, x: 0, y: 0 }
    }
}

} // verus!
