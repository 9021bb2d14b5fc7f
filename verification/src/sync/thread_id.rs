//! Thread identity tokens.

use vstd::prelude::*;

verus! {

/// The four low bits of a state word, which hold its flags. An identity
/// leaves them clear so that it can share the word with them.
pub const FLAG_MASK: usize = 0b1111;

/// A token that tells one live thread from every other. It is only ever
/// compared, to find out whether the holder of a lock is the caller.
#[derive(Copy, Clone, Eq, PartialEq, Structural, Debug)]
pub struct ThreadId(pub usize);

impl ThreadId {
    /// An identity can be packed into a state word: it is not zero, which
    /// stands for "no owner", and its flag bits are clear.
    pub open spec fn is_valid(self) -> bool {
        self.0 & FLAG_MASK == 0 && self.0 != 0
    }

    /// Makes an identity of a number that is not zero and whose four low
    /// bits are clear.
    pub fn new(x: usize) -> (r: ThreadId)
        requires
            x & FLAG_MASK == 0,
            x != 0,
        ensures
            r.0 == x,
            r.is_valid(),
    {
        ThreadId(x)
    }

    /// Whether `x` could be made an identity.
    pub fn fits(x: usize) -> (b: bool)
        ensures
            b == ThreadId(x).is_valid(),
    {
        x & FLAG_MASK == 0 && x != 0
    }

    /// The number behind the identity.
    pub fn get(self) -> (x: usize)
        ensures
            x == self.0,
    {
        self.0
    }
}

} // verus!
