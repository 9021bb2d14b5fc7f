//! The state word of the thread-shared backend.
//!
//! One `usize` holds everything a thread needs to decide what to do with the
//! lock: the owner's identity in the high bits and four flags in the low
//! bits that an identity leaves clear.

use crate::api::raw::FuseState;
use crate::sync::thread_id::ThreadId;
use vstd::prelude::*;

verus! {

/// Set while a thread holds the lock for writing.
pub const LOCKED: usize = 0b0001;

/// Set once a waiter has announced that it is going to park.
pub const PARKED: usize = 0b0010;

/// Set when the lock has been fused: the payload is readable for good.
pub const INIT: usize = 0b0100;

/// Set when the lock has been poisoned.
pub const POISON: usize = 0b1000;

/// What a state word holds, field by field.
pub struct Fields {
    pub thread_id: ThreadId,
    pub locked: bool,
    pub parked: bool,
    pub init: bool,
    pub poison: bool,
}

/// A state word.
#[derive(Copy, Clone, Eq, PartialEq, Structural, Debug)]
pub struct State(pub usize);

impl View for State {
    type V = Fields;

    open spec fn view(&self) -> Fields {
        Fields {
            thread_id: ThreadId(self.0 & !0b1111usize),
            locked: self.0 & LOCKED != 0,
            parked: self.0 & PARKED != 0,
            init: self.0 & INIT != 0,
            poison: self.0 & POISON != 0,
        }
    }
}

/// Two words that hold the same fields are the same word.
pub proof fn lemma_fields_determine_word(a: State, b: State)
    requires
        a@ == b@,
    ensures
        a == b,
{
    let x = a.0;
    let y = b.0;
    assert(x == y) by (bit_vector)
        requires
            x & !0b1111usize == y & !0b1111usize,
            (x & 1usize != 0) == (y & 1usize != 0),
            (x & 2usize != 0) == (y & 2usize != 0),
            (x & 4usize != 0) == (y & 4usize != 0),
            (x & 8usize != 0) == (y & 8usize != 0),
    ;
}

impl State {
    /// The word of a lock that nobody holds and that was never fused or
    /// poisoned: no owner and no flag.
    pub fn new() -> (r: State)
        ensures
            r.0 == 0,
            r@ == (Fields {
                thread_id: ThreadId(0),
                locked: false,
                parked: false,
                init: false,
                poison: false,
            }),
    {
        assert(0usize & !0b1111usize == 0 && 0usize & 1 == 0 && 0usize & 2 == 0 && 0usize & 4 == 0
            && 0usize & 8 == 0) by (bit_vector);
        State(0)
    }

    /// The word as a number.
    pub fn bits(self) -> (w: usize)
        ensures
            w == self.0,
    {
        self.0
    }

    /// The word that a number stands for.
    pub fn from_bits(w: usize) -> (r: State)
        ensures
            r.0 == w,
    {
        State(w)
    }

    /// The owner's identity, zero where there is none.
    pub fn thread_id(self) -> (r: ThreadId)
        ensures
            r == self@.thread_id,
    {
        ThreadId(self.0 & !0b1111usize)
    }

    /// Whether a thread holds the lock for writing.
    pub fn locked(self) -> (r: bool)
        ensures
            r == self@.locked,
    {
        self.0 & LOCKED != 0
    }

    /// Whether a waiter has announced that it parks.
    pub fn parked(self) -> (r: bool)
        ensures
            r == self@.parked,
    {
        self.0 & PARKED != 0
    }

    /// Whether the lock has been fused.
    pub fn init(self) -> (r: bool)
        ensures
            r == self@.init,
    {
        self.0 & INIT != 0
    }

    /// Whether the lock has been poisoned.
    pub fn poison(self) -> (r: bool)
        ensures
            r == self@.poison,
    {
        self.0 & POISON != 0
    }

    /// The same word with another owner.
    pub fn with_thread_id(self, tid: ThreadId) -> (r: State)
        requires
            tid.0 & 0b1111 == 0,
        ensures
            r@ == (Fields { thread_id: tid, ..self@ }),
    {
        let x = self.0;
        let t = tid.0;
        let y = (x & 0b1111usize) | t;
        assert(y & !0b1111usize == t && (y & 1 != 0) == (x & 1 != 0) && (y & 2 != 0) == (x & 2
            != 0) && (y & 4 != 0) == (x & 4 != 0) && (y & 8 != 0) == (x & 8 != 0)) by (bit_vector)
            requires
                t & 0b1111usize == 0,
                y == (x & 0b1111usize) | t,
        ;
        State(y)
    }

    /// The same word with the `locked` flag as given.
    pub fn with_locked(self, on: bool) -> (r: State)
        ensures
            r@ == (Fields { locked: on, ..self@ }),
    {
        let x = self.0;
        let y = if on {
            x | LOCKED
        } else {
            x & !LOCKED
        };
        assert(y & !0b1111usize == x & !0b1111usize && (y & 1 != 0) == on && (y & 2 != 0) == (x & 2
            != 0) && (y & 4 != 0) == (x & 4 != 0) && (y & 8 != 0) == (x & 8 != 0)) by (bit_vector)
            requires
                y == (if on {
                    x | 1usize
                } else {
                    x & !1usize
                }),
        ;
        State(y)
    }

    /// The same word with the `parked` flag as given.
    pub fn with_parked(self, on: bool) -> (r: State)
        ensures
            r@ == (Fields { parked: on, ..self@ }),
    {
        let x = self.0;
        let y = if on {
            x | PARKED
        } else {
            x & !PARKED
        };
        assert(y & !0b1111usize == x & !0b1111usize && (y & 1 != 0) == (x & 1 != 0) && (y & 2 != 0)
            == on && (y & 4 != 0) == (x & 4 != 0) && (y & 8 != 0) == (x & 8 != 0)) by (bit_vector)
            requires
                y == (if on {
                    x | 2usize
                } else {
                    x & !2usize
                }),
        ;
        State(y)
    }

    /// The same word with the `init` flag as given.
    pub fn with_init(self, on: bool) -> (r: State)
        ensures
            r@ == (Fields { init: on, ..self@ }),
    {
        let x = self.0;
        let y = if on {
            x | INIT
        } else {
            x & !INIT
        };
        assert(y & !0b1111usize == x & !0b1111usize && (y & 1 != 0) == (x & 1 != 0) && (y & 2 != 0)
            == (x & 2 != 0) && (y & 4 != 0) == on && (y & 8 != 0) == (x & 8 != 0)) by (bit_vector)
            requires
                y == (if on {
                    x | 4usize
                } else {
                    x & !4usize
                }),
        ;
        State(y)
    }

    /// The same word with the `poison` flag as given.
    pub fn with_poison(self, on: bool) -> (r: State)
        ensures
            r@ == (Fields { poison: on, ..self@ }),
    {
        let x = self.0;
        let y = if on {
            x | POISON
        } else {
            x & !POISON
        };
        assert(y & !0b1111usize == x & !0b1111usize && (y & 1 != 0) == (x & 1 != 0) && (y & 2 != 0)
            == (x & 2 != 0) && (y & 4 != 0) == (x & 4 != 0) && (y & 8 != 0) == on) by (bit_vector)
            requires
                y == (if on {
                    x | 8usize
                } else {
                    x & !8usize
                }),
        ;
        State(y)
    }

    /// Where the lock stands, as a thread that reads this word takes it:
    /// fused before poisoned, poisoned before held.
    pub open spec fn phase(self) -> FuseState {
        if self@.init {
            FuseState::Fused
        } else if self@.poison {
            FuseState::Poisoned
        } else if self@.locked {
            FuseState::Writing
        } else {
            FuseState::Unlocked
        }
    }

    /// The word is one that the lock's own operations write: that of a free
    /// lock, of a fused one, of a poisoned one, or of one held by a thread
    /// with a proper identity.
    pub open spec fn is_proper(self) -> bool {
        match self.phase() {
            FuseState::Unlocked => self == State(0),
            FuseState::Writing => self@.thread_id.is_valid(),
            FuseState::Fused => self.0 == INIT,
            FuseState::Poisoned => self.0 == POISON,
        }
    }
}

} // verus!
