use vstd::prelude::*;
use core::marker::PhantomData;

verus! {

/// The resource kind claimed by this game's tokens: a parking space.
#[derive(Clone, Copy, Debug)]
pub struct ParkingSpace {}

/// An opaque capacity claim against a [`TokenPool`].
///
/// Tokens are only issued by `TokenPool::try_take` and carry no data of their
/// own: all accounting lives in the pool's counter, and a claim is given back
/// with `TokenPool::release`.
#[derive(Clone, Copy, Debug, PartialEq, Eq)]
pub struct Token {
    claimed: bool,
}

impl Token {
    /// The one value a freshly issued token has: tokens are interchangeable.
    pub closed spec fn spec_issued() -> Token {
        Token { claimed: true }
    }
}

/// A bounded allocator of interchangeable capacity tokens.
///
/// At most `max_count` tokens are outstanding at any point; `try_take`
/// refuses further claims until one is released. There is no blocking and no
/// queue: a caller that fails to acquire retries on a later frame.
pub struct TokenPool<T> {
    max_count: usize,
    outstanding: usize,
    marker: PhantomData<T>,
}

impl<T> TokenPool<T> {
    /// Outstanding tokens never exceed the pool's capacity.
    #[verifier::type_invariant]
    spec fn capacity_respected(self) -> bool {
        self.outstanding <= self.max_count
    }

    /// How many tokens are outstanding.
    pub closed spec fn spec_outstanding(self) -> usize {
        self.outstanding
    }

    /// The pool's fixed capacity.
    pub closed spec fn spec_max(self) -> usize {
        self.max_count
    }

    /// A token is available exactly when the pool is under capacity.
    pub open spec fn spec_can_take(self) -> bool {
        self.spec_outstanding() < self.spec_max()
    }

    /// The outstanding count after one release; never below zero.
    pub open spec fn spec_outstanding_after_release(self) -> usize {
        if self.spec_outstanding() > 0 {
            (self.spec_outstanding() - 1) as usize
        } else {
            0usize
        }
    }

    pub fn new(initial_count: usize) -> (pool: TokenPool<T>)
        ensures
            pool.spec_max() == initial_count,
            pool.spec_outstanding() == 0,
            pool.spec_outstanding() <= pool.spec_max(),
    {
        TokenPool { max_count: initial_count, outstanding: 0, marker: PhantomData }
    }

    /// Issue a token if the pool is under capacity, else `None`.
    pub fn try_take(&mut self) -> (r: Option<Token>)
        ensures
            final(self).spec_max() == old(self).spec_max(),
            r == (if old(self).spec_can_take() {
                Some(Token::spec_issued())
            } else {
                None::<Token>
            }),
            old(self).spec_can_take() ==> final(self).spec_outstanding()
                == old(self).spec_outstanding() + 1,
            !old(self).spec_can_take() ==> *final(self) == *old(self),
            final(self).spec_outstanding() <= final(self).spec_max(),
    {
        proof {
            use_type_invariant(&*self);
        }
        if self.outstanding < self.max_count {
            self.outstanding = self.outstanding + 1;
            Some(Token { claimed: true })
        } else {
            None
        }
    }

    /// Non-mutating capacity check, for disabling affordances up front.
    pub fn can_take(&self) -> (r: bool)
        ensures
            r == self.spec_can_take(),
    {
        self.outstanding < self.max_count
    }

    /// How many capacity slots are claimed right now.
    pub fn slots_used(&self) -> (r: usize)
        ensures
            r == self.spec_outstanding(),
    {
        self.outstanding
    }

    pub fn max_count(&self) -> (r: usize)
        ensures
            r == self.spec_max(),
    {
        self.max_count
    }

    /// Give a claim back to the pool. A release never drives the counter
    /// below zero, so the capacity bound holds of every call sequence.
    pub fn release(&mut self, token: Token)
        ensures
            final(self).spec_max() == old(self).spec_max(),
            final(self).spec_outstanding() == old(self).spec_outstanding_after_release(),
            final(self).spec_outstanding() <= final(self).spec_max(),
    {
        proof {
            use_type_invariant(&*self);
        }
        if self.outstanding > 0 {
            self.outstanding = self.outstanding - 1;
        }
    }
}

impl<T> Default for TokenPool<T> {
    /// The pool the game starts with: three parking spaces.
    fn default() -> (pool: Self)
        ensures
            pool.spec_max() == 3,
            pool.spec_outstanding() == 0,
    {
        TokenPool::new(3)
    }
}

} // verus!
