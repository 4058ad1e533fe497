//! Correlation tokens: opaque integers that identify a callback across events.

use vstd::prelude::*;

verus! {

/// The token that follows `token`. Past the largest integer the count starts
/// over at zero, the value that otherwise stands for "no token".
pub open spec fn successor(token: usize) -> usize {
    if token == usize::MAX {
        0
    } else {
        (token + 1) as usize
    }
}

/// The token handed out by the request that follows `n` earlier requests, for
/// a generator whose first token is `first`.
pub open spec fn nth_token(first: usize, n: nat) -> usize
    decreases n,
{
    if n == 0 {
        first
    } else {
        successor(nth_token(first, (n - 1) as nat))
    }
}

/// Hands out correlation tokens in increasing order, starting at one.
pub struct TokenGenerator {
    next: usize,
}

impl View for TokenGenerator {
    type V = usize;

    /// The token that the next request returns.
    closed spec fn view(&self) -> usize {
        self.next
    }
}

impl TokenGenerator {
    /// The generator as it is after `n` more requests.
    pub closed spec fn after(self, n: nat) -> Self {
        TokenGenerator { next: nth_token(self.next, n) }
    }

    /// A generator that has handed out nothing yet.
    pub fn new() -> (generator: Self)
        ensures
            generator@ == 1,
    {
        TokenGenerator { next: 1 }
    }

    /// Returns the next token and moves on by one.
    pub fn next(&mut self) -> (token: usize)
        ensures
            token == old(self)@,
            final(self)@ == successor(old(self)@),
            *final(self) == old(self).after(1),
    {
        let token: usize = self.next;
        self.next = token.wrapping_add(1);
        proof {
            reveal_with_fuel(nth_token, 2);
        }
        token
    }

    /// After `n` requests the next token is the `n`-th one counted from the
    /// generator's present token.
    pub proof fn lemma_after(self, n: nat)
        ensures
            self.after(n)@ == nth_token(self@, n),
            self.after(0) == self,
            self.after(n).after(1) == self.after(n + 1),
    {
        reveal_with_fuel(nth_token, 2);
    }

    /// No token is handed out twice: as long as the count has not started
    /// over, the request that follows `i` others returns the generator's
    /// present token plus `i`, so a later request returns a greater token
    /// than an earlier one. A generator that starts at one or above never
    /// returns zero. For a new generator this covers every request but the
    /// one that would return zero.
    pub proof fn lemma_tokens_unique(self, i: nat, j: nat)
        requires
            i < j,
            self@ + j <= usize::MAX,
        ensures
            self.after(i)@ == self@ + i,
            self.after(j)@ == self@ + j,
            self.after(i)@ < self.after(j)@,
            self@ >= 1 ==> self.after(i)@ >= 1,
    {
        self.lemma_after(i);
        self.lemma_after(j);
        lemma_nth_token(self@, i);
        lemma_nth_token(self@, j);
    }
}

/// As long as the count has not started over, the `n`-th token after `first`
/// is `first + n`.
pub proof fn lemma_nth_token(first: usize, n: nat)
    requires
        first + n <= usize::MAX,
    ensures
        nth_token(first, n) == first + n,
    decreases n,
{
    if n > 0 {
        lemma_nth_token(first, (n - 1) as nat);
    }
}

} // verus!
