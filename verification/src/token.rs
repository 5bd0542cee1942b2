//! Tokens: the numbers under which the poller knows a socket.

use vstd::prelude::*;

verus! {

/// The number under which a socket is registered.
#[derive(Clone, Copy, Debug, PartialEq, Eq, Hash, Structural)]
pub struct Token(pub usize);

/// A counter that tokens are drawn from. Only tokens of one counter are distinct,
/// so a program keeps a single one for all of its sockets.
#[derive(Debug)]
pub struct TokenCounter {
    /// The number of the next token.
    pub next: usize,
}

/// The number that follows `n`, after which the counter starts over at zero.
pub open spec fn token_after(n: usize) -> usize {
    if n == usize::MAX {
        0
    } else {
        (n + 1) as usize
    }
}

/// The number of the token drawn after `k` others from a counter at `start`.
pub open spec fn nth_token(start: usize, k: nat) -> usize
    decreases k,
{
    if k == 0 {
        start
    } else {
        token_after(nth_token(start, (k - 1) as nat))
    }
}

impl TokenCounter {
    /// A counter whose first token is number zero.
    pub fn new() -> (r: TokenCounter)
        ensures
            r.next == 0,
    {
        TokenCounter { next: 0 }
    }

    /// Draws the next token.
    pub fn create_token(&mut self) -> (r: Token)
        ensures
            r == Token(old(self).next),
            final(self).next == token_after(old(self).next),
    {
        let token = Token(self.next);
        self.next = self.next.wrapping_add(1);
        token
    }
}

/// Draws of fewer tokens than there are numbers never repeat one: what the
/// counter hands out after `i` and after `j` draws differs, as long as the two
/// lie less than one full turn apart.
pub proof fn tokens_are_distinct(start: usize, i: nat, j: nat)
    requires
        i < j,
        j - i <= usize::MAX,
    ensures
        nth_token(start, i) != nth_token(start, j),
{
    lemma_nth_token(start, i);
    lemma_nth_token(start, j);
    let turn = usize::MAX + 1;
    let a = start + i;
    let b = start + j;
    if a % turn == b % turn {
        vstd::arithmetic::div_mod::lemma_fundamental_div_mod(a, turn);
        vstd::arithmetic::div_mod::lemma_fundamental_div_mod(b, turn);
        let qa = a / turn;
        let qb = b / turn;
        assert(b - a == turn * (qb - qa)) by (nonlinear_arith)
            requires
                a == turn * qa + a % turn,
                b == turn * qb + b % turn,
                a % turn == b % turn,
        ;
        assert(false) by (nonlinear_arith)
            requires
                b - a == turn * (qb - qa),
                0 < b - a < turn,
        ;
    }
}

/// The `k`-th number is `start + k`, counted modulo the number of tokens.
proof fn lemma_nth_token(start: usize, k: nat)
    ensures
        nth_token(start, k) == (start + k) % (usize::MAX + 1),
    decreases k,
{
    let turn = usize::MAX + 1;
    if k == 0 {
        vstd::arithmetic::div_mod::lemma_small_mod(start as nat, turn as nat);
    } else {
        lemma_nth_token(start, (k - 1) as nat);
        let a = start + k - 1;
        vstd::arithmetic::div_mod::lemma_fundamental_div_mod(a, turn);
        let q = a / turn;
        if a % turn == usize::MAX {
            assert(a + 1 == turn * (q + 1) + 0) by (nonlinear_arith)
                requires
                    a == turn * q + a % turn,
                    a % turn == turn - 1,
            ;
            vstd::arithmetic::div_mod::lemma_fundamental_div_mod_converse(a + 1, turn, q + 1, 0);
        } else {
            vstd::arithmetic::div_mod::lemma_fundamental_div_mod_converse(
                a + 1,
                turn,
                q,
                a % turn + 1,
            );
        }
    }
}

} // verus!
