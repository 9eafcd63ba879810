//! Three-way ranks and the lexicographic rank of sequences.

use vstd::prelude::*;

verus! {

/// How one value ranks against another.
#[derive(Clone, Copy, Debug, PartialEq, Eq, Structural)]
pub enum Precedence {
    Lower,
    Same,
    Higher,
}

impl Precedence {
    /// The rank seen from the other side.
    pub open spec fn flip(self) -> Precedence {
        match self {
            Precedence::Lower => Precedence::Higher,
            Precedence::Same => Precedence::Same,
            Precedence::Higher => Precedence::Lower,
        }
    }

    /// This rank, or `next` where this one does not decide.
    pub open spec fn or_else(self, next: Precedence) -> Precedence {
        if self is Same {
            next
        } else {
            self
        }
    }
}

/// Whether `r` may be the rank of `x` against `z` when `p` is that of `x`
/// against `y` and `q` that of `y` against `z`, in a total order.
pub open spec fn chains(p: Precedence, q: Precedence, r: Precedence) -> bool {
    &&& p is Same ==> r == q
    &&& q is Same ==> r == p
    &&& p == q ==> r == p
}

/// A rank function that is reflexive, antisymmetric and transitive.
pub open spec fn is_total_order<T>(rank: spec_fn(T, T) -> Precedence) -> bool {
    &&& forall|x: T| #[trigger] rank(x, x) is Same
    &&& forall|x: T, y: T| #[trigger] rank(y, x) == rank(x, y).flip()
    &&& forall|x: T, y: T, z: T|
        chains(#[trigger] rank(x, y), #[trigger] rank(y, z), rank(x, z))
}

/// Rank of two integers.
pub open spec fn number_precedence(a: int, b: int) -> Precedence {
    if a < b {
        Precedence::Lower
    } else if a == b {
        Precedence::Same
    } else {
        Precedence::Higher
    }
}

/// Lexicographic rank of `a` against `b` from position `i` on: the first
/// position where the elements differ decides, and a sequence that ends first
/// ranks lower.
pub open spec fn lex_from<T>(
    a: Seq<T>,
    b: Seq<T>,
    i: int,
    rank: spec_fn(T, T) -> Precedence,
) -> Precedence
    decreases a.len() - i,
{
    if i >= a.len() && i >= b.len() {
        Precedence::Same
    } else if i >= a.len() {
        Precedence::Lower
    } else if i >= b.len() {
        Precedence::Higher
    } else if i < 0 {
        Precedence::Same
    } else if !(rank(a[i], b[i]) is Same) {
        rank(a[i], b[i])
    } else {
        lex_from(a, b, i + 1, rank)
    }
}

/// Lexicographic rank of two sequences.
pub open spec fn lex<T>(a: Seq<T>, b: Seq<T>, rank: spec_fn(T, T) -> Precedence) -> Precedence {
    lex_from(a, b, 0, rank)
}

/// A sequence ranks the same as itself.
pub proof fn lemma_lex_reflexive<T>(a: Seq<T>, i: int, rank: spec_fn(T, T) -> Precedence)
    requires
        is_total_order(rank),
        0 <= i,
    ensures
        lex_from(a, a, i, rank) is Same,
    decreases a.len() - i,
{
    if i < a.len() {
        lemma_lex_reflexive(a, i + 1, rank);
    }
}

/// Swapping the two sequences flips the rank.
pub proof fn lemma_lex_flip<T>(a: Seq<T>, b: Seq<T>, i: int, rank: spec_fn(T, T) -> Precedence)
    requires
        is_total_order(rank),
        0 <= i,
    ensures
        lex_from(b, a, i, rank) == lex_from(a, b, i, rank).flip(),
    decreases a.len() - i,
{
    if i < a.len() && i < b.len() {
        lemma_lex_flip(a, b, i + 1, rank);
    }
}

/// Lexicographic ranks chain as the ranks of the elements do.
pub proof fn lemma_lex_chains<T>(
    a: Seq<T>,
    b: Seq<T>,
    c: Seq<T>,
    i: int,
    rank: spec_fn(T, T) -> Precedence,
)
    requires
        is_total_order(rank),
        0 <= i,
    ensures
        chains(lex_from(a, b, i, rank), lex_from(b, c, i, rank), lex_from(a, c, i, rank)),
    decreases a.len() - i,
{
    if i < a.len() && i < b.len() && i < c.len() {
        lemma_lex_chains(a, b, c, i + 1, rank);
    }
}

} // verus!
