//! Precedence levels of the Pratt parser.
//!
//! The levels decide how a series of infix expressions is grouped:
//! `a + b * c - d` reads as `(a + (b * c)) - d`, because `*` binds tighter
//! than `+` and `-`. Operators of one level group from left to right.
use vstd::prelude::*;

verus! {

/// Precedence levels, from the loosest to the tightest.
#[derive(Debug, Clone, Copy, PartialEq, Eq, Structural)]
pub enum Precedence {
    /// Below every operator.
    Lowest,
    Assignment,
    Ternary,
    Or,
    And,
    BitOr,
    BitXor,
    BitAnd,
    Equality,
    Comparison,
    Term,
    Factor,
    Unary,
    Primary,
}

impl Precedence {
    /// The position of the level in the order, the loosest level being 0.
    pub open spec fn level(self) -> nat {
        match self {
            Precedence::Lowest => 0,
            Precedence::Assignment => 1,
            Precedence::Ternary => 2,
            Precedence::Or => 3,
            Precedence::And => 4,
            Precedence::BitOr => 5,
            Precedence::BitXor => 6,
            Precedence::BitAnd => 7,
            Precedence::Equality => 8,
            Precedence::Comparison => 9,
            Precedence::Term => 10,
            Precedence::Factor => 11,
            Precedence::Unary => 12,
            Precedence::Primary => 13,
        }
    }

    /// The position of the level in the order.
    pub fn rank(self) -> (r: u8)
        ensures
            r == self.level(),
    {
        match self {
            Precedence::Lowest => 0,
            Precedence::Assignment => 1,
            Precedence::Ternary => 2,
            Precedence::Or => 3,
            Precedence::And => 4,
            Precedence::BitOr => 5,
            Precedence::BitXor => 6,
            Precedence::BitAnd => 7,
            Precedence::Equality => 8,
            Precedence::Comparison => 9,
            Precedence::Term => 10,
            Precedence::Factor => 11,
            Precedence::Unary => 12,
            Precedence::Primary => 13,
        }
    }

    /// The next tighter level: it exists for every level but the tightest, and
    /// stands one position higher.
    pub fn next_higher(self) -> (next: Option<Self>)
        ensures
            next is None <==> self == Precedence::Primary,
            next matches Some(p) ==> p.level() == self.level() + 1,
    {
        match self {
            Precedence::Lowest => Some(Precedence::Assignment),
            Precedence::Assignment => Some(Precedence::Ternary),
            Precedence::Ternary => Some(Precedence::Or),
            Precedence::Or => Some(Precedence::And),
            Precedence::And => Some(Precedence::BitOr),
            Precedence::BitOr => Some(Precedence::BitXor),
            Precedence::BitXor => Some(Precedence::BitAnd),
            Precedence::BitAnd => Some(Precedence::Equality),
            Precedence::Equality => Some(Precedence::Comparison),
            Precedence::Comparison => Some(Precedence::Term),
            Precedence::Term => Some(Precedence::Factor),
            Precedence::Factor => Some(Precedence::Unary),
            Precedence::Unary => Some(Precedence::Primary),
            Precedence::Primary => None,
        }
    }

    /// A level is known by its position: two levels at one position are the
    /// same level.
    pub proof fn law_level_injective(a: Precedence, b: Precedence)
        requires
            a.level() == b.level(),
        ensures
            a == b,
    {
    }
}

} // verus!
