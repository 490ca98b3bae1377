//! The market record: identity, the two outcome-token reserves, and the
//! lifecycle state, together with the error taxonomy shared by every
//! exchange operation.

use vstd::prelude::*;

verus! {

/// Upper bound, in bytes, on the question text of a market.
pub const MAX_QUESTION_LEN: usize = 512;

/// Lifecycle state of a market. `Active` is the initial state; the other
/// three are terminal. `Cancelled` is reserved: no operation reaches it.
#[derive(Clone, Copy, PartialEq, Eq, Structural, Debug)]
pub enum MarketStatus {
    Active,
    ResolvedYes,
    ResolvedNo,
    Cancelled,
}

/// Why an exchange operation was refused. Every error is detected before
/// any mutation is committed: a failing operation leaves its market
/// record exactly as it found it.
#[derive(Clone, Copy, PartialEq, Eq, Structural, Debug)]
pub enum ErrorCode {
    /// The pool has no liquidity on some side, or a withdrawal asks for
    /// more than a reserve holds.
    InsufficientLiquidity,
    /// The computed swap output fell below the caller's floor.
    SlippageExceeded,
    /// A checked arithmetic step would exceed `u64::MAX`.
    MathOverflow,
    /// A state-gated operation was attempted outside the `Active` state.
    MarketNotActive,
    /// An input failed validation (the question text is too long).
    InvalidInput,
}

/// One prediction market: who created it, what it asks, which two token
/// kinds it trades, the AMM reserves, and where it stands in its
/// lifecycle. Accounts and token kinds are carried as opaque numeric
/// identifiers; the ledger that custodies the actual balances is outside
/// this core.
#[derive(Debug)]
pub struct Market {
    /// Identifier of the account that created the market. Immutable.
    pub creator: u64,
    /// The question text, at most `MAX_QUESTION_LEN` bytes. Immutable.
    pub question: Vec<u8>,
    /// Identifier of the YES outcome token. Immutable.
    pub yes_mint: u64,
    /// Identifier of the NO outcome token. Immutable.
    pub no_mint: u64,
    /// Pool balance of YES tokens.
    pub yes_reserve: u64,
    /// Pool balance of NO tokens.
    pub no_reserve: u64,
    /// Timestamp of creation. Immutable.
    pub created_at: i64,
    /// Timestamp of resolution; set exactly once, on leaving `Active`.
    pub resolved_at: Option<i64>,
    /// Lifecycle state.
    pub status: MarketStatus,
}

impl Market {
    /// Well-formedness: the question respects its length bound, and the
    /// resolution timestamp is absent exactly while the market is still
    /// active (terminal states always carry one).
    pub open spec fn wf(self) -> bool {
        &&& self.question@.len() <= MAX_QUESTION_LEN
        &&& (self.resolved_at is None <==> self.status == MarketStatus::Active)
    }

    /// The fields that no exchange operation may change after creation.
    pub open spec fn same_identity(self, other: Market) -> bool {
        &&& self.creator == other.creator
        &&& self.question@ == other.question@
        &&& self.yes_mint == other.yes_mint
        &&& self.no_mint == other.no_mint
        &&& self.created_at == other.created_at
    }
}

} // verus!
