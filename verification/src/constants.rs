use vstd::prelude::*;

verus! {

/// Platform fee taken from every purchase, in basis points (1%).
pub const FEE_PERCENT: usize = 100;

/// Largest share of a raffle's supply that one buyer may hold, in basis points (40%).
pub const MAX_TICKET_PERCENT: usize = 4000;

/// One hundred percent, in basis points.
pub const BASIS_POINTS: usize = 10000;

/// Upper bound on the number of tickets a raffle is expected to offer.
pub const MAX_TICKET_AMOUNT: usize = 10000;

/// Width in bytes of a buyer identifier.
pub const ID_LENGTH: usize = 12;

/// Number of slots in the collection whitelist.
pub const MAX_COLLECTIONS: usize = 10;

} // verus!
