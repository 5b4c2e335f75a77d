//! What the pages read from their queries: which newly created item to
//! mark.
pub mod bookkeeping;
pub mod grouping;
pub mod transaction;
