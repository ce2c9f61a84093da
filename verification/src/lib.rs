//! Light-client core for a GRANDPA-style finality bridge: verifies that a
//! supermajority of a known authority set signed a finality justification,
//! commits an authority set to a single chained-hash digest, extracts
//! authority-set rotations from header bytes, and re-validates witness data
//! supplied by an untrusted off-chain bridge.

pub mod bridge;
pub mod commitment;
pub mod crypto;
pub mod encoding;
pub mod justification;
pub mod pipeline;
pub mod rotate;
pub mod types;
pub mod util;
