//! Verified models of two Andromeda CosmWasm contracts: a rate-limited
//! withdrawal vault and an NFT time lock, together with the small chain
//! vocabulary (coins, timestamps, responses, errors) that they share.

pub mod text_map;
pub mod chain;
pub mod version;
pub mod rate_limiting_withdrawals;
pub mod nft_timelock;
pub mod laws;
pub mod runs;
