//! Verified core of the NebGov governor factory.
//!
//! - `factory`: the factory's state and every decision it takes — settings
//!   validation, the deployer balance check, the next id, the deployment plan,
//!   registration and paged lookup of governors.
//! - `salt`: the deterministic salts under which a governor stack is deployed.
//! - `isqrt`: the integer square root used to weight quadratic votes.
//! - `mock_votes`: a voting-power source that reports what was set.
//! - `liquidity`: the liquidity pool contract's error codes.
use vstd::prelude::*;

pub mod factory;
pub mod isqrt;
pub mod liquidity;
pub mod mock_votes;
pub mod salt;

verus! {
}
