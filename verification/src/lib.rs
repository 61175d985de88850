//! A character model for a point-pool-based tabletop rule system.
//!
//! A character is described twice over: a narrative identity (a name,
//! pronouns, and a descriptive sentence) and a quantitative progression
//! state (tier, effort budget, three resource pools, damage track, and
//! advancement flags). The one nontrivial operation is spending effort
//! from a pool, which validates the request, computes a cost from the
//! effort level, the edge discount and the damage track, and deducts it.

pub mod character;
pub mod decimal;
pub mod laws;
pub mod stats;

pub use character::Character;
pub use character::Sentence;
pub use stats::Advancement;
pub use stats::CharacterStats;
pub use stats::DamageTrack;
pub use stats::EffortType;
pub use stats::Pool;
pub use stats::RecoveryRolls;
pub use stats::SpendEffortError;
pub use stats::Tier;
