//! The rules of the spend-effort operation, stated and proved once
//! over its specification model, and the shape of the rendering when
//! no flavor is set.

use vstd::prelude::*;
use crate::character::Sentence;
use crate::stats::CharacterStats;
use crate::stats::DamageTrack;
use crate::stats::EffortType;
use crate::stats::SpendEffortError;
use crate::stats::spend_cost;

verus! {

/// A valid spend succeeds and deducts exactly its cost: when the
/// level is at least one and within the effort budget, the edge is
/// within the pool's rating, and the cost is strictly below the
/// pool's current points, the outcome is success and the pool is left
/// with exactly its points less the cost, where the cost is three
/// points for the first level, two per further level, less the edge,
/// plus one per level when the character is not hale.
///
/// The cost is also required to be nonnegative: a spend whose edge
/// exceeds its base cost is outside the engine's arithmetic.
pub proof fn lemma_spend_succeeds(
    stats: CharacterStats,
    effort_type: EffortType,
    effort_level: u8,
    edge: u8,
)
    requires
        1 <= effort_level,
        effort_level <= stats.effort,
        edge <= stats.pool(effort_type).edge,
        0 <= spend_cost(effort_level, edge, stats.damage_track),
        spend_cost(effort_level, edge, stats.damage_track) < stats.pool(effort_type).current,
    ensures
        stats.spend_outcome(effort_type, effort_level, edge) == Ok::<(), SpendEffortError>(()),
        stats.spend_next(effort_type, effort_level, edge).pool(effort_type).current
            == stats.pool(effort_type).current - spend_cost(effort_level, edge, stats.damage_track),
        spend_cost(effort_level, edge, stats.damage_track) == 3 + (effort_level - 1) * 2 - edge + (
        if stats.damage_track == DamageTrack::Hale {
            0int
        } else {
            effort_level as int
        }),
{
}

/// A spend at effort level zero is rejected as `ZeroEffort`, whatever
/// the other parameters and the state.
pub proof fn lemma_zero_effort_rejected(
    stats: CharacterStats,
    effort_type: EffortType,
    edge: u8,
)
    ensures
        stats.spend_outcome(effort_type, 0, edge) == Err::<(), SpendEffortError>(
            SpendEffortError::ZeroEffort,
        ),
{
}

/// A spend above the effort budget is rejected as `EffortExceeded`,
/// carrying the budget and the request, even where edge and pool
/// would otherwise allow it.
pub proof fn lemma_effort_exceeded_rejected(
    stats: CharacterStats,
    effort_type: EffortType,
    effort_level: u8,
    edge: u8,
)
    requires
        stats.effort < effort_level,
    ensures
        stats.spend_outcome(effort_type, effort_level, edge) == Err::<(), SpendEffortError>(
            SpendEffortError::EffortExceeded { max: stats.effort, requested: effort_level },
        ),
{
}

/// A spend whose edge exceeds the pool's rating is rejected as
/// `EdgeExceeded`, carrying the rating and the request, whenever the
/// zero-effort and effort-budget checks pass.
pub proof fn lemma_edge_exceeded_rejected(
    stats: CharacterStats,
    effort_type: EffortType,
    effort_level: u8,
    edge: u8,
)
    requires
        1 <= effort_level,
        effort_level <= stats.effort,
        stats.pool(effort_type).edge < edge,
    ensures
        stats.spend_outcome(effort_type, effort_level, edge) == Err::<(), SpendEffortError>(
            SpendEffortError::EdgeExceeded { max: stats.pool(effort_type).edge, requested: edge },
        ),
{
}

/// A spend whose cost would not leave a positive remainder is
/// rejected as `PoolExhausted`, carrying the pool, its current points
/// and the cost, whenever the earlier checks pass.
pub proof fn lemma_pool_exhausted_rejected(
    stats: CharacterStats,
    effort_type: EffortType,
    effort_level: u8,
    edge: u8,
)
    requires
        1 <= effort_level,
        effort_level <= stats.effort,
        edge <= stats.pool(effort_type).edge,
        spend_cost(effort_level, edge, stats.damage_track) >= stats.pool(effort_type).current,
    ensures
        stats.spend_outcome(effort_type, effort_level, edge) == Err::<(), SpendEffortError>(
            SpendEffortError::PoolExhausted {
                effort_type,
                max: stats.pool(effort_type).current,
                requested: spend_cost(effort_level, edge, stats.damage_track) as u8,
            },
        ),
{
}

/// A successful spend touches nothing but the targeted pool's current
/// points: the other two pools, the tier, the effort budget, the
/// experience, the recovery flags, the damage track and the
/// advancement flags are all kept.
pub proof fn lemma_spend_touches_one_pool(
    stats: CharacterStats,
    effort_type: EffortType,
    effort_level: u8,
    edge: u8,
)
    ensures
        ({
            let next = stats.spend_next(effort_type, effort_level, edge);
            &&& next.tier == stats.tier
            &&& next.effort == stats.effort
            &&& next.xp == stats.xp
            &&& next.recovery_rolls == stats.recovery_rolls
            &&& next.damage_track == stats.damage_track
            &&& next.advancement == stats.advancement
            &&& next.pool(effort_type).max == stats.pool(effort_type).max
            &&& next.pool(effort_type).edge == stats.pool(effort_type).edge
            &&& forall|other: EffortType|
                other != effort_type ==> #[trigger] next.pool(other) == stats.pool(other)
        }),
{
}

/// A sentence without a flavor renders with no parenthetical: the
/// descriptor and the character type stand directly before `" who "`.
pub proof fn lemma_render_without_flavor(sentence: Sentence)
    requires
        sentence.flavor is None,
    ensures
        sentence.text() == sentence.descriptor@ + " "@ + sentence.character_type@ + " who "@
            + sentence.focus@,
{
    assert(sentence.text() =~= sentence.descriptor@ + " "@ + sentence.character_type@ + " who "@
        + sentence.focus@);
}

} // verus!
