//! The progression engine: the quantitative state of a character and
//! the rules for spending effort from a resource pool.

use vstd::prelude::*;
use crate::decimal::{decimal_digits, push_decimal};

verus! {

/// The power level of a character, from first to sixth.
#[derive(Debug, Clone, Copy, PartialEq, Eq, Structural)]
pub enum Tier {
    /// First tier
    One,
    /// Second tier
    Two,
    /// Third tier
    Three,
    /// Fourth tier
    Four,
    /// Fifth tier
    Five,
    /// Sixth tier
    Six,
}

/// Selects which resource pool a spend of effort targets.
#[derive(Debug, Clone, Copy, PartialEq, Eq, Structural)]
pub enum EffortType {
    /// Effort applied to physical tasks
    Might,
    /// Effort applied to movement and range tasks
    Speed,
    /// Effort applied to knowledge and interpersonal tasks
    Intellect,
}

impl EffortType {
    /// The display name of the effort type.
    pub open spec fn name_text(self) -> Seq<char> {
        match self {
            EffortType::Might => "Might"@,
            EffortType::Speed => "Speed"@,
            EffortType::Intellect => "Intellect"@,
        }
    }

    /// The display name of the effort type.
    pub fn name(&self) -> (r: &'static str)
        ensures
            r@ == self.name_text(),
    {
        match self {
            EffortType::Might => "Might",
            EffortType::Speed => "Speed",
            EffortType::Intellect => "Intellect",
        }
    }
}

/// The injury state of a character. Only the distinction between
/// `Hale` and the two injured states feeds the effort cost: an injured
/// character pays one extra point per level of effort.
#[derive(Debug, Clone, Copy, PartialEq, Eq, Structural)]
pub enum DamageTrack {
    /// Fully healthy
    Hale,
    /// One pool reduced to zero points
    Impaired,
    /// Two pools reduced to zero points
    Debilitated,
}

/// A resource pool: current points, the maximum, and an edge rating
/// that discounts effort spent from this pool.
#[derive(Debug, Clone, Copy, PartialEq, Eq, Structural)]
pub struct Pool {
    /// The points currently left in the pool
    pub current: u8,
    /// The maximum number of points the pool holds
    pub max: u8,
    /// The per-spend discount on effort paid from this pool
    pub edge: u8,
}

impl Pool {
    /// A pool at rest never holds more points than its maximum.
    pub open spec fn wf(self) -> bool {
        self.current <= self.max
    }

    /// Constructs a full pool with the given maximum and edge.
    pub fn new(max: u8, edge: u8) -> (r: Pool)
        ensures
            r == (Pool { current: max, max: max, edge: edge }),
            r.wf(),
    {
        Pool { current: max, max, edge }
    }
}

/// The recovery attempts a character has already used today: one per
/// time scale.
#[derive(Debug, Clone, Copy, PartialEq, Eq, Structural)]
pub struct RecoveryRolls {
    /// A single-action recovery has been used
    pub one_action: bool,
    /// A ten-minute recovery has been used
    pub ten_minutes: bool,
    /// A one-hour recovery has been used
    pub one_hour: bool,
    /// A ten-hour recovery has been used
    pub ten_hours: bool,
}

impl Default for RecoveryRolls {
    /// No recovery attempt has been used yet.
    fn default() -> (r: Self)
        ensures
            r == (RecoveryRolls {
                one_action: false,
                ten_minutes: false,
                one_hour: false,
                ten_hours: false,
            }),
    {
        RecoveryRolls { one_action: false, ten_minutes: false, one_hour: false, ten_hours: false }
    }
}

/// The advancements a character has taken this tier, each usable at
/// most once per tier.
#[derive(Debug, Clone, Copy, PartialEq, Eq, Structural)]
pub struct Advancement {
    /// Four points added to the stat pools
    pub increase_capabilities: bool,
    /// One point of edge added
    pub move_toward_perfection: bool,
    /// One point of effort added
    pub extra_effort: bool,
    /// A skill trained, specialized, or an inability removed
    pub skill_training: bool,
    /// A character advancement agreed between player and game master
    pub other: bool,
}

impl Default for Advancement {
    /// No advancement has been taken yet this tier.
    fn default() -> (r: Self)
        ensures
            r == (Advancement {
                increase_capabilities: false,
                move_toward_perfection: false,
                extra_effort: false,
                skill_training: false,
                other: false,
            }),
    {
        Advancement {
            increase_capabilities: false,
            move_toward_perfection: false,
            extra_effort: false,
            skill_training: false,
            other: false,
        }
    }
}

/// Why a spend of effort was rejected. The four kinds are mutually
/// exclusive: the validation chain stops at the first failing check.
#[derive(Debug, Clone, Copy, PartialEq, Eq, Structural)]
pub enum SpendEffortError {
    /// The requested effort level was zero
    ZeroEffort,
    /// The requested level exceeds the available effort budget
    EffortExceeded {
        /// The effort budget that was available
        max: u8,
        /// The effort level that was requested
        requested: u8,
    },
    /// The requested edge exceeds the pool's edge rating
    EdgeExceeded {
        /// The edge rating of the targeted pool
        max: u8,
        /// The edge that was requested
        requested: u8,
    },
    /// The computed cost would not leave a positive remainder in the
    /// pool
    PoolExhausted {
        /// The pool the spend targeted
        effort_type: EffortType,
        /// The points currently left in the pool
        max: u8,
        /// The computed cost of the spend
        requested: u8,
    },
}

/// The cost of a spend before any injury surcharge: three points for
/// the first level of effort, two per further level, less the edge
/// used.
pub open spec fn base_cost(effort_level: u8, edge: u8) -> int {
    3 + (effort_level - 1) * 2 - edge
}

/// The full cost of a spend: the base cost, plus one point per level
/// of effort when the character is not hale.
pub open spec fn spend_cost(effort_level: u8, edge: u8, damage: DamageTrack) -> int {
    base_cost(effort_level, edge) + if damage == DamageTrack::Hale {
        0int
    } else {
        effort_level as int
    }
}

/// The quantitative state of a character at a point in time.
#[derive(Debug, Clone)]
pub struct CharacterStats {
    /// The character's power level
    pub tier: Tier,
    /// The maximum effort level purchasable in one spend
    pub effort: u8,
    /// Experience points earned and not yet spent
    pub xp: u8,
    /// The pool backing physical tasks
    pub might: Pool,
    /// The pool backing movement and range tasks
    pub speed: Pool,
    /// The pool backing knowledge and interpersonal tasks
    pub intellect: Pool,
    /// The recovery attempts used today
    pub recovery_rolls: RecoveryRolls,
    /// The character's injury state
    pub damage_track: DamageTrack,
    /// The advancements taken this tier
    pub advancement: Advancement,
}

impl CharacterStats {
    /// Every pool is at rest: current points never exceed the maximum.
    pub open spec fn wf(self) -> bool {
        self.might.wf() && self.speed.wf() && self.intellect.wf()
    }

    /// The pool a given effort type targets.
    pub open spec fn pool(self, effort_type: EffortType) -> Pool {
        match effort_type {
            EffortType::Might => self.might,
            EffortType::Speed => self.speed,
            EffortType::Intellect => self.intellect,
        }
    }

    /// The same state with the pool of `effort_type` replaced.
    pub open spec fn with_pool(self, effort_type: EffortType, p: Pool) -> CharacterStats {
        match effort_type {
            EffortType::Might => CharacterStats { might: p, ..self },
            EffortType::Speed => CharacterStats { speed: p, ..self },
            EffortType::Intellect => CharacterStats { intellect: p, ..self },
        }
    }

    /// The validation chain, in order: a zero level, then a level over
    /// the effort budget, then edge over the pool's rating, then a
    /// cost that would not leave a positive remainder. The first
    /// failing check decides the error.
    pub open spec fn spend_outcome(self, effort_type: EffortType, effort_level: u8, edge: u8) -> Result<
        (),
        SpendEffortError,
    > {
        let pool = self.pool(effort_type);
        let cost = spend_cost(effort_level, edge, self.damage_track);
        if effort_level == 0 {
            Err(SpendEffortError::ZeroEffort)
        } else if self.effort < effort_level {
            Err(SpendEffortError::EffortExceeded { max: self.effort, requested: effort_level })
        } else if pool.edge < edge {
            Err(SpendEffortError::EdgeExceeded { max: pool.edge, requested: edge })
        } else if cost >= pool.current {
            Err(SpendEffortError::PoolExhausted {
                effort_type,
                max: pool.current,
                requested: cost as u8,
            })
        } else {
            Ok(())
        }
    }

    /// The state after a successful spend: the cost is deducted from
    /// the targeted pool and nothing else changes.
    pub open spec fn spend_next(self, effort_type: EffortType, effort_level: u8, edge: u8) -> CharacterStats {
        let pool = self.pool(effort_type);
        let cost = spend_cost(effort_level, edge, self.damage_track);
        self.with_pool(
            effort_type,
            Pool { current: (pool.current - cost) as u8, max: pool.max, edge: pool.edge },
        )
    }

    /// The cost arithmetic of a spend that reaches the cost step stays
    /// within the pool's point type. Requests that the validation
    /// chain rejects before computing a cost are unconstrained.
    pub open spec fn spend_fits(self, effort_type: EffortType, effort_level: u8, edge: u8) -> bool {
        (1 <= effort_level && effort_level <= self.effort && edge <= self.pool(effort_type).edge)
            ==> {
            &&& 3 + (effort_level - 1) * 2 <= u8::MAX
            &&& edge <= 3 + (effort_level - 1) * 2
            &&& spend_cost(effort_level, edge, self.damage_track) <= u8::MAX
        }
    }

    /// Constructs a first-tier character: every pool full at its
    /// chosen maximum and edge, an effort budget of one, no experience,
    /// hale, and no recovery or advancement flag set. The supplied
    /// values are accepted as given; point-buy legality is the
    /// caller's concern.
    pub fn new(
        might_pool: u8,
        might_edge: u8,
        speed_pool: u8,
        speed_edge: u8,
        intellect_pool: u8,
        intellect_edge: u8,
    ) -> (r: CharacterStats)
        ensures
            r == (CharacterStats {
                tier: Tier::One,
                effort: 1,
                xp: 0,
                might: (Pool { current: might_pool, max: might_pool, edge: might_edge }),
                speed: (Pool { current: speed_pool, max: speed_pool, edge: speed_edge }),
                intellect: (Pool {
                    current: intellect_pool,
                    max: intellect_pool,
                    edge: intellect_edge,
                }),
                recovery_rolls: (RecoveryRolls {
                    one_action: false,
                    ten_minutes: false,
                    one_hour: false,
                    ten_hours: false,
                }),
                damage_track: DamageTrack::Hale,
                advancement: (Advancement {
                    increase_capabilities: false,
                    move_toward_perfection: false,
                    extra_effort: false,
                    skill_training: false,
                    other: false,
                }),
            }),
            r.wf(),
    {
        CharacterStats {
            tier: Tier::One,
            effort: 1,
            xp: 0,
            might: Pool::new(might_pool, might_edge),
            speed: Pool::new(speed_pool, speed_edge),
            intellect: Pool::new(intellect_pool, intellect_edge),
            recovery_rolls: RecoveryRolls::default(),
            damage_track: DamageTrack::Hale,
            advancement: Advancement::default(),
        }
    }

    /// Spends effort from the chosen pool: validates the request in a
    /// fixed order, computes the cost, and deducts it on success. On
    /// any failure the state is left untouched and the error names the
    /// first check that failed, with the numbers it compared.
    pub fn spend_effort(&mut self, effort_type: EffortType, effort_level: u8, edge: u8) -> (r: Result<
        (),
        SpendEffortError,
    >)
        requires
            old(self).spend_fits(effort_type, effort_level, edge),
        ensures
            r == old(self).spend_outcome(effort_type, effort_level, edge),
            r is Ok ==> *final(self) == old(self).spend_next(effort_type, effort_level, edge),
            r is Err ==> *final(self) == *old(self),
            old(self).wf() ==> final(self).wf(),
    {
        if effort_level == 0 {
            return Err(SpendEffortError::ZeroEffort);
        }
        if self.effort < effort_level {
            return Err(SpendEffortError::EffortExceeded { max: self.effort, requested: effort_level });
        }
        let pool = match effort_type {
            EffortType::Might => self.might,
            EffortType::Speed => self.speed,
            EffortType::Intellect => self.intellect,
        };
        if pool.edge < edge {
            return Err(SpendEffortError::EdgeExceeded { max: pool.edge, requested: edge });
        }
        let mut points_to_spend: u8 = 3 + (effort_level - 1) * 2 - edge;
        if self.damage_track != DamageTrack::Hale {
            points_to_spend = points_to_spend + effort_level;
        }
        if points_to_spend >= pool.current {
            return Err(SpendEffortError::PoolExhausted {
                effort_type,
                max: pool.current,
                requested: points_to_spend,
            });
        }
        let updated = Pool { current: pool.current - points_to_spend, max: pool.max, edge: pool.edge };
        match effort_type {
            EffortType::Might => {
                self.might = updated;
            },
            EffortType::Speed => {
                self.speed = updated;
            },
            EffortType::Intellect => {
                self.intellect = updated;
            },
        }
        Ok(())
    }
}

impl SpendEffortError {
    /// The human-readable description of the rejection, with the
    /// compared numbers rendered in decimal.
    pub open spec fn text(self) -> Seq<char> {
        match self {
            SpendEffortError::ZeroEffort => "Attempted to spend zero effort"@,
            SpendEffortError::EffortExceeded { max, requested } => "Attempted to spend more effort than allowed (max "@
                + decimal_digits(max as nat) + "): "@ + decimal_digits(requested as nat),
            SpendEffortError::EdgeExceeded { max, requested } => "Attempted to apply more edge than available (max "@
                + decimal_digits(max as nat) + "): "@ + decimal_digits(requested as nat),
            SpendEffortError::PoolExhausted { effort_type, max, requested } => "Attempted to spend all of the "@
                + effort_type.name_text() + " pool points (max "@ + decimal_digits(max as nat)
                + "): "@ + decimal_digits(requested as nat),
        }
    }

    /// Renders the description of the rejection.
    pub fn message(&self) -> (r: String)
        ensures
            r@ == self.text(),
    {
        let mut s = String::new();
        match self {
            SpendEffortError::ZeroEffort => {
                s.append("Attempted to spend zero effort");
            },
            SpendEffortError::EffortExceeded { max, requested } => {
                s.append("Attempted to spend more effort than allowed (max ");
                push_decimal(&mut s, *max);
                s.append("): ");
                push_decimal(&mut s, *requested);
            },
            SpendEffortError::EdgeExceeded { max, requested } => {
                s.append("Attempted to apply more edge than available (max ");
                push_decimal(&mut s, *max);
                s.append("): ");
                push_decimal(&mut s, *requested);
            },
            SpendEffortError::PoolExhausted { effort_type, max, requested } => {
                s.append("Attempted to spend all of the ");
                s.append(effort_type.name());
                s.append(" pool points (max ");
                push_decimal(&mut s, *max);
                s.append("): ");
                push_decimal(&mut s, *requested);
            },
        }
        proof {
            assert(s@ =~= self.text());
        }
        s
    }
}

} // verus!
