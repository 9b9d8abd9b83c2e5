//! Pure reward and growth formulas: activation cost, initial moss, the
//! environment bonus, the growth increment, and the harvest reward.
//!
//! All arithmetic is integer arithmetic with floor division; moss updates
//! saturate at the cap and never go below zero.

use vstd::prelude::*;
use crate::stone::StoneType;
use crate::stone::StoneState;
use crate::stone::level_of;

verus! {

/// Upper bound on a stone's base activation cost, so that scaling by the
/// largest multiplier (120%) stays within `u64`.
pub const MAX_BASE_COST: u64 = 18446744073709551615u64 / 120;

/// Upper bound on the number of review records a stone may carry, so that
/// the harvest reward stays within `u64`.
pub const MAX_REVIEWS: usize = 1000000000;

/// The moss level saturates at this cap.
pub const MOSS_CAP: u64 = 100;

/// `1 <= level <= 3`: the valid tiered activation levels.
pub open spec fn level_valid(level: u8) -> bool {
    1 <= level && level <= 3
}

/// Cost multiplier per activation level, in percent: closer activation
/// (higher level) costs more.
pub open spec fn spec_cost_multiplier(level: u8) -> int {
    if level == 1 {
        80
    } else if level == 2 {
        100
    } else {
        120
    }
}

/// Tiered activation cost: the base cost scaled by the level's percentage,
/// with floor division.
pub open spec fn spec_activation_cost(base_cost: u64, level: u8) -> int {
    (base_cost * spec_cost_multiplier(level)) / 100
}

/// Cost of activating at `level` a stone whose base cost is `base_cost`.
pub fn activation_cost(base_cost: u64, level: u8) -> (cost: u64)
    requires
        base_cost <= MAX_BASE_COST,
        level_valid(level),
    ensures
        cost == spec_activation_cost(base_cost, level),
{
    let multiplier: u64 = if level == 1 {
        80
    } else if level == 2 {
        100
    } else {
        120
    };
    assert(base_cost * multiplier <= MAX_BASE_COST * 120) by (nonlinear_arith)
        requires
            base_cost <= MAX_BASE_COST,
            multiplier <= 120,
    ;
    (base_cost * multiplier) / 100
}

/// Base moss value granted on activation, by stone type.
pub open spec fn spec_type_base_moss(stone_type: StoneType) -> int {
    match stone_type {
        StoneType::Genesis => 20,
        StoneType::Astral => 10,
    }
}

/// Moss level set on activation: the type's base value plus 5 per level
/// above the first.
pub open spec fn spec_initial_moss(stone_type: StoneType, level: u8) -> int {
    spec_type_base_moss(stone_type) + (level as int - 1) * 5
}

/// Moss level a freshly activated stone starts with.
pub fn initial_moss(stone_type: StoneType, level: u8) -> (moss: u64)
    requires
        level_valid(level),
    ensures
        moss == spec_initial_moss(stone_type, level),
        moss <= 30,
{
    let base: u64 = match stone_type {
        StoneType::Genesis => 20,
        StoneType::Astral => 10,
    };
    base + ((level - 1) as u64) * 5
}

/// Environment readings a stone grows under.
#[derive(Clone, Copy, Debug, PartialEq, Eq, Structural)]
pub struct Environment {
    /// Temperature, in degrees.
    pub temperature: i64,
    /// Relative humidity, in percent.
    pub humidity: i64,
    /// Air quality index.
    pub air_quality: i64,
    /// Light level index.
    pub light_level: i64,
}

/// Environment bonus in `[0, 4]`: one point each for temperature strictly
/// between 15 and 30, humidity strictly between 60 and 90, air quality
/// above 70, and light level above 50. No partial credit.
pub open spec fn spec_environment_bonus(env: Environment) -> int {
    (if 15 < env.temperature && env.temperature < 30 {
        1int
    } else {
        0int
    }) + (if 60 < env.humidity && env.humidity < 90 {
        1int
    } else {
        0int
    }) + (if env.air_quality > 70 {
        1int
    } else {
        0int
    }) + (if env.light_level > 50 {
        1int
    } else {
        0int
    })
}

/// Growth bonus earned from the environment readings.
pub fn environment_bonus(env: &Environment) -> (bonus: u64)
    ensures
        bonus == spec_environment_bonus(*env),
        bonus <= 4,
{
    let mut bonus: u64 = 0;
    if 15 < env.temperature && env.temperature < 30 {
        bonus = bonus + 1;
    }
    if 60 < env.humidity && env.humidity < 90 {
        bonus = bonus + 1;
    }
    if env.air_quality > 70 {
        bonus = bonus + 1;
    }
    if env.light_level > 50 {
        bonus = bonus + 1;
    }
    bonus
}

/// Time-based base growth: one point per full hour since the last harvest,
/// capped at 10 points; clock skew (a negative elapsed time) earns nothing.
pub open spec fn spec_base_growth(elapsed_seconds: int) -> int {
    if elapsed_seconds < 0 {
        0
    } else if elapsed_seconds / 3600 > 10 {
        10
    } else {
        elapsed_seconds / 3600
    }
}

/// Base growth earned between `last_harvest_time` and `now`.
pub fn base_growth(last_harvest_time: i64, now: i64) -> (growth: u64)
    ensures
        growth == spec_base_growth(now as int - last_harvest_time as int),
        growth <= 10,
{
    let elapsed: i128 = (now as i128) - (last_harvest_time as i128);
    if elapsed < 0 {
        0
    } else {
        let hours: i128 = elapsed / 3600;
        if hours > 10 {
            10
        } else {
            hours as u64
        }
    }
}

/// Total growth increment: the time-based base growth, the spore bonus, the
/// environment bonus, and a level bonus equal to the activation level.
pub open spec fn spec_growth_increment(
    base_growth: int,
    spore_bonus: int,
    env_bonus: int,
    level_bonus: int,
) -> int {
    base_growth + spore_bonus + env_bonus + level_bonus
}

/// Sum the growth terms. The bound in `requires` is the machine limit that
/// keeps the sum within `u64`; the moss update itself saturates far below
/// it.
pub fn growth_increment(
    time_elapsed_factor: u64,
    spore_bonus: u64,
    env_bonus: u64,
    level_bonus: u64,
) -> (increment: u64)
    requires
        time_elapsed_factor + spore_bonus + env_bonus + level_bonus <= u64::MAX,
    ensures
        increment == spec_growth_increment(
            time_elapsed_factor as int,
            spore_bonus as int,
            env_bonus as int,
            level_bonus as int,
        ),
{
    time_elapsed_factor + spore_bonus + env_bonus + level_bonus
}

/// Saturating moss update: the new level is the old level plus the
/// increment, capped at `MOSS_CAP`.
pub open spec fn spec_grown_moss(moss: int, increment: int) -> int {
    if moss + increment > MOSS_CAP {
        MOSS_CAP as int
    } else {
        moss + increment
    }
}

/// Moss level after applying a sequence of increments in order.
pub open spec fn spec_moss_after_all(moss: int, increments: Seq<int>) -> int
    decreases increments.len(),
{
    if increments.len() == 0 {
        moss
    } else {
        spec_moss_after_all(spec_grown_moss(moss, increments[0]), increments.skip(1))
    }
}

/// Moss saturation: from any level within bounds, any sequence of
/// non-negative growth increments leaves the moss level within
/// `[0, MOSS_CAP]` — it never exceeds the cap and never goes negative.
pub proof fn lemma_moss_saturation(moss: int, increments: Seq<int>)
    requires
        0 <= moss <= MOSS_CAP,
        forall|i: int| 0 <= i < increments.len() ==> increments[i] >= 0,
    ensures
        0 <= spec_moss_after_all(moss, increments) <= MOSS_CAP,
    decreases increments.len(),
{
    if increments.len() > 0 {
        assert(increments[0] >= 0);
        assert(forall|i: int|
            0 <= i < increments.skip(1).len() ==> increments.skip(1)[i] == increments[i + 1]);
        lemma_moss_saturation(spec_grown_moss(moss, increments[0]), increments.skip(1));
    }
}

/// Moss growth is monotonic: a non-negative increment never lowers the
/// moss level.
pub proof fn lemma_moss_monotonic(moss: int, increment: int)
    requires
        0 <= moss <= MOSS_CAP,
        increment >= 0,
    ensures
        spec_grown_moss(moss, increment) >= moss,
{
}

/// Extra reward per stone type.
pub open spec fn spec_type_bonus(stone_type: StoneType) -> int {
    match stone_type {
        StoneType::Genesis => 5,
        StoneType::Astral => 0,
    }
}

/// Unscaled harvest reward: a base of 10 tokens, one token per 10 moss
/// (floor), the type bonus, and one token per review record.
pub open spec fn spec_harvest_reward(stone_type: StoneType, moss_level: int, review_count: int) -> int {
    10 + moss_level / 10 + spec_type_bonus(stone_type) + review_count
}

/// Reward multiplier per activated state, in percent.
pub open spec fn spec_level_multiplier(state: StoneState) -> int {
    match state {
        StoneState::ActivatedLevel1 => 100,
        StoneState::ActivatedLevel2 => 125,
        StoneState::ActivatedLevel3 => 150,
        _ => 100,
    }
}

/// Tokens a harvest mints: the unscaled reward scaled by the state's
/// percentage multiplier, with floor division.
pub open spec fn spec_harvest_tokens(
    stone_type: StoneType,
    moss_level: int,
    review_count: int,
    state: StoneState,
) -> int {
    (spec_harvest_reward(stone_type, moss_level, review_count) * spec_level_multiplier(state)) / 100
}

/// Unscaled harvest reward of a stone with the given attributes.
pub fn harvest_reward(
    stone_type: StoneType,
    moss_level: u64,
    review_count: usize,
) -> (reward: u64)
    requires
        moss_level <= MOSS_CAP,
        review_count <= MAX_REVIEWS,
    ensures
        reward == spec_harvest_reward(stone_type, moss_level as int, review_count as int),
{
    let type_bonus: u64 = match stone_type {
        StoneType::Genesis => 5,
        StoneType::Astral => 0,
    };
    10 + moss_level / 10 + type_bonus + (review_count as u64)
}

/// Reward determinism: the reward and growth formulas are functions of
/// their inputs alone — equal attributes and readings always yield equal
/// results, across any two evaluations.
pub proof fn lemma_reward_determinism(
    type_a: StoneType,
    moss_a: int,
    reviews_a: int,
    state_a: StoneState,
    base_a: int,
    spore_a: int,
    env_a: Environment,
    type_b: StoneType,
    moss_b: int,
    reviews_b: int,
    state_b: StoneState,
    base_b: int,
    spore_b: int,
    env_b: Environment,
)
    requires
        type_a == type_b,
        moss_a == moss_b,
        reviews_a == reviews_b,
        state_a == state_b,
        base_a == base_b,
        spore_a == spore_b,
        env_a == env_b,
    ensures
        spec_harvest_reward(type_a, moss_a, reviews_a) == spec_harvest_reward(
            type_b,
            moss_b,
            reviews_b,
        ),
        spec_harvest_tokens(type_a, moss_a, reviews_a, state_a) == spec_harvest_tokens(
            type_b,
            moss_b,
            reviews_b,
            state_b,
        ),
        spec_growth_increment(
            base_a,
            spore_a,
            spec_environment_bonus(env_a),
            level_of(state_a),
        ) == spec_growth_increment(
            base_b,
            spore_b,
            spec_environment_bonus(env_b),
            level_of(state_b),
        ),
{
}

} // verus!
