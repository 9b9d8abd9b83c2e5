//! The stone state machine: the data model, tiered activation, and moss
//! growth with harvest rewards.
//!
//! Each operation is a short atomic transaction against one stone: on any
//! failure the stone is left exactly as it was, and on success the new state
//! and the domain event to publish are pinned by the contract. Fallible
//! collaborators (payment, minting) are consulted between planning and
//! committing: the caller asks the core what to charge or mint, performs the
//! external call, and hands the outcome back as a plain value.

use vstd::prelude::*;
use crate::errors::ErrorCode;
use crate::geo::GeoData;
use crate::geo::GeoProof;
use crate::geo::spec_verify_geo_proximity;
use crate::geo::verify_geo_proximity;
use crate::reward::MAX_BASE_COST;
use crate::reward::MAX_REVIEWS;
use crate::reward::MOSS_CAP;
use crate::reward::level_valid;
use crate::reward::spec_activation_cost;
use crate::reward::spec_initial_moss;
use crate::reward::activation_cost;
use crate::reward::initial_moss;
use crate::reward::Environment;
use crate::reward::spec_base_growth;
use crate::reward::spec_environment_bonus;
use crate::reward::spec_growth_increment;
use crate::reward::spec_grown_moss;
use crate::reward::spec_harvest_tokens;
use crate::reward::base_growth;
use crate::reward::environment_bonus;
use crate::reward::growth_increment;
use crate::reward::harvest_reward;

verus! {

/// Variant of a stone: a Genesis stone anchors a territory; an Astral stone
/// is derived from a Genesis stone within one.
#[derive(Clone, Copy, Debug, PartialEq, Eq, Structural)]
pub enum StoneType {
    Genesis,
    Astral,
}

/// Lifecycle state of a stone. Activation only ever advances
/// `Created -> ActivatedLevel1 -> ActivatedLevel2 -> ActivatedLevel3`;
/// `Locked` is an administrative out-of-band state.
#[derive(Clone, Copy, Debug, PartialEq, Eq, Structural)]
pub enum StoneState {
    Created,
    ActivatedLevel1,
    ActivatedLevel2,
    ActivatedLevel3,
    Locked,
}

/// A review record attached to a stone; the number of records feeds the
/// harvest reward.
#[derive(Clone, Copy, Debug, PartialEq, Eq, Structural)]
pub struct Review {
    pub reviewer: u64,
}

/// A location-anchored entity with an activation level and a growable,
/// bounded moss resource.
#[derive(Clone, Debug, PartialEq, Eq)]
pub struct Stone {
    /// Unique identifier, assigned at creation, never changed by the core.
    pub id: u64,
    /// Identity of the stone's owner.
    pub owner: u64,
    /// Variant, fixed at creation.
    pub stone_type: StoneType,
    /// Position, fixed at creation.
    pub location: GeoData,
    /// Territory the stone was registered under, fixed at creation.
    pub genome_id: u64,
    /// Lifecycle state.
    pub state: StoneState,
    /// Bounded growth resource, always in `[0, MOSS_CAP]`.
    pub moss_level: u64,
    /// Base cost used as the multiplier base for tiered activation pricing.
    pub activation_cost: u64,
    /// Ordered review records; their count feeds the reward formula.
    pub reviews: Vec<Review>,
    /// Time of the last successful harvest, in seconds.
    pub last_harvest_time: i64,
}

impl Stone {
    /// Well-formedness: the moss level is within its bounds, and the base
    /// cost and review count are small enough that every reward formula
    /// stays within `u64`.
    pub open spec fn wf(self) -> bool {
        &&& self.moss_level <= MOSS_CAP
        &&& self.activation_cost <= MAX_BASE_COST
        &&& self.reviews@.len() <= MAX_REVIEWS
    }
}

/// Numeric activation level of a lifecycle state: 0 before activation,
/// 1 to 3 for the activated tiers. `Locked` carries no level.
pub open spec fn level_of(state: StoneState) -> int {
    match state {
        StoneState::Created => 0,
        StoneState::ActivatedLevel1 => 1,
        StoneState::ActivatedLevel2 => 2,
        StoneState::ActivatedLevel3 => 3,
        StoneState::Locked => 0,
    }
}

/// The lifecycle state a successful activation at `level` sets.
pub open spec fn spec_level_state(level: u8) -> StoneState {
    if level == 1 {
        StoneState::ActivatedLevel1
    } else if level == 2 {
        StoneState::ActivatedLevel2
    } else {
        StoneState::ActivatedLevel3
    }
}

/// Whether the current state permits activation at `level`: allowed exactly
/// when the stone is `Created`, or activated at a tier strictly below
/// `level`. `ActivatedLevel3` and `Locked` permit nothing.
pub open spec fn activation_permitted(state: StoneState, level: u8) -> bool {
    ||| state is Created
    ||| state is ActivatedLevel1 && level > 1
    ||| state is ActivatedLevel2 && level > 2
}

/// Maximum allowed distance for each activation level, in meters: the
/// closer the claimed position must be, the higher the tier.
pub open spec fn spec_level_threshold(level: u8) -> u64 {
    if level == 1 {
        5000
    } else if level == 2 {
        1000
    } else {
        300
    }
}

/// Distance threshold of an activation level.
pub fn level_threshold(level: u8) -> (r: u64)
    requires
        level_valid(level),
    ensures
        r == spec_level_threshold(level),
{
    if level == 1 {
        5000
    } else if level == 2 {
        1000
    } else {
        300
    }
}

/// An activation request: the requested tier, who is activating, the
/// verification time, the proximity proof, and the collaborator answers the
/// caller already gathered — the measured distance to the claimed position
/// (`None` when the payload did not decode) and whether the proof's issuer
/// is authorized.
#[derive(Clone, Debug, PartialEq, Eq)]
pub struct ActivateStone {
    /// Requested activation level, valid values 1 to 3.
    pub activation_level: u8,
    /// Identity of the activator, charged the activation cost.
    pub activator: u64,
    /// Verification time, in seconds.
    pub now: i64,
    /// The proximity proof presented.
    pub proof: GeoProof,
    /// Distance in meters between the stone and the position claimed in the
    /// proof, measured by the caller's distance collaborator; `None` when
    /// the proof payload could not be decoded.
    pub distance_meters: Option<u64>,
    /// The authority collaborator's answer for `proof.oracle`.
    pub oracle_authorized: bool,
    /// Review record to append on success, if the activator supplies one.
    pub review: Option<Review>,
}

/// Event recording a successful activation.
#[derive(Clone, Copy, Debug, PartialEq, Eq, Structural)]
pub struct StoneActivatedEvent {
    pub stone_id: u64,
    pub activator: u64,
    pub timestamp: i64,
    pub activation_level: u8,
}

/// What validation of an activation request decides, before any payment:
/// the level must be valid, the current state must permit it, and the
/// proximity proof must pass at the level's threshold.
pub open spec fn spec_activation_validation(stone: Stone, req: ActivateStone) -> Result<
    (),
    ErrorCode,
> {
    if !level_valid(req.activation_level) {
        Err(ErrorCode::InvalidActivationLevel)
    } else if !activation_permitted(stone.state, req.activation_level) {
        Err(ErrorCode::CannotDowngradeActivation)
    } else {
        spec_verify_geo_proximity(
            req.distance_meters,
            spec_level_threshold(req.activation_level),
            req.proof.timestamp as int,
            req.now as int,
            req.oracle_authorized,
        )
    }
}

/// The cost a valid activation request charges.
pub open spec fn spec_activation_cost_of(stone: Stone, req: ActivateStone) -> int {
    spec_activation_cost(stone.activation_cost, req.activation_level)
}

/// Whether an activation goes through: validation passes, and the payment
/// collaborator accepted the charge (or no charge was owed).
pub open spec fn spec_activation_proceeds(
    stone: Stone,
    req: ActivateStone,
    payment_ok: bool,
) -> bool {
    &&& spec_activation_validation(stone, req) is Ok
    &&& (spec_activation_cost_of(stone, req) == 0 || payment_ok)
}

/// Validate an activation request and return the cost to charge, without
/// touching the stone. The caller charges this amount through the payment
/// collaborator and then commits with `activate_stone`.
pub fn plan_activation(stone: &Stone, req: &ActivateStone) -> (r: Result<u64, ErrorCode>)
    requires
        stone.wf(),
    ensures
        spec_activation_validation(*stone, *req) matches Err(e) ==> r == Err::<
            u64,
            ErrorCode,
        >(e),
        spec_activation_validation(*stone, *req) is Ok ==> (r matches Ok(c) && c
            == spec_activation_cost_of(*stone, *req)),
{
    let level: u8 = req.activation_level;
    if !(1 <= level && level <= 3) {
        return Err(ErrorCode::InvalidActivationLevel);
    }
    let permitted: bool = match stone.state {
        StoneState::Created => true,
        StoneState::ActivatedLevel1 => level > 1,
        StoneState::ActivatedLevel2 => level > 2,
        StoneState::ActivatedLevel3 => false,
        StoneState::Locked => false,
    };
    if !permitted {
        return Err(ErrorCode::CannotDowngradeActivation);
    }
    let threshold: u64 = level_threshold(level);
    match verify_geo_proximity(
        &req.proof,
        req.distance_meters,
        threshold,
        req.now,
        req.oracle_authorized,
    ) {
        Err(e) => Err(e),
        Ok(()) => Ok(activation_cost(stone.activation_cost, level)),
    }
}

/// Commit an activation. `payment_ok` is the payment collaborator's answer
/// for the cost `plan_activation` returned; when the cost is zero no charge
/// is owed and the answer is ignored.
///
/// The contract carries the core invariants: activation is monotonic (on
/// success the level strictly advances, and a valid level at or below the
/// current one always fails with `CannotDowngradeActivation`), and the
/// operation is atomic (on any failure the stone is unchanged and no event
/// is produced).
pub fn activate_stone(stone: &mut Stone, req: &ActivateStone, payment_ok: bool) -> (r: Result<
    StoneActivatedEvent,
    ErrorCode,
>)
    requires
        old(stone).wf(),
        req.review is Some ==> old(stone).reviews@.len() < MAX_REVIEWS,
    ensures
        final(stone).wf(),
        r is Err ==> *final(stone) == *old(stone),
        spec_activation_validation(*old(stone), *req) matches Err(e) ==> r == Err::<
            StoneActivatedEvent,
            ErrorCode,
        >(e),
        spec_activation_validation(*old(stone), *req) is Ok && !spec_activation_proceeds(
            *old(stone),
            *req,
            payment_ok,
        ) ==> r == Err::<StoneActivatedEvent, ErrorCode>(ErrorCode::PaymentFailed),
        spec_activation_proceeds(*old(stone), *req, payment_ok) ==> (r matches Ok(ev)
            && ev.stone_id == old(stone).id
            && ev.activator == req.activator
            && ev.timestamp == req.now
            && ev.activation_level == req.activation_level),
        spec_activation_proceeds(*old(stone), *req, payment_ok) ==> {
            &&& final(stone).state == spec_level_state(req.activation_level)
            &&& final(stone).moss_level == spec_initial_moss(
                old(stone).stone_type,
                req.activation_level,
            )
            &&& final(stone).reviews@ == (match req.review {
                Some(rv) => old(stone).reviews@.push(rv),
                None => old(stone).reviews@,
            })
            &&& final(stone).id == old(stone).id
            &&& final(stone).owner == old(stone).owner
            &&& final(stone).stone_type == old(stone).stone_type
            &&& final(stone).location == old(stone).location
            &&& final(stone).genome_id == old(stone).genome_id
            &&& final(stone).activation_cost == old(stone).activation_cost
            &&& final(stone).last_harvest_time == old(stone).last_harvest_time
        },
        r is Ok ==> level_of(final(stone).state) > level_of(old(stone).state),
        level_valid(req.activation_level) && req.activation_level as int <= level_of(
            old(stone).state,
        ) ==> r == Err::<StoneActivatedEvent, ErrorCode>(ErrorCode::CannotDowngradeActivation),
{
    let cost: u64 = match plan_activation(stone, req) {
        Err(e) => {
            return Err(e);
        },
        Ok(c) => c,
    };
    if cost > 0 && !payment_ok {
        return Err(ErrorCode::PaymentFailed);
    }
    let level: u8 = req.activation_level;
    stone.state = if level == 1 {
        StoneState::ActivatedLevel1
    } else if level == 2 {
        StoneState::ActivatedLevel2
    } else {
        StoneState::ActivatedLevel3
    };
    stone.moss_level = initial_moss(stone.stone_type, level);
    match req.review {
        Some(rv) => stone.reviews.push(rv),
        None => (),
    }
    Ok(
        StoneActivatedEvent {
            stone_id: stone.id,
            activator: req.activator,
            timestamp: req.now,
            activation_level: level,
        },
    )
}

/// Whether a stone is activated at any tier.
pub open spec fn state_activated(state: StoneState) -> bool {
    ||| state is ActivatedLevel1
    ||| state is ActivatedLevel2
    ||| state is ActivatedLevel3
}

/// Event recording a successful growth-and-harvest operation.
#[derive(Clone, Copy, Debug, PartialEq, Eq, Structural)]
pub struct MossGrownEvent {
    pub stone_id: u64,
    pub owner: u64,
    pub new_moss_level: u64,
    pub tokens_minted: u64,
    pub timestamp: i64,
}

/// The moss level a harvest at `now` under `env` raises the stone to: the
/// saturating sum of the old level and the full growth increment.
pub open spec fn spec_new_moss(stone: Stone, now: int, spore_bonus: int, env: Environment) -> int {
    spec_grown_moss(
        stone.moss_level as int,
        spec_growth_increment(
            spec_base_growth(now - stone.last_harvest_time),
            spore_bonus,
            spec_environment_bonus(env),
            level_of(stone.state),
        ),
    )
}

/// The tokens a harvest at `now` under `env` mints: the reward of the
/// freshly grown stone, scaled by its state's multiplier.
pub open spec fn spec_harvest_tokens_of(
    stone: Stone,
    now: int,
    spore_bonus: int,
    env: Environment,
) -> int {
    spec_harvest_tokens(
        stone.stone_type,
        spec_new_moss(stone, now, spore_bonus, env),
        stone.reviews@.len() as int,
        stone.state,
    )
}

/// Compute the outcome of a harvest without touching the stone: the new
/// moss level and the tokens to mint.
fn harvest_outcome(stone: &Stone, now: i64, spore_bonus: u64, env: &Environment) -> (r: (u64, u64))
    requires
        stone.wf(),
        state_activated(stone.state),
    ensures
        r.0 == spec_new_moss(*stone, now as int, spore_bonus as int, *env),
        r.1 == spec_harvest_tokens_of(*stone, now as int, spore_bonus as int, *env),
        stone.moss_level <= r.0 <= MOSS_CAP,
{
    let level_bonus: u64 = match stone.state {
        StoneState::ActivatedLevel1 => 1,
        StoneState::ActivatedLevel2 => 2,
        StoneState::ActivatedLevel3 => 3,
        _ => 0,
    };
    let growth_base: u64 = base_growth(stone.last_harvest_time, now);
    let env_bonus: u64 = environment_bonus(env);
    // Anything at or above the cap saturates the moss level, so clamping the
    // spore bonus here does not change the saturated sum.
    let spore: u64 = if spore_bonus > 100 {
        100
    } else {
        spore_bonus
    };
    let increment: u64 = growth_increment(growth_base, spore, env_bonus, level_bonus);
    let candidate: u64 = stone.moss_level + increment;
    let new_moss: u64 = if candidate > MOSS_CAP {
        MOSS_CAP
    } else {
        candidate
    };
    let reward_base: u64 = harvest_reward(stone.stone_type, new_moss, stone.reviews.len());
    let multiplier: u64 = match stone.state {
        StoneState::ActivatedLevel1 => 100,
        StoneState::ActivatedLevel2 => 125,
        StoneState::ActivatedLevel3 => 150,
        _ => 100,
    };
    assert(reward_base * multiplier <= (25 + MAX_REVIEWS) * 150) by (nonlinear_arith)
        requires
            reward_base <= 25 + MAX_REVIEWS,
            multiplier <= 150,
    ;
    let tokens: u64 = (reward_base * multiplier) / 100;
    (new_moss, tokens)
}

/// Validate a harvest request and return the tokens to mint, without
/// touching the stone. The caller mints this amount through the minting
/// collaborator and then commits with `grow_moss`.
pub fn plan_harvest(stone: &Stone, now: i64, spore_bonus: u64, env: &Environment) -> (r: Result<
    u64,
    ErrorCode,
>)
    requires
        stone.wf(),
    ensures
        !state_activated(stone.state) ==> r == Err::<u64, ErrorCode>(ErrorCode::InvalidState),
        state_activated(stone.state) ==> (r matches Ok(t) && t == spec_harvest_tokens_of(
            *stone,
            now as int,
            spore_bonus as int,
            *env,
        )),
{
    match stone.state {
        StoneState::ActivatedLevel1 => (),
        StoneState::ActivatedLevel2 => (),
        StoneState::ActivatedLevel3 => (),
        _ => {
            return Err(ErrorCode::InvalidState);
        },
    }
    let outcome: (u64, u64) = harvest_outcome(stone, now, spore_bonus, env);
    Ok(outcome.1)
}

/// Commit a growth-and-harvest operation. `mint_ok` is the minting
/// collaborator's answer for the amount `plan_harvest` returned.
///
/// The contract carries the core invariants: the moss level saturates at
/// `MOSS_CAP` and never decreases here, and the operation is atomic — if
/// the stone is not activated or the mint failed, the stone is unchanged
/// and no event is produced.
pub fn grow_moss(
    stone: &mut Stone,
    now: i64,
    spore_bonus: u64,
    env: &Environment,
    mint_ok: bool,
) -> (r: Result<MossGrownEvent, ErrorCode>)
    requires
        old(stone).wf(),
    ensures
        final(stone).wf(),
        r is Err ==> *final(stone) == *old(stone),
        !state_activated(old(stone).state) ==> r == Err::<
            MossGrownEvent,
            ErrorCode,
        >(ErrorCode::InvalidState),
        state_activated(old(stone).state) && !mint_ok ==> r == Err::<
            MossGrownEvent,
            ErrorCode,
        >(ErrorCode::MintFailed),
        state_activated(old(stone).state) && mint_ok ==> {
            &&& r matches Ok(ev) && ev.stone_id == old(stone).id && ev.owner == old(stone).owner
                && ev.new_moss_level == spec_new_moss(
                *old(stone),
                now as int,
                spore_bonus as int,
                *env,
            ) && ev.tokens_minted == spec_harvest_tokens_of(
                *old(stone),
                now as int,
                spore_bonus as int,
                *env,
            ) && ev.timestamp == now
            &&& final(stone).moss_level == spec_new_moss(
                *old(stone),
                now as int,
                spore_bonus as int,
                *env,
            )
            &&& final(stone).last_harvest_time == now
            &&& final(stone).id == old(stone).id
            &&& final(stone).owner == old(stone).owner
            &&& final(stone).stone_type == old(stone).stone_type
            &&& final(stone).location == old(stone).location
            &&& final(stone).genome_id == old(stone).genome_id
            &&& final(stone).state == old(stone).state
            &&& final(stone).activation_cost == old(stone).activation_cost
            &&& final(stone).reviews@ == old(stone).reviews@
        },
        r is Ok ==> old(stone).moss_level <= final(stone).moss_level <= MOSS_CAP,
{
    match stone.state {
        StoneState::ActivatedLevel1 => (),
        StoneState::ActivatedLevel2 => (),
        StoneState::ActivatedLevel3 => (),
        _ => {
            return Err(ErrorCode::InvalidState);
        },
    }
    if !mint_ok {
        return Err(ErrorCode::MintFailed);
    }
    let outcome: (u64, u64) = harvest_outcome(stone, now, spore_bonus, env);
    stone.moss_level = outcome.0;
    stone.last_harvest_time = now;
    Ok(
        MossGrownEvent {
            stone_id: stone.id,
            owner: stone.owner,
            new_moss_level: outcome.0,
            tokens_minted: outcome.1,
            timestamp: now,
        },
    )
}

} // verus!
