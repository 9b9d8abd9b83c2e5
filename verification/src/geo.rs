//! Proximity verification and territory containment.
//!
//! Geodesic distance itself is floating-point math and is computed by the
//! caller's distance collaborator; the core takes the measured distance in
//! whole meters as a plain value and makes every decision from it.

use vstd::prelude::*;
use crate::errors::ErrorCode;

verus! {

/// A position, in microdegrees of latitude and longitude. The core never
/// does geodesic math on it; it anchors stones and territories, and the
/// caller's distance collaborator reads it.
#[derive(Clone, Copy, Debug, PartialEq, Eq, Structural)]
pub struct GeoData {
    pub latitude_microdeg: i64,
    pub longitude_microdeg: i64,
}

/// A timestamped, issuer-signed claim of a physical position. The claimed
/// coordinates travel in the opaque `payload`; only the caller's decoding
/// collaborator can read them.
#[derive(Clone, Debug, PartialEq, Eq)]
pub struct GeoProof {
    /// When the proof was issued, in seconds.
    pub timestamp: i64,
    /// Identity of the issuing oracle.
    pub oracle: u64,
    /// Encoded claimed coordinates, opaque to the core.
    pub payload: Vec<u8>,
}

/// A circular territory: stones may only be registered within `radius_meters`
/// of `center`.
#[derive(Clone, Copy, Debug, PartialEq, Eq, Structural)]
pub struct Genome {
    pub id: u64,
    pub owner: u64,
    pub center: GeoData,
    pub radius_meters: u64,
}

/// A proof older than this many seconds is stale.
pub const FRESHNESS_WINDOW_SECONDS: i64 = 3600;

/// What proximity verification decides, given the measured distance between
/// the stone and the claimed position (`None` when the payload could not be
/// decoded), the allowed maximum, the proof's age, and whether the issuer is
/// authorized. Checks run in a fixed order: decodability, then range, then
/// freshness, then issuer authorization; the first failing check names the
/// error.
pub open spec fn spec_verify_geo_proximity(
    distance_meters: Option<u64>,
    max_distance_meters: u64,
    proof_timestamp: int,
    now: int,
    oracle_authorized: bool,
) -> Result<(), ErrorCode> {
    match distance_meters {
        None => Err(ErrorCode::InvalidProof),
        Some(d) => if d > max_distance_meters {
            Err(ErrorCode::OutsideActivationRange)
        } else if now - proof_timestamp >= FRESHNESS_WINDOW_SECONDS {
            Err(ErrorCode::ProofExpired)
        } else if !oracle_authorized {
            Err(ErrorCode::UnauthorizedIssuer)
        } else {
            Ok(())
        },
    }
}

/// Verify a proximity proof against a maximum allowed distance.
///
/// `distance_meters` is the measured distance between the stone and the
/// position claimed in `proof`, or `None` when the payload could not be
/// decoded; `oracle_authorized` is the authority collaborator's answer for
/// `proof.oracle`. The result is `Err(OutsideActivationRange)` exactly when
/// the claim decoded and its distance exceeds the maximum; a distance equal
/// to the maximum passes the range check.
pub fn verify_geo_proximity(
    proof: &GeoProof,
    distance_meters: Option<u64>,
    max_distance_meters: u64,
    now: i64,
    oracle_authorized: bool,
) -> (r: Result<(), ErrorCode>)
    ensures
        r == spec_verify_geo_proximity(
            distance_meters,
            max_distance_meters,
            proof.timestamp as int,
            now as int,
            oracle_authorized,
        ),
        r == Err::<(), ErrorCode>(ErrorCode::OutsideActivationRange) <==> (distance_meters
            matches Some(d) && d > max_distance_meters),
{
    match distance_meters {
        None => Err(ErrorCode::InvalidProof),
        Some(d) => {
            if d > max_distance_meters {
                Err(ErrorCode::OutsideActivationRange)
            } else if (now as i128) - (proof.timestamp as i128) >= FRESHNESS_WINDOW_SECONDS as i128 {
                Err(ErrorCode::ProofExpired)
            } else if !oracle_authorized {
                Err(ErrorCode::UnauthorizedIssuer)
            } else {
                Ok(())
            }
        },
    }
}

/// Territory containment: a location lies within a genome's territory when
/// its distance to the genome's center is at most the genome's radius. The
/// caller's distance collaborator measures `distance_to_center_meters`
/// between the candidate location and `genome.center`.
pub fn within_territory(distance_to_center_meters: u64, genome: &Genome) -> (r: bool)
    ensures
        r == (distance_to_center_meters <= genome.radius_meters),
{
    distance_to_center_meters <= genome.radius_meters
}

} // verus!
