use geostone::errors::ErrorCode;
use geostone::geo::{verify_geo_proximity, within_territory, GeoData, Genome, GeoProof};

fn proof_at(timestamp: i64) -> GeoProof {
    GeoProof { timestamp, oracle: 42, payload: vec![1, 2, 3, 4] }
}

#[test]
fn proximity_within_range_passes() {
    let r = verify_geo_proximity(&proof_at(100), Some(999), 1000, 200, true);
    assert_eq!(r, Ok(()));
}

#[test]
fn proximity_boundary_distance_passes() {
    // A distance exactly at the maximum is inside the range.
    let r = verify_geo_proximity(&proof_at(100), Some(1000), 1000, 200, true);
    assert_eq!(r, Ok(()));
}

#[test]
fn proximity_outside_range_fails() {
    let r = verify_geo_proximity(&proof_at(100), Some(1001), 1000, 200, true);
    assert_eq!(r, Err(ErrorCode::OutsideActivationRange));
}

#[test]
fn proximity_undecodable_proof_fails_first() {
    // Decodability is checked before everything else.
    let r = verify_geo_proximity(&proof_at(100), None, 1000, 1000000, false);
    assert_eq!(r, Err(ErrorCode::InvalidProof));
}

#[test]
fn proximity_range_checked_before_freshness() {
    let r = verify_geo_proximity(&proof_at(0), Some(2000), 1000, 1000000, false);
    assert_eq!(r, Err(ErrorCode::OutsideActivationRange));
}

#[test]
fn proximity_stale_proof_fails() {
    // The proof expires exactly at the window of 3600 seconds.
    let r = verify_geo_proximity(&proof_at(100), Some(0), 1000, 3700, true);
    assert_eq!(r, Err(ErrorCode::ProofExpired));
}

#[test]
fn proximity_proof_fresh_just_inside_window() {
    let r = verify_geo_proximity(&proof_at(100), Some(0), 1000, 3699, true);
    assert_eq!(r, Ok(()));
}

#[test]
fn proximity_unauthorized_issuer_fails() {
    let r = verify_geo_proximity(&proof_at(100), Some(0), 1000, 200, false);
    assert_eq!(r, Err(ErrorCode::UnauthorizedIssuer));
}

fn territory(radius_meters: u64) -> Genome {
    Genome {
        id: 1,
        owner: 9,
        center: GeoData { latitude_microdeg: 48123456, longitude_microdeg: 11234567 },
        radius_meters,
    }
}

#[test]
fn within_territory_inside_and_boundary() {
    assert!(within_territory(0, &territory(500)));
    assert!(within_territory(499, &territory(500)));
    assert!(within_territory(500, &territory(500)));
}

#[test]
fn within_territory_outside() {
    assert!(!within_territory(501, &territory(500)));
}
