use custody_core::custody::TrustContract;
use custody_core::records::{CustodyError, DEADMAN_LIMIT};

const ALICE: u64 = 1;
const BOB: u64 = 2;
const CARA: u64 = 3;

#[test]
fn create_vault_stores_heir_and_heartbeat() {
    let mut c = TrustContract::new();
    assert_eq!(c.create_vault(ALICE, 1_000, ALICE, BOB), Ok(()));
    let vault = c.get_vault(ALICE).unwrap();
    assert_eq!(vault.heir, BOB);
    assert_eq!(vault.last_heartbeat, 1_000);
    assert!(vault.is_locked);
    assert!(!vault.is_frozen);
}

#[test]
fn create_vault_requires_owner_authorization() {
    let mut c = TrustContract::new();
    assert_eq!(
        c.create_vault(BOB, 1_000, ALICE, BOB),
        Err(CustodyError::Unauthorized)
    );
    assert!(c.get_vault(ALICE).is_none());
}

#[test]
fn create_vault_overwrites_unconditionally() {
    let mut c = TrustContract::new();
    assert_eq!(c.create_vault(ALICE, 1_000, ALICE, BOB), Ok(()));
    assert_eq!(c.create_vault(ALICE, 2_000, ALICE, CARA), Ok(()));
    let vault = c.get_vault(ALICE).unwrap();
    assert_eq!(vault.heir, CARA);
    assert_eq!(vault.last_heartbeat, 2_000);
}

#[test]
fn ping_strictly_raises_heartbeat_and_unfreezes() {
    let mut c = TrustContract::new();
    assert_eq!(c.create_vault(ALICE, 1_000, ALICE, BOB), Ok(()));
    assert_eq!(c.ping_heartbeat(ALICE, 5_000, ALICE), Ok(()));
    let vault = c.get_vault(ALICE).unwrap();
    assert_eq!(vault.last_heartbeat, 5_000);
    assert!(vault.last_heartbeat > 1_000);
    assert!(!vault.is_frozen);
}

#[test]
fn ping_without_vault_is_not_found() {
    let mut c = TrustContract::new();
    assert_eq!(
        c.ping_heartbeat(ALICE, 5_000, ALICE),
        Err(CustodyError::NotFound)
    );
}

#[test]
fn ping_requires_owner_authorization() {
    let mut c = TrustContract::new();
    assert_eq!(c.create_vault(ALICE, 1_000, ALICE, BOB), Ok(()));
    assert_eq!(
        c.ping_heartbeat(BOB, 5_000, ALICE),
        Err(CustodyError::Unauthorized)
    );
    assert_eq!(c.get_vault(ALICE).unwrap().last_heartbeat, 1_000);
}

#[test]
fn claim_exactly_around_the_deadman_limit() {
    // The vault is created at t = 0 naming an heir; the heir's claim fails one
    // second before the 180-day mark and succeeds one second past it.
    let mut c = TrustContract::new();
    assert_eq!(c.create_vault(ALICE, 0, ALICE, BOB), Ok(()));
    assert_eq!(
        c.claim_legacy(BOB, 15_551_999, ALICE),
        Err(CustodyError::InvariantViolation)
    );
    assert_eq!(c.claim_legacy(BOB, 15_552_001, ALICE), Ok(()));
    assert_eq!(c.claim_legacy(BOB, DEADMAN_LIMIT, ALICE), Ok(()));
}

#[test]
fn claim_is_for_the_heir_alone() {
    let mut c = TrustContract::new();
    assert_eq!(c.create_vault(ALICE, 0, ALICE, BOB), Ok(()));
    assert_eq!(
        c.claim_legacy(CARA, DEADMAN_LIMIT, ALICE),
        Err(CustodyError::Unauthorized)
    );
    assert_eq!(
        c.claim_legacy(ALICE, DEADMAN_LIMIT, ALICE),
        Err(CustodyError::Unauthorized)
    );
}

#[test]
fn claim_without_vault_is_not_found() {
    let c = TrustContract::new();
    assert_eq!(
        c.claim_legacy(BOB, DEADMAN_LIMIT, ALICE),
        Err(CustodyError::NotFound)
    );
}

#[test]
fn claim_leaves_the_vault_claimable_again() {
    let mut c = TrustContract::new();
    assert_eq!(c.create_vault(ALICE, 0, ALICE, BOB), Ok(()));
    assert_eq!(c.claim_legacy(BOB, DEADMAN_LIMIT, ALICE), Ok(()));
    // The release itself is the host's job: the record is not consumed.
    assert_eq!(c.claim_legacy(BOB, DEADMAN_LIMIT + 1, ALICE), Ok(()));
    assert_eq!(c.get_vault(ALICE).unwrap().last_heartbeat, 0);
}

#[test]
fn heartbeat_postpones_the_claim() {
    let mut c = TrustContract::new();
    assert_eq!(c.create_vault(ALICE, 0, ALICE, BOB), Ok(()));
    assert_eq!(c.ping_heartbeat(ALICE, 10_000, ALICE), Ok(()));
    assert_eq!(
        c.claim_legacy(BOB, DEADMAN_LIMIT, ALICE),
        Err(CustodyError::InvariantViolation)
    );
    assert_eq!(c.claim_legacy(BOB, DEADMAN_LIMIT + 10_000, ALICE), Ok(()));
}
