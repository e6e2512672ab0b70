use custody_core::custody::TrustContract;
use custody_core::records::{CustodyError, STAKE_BONUS, TRUST_CAP};

const ALICE: u64 = 1;
const BOB: u64 = 2;

#[test]
fn first_stake_adds_the_bonus_from_zero() {
    let mut c = TrustContract::new();
    assert_eq!(c.get_trust(ALICE), 0);
    assert_eq!(c.stake(ALICE, ALICE), Ok(()));
    assert_eq!(c.get_trust(ALICE), STAKE_BONUS);
    assert_eq!(c.get_trust(ALICE), 10);
}

#[test]
fn second_stake_is_refused() {
    let mut c = TrustContract::new();
    assert_eq!(c.stake(ALICE, ALICE), Ok(()));
    assert_eq!(c.stake(ALICE, ALICE), Err(CustodyError::InvariantViolation));
    assert_eq!(c.get_trust(ALICE), 10);
}

#[test]
fn stake_requires_owner_authorization() {
    let mut c = TrustContract::new();
    assert_eq!(c.stake(BOB, ALICE), Err(CustodyError::Unauthorized));
    assert_eq!(c.get_trust(ALICE), 0);
}

#[test]
fn vouch_adds_one_point() {
    let mut c = TrustContract::new();
    assert_eq!(c.stake(ALICE, ALICE), Ok(()));
    assert_eq!(c.vouch(BOB, BOB, ALICE), Ok(()));
    assert_eq!(c.get_trust(ALICE), 11);
}

#[test]
fn vouch_for_unknown_target_is_not_found() {
    let mut c = TrustContract::new();
    assert_eq!(c.vouch(BOB, BOB, ALICE), Err(CustodyError::NotFound));
}

#[test]
fn vouch_requires_voucher_authorization() {
    let mut c = TrustContract::new();
    assert_eq!(c.stake(ALICE, ALICE), Ok(()));
    assert_eq!(c.vouch(ALICE, BOB, ALICE), Err(CustodyError::Unauthorized));
    assert_eq!(c.get_trust(ALICE), 10);
}

#[test]
fn vouching_stops_at_the_cap() {
    let mut c = TrustContract::new();
    assert_eq!(c.stake(ALICE, ALICE), Ok(()));
    for _ in 0..200 {
        assert_eq!(c.vouch(BOB, BOB, ALICE), Ok(()));
    }
    assert_eq!(c.get_trust(ALICE), TRUST_CAP);
    assert_eq!(c.get_trust(ALICE), 100);
}

#[test]
fn errors_carry_their_labels() {
    assert_eq!(CustodyError::NotFound.describe(), "record not found");
    assert_eq!(CustodyError::Unauthorized.describe(), "caller not authorized");
    assert_eq!(
        CustodyError::InvariantViolation.describe(),
        "protocol invariant violated"
    );
    assert_eq!(CustodyError::NotAMember.describe(), "not a witness");
}

#[test]
fn trust_and_custody_records_never_interfere() {
    let mut c = TrustContract::new();
    assert_eq!(c.create_vault(ALICE, 0, ALICE, BOB), Ok(()));
    assert_eq!(c.stake(ALICE, ALICE), Ok(()));
    assert_eq!(c.vouch(BOB, BOB, ALICE), Ok(()));
    let vault = c.get_vault(ALICE).unwrap();
    assert_eq!(vault.heir, BOB);
    assert_eq!(vault.last_heartbeat, 0);
    assert_eq!(c.get_trust(ALICE), 11);
}
