//! The custody protocols' guarantees, each proved once and for all over the
//! abstract transitions of [`crate::model`]. The executable methods of
//! [`crate::custody::TrustContract`] follow those transitions exactly, so
//! every law here holds of the running controller as well.

use vstd::prelude::*;

use crate::model::StateView;
use crate::records::{
    CustodyError, DataKey, MedicalEmergency, DEADMAN_LIMIT, MAX_WITNESSES, PANIC_RESIDUAL,
    PANIC_WARP, QUORUM, STAKE_BONUS,
};

verus! {

/// A heartbeat pinged after the vault was created moves `last_heartbeat`
/// strictly up, to the ping's own clock reading, and leaves the vault
/// unfrozen — for every account and every pair of clock readings the
/// monotone ledger clock can produce.
pub proof fn lemma_ping_after_create_raises_heartbeat(
    s: StateView,
    user: u64,
    heir: u64,
    t_create: u64,
    t_ping: u64,
)
    requires
        t_create < t_ping,
    ensures
        ({
            let (created, r_create) = s.create_vault(user, t_create, user, heir);
            let (pinged, r_ping) = created.ping_heartbeat(user, t_ping, user);
            &&& r_create == Ok::<(), CustodyError>(())
            &&& r_ping == Ok::<(), CustodyError>(())
            &&& pinged.vaults[user].last_heartbeat == t_ping
            &&& pinged.vaults[user].last_heartbeat > created.vaults[user].last_heartbeat
            &&& !pinged.vaults[user].is_frozen
        }),
{
}

/// For every heir-authorized claim on an existing vault, the deadman check is
/// exact: the claim reaches the release point exactly when at least
/// [`DEADMAN_LIMIT`] seconds have passed since the last heartbeat, and is
/// refused as premature exactly otherwise.
pub proof fn lemma_claim_iff_deadman_expired(s: StateView, caller: u64, now: u64, target: u64)
    requires
        s.vaults.contains_key(target),
        caller == s.vaults[target].heir,
    ensures
        s.claim_legacy(caller, now, target) == Ok::<(), CustodyError>(()) <==> now
            - s.vaults[target].last_heartbeat >= DEADMAN_LIMIT,
        s.claim_legacy(caller, now, target) == Err::<(), CustodyError>(
            CustodyError::InvariantViolation,
        ) <==> now - s.vaults[target].last_heartbeat < DEADMAN_LIMIT,
{
}

/// An owner-authorized circle assignment is judged by length alone: any list
/// of more than [`MAX_WITNESSES`] entries is refused and the store left
/// untouched, and any list of at most that many — whatever it holds — is
/// installed wholesale.
pub proof fn lemma_assign_witnesses_capacity(s: StateView, user: u64, witnesses: Seq<u64>)
    ensures
        witnesses.len() > MAX_WITNESSES ==> s.assign_witnesses(user, user, witnesses) == (
            s,
            Err::<(), CustodyError>(CustodyError::InvariantViolation),
        ),
        witnesses.len() <= MAX_WITNESSES ==> {
            let (assigned, r) = s.assign_witnesses(user, user, witnesses);
            &&& r == Ok::<(), CustodyError>(())
            &&& assigned.circles == s.circles.insert(user, witnesses)
        },
{
}

/// Three authorized votes from distinct members of a full five-witness
/// circle carry a fresh emergency to quorum: the unlock is still clear after
/// the first two votes, and latches on the third.
pub proof fn lemma_medical_quorum_unlocks(
    s: StateView,
    target: u64,
    w1: u64,
    w2: u64,
    w3: u64,
)
    requires
        s.circles.contains_key(target),
        s.circles[target].len() == MAX_WITNESSES,
        s.circles[target].contains(w1),
        s.circles[target].contains(w2),
        s.circles[target].contains(w3),
        w1 != w2 && w1 != w3 && w2 != w3,
        s.emergencies.contains_key(target),
        s.emergencies[target].votes_collected == 0,
        !s.emergencies[target].is_unlocked,
    ensures
        ({
            let (after1, r1) = s.witness_vote_medical(w1, w1, target);
            let (after2, r2) = after1.witness_vote_medical(w2, w2, target);
            let (after3, r3) = after2.witness_vote_medical(w3, w3, target);
            &&& r1 == Ok::<(), CustodyError>(())
            &&& r2 == Ok::<(), CustodyError>(())
            &&& r3 == Ok::<(), CustodyError>(())
            &&& !after1.emergencies[target].is_unlocked
            &&& !after2.emergencies[target].is_unlocked
            &&& after3.emergencies[target].votes_collected == QUORUM
            &&& after3.emergencies[target].is_unlocked
        }),
{
}

/// The unlock is a one-way latch: however many further votes arrive, from
/// whichever witness, an unlocked emergency never locks again.
pub proof fn lemma_medical_unlock_sticky(s: StateView, witness: u64, target: u64)
    requires
        s.emergencies.contains_key(target),
        s.emergencies[target].is_unlocked,
    ensures
        ({
            let (after, _) = s.witness_vote_medical(witness, witness, target);
            &&& after.emergencies.contains_key(target)
            &&& after.emergencies[target].is_unlocked
        }),
{
}

/// Three authorized panic votes from distinct members of a full circle, with
/// no votes on record beforehand, freeze the target's vault on the third call
/// and pin its heartbeat [`PANIC_WARP`] seconds behind that call's clock —
/// after which the heir's claim is refused for [`PANIC_RESIDUAL`] more
/// seconds and accepted from that point on.
pub proof fn lemma_panic_quorum_freezes(
    s: StateView,
    target: u64,
    w1: u64,
    w2: u64,
    w3: u64,
    t1: u64,
    t2: u64,
    t3: u64,
)
    requires
        s.circles.contains_key(target),
        s.circles[target].len() == MAX_WITNESSES,
        s.circles[target].contains(w1),
        s.circles[target].contains(w2),
        s.circles[target].contains(w3),
        w1 != w2 && w1 != w3 && w2 != w3,
        s.panic_count(target) == 0,
        s.vaults.contains_key(target),
        t1 <= t2 <= t3,
        t3 >= PANIC_WARP,
    ensures
        ({
            let (after1, r1) = s.panic_button(w1, t1, w1, target);
            let (after2, r2) = after1.panic_button(w2, t2, w2, target);
            let (after3, r3) = after2.panic_button(w3, t3, w3, target);
            let heir = s.vaults[target].heir;
            &&& r1 == Ok::<(), CustodyError>(())
            &&& r2 == Ok::<(), CustodyError>(())
            &&& r3 == Ok::<(), CustodyError>(())
            &&& !after2.vaults[target].is_frozen == !s.vaults[target].is_frozen
            &&& after3.vaults[target].is_frozen
            &&& after3.vaults[target].last_heartbeat == t3 - PANIC_WARP
            &&& after3.panic_count(target) == QUORUM
            &&& forall|t: u64|
                t < t3 + PANIC_RESIDUAL ==> after3.claim_legacy(heir, t, target) == Err::<
                    (),
                    CustodyError,
                >(CustodyError::InvariantViolation)
            &&& forall|t: u64|
                t >= t3 + PANIC_RESIDUAL ==> after3.claim_legacy(heir, t, target) == Ok::<
                    (),
                    CustodyError,
                >(())
        }),
{
}

/// A declared emergency bars another declaration for the same target: on a
/// target with an active record the call fails and changes nothing, and a
/// successful declaration itself raises that bar.
pub proof fn lemma_declare_emergency_exclusive(s: StateView, target: u64)
    ensures
        s.has_record(DataKey::Emergency(target)) ==> s.declare_emergency(target) == (
            s,
            Err::<(), CustodyError>(CustodyError::InvariantViolation),
        ),
        !s.has_record(DataKey::Emergency(target)) ==> {
            let (declared, r) = s.declare_emergency(target);
            &&& r == Ok::<(), CustodyError>(())
            &&& declared.emergencies[target] == (MedicalEmergency {
                target_user: target,
                votes_collected: 0,
                is_unlocked: false,
            })
            &&& declared.declare_emergency(target) == (
                declared,
                Err::<(), CustodyError>(CustodyError::InvariantViolation),
            )
        },
{
}

/// The vaults — and with them every deadman timer — have exactly three
/// writers: creation, the owner's heartbeat, and the panic quorum's warp. No
/// other operation, whoever calls it and however it ends, touches a vault;
/// and a panic vote short of the quorum leaves the vaults alone as well.
pub proof fn lemma_vault_writers(
    s: StateView,
    caller: u64,
    party: u64,
    target: u64,
    now: u64,
    witnesses: Seq<u64>,
)
    ensures
        s.assign_witnesses(caller, party, witnesses).0.vaults == s.vaults,
        s.declare_emergency(target).0.vaults == s.vaults,
        s.witness_vote_medical(caller, party, target).0.vaults == s.vaults,
        s.stake(caller, party).0.vaults == s.vaults,
        s.vouch(caller, party, target).0.vaults == s.vaults,
        s.panic_count(target) < u32::MAX && s.panic_count(target) + 1 != QUORUM ==> s.panic_button(
            caller,
            now,
            party,
            target,
        ).0.vaults == s.vaults,
{
}

/// The bond is staked once: a first authorized call adds [`STAKE_BONUS`]
/// trust to whatever baseline is on record — zero when nothing is — and a
/// second call for the now-bonded account fails without touching the store.
pub proof fn lemma_stake_once(s: StateView, user: u64)
    requires
        s.has_record(DataKey::Merchant(user)) ==> !s.merchants[user].bond_staked
            && s.merchants[user].trust_score + STAKE_BONUS <= u32::MAX,
    ensures
        ({
            let (staked, r) = s.stake(user, user);
            &&& r == Ok::<(), CustodyError>(())
            &&& staked.trust_of(user) == s.trust_of(user) + STAKE_BONUS
            &&& staked.merchants[user].bond_staked
            &&& staked.stake(user, user) == (
                staked,
                Err::<(), CustodyError>(CustodyError::InvariantViolation),
            )
        }),
{
}

} // verus!
