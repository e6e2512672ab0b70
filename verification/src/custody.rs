//! The executable controller: one hash-table store per record kind, and one
//! method per public operation, each proved to act exactly as its abstract
//! transition in [`crate::model`] says.

use vstd::prelude::*;

use std::collections::HashMap;

use crate::model::StateView;
use crate::records::{
    CustodyError, LegacyVault, Merchant, MedicalEmergency, DEADMAN_LIMIT, MAX_WITNESSES,
    PANIC_WARP, QUORUM, STAKE_BONUS, TRUST_CAP,
};

verus! {

/// Whether a witness appears in a circle's member list.
fn circle_contains(circle: &Vec<u64>, witness: u64) -> (present: bool)
    ensures
        present == circle@.contains(witness),
{
    let mut i: usize = 0;
    while i < circle.len()
        invariant
            0 <= i <= circle@.len(),
            forall|j: int| 0 <= j < i ==> circle@[j] != witness,
        decreases circle@.len() - i,
    {
        if circle[i] == witness {
            return true;
        }
        i += 1;
    }
    false
}

/// The custody controller. It owns the durable record store; the host hands
/// each operation the resolved caller identity and, where the operation reads
/// the clock, the current ledger time in seconds.
pub struct TrustContract {
    /// Deadman-switch vaults, keyed by owner account.
    pub vaults: HashMap<u64, LegacyVault>,
    /// Security circles, keyed by the protected account.
    pub circles: HashMap<u64, Vec<u64>>,
    /// Medical-emergency records, keyed by target account.
    pub emergencies: HashMap<u64, MedicalEmergency>,
    /// Panic-vote counters, keyed by target account; absent keys read as zero.
    pub panic_votes: HashMap<u64, u32>,
    /// Merchant reputation records, keyed by account.
    pub merchants: HashMap<u64, Merchant>,
}

impl View for TrustContract {
    type V = StateView;

    open spec fn view(&self) -> StateView {
        StateView {
            vaults: self.vaults@,
            circles: Map::new(
                |account: u64| self.circles@.contains_key(account),
                |account: u64| self.circles@[account]@,
            ),
            emergencies: self.emergencies@,
            panic_votes: self.panic_votes@,
            merchants: Map::new(
                |account: u64| self.merchants@.contains_key(account),
                |account: u64| self.merchants@[account]@,
            ),
        }
    }
}

impl TrustContract {
    /// An empty store: no record of any kind yet.
    pub fn new() -> (contract: TrustContract)
        ensures
            contract@ == StateView::empty(),
    {
        let contract = TrustContract {
            vaults: HashMap::new(),
            circles: HashMap::new(),
            emergencies: HashMap::new(),
            panic_votes: HashMap::new(),
            merchants: HashMap::new(),
        };
        proof {
            assert(contract@ =~= StateView::empty());
        }
        contract
    }

    /// Opens (or wholesale overwrites) the caller's vault, naming `heir` and
    /// starting the deadman timer at `now`.
    pub fn create_vault(&mut self, caller: u64, now: u64, user: u64, heir: u64) -> (r: Result<
        (),
        CustodyError,
    >)
        ensures
            final(self)@ == old(self)@.create_vault(caller, now, user, heir).0,
            r == old(self)@.create_vault(caller, now, user, heir).1,
    {
        if caller != user {
            return Err(CustodyError::Unauthorized);
        }
        let vault = LegacyVault { heir, last_heartbeat: now, is_locked: true, is_frozen: false };
        self.vaults.insert(user, vault);
        proof {
            assert(self@ =~= old(self)@.create_vault(caller, now, user, heir).0);
        }
        Ok(())
    }

    /// The owner's sign of life: restarts the deadman timer at `now` and
    /// lifts any panic freeze.
    pub fn ping_heartbeat(&mut self, caller: u64, now: u64, user: u64) -> (r: Result<
        (),
        CustodyError,
    >)
        ensures
            final(self)@ == old(self)@.ping_heartbeat(caller, now, user).0,
            r == old(self)@.ping_heartbeat(caller, now, user).1,
    {
        if caller != user {
            return Err(CustodyError::Unauthorized);
        }
        let vault: LegacyVault = match self.vaults.get(&user) {
            Some(vault) => *vault,
            None => {
                return Err(CustodyError::NotFound);
            },
        };
        let updated = LegacyVault { last_heartbeat: now, is_frozen: false, ..vault };
        self.vaults.insert(user, updated);
        proof {
            assert(self@ =~= old(self)@.ping_heartbeat(caller, now, user).0);
        }
        Ok(())
    }

    /// The heir's claim on `target`'s vault. The host's clock is monotone, so
    /// a stored heartbeat never lies ahead of the current reading; the caller
    /// owes that bound here, since the elapsed time is what is judged.
    pub fn claim_legacy(&self, caller: u64, now: u64, target_user: u64) -> (r: Result<
        (),
        CustodyError,
    >)
        requires
            self@.vaults.contains_key(target_user) && caller == self@.vaults[target_user].heir
                ==> now >= self@.vaults[target_user].last_heartbeat,
        ensures
            r == self@.claim_legacy(caller, now, target_user),
    {
        let vault: LegacyVault = match self.vaults.get(&target_user) {
            Some(vault) => *vault,
            None => {
                return Err(CustodyError::NotFound);
            },
        };
        if caller != vault.heir {
            return Err(CustodyError::Unauthorized);
        }
        let elapsed = now - vault.last_heartbeat;
        if elapsed < DEADMAN_LIMIT {
            return Err(CustodyError::InvariantViolation);
        }
        Ok(())
    }

    /// Replaces the caller's security circle wholesale, provided the list
    /// holds at most [`MAX_WITNESSES`] entries.
    pub fn assign_witnesses(&mut self, caller: u64, user: u64, witnesses: Vec<u64>) -> (r: Result<
        (),
        CustodyError,
    >)
        ensures
            final(self)@ == old(self)@.assign_witnesses(caller, user, witnesses@).0,
            r == old(self)@.assign_witnesses(caller, user, witnesses@).1,
    {
        if caller != user {
            return Err(CustodyError::Unauthorized);
        }
        if witnesses.len() > MAX_WITNESSES {
            return Err(CustodyError::InvariantViolation);
        }
        let ghost witness_list = witnesses@;
        self.circles.insert(user, witnesses);
        proof {
            assert(self@ =~= old(self)@.assign_witnesses(caller, user, witness_list).0);
        }
        Ok(())
    }

    /// Opens a medical emergency for `target_user` — any caller may — unless
    /// one is already on record.
    pub fn declare_emergency(&mut self, target_user: u64) -> (r: Result<(), CustodyError>)
        ensures
            final(self)@ == old(self)@.declare_emergency(target_user).0,
            r == old(self)@.declare_emergency(target_user).1,
    {
        if self.emergencies.contains_key(&target_user) {
            return Err(CustodyError::InvariantViolation);
        }
        let emergency = MedicalEmergency {
            target_user,
            votes_collected: 0,
            is_unlocked: false,
        };
        self.emergencies.insert(target_user, emergency);
        proof {
            assert(self@ =~= old(self)@.declare_emergency(target_user).0);
        }
        Ok(())
    }

    /// The shared quorum-check primitive of both voting protocols: accepts a
    /// claimed witness for a target exactly when the target has a circle and
    /// the witness appears in it.
    pub fn check_witness(&self, witness: u64, target_user: u64) -> (r: Result<(), CustodyError>)
        ensures
            r == self@.witness_check(witness, target_user),
    {
        match self.circles.get(&target_user) {
            None => Err(CustodyError::NotFound),
            Some(circle) => {
                if circle_contains(circle, witness) {
                    Ok(())
                } else {
                    Err(CustodyError::NotAMember)
                }
            },
        }
    }

    /// A witness's vote on `target_user`'s open emergency. The counter is a
    /// machine word, so the caller may not let it wrap: the one input the
    /// contract excludes is a vote that would push it past `u32::MAX`.
    pub fn witness_vote_medical(&mut self, caller: u64, witness: u64, target_user: u64) -> (r:
        Result<(), CustodyError>)
        requires
            caller == witness && old(self)@.witness_check(witness, target_user) == Ok::<
                (),
                CustodyError,
            >(()) && old(self)@.emergencies.contains_key(target_user) ==> old(
                self,
            )@.emergencies[target_user].votes_collected < u32::MAX,
        ensures
            final(self)@ == old(self)@.witness_vote_medical(caller, witness, target_user).0,
            r == old(self)@.witness_vote_medical(caller, witness, target_user).1,
    {
        if caller != witness {
            return Err(CustodyError::Unauthorized);
        }
        match self.check_witness(witness, target_user) {
            Err(e) => {
                return Err(e);
            },
            Ok(_) => {},
        }
        let before: MedicalEmergency = match self.emergencies.get(&target_user) {
            Some(emergency) => *emergency,
            None => {
                return Err(CustodyError::NotFound);
            },
        };
        let votes = before.votes_collected + 1;
        let emergency = MedicalEmergency {
            target_user: before.target_user,
            votes_collected: votes,
            is_unlocked: votes >= QUORUM || before.is_unlocked,
        };
        self.emergencies.insert(target_user, emergency);
        proof {
            assert(self@ =~= old(self)@.witness_vote_medical(caller, witness, target_user).0);
        }
        Ok(())
    }

    /// A witness's vote to freeze `target_user`. On the vote that first
    /// reaches the quorum the vault is frozen and its heartbeat pinned
    /// [`crate::records::PANIC_WARP`] seconds back, so the clock must have at
    /// least that reading by then; and as with the medical votes, the counter
    /// may not wrap.
    pub fn panic_button(&mut self, caller: u64, now: u64, witness: u64, target_user: u64) -> (r:
        Result<(), CustodyError>)
        requires
            caller == witness && old(self)@.witness_check(witness, target_user) == Ok::<
                (),
                CustodyError,
            >(()) ==> {
                &&& old(self)@.panic_count(target_user) < u32::MAX
                &&& old(self)@.panic_count(target_user) + 1 == QUORUM && old(
                    self,
                )@.vaults.contains_key(target_user) ==> now >= PANIC_WARP
            },
        ensures
            final(self)@ == old(self)@.panic_button(caller, now, witness, target_user).0,
            r == old(self)@.panic_button(caller, now, witness, target_user).1,
    {
        if caller != witness {
            return Err(CustodyError::Unauthorized);
        }
        match self.check_witness(witness, target_user) {
            Err(e) => {
                return Err(e);
            },
            Ok(_) => {},
        }
        let prior: u32 = match self.panic_votes.get(&target_user) {
            Some(count) => *count,
            None => 0,
        };
        let votes = prior + 1;
        if votes == QUORUM {
            let vault: LegacyVault = match self.vaults.get(&target_user) {
                Some(vault) => *vault,
                None => {
                    return Err(CustodyError::NotFound);
                },
            };
            let frozen = LegacyVault {
                last_heartbeat: now - PANIC_WARP,
                is_frozen: true,
                ..vault
            };
            self.panic_votes.insert(target_user, votes);
            self.vaults.insert(target_user, frozen);
        } else {
            self.panic_votes.insert(target_user, votes);
        }
        proof {
            assert(self@ =~= old(self)@.panic_button(caller, now, witness, target_user).0);
        }
        Ok(())
    }

    /// The caller stakes its one-time merchant bond: [`crate::records::STAKE_BONUS`]
    /// trust on top of whatever was on record, refused once bonded. A stored
    /// yet unbonded record is foreign to the operations in scope, so for that
    /// corner alone the caller owes room for the bonus.
    pub fn stake(&mut self, caller: u64, user: u64) -> (r: Result<(), CustodyError>)
        requires
            caller == user && old(self)@.merchants.contains_key(user) && !old(
                self,
            )@.merchants[user].bond_staked ==> old(self)@.merchants[user].trust_score <= u32::MAX
                - STAKE_BONUS,
        ensures
            final(self)@ == old(self)@.stake(caller, user).0,
            r == old(self)@.stake(caller, user).1,
    {
        if caller != user {
            return Err(CustodyError::Unauthorized);
        }
        let bonded = match self.merchants.get(&user) {
            Some(merchant) => merchant.bond_staked,
            None => false,
        };
        if bonded {
            return Err(CustodyError::InvariantViolation);
        }
        let before: Merchant = match self.merchants.remove(&user) {
            Some(merchant) => merchant,
            None => Merchant::default(),
        };
        let merchant = Merchant {
            trust_score: before.trust_score + STAKE_BONUS,
            bond_staked: true,
            ..before
        };
        self.merchants.insert(user, merchant);
        proof {
            assert(self@ =~= old(self)@.stake(caller, user).0);
        }
        Ok(())
    }

    /// The caller vouches for merchant `target`: one point of trust, counted
    /// only while the score is below [`crate::records::TRUST_CAP`].
    pub fn vouch(&mut self, caller: u64, voucher: u64, target: u64) -> (r: Result<(), CustodyError>)
        ensures
            final(self)@ == old(self)@.vouch(caller, voucher, target).0,
            r == old(self)@.vouch(caller, voucher, target).1,
    {
        if caller != voucher {
            return Err(CustodyError::Unauthorized);
        }
        let before: Merchant = match self.merchants.remove(&target) {
            Some(merchant) => merchant,
            None => {
                return Err(CustodyError::NotFound);
            },
        };
        let merchant = if before.trust_score < TRUST_CAP {
            Merchant { trust_score: before.trust_score + 1, ..before }
        } else {
            before
        };
        self.merchants.insert(target, merchant);
        proof {
            assert(self@ =~= old(self)@.vouch(caller, voucher, target).0);
        }
        Ok(())
    }

    /// The trust score on record for `user`; an account with no merchant
    /// record reads as zero.
    pub fn get_trust(&self, user: u64) -> (score: u32)
        ensures
            score == self@.trust_of(user),
    {
        match self.merchants.get(&user) {
            Some(merchant) => merchant.trust_score,
            None => 0,
        }
    }

    /// The vault on record for `user`, if any.
    pub fn get_vault(&self, user: u64) -> (r: Option<LegacyVault>)
        ensures
            r == if self@.vaults.contains_key(user) {
                Some(self@.vaults[user])
            } else {
                None::<LegacyVault>
            },
    {
        match self.vaults.get(&user) {
            Some(vault) => Some(*vault),
            None => None,
        }
    }

    /// A copy of the security circle on record for `user`, if any.
    pub fn get_witnesses(&self, user: u64) -> (r: Option<Vec<u64>>)
        ensures
            match r {
                Some(circle) => self@.circles.contains_key(user) && circle@
                    == self@.circles[user],
                None => !self@.circles.contains_key(user),
            },
    {
        match self.circles.get(&user) {
            Some(circle) => {
                let mut copy: Vec<u64> = Vec::new();
                let mut i: usize = 0;
                while i < circle.len()
                    invariant
                        0 <= i <= circle@.len(),
                        copy@ == circle@.subrange(0, i as int),
                    decreases circle@.len() - i,
                {
                    copy.push(circle[i]);
                    i += 1;
                }
                proof {
                    assert(copy@ =~= circle@);
                }
                Some(copy)
            },
            None => None,
        }
    }

    /// The emergency record for `user`, if any.
    pub fn get_emergency(&self, user: u64) -> (r: Option<MedicalEmergency>)
        ensures
            r == if self@.emergencies.contains_key(user) {
                Some(self@.emergencies[user])
            } else {
                None::<MedicalEmergency>
            },
    {
        match self.emergencies.get(&user) {
            Some(emergency) => Some(*emergency),
            None => None,
        }
    }

    /// The panic-vote counter for `user`; an absent record reads as zero.
    pub fn get_panic_votes(&self, user: u64) -> (count: u32)
        ensures
            count == self@.panic_count(user),
    {
        match self.panic_votes.get(&user) {
            Some(count) => *count,
            None => 0,
        }
    }
}

} // verus!
