//! The abstract model: the durable store as a bundle of partial maps, and one
//! specification-level transition function per public operation.
//!
//! Each transition takes the store, the resolved caller identity and (where
//! the operation reads the clock) the current ledger time, and returns the
//! store after the call together with its result. A failed call returns the
//! store unchanged: the host commits each operation atomically, so no partial
//! write of an aborted call is ever observable.

use vstd::prelude::*;

use crate::records::{
    CustodyError, DataKey, LegacyVault, MedicalEmergency, MerchantView, fresh_merchant,
    DEADMAN_LIMIT, MAX_WITNESSES, PANIC_WARP, QUORUM, STAKE_BONUS, TRUST_CAP,
};

verus! {

/// The durable store as the specifications see it: one partial map per record
/// kind, each keyed by the owning account.
#[verifier::ext_equal]
pub struct StateView {
    /// Deadman-switch vaults.
    pub vaults: Map<u64, LegacyVault>,
    /// Security circles: the witness list protecting each account.
    pub circles: Map<u64, Seq<u64>>,
    /// Medical-emergency records.
    pub emergencies: Map<u64, MedicalEmergency>,
    /// Panic-vote counters; an absent key reads as zero.
    pub panic_votes: Map<u64, u32>,
    /// Merchant reputation records.
    pub merchants: Map<u64, MerchantView>,
}

impl StateView {
    /// The store before anything was written.
    pub open spec fn empty() -> StateView {
        StateView {
            vaults: Map::empty(),
            circles: Map::empty(),
            emergencies: Map::empty(),
            panic_votes: Map::empty(),
            merchants: Map::empty(),
        }
    }

    /// Whether the store holds a record under the given key.
    pub open spec fn has_record(self, key: DataKey) -> bool {
        match key {
            DataKey::Merchant(account) => self.merchants.contains_key(account),
            DataKey::Vault(account) => self.vaults.contains_key(account),
            DataKey::Witnesses(account) => self.circles.contains_key(account),
            DataKey::Emergency(account) => self.emergencies.contains_key(account),
            DataKey::PanicVotes(account) => self.panic_votes.contains_key(account),
        }
    }

    /// The panic-vote counter for a target; an absent key reads as zero.
    pub open spec fn panic_count(self, target: u64) -> u32 {
        if self.panic_votes.contains_key(target) {
            self.panic_votes[target]
        } else {
            0
        }
    }

    /// The trust score of an account; an absent merchant record reads as zero.
    pub open spec fn trust_of(self, user: u64) -> u32 {
        if self.merchants.contains_key(user) {
            self.merchants[user].trust_score
        } else {
            0
        }
    }

    /// The shared quorum-check primitive: a claimed witness is accepted for a
    /// target exactly when the target has a circle and the witness is in it.
    pub open spec fn witness_check(self, witness: u64, target: u64) -> Result<(), CustodyError> {
        if !self.has_record(DataKey::Witnesses(target)) {
            Err(CustodyError::NotFound)
        } else if !self.circles[target].contains(witness) {
            Err(CustodyError::NotAMember)
        } else {
            Ok(())
        }
    }

    /// Owner `user` opens (or wholesale overwrites) its vault, naming `heir`
    /// and starting the deadman timer at `now`.
    pub open spec fn create_vault(self, caller: u64, now: u64, user: u64, heir: u64) -> (
        StateView,
        Result<(), CustodyError>,
    ) {
        if caller != user {
            (self, Err(CustodyError::Unauthorized))
        } else {
            let vault = LegacyVault {
                heir,
                last_heartbeat: now,
                is_locked: true,
                is_frozen: false,
            };
            (StateView { vaults: self.vaults.insert(user, vault), ..self }, Ok(()))
        }
    }

    /// Owner `user` signals it is alive: the deadman timer restarts at `now`
    /// and any panic freeze is lifted.
    pub open spec fn ping_heartbeat(self, caller: u64, now: u64, user: u64) -> (
        StateView,
        Result<(), CustodyError>,
    ) {
        if caller != user {
            (self, Err(CustodyError::Unauthorized))
        } else if !self.has_record(DataKey::Vault(user)) {
            (self, Err(CustodyError::NotFound))
        } else {
            let vault = LegacyVault {
                last_heartbeat: now,
                is_frozen: false,
                ..self.vaults[user]
            };
            (StateView { vaults: self.vaults.insert(user, vault), ..self }, Ok(()))
        }
    }

    /// The heir of `target`'s vault asks for release. The call succeeds
    /// exactly when the vault exists, the caller is its heir, and at least
    /// [`DEADMAN_LIMIT`] seconds have passed since the last heartbeat; the
    /// release itself is the host's job, so the store never changes.
    pub open spec fn claim_legacy(self, caller: u64, now: u64, target: u64) -> Result<
        (),
        CustodyError,
    > {
        if !self.has_record(DataKey::Vault(target)) {
            Err(CustodyError::NotFound)
        } else if caller != self.vaults[target].heir {
            Err(CustodyError::Unauthorized)
        } else if now - self.vaults[target].last_heartbeat < DEADMAN_LIMIT {
            Err(CustodyError::InvariantViolation)
        } else {
            Ok(())
        }
    }

    /// Owner `user` replaces its security circle wholesale; any list of at
    /// most [`MAX_WITNESSES`] entries is accepted.
    pub open spec fn assign_witnesses(self, caller: u64, user: u64, witnesses: Seq<u64>) -> (
        StateView,
        Result<(), CustodyError>,
    ) {
        if caller != user {
            (self, Err(CustodyError::Unauthorized))
        } else if witnesses.len() > MAX_WITNESSES {
            (self, Err(CustodyError::InvariantViolation))
        } else {
            (StateView { circles: self.circles.insert(user, witnesses), ..self }, Ok(()))
        }
    }

    /// Anyone opens a medical emergency for `target`, provided none is on
    /// record yet; the record starts with no votes and the unlock cleared.
    pub open spec fn declare_emergency(self, target: u64) -> (StateView, Result<(), CustodyError>) {
        if self.has_record(DataKey::Emergency(target)) {
            (self, Err(CustodyError::InvariantViolation))
        } else {
            let emergency = MedicalEmergency {
                target_user: target,
                votes_collected: 0,
                is_unlocked: false,
            };
            (StateView { emergencies: self.emergencies.insert(target, emergency), ..self }, Ok(()))
        }
    }

    /// A witness of `target`'s circle votes on its open emergency. The vote
    /// always counts, and the unlock latches once the count reaches
    /// [`QUORUM`]; nothing ever clears it.
    pub open spec fn witness_vote_medical(self, caller: u64, witness: u64, target: u64) -> (
        StateView,
        Result<(), CustodyError>,
    ) {
        if caller != witness {
            (self, Err(CustodyError::Unauthorized))
        } else {
            match self.witness_check(witness, target) {
                Err(e) => (self, Err(e)),
                Ok(_) => {
                    if !self.has_record(DataKey::Emergency(target)) {
                        (self, Err(CustodyError::NotFound))
                    } else {
                        let before = self.emergencies[target];
                        let votes = (before.votes_collected + 1) as u32;
                        let emergency = MedicalEmergency {
                            target_user: before.target_user,
                            votes_collected: votes,
                            is_unlocked: votes >= QUORUM || before.is_unlocked,
                        };
                        (
                            StateView {
                                emergencies: self.emergencies.insert(target, emergency),
                                ..self
                            },
                            Ok(()),
                        )
                    }
                },
            }
        }
    }

    /// A witness of `target`'s circle votes to freeze it. The counter always
    /// grows; the moment it first reaches [`QUORUM`] the target's vault — which
    /// must exist, or the whole call aborts — is frozen and its heartbeat is
    /// pinned [`PANIC_WARP`] seconds behind the clock, leaving the heir a
    /// [`crate::records::PANIC_RESIDUAL`]-second wait. Votes past the quorum
    /// only count.
    pub open spec fn panic_button(self, caller: u64, now: u64, witness: u64, target: u64) -> (
        StateView,
        Result<(), CustodyError>,
    ) {
        if caller != witness {
            (self, Err(CustodyError::Unauthorized))
        } else {
            match self.witness_check(witness, target) {
                Err(e) => (self, Err(e)),
                Ok(_) => {
                    let votes = (self.panic_count(target) + 1) as u32;
                    if votes == QUORUM {
                        if !self.has_record(DataKey::Vault(target)) {
                            (self, Err(CustodyError::NotFound))
                        } else {
                            let vault = LegacyVault {
                                last_heartbeat: (now - PANIC_WARP) as u64,
                                is_frozen: true,
                                ..self.vaults[target]
                            };
                            (
                                StateView {
                                    panic_votes: self.panic_votes.insert(target, votes),
                                    vaults: self.vaults.insert(target, vault),
                                    ..self
                                },
                                Ok(()),
                            )
                        }
                    } else {
                        (
                            StateView { panic_votes: self.panic_votes.insert(target, votes), ..self },
                            Ok(()),
                        )
                    }
                },
            }
        }
    }

    /// Merchant `user` stakes its one-time bond: [`STAKE_BONUS`] trust on top
    /// of whatever was on record (zero when nothing was), refused once bonded.
    pub open spec fn stake(self, caller: u64, user: u64) -> (StateView, Result<(), CustodyError>) {
        if caller != user {
            (self, Err(CustodyError::Unauthorized))
        } else {
            let before = if self.has_record(DataKey::Merchant(user)) {
                self.merchants[user]
            } else {
                fresh_merchant()
            };
            if before.bond_staked {
                (self, Err(CustodyError::InvariantViolation))
            } else {
                let merchant = MerchantView {
                    trust_score: (before.trust_score + STAKE_BONUS) as u32,
                    bond_staked: true,
                    ..before
                };
                (StateView { merchants: self.merchants.insert(user, merchant), ..self }, Ok(()))
            }
        }
    }

    /// `voucher` vouches for merchant `target`: one point of trust, counted
    /// only while the score is below [`TRUST_CAP`].
    pub open spec fn vouch(self, caller: u64, voucher: u64, target: u64) -> (
        StateView,
        Result<(), CustodyError>,
    ) {
        if caller != voucher {
            (self, Err(CustodyError::Unauthorized))
        } else if !self.has_record(DataKey::Merchant(target)) {
            (self, Err(CustodyError::NotFound))
        } else {
            let before = self.merchants[target];
            let merchant = if before.trust_score < TRUST_CAP {
                MerchantView { trust_score: (before.trust_score + 1) as u32, ..before }
            } else {
                before
            };
            (StateView { merchants: self.merchants.insert(target, merchant), ..self }, Ok(()))
        }
    }
}

} // verus!
