//! The record kinds the durable store holds, the protocol constants, and the
//! error taxonomy shared by every operation.

use vstd::prelude::*;

verus! {

/// Seconds of owner silence after which the heir may claim: 180 days.
pub const DEADMAN_LIMIT: u64 = 15_552_000;

/// Seconds left on the deadman timer right after a panic freeze: 7 days.
pub const PANIC_RESIDUAL: u64 = 604_800;

/// How far behind the clock the panic freeze pins `last_heartbeat`, so that
/// exactly [`PANIC_RESIDUAL`] seconds remain until the deadman limit.
pub const PANIC_WARP: u64 = DEADMAN_LIMIT - PANIC_RESIDUAL;

/// Votes a security circle must collect to trigger either quorum protocol.
pub const QUORUM: u32 = 3;

/// Largest number of witnesses a security circle may hold.
pub const MAX_WITNESSES: usize = 5;

/// Trust added the one time a merchant stakes its bond.
pub const STAKE_BONUS: u32 = 10;

/// Trust score at which vouching stops counting.
pub const TRUST_CAP: u32 = 100;

/// Why a call was refused. Every failure aborts the whole operation: the
/// store is left exactly as it was.
#[derive(Clone, Copy, Debug, PartialEq, Eq, Structural)]
pub enum CustodyError {
    /// A referenced vault, circle, emergency or merchant record does not exist.
    NotFound,
    /// The caller does not hold the role (owner, heir or witness) the call
    /// requires.
    Unauthorized,
    /// A protocol bound was hit: a circle over capacity, an emergency declared
    /// twice, a claim before the timer expired, or a bond staked twice.
    InvariantViolation,
    /// The caller is absent from the target's security circle.
    NotAMember,
}

impl CustodyError {
    /// The human-readable label under which a failure is surfaced.
    pub fn describe(&self) -> (label: String)
        ensures
            *self == CustodyError::NotFound ==> label@ == "record not found"@,
            *self == CustodyError::Unauthorized ==> label@ == "caller not authorized"@,
            *self == CustodyError::InvariantViolation ==> label@ == "protocol invariant violated"@,
            *self == CustodyError::NotAMember ==> label@ == "not a witness"@,
    {
        match self {
            CustodyError::NotFound => "record not found".to_string(),
            CustodyError::Unauthorized => "caller not authorized".to_string(),
            CustodyError::InvariantViolation => "protocol invariant violated".to_string(),
            CustodyError::NotAMember => "not a witness".to_string(),
        }
    }
}

/// The deadman-switch record, one per owner account. The heir is fixed at
/// creation, so a stored vault always knows who may claim it.
#[derive(Clone, Copy, Debug, PartialEq, Eq, Structural)]
pub struct LegacyVault {
    /// The account entitled to claim once the deadman timer expires.
    pub heir: u64,
    /// Clock reading of the owner's last sign of life, or of the panic warp.
    pub last_heartbeat: u64,
    /// Whether the protocol is active; always true once the record exists.
    pub is_locked: bool,
    /// Whether the panic freeze is currently in force.
    pub is_frozen: bool,
}

/// A medical-emergency record, at most one per target account. Votes only
/// grow, and the unlock latch never resets.
#[derive(Clone, Copy, Debug, PartialEq, Eq, Structural)]
pub struct MedicalEmergency {
    /// The account whose funds the emergency concerns.
    pub target_user: u64,
    /// Witness votes collected so far.
    pub votes_collected: u32,
    /// Latched once `votes_collected` reaches [`QUORUM`]; never cleared.
    pub is_unlocked: bool,
}

/// A note left in a merchant's message log.
#[derive(Clone, Debug)]
pub struct Message {
    /// Account that sent the note.
    pub sender: u64,
    /// The note itself.
    pub text: String,
    /// Clock reading at which it was sent.
    pub timestamp: u64,
}

/// A merchant's reputation record. It shares the store with the custody
/// records but carries no cross-invariant with them.
#[derive(Debug)]
pub struct Merchant {
    /// Bounded reputation counter.
    pub trust_score: u32,
    /// Whether the one-time bond has been staked.
    pub bond_staked: bool,
    /// Ledger balance, tracked but untouched by the operations in scope.
    pub bzr_balance: i128,
    /// Decorative achievement labels.
    pub badges: Vec<String>,
    /// Whether a dispute is open against the merchant.
    pub is_disputed: bool,
    /// Display name.
    pub nickname: String,
    /// Notes other accounts left for the merchant.
    pub messages: Vec<Message>,
}

/// What the specifications see of a [`Merchant`]: the same fields, with the
/// collections abstracted to sequences.
#[verifier::ext_equal]
pub struct MerchantView {
    pub trust_score: u32,
    pub bond_staked: bool,
    pub bzr_balance: i128,
    pub badges: Seq<String>,
    pub is_disputed: bool,
    pub nickname: Seq<char>,
    pub messages: Seq<Message>,
}

impl View for Merchant {
    type V = MerchantView;

    open spec fn view(&self) -> MerchantView {
        MerchantView {
            trust_score: self.trust_score,
            bond_staked: self.bond_staked,
            bzr_balance: self.bzr_balance,
            badges: self.badges@,
            is_disputed: self.is_disputed,
            nickname: self.nickname@,
            messages: self.messages@,
        }
    }
}

/// The record a merchant key reads as before anything was stored under it:
/// zero trust, no bond, an empty history.
pub open spec fn fresh_merchant() -> MerchantView {
    MerchantView {
        trust_score: 0,
        bond_staked: false,
        bzr_balance: 0,
        badges: Seq::empty(),
        is_disputed: false,
        nickname: "User"@,
        messages: Seq::empty(),
    }
}

impl Default for Merchant {
    /// The stored form of [`fresh_merchant`].
    fn default() -> (m: Merchant)
        ensures
            m@ == fresh_merchant(),
    {
        let m = Merchant {
            trust_score: 0,
            bond_staked: false,
            bzr_balance: 0,
            badges: Vec::new(),
            is_disputed: false,
            nickname: "User".to_string(),
            messages: Vec::new(),
        };
        proof {
            assert(m@ =~= fresh_merchant());
        }
        m
    }
}

/// The keyspace of the durable store: a record tag paired with the account
/// the record belongs to. Distinct tags for one account never alias.
#[derive(Clone, Copy, Debug, PartialEq, Eq, Structural)]
pub enum DataKey {
    /// A [`Merchant`] reputation record.
    Merchant(u64),
    /// A [`LegacyVault`] deadman-switch record.
    Vault(u64),
    /// A security circle: the witness list protecting an account.
    Witnesses(u64),
    /// A [`MedicalEmergency`] record.
    Emergency(u64),
    /// A panic-vote counter.
    PanicVotes(u64),
}

} // verus!
