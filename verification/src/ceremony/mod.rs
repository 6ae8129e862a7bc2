//! Audit of the key ceremonies of group-robot bots: ceremonies run inside
//! approved enclaves are recorded with their Shamir parameters, a bot has at
//! most one active ceremony, and a periodic scan expires old ceremonies and
//! flags those whose bot has too few peers to recover the secret.
//!
//! What the bot registry and the subscription service say about a bot is passed
//! in as [`BotFacts`]; the peer counts of bots are passed to the scan.
use vstd::prelude::*;
use crate::grouprobot::{CeremonyStatus, SubscriptionTier};
use crate::kvmap::KvMap;

pub mod calls;
pub mod scan;
pub mod weights;
pub mod laws;



verus! {

/// A recorded ceremony.
#[derive(Clone, Debug, PartialEq, Eq)]
pub struct CeremonyRecord {
    pub ceremony_mrenclave: [u8; 32],
    pub k: u8,
    pub n: u8,
    pub bot_public_key: [u8; 32],
    pub participant_count: u8,
    pub participant_enclaves: Vec<[u8; 32]>,
    pub initiator: u64,
    pub created_at: u64,
    pub status: CeremonyStatus,
    pub expires_at: u64,
    /// Whether it replaced an earlier active ceremony of the bot.
    pub is_re_ceremony: bool,
    /// The ceremony it replaced.
    pub supersedes: Option<[u8; 32]>,
    pub bot_id_hash: [u8; 32],
}

/// An enclave approved to run ceremonies.
#[derive(Clone, Debug, PartialEq, Eq)]
pub struct CeremonyEnclaveInfo {
    pub version: u32,
    pub approved_at: u64,
    /// At most 128 bytes.
    pub description: Vec<u8>,
}

/// Constants of the pallet, set by the runtime.
#[derive(Clone, Copy, Debug)]
pub struct Config {
    pub max_participants: u32,
    pub max_ceremony_history: u32,
    /// Blocks a ceremony stays valid.
    pub ceremony_validity_blocks: u64,
    /// The scan runs every this many blocks; never when zero.
    pub ceremony_check_interval: u64,
}

/// What the bot registry and the subscription service say about a bot.
#[derive(Clone, Copy, Debug)]
pub struct BotFacts {
    /// `None` when the bot is not registered.
    pub owner: Option<u64>,
    /// Whether the bot is active.
    pub active: bool,
    pub tier: SubscriptionTier,
    /// The public key registered for the bot, if any.
    pub public_key: Option<[u8; 32]>,
}

#[derive(Clone, Copy, Debug, PartialEq, Eq)]
pub enum Event {
    CeremonyRecorded { ceremony_hash: [u8; 32], bot_public_key: [u8; 32], k: u8, n: u8 },
    CeremonyRevoked { ceremony_hash: [u8; 32] },
    CeremonySuperseded { old_hash: [u8; 32], new_hash: [u8; 32] },
    CeremonyExpired { ceremony_hash: [u8; 32] },
    CeremonyAtRisk { ceremony_hash: [u8; 32], bot_public_key: [u8; 32], required_k: u8, current_peer_count: u32 },
    EnclaveApproved { mrenclave: [u8; 32], version: u32 },
    EnclaveRemoved { mrenclave: [u8; 32] },
    ForcedReCeremony { ceremony_hash: [u8; 32] },
}

#[derive(Clone, Copy, Debug, PartialEq, Eq, Structural)]
pub enum Error {
    EnclaveNotApproved,
    CeremonyNotFound,
    CeremonyAlreadyExists,
    InvalidShamirParams,
    EnclaveAlreadyApproved,
    EnclaveNotFound,
    EmptyParticipants,
    TooManyParticipants,
    FreeTierNotAllowed,
    NotBotOwner,
    BotNotFound,
    BotPublicKeyMismatch,
    InsufficientParticipants,
    CeremonyNotActive,
    DescriptionTooLong,
    BotNotActive,
    DuplicateParticipant,
    ParticipantCountExceedsN,
}

/// The pallet's storage.
pub struct Pallet {
    pub config: Config,
    /// Ceremonies by hash.
    pub ceremonies: KvMap<[u8; 32], CeremonyRecord>,
    /// The active ceremony of each bot public key.
    pub active_ceremony: KvMap<[u8; 32], [u8; 32]>,
    /// Ceremonies of each bot public key, oldest first.
    pub ceremony_history: KvMap<[u8; 32], Vec<[u8; 32]>>,
    pub approved_enclaves: KvMap<[u8; 32], CeremonyEnclaveInfo>,
    pub ceremony_count: u64,
    /// Events deposited by successful calls, oldest first.
    pub events: Vec<Event>,
}

/// The consistency of active ceremonies: the active ceremony of a bot is a
/// recorded active ceremony of that bot, and every active ceremony is the
/// active one of its bot, so that a bot never has two.
pub open spec fn active_consistent(p: Pallet) -> bool {
    &&& forall|pk: [u8; 32]| #[trigger] p.active_ceremony@.contains_key(pk) ==> {
        let h = p.active_ceremony@[pk];
        &&& p.ceremonies@.contains_key(h)
        &&& p.ceremonies@[h].status == CeremonyStatus::Active
        &&& p.ceremonies@[h].bot_public_key == pk
    }
    &&& forall|h: [u8; 32]| #[trigger] p.ceremonies@.contains_key(h) && p.ceremonies@[h].status == CeremonyStatus::Active ==> {
        let pk = p.ceremonies@[h].bot_public_key;
        &&& p.active_ceremony@.contains_key(pk)
        &&& p.active_ceremony@[pk] == h
    }
}

/// The active ceremony record of a bot, if there is one.
pub open spec fn active_record(p: Pallet, bot_public_key: [u8; 32]) -> Option<CeremonyRecord> {
    if p.active_ceremony@.contains_key(bot_public_key) && p.ceremonies@.contains_key(p.active_ceremony@[bot_public_key]) {
        Some(p.ceremonies@[p.active_ceremony@[bot_public_key]])
    } else {
        None
    }
}

impl Pallet {
    /// Empty storage under the given constants.
    pub fn new(config: Config) -> (p: Pallet)
        ensures
            p.config == config,
            p.ceremonies@ == Map::<[u8; 32], CeremonyRecord>::empty(),
            p.active_ceremony@ == Map::<[u8; 32], [u8; 32]>::empty(),
            p.ceremony_history@ == Map::<[u8; 32], Vec<[u8; 32]>>::empty(),
            p.approved_enclaves@ == Map::<[u8; 32], CeremonyEnclaveInfo>::empty(),
            p.ceremony_count == 0,
            p.events@ == Seq::<Event>::empty(),
            active_consistent(p),
    {
        Pallet {
            config,
            ceremonies: KvMap::new(),
            active_ceremony: KvMap::new(),
            ceremony_history: KvMap::new(),
            approved_enclaves: KvMap::new(),
            ceremony_count: 0,
            events: Vec::new(),
        }
    }

    /// Whether the bot has a recorded ceremony that is active.
    pub fn is_ceremony_active(&self, bot_public_key: &[u8; 32]) -> (r: bool)
        ensures
            r == (active_record(*self, *bot_public_key) matches Some(rec) && rec.status == CeremonyStatus::Active),
    {
        match self.active_ceremony.get(bot_public_key) {
            Some(h) => match self.ceremonies.get(h) {
                Some(rec) => match rec.status {
                    CeremonyStatus::Active => true,
                    _ => false,
                },
                None => false,
            },
            None => false,
        }
    }

    /// The hash of the bot's active ceremony.
    pub fn get_active_ceremony(&self, bot_public_key: &[u8; 32]) -> (r: Option<[u8; 32]>)
        ensures
            r == (if self.active_ceremony@.contains_key(*bot_public_key) {
                Some(self.active_ceremony@[*bot_public_key])
            } else {
                None::<[u8; 32]>
            }),
    {
        match self.active_ceremony.get(bot_public_key) {
            Some(h) => Some(*h),
            None => None,
        }
    }

    /// The hash of the bot's active ceremony, as other pallets ask for it.
    pub fn active_ceremony_hash(&self, bot_public_key: &[u8; 32]) -> (r: Option<[u8; 32]>)
        ensures
            r == (if self.active_ceremony@.contains_key(*bot_public_key) {
                Some(self.active_ceremony@[*bot_public_key])
            } else {
                None::<[u8; 32]>
            }),
    {
        self.get_active_ceremony(bot_public_key)
    }

    /// Whether an enclave is approved to run ceremonies.
    pub fn is_enclave_approved(&self, mrenclave: &[u8; 32]) -> (r: bool)
        ensures
            r == self.approved_enclaves@.contains_key(*mrenclave),
    {
        self.approved_enclaves.contains_key(mrenclave)
    }

    /// Threshold and share count of the bot's active ceremony.
    pub fn ceremony_shamir_params(&self, bot_public_key: &[u8; 32]) -> (r: Option<(u8, u8)>)
        ensures
            r == (match active_record(*self, *bot_public_key) {
                Some(rec) => Some((rec.k, rec.n)),
                None => None::<(u8, u8)>,
            }),
    {
        match self.active_ceremony.get(bot_public_key) {
            Some(h) => match self.ceremonies.get(h) {
                Some(rec) => Some((rec.k, rec.n)),
                None => None,
            },
            None => None,
        }
    }

    /// Number of participants of the bot's active ceremony.
    pub fn ceremony_participant_count(&self, bot_public_key: &[u8; 32]) -> (r: Option<u8>)
        ensures
            r == (match active_record(*self, *bot_public_key) {
                Some(rec) => Some(rec.participant_count),
                None => None::<u8>,
            }),
    {
        match self.active_ceremony.get(bot_public_key) {
            Some(h) => match self.ceremonies.get(h) {
                Some(rec) => Some(rec.participant_count),
                None => None,
            },
            None => None,
        }
    }
}

} // verus!
