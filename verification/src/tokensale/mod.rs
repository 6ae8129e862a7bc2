//! Public sale of an entity's tokens: fixed-price, Dutch-auction and whitelist
//! rounds, payment in the native currency held in the pallet's account, vesting
//! of the bought tokens, soft caps, refunds of cancelled rounds and cleanup.
//!
//! The pallet's storage is the [`Pallet`] value. Transfers of the native currency
//! and reservations of entity tokens are returned as [`Effect`]s for the caller
//! to perform; what the entity registry, the KYC service and the disclosure
//! service say is passed in.
use vstd::prelude::*;
use crate::kvmap::{get_or, KvMap};

pub mod math;
pub mod admin;
pub mod trade;
pub mod lifecycle;
pub mod refunds;
pub mod queries;
pub mod laws;

verus! {

/// How tokens are sold in a round.
#[derive(Clone, Copy, Debug, PartialEq, Eq, Structural)]
pub enum SaleMode {
    FixedPrice,
    DutchAuction,
    WhitelistAllocation,
    FCFS,
    Lottery,
}

/// Lifecycle of a round.
#[derive(Clone, Copy, Debug, PartialEq, Eq, Structural)]
pub enum RoundStatus {
    NotStarted,
    Active,
    Ended,
    Cancelled,
    Completed,
    Paused,
}

/// How bought tokens unlock.
#[derive(Clone, Copy, Debug, PartialEq, Eq, Structural)]
pub enum VestingType {
    NoVesting,
    Linear,
    Cliff,
    Custom,
}

/// Vesting schedule of a round.
#[derive(Clone, Copy, Debug, PartialEq, Eq, Structural)]
pub struct VestingConfig {
    pub vesting_type: VestingType,
    /// Share unlocked at claim, in basis points.
    pub initial_unlock_bps: u16,
    pub cliff_duration: u64,
    pub total_duration: u64,
    /// Step of a cliff schedule, in blocks.
    pub unlock_interval: u64,
}

impl VestingConfig {
    pub open spec fn spec_default() -> VestingConfig {
        VestingConfig {
            vesting_type: VestingType::NoVesting,
            initial_unlock_bps: 0,
            cliff_duration: 0,
            total_duration: 0,
            unlock_interval: 0,
        }
    }
}

impl Default for VestingConfig {
    fn default() -> (r: VestingConfig)
        ensures
            r == VestingConfig::spec_default(),
    {
        VestingConfig {
            vesting_type: VestingType::NoVesting,
            initial_unlock_bps: 0,
            cliff_duration: 0,
            total_duration: 0,
            unlock_interval: 0,
        }
    }
}

/// A way to pay in a round.
#[derive(Clone, Copy, Debug, PartialEq, Eq, Structural)]
pub struct PaymentConfig {
    /// `None` is the native currency.
    pub asset_id: Option<u64>,
    pub price: u128,
    pub min_purchase: u128,
    pub max_purchase_per_account: u128,
    pub enabled: bool,
}

/// A sale round.
#[derive(Clone, Copy, Debug, PartialEq, Eq, Structural)]
pub struct SaleRound {
    pub id: u64,
    pub entity_id: u64,
    pub mode: SaleMode,
    pub status: RoundStatus,
    pub total_supply: u128,
    pub sold_amount: u128,
    pub remaining_amount: u128,
    pub participants_count: u32,
    pub payment_options_count: u32,
    pub vesting_config: VestingConfig,
    pub kyc_required: bool,
    pub min_kyc_level: u8,
    pub start_block: u64,
    pub end_block: u64,
    pub dutch_start_price: Option<u128>,
    pub dutch_end_price: Option<u128>,
    pub creator: u64,
    pub created_at: u64,
    pub funds_withdrawn: bool,
    pub cancelled_at: Option<u64>,
    pub total_refunded_tokens: u128,
    pub total_refunded_nex: u128,
    /// Least amount to raise; zero for none.
    pub soft_cap: u128,
}

/// A subscriber's purchase in a round.
#[derive(Clone, Copy, Debug, PartialEq, Eq, Structural)]
pub struct Subscription {
    pub subscriber: u64,
    pub round_id: u64,
    pub amount: u128,
    pub payment_asset: Option<u64>,
    pub payment_amount: u128,
    pub subscribed_at: u64,
    pub claimed: bool,
    pub unlocked_amount: u128,
    pub refunded: bool,
}

/// Status of a round as other pallets see it.
#[derive(Clone, Copy, Debug, PartialEq, Eq, Structural)]
pub enum TokenSaleStatus {
    NotStarted,
    Active,
    Paused,
    Ended,
    Cancelled,
    Completed,
}

/// KYC level of an account within an entity (0 none, up to 4 institutional).
pub trait KycChecker {
    fn kyc_level(entity_id: u64, account: &u64) -> u8;
}

/// A KYC service that knows nobody: every level is 0.
pub struct NullKycChecker;

impl KycChecker for NullKycChecker {
    fn kyc_level(_entity_id: u64, _account: &u64) -> (r: u8)
        ensures
            r == 0,
    {
        0
    }
}

/// What the entity registry says about an entity, and about the caller in it.
#[derive(Clone, Copy, Debug)]
pub struct EntityInfo {
    pub exists: bool,
    pub active: bool,
    pub owner: Option<u64>,
    /// Whether the caller may manage the entity's token.
    pub caller_is_admin: bool,
    /// Whether the entity is globally locked against configuration.
    pub locked: bool,
    /// The entity's own account.
    pub account: u64,
}

/// Constants of the pallet, set by the runtime.
#[derive(Clone, Copy, Debug)]
pub struct Config {
    pub max_payment_options: u32,
    pub max_whitelist_size: u32,
    pub max_rounds_history: u32,
    pub max_subscriptions_per_round: u32,
    pub max_active_rounds: u32,
    /// Blocks after a cancellation during which subscribers can claim refunds.
    pub refund_grace_period: u64,
    pub max_batch_refund: u32,
    /// The account that holds subscription payments.
    pub pallet_account: u64,
    /// Weight of one storage read.
    pub db_read_weight: u64,
    /// Weight of one storage write.
    pub db_write_weight: u64,
}

impl Config {
    /// Whether the constants are usable: every capacity limit is positive.
    pub fn integrity_test(&self) -> (r: bool)
        ensures
            r == (self.max_payment_options > 0 && self.max_whitelist_size > 0
                && self.max_rounds_history > 0 && self.max_subscriptions_per_round > 0
                && self.max_active_rounds > 0 && self.max_batch_refund > 0),
    {
        self.max_payment_options > 0 && self.max_whitelist_size > 0
            && self.max_rounds_history > 0 && self.max_subscriptions_per_round > 0
            && self.max_active_rounds > 0 && self.max_batch_refund > 0
    }
}

/// What the runtime must do after a successful call, in order. The failure of
/// an effect fails the whole call, which leaves storage as it was, unless the
/// effect says otherwise.
#[derive(Clone, Copy, Debug, PartialEq, Eq, Structural)]
pub enum Effect {
    /// Native-currency transfer; `keep_alive` forbids reaping the sender. Its error fails the call.
    Transfer { from: u64, to: u64, amount: u128, keep_alive: bool },
    /// Reserve tokens of the entity in the entity's own account; a failure fails
    /// the call with [`Error::InsufficientTokenSupply`].
    ReserveTokens { entity_id: u64, amount: u128 },
    /// Release reserved tokens of the entity in the entity's own account. With
    /// `require_full`, any amount left reserved fails the call with
    /// [`Error::IncompleteUnreserve`]; otherwise it is tolerated.
    UnreserveTokens { entity_id: u64, amount: u128, require_full: bool },
    /// Move reserved tokens from the entity's own account to `to`; an error fails
    /// the call, and moving less than `amount` fails it with [`Error::IncompleteUnreserve`].
    RepatriateTokens { entity_id: u64, to: u64, amount: u128 },
}

#[derive(Clone, Copy, Debug, PartialEq, Eq, Structural)]
pub enum Event {
    SaleRoundCreated { round_id: u64, entity_id: u64, mode: SaleMode, total_supply: u128 },
    PaymentOptionAdded { round_id: u64, asset_id: Option<u64> },
    VestingConfigSet { round_id: u64 },
    DutchAuctionConfigured { round_id: u64 },
    SaleRoundStarted { round_id: u64 },
    SaleRoundEnded { round_id: u64, sold_amount: u128, participants_count: u32 },
    SaleRoundCancelled { round_id: u64 },
    Subscribed { round_id: u64, subscriber: u64, amount: u128, payment_amount: u128 },
    TokensClaimed { round_id: u64, subscriber: u64, amount: u128 },
    TokensUnlocked { round_id: u64, subscriber: u64, amount: u128 },
    WhitelistUpdated { round_id: u64, count: u32 },
    FundsWithdrawn { round_id: u64, recipient: u64, amount: u128 },
    RefundClaimed { round_id: u64, subscriber: u64, amount: u128 },
    SaleAutoEnded { round_id: u64, sold_amount: u128, participants_count: u32 },
    ExpiredRefundsReclaimed { round_id: u64, tokens_reclaimed: u128, nex_reclaimed: u128 },
    SaleRoundForceCancelled { round_id: u64 },
    SaleRoundForceEnded { round_id: u64, sold_amount: u128, participants_count: u32 },
    ForceRefundIssued { round_id: u64, subscriber: u64, amount: u128 },
    ForceFundsWithdrawn { round_id: u64, recipient: u64, amount: u128 },
    SaleRoundUpdated { round_id: u64 },
    SubscriptionIncreased { round_id: u64, subscriber: u64, additional_amount: u128, additional_payment: u128 },
    WhitelistRemoved { round_id: u64, removed_count: u32 },
    PaymentOptionRemoved { round_id: u64, index: u32 },
    SaleExtended { round_id: u64, new_end_block: u64 },
    SaleRoundPaused { round_id: u64 },
    SaleRoundResumed { round_id: u64 },
    SoftCapNotMet { round_id: u64, raised: u128, soft_cap: u128 },
    RoundStorageCleaned { round_id: u64, subscriptions_removed: u32 },
    ForceBatchRefundIssued { round_id: u64, refunded_count: u32, total_nex: u128 },
}

#[derive(Clone, Copy, Debug, PartialEq, Eq, Structural)]
pub enum Error {
    RoundNotFound,
    RoundNotStarted,
    RoundEnded,
    RoundCancelled,
    SoldOut,
    InvalidRoundStatus,
    InsufficientBalance,
    ExceedsPurchaseLimit,
    BelowMinPurchase,
    NotInWhitelist,
    InsufficientKycLevel,
    InvalidPaymentAsset,
    AlreadySubscribed,
    NotSubscribed,
    AlreadyClaimed,
    NoTokensToUnlock,
    CliffNotReached,
    Unauthorized,
    WhitelistFull,
    RoundsHistoryFull,
    ParticipantsFull,
    PaymentOptionsFull,
    InvalidDutchAuctionConfig,
    InvalidVestingConfig,
    EntityNotFound,
    EntityNotActive,
    InvalidTotalSupply,
    InvalidTimeWindow,
    InvalidPrice,
    InvalidVestingDuration,
    SaleNotInTimeWindow,
    ArithmeticOverflow,
    NoPaymentOptions,
    InvalidKycLevel,
    InsufficientTokenSupply,
    FundsAlreadyWithdrawn,
    SaleNotCancelled,
    AlreadyRefunded,
    InvalidPurchaseLimits,
    RefundPeriodNotExpired,
    DutchAuctionNotConfigured,
    ActiveRoundsFull,
    RoundIdOverflow,
    StartBlockInPast,
    IncompleteUnreserve,
    DuplicatePaymentOption,
    EntityLocked,
    NoUpdateProvided,
    PaymentOptionNotFound,
    InvalidExtension,
    SaleNotPaused,
    InsiderTradingBlocked,
    RoundNotCleanable,
    EmptyBatch,
    LotteryNotImplemented,
    SoftCapNotMet,
}

/// The pallet's storage.
#[derive(Clone)]
pub struct Pallet {
    pub config: Config,
    pub next_round_id: u64,
    pub sale_rounds: KvMap<u64, SaleRound>,
    /// Rounds of each entity, oldest first.
    pub entity_rounds: KvMap<u64, Vec<u64>>,
    /// Subscriptions by (round, subscriber).
    pub subscriptions: KvMap<(u64, u64), Subscription>,
    pub round_participants: KvMap<u64, Vec<u64>>,
    /// Funds raised by (round, asset).
    pub raised_funds: KvMap<(u64, Option<u64>), u128>,
    pub round_payment_options: KvMap<u64, Vec<PaymentConfig>>,
    /// Rounds that on_initialize watches for expiry.
    pub active_rounds: Vec<u64>,
    /// Whitelisted (round, account) with an optional personal cap.
    pub round_whitelist: KvMap<(u64, u64), Option<u128>>,
    pub whitelist_count: KvMap<u64, u32>,
    /// Events deposited by successful calls, oldest first.
    pub events: Vec<Event>,
}

/// Funds raised in the native currency for a round.
pub open spec fn raised_native(p: Pallet, round_id: u64) -> u128 {
    get_or(p.raised_funds@, (round_id, None), 0u128)
}

/// `s` with every occurrence of `x` left out.
pub open spec fn seq_without(s: Seq<u64>, x: u64) -> Seq<u64>
    decreases s.len(),
{
    if s.len() == 0 {
        s
    } else if s.last() == x {
        seq_without(s.drop_last(), x)
    } else {
        seq_without(s.drop_last(), x).push(s.last())
    }
}

/// Removes every occurrence of `x`.
pub fn vec_remove_all(v: &mut Vec<u64>, x: u64)
    ensures
        final(v)@ == seq_without(old(v)@, x),
{
    let mut out: Vec<u64> = Vec::new();
    let mut i: usize = 0;
    while i < v.len()
        invariant
            0 <= i <= v@.len(),
            v@ == old(v)@,
            out@ == seq_without(v@.take(i as int), x),
        decreases v@.len() - i,
    {
        assert(v@.take(i + 1).drop_last() =~= v@.take(i as int));
        if v[i] != x {
            out.push(v[i]);
        }
        i = i + 1;
    }
    assert(v@.take(v@.len() as int) =~= v@);
    *v = out;
}

impl Pallet {
    /// Empty storage under the given constants.
    pub fn new(config: Config) -> (p: Pallet)
        ensures
            p.config == config,
            p.next_round_id == 0,
            p.sale_rounds@ == Map::<u64, SaleRound>::empty(),
            p.entity_rounds@ == Map::<u64, Vec<u64>>::empty(),
            p.subscriptions@ == Map::<(u64, u64), Subscription>::empty(),
            p.round_participants@ == Map::<u64, Vec<u64>>::empty(),
            p.raised_funds@ == Map::<(u64, Option<u64>), u128>::empty(),
            p.round_payment_options@ == Map::<u64, Vec<PaymentConfig>>::empty(),
            p.active_rounds@ == Seq::<u64>::empty(),
            p.round_whitelist@ == Map::<(u64, u64), Option<u128>>::empty(),
            p.whitelist_count@ == Map::<u64, u32>::empty(),
            p.events@ == Seq::<Event>::empty(),
    {
        Pallet {
            config,
            next_round_id: 0,
            sale_rounds: KvMap::new(),
            entity_rounds: KvMap::new(),
            subscriptions: KvMap::new(),
            round_participants: KvMap::new(),
            raised_funds: KvMap::new(),
            round_payment_options: KvMap::new(),
            active_rounds: Vec::new(),
            round_whitelist: KvMap::new(),
            whitelist_count: KvMap::new(),
            events: Vec::new(),
        }
    }

    /// The account that holds subscription payments.
    pub fn pallet_account(&self) -> (r: u64)
        ensures
            r == self.config.pallet_account,
    {
        self.config.pallet_account
    }

    pub(crate) fn raised_native_of(&self, round_id: u64) -> (r: u128)
        ensures
            r == raised_native(*self, round_id),
    {
        self.raised_funds.get_or(&(round_id, None), 0)
    }
}

} // verus!
