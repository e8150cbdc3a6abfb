//! Data model: offer templates, rewards, raffles, per-asset instances, and
//! the error taxonomy, together with their mathematical views.
//!
//! Identities (providers, partners, users, admin) and token/asset addresses
//! are equality-comparable opaque strings; times are `u64` timestamps.

use vstd::prelude::*;

verus! {

/// How the `expiry` field of a utility or of a per-asset instance is read.
#[derive(Clone, Copy, Debug, PartialEq, Eq, Structural)]
pub enum ExpiryType {
    NoExpiry,
    TimeBased,
    DateBased,
}

/// Broad category of a utility offer.
#[derive(Clone, Copy, Debug, PartialEq, Eq, Structural)]
pub enum UtilityType {
    NftBenefit,
    Giveaway,
}

/// Whether a utility may be used an unbounded number of times or only
/// `usage` many times.
#[derive(Clone, Copy, Debug, PartialEq, Eq, Structural)]
pub enum UsageType {
    Unlimited,
    Limited,
}

/// How a user becomes eligible for a utility.
#[derive(Clone, Copy, Debug, PartialEq, Eq, Structural)]
pub enum EligibleType {
    NoEligibility,
    NftOwner,
    Whitelist,
}

/// How claimants are selected: everyone, or raffle winners.
#[derive(Clone, Copy, Debug, PartialEq, Eq, Structural)]
pub enum Selection {
    All,
    Raffle,
}

/// The mechanism by which a claimed reward is materialized.
#[derive(Clone, Copy, Debug, PartialEq, Eq, Structural)]
pub enum Receipt {
    NoReceipt,
    MintToken,
    External,
    HTSToken,
}

/// Terminal failure kinds surfaced to the caller; no operation retries.
#[derive(Clone, Copy, Debug, PartialEq, Eq, Structural)]
pub enum UtilityError {
    InvalidTime,
    InsufficientBalance,
    InvalidExpiry,
    NotAuthorized,
    RaffleExpired,
    InvalidRaffleSelection,
    RaffleAlreadyEnded,
    RaffleNotEnded,
    AllRewardsClaimed,
    AlreadyClaimed,
    InvalidReceiptType,
    UtilityNotFound,
    UtilityExpired,
    UsageExceeded,
}

/// Raffle phase of a utility: `ended` moves `false -> true` exactly once.
#[derive(Clone, Copy, Debug, PartialEq, Eq, Structural)]
pub struct Raffle {
    pub start_time: u64,
    pub ended: bool,
}

/// Funded reward attached to a utility.  `token_addresses[0]` is the
/// transfer target; `total_amount` is the remaining pool.
#[derive(Debug)]
pub struct Reward {
    pub receipt: Receipt,
    pub token_addresses: Vec<String>,
    pub total_amount: u64,
    pub amount_per_win: u64,
    pub no_of_winners: u64,
}

/// A provider-issued benefit template.
#[derive(Debug)]
pub struct Utility {
    pub provider: String,
    pub expiry: u64,
    pub usage: u64,
    pub offer_expiry: u64,
    pub partner: String,
    pub utility_uri: String,
    pub expiry_type: ExpiryType,
    pub usage_type: UsageType,
    pub raffle: Raffle,
    pub selection: Selection,
    pub reward: Reward,
}

/// The state of a utility as bound to one specific asset.
#[derive(Clone, Copy, Debug, PartialEq, Eq, Structural)]
pub struct TokenUtility {
    pub usage: u64,
    pub usage_type: UsageType,
    pub expiry: u64,
    pub expiry_type: ExpiryType,
}

/// An admin assertion that `user` may interact with utility `utility_id`;
/// advisory only.
#[derive(Debug)]
pub struct EligibleEntry {
    pub user: String,
    pub utility_id: u64,
}

/// A per-asset instance record: the asset's address and its instance state.
#[derive(Debug)]
pub struct TokenBinding {
    pub token_address: String,
    pub instance: TokenUtility,
}

/// A successful claim of utility `utility_id` by `user`; presence in the
/// claim ledger means "claimed".
#[derive(Debug)]
pub struct ClaimEntry {
    pub utility_id: u64,
    pub user: String,
}

/// Token-service work that a successful claim instructs the host to perform.
#[derive(Debug, PartialEq, Eq)]
pub enum RewardAction {
    /// Mint `amount` units of the token at `token_address` to `to`.
    MintTokens { token_address: String, to: String, amount: u64 },
    /// Transfer `amount` units of the token at `token_address` from the
    /// contract's own holding to `to`.
    TransferTokens { token_address: String, to: String, amount: u64 },
}

/// Mathematical view of a [`Reward`].
#[verifier::ext_equal]
pub ghost struct RewardView {
    pub receipt: Receipt,
    pub token_addresses: Seq<Seq<char>>,
    pub total_amount: u64,
    pub amount_per_win: u64,
    pub no_of_winners: u64,
}

/// Mathematical view of a [`Utility`].
#[verifier::ext_equal]
pub ghost struct UtilityView {
    pub provider: Seq<char>,
    pub expiry: u64,
    pub usage: u64,
    pub offer_expiry: u64,
    pub partner: Seq<char>,
    pub utility_uri: Seq<char>,
    pub expiry_type: ExpiryType,
    pub usage_type: UsageType,
    pub raffle: Raffle,
    pub selection: Selection,
    pub reward: RewardView,
}

/// Mathematical view of an [`EligibleEntry`].
#[verifier::ext_equal]
pub ghost struct EligibleView {
    pub user: Seq<char>,
    pub utility_id: u64,
}

/// Mathematical view of a [`TokenBinding`].
#[verifier::ext_equal]
pub ghost struct BindingView {
    pub token_address: Seq<char>,
    pub instance: TokenUtility,
}

/// Mathematical view of a [`ClaimEntry`].
#[verifier::ext_equal]
pub ghost struct ClaimView {
    pub utility_id: u64,
    pub user: Seq<char>,
}

/// Mathematical view of a [`RewardAction`].
#[verifier::ext_equal]
pub ghost enum RewardActionView {
    MintTokens { token_address: Seq<char>, to: Seq<char>, amount: u64 },
    TransferTokens { token_address: Seq<char>, to: Seq<char>, amount: u64 },
}

impl View for Reward {
    type V = RewardView;

    open spec fn view(&self) -> RewardView {
        RewardView {
            receipt: self.receipt,
            token_addresses: self.token_addresses.deep_view(),
            total_amount: self.total_amount,
            amount_per_win: self.amount_per_win,
            no_of_winners: self.no_of_winners,
        }
    }
}

impl DeepView for Reward {
    type V = RewardView;

    open spec fn deep_view(&self) -> RewardView {
        self.view()
    }
}

impl View for Utility {
    type V = UtilityView;

    open spec fn view(&self) -> UtilityView {
        UtilityView {
            provider: self.provider.view(),
            expiry: self.expiry,
            usage: self.usage,
            offer_expiry: self.offer_expiry,
            partner: self.partner.view(),
            utility_uri: self.utility_uri.view(),
            expiry_type: self.expiry_type,
            usage_type: self.usage_type,
            raffle: self.raffle,
            selection: self.selection,
            reward: self.reward.view(),
        }
    }
}

impl DeepView for Utility {
    type V = UtilityView;

    open spec fn deep_view(&self) -> UtilityView {
        self.view()
    }
}

impl View for EligibleEntry {
    type V = EligibleView;

    open spec fn view(&self) -> EligibleView {
        EligibleView { user: self.user.view(), utility_id: self.utility_id }
    }
}

impl DeepView for EligibleEntry {
    type V = EligibleView;

    open spec fn deep_view(&self) -> EligibleView {
        self.view()
    }
}

impl View for TokenBinding {
    type V = BindingView;

    open spec fn view(&self) -> BindingView {
        BindingView { token_address: self.token_address.view(), instance: self.instance }
    }
}

impl DeepView for TokenBinding {
    type V = BindingView;

    open spec fn deep_view(&self) -> BindingView {
        self.view()
    }
}

impl View for ClaimEntry {
    type V = ClaimView;

    open spec fn view(&self) -> ClaimView {
        ClaimView { utility_id: self.utility_id, user: self.user.view() }
    }
}

impl DeepView for ClaimEntry {
    type V = ClaimView;

    open spec fn deep_view(&self) -> ClaimView {
        self.view()
    }
}

impl View for RewardAction {
    type V = RewardActionView;

    open spec fn view(&self) -> RewardActionView {
        match self {
            RewardAction::MintTokens { token_address, to, amount } => RewardActionView::MintTokens {
                token_address: token_address.view(),
                to: to.view(),
                amount: *amount,
            },
            RewardAction::TransferTokens { token_address, to, amount } => RewardActionView::TransferTokens {
                token_address: token_address.view(),
                to: to.view(),
                amount: *amount,
            },
        }
    }
}

impl Clone for Reward {
    /// Cloning preserves the view.
    fn clone(&self) -> (res: Self)
        ensures
            res.view() == self.view(),
    {
        let token_addresses = self.token_addresses.clone();
        proof {
            assert(token_addresses.deep_view() =~= self.token_addresses.deep_view()) by {
                assert forall|i: int|
                    0 <= i < self.token_addresses.len() implies token_addresses.deep_view()[i]
                    == self.token_addresses.deep_view()[i] by {
                    assert(cloned::<String>(self.token_addresses[i], token_addresses[i]));
                }
            }
        }
        Reward {
            receipt: self.receipt,
            token_addresses,
            total_amount: self.total_amount,
            amount_per_win: self.amount_per_win,
            no_of_winners: self.no_of_winners,
        }
    }
}

impl Clone for Utility {
    /// Cloning preserves the view.
    fn clone(&self) -> (res: Self)
        ensures
            res.view() == self.view(),
    {
        Utility {
            provider: self.provider.clone(),
            expiry: self.expiry,
            usage: self.usage,
            offer_expiry: self.offer_expiry,
            partner: self.partner.clone(),
            utility_uri: self.utility_uri.clone(),
            expiry_type: self.expiry_type,
            usage_type: self.usage_type,
            raffle: self.raffle,
            selection: self.selection,
            reward: self.reward.clone(),
        }
    }
}

/// Decodes a receipt tag: 0 is no receipt, 1 mint, 2 external transfer,
/// 3 HTS; any other tag is rejected as `InvalidExpiry`.
pub fn receipt_from_tag(tag: u32) -> (r: Result<Receipt, UtilityError>)
    ensures
        r == (match tag {
            0u32 => Ok::<Receipt, UtilityError>(Receipt::NoReceipt),
            1u32 => Ok::<Receipt, UtilityError>(Receipt::MintToken),
            2u32 => Ok::<Receipt, UtilityError>(Receipt::External),
            3u32 => Ok::<Receipt, UtilityError>(Receipt::HTSToken),
            _ => Err::<Receipt, UtilityError>(UtilityError::InvalidExpiry),
        }),
{
    match tag {
        0u32 => Ok(Receipt::NoReceipt),
        1u32 => Ok(Receipt::MintToken),
        2u32 => Ok(Receipt::External),
        3u32 => Ok(Receipt::HTSToken),
        _ => Err(UtilityError::InvalidExpiry),
    }
}

/// Decodes a selection tag: 0 is open to all, 1 raffle; any other tag is
/// rejected as `InvalidExpiry`.
pub fn selection_from_tag(tag: u32) -> (r: Result<Selection, UtilityError>)
    ensures
        r == (match tag {
            0u32 => Ok::<Selection, UtilityError>(Selection::All),
            1u32 => Ok::<Selection, UtilityError>(Selection::Raffle),
            _ => Err::<Selection, UtilityError>(UtilityError::InvalidExpiry),
        }),
{
    match tag {
        0u32 => Ok(Selection::All),
        1u32 => Ok(Selection::Raffle),
        _ => Err(UtilityError::InvalidExpiry),
    }
}

/// Decodes a usage-type tag: 0 is unlimited, 1 limited; any other tag is
/// rejected as `InvalidExpiry`.
pub fn usage_type_from_tag(tag: u64) -> (r: Result<UsageType, UtilityError>)
    ensures
        r == (match tag {
            0u64 => Ok::<UsageType, UtilityError>(UsageType::Unlimited),
            1u64 => Ok::<UsageType, UtilityError>(UsageType::Limited),
            _ => Err::<UsageType, UtilityError>(UtilityError::InvalidExpiry),
        }),
{
    match tag {
        0u64 => Ok(UsageType::Unlimited),
        1u64 => Ok(UsageType::Limited),
        _ => Err(UtilityError::InvalidExpiry),
    }
}

/// Decodes an expiry-type tag: 0 is no expiry, 1 time-based, 2 date-based;
/// any other tag is rejected as `InvalidExpiry`.
pub fn expiry_type_from_tag(tag: u64) -> (r: Result<ExpiryType, UtilityError>)
    ensures
        r == (match tag {
            0u64 => Ok::<ExpiryType, UtilityError>(ExpiryType::NoExpiry),
            1u64 => Ok::<ExpiryType, UtilityError>(ExpiryType::TimeBased),
            2u64 => Ok::<ExpiryType, UtilityError>(ExpiryType::DateBased),
            _ => Err::<ExpiryType, UtilityError>(UtilityError::InvalidExpiry),
        }),
{
    match tag {
        0u64 => Ok(ExpiryType::NoExpiry),
        1u64 => Ok(ExpiryType::TimeBased),
        2u64 => Ok(ExpiryType::DateBased),
        _ => Err(UtilityError::InvalidExpiry),
    }
}

} // verus!
