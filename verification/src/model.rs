//! Mathematical model of the contract state and of every operation on it.
//!
//! Each operation is a spec-level transition function from the abstract
//! state (and the caller's identity, the current time, and any collaborator
//! input) to the successor state and the operation's result.  The executable
//! methods in [`crate::contract`] are proved to agree with these functions
//! exactly; the laws in [`crate::laws`] are proved about them.

use vstd::prelude::*;

use crate::types::{
    BindingView, ClaimView, EligibleView, ExpiryType, Receipt, RewardActionView, RewardView,
    Selection, TokenUtility, UsageType, UtilityError, UtilityView,
};

verus! {

/// Abstract state of the whole contract.
#[verifier::ext_equal]
pub ghost struct StateView {
    /// The single admin identity; unset until configured.
    pub admin: Option<Seq<char>>,
    /// Append-only registry of offer templates; index = utility id.
    pub utilities: Seq<UtilityView>,
    /// Append-only advisory eligibility ledger.
    pub eligible: Seq<EligibleView>,
    /// Per-asset instance records, scanned in order; the first record whose
    /// address matches is the asset's instance.
    pub bindings: Seq<BindingView>,
    /// Claim ledger: membership of `(utility_id, user)` means "claimed".
    pub claims: Seq<ClaimView>,
}

/// The state of a freshly deployed contract: nothing set, nothing stored.
pub open spec fn empty_state() -> StateView {
    StateView {
        admin: None,
        utilities: Seq::empty(),
        eligible: Seq::empty(),
        bindings: Seq::empty(),
        claims: Seq::empty(),
    }
}

/// `sender` is the configured admin identity.
pub open spec fn is_admin(s: StateView, sender: Seq<char>) -> bool {
    s.admin == Some(sender)
}

/// `id` denotes an existing registry entry.
pub open spec fn valid_id(s: StateView, id: u64) -> bool {
    id < s.utilities.len()
}

/// `(id, user)` stands in the claim ledger.
pub open spec fn is_claimed(s: StateView, id: u64, user: Seq<char>) -> bool {
    exists|i: int|
        0 <= i < s.claims.len() && s.claims[i].utility_id == id && s.claims[i].user == user
}

/// Index of the first instance record for `addr`, if any.
pub open spec fn binding_index(bs: Seq<BindingView>, addr: Seq<char>) -> Option<int>
    decreases bs.len(),
{
    if bs.len() == 0 {
        None
    } else if bs[0].token_address == addr {
        Some(0int)
    } else {
        match binding_index(bs.drop_first(), addr) {
            Some(i) => Some(i + 1),
            None => None,
        }
    }
}

/// The first instance record for `addr`, if any.
pub open spec fn find_binding(s: StateView, addr: Seq<char>) -> Option<TokenUtility> {
    match binding_index(s.bindings, addr) {
        Some(i) => Some(s.bindings[i].instance),
        None => None,
    }
}

pub proof fn lemma_binding_index_first(bs: Seq<BindingView>, addr: Seq<char>, i: int)
    requires
        0 <= i < bs.len(),
        bs[i].token_address == addr,
        forall|j: int| 0 <= j < i ==> bs[j].token_address != addr,
    ensures
        binding_index(bs, addr) == Some(i),
    decreases i,
{
    if i > 0 {
        lemma_binding_index_first(bs.drop_first(), addr, i - 1);
    }
}

pub proof fn lemma_binding_index_none(bs: Seq<BindingView>, addr: Seq<char>)
    requires
        forall|j: int| 0 <= j < bs.len() ==> bs[j].token_address != addr,
    ensures
        binding_index(bs, addr) is None,
    decreases bs.len(),
{
    if bs.len() > 0 {
        lemma_binding_index_none(bs.drop_first(), addr);
    }
}

/// Configuration: records `admin` as the admin identity and resets the
/// registry to empty; the rest of the state is untouched.
pub open spec fn apply_setup_config(s: StateView, admin: Seq<char>) -> StateView {
    StateView { admin: Some(admin), utilities: Seq::empty(), ..s }
}

/// What `get_config` answers: the admin identity, or the sentinel when no
/// admin has been set.
pub open spec fn config_view(s: StateView) -> Seq<char> {
    match s.admin {
        Some(a) => a,
        None => "No Admin Set"@,
    }
}

/// Creation of a new utility.  The stored provider is always `caller`,
/// whatever the submitted template holds.  `balances` is the provider's
/// balance in each listed reward token, in the same order, as reported by
/// the token service; it gates only external-receipt rewards.
///
/// On success the template is appended and the result is the new id, equal
/// to the number of previously created utilities.
pub open spec fn apply_create_new_utility(
    s: StateView,
    u: UtilityView,
    caller: Seq<char>,
    now: u64,
    balances: Seq<i128>,
) -> (StateView, Result<u64, UtilityError>) {
    let u2 = UtilityView { provider: caller, ..u };
    if u2.selection == Selection::Raffle && (u2.raffle.start_time < now || u2.raffle.start_time
        > u2.offer_expiry) {
        (s, Err(UtilityError::InvalidTime))
    } else if u2.reward.receipt == Receipt::External && (exists|i: int|
        0 <= i < balances.len() && balances[i] < 1) {
        (s, Err(UtilityError::InsufficientBalance))
    } else if u2.offer_expiry < now {
        (s, Err(UtilityError::InvalidExpiry))
    } else if u2.usage_type == UsageType::Limited && u2.usage < 1 {
        (s, Err(UtilityError::InvalidExpiry))
    } else if (u2.expiry_type == ExpiryType::TimeBased || u2.expiry_type == ExpiryType::DateBased)
        && u2.expiry < now {
        (s, Err(UtilityError::InvalidExpiry))
    } else {
        (
            StateView { utilities: s.utilities.push(u2), ..s },
            Ok(s.utilities.len() as u64),
        )
    }
}

/// Joining a raffle mutates nothing: it only validates, and on success the
/// host publishes a join event for `user`.
pub open spec fn apply_join_raffle(
    s: StateView,
    id: u64,
    sender: Seq<char>,
    now: u64,
) -> Result<(), UtilityError> {
    if !valid_id(s, id) {
        Err(UtilityError::UtilityNotFound)
    } else {
        let u = s.utilities[id as int];
        if u.provider != sender {
            Err(UtilityError::NotAuthorized)
        } else if u.offer_expiry < now {
            Err(UtilityError::RaffleExpired)
        } else if u.selection != Selection::Raffle || u.raffle.ended {
            Err(UtilityError::InvalidRaffleSelection)
        } else {
            Ok(())
        }
    }
}

/// Ending a raffle: the only transition out of the open phase, possible only
/// once, only by the provider, and only once `offer_expiry` has passed.
pub open spec fn apply_end_raffle(
    s: StateView,
    id: u64,
    sender: Seq<char>,
    now: u64,
) -> (StateView, Result<(), UtilityError>) {
    if !valid_id(s, id) {
        (s, Err(UtilityError::UtilityNotFound))
    } else {
        let u = s.utilities[id as int];
        if u.raffle.ended {
            (s, Err(UtilityError::RaffleAlreadyEnded))
        } else if u.provider != sender {
            (s, Err(UtilityError::NotAuthorized))
        } else if u.selection != Selection::Raffle {
            (s, Err(UtilityError::InvalidRaffleSelection))
        } else if now < u.offer_expiry {
            (s, Err(UtilityError::RaffleNotEnded))
        } else {
            let u2 = UtilityView {
                raffle: crate::types::Raffle { start_time: u.raffle.start_time, ended: true },
                ..u
            };
            (StateView { utilities: s.utilities.update(id as int, u2), ..s }, Ok(()))
        }
    }
}

/// All of `claim_reward`'s validations pass, so the operation commits its
/// writes and reaches the receipt dispatch.
pub open spec fn claim_reaches_dispatch(
    s: StateView,
    id: u64,
    user: Seq<char>,
    sender: Seq<char>,
) -> bool {
    &&& is_admin(s, sender)
    &&& valid_id(s, id)
    &&& s.utilities[id as int].reward.total_amount >= s.utilities[id as int].reward.amount_per_win
    &&& (s.utilities[id as int].selection == Selection::Raffle ==> s.utilities[id as int].raffle.ended)
    &&& !is_claimed(s, id, user)
}

/// Admin-mediated, at-most-once reward claim.  Once every validation passes
/// the claim is recorded and the pool decremented; the receipt kind then
/// either instructs the host to mint or transfer, or fails
/// `InvalidReceiptType` with the recorded state kept.
pub open spec fn apply_claim_reward(
    s: StateView,
    id: u64,
    user: Seq<char>,
    sender: Seq<char>,
) -> (StateView, Result<RewardActionView, UtilityError>) {
    if !is_admin(s, sender) {
        (s, Err(UtilityError::NotAuthorized))
    } else if !valid_id(s, id) {
        (s, Err(UtilityError::UtilityNotFound))
    } else {
        let u = s.utilities[id as int];
        if u.reward.total_amount < u.reward.amount_per_win {
            (s, Err(UtilityError::AllRewardsClaimed))
        } else if u.selection == Selection::Raffle && !u.raffle.ended {
            (s, Err(UtilityError::RaffleNotEnded))
        } else if is_claimed(s, id, user) {
            (s, Err(UtilityError::AlreadyClaimed))
        } else {
            let u2 = UtilityView {
                reward: RewardView {
                    total_amount: (u.reward.total_amount - u.reward.amount_per_win) as u64,
                    ..u.reward
                },
                ..u
            };
            let s2 = StateView {
                utilities: s.utilities.update(id as int, u2),
                claims: s.claims.push(ClaimView { utility_id: id, user }),
                ..s
            };
            match u.reward.receipt {
                Receipt::MintToken => (
                    s2,
                    Ok(RewardActionView::MintTokens {
                        token_address: u.reward.token_addresses[0],
                        to: user,
                        amount: u.reward.amount_per_win,
                    }),
                ),
                Receipt::External => (
                    s2,
                    Ok(RewardActionView::TransferTokens {
                        token_address: u.reward.token_addresses[0],
                        to: user,
                        amount: u.reward.amount_per_win,
                    }),
                ),
                _ => (s2, Err(UtilityError::InvalidReceiptType)),
            }
        }
    }
}

/// The executable claim result agrees with the model's: same error, or an
/// action whose view is the model's action.
pub open spec fn action_matches(
    r: Result<crate::types::RewardAction, UtilityError>,
    rv: Result<RewardActionView, UtilityError>,
) -> bool {
    match (r, rv) {
        (Ok(a), Ok(av)) => a@ == av,
        (Err(e), Err(ev)) => e == ev,
        _ => false,
    }
}

/// Admin-only append to the advisory eligibility ledger; never de-duplicated.
pub open spec fn apply_mark_eligible(
    s: StateView,
    id: u64,
    user: Seq<char>,
    sender: Seq<char>,
) -> (StateView, Result<(), UtilityError>) {
    if !is_admin(s, sender) {
        (s, Err(UtilityError::NotAuthorized))
    } else {
        (
            StateView { eligible: s.eligible.push(EligibleView { user, utility_id: id }), ..s },
            Ok(()),
        )
    }
}

/// All of `claim_utitlity_on_nft`'s validations pass, so the operation
/// updates the asset's instance record.
pub open spec fn bind_reaches_update(
    s: StateView,
    token_address: Seq<char>,
    id: u64,
    sender: Seq<char>,
) -> bool {
    &&& is_admin(s, sender)
    &&& valid_id(s, id)
    &&& s.utilities[id as int].provider == sender
    &&& binding_index(s.bindings, token_address) is Some
}

/// Binding a utility template to an asset's existing instance record: the
/// instance must already exist; a limited-usage instance copies the
/// template's remaining usage; the instance expiry becomes `expiry + now`
/// for time-based templates, `expiry` verbatim for date-based ones, and is
/// left unchanged otherwise.
pub open spec fn apply_claim_utitlity_on_nft(
    s: StateView,
    token_address: Seq<char>,
    id: u64,
    sender: Seq<char>,
    now: u64,
) -> (StateView, Result<(), UtilityError>) {
    if !is_admin(s, sender) {
        (s, Err(UtilityError::NotAuthorized))
    } else if !valid_id(s, id) {
        (s, Err(UtilityError::UtilityNotFound))
    } else if s.utilities[id as int].provider != sender {
        (s, Err(UtilityError::NotAuthorized))
    } else {
        match binding_index(s.bindings, token_address) {
            None => (s, Err(UtilityError::UtilityNotFound)),
            Some(i) => {
                let u = s.utilities[id as int];
                let b = s.bindings[i];
                let inst = b.instance;
                let inst2 = TokenUtility {
                    usage: if inst.usage_type == UsageType::Limited {
                        u.usage
                    } else {
                        inst.usage
                    },
                    usage_type: inst.usage_type,
                    expiry: if u.expiry_type == ExpiryType::TimeBased {
                        (u.expiry + now) as u64
                    } else if u.expiry_type == ExpiryType::DateBased {
                        u.expiry
                    } else {
                        inst.expiry
                    },
                    expiry_type: inst.expiry_type,
                };
                (
                    StateView {
                        bindings: s.bindings.update(
                            i,
                            BindingView { token_address: b.token_address, instance: inst2 },
                        ),
                        ..s
                    },
                    Ok(()),
                )
            },
        }
    }
}

/// Redemption of a utility on an asset.  `is_owner` is the asset service's
/// answer to whether the redeeming user holds the asset.  A limited-usage
/// instance consumes one unit of the shared template's usage counter.
pub open spec fn apply_redeem_utility_on_nft(
    s: StateView,
    token_address: Seq<char>,
    id: u64,
    is_owner: bool,
    now: u64,
) -> (StateView, Result<(), UtilityError>) {
    if !is_owner {
        (s, Err(UtilityError::NotAuthorized))
    } else if !valid_id(s, id) {
        (s, Err(UtilityError::UtilityNotFound))
    } else {
        match binding_index(s.bindings, token_address) {
            None => (s, Err(UtilityError::UtilityNotFound)),
            Some(i) => {
                let u = s.utilities[id as int];
                let inst = s.bindings[i].instance;
                if u.expiry_type == ExpiryType::NoExpiry && inst.expiry < now {
                    (s, Err(UtilityError::UtilityExpired))
                } else if inst.usage_type == UsageType::Limited {
                    if u.usage == 0 {
                        (s, Err(UtilityError::UsageExceeded))
                    } else {
                        let u2 = UtilityView { usage: (u.usage - 1) as u64, ..u };
                        (StateView { utilities: s.utilities.update(id as int, u2), ..s }, Ok(()))
                    }
                } else {
                    (s, Ok(()))
                }
            },
        }
    }
}

/// Read-only eligibility probe.  An empty registry degrades to `false`; any
/// other missing datum is still `UtilityNotFound`.  The usage clause reads
/// the template's usage type and the instance's counter.
pub open spec fn apply_check_utility(
    s: StateView,
    token_address: Seq<char>,
    id: u64,
    now: u64,
) -> Result<bool, UtilityError> {
    if s.utilities.len() == 0 {
        Ok(false)
    } else if !valid_id(s, id) {
        Err(UtilityError::UtilityNotFound)
    } else {
        match binding_index(s.bindings, token_address) {
            None => Err(UtilityError::UtilityNotFound),
            Some(i) => {
                let u = s.utilities[id as int];
                let inst = s.bindings[i].instance;
                Ok(
                    !((u.expiry_type == ExpiryType::NoExpiry && inst.expiry < now) || (u.usage_type
                        != UsageType::Limited && inst.usage == 0)),
                )
            },
        }
    }
}

} // verus!
