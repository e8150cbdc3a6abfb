//! Executable contract state and operations, each proved to agree with the
//! transition functions of [`crate::model`].
//!
//! The host around this library is expected to load the state, pass the
//! caller's identity, the clock reading and any token-service answers in as
//! plain values, store the resulting state, and perform the returned
//! actions (token mints/transfers, event publication).

use vstd::prelude::*;

use crate::model::{
    apply_check_utility, apply_claim_reward, apply_claim_utitlity_on_nft,
    apply_create_new_utility, apply_end_raffle, apply_join_raffle, apply_mark_eligible,
    apply_redeem_utility_on_nft, apply_setup_config, action_matches, bind_reaches_update,
    binding_index, claim_reaches_dispatch, config_view, empty_state, find_binding, is_admin,
    is_claimed, lemma_binding_index_first, lemma_binding_index_none, valid_id, StateView,
};
use crate::types::{
    ClaimEntry, EligibleEntry, ExpiryType, Receipt, RewardAction, Selection, TokenBinding,
    TokenUtility, UsageType, Utility, UtilityError,
};

verus! {

/// The whole contract state as one explicit value.
///
/// The fields are public because the surrounding host owns durability: it
/// materializes the state from its store before a call and persists it
/// afterwards.  Per-asset instance records in `token_utilities` must be
/// seeded by the host; no operation creates one.
pub struct UtilityContract {
    /// The single admin identity; unset until `setup_config` runs.
    pub admin: Option<String>,
    /// Append-only registry of offer templates; index = utility id.
    pub utilities: Vec<Utility>,
    /// Append-only advisory eligibility ledger.
    pub eligible: Vec<EligibleEntry>,
    /// Per-asset instance records, scanned in order.
    pub token_utilities: Vec<TokenBinding>,
    /// Claim ledger: an entry per successful claim.
    pub claims: Vec<ClaimEntry>,
}

impl View for UtilityContract {
    type V = StateView;

    open spec fn view(&self) -> StateView {
        StateView {
            admin: match self.admin {
                Some(a) => Some(a@),
                None => None,
            },
            utilities: self.utilities.deep_view(),
            eligible: self.eligible.deep_view(),
            bindings: self.token_utilities.deep_view(),
            claims: self.claims.deep_view(),
        }
    }
}

impl UtilityContract {
    /// A freshly deployed contract: no admin, nothing stored.
    pub fn new() -> (s: Self)
        ensures
            s@ == empty_state(),
    {
        let s = UtilityContract {
            admin: None,
            utilities: Vec::new(),
            eligible: Vec::new(),
            token_utilities: Vec::new(),
            claims: Vec::new(),
        };
        proof {
            assert(s@ =~= empty_state());
        }
        s
    }

    /// Records `admin` as the admin identity and initializes an empty
    /// registry; returns the identity just recorded.
    pub fn setup_config(&mut self, admin: String) -> (r: String)
        ensures
            final(self)@ == apply_setup_config(old(self)@, admin@),
            r@ == admin@,
    {
        self.admin = Some(admin.clone());
        self.utilities = Vec::new();
        proof {
            assert(self@ =~= apply_setup_config(old(self)@, admin@));
        }
        admin
    }

    /// The admin identity, or the sentinel value when no admin is set.
    pub fn get_config(&self) -> (r: String)
        ensures
            r@ == config_view(self@),
    {
        match &self.admin {
            Some(a) => a.clone(),
            None => "No Admin Set".to_owned(),
        }
    }

    /// `sender` equals the configured admin identity.
    fn sender_is_admin(&self, sender: &String) -> (r: bool)
        ensures
            r == is_admin(self@, sender@),
    {
        match &self.admin {
            Some(a) => *a == *sender,
            None => false,
        }
    }

    /// `(utility_id, user)` already stands in the claim ledger.
    fn contains_claim(&self, utility_id: u64, user: &String) -> (r: bool)
        ensures
            r == is_claimed(self@, utility_id, user@),
    {
        let mut i: usize = 0;
        while i < self.claims.len()
            invariant
                i <= self.claims.len(),
                forall|j: int|
                    0 <= j < i ==> !(self@.claims[j].utility_id == utility_id
                        && self@.claims[j].user == user@),
            decreases self.claims.len() - i,
        {
            let c = &self.claims[i];
            if c.utility_id == utility_id && c.user == *user {
                proof {
                    assert(self@.claims[i as int].utility_id == utility_id
                        && self@.claims[i as int].user == user@);
                }
                return true;
            }
            i += 1;
        }
        false
    }

    /// Position of the first instance record for `token_address`, if any.
    fn find_binding_index(&self, token_address: &String) -> (r: Option<usize>)
        ensures
            match r {
                Some(i) => i < self.token_utilities.len() && binding_index(
                    self@.bindings,
                    token_address@,
                ) == Some(i as int),
                None => binding_index(self@.bindings, token_address@) is None,
            },
    {
        let mut i: usize = 0;
        while i < self.token_utilities.len()
            invariant
                i <= self.token_utilities.len(),
                forall|j: int| 0 <= j < i ==> self@.bindings[j].token_address != token_address@,
            decreases self.token_utilities.len() - i,
        {
            if self.token_utilities[i].token_address == *token_address {
                proof {
                    lemma_binding_index_first(self@.bindings, token_address@, i as int);
                }
                return Some(i);
            }
            i += 1;
        }
        proof {
            lemma_binding_index_none(self@.bindings, token_address@);
        }
        None
    }

    /// Creates a new utility offer.  The stored provider is always `caller`.
    /// `provider_balances` is the provider's balance in each reward token,
    /// in `token_addresses` order, as read from the token service; for an
    /// external-receipt reward the host must also perform the one-unit
    /// reservation transfer per token on success.
    #[verifier::loop_isolation(false)]
    pub fn create_new_utility(
        &mut self,
        utility: Utility,
        caller: String,
        now: u64,
        provider_balances: &Vec<i128>,
    ) -> (r: Result<u64, UtilityError>)
        requires
            utility.reward.receipt == Receipt::External ==> provider_balances@.len()
                == utility.reward.token_addresses@.len(),
        ensures
            final(self)@ == apply_create_new_utility(
                old(self)@,
                utility@,
                caller@,
                now,
                provider_balances@,
            ).0,
            r == apply_create_new_utility(
                old(self)@,
                utility@,
                caller@,
                now,
                provider_balances@,
            ).1,
    {
        let mut u = utility;
        u.provider = caller;
        if u.selection == Selection::Raffle && (u.raffle.start_time < now || u.raffle.start_time
            > u.offer_expiry) {
            return Err(UtilityError::InvalidTime);
        }
        if u.reward.receipt == Receipt::External {
            let mut i: usize = 0;
            while i < provider_balances.len()
                invariant
                    i <= provider_balances.len(),
                    forall|j: int| 0 <= j < i ==> provider_balances@[j] >= 1,
                decreases provider_balances.len() - i,
            {
                if provider_balances[i] < 1 {
                    proof {
                        assert(exists|k: int|
                            0 <= k < provider_balances@.len() && provider_balances@[k] < 1) by {
                            assert(provider_balances@[i as int] < 1);
                        }
                    }
                    return Err(UtilityError::InsufficientBalance);
                }
                i += 1;
            }
        }
        if u.offer_expiry < now {
            return Err(UtilityError::InvalidExpiry);
        }
        if u.usage_type == UsageType::Limited && u.usage < 1 {
            return Err(UtilityError::InvalidExpiry);
        }
        if (u.expiry_type == ExpiryType::TimeBased || u.expiry_type == ExpiryType::DateBased)
            && u.expiry < now {
            return Err(UtilityError::InvalidExpiry);
        }
        let id = self.utilities.len() as u64;
        self.utilities.push(u);
        proof {
            assert(self@ =~= apply_create_new_utility(
                old(self)@,
                utility@,
                caller@,
                now,
                provider_balances@,
            ).0);
        }
        Ok(id)
    }

    /// Looks a utility up by id.
    pub fn get_utility(&self, utility_id: u64) -> (r: Result<Utility, UtilityError>)
        ensures
            match r {
                Ok(u) => valid_id(self@, utility_id) && u@ == self@.utilities[utility_id as int],
                Err(e) => !valid_id(self@, utility_id) && e == UtilityError::UtilityNotFound,
            },
    {
        if utility_id < self.utilities.len() as u64 {
            Ok(self.utilities[utility_id as usize].clone())
        } else {
            Err(UtilityError::UtilityNotFound)
        }
    }

    /// The instance record bound to `token_address`, scanning in order.
    pub fn get_token_utility(&self, token_address: &String) -> (r: Result<
        TokenUtility,
        UtilityError,
    >)
        ensures
            r == (match find_binding(self@, token_address@) {
                Some(t) => Ok::<TokenUtility, UtilityError>(t),
                None => Err::<TokenUtility, UtilityError>(UtilityError::UtilityNotFound),
            }),
    {
        match self.find_binding_index(token_address) {
            Some(i) => Ok(self.token_utilities[i].instance),
            None => Err(UtilityError::UtilityNotFound),
        }
    }

    /// Validates a raffle join; mutates nothing.  On success the host
    /// publishes a join event for `user`.
    #[allow(unused_variables)]
    pub fn join_raffle(&self, utility_id: u64, sender: &String, user: &String, now: u64) -> (r:
        Result<(), UtilityError>)
        ensures
            r == apply_join_raffle(self@, utility_id, sender@, now),
    {
        if !(utility_id < self.utilities.len() as u64) {
            return Err(UtilityError::UtilityNotFound);
        }
        let u = &self.utilities[utility_id as usize];
        if !(u.provider == *sender) {
            return Err(UtilityError::NotAuthorized);
        }
        if u.offer_expiry < now {
            return Err(UtilityError::RaffleExpired);
        }
        if !(u.selection == Selection::Raffle) || u.raffle.ended {
            return Err(UtilityError::InvalidRaffleSelection);
        }
        Ok(())
    }

    /// Ends a raffle: only once, only by the provider, only at or after
    /// `offer_expiry`.
    pub fn end_raffle(&mut self, utility_id: u64, sender: &String, now: u64) -> (r: Result<
        (),
        UtilityError,
    >)
        ensures
            final(self)@ == apply_end_raffle(old(self)@, utility_id, sender@, now).0,
            r == apply_end_raffle(old(self)@, utility_id, sender@, now).1,
    {
        if !(utility_id < self.utilities.len() as u64) {
            return Err(UtilityError::UtilityNotFound);
        }
        let i = utility_id as usize;
        if self.utilities[i].raffle.ended {
            return Err(UtilityError::RaffleAlreadyEnded);
        }
        if !(self.utilities[i].provider == *sender) {
            return Err(UtilityError::NotAuthorized);
        }
        if !(self.utilities[i].selection == Selection::Raffle) {
            return Err(UtilityError::InvalidRaffleSelection);
        }
        if now < self.utilities[i].offer_expiry {
            return Err(UtilityError::RaffleNotEnded);
        }
        let mut u = self.utilities[i].clone();
        u.raffle.ended = true;
        self.utilities.set(i, u);
        proof {
            assert(self@ =~= apply_end_raffle(old(self)@, utility_id, sender@, now).0);
        }
        Ok(())
    }

    /// Admin-mediated, at-most-once reward claim.  On `Ok` the host must
    /// perform the returned token action and publish a claim event.
    ///
    /// A claim that passes every validation reads the first reward token
    /// unconditionally, so the caller must make sure one is configured on
    /// the utility it dispatches for; a host that does not aborts there,
    /// before any token is issued.
    pub fn claim_reward(&mut self, utility_id: u64, user: String, sender: &String) -> (r: Result<
        RewardAction,
        UtilityError,
    >)
        requires
            claim_reaches_dispatch(old(self)@, utility_id, user@, sender@) ==> old(
                self,
            )@.utilities[utility_id as int].reward.token_addresses.len() >= 1,
        ensures
            final(self)@ == apply_claim_reward(old(self)@, utility_id, user@, sender@).0,
            action_matches(r, apply_claim_reward(old(self)@, utility_id, user@, sender@).1),
    {
        if !self.sender_is_admin(sender) {
            return Err(UtilityError::NotAuthorized);
        }
        if !(utility_id < self.utilities.len() as u64) {
            return Err(UtilityError::UtilityNotFound);
        }
        let i = utility_id as usize;
        if self.utilities[i].reward.total_amount < self.utilities[i].reward.amount_per_win {
            return Err(UtilityError::AllRewardsClaimed);
        }
        if self.utilities[i].selection == Selection::Raffle && !self.utilities[i].raffle.ended {
            return Err(UtilityError::RaffleNotEnded);
        }
        if self.contains_claim(utility_id, &user) {
            return Err(UtilityError::AlreadyClaimed);
        }
        let mut u = self.utilities[i].clone();
        u.reward.total_amount = u.reward.total_amount - u.reward.amount_per_win;
        let amount = u.reward.amount_per_win;
        let receipt = u.reward.receipt;
        let token_address = u.reward.token_addresses[0].clone();
        self.utilities.set(i, u);
        self.claims.push(ClaimEntry { utility_id, user: user.clone() });
        proof {
            assert(self@ =~= apply_claim_reward(old(self)@, utility_id, user@, sender@).0);
        }
        match receipt {
            Receipt::MintToken => Ok(RewardAction::MintTokens { token_address, to: user, amount }),
            Receipt::External => Ok(
                RewardAction::TransferTokens { token_address, to: user, amount },
            ),
            _ => Err(UtilityError::InvalidReceiptType),
        }
    }

    /// Admin-only append to the advisory eligibility ledger.
    pub fn mark_eligible(&mut self, utility_id: u64, user: String, sender: &String) -> (r: Result<
        (),
        UtilityError,
    >)
        ensures
            final(self)@ == apply_mark_eligible(old(self)@, utility_id, user@, sender@).0,
            r == apply_mark_eligible(old(self)@, utility_id, user@, sender@).1,
    {
        if !self.sender_is_admin(sender) {
            return Err(UtilityError::NotAuthorized);
        }
        self.eligible.push(EligibleEntry { user, utility_id });
        proof {
            assert(self@ =~= apply_mark_eligible(old(self)@, utility_id, user@, sender@).0);
        }
        Ok(())
    }

    /// Binds the utility template to an asset's existing instance record.
    /// On success the host publishes a bind event for `user`.
    #[allow(unused_variables)]
    pub fn claim_utitlity_on_nft(
        &mut self,
        token_address: &String,
        utility_id: u64,
        user: &String,
        sender: &String,
        now: u64,
    ) -> (r: Result<(), UtilityError>)
        requires
            (bind_reaches_update(old(self)@, token_address@, utility_id, sender@) && old(
                self,
            )@.utilities[utility_id as int].expiry_type == ExpiryType::TimeBased) ==> old(
                self,
            )@.utilities[utility_id as int].expiry + now <= u64::MAX,
        ensures
            final(self)@ == apply_claim_utitlity_on_nft(
                old(self)@,
                token_address@,
                utility_id,
                sender@,
                now,
            ).0,
            r == apply_claim_utitlity_on_nft(old(self)@, token_address@, utility_id, sender@, now).1,
    {
        if !self.sender_is_admin(sender) {
            return Err(UtilityError::NotAuthorized);
        }
        if !(utility_id < self.utilities.len() as u64) {
            return Err(UtilityError::UtilityNotFound);
        }
        let i = utility_id as usize;
        if !(self.utilities[i].provider == *sender) {
            return Err(UtilityError::NotAuthorized);
        }
        let bi = match self.find_binding_index(token_address) {
            Some(bi) => bi,
            None => {
                return Err(UtilityError::UtilityNotFound);
            },
        };
        let inst = self.token_utilities[bi].instance;
        let usage = if inst.usage_type == UsageType::Limited {
            self.utilities[i].usage
        } else {
            inst.usage
        };
        let expiry = if self.utilities[i].expiry_type == ExpiryType::TimeBased {
            self.utilities[i].expiry + now
        } else if self.utilities[i].expiry_type == ExpiryType::DateBased {
            self.utilities[i].expiry
        } else {
            inst.expiry
        };
        let inst2 = TokenUtility {
            usage,
            usage_type: inst.usage_type,
            expiry,
            expiry_type: inst.expiry_type,
        };
        let addr = self.token_utilities[bi].token_address.clone();
        self.token_utilities.set(bi, TokenBinding { token_address: addr, instance: inst2 });
        proof {
            assert(self@ =~= apply_claim_utitlity_on_nft(
                old(self)@,
                token_address@,
                utility_id,
                sender@,
                now,
            ).0);
        }
        Ok(())
    }

    /// Redeems the utility on an asset.  `is_owner` is the asset service's
    /// answer to whether `user` holds the asset.  On success the host
    /// publishes a redemption event.
    #[allow(unused_variables)]
    pub fn redeem_utility_on_nft(
        &mut self,
        token_address: &String,
        utility_id: u64,
        user: &String,
        is_owner: bool,
        now: u64,
    ) -> (r: Result<(), UtilityError>)
        ensures
            final(self)@ == apply_redeem_utility_on_nft(
                old(self)@,
                token_address@,
                utility_id,
                is_owner,
                now,
            ).0,
            r == apply_redeem_utility_on_nft(old(self)@, token_address@, utility_id, is_owner, now).1,
    {
        if !is_owner {
            return Err(UtilityError::NotAuthorized);
        }
        if !(utility_id < self.utilities.len() as u64) {
            return Err(UtilityError::UtilityNotFound);
        }
        let i = utility_id as usize;
        let bi = match self.find_binding_index(token_address) {
            Some(bi) => bi,
            None => {
                return Err(UtilityError::UtilityNotFound);
            },
        };
        let inst = self.token_utilities[bi].instance;
        if self.utilities[i].expiry_type == ExpiryType::NoExpiry && inst.expiry < now {
            return Err(UtilityError::UtilityExpired);
        }
        if inst.usage_type == UsageType::Limited {
            if self.utilities[i].usage == 0 {
                return Err(UtilityError::UsageExceeded);
            }
            let mut u = self.utilities[i].clone();
            u.usage = u.usage - 1;
            self.utilities.set(i, u);
            proof {
                assert(self@ =~= apply_redeem_utility_on_nft(
                    old(self)@,
                    token_address@,
                    utility_id,
                    is_owner,
                    now,
                ).0);
            }
        }
        Ok(())
    }

    /// Read-only eligibility probe; see [`apply_check_utility`].
    pub fn check_utility(&self, token_address: &String, utility_id: u64, now: u64) -> (r: Result<
        bool,
        UtilityError,
    >)
        ensures
            r == apply_check_utility(self@, token_address@, utility_id, now),
    {
        if self.utilities.len() == 0 {
            return Ok(false);
        }
        if !(utility_id < self.utilities.len() as u64) {
            return Err(UtilityError::UtilityNotFound);
        }
        let i = utility_id as usize;
        let inst = match self.find_binding_index(token_address) {
            Some(bi) => self.token_utilities[bi].instance,
            None => {
                return Err(UtilityError::UtilityNotFound);
            },
        };
        let mut response = true;
        if self.utilities[i].expiry_type == ExpiryType::NoExpiry && inst.expiry < now {
            response = false;
        }
        if !(self.utilities[i].usage_type == UsageType::Limited) && inst.usage == 0 {
            response = false;
        }
        Ok(response)
    }
}

} // verus!
