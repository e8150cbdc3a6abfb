//! Laws of the state machine, proved once and for all over the transition
//! functions of [`crate::model`].

use vstd::prelude::*;

use crate::model::{
    apply_claim_reward, apply_create_new_utility, apply_end_raffle, apply_redeem_utility_on_nft,
    binding_index, is_admin, is_claimed, valid_id, StateView,
};
use crate::types::{
    Receipt, RewardActionView, Selection, UsageType, UtilityError, UtilityView,
};

verus! {

/// Append-only ids: a successful creation returns the id equal to the number
/// of previously created utilities, appends exactly one entry (the submitted
/// template with the caller recorded as provider), and leaves every
/// previously issued id resolving to unchanged data; a failed creation
/// changes nothing; no creation touches the admin, the eligibility ledger,
/// the instance records or the claim ledger.
pub proof fn lemma_create_append_only(
    s: StateView,
    u: UtilityView,
    caller: Seq<char>,
    now: u64,
    balances: Seq<i128>,
)
    ensures
        ({
            let (s2, r) = apply_create_new_utility(s, u, caller, now, balances);
            &&& (r is Ok ==> s2.utilities.len() == s.utilities.len() + 1 && r == Ok::<
                u64,
                UtilityError,
            >(s.utilities.len() as u64) && s2.utilities[s.utilities.len() as int] == (UtilityView {
                provider: caller,
                ..u
            }))
            &&& forall|j: int| 0 <= j < s.utilities.len() ==> s2.utilities[j] == s.utilities[j]
            &&& (r is Err ==> s2 == s)
            &&& s2.admin == s.admin
            &&& s2.eligible == s.eligible
            &&& s2.bindings == s.bindings
            &&& s2.claims == s.claims
        }),
{
}

/// At most one successful claim per `(utility_id, user)` pair: once the pair
/// stands in the claim ledger, any further claim for it fails and leaves the
/// state unchanged, whoever sends it.
pub proof fn lemma_claim_at_most_once(s: StateView, id: u64, user: Seq<char>, sender: Seq<char>)
    requires
        is_claimed(s, id, user),
    ensures
        apply_claim_reward(s, id, user, sender).0 == s,
        apply_claim_reward(s, id, user, sender).1 is Err,
{
}

/// Claim idempotency: after a successful claim, a repeat with identical
/// arguments fails with `AlreadyClaimed` and leaves everything, the
/// remaining pool included, exactly as the first claim left it.  The proviso
/// is that the pool still funds one payout: on an exhausted pool the repeat
/// fails with `AllRewardsClaimed` instead (see `lemma_claim_exhausted`).
pub proof fn lemma_claim_idempotent(s: StateView, id: u64, user: Seq<char>, sender: Seq<char>)
    requires
        apply_claim_reward(s, id, user, sender).1 is Ok,
        ({
            let s1 = apply_claim_reward(s, id, user, sender).0;
            s1.utilities[id as int].reward.total_amount
                >= s1.utilities[id as int].reward.amount_per_win
        }),
    ensures
        ({
            let s1 = apply_claim_reward(s, id, user, sender).0;
            apply_claim_reward(s1, id, user, sender) == (
                s1,
                Err::<RewardActionView, UtilityError>(UtilityError::AlreadyClaimed),
            )
        }),
{
    let s1 = apply_claim_reward(s, id, user, sender).0;
    assert(is_claimed(s1, id, user)) by {
        assert(s1.claims[s.claims.len() as int].utility_id == id);
        assert(s1.claims[s.claims.len() as int].user == user);
    }
}

/// An under-funded pool refuses every claim: once `total_amount` falls under
/// `amount_per_win`, a claim fails with `AllRewardsClaimed` and changes
/// nothing.
pub proof fn lemma_claim_exhausted(s: StateView, id: u64, user: Seq<char>, sender: Seq<char>)
    requires
        is_admin(s, sender),
        valid_id(s, id),
        s.utilities[id as int].reward.total_amount < s.utilities[id as int].reward.amount_per_win,
    ensures
        apply_claim_reward(s, id, user, sender) == (
            s,
            Err::<RewardActionView, UtilityError>(UtilityError::AllRewardsClaimed),
        ),
{
}

/// State after claiming utility `id` once for each user in `users`, in order.
pub open spec fn apply_claims(
    s: StateView,
    id: u64,
    sender: Seq<char>,
    users: Seq<Seq<char>>,
) -> StateView
    decreases users.len(),
{
    if users.len() == 0 {
        s
    } else {
        apply_claims(
            apply_claim_reward(s, id, users[0], sender).0,
            id,
            sender,
            users.drop_first(),
        )
    }
}

/// Every claim in the sequence succeeds.
pub open spec fn claims_all_succeed(
    s: StateView,
    id: u64,
    sender: Seq<char>,
    users: Seq<Seq<char>>,
) -> bool
    decreases users.len(),
{
    users.len() == 0 || (apply_claim_reward(s, id, users[0], sender).1 is Ok
        && claims_all_succeed(
        apply_claim_reward(s, id, users[0], sender).0,
        id,
        sender,
        users.drop_first(),
    ))
}

/// Pool conservation: claiming a utility once for each of `k` distinct,
/// previously unclaimed users succeeds throughout and leaves
/// `total_amount == initial_total_amount - k * amount_per_win`, as long as
/// the pool funds all `k` payouts, the receipt kind is one that issues
/// (mint or external transfer), and a raffle-selection utility has ended.
pub proof fn lemma_pool_conservation(
    s: StateView,
    id: u64,
    sender: Seq<char>,
    users: Seq<Seq<char>>,
)
    requires
        is_admin(s, sender),
        valid_id(s, id),
        users.no_duplicates(),
        forall|k: int| 0 <= k < users.len() ==> !is_claimed(s, id, #[trigger] users[k]),
        s.utilities[id as int].reward.receipt == Receipt::MintToken || s.utilities[
            id as int
        ].reward.receipt == Receipt::External,
        s.utilities[id as int].reward.token_addresses.len() >= 1,
        s.utilities[id as int].selection == Selection::Raffle ==> s.utilities[
            id as int
        ].raffle.ended,
        s.utilities[id as int].reward.total_amount >= users.len() * s.utilities[
            id as int
        ].reward.amount_per_win,
    ensures
        claims_all_succeed(s, id, sender, users),
        ({
            let s2 = apply_claims(s, id, sender, users);
            &&& s2.utilities.len() == s.utilities.len()
            &&& s2.utilities[id as int].reward.amount_per_win == s.utilities[
                id as int
            ].reward.amount_per_win
            &&& s2.utilities[id as int].reward.total_amount == s.utilities[
                id as int
            ].reward.total_amount - users.len() * s.utilities[id as int].reward.amount_per_win
        }),
    decreases users.len(),
{
    if users.len() > 0 {
        let u = s.utilities[id as int];
        let apw = u.reward.amount_per_win as int;
        let n = users.len() as int;
        assert(n * apw >= 1 * apw) by (nonlinear_arith)
            requires
                n >= 1,
                apw >= 0,
        ;
        let step = apply_claim_reward(s, id, users[0], sender);
        let s1 = step.0;
        assert(step.1 is Ok);
        let rest = users.drop_first();
        assert(rest.no_duplicates()) by {
            assert forall|a: int, b: int|
                0 <= a < rest.len() && 0 <= b < rest.len() && a != b implies rest[a] != rest[b] by {
                assert(rest[a] == users[a + 1]);
                assert(rest[b] == users[b + 1]);
            }
        }
        assert forall|k: int| 0 <= k < rest.len() implies !is_claimed(s1, id, #[trigger] rest[k]) by {
            assert(rest[k] == users[k + 1]);
            assert(users[k + 1] != users[0]);
            if is_claimed(s1, id, rest[k]) {
                let w = choose|w: int|
                    0 <= w < s1.claims.len() && s1.claims[w].utility_id == id && s1.claims[w].user
                        == rest[k];
                if w < s.claims.len() {
                    assert(s1.claims[w] == s.claims[w]);
                    assert(is_claimed(s, id, users[k + 1]));
                } else {
                    assert(s1.claims[w].user == users[0]);
                }
            }
        }
        assert((n - 1) * apw == n * apw - apw) by (nonlinear_arith);
        lemma_pool_conservation(s1, id, sender, rest);
    }
}

/// A raffle ends at most once: a successful `end` leaves the raffle ended,
/// and any further `end` on the same utility fails with `RaffleAlreadyEnded`
/// and changes nothing, whoever sends it and whatever the time.
pub proof fn lemma_end_raffle_once(
    s: StateView,
    id: u64,
    sender: Seq<char>,
    now: u64,
    sender2: Seq<char>,
    now2: u64,
)
    requires
        apply_end_raffle(s, id, sender, now).1 is Ok,
    ensures
        ({
            let s1 = apply_end_raffle(s, id, sender, now).0;
            &&& s1.utilities[id as int].raffle.ended
            &&& apply_end_raffle(s1, id, sender2, now2) == (
                s1,
                Err::<(), UtilityError>(UtilityError::RaffleAlreadyEnded),
            )
        }),
{
}

/// A raffle cannot end early: before `offer_expiry`, `end` by the provider
/// of an open raffle-selection utility fails with `RaffleNotEnded` and
/// changes nothing.
pub proof fn lemma_end_raffle_not_early(s: StateView, id: u64, sender: Seq<char>, now: u64)
    requires
        valid_id(s, id),
        !s.utilities[id as int].raffle.ended,
        s.utilities[id as int].provider == sender,
        s.utilities[id as int].selection == Selection::Raffle,
        now < s.utilities[id as int].offer_expiry,
    ensures
        apply_end_raffle(s, id, sender, now) == (
            s,
            Err::<(), UtilityError>(UtilityError::RaffleNotEnded),
        ),
{
}

/// Redemption usage floor: the template's usage counter never increases and
/// never goes below zero; a successful redemption against a limited-usage
/// instance consumes exactly one unit, and once the counter is zero a
/// redemption that reaches the usage check fails with `UsageExceeded` and
/// changes nothing.
pub proof fn lemma_redeem_usage_floor(
    s: StateView,
    token_address: Seq<char>,
    id: u64,
    is_owner: bool,
    now: u64,
)
    requires
        valid_id(s, id),
    ensures
        ({
            let (s2, r) = apply_redeem_utility_on_nft(s, token_address, id, is_owner, now);
            let limited = match binding_index(s.bindings, token_address) {
                Some(i) => s.bindings[i].instance.usage_type == UsageType::Limited,
                None => false,
            };
            &&& s2.utilities[id as int].usage <= s.utilities[id as int].usage
            &&& (r is Ok && limited ==> s.utilities[id as int].usage >= 1 && s2.utilities[
                id as int
            ].usage == s.utilities[id as int].usage - 1)
            &&& (r is Ok && !limited ==> s2 == s)
            &&& (limited && is_owner && s.utilities[id as int].usage == 0 && !(s.utilities[
                id as int
            ].expiry_type == crate::types::ExpiryType::NoExpiry && (match binding_index(
                s.bindings,
                token_address,
            ) {
                Some(i) => s.bindings[i].instance.expiry < now,
                None => false,
            })) ==> (s2, r) == (s, Err::<(), UtilityError>(UtilityError::UsageExceeded)))
        }),
{
}

} // verus!

