//! The stake-balance classifier and aggregator.
//!
//! A stake account's balance is split into the four states stake can be in:
//! inactive, activating, active and deactivating. The activation schedule
//! itself is the external staking protocol's own algorithm; this module's
//! responsibility is the residual: `inactive` is the account balance minus
//! the three delegated parts, and that subtraction underflowing signals an
//! upstream inconsistency, reported as a failure rather than a wrapped
//! value. Balances are summable pointwise, and summation conserves the
//! total.

use vstd::prelude::*;

use crate::token::Lamports;

verus! {

#[verifier::external_type_specification]
#[verifier::external_body]
pub struct ExDelegation(solana_program::stake::state::Delegation);

#[verifier::external_type_specification]
#[verifier::external_body]
pub struct ExClock(solana_program::clock::Clock);

#[verifier::external_type_specification]
#[verifier::external_body]
pub struct ExStakeHistory(solana_program::stake_history::StakeHistory);

#[verifier::external_type_specification]
#[verifier::external_body]
pub struct ExStakeHistoryEntry(solana_program::stake_history::StakeHistoryEntry);

/// The balance of a stake account, split into the four states stake can be
/// in. The four fields sum to the account's balance exactly.
#[derive(Clone, Copy, Debug, PartialEq, Eq, Structural)]
pub struct StakeBalance {
    /// Stake that is not delegated.
    pub inactive: Lamports,
    /// Stake warming up, not yet earning.
    pub activating: Lamports,
    /// Stake that is fully active.
    pub active: Lamports,
    /// Stake cooling down, still locked.
    pub deactivating: Lamports,
}

/// The pointwise sum of a sequence of balances, one component per field:
/// (inactive, activating, active, deactivating).
pub open spec fn spec_sum(s: Seq<StakeBalance>) -> (int, int, int, int)
    decreases s.len(),
{
    if s.len() == 0 {
        (0int, 0int, 0int, 0int)
    } else {
        let prev = spec_sum(s.drop_last());
        (
            prev.0 + s.last().inactive.0,
            prev.1 + s.last().activating.0,
            prev.2 + s.last().active.0,
            prev.3 + s.last().deactivating.0,
        )
    }
}

/// The sum of the totals of a sequence of balances.
pub open spec fn spec_total_of_seq(s: Seq<StakeBalance>) -> int
    decreases s.len(),
{
    if s.len() == 0 {
        0
    } else {
        spec_total_of_seq(s.drop_last()) + s.last().spec_total()
    }
}

/// Relies on solana_program::stake::state::Delegation::
/// stake_activating_and_deactivating: the external staking protocol's own
/// activation algorithm, which splits the delegation's stake at the target
/// epoch into effective, activating and deactivating lamports, using the
/// cluster-wide stake history. Its cooldown loop adds entitlements with
/// unchecked arithmetic, so degenerate history data (a near-maximal
/// effective stake against a tiny deactivating total) can abort it under
/// debug overflow checks; the inputs are opaque here, so no precondition
/// can rule that out, and the caller constrains whatever comes back
/// instead.
#[verifier::external_body]
fn stake_activating_and_deactivating(
    delegation: &solana_program::stake::state::Delegation,
    target_epoch: u64,
    history: &solana_program::stake_history::StakeHistory,
    new_rate_activation_epoch: Option<u64>,
) -> (u64, u64, u64) {
    let status = delegation.stake_activating_and_deactivating(
        target_epoch,
        history,
        new_rate_activation_epoch,
    );
    (status.effective, status.activating, status.deactivating)
}

/// Relies on the Clock sysvar record: its `epoch` field is the epoch the
/// snapshot was taken in.
#[verifier::external_body]
fn clock_epoch(clock: &solana_program::clock::Clock) -> u64 {
    clock.epoch
}

impl StakeBalance {
    /// The sum of the four fields.
    pub open spec fn spec_total(&self) -> int {
        self.inactive.0 + self.activating.0 + self.active.0 + self.deactivating.0
    }

    /// The balance with nothing in any state.
    pub fn zero() -> (r: StakeBalance)
        ensures
            r.inactive.0 == 0,
            r.activating.0 == 0,
            r.active.0 == 0,
            r.deactivating.0 == 0,
    {
        StakeBalance {
            inactive: Lamports(0),
            activating: Lamports(0),
            active: Lamports(0),
            deactivating: Lamports(0),
        }
    }

    /// Classify an account balance given the three delegated parts: the
    /// residual is inactive. Yields `None` exactly where the parts exceed
    /// the balance, which no consistent data can produce.
    pub fn from_parts(
        account_lamports: Lamports,
        active: Lamports,
        activating: Lamports,
        deactivating: Lamports,
    ) -> (r: Option<StakeBalance>)
        ensures
            r is Some <==> active.0 + activating.0 + deactivating.0 <= account_lamports.0,
            r matches Some(b) ==> {
                &&& b.active == active
                &&& b.activating == activating
                &&& b.deactivating == deactivating
                &&& b.inactive.0 == account_lamports.0 - active.0 - activating.0 - deactivating.0
                &&& b.spec_total() == account_lamports.0
            },
    {
        let after_active = account_lamports.checked_sub(active)?;
        let after_activating = after_active.checked_sub(activating)?;
        let inactive = after_activating.checked_sub(deactivating)?;
        Some(StakeBalance { inactive, activating, active, deactivating })
    }

    /// Extract the stake balance from a delegated stake account at the
    /// epoch of the given clock. The activation split is the external
    /// staking protocol's algorithm; whatever it yields, a returned balance
    /// conserves the account's lamports exactly, and `None` reports the
    /// fatal inconsistency of parts exceeding the balance.
    pub fn from_delegated_account(
        account_lamports: Lamports,
        delegation: &solana_program::stake::state::Delegation,
        clock: &solana_program::clock::Clock,
        stake_history: &solana_program::stake_history::StakeHistory,
        new_rate_activation_epoch: Option<u64>,
    ) -> (r: Option<StakeBalance>)
        ensures
            r matches Some(b) ==> b.spec_total() == account_lamports.0,
    {
        let target_epoch = clock_epoch(clock);
        let (active, activating, deactivating) = stake_activating_and_deactivating(
            delegation,
            target_epoch,
            stake_history,
            new_rate_activation_epoch,
        );
        StakeBalance::from_parts(
            account_lamports,
            Lamports(active),
            Lamports(activating),
            Lamports(deactivating),
        )
    }

    /// Pointwise checked addition of two balances.
    pub fn checked_add(self, other: StakeBalance) -> (r: Option<StakeBalance>)
        ensures
            r is Some <==> {
                &&& self.inactive.0 + other.inactive.0 <= u64::MAX
                &&& self.activating.0 + other.activating.0 <= u64::MAX
                &&& self.active.0 + other.active.0 <= u64::MAX
                &&& self.deactivating.0 + other.deactivating.0 <= u64::MAX
            },
            r matches Some(b) ==> {
                &&& b.inactive.0 == self.inactive.0 + other.inactive.0
                &&& b.activating.0 == self.activating.0 + other.activating.0
                &&& b.active.0 == self.active.0 + other.active.0
                &&& b.deactivating.0 == self.deactivating.0 + other.deactivating.0
            },
    {
        let inactive = self.inactive.checked_add(other.inactive)?;
        let activating = self.activating.checked_add(other.activating)?;
        let active = self.active.checked_add(other.active)?;
        let deactivating = self.deactivating.checked_add(other.deactivating)?;
        Some(StakeBalance { inactive, activating, active, deactivating })
    }

    /// Fold pointwise addition over a validator's stake-account balances.
    /// An empty sequence sums to the zero balance; a pointwise overflow
    /// yields `None` rather than a wrapped value.
    pub fn sum(balances: &Vec<StakeBalance>) -> (r: Option<StakeBalance>)
        ensures
            ({
                let t = spec_sum(balances@);
                &&& (r is Some <==> t.0 <= u64::MAX && t.1 <= u64::MAX && t.2 <= u64::MAX && t.3
                    <= u64::MAX)
                &&& r matches Some(b) ==> b.inactive.0 == t.0 && b.activating.0 == t.1
                    && b.active.0 == t.2 && b.deactivating.0 == t.3
            }),
    {
        let mut accumulator = StakeBalance::zero();
        let n = balances.len();
        let mut i: usize = 0;
        proof {
            assert(balances@.subrange(0, 0) =~= Seq::<StakeBalance>::empty());
        }
        while i < n
            invariant
                i <= n,
                n == balances@.len(),
                accumulator.inactive.0 == spec_sum(balances@.subrange(0, i as int)).0,
                accumulator.activating.0 == spec_sum(balances@.subrange(0, i as int)).1,
                accumulator.active.0 == spec_sum(balances@.subrange(0, i as int)).2,
                accumulator.deactivating.0 == spec_sum(balances@.subrange(0, i as int)).3,
            decreases n - i,
        {
            proof {
                assert(balances@.subrange(0, i + 1).drop_last() =~= balances@.subrange(
                    0,
                    i as int,
                ));
                assert(balances@.subrange(0, i + 1).last() == balances@[i as int]);
            }
            accumulator = match accumulator.checked_add(balances[i]) {
                Some(b) => b,
                None => {
                    proof {
                        lemma_sum_prefix_le(balances@, i + 1);
                    }
                    return None;
                },
            };
            i = i + 1;
        }
        proof {
            assert(balances@.subrange(0, n as int) =~= balances@);
        }
        Some(accumulator)
    }
}

/// Each component of the pointwise sum of a prefix is at most the same
/// component of the whole sum.
proof fn lemma_sum_prefix_le(s: Seq<StakeBalance>, i: int)
    requires
        0 <= i <= s.len(),
    ensures
        spec_sum(s.subrange(0, i)).0 <= spec_sum(s).0,
        spec_sum(s.subrange(0, i)).1 <= spec_sum(s).1,
        spec_sum(s.subrange(0, i)).2 <= spec_sum(s).2,
        spec_sum(s.subrange(0, i)).3 <= spec_sum(s).3,
    decreases s.len() - i,
{
    if i == s.len() {
        assert(s.subrange(0, i) =~= s);
    } else {
        lemma_sum_prefix_le(s.drop_last(), i);
        assert(s.drop_last().subrange(0, i) =~= s.subrange(0, i));
    }
}

/// Law: pointwise summation conserves the total. The four components of the
/// summed balance add up to the sum of the per-account totals, so an
/// aggregate built from conserving per-account balances conserves the sum
/// of their account balances.
pub proof fn lemma_sum_conserves_total(s: Seq<StakeBalance>)
    ensures
        ({
            let t = spec_sum(s);
            t.0 + t.1 + t.2 + t.3 == spec_total_of_seq(s)
        }),
    decreases s.len(),
{
    if s.len() > 0 {
        lemma_sum_conserves_total(s.drop_last());
    }
}

} // verus!
