use vstd::prelude::*;

use crate::text::{eq_ignore_ascii_case, spells};

verus! {

/// A vote cast on a governance action.
#[derive(Debug, Clone, Copy, PartialEq, Eq, Structural)]
pub enum VoteChoice {
    Yes,
    No,
    Abstain,
}

/// The vote that a free-text vote label denotes, if any.
pub open spec fn vote_choice_of(s: Seq<char>) -> Option<VoteChoice> {
    if spells(s, seq!['y', 'e', 's']) {
        Some(VoteChoice::Yes)
    } else if spells(s, seq!['n', 'o']) {
        Some(VoteChoice::No)
    } else if spells(s, seq!['a', 'b', 's', 't', 'a', 'i', 'n'])
        || spells(s, seq!['a', 'b', 's', 't', 'e', 'n', 's', 't', 'i', 'o', 'n'])
        || spells(s, seq!['a', 'b', 's', 't', 'e', 'n', 't', 'i', 'o', 'n']) {
        Some(VoteChoice::Abstain)
    } else {
        None
    }
}

impl VoteChoice {
    /// Reads a vote label leniently: `yes`, `no`, and `abstain` (also spelled
    /// `abstention` or `abstenstion`), in any ASCII letter case. Any other
    /// text gives `None`.
    pub fn from_str(value: &str) -> (r: Option<VoteChoice>)
        ensures
            r == vote_choice_of(value@),
    {
        proof {
            reveal_strlit("yes");
            reveal_strlit("no");
            reveal_strlit("abstain");
            reveal_strlit("abstenstion");
            reveal_strlit("abstention");
            assert("yes"@ =~= seq!['y', 'e', 's']);
            assert("no"@ =~= seq!['n', 'o']);
            assert("abstain"@ =~= seq!['a', 'b', 's', 't', 'a', 'i', 'n']);
            assert("abstenstion"@ =~= seq!['a', 'b', 's', 't', 'e', 'n', 's', 't', 'i', 'o', 'n']);
            assert("abstention"@ =~= seq!['a', 'b', 's', 't', 'e', 'n', 't', 'i', 'o', 'n']);
        }
        if eq_ignore_ascii_case(value, "yes") {
            Some(VoteChoice::Yes)
        } else if eq_ignore_ascii_case(value, "no") {
            Some(VoteChoice::No)
        } else if eq_ignore_ascii_case(value, "abstain") || eq_ignore_ascii_case(value, "abstenstion")
            || eq_ignore_ascii_case(value, "abstention") {
            Some(VoteChoice::Abstain)
        } else {
            None
        }
    }
}


/// Turnout counts for one voter category.
///
/// `turnout_basis_points` is the turnout in hundredths of a percent, rounded
/// down (3333 stands for 33.33%); it is absent for an empty population.
#[derive(Debug, Clone, PartialEq, Eq, Structural)]
pub struct ParticipationSummary {
    pub total_eligible: usize,
    pub total_voted: usize,
    pub total_missing: usize,
    pub turnout_basis_points: Option<u64>,
}

/// The turnout of `voted` out of `total`, in hundredths of a percent, rounded
/// down; absent when `total` is zero.
pub open spec fn turnout_of(voted: int, total: int) -> Option<u64> {
    if total > 0 {
        Some(((10000 * voted) / total) as u64)
    } else {
        None
    }
}

/// The summary of a population of `total` voters of whom `voted` voted.
pub open spec fn summary_of(total: int, voted: int) -> ParticipationSummary {
    ParticipationSummary {
        total_eligible: total as usize,
        total_voted: voted as usize,
        total_missing: (total - voted) as usize,
        turnout_basis_points: turnout_of(voted, total),
    }
}

impl ParticipationSummary {
    /// The counts are consistent: voters who voted and voters who did not
    /// make up the whole population, and the turnout matches the counts.
    pub open spec fn wf(&self) -> bool {
        &&& self.total_voted <= self.total_eligible
        &&& self.total_voted + self.total_missing == self.total_eligible
        &&& self.turnout_basis_points == turnout_of(
            self.total_voted as int,
            self.total_eligible as int,
        )
    }
}

/// One voter category's summary together with its enriched voters, in the
/// category's listing order.
#[derive(Debug, Clone)]
pub struct ParticipationGroup<T> {
    pub summary: ParticipationSummary,
    pub participants: Vec<T>,
}

/// A vote event on one governance action, as the data provider reports it.
#[derive(Debug, Clone)]
pub struct ActionVoteRecord {
    pub voter_identifier: String,
    pub voter_type: String,
    pub vote: Option<VoteChoice>,
    pub voting_power: Option<String>,
    pub tx_hash: Option<String>,
    pub cert_index: Option<u32>,
    pub block_time: Option<u64>,
}

/// A DRep of the eligible population, with its vote on the action if any.
#[derive(Debug, Clone)]
pub struct DRepParticipation {
    pub drep_id: String,
    pub given_name: Option<String>,
    pub view: Option<String>,
    pub hex: Option<String>,
    pub has_profile: Option<bool>,
    pub has_voted: bool,
    pub vote: Option<VoteChoice>,
    pub voting_power: Option<String>,
    pub tx_hash: Option<String>,
    pub cert_index: Option<u32>,
    pub block_time: Option<u64>,
}

/// A stake pool of the eligible population, with its vote on the action if any.
#[derive(Debug, Clone)]
pub struct StakePoolParticipation {
    pub pool_id: String,
    pub ticker: Option<String>,
    pub name: Option<String>,
    pub description: Option<String>,
    pub homepage: Option<String>,
    pub has_voted: bool,
    pub vote: Option<VoteChoice>,
    pub voting_power: Option<String>,
    pub tx_hash: Option<String>,
    pub cert_index: Option<u32>,
    pub block_time: Option<u64>,
}

/// A constitutional committee member, as the data provider lists it.
#[derive(Debug, Clone)]
pub struct CommitteeMemberInfo {
    pub identifier: String,
    pub role: Option<String>,
    pub hot_key: Option<String>,
    pub cold_key: Option<String>,
    pub expiry_epoch: Option<u32>,
}

/// A committee member of the eligible population, with its vote on the
/// action if any.
#[derive(Debug, Clone)]
pub struct CommitteeParticipation {
    pub identifier: String,
    pub role: Option<String>,
    pub hot_key: Option<String>,
    pub cold_key: Option<String>,
    pub expiry_epoch: Option<u32>,
    pub has_voted: bool,
    pub vote: Option<VoteChoice>,
    pub voting_power: Option<String>,
    pub tx_hash: Option<String>,
    pub cert_index: Option<u32>,
    pub block_time: Option<u64>,
}

/// The participation of the three voter categories in one governance action.
#[derive(Debug, Clone)]
pub struct ActionVoterParticipation {
    pub dreps: ParticipationGroup<DRepParticipation>,
    pub stake_pools: ParticipationGroup<StakePoolParticipation>,
    pub committee: ParticipationGroup<CommitteeParticipation>,
}

/// Summarises a population of `participants.len()` voters of whom `voted`
/// voted. The number of voters who voted cannot exceed the population.
pub fn calculate_summary<T>(participants: &[T], voted: usize) -> (r: ParticipationSummary)
    requires
        voted <= participants@.len(),
    ensures
        r == summary_of(participants@.len() as int, voted as int),
        r.wf(),
{
    let total = participants.len();
    let missing = total - voted;
    let turnout_basis_points = if total > 0 {
        proof {
            let v = voted as int;
            let t = total as int;
            assert((10000 * v) / t <= 10000) by (nonlinear_arith)
                requires
                    0 <= v <= t,
                    t > 0,
            ;
        }
        Some(((voted as u128 * 10000) / total as u128) as u64)
    } else {
        None
    };
    ParticipationSummary {
        total_eligible: total,
        total_voted: voted,
        total_missing: missing,
        turnout_basis_points,
    }
}

} // verus!
