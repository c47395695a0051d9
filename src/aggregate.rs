use vstd::prelude::*;

use crate::participation::{
    calculate_summary, summary_of, ActionVoteRecord, ActionVoterParticipation,
    CommitteeMemberInfo, CommitteeParticipation, DRepParticipation, ParticipationGroup,
    ParticipationSummary, StakePoolParticipation,
};
use crate::stake::StakePool;
use crate::text::str_equal;

verus! {

/// A DRep of the eligible population and its descriptive metadata.
#[derive(Debug, Clone)]
pub struct DRepInfo {
    pub drep_id: String,
    pub given_name: Option<String>,
    pub view: Option<String>,
    pub hex: Option<String>,
    pub has_profile: Option<bool>,
}

/// The three kinds of voter on a governance action.
#[derive(Debug, Clone, Copy, PartialEq, Eq, Structural)]
pub enum VoterCategory {
    DRep,
    StakePool,
    Committee,
}

impl VoterCategory {
    /// The `voter_type` text that vote records carry for this category.
    pub open spec fn tag(self) -> Seq<char> {
        match self {
            VoterCategory::DRep => seq!['d', 'r', 'e', 'p'],
            VoterCategory::StakePool => seq!['s', 't', 'a', 'k', 'e', '_', 'p', 'o', 'o', 'l'],
            VoterCategory::Committee => seq!['c', 'o', 'm', 'm', 'i', 't', 't', 'e', 'e'],
        }
    }

    /// The `voter_type` text that vote records carry for this category.
    pub fn as_str(self) -> (r: &'static str)
        ensures
            r@ == self.tag(),
    {
        proof {
            reveal_strlit("drep");
            reveal_strlit("stake_pool");
            reveal_strlit("committee");
        }
        match self {
            VoterCategory::DRep => {
                assert("drep"@ =~= seq!['d', 'r', 'e', 'p']);
                "drep"
            },
            VoterCategory::StakePool => {
                assert("stake_pool"@ =~= seq!['s', 't', 'a', 'k', 'e', '_', 'p', 'o', 'o', 'l']);
                "stake_pool"
            },
            VoterCategory::Committee => {
                assert("committee"@ =~= seq!['c', 'o', 'm', 'm', 'i', 't', 't', 'e', 'e']);
                "committee"
            },
        }
    }
}

/// The record is a vote of the voter `id` of category `cat`.
pub open spec fn is_vote_of(r: ActionVoteRecord, id: Seq<char>, cat: VoterCategory) -> bool {
    r.voter_identifier@ == id && r.voter_type@ == cat.tag()
}

/// A block time for ordering; an unknown time ranks below every known one.
pub open spec fn time_rank(t: Option<u64>) -> int {
    match t {
        Some(x) => x as int,
        None => -1,
    }
}

/// A certificate index for ordering; an unknown index ranks below every known one.
pub open spec fn index_rank(c: Option<u32>) -> int {
    match c {
        Some(x) => x as int,
        None => -1,
    }
}

/// `a` was cast no earlier than `b`: a later block time, or the same block
/// time and a certificate index at least as large.
pub open spec fn not_earlier(a: ActionVoteRecord, b: ActionVoteRecord) -> bool {
    time_rank(a.block_time) > time_rank(b.block_time) || (time_rank(a.block_time) == time_rank(
        b.block_time,
    ) && index_rank(a.cert_index) >= index_rank(b.cert_index))
}

/// The position of the vote of `id` that counts among the first `n` records:
/// the latest by block time then certificate index, the later record on a
/// full tie.
pub open spec fn latest_vote_in(
    votes: Seq<ActionVoteRecord>,
    id: Seq<char>,
    cat: VoterCategory,
    n: nat,
) -> Option<int>
    decreases n,
{
    if n == 0 {
        None
    } else {
        let prev = latest_vote_in(votes, id, cat, (n - 1) as nat);
        let r = votes[n - 1];
        if is_vote_of(r, id, cat) && (prev is None || not_earlier(r, votes[prev.unwrap()])) {
            Some(n - 1)
        } else {
            prev
        }
    }
}

/// The position of the vote of `id` that counts in the whole vote log.
pub open spec fn latest_vote(votes: Seq<ActionVoteRecord>, id: Seq<char>, cat: VoterCategory) -> Option<int> {
    latest_vote_in(votes, id, cat, votes.len())
}

/// The vote that counts is a vote of that voter, cast no earlier than any
/// other vote of it in the log; a voter has no vote that counts only when the
/// log holds none of its votes.
pub proof fn lemma_latest_vote_wins(
    votes: Seq<ActionVoteRecord>,
    id: Seq<char>,
    cat: VoterCategory,
)
    ensures
        latest_vote(votes, id, cat) is None <==> forall|j: int|
            0 <= j < votes.len() ==> !is_vote_of(#[trigger] votes[j], id, cat),
        latest_vote(votes, id, cat) matches Some(i) ==> {
            &&& 0 <= i < votes.len()
            &&& is_vote_of(votes[i], id, cat)
            &&& forall|j: int|
                0 <= j < votes.len() && is_vote_of(#[trigger] votes[j], id, cat) ==> not_earlier(
                    votes[i],
                    votes[j],
                )
        },
{
    lemma_latest_vote_in(votes, id, cat, votes.len());
}

proof fn lemma_latest_vote_in(
    votes: Seq<ActionVoteRecord>,
    id: Seq<char>,
    cat: VoterCategory,
    n: nat,
)
    requires
        n <= votes.len(),
    ensures
        latest_vote_in(votes, id, cat, n) is None <==> forall|j: int|
            0 <= j < n ==> !is_vote_of(#[trigger] votes[j], id, cat),
        latest_vote_in(votes, id, cat, n) matches Some(i) ==> {
            &&& 0 <= i < n
            &&& is_vote_of(votes[i], id, cat)
            &&& forall|j: int|
                0 <= j < n && is_vote_of(#[trigger] votes[j], id, cat) ==> not_earlier(
                    votes[i],
                    votes[j],
                )
        },
    decreases n,
{
    if n > 0 {
        lemma_latest_vote_in(votes, id, cat, (n - 1) as nat);
    }
}

/// Finds the vote of `id` that counts.
fn find_latest_vote(votes: &Vec<ActionVoteRecord>, id: &String, cat: VoterCategory) -> (r: Option<
    usize,
>)
    ensures
        r matches Some(i) ==> i < votes@.len() && latest_vote(votes@, id@, cat) == Some(i as int),
        r is None ==> latest_vote(votes@, id@, cat) is None,
{
    let tag = cat.as_str();
    let mut best: Option<usize> = None;
    let mut i: usize = 0;
    while i < votes.len()
        invariant
            i <= votes@.len(),
            tag@ == cat.tag(),
            best matches Some(b) ==> b < i && latest_vote_in(votes@, id@, cat, i as nat) == Some(
                b as int,
            ),
            best is None ==> latest_vote_in(votes@, id@, cat, i as nat) is None,
        decreases votes@.len() - i,
    {
        let r = &votes[i];
        if r.voter_identifier == *id && str_equal(r.voter_type.as_str(), tag) {
            let replace = match best {
                None => true,
                Some(b) => {
                    let cur = &votes[b];
                    later_or_same(r, cur)
                },
            };
            if replace {
                best = Some(i);
            }
        }
        i = i + 1;
    }
    best
}

fn time_rank_exec(t: Option<u64>) -> (r: i128)
    ensures
        r as int == time_rank(t),
{
    match t {
        Some(x) => x as i128,
        None => -1,
    }
}

fn index_rank_exec(c: Option<u32>) -> (r: i64)
    ensures
        r as int == index_rank(c),
{
    match c {
        Some(x) => x as i64,
        None => -1,
    }
}

fn later_or_same(a: &ActionVoteRecord, b: &ActionVoteRecord) -> (r: bool)
    ensures
        r == not_earlier(*a, *b),
{
    let ta = time_rank_exec(a.block_time);
    let tb = time_rank_exec(b.block_time);
    ta > tb || (ta == tb && index_rank_exec(a.cert_index) >= index_rank_exec(b.cert_index))
}


/// How many of the flags are set.
pub open spec fn count_true(flags: Seq<bool>) -> nat
    decreases flags.len(),
{
    if flags.len() == 0 {
        0
    } else {
        count_true(flags.drop_last()) + if flags.last() {
            1nat
        } else {
            0nat
        }
    }
}

proof fn lemma_count_true_push(flags: Seq<bool>, b: bool)
    ensures
        count_true(flags.push(b)) == count_true(flags) + if b {
            1nat
        } else {
            0nat
        },
{
    assert(flags.push(b).drop_last() =~= flags);
}

/// A DRep of the population joined with its vote that counts, if any.
pub open spec fn drep_entry(d: DRepInfo, votes: Seq<ActionVoteRecord>) -> DRepParticipation {
    match latest_vote(votes, d.drep_id@, VoterCategory::DRep) {
        Some(i) => DRepParticipation {
            drep_id: d.drep_id,
            given_name: d.given_name,
            view: d.view,
            hex: d.hex,
            has_profile: d.has_profile,
            has_voted: true,
            vote: votes[i].vote,
            voting_power: votes[i].voting_power,
            tx_hash: votes[i].tx_hash,
            cert_index: votes[i].cert_index,
            block_time: votes[i].block_time,
        },
        None => DRepParticipation {
            drep_id: d.drep_id,
            given_name: d.given_name,
            view: d.view,
            hex: d.hex,
            has_profile: d.has_profile,
            has_voted: false,
            vote: None,
            voting_power: None,
            tx_hash: None,
            cert_index: None,
            block_time: None,
        },
    }
}

/// A stake pool of the population joined with its vote that counts, if any.
pub open spec fn pool_entry(p: StakePool, votes: Seq<ActionVoteRecord>) -> StakePoolParticipation {
    match latest_vote(votes, p.pool_id@, VoterCategory::StakePool) {
        Some(i) => StakePoolParticipation {
            pool_id: p.pool_id,
            ticker: p.ticker,
            name: p.name,
            description: p.description,
            homepage: p.homepage,
            has_voted: true,
            vote: votes[i].vote,
            voting_power: votes[i].voting_power,
            tx_hash: votes[i].tx_hash,
            cert_index: votes[i].cert_index,
            block_time: votes[i].block_time,
        },
        None => StakePoolParticipation {
            pool_id: p.pool_id,
            ticker: p.ticker,
            name: p.name,
            description: p.description,
            homepage: p.homepage,
            has_voted: false,
            vote: None,
            voting_power: None,
            tx_hash: None,
            cert_index: None,
            block_time: None,
        },
    }
}

/// A committee member of the population joined with its vote that counts, if any.
pub open spec fn member_entry(m: CommitteeMemberInfo, votes: Seq<ActionVoteRecord>) -> CommitteeParticipation {
    match latest_vote(votes, m.identifier@, VoterCategory::Committee) {
        Some(i) => CommitteeParticipation {
            identifier: m.identifier,
            role: m.role,
            hot_key: m.hot_key,
            cold_key: m.cold_key,
            expiry_epoch: m.expiry_epoch,
            has_voted: true,
            vote: votes[i].vote,
            voting_power: votes[i].voting_power,
            tx_hash: votes[i].tx_hash,
            cert_index: votes[i].cert_index,
            block_time: votes[i].block_time,
        },
        None => CommitteeParticipation {
            identifier: m.identifier,
            role: m.role,
            hot_key: m.hot_key,
            cold_key: m.cold_key,
            expiry_epoch: m.expiry_epoch,
            has_voted: false,
            vote: None,
            voting_power: None,
            tx_hash: None,
            cert_index: None,
            block_time: None,
        },
    }
}

/// The enriched DReps, in population order.
pub open spec fn drep_entries(dreps: Seq<DRepInfo>, votes: Seq<ActionVoteRecord>) -> Seq<DRepParticipation> {
    dreps.map_values(|d: DRepInfo| drep_entry(d, votes))
}

/// The enriched stake pools, in population order.
pub open spec fn pool_entries(pools: Seq<StakePool>, votes: Seq<ActionVoteRecord>) -> Seq<StakePoolParticipation> {
    pools.map_values(|p: StakePool| pool_entry(p, votes))
}

/// The enriched committee members, in population order.
pub open spec fn member_entries(
    members: Seq<CommitteeMemberInfo>,
    votes: Seq<ActionVoteRecord>,
) -> Seq<CommitteeParticipation> {
    members.map_values(|m: CommitteeMemberInfo| member_entry(m, votes))
}

/// The summary of enriched DReps.
pub open spec fn drep_summary(entries: Seq<DRepParticipation>) -> ParticipationSummary {
    summary_of(
        entries.len() as int,
        count_true(entries.map_values(|e: DRepParticipation| e.has_voted)) as int,
    )
}

/// The summary of enriched stake pools.
pub open spec fn pool_summary(entries: Seq<StakePoolParticipation>) -> ParticipationSummary {
    summary_of(
        entries.len() as int,
        count_true(entries.map_values(|e: StakePoolParticipation| e.has_voted)) as int,
    )
}

/// The summary of enriched committee members.
pub open spec fn member_summary(entries: Seq<CommitteeParticipation>) -> ParticipationSummary {
    summary_of(
        entries.len() as int,
        count_true(entries.map_values(|e: CommitteeParticipation| e.has_voted)) as int,
    )
}

/// `r` is the participation report of the given populations against the
/// given vote log.
pub open spec fn is_participation_of(
    r: ActionVoterParticipation,
    dreps: Seq<DRepInfo>,
    pools: Seq<StakePool>,
    members: Seq<CommitteeMemberInfo>,
    votes: Seq<ActionVoteRecord>,
) -> bool {
    &&& r.dreps.participants@ == drep_entries(dreps, votes)
    &&& r.dreps.summary == drep_summary(drep_entries(dreps, votes))
    &&& r.stake_pools.participants@ == pool_entries(pools, votes)
    &&& r.stake_pools.summary == pool_summary(pool_entries(pools, votes))
    &&& r.committee.participants@ == member_entries(members, votes)
    &&& r.committee.summary == member_summary(member_entries(members, votes))
}

fn clone_text(o: &Option<String>) -> (r: Option<String>)
    ensures
        r == *o,
{
    match o {
        Some(s) => Some(s.clone()),
        None => None,
    }
}

fn enrich_drep(d: &DRepInfo, votes: &Vec<ActionVoteRecord>) -> (r: DRepParticipation)
    ensures
        r == drep_entry(*d, votes@),
{
    match find_latest_vote(votes, &d.drep_id, VoterCategory::DRep) {
        Some(i) => {
            let v = &votes[i];
            DRepParticipation {
                drep_id: d.drep_id.clone(),
                given_name: clone_text(&d.given_name),
                view: clone_text(&d.view),
                hex: clone_text(&d.hex),
                has_profile: d.has_profile,
                has_voted: true,
                vote: v.vote,
                voting_power: clone_text(&v.voting_power),
                tx_hash: clone_text(&v.tx_hash),
                cert_index: v.cert_index,
                block_time: v.block_time,
            }
        },
        None => DRepParticipation {
            drep_id: d.drep_id.clone(),
            given_name: clone_text(&d.given_name),
            view: clone_text(&d.view),
            hex: clone_text(&d.hex),
            has_profile: d.has_profile,
            has_voted: false,
            vote: None,
            voting_power: None,
            tx_hash: None,
            cert_index: None,
            block_time: None,
        },
    }
}

fn enrich_pool(p: &StakePool, votes: &Vec<ActionVoteRecord>) -> (r: StakePoolParticipation)
    ensures
        r == pool_entry(*p, votes@),
{
    match find_latest_vote(votes, &p.pool_id, VoterCategory::StakePool) {
        Some(i) => {
            let v = &votes[i];
            StakePoolParticipation {
                pool_id: p.pool_id.clone(),
                ticker: clone_text(&p.ticker),
                name: clone_text(&p.name),
                description: clone_text(&p.description),
                homepage: clone_text(&p.homepage),
                has_voted: true,
                vote: v.vote,
                voting_power: clone_text(&v.voting_power),
                tx_hash: clone_text(&v.tx_hash),
                cert_index: v.cert_index,
                block_time: v.block_time,
            }
        },
        None => StakePoolParticipation {
            pool_id: p.pool_id.clone(),
            ticker: clone_text(&p.ticker),
            name: clone_text(&p.name),
            description: clone_text(&p.description),
            homepage: clone_text(&p.homepage),
            has_voted: false,
            vote: None,
            voting_power: None,
            tx_hash: None,
            cert_index: None,
            block_time: None,
        },
    }
}

fn enrich_member(m: &CommitteeMemberInfo, votes: &Vec<ActionVoteRecord>) -> (r: CommitteeParticipation)
    ensures
        r == member_entry(*m, votes@),
{
    match find_latest_vote(votes, &m.identifier, VoterCategory::Committee) {
        Some(i) => {
            let v = &votes[i];
            CommitteeParticipation {
                identifier: m.identifier.clone(),
                role: clone_text(&m.role),
                hot_key: clone_text(&m.hot_key),
                cold_key: clone_text(&m.cold_key),
                expiry_epoch: m.expiry_epoch,
                has_voted: true,
                vote: v.vote,
                voting_power: clone_text(&v.voting_power),
                tx_hash: clone_text(&v.tx_hash),
                cert_index: v.cert_index,
                block_time: v.block_time,
            }
        },
        None => CommitteeParticipation {
            identifier: m.identifier.clone(),
            role: clone_text(&m.role),
            hot_key: clone_text(&m.hot_key),
            cold_key: clone_text(&m.cold_key),
            expiry_epoch: m.expiry_epoch,
            has_voted: false,
            vote: None,
            voting_power: None,
            tx_hash: None,
            cert_index: None,
            block_time: None,
        },
    }
}

/// Joins the DRep population against the vote log and summarises it.
pub fn drep_group(dreps: &Vec<DRepInfo>, votes: &Vec<ActionVoteRecord>) -> (r: ParticipationGroup<
    DRepParticipation,
>)
    ensures
        r.participants@ == drep_entries(dreps@, votes@),
        r.summary == drep_summary(drep_entries(dreps@, votes@)),
        r.summary.wf(),
{
    let mut out: Vec<DRepParticipation> = Vec::new();
    let mut voted: usize = 0;
    let mut i: usize = 0;
    while i < dreps.len()
        invariant
            i <= dreps@.len(),
            out@ == drep_entries(dreps@.take(i as int), votes@),
            voted == count_true(out@.map_values(|e: DRepParticipation| e.has_voted)),
            voted <= i,
        decreases dreps@.len() - i,
    {
        let e = enrich_drep(&dreps[i], votes);
        let flag = e.has_voted;
        proof {
            let flags = out@.map_values(|e: DRepParticipation| e.has_voted);
            lemma_count_true_push(flags, flag);
            assert(out@.push(e).map_values(|e: DRepParticipation| e.has_voted) =~= flags.push(flag));
            assert(drep_entries(dreps@.take(i + 1), votes@) =~= drep_entries(
                dreps@.take(i as int),
                votes@,
            ).push(e));
        }
        out.push(e);
        if flag {
            voted = voted + 1;
        }
        i = i + 1;
    }
    assert(dreps@.take(i as int) =~= dreps@);
    let summary = calculate_summary(out.as_slice(), voted);
    ParticipationGroup { summary, participants: out }
}

/// Joins the stake pool population against the vote log and summarises it.
pub fn pool_group(pools: &Vec<StakePool>, votes: &Vec<ActionVoteRecord>) -> (r: ParticipationGroup<
    StakePoolParticipation,
>)
    ensures
        r.participants@ == pool_entries(pools@, votes@),
        r.summary == pool_summary(pool_entries(pools@, votes@)),
        r.summary.wf(),
{
    let mut out: Vec<StakePoolParticipation> = Vec::new();
    let mut voted: usize = 0;
    let mut i: usize = 0;
    while i < pools.len()
        invariant
            i <= pools@.len(),
            out@ == pool_entries(pools@.take(i as int), votes@),
            voted == count_true(out@.map_values(|e: StakePoolParticipation| e.has_voted)),
            voted <= i,
        decreases pools@.len() - i,
    {
        let e = enrich_pool(&pools[i], votes);
        let flag = e.has_voted;
        proof {
            let flags = out@.map_values(|e: StakePoolParticipation| e.has_voted);
            lemma_count_true_push(flags, flag);
            assert(out@.push(e).map_values(|e: StakePoolParticipation| e.has_voted) =~= flags.push(
                flag,
            ));
            assert(pool_entries(pools@.take(i + 1), votes@) =~= pool_entries(
                pools@.take(i as int),
                votes@,
            ).push(e));
        }
        out.push(e);
        if flag {
            voted = voted + 1;
        }
        i = i + 1;
    }
    assert(pools@.take(i as int) =~= pools@);
    let summary = calculate_summary(out.as_slice(), voted);
    ParticipationGroup { summary, participants: out }
}

/// Joins the committee population against the vote log and summarises it.
pub fn committee_group(
    members: &Vec<CommitteeMemberInfo>,
    votes: &Vec<ActionVoteRecord>,
) -> (r: ParticipationGroup<CommitteeParticipation>)
    ensures
        r.participants@ == member_entries(members@, votes@),
        r.summary == member_summary(member_entries(members@, votes@)),
        r.summary.wf(),
{
    let mut out: Vec<CommitteeParticipation> = Vec::new();
    let mut voted: usize = 0;
    let mut i: usize = 0;
    while i < members.len()
        invariant
            i <= members@.len(),
            out@ == member_entries(members@.take(i as int), votes@),
            voted == count_true(out@.map_values(|e: CommitteeParticipation| e.has_voted)),
            voted <= i,
        decreases members@.len() - i,
    {
        let e = enrich_member(&members[i], votes);
        let flag = e.has_voted;
        proof {
            let flags = out@.map_values(|e: CommitteeParticipation| e.has_voted);
            lemma_count_true_push(flags, flag);
            assert(out@.push(e).map_values(|e: CommitteeParticipation| e.has_voted) =~= flags.push(
                flag,
            ));
            assert(member_entries(members@.take(i + 1), votes@) =~= member_entries(
                members@.take(i as int),
                votes@,
            ).push(e));
        }
        out.push(e);
        if flag {
            voted = voted + 1;
        }
        i = i + 1;
    }
    assert(members@.take(i as int) =~= members@);
    let summary = calculate_summary(out.as_slice(), voted);
    ParticipationGroup { summary, participants: out }
}

/// Builds the participation report of one governance action: each voter
/// population joined against the action's vote log, with one summary per
/// category.
pub fn build_action_participation(
    dreps: &Vec<DRepInfo>,
    pools: &Vec<StakePool>,
    members: &Vec<CommitteeMemberInfo>,
    votes: &Vec<ActionVoteRecord>,
) -> (r: ActionVoterParticipation)
    ensures
        is_participation_of(r, dreps@, pools@, members@, votes@),
        r.dreps.summary.wf(),
        r.stake_pools.summary.wf(),
        r.committee.summary.wf(),
{
    ActionVoterParticipation {
        dreps: drep_group(dreps, votes),
        stake_pools: pool_group(pools, votes),
        committee: committee_group(members, votes),
    }
}

/// The report is a function of its inputs: two reports of the same
/// populations against the same vote log agree in every summary and every
/// enriched voter.
pub proof fn lemma_participation_deterministic(
    r1: ActionVoterParticipation,
    r2: ActionVoterParticipation,
    dreps: Seq<DRepInfo>,
    pools: Seq<StakePool>,
    members: Seq<CommitteeMemberInfo>,
    votes: Seq<ActionVoteRecord>,
)
    requires
        is_participation_of(r1, dreps, pools, members, votes),
        is_participation_of(r2, dreps, pools, members, votes),
    ensures
        r1.dreps.summary == r2.dreps.summary,
        r1.dreps.participants@ == r2.dreps.participants@,
        r1.stake_pools.summary == r2.stake_pools.summary,
        r1.stake_pools.participants@ == r2.stake_pools.participants@,
        r1.committee.summary == r2.committee.summary,
        r1.committee.participants@ == r2.committee.participants@,
{
}

} // verus!
