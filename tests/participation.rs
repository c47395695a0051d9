use govparticipation::aggregate::{build_action_participation, DRepInfo, VoterCategory};
use govparticipation::participation::{
    calculate_summary, ActionVoteRecord, CommitteeMemberInfo, VoteChoice,
};
use govparticipation::stake::StakePool;
use govparticipation::text::{eq_ignore_ascii_case, str_equal};

fn drep(id: &str) -> DRepInfo {
    DRepInfo {
        drep_id: id.to_string(),
        given_name: None,
        view: None,
        hex: None,
        has_profile: None,
    }
}

fn vote(id: &str, kind: &str, choice: VoteChoice, time: Option<u64>, cert: Option<u32>) -> ActionVoteRecord {
    ActionVoteRecord {
        voter_identifier: id.to_string(),
        voter_type: kind.to_string(),
        vote: Some(choice),
        voting_power: Some("100".to_string()),
        tx_hash: Some(format!("tx-{}-{:?}-{:?}", id, time, cert)),
        cert_index: cert,
        block_time: time,
    }
}

#[test]
fn vote_labels_parse_leniently() {
    assert_eq!(VoteChoice::from_str("yes"), Some(VoteChoice::Yes));
    assert_eq!(VoteChoice::from_str("YES"), Some(VoteChoice::Yes));
    assert_eq!(VoteChoice::from_str("No"), Some(VoteChoice::No));
    assert_eq!(VoteChoice::from_str("abstain"), Some(VoteChoice::Abstain));
    assert_eq!(VoteChoice::from_str("Abstention"), Some(VoteChoice::Abstain));
    assert_eq!(VoteChoice::from_str("abstenstion"), Some(VoteChoice::Abstain));
    assert_eq!(VoteChoice::from_str("maybe"), None);
    assert_eq!(VoteChoice::from_str(""), None);
    assert_eq!(VoteChoice::from_str("yess"), None);
}

#[test]
fn summary_of_empty_population_has_no_turnout() {
    let empty: Vec<u8> = Vec::new();
    let s = calculate_summary(&empty, 0);
    assert_eq!(s.total_eligible, 0);
    assert_eq!(s.total_voted, 0);
    assert_eq!(s.total_missing, 0);
    assert_eq!(s.turnout_basis_points, None);
}

#[test]
fn summary_turnout_is_rounded_down_basis_points() {
    let pop = vec![1u8, 2, 3];
    let s = calculate_summary(&pop, 1);
    assert_eq!(s.total_missing, 2);
    assert_eq!(s.turnout_basis_points, Some(3333));
    let s = calculate_summary(&pop, 2);
    assert_eq!(s.turnout_basis_points, Some(6666));
    let s = calculate_summary(&pop, 3);
    assert_eq!(s.turnout_basis_points, Some(10000));
    assert_eq!(s.total_missing, 0);
}

#[test]
fn end_to_end_one_of_three_dreps_voted() {
    let dreps = vec![drep("A"), drep("B"), drep("C")];
    let votes = vec![vote("A", "drep", VoteChoice::Yes, Some(10), None)];
    let r = build_action_participation(&dreps, &Vec::new(), &Vec::new(), &votes);
    let s = &r.dreps.summary;
    assert_eq!(s.total_eligible, 3);
    assert_eq!(s.total_voted, 1);
    assert_eq!(s.total_missing, 2);
    assert_eq!(s.turnout_basis_points, Some(3333));
    let p = &r.dreps.participants;
    assert_eq!(p.len(), 3);
    assert_eq!(p[0].drep_id, "A");
    assert!(p[0].has_voted);
    assert_eq!(p[0].vote, Some(VoteChoice::Yes));
    assert_eq!(p[0].block_time, Some(10));
    assert_eq!(p[1].drep_id, "B");
    assert!(!p[1].has_voted);
    assert_eq!(p[1].vote, None);
    assert_eq!(p[2].drep_id, "C");
    assert!(!p[2].has_voted);
    assert_eq!(r.stake_pools.summary.total_eligible, 0);
    assert_eq!(r.stake_pools.summary.turnout_basis_points, None);
    assert_eq!(r.committee.summary.turnout_basis_points, None);
}

#[test]
fn later_vote_wins_on_revote() {
    let dreps = vec![drep("A")];
    let votes = vec![
        vote("A", "drep", VoteChoice::Yes, Some(200), Some(0)),
        vote("A", "drep", VoteChoice::No, Some(100), Some(5)),
    ];
    let r = build_action_participation(&dreps, &Vec::new(), &Vec::new(), &votes);
    assert_eq!(r.dreps.participants[0].vote, Some(VoteChoice::Yes));
    assert_eq!(r.dreps.participants[0].block_time, Some(200));
    let votes = vec![
        vote("A", "drep", VoteChoice::No, Some(100), Some(5)),
        vote("A", "drep", VoteChoice::Yes, Some(200), Some(0)),
    ];
    let r = build_action_participation(&dreps, &Vec::new(), &Vec::new(), &votes);
    assert_eq!(r.dreps.participants[0].vote, Some(VoteChoice::Yes));
    assert_eq!(r.dreps.summary.total_voted, 1);
}

#[test]
fn same_block_revote_goes_by_certificate_index() {
    let dreps = vec![drep("A")];
    let votes = vec![
        vote("A", "drep", VoteChoice::Abstain, Some(50), Some(3)),
        vote("A", "drep", VoteChoice::No, Some(50), Some(1)),
    ];
    let r = build_action_participation(&dreps, &Vec::new(), &Vec::new(), &votes);
    assert_eq!(r.dreps.participants[0].vote, Some(VoteChoice::Abstain));
    assert_eq!(r.dreps.participants[0].cert_index, Some(3));
}

#[test]
fn votes_join_by_category_and_keep_metadata() {
    let pools = vec![StakePool {
        pool_id: "pool1".to_string(),
        hex: None,
        ticker: Some("TICK".to_string()),
        name: None,
        description: None,
        homepage: Some("https://pool.example".to_string()),
        retiring_epoch: None,
    }];
    let members = vec![
        CommitteeMemberInfo {
            identifier: "M1".to_string(),
            role: Some("member".to_string()),
            hot_key: Some("hot".to_string()),
            cold_key: None,
            expiry_epoch: Some(600),
        },
        CommitteeMemberInfo {
            identifier: "M2".to_string(),
            role: None,
            hot_key: None,
            cold_key: None,
            expiry_epoch: None,
        },
    ];
    let dreps = vec![drep("pool1")];
    let votes = vec![
        vote("pool1", VoterCategory::StakePool.as_str(), VoteChoice::No, Some(7), Some(0)),
        vote("M2", VoterCategory::Committee.as_str(), VoteChoice::Yes, None, None),
    ];
    let r = build_action_participation(&dreps, &pools, &members, &votes);
    assert!(!r.dreps.participants[0].has_voted);
    let p = &r.stake_pools.participants[0];
    assert!(p.has_voted);
    assert_eq!(p.vote, Some(VoteChoice::No));
    assert_eq!(p.ticker.as_deref(), Some("TICK"));
    assert_eq!(p.homepage.as_deref(), Some("https://pool.example"));
    assert_eq!(p.voting_power.as_deref(), Some("100"));
    assert_eq!(r.stake_pools.summary.turnout_basis_points, Some(10000));
    let m = &r.committee.participants;
    assert!(!m[0].has_voted);
    assert_eq!(m[0].role.as_deref(), Some("member"));
    assert_eq!(m[0].expiry_epoch, Some(600));
    assert!(m[1].has_voted);
    assert_eq!(m[1].vote, Some(VoteChoice::Yes));
    assert_eq!(r.committee.summary.total_voted, 1);
    assert_eq!(r.committee.summary.total_missing, 1);
    assert_eq!(r.committee.summary.turnout_basis_points, Some(5000));
}

#[test]
fn aggregation_is_deterministic() {
    let dreps = vec![drep("A"), drep("B")];
    let votes = vec![
        vote("B", "drep", VoteChoice::No, Some(3), Some(1)),
        vote("A", "drep", VoteChoice::Yes, Some(4), None),
    ];
    let r1 = build_action_participation(&dreps, &Vec::new(), &Vec::new(), &votes);
    let r2 = build_action_participation(&dreps, &Vec::new(), &Vec::new(), &votes);
    assert_eq!(format!("{:?}", r1), format!("{:?}", r2));
}

#[test]
fn summaries_balance_for_any_population() {
    let dreps = vec![drep("A"), drep("B"), drep("C"), drep("D")];
    let votes = vec![
        vote("A", "drep", VoteChoice::Yes, Some(1), None),
        vote("A", "drep", VoteChoice::No, Some(2), None),
        vote("Z", "drep", VoteChoice::No, Some(2), None),
        vote("C", "committee", VoteChoice::No, Some(2), None),
    ];
    let r = build_action_participation(&dreps, &Vec::new(), &Vec::new(), &votes);
    let s = &r.dreps.summary;
    assert_eq!(s.total_voted + s.total_missing, s.total_eligible);
    assert_eq!(s.total_voted, 1);
    assert_eq!(s.turnout_basis_points, Some(2500));
}

#[test]
fn text_comparisons() {
    assert!(eq_ignore_ascii_case("AbStAiN", "abstain"));
    assert!(!eq_ignore_ascii_case("abstai", "abstain"));
    assert!(!eq_ignore_ascii_case("yés", "yes"));
    assert!(str_equal("drep", "drep"));
    assert!(!str_equal("drep", "DRep"));
    assert!(!str_equal("drep", "dre"));
}
