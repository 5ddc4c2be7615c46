use crumbsup_dao::decimal::ratio_of_counts;
use crumbsup_dao::proposal_option::ProposalOption;
use crumbsup_dao::proposal_result::calc_result;
use crumbsup_dao::proposal_vote::ProposalVote;
use crumbsup_dao::utils::create_non_fungible_id_of_uuid;
use crumbsup_dao::Decimal;
use crumbsup_dao::DECIMAL_SCALE;

fn s(x: &str) -> String {
    x.to_string()
}

fn option(id: &str, rank: u32, label: &str) -> ProposalOption {
    ProposalOption::new(s(id), rank, s(label), vec![])
}

fn ballot(id: &str, option_id: &str, nfts: Vec<&str>) -> ProposalVote {
    let nfts: Vec<String> = nfts.into_iter().map(|n| s(n)).collect();
    let power = Decimal::from_count(nfts.len() as u64);
    ProposalVote::new(
        s(id),
        s(option_id),
        s("voter_entity"),
        power,
        nfts,
        s("vote ts"),
        115,
        vec![],
    )
}

#[test]
fn test_tally_no_votes() {
    let options = vec![option("o1", 1, "first"), option("o2", 2, "second")];
    let result = calc_result(&vec![], &options);
    assert_eq!(result.vote_count, 0);
    assert_eq!(result.vote_power.atto, 0);
    assert_eq!(result.results.len(), 2);
    // Zero-vote convention: every option's share is zero.
    assert_eq!(result.results[0].share.atto, 0);
    assert_eq!(result.results[1].share.atto, 0);
}

#[test]
fn test_tally_no_options() {
    let result = calc_result(&vec![], &vec![]);
    assert_eq!(result.vote_count, 0);
    assert_eq!(result.vote_power.atto, 0);
    assert!(result.results.is_empty());
}

#[test]
fn test_tally_counts_and_shares() {
    let options = vec![option("o1", 1, "first"), option("o2", 2, "second")];
    let votes = vec![
        ballot("v1", "o1", vec!["t1", "t2", "t3"]),
        ballot("v2", "o2", vec!["t4"]),
    ];
    let result = calc_result(&votes, &options);
    assert_eq!(result.vote_count, 2);
    assert_eq!(result.vote_power, Decimal::from_count(4));
    assert_eq!(result.results[0].option_id, "o1");
    assert_eq!(result.results[0].option_name, "first");
    // 3 of 4 instances: 0.75 exactly.
    assert_eq!(result.results[0].share.atto, 750_000_000_000_000_000);
    assert_eq!(result.results[1].option_id, "o2");
    assert_eq!(result.results[1].share.atto, 250_000_000_000_000_000);
}

#[test]
fn test_tally_determinism_under_reordering() {
    let options = vec![
        option("o1", 1, "first"),
        option("o2", 2, "second"),
        option("o3", 3, "third"),
    ];
    let votes_a = vec![
        ballot("v1", "o1", vec!["t1", "t2"]),
        ballot("v2", "o2", vec!["t3"]),
        ballot("v3", "o1", vec!["t4", "t5", "t6"]),
    ];
    let votes_b = vec![
        ballot("v3", "o1", vec!["t4", "t5", "t6"]),
        ballot("v1", "o1", vec!["t1", "t2"]),
        ballot("v2", "o2", vec!["t3"]),
    ];
    let ra = calc_result(&votes_a, &options);
    let rb = calc_result(&votes_b, &options);
    assert_eq!(ra.vote_count, rb.vote_count);
    assert_eq!(ra.vote_power, rb.vote_power);
    assert_eq!(ra.results.len(), rb.results.len());
    for i in 0..ra.results.len() {
        assert_eq!(ra.results[i].option_id, rb.results[i].option_id);
        assert_eq!(ra.results[i].option_name, rb.results[i].option_name);
        assert_eq!(ra.results[i].share, rb.results[i].share);
    }
}

#[test]
fn test_tally_share_sum_within_rounding() {
    // One instance on each of three options: each share is a third,
    // truncated, and the three together fall one atto-unit short of one.
    let options = vec![
        option("o1", 1, "first"),
        option("o2", 2, "second"),
        option("o3", 3, "third"),
    ];
    let votes = vec![
        ballot("v1", "o1", vec!["t1"]),
        ballot("v2", "o2", vec!["t2"]),
        ballot("v3", "o3", vec!["t3"]),
    ];
    let result = calc_result(&votes, &options);
    let third: u128 = 333_333_333_333_333_333;
    assert_eq!(result.results[0].share.atto, third);
    assert_eq!(result.results[1].share.atto, third);
    assert_eq!(result.results[2].share.atto, third);
    let sum: u128 = result.results.iter().map(|e| e.share.atto).sum();
    assert_eq!(sum, DECIMAL_SCALE - 1);
}

#[test]
fn test_tally_option_with_no_votes_has_zero_share() {
    let options = vec![option("o1", 1, "first"), option("o2", 2, "second")];
    let votes = vec![ballot("v1", "o1", vec!["t1"])];
    let result = calc_result(&votes, &options);
    assert_eq!(result.results[0].share.atto, DECIMAL_SCALE);
    assert_eq!(result.results[1].share.atto, 0);
}

#[test]
fn test_decimal_arithmetic() {
    assert_eq!(Decimal::zero().atto, 0);
    assert_eq!(Decimal::from_count(7).atto, 7 * DECIMAL_SCALE);
    let a = Decimal::from_count(3);
    let b = Decimal::from_count(2);
    assert_eq!(a.add(b), Decimal::from_count(5));
    assert_eq!(a.sub(b), Decimal::from_count(1));
    assert!(a.ge(b));
    assert!(!b.ge(a));
    assert_eq!(ratio_of_counts(1, 3).atto, 333_333_333_333_333_333);
    assert_eq!(ratio_of_counts(2, 4).atto, 500_000_000_000_000_000);
    assert_eq!(ratio_of_counts(4, 4).atto, DECIMAL_SCALE);
    assert_eq!(ratio_of_counts(0, 5).atto, 0);
}

#[test]
fn test_create_non_fungible_id_of_uuid() {
    assert_eq!(
        create_non_fungible_id_of_uuid("9ca67daa-2f84-4db2-aec3-8deaa2bdd093"),
        "9ca67daa_2f84_4db2_aec3_8deaa2bdd093"
    );
    assert_eq!(create_non_fungible_id_of_uuid("plain_id"), "plain_id");
    assert_eq!(create_non_fungible_id_of_uuid("a-b"), "a_b");
}
