use crumbsup_dao::DaoAdminBadge;
use crumbsup_dao::DaoError;
use crumbsup_dao::DaoHoard;
use crumbsup_dao::Decimal;
use crumbsup_dao::TokenProof;
use crumbsup_dao::DECIMAL_SCALE;

const TOKEN_HEX: &str = "5da66318c6318c61f5a61b4c6318c6318cf794aa8d295f14e6318c6318c6";

fn s(x: &str) -> String {
    x.to_string()
}

fn new_hoard(price: u64) -> DaoHoard {
    DaoHoard::dao_hoard_instantiate(s(TOKEN_HEX), Decimal::from_count(price))
}

fn create_dao(hoard: &mut DaoHoard, dao_id: &str, epoch: u64) -> DaoAdminBadge {
    hoard
        .dao_create(
            s(dao_id),
            s("dao name"),
            s("https://info.url"),
            s("https://logo.url"),
            s("token"),
            s("resource_address"),
            s("dao about"),
            s("dao general"),
            s("2024-01-26T22:16:32.256163Z"),
            vec![s("rule 1"), s("rule 2"), s("rule 3")],
            vec![
                (s("add_key_1"), s("add_value_1")),
                (s("add_key_2"), s("add_value_2")),
            ],
            epoch,
        )
        .unwrap()
}

fn add_proposal(
    hoard: &mut DaoHoard,
    badges: &Vec<DaoAdminBadge>,
    dao_id: &str,
    proposal_id: &str,
    start: u64,
    end: u64,
    epoch: u64,
) -> Result<Decimal, DaoError> {
    hoard.dao_add_proposal(
        badges,
        Decimal::from_count(20),
        s(dao_id),
        s(proposal_id),
        s("proposal title"),
        s("proposal abstract"),
        s("proposal specification"),
        s("start ts"),
        start,
        s("end ts"),
        end,
        s("created ts"),
        s("https://proposal.url"),
        vec![],
        epoch,
    )
}

fn add_option(
    hoard: &mut DaoHoard,
    badges: &Vec<DaoAdminBadge>,
    option_id: &str,
    rank: u32,
    label: &str,
    epoch: u64,
) -> Result<(), DaoError> {
    hoard.proposal_add_option(
        badges,
        s("d1"),
        s("p1"),
        s(option_id),
        rank,
        s(label),
        vec![],
        epoch,
    )
}

fn vote(
    hoard: &mut DaoHoard,
    vote_id: &str,
    option_id: &str,
    nfts: Vec<&str>,
    epoch: u64,
) -> Result<(), DaoError> {
    let proof = TokenProof::new(
        s("resource_address"),
        nfts.into_iter().map(|n| s(n)).collect(),
    );
    hoard.proposal_mint_nft_vote(
        s("d1"),
        s("p1"),
        s(vote_id),
        s(option_id),
        s("voter_entity"),
        &proof,
        s("vote ts"),
        vec![],
        epoch,
    )
}

// Sets up DAO `d1` at epoch 100 with proposal `p1`, window [110, 120], and
// options `o1` (rank 1) and `o2` (rank 2) added at epoch 105.
fn standard_setup() -> (DaoHoard, Vec<DaoAdminBadge>) {
    let mut hoard = new_hoard(15);
    let badge = create_dao(&mut hoard, "d1", 100);
    let badges = vec![badge];
    add_proposal(&mut hoard, &badges, "d1", "p1", 110, 120, 100).unwrap();
    add_option(&mut hoard, &badges, "o1", 1, "first option", 105).unwrap();
    add_option(&mut hoard, &badges, "o2", 2, "second option", 105).unwrap();
    (hoard, badges)
}

#[test]
fn test_create_dao_hoard() {
    let hoard = new_hoard(234);
    assert_eq!(hoard.crumbs_token_address, TOKEN_HEX);
    assert_eq!(hoard.proposal_creation_price, Decimal::from_count(234));
    assert_eq!(hoard.crumb_fees.atto, 0);
    assert!(hoard.daos.is_empty());
}

#[test]
fn test_dao_instantiate() {
    let mut hoard = new_hoard(15);
    let badge = create_dao(&mut hoard, "9ca67daa-2f84-4db2-aec3-8deaa2bdd093", 100);
    assert_eq!(badge.dao_id, "9ca67daa-2f84-4db2-aec3-8deaa2bdd093");
    assert_eq!(badge.name, "dao name Admin Badge");
    assert_eq!(hoard.daos.len(), 1);
    let dao = &hoard.daos[0];
    assert_eq!(dao.dao_id, "9ca67daa-2f84-4db2-aec3-8deaa2bdd093");
    assert_eq!(dao.component_type, "CrumbsUpDao");
    assert_eq!(dao.version, 1);
    assert_eq!(dao.name, "dao name");
    assert_eq!(dao.description, "dao about");
    assert_eq!(dao.info_url, "https://info.url");
    assert_eq!(dao.key_image_url, "https://logo.url");
    assert_eq!(dao.dao_type, "token");
    assert_eq!(dao.governance_resource, "resource_address");
    assert_eq!(dao.about, "dao about");
    assert_eq!(dao.general, "dao general");
    assert_eq!(dao.created, "2024-01-26T22:16:32.256163Z");
    assert_eq!(dao.created_epoch, 100);
    assert_eq!(dao.rules, vec![s("rule 1"), s("rule 2"), s("rule 3")]);
    assert_eq!(
        dao.additional_data,
        vec![
            (s("add_key_1"), s("add_value_1")),
            (s("add_key_2"), s("add_value_2")),
        ]
    );
    assert!(dao.proposals.is_empty());
}

#[test]
fn test_dao_create_duplicate_id() {
    let mut hoard = new_hoard(15);
    create_dao(&mut hoard, "d1", 100);
    let r = hoard.dao_create(
        s("d1"),
        s("other name"),
        s("https://info.url"),
        s("https://logo.url"),
        s("token"),
        s("resource_address"),
        s("about"),
        s("general"),
        s("ts"),
        vec![],
        vec![],
        101,
    );
    assert!(matches!(r, Err(DaoError::DuplicateId)));
    assert_eq!(hoard.daos.len(), 1);
}

#[test]
fn test_dao_create_hyphen_underscore_key_collision() {
    // "a-b" and "a_b" are stored under the same non-fungible key.
    let mut hoard = new_hoard(15);
    create_dao(&mut hoard, "a-b", 100);
    let r = hoard.dao_create(
        s("a_b"),
        s("n"),
        s("i"),
        s("k"),
        s("t"),
        s("g"),
        s("a"),
        s("g"),
        s("c"),
        vec![],
        vec![],
        100,
    );
    assert!(matches!(r, Err(DaoError::DuplicateId)));
}

#[test]
fn test_dao_update_authorized() {
    let mut hoard = new_hoard(15);
    let badge = create_dao(&mut hoard, "d1", 100);
    let badges = vec![badge];
    let r = hoard.dao_update(
        &badges,
        s("d1"),
        s("new name"),
        s("https://new.info"),
        s("https://new.logo"),
        s("new type"),
        s("new_resource"),
        s("new about"),
        s("new general"),
        vec![s("only rule")],
        vec![(s("k"), s("v"))],
    );
    assert_eq!(r, Ok(()));
    let dao = &hoard.daos[0];
    assert_eq!(dao.name, "new name");
    assert_eq!(dao.dao_type, "new type");
    assert_eq!(dao.governance_resource, "new_resource");
    assert_eq!(dao.rules, vec![s("only rule")]);
    // Immutable fields survive the update.
    assert_eq!(dao.dao_id, "d1");
    assert_eq!(dao.description, "dao about");
    assert_eq!(dao.created_epoch, 100);
}

#[test]
fn test_dao_update_not_authorized() {
    let mut hoard = new_hoard(15);
    create_dao(&mut hoard, "d1", 100);
    let other_badge = create_dao(&mut hoard, "d2", 100);
    let badges = vec![other_badge];
    let r = hoard.dao_update(
        &badges,
        s("d1"),
        s("n"),
        s("i"),
        s("k"),
        s("t"),
        s("g"),
        s("a"),
        s("g"),
        vec![],
        vec![],
    );
    assert_eq!(r, Err(DaoError::NotAuthorized));
    assert_eq!(hoard.daos[0].name, "dao name");
}

#[test]
fn test_dao_update_not_found() {
    let mut hoard = new_hoard(15);
    let badge = create_dao(&mut hoard, "d1", 100);
    // The badge is scoped to "d2" only if it says so; forge a vector with
    // the right scope but no such DAO.
    let badges = vec![
        badge,
        DaoAdminBadge {
            dao_id: s("d2"),
            name: s("n"),
            description: s("d"),
            info_url: s("i"),
            key_image_url: s("k"),
            additional_data: vec![],
            additional_data_vec: vec![],
        },
    ];
    let r = hoard.dao_update(
        &badges,
        s("d2"),
        s("n"),
        s("i"),
        s("k"),
        s("t"),
        s("g"),
        s("a"),
        s("g"),
        vec![],
        vec![],
    );
    assert_eq!(r, Err(DaoError::NotFound));
}

#[test]
fn test_mint_admin_badge_by_owner() {
    let mut hoard = new_hoard(15);
    create_dao(&mut hoard, "d1", 100);
    let badge = hoard.dao_mint_admin_badge_by_owner(s("d1")).unwrap();
    assert_eq!(badge.dao_id, "d1");
    assert_eq!(badge.name, "dao name Admin Badge");
    assert!(matches!(
        hoard.dao_mint_admin_badge_by_owner(s("missing")),
        Err(DaoError::NotFound)
    ));
}

#[test]
fn test_mint_admin_badge_by_dao_admin() {
    let mut hoard = new_hoard(15);
    let badge = create_dao(&mut hoard, "d1", 100);
    let peer = hoard.dao_mint_admin_badge_by_dao_admin(&badge).unwrap();
    assert_eq!(peer.dao_id, "d1");
    assert_eq!(peer.name, "dao name Admin Badge");
}

#[test]
fn test_add_proposal_invalid_window() {
    let mut hoard = new_hoard(15);
    let badge = create_dao(&mut hoard, "d1", 100);
    let badges = vec![badge];
    // Start after end.
    let r = add_proposal(&mut hoard, &badges, "d1", "p1", 120, 110, 100);
    assert_eq!(r, Err(DaoError::InvalidWindow));
    // Start not strictly in the future.
    let r = add_proposal(&mut hoard, &badges, "d1", "p1", 100, 120, 100);
    assert_eq!(r, Err(DaoError::InvalidWindow));
    assert!(hoard.daos[0].proposals.is_empty());
    assert_eq!(hoard.crumb_fees.atto, 0);
}

#[test]
fn test_add_proposal_fee_and_change() {
    let mut hoard = new_hoard(15);
    let badge = create_dao(&mut hoard, "d1", 100);
    let badges = vec![badge];
    let change = add_proposal(&mut hoard, &badges, "d1", "p1", 110, 120, 100).unwrap();
    assert_eq!(change, Decimal::from_count(5)); // 20 paid, 15 fee
    assert_eq!(hoard.crumb_fees, Decimal::from_count(15));
    let withdrawn = hoard.dao_hoard_withdraw_crumb_fees();
    assert_eq!(withdrawn, Decimal::from_count(15));
    assert_eq!(hoard.crumb_fees.atto, 0);
}

#[test]
fn test_add_proposal_duplicate_id() {
    let mut hoard = new_hoard(15);
    let badge = create_dao(&mut hoard, "d1", 100);
    let badges = vec![badge];
    add_proposal(&mut hoard, &badges, "d1", "p1", 110, 120, 100).unwrap();
    let r = add_proposal(&mut hoard, &badges, "d1", "p1", 111, 121, 100);
    assert_eq!(r, Err(DaoError::DuplicateId));
    assert_eq!(hoard.daos[0].proposals.len(), 1);
}

#[test]
fn test_proposal_captures_dao_voting_rules() {
    let mut hoard = new_hoard(15);
    let badge = create_dao(&mut hoard, "d1", 100);
    let badges = vec![badge];
    add_proposal(&mut hoard, &badges, "d1", "p1", 110, 120, 100).unwrap();
    // Later DAO edits do not change the proposal's captured voting rules.
    hoard
        .dao_update(
            &badges,
            s("d1"),
            s("n"),
            s("i"),
            s("k"),
            s("other type"),
            s("other_resource"),
            s("a"),
            s("g"),
            vec![],
            vec![],
        )
        .unwrap();
    let p = &hoard.daos[0].proposals[0];
    assert_eq!(p.dao_type, "token");
    assert_eq!(p.governance_resource, "resource_address");
    assert_eq!(p.name, "proposal title");
    assert_eq!(p.description, "proposal abstract");
    assert_eq!(p.created_epoch, 100);
    assert!(p.result.is_none());
}

#[test]
fn test_option_freeze_scenario() {
    // DAO d1 at epoch 100; proposal p1 with window [110, 120]; o1 and o2
    // added at epoch 105 succeed; o3 at epoch 110 fails OptionsFrozen.
    let (mut hoard, badges) = standard_setup();
    let r = add_option(&mut hoard, &badges, "o3", 3, "third option", 110);
    assert_eq!(r, Err(DaoError::OptionsFrozen));
    let p = &hoard.daos[0].proposals[0];
    assert_eq!(p.options.len(), 2);
    assert_eq!(p.options[0].id, "o1");
    assert_eq!(p.options[0].rank, 1);
    assert_eq!(p.options[1].id, "o2");
    assert_eq!(p.options[1].rank, 2);
}

#[test]
fn test_add_option_duplicates() {
    let (mut hoard, badges) = standard_setup();
    // Colliding identifier.
    let r = add_option(&mut hoard, &badges, "o1", 7, "fresh label", 106);
    assert_eq!(r, Err(DaoError::DuplicateOption));
    // Colliding label.
    let r = add_option(&mut hoard, &badges, "o9", 8, "first option", 106);
    assert_eq!(r, Err(DaoError::DuplicateOption));
    // Colliding rank.
    let r = add_option(&mut hoard, &badges, "o9", 2, "fresh label", 106);
    assert_eq!(r, Err(DaoError::DuplicateOption));
    assert_eq!(hoard.daos[0].proposals[0].options.len(), 2);
}

#[test]
fn test_add_option_not_authorized() {
    let (mut hoard, _badges) = standard_setup();
    let other_badge = create_dao(&mut hoard, "d2", 100);
    let wrong = vec![other_badge];
    let r = add_option(&mut hoard, &wrong, "o3", 3, "third option", 105);
    assert_eq!(r, Err(DaoError::NotAuthorized));
}

#[test]
fn test_vote_idempotent_scenario() {
    // At epoch 115, v1 on o1 with {t1, t2}: power 2. At epoch 116, v2 on
    // o1 with {t1, t3}: t1 is dropped, power 1. After both: vote_count 2,
    // vote_power 3, o1 share 1.0, o2 share 0.0.
    let (mut hoard, _badges) = standard_setup();
    vote(&mut hoard, "v1", "o1", vec!["t1", "t2"], 115).unwrap();
    {
        let p = &hoard.daos[0].proposals[0];
        assert_eq!(p.votes.len(), 1);
        assert_eq!(p.votes[0].power, Decimal::from_count(2));
        assert_eq!(p.votes[0].nfts, vec![s("t1"), s("t2")]);
    }
    vote(&mut hoard, "v2", "o1", vec!["t1", "t3"], 116).unwrap();
    let p = &hoard.daos[0].proposals[0];
    assert_eq!(p.votes.len(), 2);
    assert_eq!(p.votes[1].power, Decimal::from_count(1));
    assert_eq!(p.votes[1].nfts, vec![s("t3")]);
    assert_eq!(p.nfts_voted, vec![s("t1"), s("t2"), s("t3")]);
    let result = p.result.as_ref().unwrap();
    assert_eq!(result.vote_count, 2);
    assert_eq!(result.vote_power, Decimal::from_count(3));
    assert_eq!(result.results.len(), 2);
    assert_eq!(result.results[0].option_id, "o1");
    assert_eq!(result.results[0].option_name, "first option");
    assert_eq!(result.results[0].share.atto, DECIMAL_SCALE);
    assert_eq!(result.results[1].option_id, "o2");
    assert_eq!(result.results[1].share.atto, 0);
}

#[test]
fn test_vote_after_end_scenario() {
    // A vote at epoch 121, past the inclusive end 120, fails VotingNotOpen.
    let (mut hoard, _badges) = standard_setup();
    let r = vote(&mut hoard, "v1", "o1", vec!["t1"], 121);
    assert_eq!(r, Err(DaoError::VotingNotOpen));
}

#[test]
fn test_vote_window_boundaries_inclusive() {
    let (mut hoard, _badges) = standard_setup();
    let r = vote(&mut hoard, "v0", "o1", vec!["t0"], 109);
    assert_eq!(r, Err(DaoError::VotingNotOpen));
    assert_eq!(vote(&mut hoard, "v1", "o1", vec!["t1"], 110), Ok(()));
    assert_eq!(vote(&mut hoard, "v2", "o2", vec!["t2"], 120), Ok(()));
}

#[test]
fn test_vote_unknown_option() {
    let (mut hoard, _badges) = standard_setup();
    let r = vote(&mut hoard, "v1", "o9", vec!["t1"], 115);
    assert_eq!(r, Err(DaoError::UnknownOption));
}

#[test]
fn test_vote_duplicate_vote_id() {
    let (mut hoard, _badges) = standard_setup();
    vote(&mut hoard, "v1", "o1", vec!["t1"], 115).unwrap();
    let r = vote(&mut hoard, "v1", "o2", vec!["t2"], 116);
    assert_eq!(r, Err(DaoError::DuplicateVoteId));
}

#[test]
fn test_vote_wrong_governance_token() {
    let (mut hoard, _badges) = standard_setup();
    let proof = TokenProof::new(s("some_other_token"), vec![s("t1")]);
    let r = hoard.proposal_mint_nft_vote(
        s("d1"),
        s("p1"),
        s("v1"),
        s("o1"),
        s("voter_entity"),
        &proof,
        s("vote ts"),
        vec![],
        115,
    );
    assert_eq!(r, Err(DaoError::WrongGovernanceToken));
}

#[test]
fn test_vote_no_tokens_provided() {
    let (mut hoard, _badges) = standard_setup();
    let r = vote(&mut hoard, "v1", "o1", vec![], 115);
    assert_eq!(r, Err(DaoError::NoTokensProvided));
}

#[test]
fn test_vote_all_tokens_already_voted() {
    let (mut hoard, _badges) = standard_setup();
    vote(&mut hoard, "v1", "o1", vec!["t1", "t2"], 115).unwrap();
    let r = vote(&mut hoard, "v2", "o2", vec!["t2", "t1"], 116);
    assert_eq!(r, Err(DaoError::AllTokensAlreadyVoted));
    let p = &hoard.daos[0].proposals[0];
    assert_eq!(p.votes.len(), 1);
    assert_eq!(p.result.as_ref().unwrap().vote_count, 1);
}

#[test]
fn test_vote_not_found() {
    let (mut hoard, _badges) = standard_setup();
    let proof = TokenProof::new(s("resource_address"), vec![s("t1")]);
    let r = hoard.proposal_mint_nft_vote(
        s("d9"),
        s("p1"),
        s("v1"),
        s("o1"),
        s("voter_entity"),
        &proof,
        s("ts"),
        vec![],
        115,
    );
    assert_eq!(r, Err(DaoError::NotFound));
    let proof = TokenProof::new(s("resource_address"), vec![s("t1")]);
    let r = hoard.proposal_mint_nft_vote(
        s("d1"),
        s("p9"),
        s("v1"),
        s("o1"),
        s("voter_entity"),
        &proof,
        s("ts"),
        vec![],
        115,
    );
    assert_eq!(r, Err(DaoError::NotFound));
}

#[test]
fn test_error_names() {
    let (mut hoard, badges) = standard_setup();
    let err = add_option(&mut hoard, &badges, "o3", 3, "third option", 110).unwrap_err();
    assert_eq!(err.as_str(), "OptionsFrozen");
    let err = vote(&mut hoard, "v1", "o1", vec!["t1"], 121).unwrap_err();
    assert_eq!(err.as_str(), "VotingNotOpen");
    assert_eq!(DaoError::NotFound.as_str(), "NotFound");
    assert_eq!(DaoError::NotAuthorized.as_str(), "NotAuthorized");
}

#[test]
fn test_set_proposal_creation_price() {
    let mut hoard = new_hoard(15);
    hoard.dao_hoard_set_proposal_creation_price(Decimal::from_count(40));
    assert_eq!(hoard.proposal_creation_price, Decimal::from_count(40));
}
