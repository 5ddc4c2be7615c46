//! The proposal lifecycle: a proposal carries a voting window in epochs, an
//! option list that freezes when voting starts, an append-only vote list, a
//! ledger of consumed token instances, and a result recomputed after every
//! accepted vote.
//!
//! The phase of a proposal is never stored; it is recomputed from the
//! caller-visible current epoch on every call. Before `voting_start_epoch`
//! options may be appended and votes are rejected; from
//! `voting_start_epoch` to `voting_end_epoch` (both inclusive) options are
//! frozen and votes are accepted; after that both are rejected.

use vstd::prelude::*;
use crate::decimal::Decimal;
use crate::decimal::DECIMAL_SCALE;
use crate::error::DaoError;
use crate::proposal_option::ProposalOption;
use crate::proposal_option::has_option_id;
use crate::proposal_option::options_distinct;
use crate::proposal_result::ProposalResult;
use crate::proposal_result::calc_result;
use crate::proposal_result::is_tally_of;
use crate::proposal_result::total_count;
use crate::proposal_result::vote_weight;
use crate::proposal_result::votes_powers_wf;
use crate::proposal_vote::ProposalVote;
use crate::utils::contains_id;
use crate::utils::contains_string;
use crate::utils::distinct_ids;
use crate::utils::id_views;
use crate::utils::create_non_fungible_id_of_uuid;
use crate::utils::key_of;
use crate::utils::valid_id;
use crate::sums::sum_by;

verus! {

/// The content of a governance-token ownership proof, as the authorization
/// gate resolves it: the token class the proof is of, and the identifiers
/// of the token instances it presents.
pub struct TokenProof {
    /// The address of the token class the presented instances belong to.
    pub resource_address: String,
    /// The identifiers of the presented token instances.
    pub nft_ids: Vec<String>,
}

impl TokenProof {
    /// A proof presenting the given instances of the given token class.
    pub fn new(resource_address: String, nft_ids: Vec<String>) -> (r: TokenProof)
        ensures
            r.resource_address == resource_address,
            r.nft_ids == nft_ids,
    {
        TokenProof { resource_address, nft_ids }
    }
}

/// A proposal of a DAO: its text, its captured voting rules, its voting
/// window, and its accumulated options, votes and result.
pub struct Proposal {
    /// The proposal's identifier.
    pub proposal_id: String,
    /// The display name; a copy of the title.
    pub name: String,
    /// The display description; a copy of the abstract.
    pub description: String,
    /// The proposal's title.
    pub title: String,
    /// The proposal's abstract.
    pub p_abstract: String,
    /// The full specification text of the proposal.
    pub specification: String,
    /// The owning DAO's type tag, captured at creation.
    pub dao_type: String,
    /// The address of the governance token whose instances may vote,
    /// captured at creation.
    pub governance_resource: String,
    /// A human-readable counterpart of the voting start epoch.
    pub voting_start: String,
    /// The first epoch, inclusive, at which votes are accepted.
    pub voting_start_epoch: u64,
    /// A human-readable counterpart of the voting end epoch.
    pub voting_end: String,
    /// The last epoch, inclusive, at which votes are accepted.
    pub voting_end_epoch: u64,
    /// A human-readable creation timestamp.
    pub created: String,
    /// The epoch at which the proposal was created.
    pub created_epoch: u64,
    /// An informational URL.
    pub info_url: String,
    /// An image URL, copied from the owning DAO at creation.
    pub key_image_url: String,
    /// Free-form extension values.
    pub additional_data: Vec<(String, String)>,
    /// Free-form extension lists.
    pub additional_data_vec: Vec<(String, Vec<String>)>,
    /// The votable options, frozen once voting starts.
    pub options: Vec<ProposalOption>,
    /// The recorded votes, append-only.
    pub votes: Vec<ProposalVote>,
    /// The identifiers of every token instance consumed by a vote so far.
    pub nfts_voted: Vec<String>,
    /// The tally, recomputed after every accepted vote.
    pub result: Option<ProposalResult>,
}

/// Whether the identifiers of `votes` are pairwise distinct.
pub open spec fn votes_ids_distinct(votes: Seq<ProposalVote>) -> bool {
    forall|i: int, j: int| 0 <= i < j < votes.len() ==> votes[i].id@ != votes[j].id@
}

/// Whether one of `votes` carries the identifier `vid`.
pub open spec fn has_vote_id(votes: Seq<ProposalVote>, vid: Seq<char>) -> bool {
    exists|i: int| 0 <= i < votes.len() && votes[i].id@ == vid
}

/// Whether no token instance appears in two different votes.
pub open spec fn votes_nfts_disjoint(votes: Seq<ProposalVote>) -> bool {
    forall|i: int, j: int, t: Seq<char>|
        0 <= i < votes.len() && 0 <= j < votes.len() && i != j && #[trigger] contains_id(
            votes[i].nfts@,
            t,
        ) ==> !(#[trigger] contains_id(votes[j].nfts@, t))
}

impl Proposal {
    /// The structural well-formedness of a proposal: the voting window is
    /// ordered; options are pairwise distinct in identifier, label and
    /// rank; vote identifiers are distinct; every vote targets an existing
    /// option, consumed at least one token instance, lists each consumed
    /// instance once, and carries one whole unit of power per instance; no
    /// instance was consumed by two votes; and the consumed-instance ledger
    /// holds exactly the instances of all votes, each once — so the total
    /// vote power equals the ledger's size.
    pub open spec fn wf(self) -> bool {
        &&& self.voting_start_epoch <= self.voting_end_epoch
        &&& options_distinct(self.options@)
        &&& votes_ids_distinct(self.votes@)
        &&& forall|i: int|
            0 <= i < self.votes@.len() ==> has_option_id(
                self.options@,
                (#[trigger] self.votes@[i]).option_id@,
            )
        &&& votes_powers_wf(self.votes@)
        &&& forall|i: int| 0 <= i < self.votes@.len() ==> (#[trigger] self.votes@[i]).nfts@.len() >= 1
        &&& forall|i: int|
            0 <= i < self.votes@.len() ==> distinct_ids((#[trigger] self.votes@[i]).nfts@)
        &&& votes_nfts_disjoint(self.votes@)
        &&& distinct_ids(self.nfts_voted@)
        &&& forall|i: int, t: Seq<char>|
            0 <= i < self.votes@.len() && #[trigger] contains_id(self.votes@[i].nfts@, t)
                ==> contains_id(self.nfts_voted@, t)
        &&& forall|t: Seq<char>|
            #[trigger] contains_id(self.nfts_voted@, t) ==> exists|i: int|
                0 <= i < self.votes@.len() && contains_id(self.votes@[i].nfts@, t)
        &&& total_count(self.votes@) == self.nfts_voted@.len()
    }

    /// Whether the proposal accepts votes at `current_epoch`: the window is
    /// inclusive at both ends.
    pub open spec fn is_open(self, current_epoch: u64) -> bool {
        self.voting_start_epoch <= current_epoch <= self.voting_end_epoch
    }

    /// The fields of `self` that no lifecycle operation ever changes, as
    /// they stand in `other`.
    pub open spec fn same_meta(self, other: Proposal) -> bool {
        &&& self.proposal_id == other.proposal_id
        &&& self.name == other.name
        &&& self.description == other.description
        &&& self.title == other.title
        &&& self.p_abstract == other.p_abstract
        &&& self.specification == other.specification
        &&& self.dao_type == other.dao_type
        &&& self.governance_resource == other.governance_resource
        &&& self.voting_start == other.voting_start
        &&& self.voting_start_epoch == other.voting_start_epoch
        &&& self.voting_end == other.voting_end
        &&& self.voting_end_epoch == other.voting_end_epoch
        &&& self.created == other.created
        &&& self.created_epoch == other.created_epoch
        &&& self.info_url == other.info_url
        &&& self.key_image_url == other.key_image_url
        &&& self.additional_data == other.additional_data
        &&& self.additional_data_vec == other.additional_data_vec
    }
}

/// The record a successful `create` builds: every field from its argument,
/// the name and description copied from the title and abstract, and empty
/// options, votes, ledger and result.
pub open spec fn proposal_new_record(
    p: Proposal,
    id: String,
    title: String,
    p_abstract: String,
    specification: String,
    dao_type: String,
    governance_resource: String,
    voting_start: String,
    voting_start_epoch: u64,
    voting_end: String,
    voting_end_epoch: u64,
    created: String,
    info_url: String,
    key_image_url: String,
    additional_data: Vec<(String, String)>,
    current_epoch: u64,
) -> bool {
    &&& p.proposal_id == id
    &&& p.name == title
    &&& p.description == p_abstract
    &&& p.title == title
    &&& p.p_abstract == p_abstract
    &&& p.specification == specification
    &&& p.dao_type == dao_type
    &&& p.governance_resource == governance_resource
    &&& p.voting_start == voting_start
    &&& p.voting_start_epoch == voting_start_epoch
    &&& p.voting_end == voting_end
    &&& p.voting_end_epoch == voting_end_epoch
    &&& p.created == created
    &&& p.created_epoch == current_epoch
    &&& p.info_url == info_url
    &&& p.key_image_url == key_image_url
    &&& p.additional_data == additional_data
    &&& p.additional_data_vec@.len() == 0
    &&& p.options@.len() == 0
    &&& p.votes@.len() == 0
    &&& p.nfts_voted@.len() == 0
    &&& p.result is None
}

/// Creates a proposal. Fails with `InvalidWindow` unless the voting window
/// lies strictly in the future and is ordered:
/// `current_epoch < voting_start_epoch <= voting_end_epoch`.
pub fn create(
    id: String,
    title: String,
    p_abstract: String,
    specification: String,
    dao_type: String,
    governance_resource: String,
    voting_start: String,
    voting_start_epoch: u64,
    voting_end: String,
    voting_end_epoch: u64,
    created: String,
    info_url: String,
    key_image_url: String,
    additional_data: Vec<(String, String)>,
    current_epoch: u64,
) -> (r: Result<Proposal, DaoError>)
    ensures
        r is Ok <==> current_epoch < voting_start_epoch <= voting_end_epoch,
        r is Err ==> r == Result::<Proposal, DaoError>::Err(DaoError::InvalidWindow),
        r matches Ok(p) ==> p.wf() && proposal_new_record(
            p,
            id,
            title,
            p_abstract,
            specification,
            dao_type,
            governance_resource,
            voting_start,
            voting_start_epoch,
            voting_end,
            voting_end_epoch,
            created,
            info_url,
            key_image_url,
            additional_data,
            current_epoch,
        ),
{
    if !(current_epoch < voting_start_epoch) {
        return Err(DaoError::InvalidWindow);
    }
    if !(voting_start_epoch <= voting_end_epoch) {
        return Err(DaoError::InvalidWindow);
    }
    let name = title.clone();
    let description = p_abstract.clone();
    Ok(
        Proposal {
            proposal_id: id,
            name,
            description,
            title,
            p_abstract,
            specification,
            dao_type,
            governance_resource,
            voting_start,
            voting_start_epoch,
            voting_end,
            voting_end_epoch,
            created,
            created_epoch: current_epoch,
            info_url,
            key_image_url,
            additional_data,
            additional_data_vec: Vec::new(),
            options: Vec::new(),
            votes: Vec::new(),
            nfts_voted: Vec::new(),
            result: None,
        },
    )
}

/// Whether `option_id`, `option` or `rank` collides with an existing option.
pub open spec fn option_collides(
    options: Seq<ProposalOption>,
    oid: Seq<char>,
    label: Seq<char>,
    rank: u32,
) -> bool {
    exists|i: int|
        0 <= i < options.len() && ((#[trigger] options[i]).id@ == oid || options[i].option@
            == label || options[i].rank == rank)
}

/// The state change of a successful option append: `newp` is `oldp` with
/// exactly the new option, carrying the given fields, at the end of its
/// option list.
pub open spec fn option_appended(
    oldp: Proposal,
    newp: Proposal,
    option_id: String,
    rank: u32,
    option: String,
    additional_data: Vec<(String, String)>,
) -> bool {
    &&& newp.same_meta(oldp)
    &&& newp.votes == oldp.votes
    &&& newp.nfts_voted == oldp.nfts_voted
    &&& newp.result == oldp.result
    &&& newp.options@.len() == oldp.options@.len() + 1
    &&& newp.options@ == oldp.options@.push(newp.options@.last())
    &&& newp.options@.last().id == option_id
    &&& newp.options@.last().rank == rank
    &&& newp.options@.last().option == option
    &&& newp.options@.last().additional_data == additional_data
}

/// The state change of a successfully cast vote: `newp` is `oldp` with the
/// newly consumed instances appended to the ledger, one new vote carrying
/// one whole unit of power per newly consumed instance, and the result
/// recomputed over the new vote list.
pub open spec fn vote_cast(
    oldp: Proposal,
    newp: Proposal,
    vote_id: String,
    option_id: String,
    entity: String,
    nft_ids: Vec<String>,
    created: String,
    current_epoch: u64,
    additional_data: Vec<(String, String)>,
) -> bool {
    let nc = newly_consumed(id_views(nft_ids@), id_views(oldp.nfts_voted@));
    let v = newp.votes@.last();
    &&& newp.same_meta(oldp)
    &&& newp.options == oldp.options
    &&& id_views(newp.nfts_voted@) == id_views(oldp.nfts_voted@) + nc
    &&& newp.votes@ == oldp.votes@.push(v)
    &&& v.id == vote_id
    &&& v.option_id == option_id
    &&& v.entity == entity
    &&& v.power.atto == nc.len() * DECIMAL_SCALE
    &&& id_views(v.nfts@) == nc
    &&& v.created == created
    &&& v.created_epoch == current_epoch
    &&& v.additional_data == additional_data
    &&& newp.result matches Some(res) && is_tally_of(res, newp.votes@, newp.options@)
}

/// Appends an option to a pending proposal.
///
/// Fails with `OptionsFrozen` at or after the voting start epoch — the
/// option list freezes when voting opens — and otherwise with
/// `DuplicateOption` if the identifier, label or rank collides with an
/// existing option. On failure the proposal is unchanged.
pub fn append_option(
    p: &mut Proposal,
    option_id: String,
    rank: u32,
    option: String,
    additional_data: Vec<(String, String)>,
    current_epoch: u64,
) -> (r: Result<(), DaoError>)
    requires
        old(p).wf(),
    ensures
        final(p).wf(),
        r == Err::<(), DaoError>(DaoError::OptionsFrozen) <==> current_epoch >= old(
            p,
        ).voting_start_epoch,
        r == Err::<(), DaoError>(DaoError::DuplicateOption) <==> current_epoch < old(
            p,
        ).voting_start_epoch && option_collides(old(p).options@, option_id@, option@, rank),
        r is Ok <==> current_epoch < old(p).voting_start_epoch && !option_collides(
            old(p).options@,
            option_id@,
            option@,
            rank,
        ),
        r is Err ==> *final(p) == *old(p),
        r is Ok ==> option_appended(
            *old(p),
            *final(p),
            option_id,
            rank,
            option,
            additional_data,
        ),
{
    if current_epoch >= p.voting_start_epoch {
        return Err(DaoError::OptionsFrozen);
    }
    let mut i: usize = 0;
    while i < p.options.len()
        invariant
            *p == *old(p),
            old(p).wf(),
            current_epoch < old(p).voting_start_epoch,
            i <= p.options@.len(),
            forall|k: int|
                0 <= k < i ==> {
                    &&& (#[trigger] p.options@[k]).id@ != option_id@
                    &&& p.options@[k].option@ != option@
                    &&& p.options@[k].rank != rank
                },
        decreases p.options@.len() - i,
    {
        if p.options[i].id.eq(&option_id) {
            return Err(DaoError::DuplicateOption);
        }
        if p.options[i].option.eq(&option) {
            return Err(DaoError::DuplicateOption);
        }
        if p.options[i].rank == rank {
            return Err(DaoError::DuplicateOption);
        }
        i = i + 1;
    }
    let new_option = ProposalOption::new(option_id, rank, option, additional_data);
    p.options.push(new_option);
    proof {
        let opts = p.options@;
        let olds = old(p).options@;
        assert(opts =~= olds.push(opts.last()));
        assert(options_distinct(opts)) by {
            assert forall|a: int, b: int| 0 <= a < b < opts.len() implies {
                &&& opts[a].id@ != opts[b].id@
                &&& opts[a].option@ != opts[b].option@
                &&& opts[a].rank != opts[b].rank
            } by {
                if b < olds.len() {
                    assert(opts[a] == olds[a] && opts[b] == olds[b]);
                } else {
                    assert(opts[a] == olds[a]);
                }
            }
        }
        assert forall|i2: int| 0 <= i2 < p.votes@.len() implies has_option_id(
            opts,
            (#[trigger] p.votes@[i2]).option_id@,
        ) by {
            let w = choose|k: int|
                0 <= k < olds.len() && olds[k].id@ == p.votes@[i2].option_id@;
            assert(opts[w].id@ == p.votes@[i2].option_id@);
        }
    }
    Ok(())
}

/// Admission checks for a vote, in the order the ledger applies them: the
/// targeted option must exist (`UnknownOption`), the vote identifier must
/// be fresh (`DuplicateVoteId`), and the proposal must be open at
/// `current_epoch` (`VotingNotOpen`).
pub fn check_vote_against_proposal(
    proposal_vote_id: &String,
    proposal_option_id: &String,
    p: &Proposal,
    current_epoch: u64,
) -> (r: Result<(), DaoError>)
    ensures
        r == Err::<(), DaoError>(DaoError::UnknownOption) <==> !has_option_id(
            p.options@,
            proposal_option_id@,
        ),
        r == Err::<(), DaoError>(DaoError::DuplicateVoteId) <==> has_option_id(
            p.options@,
            proposal_option_id@,
        ) && has_vote_id(p.votes@, proposal_vote_id@),
        r == Err::<(), DaoError>(DaoError::VotingNotOpen) <==> has_option_id(
            p.options@,
            proposal_option_id@,
        ) && !has_vote_id(p.votes@, proposal_vote_id@) && !p.is_open(current_epoch),
        r is Ok <==> has_option_id(p.options@, proposal_option_id@) && !has_vote_id(
            p.votes@,
            proposal_vote_id@,
        ) && p.is_open(current_epoch),
{
    let mut found: bool = false;
    let mut i: usize = 0;
    while i < p.options.len()
        invariant
            i <= p.options@.len(),
            found <==> exists|k: int| 0 <= k < i && (#[trigger] p.options@[k]).id@
                == proposal_option_id@,
        decreases p.options@.len() - i,
    {
        if p.options[i].id.eq(proposal_option_id) {
            found = true;
        }
        i = i + 1;
    }
    if !found {
        return Err(DaoError::UnknownOption);
    }
    let mut j: usize = 0;
    while j < p.votes.len()
        invariant
            has_option_id(p.options@, proposal_option_id@),
            j <= p.votes@.len(),
            forall|k: int| 0 <= k < j ==> (#[trigger] p.votes@[k]).id@ != proposal_vote_id@,
        decreases p.votes@.len() - j,
    {
        if p.votes[j].id.eq(proposal_vote_id) {
            return Err(DaoError::DuplicateVoteId);
        }
        j = j + 1;
    }
    if current_epoch < p.voting_start_epoch {
        return Err(DaoError::VotingNotOpen);
    }
    if current_epoch > p.voting_end_epoch {
        return Err(DaoError::VotingNotOpen);
    }
    Ok(())
}

/// The identifiers among `presented` that a vote newly consumes, in order
/// of first appearance: walking `presented` left to right, an identifier
/// already in `consumed`, or seen earlier in the walk, is dropped; the rest
/// are kept.
pub open spec fn newly_consumed(
    presented: Seq<Seq<char>>,
    consumed: Seq<Seq<char>>,
) -> Seq<Seq<char>>
    decreases presented.len(),
{
    if presented.len() == 0 {
        Seq::empty()
    } else {
        let prev = newly_consumed(presented.drop_last(), consumed);
        let x = presented.last();
        if consumed.contains(x) || prev.contains(x) {
            prev
        } else {
            prev.push(x)
        }
    }
}

/// What `newly_consumed` keeps: each presented identifier that is not yet
/// consumed, exactly once, and nothing else.
pub proof fn lemma_newly_consumed_props(presented: Seq<Seq<char>>, consumed: Seq<Seq<char>>)
    ensures
        newly_consumed(presented, consumed).no_duplicates(),
        newly_consumed(presented, consumed).len() <= presented.len(),
        forall|t: Seq<char>| #[trigger]
            newly_consumed(presented, consumed).contains(t) ==> presented.contains(t)
                && !consumed.contains(t),
        forall|t: Seq<char>|
            presented.contains(t) && !consumed.contains(t) ==> newly_consumed(
                presented,
                consumed,
            ).contains(t),
    decreases presented.len(),
{
    if presented.len() > 0 {
        let rest = presented.drop_last();
        let prev = newly_consumed(rest, consumed);
        let x = presented.last();
        let nc = newly_consumed(presented, consumed);
        lemma_newly_consumed_props(rest, consumed);
        assert forall|t: Seq<char>| rest.contains(t) implies presented.contains(t) by {
            let i = choose|i: int| 0 <= i < rest.len() && rest[i] == t;
            assert(presented[i] == t);
        }
        assert(presented.contains(x)) by {
            assert(presented[presented.len() - 1] == x);
        }
        if consumed.contains(x) || prev.contains(x) {
            assert forall|t: Seq<char>|
                presented.contains(t) && !consumed.contains(t) implies nc.contains(t) by {
                let i = choose|i: int| 0 <= i < presented.len() && presented[i] == t;
                if i < presented.len() - 1 {
                    assert(rest[i] == t);
                }
            }
        } else {
            assert(nc == prev.push(x));
            assert forall|t: Seq<char>| #[trigger] nc.contains(t) implies presented.contains(t)
                && !consumed.contains(t) by {
                let i = choose|i: int| 0 <= i < nc.len() && nc[i] == t;
                if i < prev.len() {
                    assert(prev[i] == t);
                    assert(prev.contains(t));
                } else {
                    assert(t == x);
                }
            }
            assert forall|t: Seq<char>|
                presented.contains(t) && !consumed.contains(t) implies nc.contains(t) by {
                let i = choose|i: int| 0 <= i < presented.len() && presented[i] == t;
                if i < presented.len() - 1 {
                    assert(rest[i] == t);
                    assert(prev.contains(t));
                    let k = choose|k: int| 0 <= k < prev.len() && prev[k] == t;
                    assert(nc[k] == t);
                } else {
                    assert(nc[nc.len() - 1] == x);
                }
            }
            assert(nc.no_duplicates()) by {
                assert(!prev.contains(x));
                assert forall|i: int, j: int|
                    0 <= i < nc.len() && 0 <= j < nc.len() && i != j implies nc[i] != nc[j] by {
                    if i < prev.len() && j < prev.len() {
                        assert(nc[i] == prev[i] && nc[j] == prev[j]);
                    } else if i < prev.len() {
                        assert(nc[j] == x && nc[i] == prev[i]);
                        assert(prev.contains(prev[i]));
                    } else {
                        assert(nc[i] == x && nc[j] == prev[j]);
                        assert(prev.contains(prev[j]));
                    }
                }
            }
        }
    }
}

/// The outcome of the admission checks of a vote, in the order the ledger
/// applies them: the targeted option must exist, the vote identifier must
/// be fresh, the proposal must be open at the current epoch, the proof must
/// be of the captured governance token, it must present at least one
/// instance, and at least one presented instance must not be consumed yet.
pub open spec fn vote_admission(
    p: Proposal,
    vid: Seq<char>,
    oid: Seq<char>,
    resource: Seq<char>,
    presented: Seq<Seq<char>>,
    current_epoch: u64,
) -> Result<(), DaoError> {
    if !has_option_id(p.options@, oid) {
        Err(DaoError::UnknownOption)
    } else if has_vote_id(p.votes@, vid) {
        Err(DaoError::DuplicateVoteId)
    } else if !p.is_open(current_epoch) {
        Err(DaoError::VotingNotOpen)
    } else if resource != p.governance_resource@ {
        Err(DaoError::WrongGovernanceToken)
    } else if presented.len() == 0 {
        Err(DaoError::NoTokensProvided)
    } else if newly_consumed(presented, id_views(p.nfts_voted@)).len() == 0 {
        Err(DaoError::AllTokensAlreadyVoted)
    } else {
        Ok(())
    }
}

/// Casts a vote on a proposal, consuming governance-token instances.
///
/// The admission checks are [`vote_admission`]; on any failure the proposal
/// is unchanged. On success, the presented instances that were already
/// consumed are dropped; the rest are added to the consumed-instance
/// ledger; a vote whose power is one whole unit per newly consumed
/// instance is appended; and the result is recomputed. All of this happens
/// in one call: the caller sees either every write or none.
#[verifier::loop_isolation(false)]
pub fn cast_vote(
    p: &mut Proposal,
    proposal_vote_id: String,
    proposal_option_id: String,
    entity: String,
    voting_nfts: &TokenProof,
    created: String,
    current_epoch: u64,
    additional_data: Vec<(String, String)>,
) -> (r: Result<(), DaoError>)
    requires
        old(p).wf(),
        old(p).nfts_voted@.len() + voting_nfts.nft_ids@.len() <= usize::MAX,
        old(p).votes@.len() < u32::MAX,
    ensures
        final(p).wf(),
        r == vote_admission(
            *old(p),
            proposal_vote_id@,
            proposal_option_id@,
            voting_nfts.resource_address@,
            id_views(voting_nfts.nft_ids@),
            current_epoch,
        ),
        r is Err ==> *final(p) == *old(p),
        r is Ok ==> vote_cast(
            *old(p),
            *final(p),
            proposal_vote_id,
            proposal_option_id,
            entity,
            voting_nfts.nft_ids,
            created,
            current_epoch,
            additional_data,
        ),
{
    let ghost pv = id_views(voting_nfts.nft_ids@);
    let ghost cons = id_views(old(p).nfts_voted@);

    match check_vote_against_proposal(&proposal_vote_id, &proposal_option_id, p, current_epoch) {
        Err(e) => {
            return Err(e);
        },
        Ok(()) => {},
    }
    if !voting_nfts.resource_address.eq(&p.governance_resource) {
        return Err(DaoError::WrongGovernanceToken);
    }
    if voting_nfts.nft_ids.len() == 0 {
        proof {
            assert(pv.len() == 0);
        }
        return Err(DaoError::NoTokensProvided);
    }

    let mut nfts_to_vote: Vec<String> = Vec::new();
    let mut i: usize = 0;
    while i < voting_nfts.nft_ids.len()
        invariant
            i <= voting_nfts.nft_ids@.len(),
            id_views(nfts_to_vote@) =~= newly_consumed(pv.take(i as int), cons),
        decreases voting_nfts.nft_ids@.len() - i,
    {
        let nft = &voting_nfts.nft_ids[i];
        proof {
            assert(pv.take(i + 1) =~= pv.take(i as int).push(nft@));
            assert(pv.take(i + 1).drop_last() =~= pv.take(i as int));
            crate::utils::lemma_contains_id_views(p.nfts_voted@, nft@);
            crate::utils::lemma_contains_id_views(nfts_to_vote@, nft@);
        }
        if contains_string(&p.nfts_voted, nft) || contains_string(&nfts_to_vote, nft) {
            proof {
                assert(newly_consumed(pv.take(i + 1), cons) =~= newly_consumed(
                    pv.take(i as int),
                    cons,
                ));
            }
        } else {
            nfts_to_vote.push(nft.clone());
            proof {
                crate::utils::lemma_id_views_push(nfts_to_vote@.drop_last(), nfts_to_vote@.last());
                assert(nfts_to_vote@.drop_last().push(nfts_to_vote@.last()) =~= nfts_to_vote@);
                assert(id_views(nfts_to_vote@) =~= newly_consumed(pv.take(i + 1), cons));
            }
        }
        i = i + 1;
    }
    proof {
        assert(pv.take(pv.len() as int) =~= pv);
    }
    let ghost nc = newly_consumed(pv, cons);

    if nfts_to_vote.len() == 0 {
        proof {
            assert(nc.len() == id_views(nfts_to_vote@).len());
        }
        return Err(DaoError::AllTokensAlreadyVoted);
    }

    proof {
        lemma_newly_consumed_props(pv, cons);
    }

    let new_count = nfts_to_vote.len();
    let mut k: usize = 0;
    while k < new_count
        invariant
            k <= new_count,
            new_count == nfts_to_vote@.len(),
            p.nfts_voted@ =~= old(p).nfts_voted@ + nfts_to_vote@.take(k as int),
            p.same_meta(*old(p)),
            p.options == old(p).options,
            p.votes == old(p).votes,
            p.result == old(p).result,
        decreases new_count - k,
    {
        p.nfts_voted.push(nfts_to_vote[k].clone());
        proof {
            assert(p.nfts_voted@ =~= old(p).nfts_voted@ + nfts_to_vote@.take(k + 1));
        }
        k = k + 1;
    }
    proof {
        assert(nfts_to_vote@.take(new_count as int) =~= nfts_to_vote@);
        crate::utils::lemma_id_views_add(old(p).nfts_voted@, nfts_to_vote@);
    }

    let power = Decimal::from_count(new_count as u64);
    let vote = ProposalVote::new(
        proposal_vote_id,
        proposal_option_id,
        entity,
        power,
        nfts_to_vote,
        created,
        current_epoch,
        additional_data,
    );
    p.votes.push(vote);

    proof {
        let ov = old(p).votes@;
        let nv = p.votes@;
        let v = nv.last();
        let onv = old(p).nfts_voted@;
        let nnv = p.nfts_voted@;
        let ntv = v.nfts@;
        assert(nv =~= ov.push(v));
        assert(id_views(ntv) == nc);
        assert(ntv.len() == nc.len());
        crate::utils::lemma_id_views_add(onv, ntv);
        assert(id_views(nnv) =~= id_views(onv) + nc);

        // Vote identifiers stay pairwise distinct.
        assert forall|a: int, b: int| 0 <= a < b < nv.len() implies nv[a].id@ != nv[b].id@ by {
            if b < ov.len() {
                assert(nv[a] == ov[a] && nv[b] == ov[b]);
            } else {
                assert(nv[a] == ov[a]);
                if ov[a].id@ == v.id@ {
                    assert(has_vote_id(ov, proposal_vote_id@));
                }
            }
        }

        // Every vote still targets an existing option.
        assert forall|a: int| 0 <= a < nv.len() implies has_option_id(
            p.options@,
            (#[trigger] nv[a]).option_id@,
        ) by {
            if a < ov.len() {
                assert(nv[a] == ov[a]);
            }
        }

        // Powers, non-emptiness and per-vote distinctness.
        assert(votes_powers_wf(nv)) by {
            assert forall|a: int| 0 <= a < nv.len() implies (#[trigger] nv[a]).power.atto
                == vote_weight(nv[a]) * DECIMAL_SCALE by {
                if a < ov.len() {
                    assert(nv[a] == ov[a]);
                }
            }
        }
        assert forall|a: int| 0 <= a < nv.len() implies (#[trigger] nv[a]).nfts@.len() >= 1 by {
            if a < ov.len() {
                assert(nv[a] == ov[a]);
            }
        }
        assert forall|a: int| 0 <= a < nv.len() implies distinct_ids(
            (#[trigger] nv[a]).nfts@,
        ) by {
            if a < ov.len() {
                assert(nv[a] == ov[a]);
            } else {
                assert forall|x: int, y: int| 0 <= x < y < ntv.len() implies ntv[x]@ != ntv[y]@ by {
                    assert(id_views(ntv)[x] == ntv[x]@ && id_views(ntv)[y] == ntv[y]@);
                }
            }
        }

        // The new vote's instances are disjoint from every old vote's.
        assert forall|t: Seq<char>| #[trigger] contains_id(ntv, t) implies nc.contains(t) by {
            let x = choose|x: int| 0 <= x < ntv.len() && ntv[x]@ == t;
            assert(id_views(ntv)[x] == t);
        }
        assert forall|t: Seq<char>| nc.contains(t) implies contains_id(ntv, t) by {
            let x = choose|x: int| 0 <= x < nc.len() && nc[x] == t;
            assert(id_views(ntv)[x] == t);
            assert(ntv[x]@ == t);
        }
        assert forall|t: Seq<char>| #[trigger] contains_id(onv, t) implies cons.contains(t) by {
            crate::utils::lemma_contains_id_views(onv, t);
        }
        assert forall|t: Seq<char>| cons.contains(t) implies contains_id(onv, t) by {
            crate::utils::lemma_contains_id_views(onv, t);
        }
        assert(votes_nfts_disjoint(nv)) by {
            assert forall|a: int, b: int, t: Seq<char>|
                0 <= a < nv.len() && 0 <= b < nv.len() && a != b && #[trigger] contains_id(
                    nv[a].nfts@,
                    t,
                ) implies !(#[trigger] contains_id(nv[b].nfts@, t)) by {
                if a < ov.len() && b < ov.len() {
                    assert(nv[a] == ov[a] && nv[b] == ov[b]);
                } else if a < ov.len() {
                    // b is the new vote: an old vote's instance is consumed,
                    // so it is not among the newly consumed.
                    assert(nv[a] == ov[a]);
                    assert(contains_id(onv, t));
                    if contains_id(nv[b].nfts@, t) {
                        assert(nc.contains(t));
                    }
                } else {
                    assert(nv[b] == ov[b]);
                    assert(nc.contains(t));
                    if contains_id(nv[b].nfts@, t) {
                        assert(contains_id(onv, t));
                    }
                }
            }
        }

        // The consumed-instance ledger stays duplicate-free.
        assert(distinct_ids(nnv)) by {
            assert forall|x: int, y: int| 0 <= x < y < nnv.len() implies nnv[x]@ != nnv[y]@ by {
                assert(id_views(nnv)[x] == nnv[x]@ && id_views(nnv)[y] == nnv[y]@);
                if x < onv.len() && y < onv.len() {
                    assert(nnv[x] == onv[x] && nnv[y] == onv[y]);
                } else if x < onv.len() {
                    assert(id_views(nnv)[x] == cons[x]);
                    assert(id_views(nnv)[y] == nc[y - onv.len()]);
                    if cons[x] == nc[y - onv.len()] {
                        assert(cons.contains(nc[y - onv.len()]));
                        assert(nc.contains(nc[y - onv.len()]));
                    }
                } else {
                    assert(id_views(nnv)[x] == nc[x - onv.len()]);
                    assert(id_views(nnv)[y] == nc[y - onv.len()]);
                    assert(nc.no_duplicates());
                }
            }
        }

        // Every vote's instances stand in the ledger.
        assert forall|a: int, t: Seq<char>|
            0 <= a < nv.len() && #[trigger] contains_id(nv[a].nfts@, t) implies contains_id(
            nnv,
            t,
        ) by {
            if a < ov.len() {
                assert(nv[a] == ov[a]);
                assert(contains_id(onv, t));
                let x = choose|x: int| 0 <= x < onv.len() && onv[x]@ == t;
                assert(nnv[x] == onv[x]);
            } else {
                let x = choose|x: int| 0 <= x < ntv.len() && ntv[x]@ == t;
                assert(nnv[onv.len() + x] == ntv[x]);
            }
        }

        // And every ledger entry belongs to some vote.
        assert forall|t: Seq<char>| #[trigger] contains_id(nnv, t) implies exists|a: int|
            0 <= a < nv.len() && contains_id(nv[a].nfts@, t) by {
            let x = choose|x: int| 0 <= x < nnv.len() && nnv[x]@ == t;
            if x < onv.len() {
                assert(onv[x] == nnv[x]);
                assert(contains_id(onv, t));
                let a = choose|a: int| 0 <= a < ov.len() && contains_id(ov[a].nfts@, t);
                assert(nv[a] == ov[a]);
                assert(contains_id(nv[a].nfts@, t));
            } else {
                assert(ntv[x - onv.len()] == nnv[x]);
                assert(contains_id(nv[nv.len() - 1].nfts@, t));
            }
        }

        // The total vote power tracks the ledger's size.
        crate::sums::lemma_sum_by_push(ov, |w: ProposalVote| vote_weight(w), v);
        assert(total_count(nv) == total_count(ov) + ntv.len());
        assert(nnv.len() == onv.len() + ntv.len());
        assert(p.wf());
    }

    update_result(p);
    Ok(())
}

/// One where the vote consumed the instance `t`, zero elsewhere.
pub open spec fn consumes_fn(t: Seq<char>) -> spec_fn(ProposalVote) -> int {
    |v: ProposalVote| if contains_id(v.nfts@, t) {
        1int
    } else {
        0int
    }
}

/// With pairwise disjoint votes, at most one vote consumes an instance.
proof fn lemma_consumes_sum(votes: Seq<ProposalVote>, t: Seq<char>)
    requires
        votes_nfts_disjoint(votes),
    ensures
        0 <= sum_by(votes, consumes_fn(t)) <= 1,
        sum_by(votes, consumes_fn(t)) == 1 <==> exists|i: int|
            0 <= i < votes.len() && contains_id(votes[i].nfts@, t),
    decreases votes.len(),
{
    let f = consumes_fn(t);
    if votes.len() > 0 {
        let rest = votes.drop_last();
        let v = votes.last();
        assert(votes_nfts_disjoint(rest)) by {
            assert forall|a: int, b: int, t2: Seq<char>|
                0 <= a < rest.len() && 0 <= b < rest.len() && a != b && #[trigger] contains_id(
                    rest[a].nfts@,
                    t2,
                ) implies !(#[trigger] contains_id(rest[b].nfts@, t2)) by {
                assert(rest[a] == votes[a] && rest[b] == votes[b]);
            }
        }
        lemma_consumes_sum(rest, t);
        if contains_id(v.nfts@, t) {
            assert(f(v) == 1);
            assert(votes[votes.len() - 1] == v);
            assert forall|i: int| 0 <= i < rest.len() implies !contains_id(
                (#[trigger] rest[i]).nfts@,
                t,
            ) by {
                assert(rest[i] == votes[i]);
            }
            assert(sum_by(rest, f) == 0) by {
                if sum_by(rest, f) == 1 {
                    let i = choose|i: int| 0 <= i < rest.len() && contains_id(rest[i].nfts@, t);
                }
            }
        } else {
            assert(f(v) == 0);
            assert forall|i: int|
                0 <= i < votes.len() && contains_id((#[trigger] votes[i]).nfts@, t) implies 0 <= i
                < rest.len() && contains_id(rest[i].nfts@, t) by {
                assert(votes[i] != v || !contains_id(v.nfts@, t));
                assert(i < votes.len() - 1);
                assert(rest[i] == votes[i]);
            }
            assert forall|i: int|
                0 <= i < rest.len() && contains_id((#[trigger] rest[i]).nfts@, t) implies
                contains_id(votes[i].nfts@, t) by {
                assert(rest[i] == votes[i]);
            }
        }
    }
}

/// Law: idempotent token consumption. However often a token instance is
/// presented, over a proposal's whole lifetime it contributes power to at
/// most one vote — exactly one once it stands in the consumed-instance
/// ledger, and none before — and the total consumed power is one whole
/// unit per ledger entry.
pub proof fn lemma_token_consumed_once(p: Proposal, t: Seq<char>)
    requires
        p.wf(),
    ensures
        0 <= sum_by(p.votes@, consumes_fn(t)) <= 1,
        contains_id(p.nfts_voted@, t) ==> sum_by(p.votes@, consumes_fn(t)) == 1,
        !contains_id(p.nfts_voted@, t) ==> sum_by(p.votes@, consumes_fn(t)) == 0,
        total_count(p.votes@) == p.nfts_voted@.len(),
{
    lemma_consumes_sum(p.votes@, t);
    if contains_id(p.nfts_voted@, t) {
        assert(exists|i: int| 0 <= i < p.votes@.len() && contains_id(p.votes@[i].nfts@, t));
    } else {
        if sum_by(p.votes@, consumes_fn(t)) == 1 {
            let i = choose|i: int| 0 <= i < p.votes@.len() && contains_id(p.votes@[i].nfts@, t);
        }
    }
}

/// Law: window enforcement. When every other admission condition holds —
/// the option exists, the vote identifier is fresh, the proof is of the
/// right token class and presents at least one not-yet-consumed instance —
/// a vote is admitted exactly when
/// `voting_start_epoch <= current_epoch <= voting_end_epoch`, and is
/// otherwise rejected as `VotingNotOpen`.
pub proof fn lemma_window_enforcement(
    p: Proposal,
    vid: Seq<char>,
    oid: Seq<char>,
    resource: Seq<char>,
    presented: Seq<Seq<char>>,
    current_epoch: u64,
)
    requires
        has_option_id(p.options@, oid),
        !has_vote_id(p.votes@, vid),
        resource == p.governance_resource@,
        presented.len() > 0,
        newly_consumed(presented, id_views(p.nfts_voted@)).len() > 0,
    ensures
        vote_admission(p, vid, oid, resource, presented, current_epoch) is Ok
            <==> p.voting_start_epoch <= current_epoch <= p.voting_end_epoch,
        !p.is_open(current_epoch) ==> vote_admission(p, vid, oid, resource, presented, current_epoch)
            == Result::<(), DaoError>::Err(DaoError::VotingNotOpen),
{
}

/// Whether a collection of proposal records is a well-formed registry:
/// every proposal is well-formed, has a valid identifier, and no two
/// proposals share a stored non-fungible key.
pub open spec fn proposals_wf(s: Seq<Proposal>) -> bool {
    &&& forall|i: int| 0 <= i < s.len() ==> (#[trigger] s[i]).wf()
    &&& forall|i: int| 0 <= i < s.len() ==> valid_id((#[trigger] s[i]).proposal_id@)
    &&& forall|i: int, j: int|
        0 <= i < j < s.len() ==> key_of(s[i].proposal_id@) != key_of(s[j].proposal_id@)
}

/// Whether a proposal stored under the non-fungible key `key` exists.
pub open spec fn has_proposal_key(s: Seq<Proposal>, key: Seq<char>) -> bool {
    exists|i: int| 0 <= i < s.len() && key_of(s[i].proposal_id@) == key
}

/// The index of the proposal stored under `key`.
pub open spec fn proposal_index_of(s: Seq<Proposal>, key: Seq<char>) -> int {
    choose|i: int| 0 <= i < s.len() && key_of(s[i].proposal_id@) == key
}

/// Finds the proposal stored under the non-fungible key `nft_key`.
pub fn find_proposal_index(proposals: &Vec<Proposal>, nft_key: &String) -> (r: Option<usize>)
    requires
        forall|i: int|
            0 <= i < proposals@.len() ==> valid_id((#[trigger] proposals@[i]).proposal_id@),
    ensures
        r matches Some(i) ==> 0 <= i < proposals@.len() && key_of(
            proposals@[i as int].proposal_id@,
        ) == nft_key@,
        r is None <==> !has_proposal_key(proposals@, nft_key@),
{
    let mut i: usize = 0;
    while i < proposals.len()
        invariant
            i <= proposals@.len(),
            forall|i2: int|
                0 <= i2 < proposals@.len() ==> valid_id((#[trigger] proposals@[i2]).proposal_id@),
            forall|k: int| 0 <= k < i ==> key_of((#[trigger] proposals@[k]).proposal_id@) != nft_key@,
        decreases proposals@.len() - i,
    {
        let k = create_non_fungible_id_of_uuid(proposals[i].proposal_id.as_str());
        if k.eq(nft_key) {
            return Some(i);
        }
        i = i + 1;
    }
    None
}

/// Appends an option to the proposal stored under `proposal_id`.
///
/// Fails with `NotFound` if no such proposal exists; otherwise as the
/// option-freeze rule decides (see [`append_option`]). On any failure the
/// registry is unchanged.
pub fn add_option(
    proposals: &mut Vec<Proposal>,
    proposal_id: &str,
    option_id: String,
    rank: u32,
    option: String,
    additional_data: Vec<(String, String)>,
    current_epoch: u64,
) -> (r: Result<(), DaoError>)
    requires
        valid_id(proposal_id@),
        proposals_wf(old(proposals)@),
    ensures
        proposals_wf(final(proposals)@),
        r == Err::<(), DaoError>(DaoError::NotFound) <==> !has_proposal_key(
            old(proposals)@,
            key_of(proposal_id@),
        ),
        r is Err ==> final(proposals)@ == old(proposals)@,
        has_proposal_key(old(proposals)@, key_of(proposal_id@)) ==> {
            let i = proposal_index_of(old(proposals)@, key_of(proposal_id@));
            let oldp = old(proposals)@[i];
            &&& final(proposals)@ == old(proposals)@.update(i, final(proposals)@[i])
            &&& (r == Err::<(), DaoError>(DaoError::OptionsFrozen) <==> current_epoch
                >= oldp.voting_start_epoch)
            &&& (r == Err::<(), DaoError>(DaoError::DuplicateOption) <==> current_epoch
                < oldp.voting_start_epoch && option_collides(
                oldp.options@,
                option_id@,
                option@,
                rank,
            ))
            &&& (r is Ok <==> current_epoch < oldp.voting_start_epoch && !option_collides(
                oldp.options@,
                option_id@,
                option@,
                rank,
            ))
            &&& (r is Ok ==> option_appended(
                oldp,
                final(proposals)@[i],
                option_id,
                rank,
                option,
                additional_data,
            ))
        },
{
    let nft_key = create_non_fungible_id_of_uuid(proposal_id);
    let idx = match find_proposal_index(proposals, &nft_key) {
        None => {
            return Err(DaoError::NotFound);
        },
        Some(i) => i,
    };
    proof {
        let i0 = proposal_index_of(old(proposals)@, key_of(proposal_id@));
        assert(key_of(old(proposals)@[i0].proposal_id@) == key_of(proposal_id@));
        assert(i0 == idx);
    }
    let p = &mut proposals[idx];
    let r = append_option(p, option_id, rank, option, additional_data, current_epoch);
    proof {
        assert(proposals@ =~= old(proposals)@.update(idx as int, proposals@[idx as int]));
        if r is Err {
            assert(proposals@ =~= old(proposals)@);
        }
        assert(proposals_wf(proposals@)) by {
            assert forall|a: int| 0 <= a < proposals@.len() implies (#[trigger] proposals@[a]).wf()
                && valid_id(proposals@[a].proposal_id@) by {
                if a != idx {
                    assert(proposals@[a] == old(proposals)@[a]);
                }
            }
            assert forall|a: int, b: int| 0 <= a < b < proposals@.len() implies key_of(
                proposals@[a].proposal_id@,
            ) != key_of(proposals@[b].proposal_id@) by {
                assert(proposals@[a].proposal_id == old(proposals)@[a].proposal_id);
                assert(proposals@[b].proposal_id == old(proposals)@[b].proposal_id);
            }
        }
    }
    r
}

/// Casts a vote on the proposal stored under `proposal_id`.
///
/// Fails with `NotFound` if no such proposal exists; otherwise as the
/// admission checks decide (see [`cast_vote`]). On any failure the
/// registry is unchanged.
pub fn mint_nft_vote(
    proposals: &mut Vec<Proposal>,
    proposal_id: &str,
    proposal_vote_id: String,
    proposal_option_id: String,
    entity: String,
    voting_nfts: &TokenProof,
    created: String,
    current_epoch: u64,
    additional_data: Vec<(String, String)>,
) -> (r: Result<(), DaoError>)
    requires
        valid_id(proposal_id@),
        proposals_wf(old(proposals)@),
        forall|i: int|
            0 <= i < old(proposals)@.len() ==> (#[trigger] old(
                proposals,
            )@[i]).nfts_voted@.len() + voting_nfts.nft_ids@.len() <= usize::MAX,
        forall|i: int|
            0 <= i < old(proposals)@.len() ==> (#[trigger] old(proposals)@[i]).votes@.len()
                < u32::MAX,
    ensures
        proposals_wf(final(proposals)@),
        r == Err::<(), DaoError>(DaoError::NotFound) <==> !has_proposal_key(
            old(proposals)@,
            key_of(proposal_id@),
        ),
        r is Err ==> final(proposals)@ == old(proposals)@,
        has_proposal_key(old(proposals)@, key_of(proposal_id@)) ==> {
            let i = proposal_index_of(old(proposals)@, key_of(proposal_id@));
            let oldp = old(proposals)@[i];
            &&& final(proposals)@ == old(proposals)@.update(i, final(proposals)@[i])
            &&& r == vote_admission(
                oldp,
                proposal_vote_id@,
                proposal_option_id@,
                voting_nfts.resource_address@,
                id_views(voting_nfts.nft_ids@),
                current_epoch,
            )
            &&& (r is Ok ==> vote_cast(
                oldp,
                final(proposals)@[i],
                proposal_vote_id,
                proposal_option_id,
                entity,
                voting_nfts.nft_ids,
                created,
                current_epoch,
                additional_data,
            ))
        },
{
    let nft_key = create_non_fungible_id_of_uuid(proposal_id);
    let idx = match find_proposal_index(proposals, &nft_key) {
        None => {
            return Err(DaoError::NotFound);
        },
        Some(i) => i,
    };
    proof {
        let i0 = proposal_index_of(old(proposals)@, key_of(proposal_id@));
        assert(key_of(old(proposals)@[i0].proposal_id@) == key_of(proposal_id@));
        assert(i0 == idx);
    }
    let p = &mut proposals[idx];
    let r = cast_vote(
        p,
        proposal_vote_id,
        proposal_option_id,
        entity,
        voting_nfts,
        created,
        current_epoch,
        additional_data,
    );
    proof {
        assert(proposals@ =~= old(proposals)@.update(idx as int, proposals@[idx as int]));
        if r is Err {
            assert(proposals@ =~= old(proposals)@);
        }
        assert(proposals_wf(proposals@)) by {
            assert forall|a: int| 0 <= a < proposals@.len() implies (#[trigger] proposals@[a]).wf()
                && valid_id(proposals@[a].proposal_id@) by {
                if a != idx {
                    assert(proposals@[a] == old(proposals)@[a]);
                }
            }
            assert forall|a: int, b: int| 0 <= a < b < proposals@.len() implies key_of(
                proposals@[a].proposal_id@,
            ) != key_of(proposals@[b].proposal_id@) by {
                assert(proposals@[a].proposal_id == old(proposals)@[a].proposal_id);
                assert(proposals@[b].proposal_id == old(proposals)@[b].proposal_id);
            }
        }
    }
    r
}

/// Recomputes and overwrites the proposal's result from its current votes
/// and options.
pub fn update_result(p: &mut Proposal)
    requires
        old(p).votes@.len() <= u32::MAX,
        total_count(old(p).votes@) <= u64::MAX,
        votes_powers_wf(old(p).votes@),
    ensures
        final(p).same_meta(*old(p)),
        final(p).options == old(p).options,
        final(p).votes == old(p).votes,
        final(p).nfts_voted == old(p).nfts_voted,
        final(p).result matches Some(res) && is_tally_of(res, old(p).votes@, old(p).options@),
{
    let res = calc_result(&p.votes, &p.options);
    p.result = Some(res);
}

} // verus!
