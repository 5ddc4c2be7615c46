//! One recorded vote: which option it targets, who cast it, which
//! governance-token instances it consumed, and the power those instances
//! carry. A vote is append-only and never edited.

use vstd::prelude::*;
use crate::decimal::Decimal;

verus! {

/// A recorded vote on a proposal.
pub struct ProposalVote {
    /// The vote's identifier, unique among the proposal's votes.
    pub id: String,
    /// The identifier of the option the vote targets.
    pub option_id: String,
    /// The address of the entity that cast the vote.
    pub entity: String,
    /// The vote's power: one whole unit per newly consumed token instance.
    pub power: Decimal,
    /// The token instances this vote consumed.
    pub nfts: Vec<String>,
    /// A human-readable creation timestamp.
    pub created: String,
    /// The epoch at which the vote was recorded.
    pub created_epoch: u64,
    /// Free-form extension values.
    pub additional_data: Vec<(String, String)>,
    /// Free-form extension lists.
    pub additional_data_vec: Vec<(String, Vec<String>)>,
}

impl ProposalVote {
    /// A new vote record with the given fields and empty extension lists.
    pub fn new(
        id: String,
        option_id: String,
        entity: String,
        power: Decimal,
        nfts: Vec<String>,
        created: String,
        created_epoch: u64,
        additional_data: Vec<(String, String)>,
    ) -> (r: ProposalVote)
        ensures
            r.id == id,
            r.option_id == option_id,
            r.entity == entity,
            r.power == power,
            r.nfts == nfts,
            r.created == created,
            r.created_epoch == created_epoch,
            r.additional_data == additional_data,
            r.additional_data_vec@ =~= Seq::<(String, Vec<String>)>::empty(),
    {
        ProposalVote {
            id,
            option_id,
            entity,
            power,
            nfts,
            created,
            created_epoch,
            additional_data,
            additional_data_vec: Vec::new(),
        }
    }

    /// The vote's identifier.
    pub fn id(&self) -> (r: String)
        ensures
            r == self.id,
    {
        self.id.clone()
    }

    /// The identifier of the option the vote targets.
    pub fn option_id(&self) -> (r: String)
        ensures
            r == self.option_id,
    {
        self.option_id.clone()
    }

    /// The vote's power.
    pub fn power(&self) -> (r: Decimal)
        ensures
            r == self.power,
    {
        self.power
    }

    /// The token instances this vote consumed.
    pub fn nfts(&self) -> (r: Vec<String>)
        ensures
            r@ == self.nfts@,
    {
        crate::utils::clone_strings(&self.nfts)
    }
}

} // verus!
