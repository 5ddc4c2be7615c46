//! One votable option of a proposal: an identifier, a rank and a display
//! label, each unique among the options of its proposal.

use vstd::prelude::*;

verus! {

/// Whether one of `options` carries the identifier `oid`.
pub open spec fn has_option_id(options: Seq<ProposalOption>, oid: Seq<char>) -> bool {
    exists|i: int| 0 <= i < options.len() && options[i].id@ == oid
}

/// Whether the identifiers, labels and ranks of `options` are each pairwise
/// distinct, as a proposal requires of its options.
pub open spec fn options_distinct(options: Seq<ProposalOption>) -> bool {
    forall|i: int, j: int|
        0 <= i < j < options.len() ==> {
            &&& options[i].id@ != options[j].id@
            &&& options[i].option@ != options[j].option@
            &&& options[i].rank != options[j].rank
        }
}

/// A votable option of a proposal.
pub struct ProposalOption {
    /// The option's identifier, unique among the proposal's options.
    pub id: String,
    /// The option's rank, unique among the proposal's options.
    pub rank: u32,
    /// The option's display label, unique among the proposal's options.
    pub option: String,
    /// Free-form extension values.
    pub additional_data: Vec<(String, String)>,
    /// Free-form extension lists.
    pub additional_data_vec: Vec<(String, Vec<String>)>,
}

impl ProposalOption {
    /// A new option with the given identifier, rank and label, and empty
    /// extension lists.
    pub fn new(
        id: String,
        rank: u32,
        option: String,
        additional_data: Vec<(String, String)>,
    ) -> (r: ProposalOption)
        ensures
            r.id == id,
            r.rank == rank,
            r.option == option,
            r.additional_data == additional_data,
            r.additional_data_vec@ =~= Seq::<(String, Vec<String>)>::empty(),
    {
        ProposalOption {
            id,
            rank,
            option,
            additional_data,
            additional_data_vec: Vec::new(),
        }
    }

    /// The option's identifier.
    pub fn id(&self) -> (r: String)
        ensures
            r == self.id,
    {
        self.id.clone()
    }

    /// The option's display label.
    pub fn option(&self) -> (r: String)
        ensures
            r == self.option,
    {
        self.option.clone()
    }

    /// The option's rank.
    pub fn rank(&self) -> (r: u32)
        ensures
            r == self.rank,
    {
        self.rank
    }
}

} // verus!
