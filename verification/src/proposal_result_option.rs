//! One option's line of a tally result: the option, and its share of the
//! total vote power.

use vstd::prelude::*;
use crate::decimal::Decimal;

verus! {

/// One option's entry in a proposal's tally result.
pub struct ProposalResultOption {
    /// The option's identifier.
    pub option_id: String,
    /// The option's display label.
    pub option_name: String,
    /// The option's share of the total vote power, in `[0, 1]`.
    pub share: Decimal,
    /// Free-form extension values.
    pub additional_data: Vec<(String, String)>,
    /// Free-form extension lists.
    pub additional_data_vec: Vec<(String, Vec<String>)>,
}

impl ProposalResultOption {
    /// A new result entry with the given fields and empty extension lists.
    pub fn new(option_id: String, option_name: String, share: Decimal) -> (r:
        ProposalResultOption)
        ensures
            r.option_id == option_id,
            r.option_name == option_name,
            r.share == share,
            r.additional_data@ =~= Seq::<(String, String)>::empty(),
            r.additional_data_vec@ =~= Seq::<(String, Vec<String>)>::empty(),
    {
        ProposalResultOption {
            option_id,
            option_name,
            share,
            additional_data: Vec::new(),
            additional_data_vec: Vec::new(),
        }
    }
}

} // verus!
