//! The tally engine: a pure function from the current vote set and option
//! set to the proposal's result — the number of votes, the total vote power,
//! and each option's share of that power.
//!
//! The result is recomputed wholesale after every accepted vote. The output
//! options stand in the same order as the proposal's options, every option
//! appears exactly once, and every numeric field is a function of the
//! multiset of votes alone, so the tally is deterministic under any
//! reordering of the votes. When no vote power has been cast yet, every
//! share is zero.

use vstd::prelude::*;
use crate::decimal::Decimal;
use crate::decimal::DECIMAL_SCALE;
use crate::decimal::ratio_of_counts;
use crate::proposal_option::ProposalOption;
use crate::proposal_result_option::ProposalResultOption;
use crate::proposal_vote::ProposalVote;
use crate::proposal_option::has_option_id;
use crate::sums::sum_by;
use crate::sums::lemma_sum_by_take_succ;
use crate::sums::lemma_sum_by_take_le;
use crate::sums::lemma_sum_by_le;
use crate::sums::lemma_sum_by_add;
use crate::sums::lemma_sum_by_multiset;
use crate::sums::lemma_sum_by_nonneg;
use crate::sums::lemma_sum_by_push;
use crate::sums::lemma_sum_by_zero;
use crate::decimal::lemma_ratio_bounds;
use vstd::arithmetic::mul::lemma_mul_is_distributive_add;
use vstd::arithmetic::mul::lemma_mul_inequality;

verus! {

/// A proposal's tally result.
pub struct ProposalResult {
    /// How many vote records were tallied (not token instances).
    pub vote_count: u32,
    /// The total vote power: one whole unit per consumed token instance.
    pub vote_power: Decimal,
    /// One entry per option of the proposal, in the proposal's order.
    pub results: Vec<ProposalResultOption>,
    /// Free-form extension values.
    pub additional_data: Vec<(String, String)>,
    /// Free-form extension lists.
    pub additional_data_vec: Vec<(String, Vec<String>)>,
}

impl ProposalResult {
    /// A new result record with the given fields and empty extension lists.
    pub fn new(vote_count: u32, vote_power: Decimal, results: Vec<ProposalResultOption>) -> (r:
        ProposalResult)
        ensures
            r.vote_count == vote_count,
            r.vote_power == vote_power,
            r.results == results,
            r.additional_data@ =~= Seq::<(String, String)>::empty(),
            r.additional_data_vec@ =~= Seq::<(String, Vec<String>)>::empty(),
    {
        ProposalResult {
            vote_count,
            vote_power,
            results,
            additional_data: Vec::new(),
            additional_data_vec: Vec::new(),
        }
    }
}

/// The weight a vote adds to the tally: one per token instance it consumed.
pub open spec fn vote_weight(v: ProposalVote) -> int {
    v.nfts@.len() as int
}

/// The weight a vote adds to the option named `oid`.
pub open spec fn option_weight(oid: Seq<char>) -> spec_fn(ProposalVote) -> int {
    |v: ProposalVote| if v.option_id@ == oid {
        vote_weight(v)
    } else {
        0
    }
}

/// The total number of token instances consumed by `votes`.
pub open spec fn total_count(votes: Seq<ProposalVote>) -> int {
    sum_by(votes, |v: ProposalVote| vote_weight(v))
}

/// The number of token instances that `votes` put on the option named `oid`.
pub open spec fn option_count(votes: Seq<ProposalVote>, oid: Seq<char>) -> int {
    sum_by(votes, option_weight(oid))
}

/// The share, in atto-units, of `part` out of `whole`, truncated towards
/// zero; zero when nothing has been cast.
pub open spec fn share_atto(part: int, whole: int) -> int {
    if whole == 0 {
        0
    } else {
        (part * DECIMAL_SCALE) / whole
    }
}

/// Whether each vote's stored power agrees with the token instances it
/// consumed: one whole unit per instance.
pub open spec fn votes_powers_wf(votes: Seq<ProposalVote>) -> bool {
    forall|i: int|
        0 <= i < votes.len() ==> (#[trigger] votes[i].power).atto == vote_weight(votes[i])
            * DECIMAL_SCALE
}

/// Whether `r` is the tally of `votes` over `options`: the vote count, the
/// total power, and one entry per option, in order, each carrying its
/// option's identifier, label and share of the total power.
pub open spec fn is_tally_of(
    r: ProposalResult,
    votes: Seq<ProposalVote>,
    options: Seq<ProposalOption>,
) -> bool {
    &&& r.vote_count == votes.len()
    &&& r.vote_power.atto == total_count(votes) * DECIMAL_SCALE
    &&& r.results@.len() == options.len()
    &&& forall|i: int|
        0 <= i < options.len() ==> {
            &&& (#[trigger] r.results@[i]).option_id@ == options[i].id@
            &&& r.results@[i].option_name@ == options[i].option@
            &&& r.results@[i].share.atto == share_atto(
                option_count(votes, options[i].id@),
                total_count(votes),
            )
        }
}

/// Tallies `votes` over `options`.
///
/// Every option gets an entry, in the order the options stand in, whether or
/// not it received votes. The vote count counts vote records; the vote power
/// counts consumed token instances; an option's share is its power divided
/// by the total power, or zero while the total power is zero.
pub fn calc_result(votes: &Vec<ProposalVote>, options: &Vec<ProposalOption>) -> (r:
    ProposalResult)
    requires
        votes@.len() <= u32::MAX,
        total_count(votes@) <= u64::MAX,
        votes_powers_wf(votes@),
    ensures
        is_tally_of(r, votes@, options@),
        r.additional_data@.len() == 0,
        r.additional_data_vec@.len() == 0,
{
    let ghost weight_fn = |v: ProposalVote| vote_weight(v);
    let mut votes_count: u32 = 0;
    let mut total: u64 = 0;
    let mut j: usize = 0;
    while j < votes.len()
        invariant
            j <= votes@.len(),
            votes@.len() <= u32::MAX,
            total_count(votes@) <= u64::MAX,
            votes_count == j,
            total == sum_by(votes@.take(j as int), weight_fn),
            weight_fn == (|v: ProposalVote| vote_weight(v)),
        decreases votes@.len() - j,
    {
        proof {
            lemma_sum_by_take_succ(votes@, weight_fn, j as int);
            lemma_sum_by_take_le(votes@, weight_fn, j + 1);
        }
        total = total + (votes[j].nfts.len() as u64);
        votes_count = votes_count + 1;
        j = j + 1;
    }
    proof {
        assert(votes@.take(votes@.len() as int) =~= votes@);
    }

    let mut result_options: Vec<ProposalResultOption> = Vec::new();
    let mut i: usize = 0;
    while i < options.len()
        invariant
            i <= options@.len(),
            total == total_count(votes@),
            total_count(votes@) <= u64::MAX,
            weight_fn == (|v: ProposalVote| vote_weight(v)),
            result_options@.len() == i,
            forall|k: int|
                0 <= k < i ==> {
                    &&& (#[trigger] result_options@[k]).option_id@ == options@[k].id@
                    &&& result_options@[k].option_name@ == options@[k].option@
                    &&& result_options@[k].share.atto == share_atto(
                        option_count(votes@, options@[k].id@),
                        total_count(votes@),
                    )
                },
        decreases options@.len() - i,
    {
        let ghost oid = options@[i as int].id@;
        let ghost opt_fn = option_weight(oid);
        let mut acc: u64 = 0;
        let mut j2: usize = 0;
        proof {
            assert forall|k: int| 0 <= k < votes@.len() implies #[trigger] opt_fn(votes@[k])
                <= weight_fn(votes@[k]) by {
                assert(opt_fn(votes@[k]) == if votes@[k].option_id@ == oid {
                    vote_weight(votes@[k])
                } else {
                    0
                });
            }
            lemma_sum_by_le(votes@, opt_fn, weight_fn);
        }
        while j2 < votes.len()
            invariant
                i < options@.len(),
                oid == options@[i as int].id@,
                j2 <= votes@.len(),
                acc == sum_by(votes@.take(j2 as int), opt_fn),
                sum_by(votes@, opt_fn) <= total_count(votes@) <= u64::MAX,
                opt_fn == option_weight(oid),
            decreases votes@.len() - j2,
        {
            proof {
                lemma_sum_by_take_succ(votes@, opt_fn, j2 as int);
                lemma_sum_by_take_le(votes@, opt_fn, j2 + 1);
            }
            if votes[j2].option_id.eq(&options[i].id) {
                acc = acc + (votes[j2].nfts.len() as u64);
            }
            j2 = j2 + 1;
        }
        proof {
            assert(votes@.take(votes@.len() as int) =~= votes@);
        }
        let share = if total == 0 {
            Decimal::zero()
        } else {
            ratio_of_counts(acc, total)
        };
        let result_option = ProposalResultOption::new(options[i].id(), options[i].option(), share);
        result_options.push(result_option);
        i = i + 1;
    }

    ProposalResult::new(votes_count, Decimal::from_count(total), result_options)
}

/// The per-option weight of `votes`, as a function of the option.
pub open spec fn counts_fn(votes: Seq<ProposalVote>) -> spec_fn(ProposalOption) -> int {
    |o: ProposalOption| option_count(votes, o.id@)
}

/// The per-option share of `votes`, as a function of the option.
pub open spec fn shares_fn(votes: Seq<ProposalVote>) -> spec_fn(ProposalOption) -> int {
    |o: ProposalOption| share_atto(option_count(votes, o.id@), total_count(votes))
}

/// `c` where the option is named `oid`, zero elsewhere.
pub open spec fn indicator_fn(oid: Seq<char>, c: int) -> spec_fn(ProposalOption) -> int {
    |o: ProposalOption| if o.id@ == oid {
        c
    } else {
        0
    }
}

/// The sum, in atto-units, of every option's share of `votes`.
pub open spec fn shares_sum(votes: Seq<ProposalVote>, options: Seq<ProposalOption>) -> int {
    sum_by(options, shares_fn(votes))
}

/// Law: the tally is deterministic. Two vote lists that hold the same votes
/// in any order produce results with identical vote counts, identical total
/// vote power, and identical per-option identifiers, labels and shares.
pub proof fn lemma_tally_determinism(
    r1: ProposalResult,
    r2: ProposalResult,
    votes1: Seq<ProposalVote>,
    votes2: Seq<ProposalVote>,
    options: Seq<ProposalOption>,
)
    requires
        votes1.to_multiset() == votes2.to_multiset(),
        is_tally_of(r1, votes1, options),
        is_tally_of(r2, votes2, options),
    ensures
        r1.vote_count == r2.vote_count,
        r1.vote_power == r2.vote_power,
        r1.results@.len() == r2.results@.len(),
        forall|i: int|
            0 <= i < options.len() ==> {
                &&& (#[trigger] r1.results@[i]).option_id@ == r2.results@[i].option_id@
                &&& r1.results@[i].option_name@ == r2.results@[i].option_name@
                &&& r1.results@[i].share == r2.results@[i].share
            },
{
    votes1.to_multiset_ensures();
    votes2.to_multiset_ensures();
    assert(votes1.len() == votes2.len());
    lemma_sum_by_multiset(votes1, votes2, |v: ProposalVote| vote_weight(v));
    assert(total_count(votes1) == total_count(votes2));
    assert forall|i: int| 0 <= i < options.len() implies option_count(votes1, #[trigger] options[i].id@)
        == option_count(votes2, options[i].id@) by {
        lemma_sum_by_multiset(votes1, votes2, option_weight(options[i].id@));
    }
}

/// The total count of a vote list is non-negative.
pub proof fn lemma_total_count_nonneg(votes: Seq<ProposalVote>)
    ensures
        total_count(votes) >= 0,
{
    let weight_fn = |v: ProposalVote| vote_weight(v);
    assert forall|k: int| 0 <= k < votes.len() implies #[trigger] weight_fn(votes[k]) >= 0 by {
        assert(weight_fn(votes[k]) == vote_weight(votes[k]));
    }
    lemma_sum_by_nonneg(votes, weight_fn);
}

/// Every per-option count is non-negative and no larger than the total.
proof fn lemma_option_count_bounds(votes: Seq<ProposalVote>, oid: Seq<char>)
    ensures
        0 <= option_count(votes, oid) <= total_count(votes),
{
    let weight_fn = |v: ProposalVote| vote_weight(v);
    let opt_fn = option_weight(oid);
    assert forall|k: int| 0 <= k < votes.len() implies #[trigger] opt_fn(votes[k]) >= 0 by {
        assert(opt_fn(votes[k]) == if votes[k].option_id@ == oid {
            vote_weight(votes[k])
        } else {
            0
        });
    }
    lemma_sum_by_nonneg(votes, opt_fn);
    assert forall|k: int| 0 <= k < votes.len() implies #[trigger] opt_fn(votes[k]) <= weight_fn(
        votes[k],
    ) by {
        assert(opt_fn(votes[k]) == if votes[k].option_id@ == oid {
            vote_weight(votes[k])
        } else {
            0
        });
    }
    lemma_sum_by_le(votes, opt_fn, weight_fn);
}

/// Summing `c` over options whose identifiers are distinct, where exactly
/// one option is named `oid`, gives `c`.
proof fn lemma_sum_indicator_once(options: Seq<ProposalOption>, oid: Seq<char>, c: int)
    requires
        has_option_id(options, oid),
        forall|i: int, j: int|
            0 <= i < j < options.len() ==> options[i].id@ != options[j].id@,
    ensures
        sum_by(options, indicator_fn(oid, c)) == c,
    decreases options.len(),
{
    let f = indicator_fn(oid, c);
    let rest = options.drop_last();
    if options.last().id@ == oid {
        assert forall|k: int| 0 <= k < rest.len() implies #[trigger] f(rest[k]) == 0 by {
            assert(rest[k] == options[k]);
            assert(options[k].id@ != oid);
        }
        lemma_sum_by_zero(rest, f);
        assert(f(options.last()) == c);
    } else {
        let w = choose|i: int| 0 <= i < options.len() && options[i].id@ == oid;
        assert(w < options.len() - 1);
        assert(rest[w] == options[w]);
        assert(has_option_id(rest, oid));
        lemma_sum_indicator_once(rest, oid, c);
        assert(f(options.last()) == 0);
    }
}

/// The per-option counts of distinct options partition the total count when
/// every vote targets one of the options.
proof fn lemma_option_counts_partition(votes: Seq<ProposalVote>, options: Seq<ProposalOption>)
    requires
        forall|i: int|
            0 <= i < votes.len() ==> has_option_id(options, (#[trigger] votes[i]).option_id@),
        forall|i: int, j: int|
            0 <= i < j < options.len() ==> options[i].id@ != options[j].id@,
    ensures
        sum_by(options, counts_fn(votes)) == total_count(votes),
    decreases votes.len(),
{
    if votes.len() == 0 {
        assert forall|k: int| 0 <= k < options.len() implies #[trigger] counts_fn(votes)(
            options[k],
        ) == 0 by {
            assert(counts_fn(votes)(options[k]) == option_count(votes, options[k].id@));
        }
        lemma_sum_by_zero(options, counts_fn(votes));
    } else {
        let w = votes.drop_last();
        let v = votes.last();
        assert(votes[votes.len() - 1] == v);
        assert forall|i: int|
            0 <= i < w.len() implies has_option_id(options, (#[trigger] w[i]).option_id@) by {
            assert(w[i] == votes[i]);
        }
        lemma_option_counts_partition(w, options);
        let g = indicator_fn(v.option_id@, vote_weight(v));
        assert forall|k: int| 0 <= k < options.len() implies #[trigger] counts_fn(votes)(
            options[k],
        ) == counts_fn(w)(options[k]) + g(options[k]) by {
            let oid = options[k].id@;
            assert(w.push(v) =~= votes);
            lemma_sum_by_push(w, option_weight(oid), v);
            assert(option_weight(oid)(v) == if v.option_id@ == oid {
                vote_weight(v)
            } else {
                0
            });
            assert(counts_fn(votes)(options[k]) == option_count(votes, oid));
            assert(counts_fn(w)(options[k]) == option_count(w, oid));
            assert(g(options[k]) == if oid == v.option_id@ {
                vote_weight(v)
            } else {
                0
            });
        }
        lemma_sum_by_add(options, counts_fn(votes), counts_fn(w), g);
        lemma_sum_indicator_once(options, v.option_id@, vote_weight(v));
        assert(w.push(v) =~= votes);
        lemma_sum_by_push(w, |x: ProposalVote| vote_weight(x), v);
    }
}

/// The scaled bound on a sum of truncated shares: with a positive total `t`,
/// the sum of shares, multiplied by `t`, falls short of the scaled sum of
/// the per-option counts by less than `t` per option.
proof fn lemma_shares_sum_scaled(votes: Seq<ProposalVote>, options: Seq<ProposalOption>, t: int)
    requires
        t == total_count(votes),
        t > 0,
    ensures
        t * sum_by(options, shares_fn(votes)) <= DECIMAL_SCALE * sum_by(options, counts_fn(votes)),
        t * sum_by(options, shares_fn(votes)) >= DECIMAL_SCALE * sum_by(options, counts_fn(votes))
            - t * options.len() + options.len(),
    decreases options.len(),
{
    let sf = shares_fn(votes);
    let cf = counts_fn(votes);
    if options.len() == 0 {
        assert(t * sum_by(options, sf) == 0) by (nonlinear_arith)
            requires
                sum_by(options, sf) == 0,
        ;
    } else {
        let rest = options.drop_last();
        let o = options.last();
        lemma_shares_sum_scaled(votes, rest, t);
        let oc = option_count(votes, o.id@);
        lemma_option_count_bounds(votes, o.id@);
        let q = share_atto(oc, t);
        assert(q == (oc * DECIMAL_SCALE) / t);
        lemma_ratio_bounds(oc, t);
        assert(t * q <= oc * DECIMAL_SCALE < t * q + t);
        assert(sf(o) == q);
        assert(cf(o) == oc);
        assert(sum_by(options, sf) == sum_by(rest, sf) + q);
        assert(sum_by(options, cf) == sum_by(rest, cf) + oc);
        lemma_mul_is_distributive_add(t, sum_by(rest, sf), q);
        lemma_mul_is_distributive_add(DECIMAL_SCALE as int, sum_by(rest, cf), oc);
        lemma_mul_is_distributive_add(t, rest.len() as int, 1);
        assert(oc * DECIMAL_SCALE == DECIMAL_SCALE * oc) by (nonlinear_arith);
    }
}

/// Law: the shares of a tally account for the whole. When no vote power has
/// been cast, every option's share is zero; when some has, the shares sum to
/// one whole unit, short by less than one atto-unit per option (each share
/// is truncated towards zero). `votes` must target the proposal's options,
/// whose identifiers are distinct.
pub proof fn lemma_share_sum(votes: Seq<ProposalVote>, options: Seq<ProposalOption>)
    requires
        forall|i: int|
            0 <= i < votes.len() ==> has_option_id(options, (#[trigger] votes[i]).option_id@),
        forall|i: int, j: int|
            0 <= i < j < options.len() ==> options[i].id@ != options[j].id@,
    ensures
        total_count(votes) == 0 ==> forall|i: int|
            0 <= i < options.len() ==> share_atto(
                option_count(votes, (#[trigger] options[i]).id@),
                total_count(votes),
            ) == 0,
        total_count(votes) == 0 ==> shares_sum(votes, options) == 0,
        total_count(votes) > 0 ==> DECIMAL_SCALE - options.len() < shares_sum(votes, options)
            <= DECIMAL_SCALE,
{
    let t = total_count(votes);
    let sf = shares_fn(votes);
    lemma_total_count_nonneg(votes);
    if t == 0 {
        assert forall|k: int| 0 <= k < options.len() implies #[trigger] sf(options[k]) == 0 by {
            assert(sf(options[k]) == share_atto(option_count(votes, options[k].id@), 0));
        }
        lemma_sum_by_zero(options, sf);
    } else {
        lemma_option_counts_partition(votes, options);
        lemma_shares_sum_scaled(votes, options, t);
        let s = shares_sum(votes, options);
        let k = options.len() as int;
        assert(votes.len() > 0);
        assert(has_option_id(options, votes[0].option_id@));
        assert(k >= 1);
        assert(t * s <= DECIMAL_SCALE * t);
        assert(t * s >= DECIMAL_SCALE * t - t * k + k);
        assert(s <= DECIMAL_SCALE) by (nonlinear_arith)
            requires
                t > 0,
                t * s <= DECIMAL_SCALE * t,
        ;
        assert(s > DECIMAL_SCALE - k) by (nonlinear_arith)
            requires
                t > 0,
                k >= 1,
                t * s >= DECIMAL_SCALE * t - t * k + k,
        ;
    }
}

} // verus!
