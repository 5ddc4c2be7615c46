//! A DAO governance ledger: DAOs with admin badges, proposals with ranked
//! options, and weighted votes backed by governance-token instances.
//!
//! The crate models the on-ledger state as plain values: epochs are `u64`
//! ledger-clock readings handed in by the caller, token amounts and vote
//! powers are non-negative fixed-point decimals, and resource or component
//! addresses are opaque identifier strings. The host ledger's own services
//! (credential resolution, minting, storage, fee custody) stay outside;
//! every rule that decides what those services are asked to do lives here,
//! verified: the proposal lifecycle state machine, the once-per-token-
//! instance vote accounting, and the deterministic tally.

use vstd::prelude::*;

pub mod dao;
pub mod dao_admin_badge;
pub mod decimal;
pub mod error;
pub mod proposal;
pub mod proposal_option;
pub mod proposal_result;
pub mod proposal_result_option;
pub mod proposal_vote;
pub mod sums;
pub mod utils;

pub use dao::Dao;
pub use dao_admin_badge::DaoAdminBadge;
pub use decimal::Decimal;
pub use decimal::DECIMAL_SCALE;
pub use error::DaoError;
pub use proposal::Proposal;
pub use proposal::TokenProof;

use crate::dao::daos_wf;
use crate::dao::dao_index_of;
use crate::dao::dao_new_record;
use crate::dao::has_dao_key;
use crate::dao_admin_badge::is_admin_proof;
use crate::proposal::has_proposal_key;
use crate::proposal::option_appended;
use crate::proposal::option_collides;
use crate::proposal::proposal_index_of;
use crate::proposal::proposal_new_record;
use crate::proposal::vote_admission;
use crate::proposal::vote_cast;
use crate::utils::id_views;
use crate::utils::key_of;
use crate::utils::valid_id;

verus! {

/// The component holding the whole governance state: the DAO registry,
/// the accumulated fees, and the price of creating a proposal.
pub struct DaoHoard {
    /// The DAO records, each with its own proposal sub-registry.
    pub daos: Vec<Dao>,
    /// The address of the token the collected fees are denominated in.
    pub crumbs_token_address: String,
    /// The fees collected from proposal creation.
    pub crumb_fees: Decimal,
    /// The fee taken from the payment handed to `dao_add_proposal`.
    pub proposal_creation_price: Decimal,
}

impl DaoHoard {
    /// A well-formed component: its DAO registry is well-formed.
    pub open spec fn wf(self) -> bool {
        daos_wf(self.daos@)
    }

    /// Whether two component states hold the same records, fees and price.
    pub open spec fn state_eq(self, other: DaoHoard) -> bool {
        &&& self.daos@.len() == other.daos@.len()
        &&& forall|i: int|
            0 <= i < self.daos@.len() ==> dao::dao_state_eq(
                #[trigger] self.daos@[i],
                other.daos@[i],
            )
        &&& self.crumbs_token_address == other.crumbs_token_address
        &&& self.crumb_fees == other.crumb_fees
        &&& self.proposal_creation_price == other.proposal_creation_price
    }

    /// Sets up an empty component collecting its fees in the given token,
    /// with the given proposal-creation price.
    pub fn dao_hoard_instantiate(crumbs_token_address: String, proposal_creation_price: Decimal) -> (r: DaoHoard)
        ensures
            r.wf(),
            r.daos@.len() == 0,
            r.crumbs_token_address == crumbs_token_address,
            r.crumb_fees.atto == 0,
            r.proposal_creation_price == proposal_creation_price,
    {
        DaoHoard {
            daos: Vec::new(),
            crumbs_token_address,
            crumb_fees: Decimal::zero(),
            proposal_creation_price,
        }
    }

    /// Sets the price of creating a proposal.
    pub fn dao_hoard_set_proposal_creation_price(&mut self, proposal_creation_price: Decimal)
        ensures
            final(self).daos == old(self).daos,
            final(self).crumbs_token_address == old(self).crumbs_token_address,
            final(self).crumb_fees == old(self).crumb_fees,
            final(self).proposal_creation_price == proposal_creation_price,
    {
        self.proposal_creation_price = proposal_creation_price;
    }

    /// Takes every collected fee out of the component.
    pub fn dao_hoard_withdraw_crumb_fees(&mut self) -> (r: Decimal)
        ensures
            r == old(self).crumb_fees,
            final(self).daos == old(self).daos,
            final(self).crumbs_token_address == old(self).crumbs_token_address,
            final(self).crumb_fees.atto == 0,
            final(self).proposal_creation_price == old(self).proposal_creation_price,
    {
        let taken = self.crumb_fees;
        self.crumb_fees = Decimal::zero();
        taken
    }

    /// Mints an admin badge for the DAO `dao_id`, on the platform owner's
    /// authority. Fails with `NotFound` if no such DAO exists; the
    /// component is never changed.
    pub fn dao_mint_admin_badge_by_owner(&mut self, dao_id: String) -> (r: Result<
        DaoAdminBadge,
        DaoError,
    >)
        requires
            old(self).wf(),
            valid_id(dao_id@),
        ensures
            *final(self) == *old(self),
            r is Ok <==> has_dao_key(old(self).daos@, key_of(dao_id@)),
            r is Err ==> r == Err::<DaoAdminBadge, DaoError>(DaoError::NotFound),
            r matches Ok(b) ==> {
                let d = old(self).daos@[dao_index_of(old(self).daos@, key_of(dao_id@))];
                &&& b.dao_id == dao_id
                &&& b.name@ == d.name@ + " Admin Badge"@
            },
    {
        let d = match dao::get(&self.daos, dao_id.as_str()) {
            Err(e) => {
                return Err(e);
            },
            Ok(d) => d,
        };
        let dao_name = d.name();
        Ok(dao_admin_badge::mint(dao_id, dao_name))
    }

    /// Mints an admin badge for the DAO an existing admin badge is scoped
    /// to, on that badge's authority. Fails with `NotFound` if the badge's
    /// DAO does not exist; the component is never changed.
    pub fn dao_mint_admin_badge_by_dao_admin(&mut self, admin_badge: &DaoAdminBadge) -> (r: Result<
        DaoAdminBadge,
        DaoError,
    >)
        requires
            old(self).wf(),
            valid_id(admin_badge.dao_id@),
        ensures
            *final(self) == *old(self),
            r is Ok <==> has_dao_key(old(self).daos@, key_of(admin_badge.dao_id@)),
            r is Err ==> r == Err::<DaoAdminBadge, DaoError>(DaoError::NotFound),
            r matches Ok(b) ==> {
                let d = old(self).daos@[dao_index_of(
                    old(self).daos@,
                    key_of(admin_badge.dao_id@),
                )];
                &&& b.dao_id == admin_badge.dao_id
                &&& b.name@ == d.name@ + " Admin Badge"@
            },
    {
        let badge_dao_id = admin_badge.dao_id();
        self.dao_mint_admin_badge_by_owner(badge_dao_id)
    }

    /// Creates a DAO and mints its first admin badge.
    ///
    /// Fails with `DuplicateId` if a DAO already stands under the same
    /// stored key; the component is then unchanged. On success the DAO
    /// record, with an empty proposal sub-registry, is appended, and the
    /// returned badge is scoped to it.
    pub fn dao_create(
        &mut self,
        dao_id: String,
        name: String,
        info_url: String,
        key_image_url: String,
        dao_type: String,
        governance_resource: String,
        about: String,
        general: String,
        created: String,
        rules: Vec<String>,
        additional_data: Vec<(String, String)>,
        current_epoch: u64,
    ) -> (r: Result<DaoAdminBadge, DaoError>)
        requires
            old(self).wf(),
            valid_id(dao_id@),
        ensures
            final(self).wf(),
            final(self).crumbs_token_address == old(self).crumbs_token_address,
            final(self).crumb_fees == old(self).crumb_fees,
            final(self).proposal_creation_price == old(self).proposal_creation_price,
            r is Err <==> has_dao_key(old(self).daos@, key_of(dao_id@)),
            r is Err ==> r == Err::<DaoAdminBadge, DaoError>(DaoError::DuplicateId)
                && final(self).state_eq(*old(self)),
            r matches Ok(b) ==> {
                &&& final(self).daos@ == old(self).daos@.push(final(self).daos@.last())
                &&& dao_new_record(
                    final(self).daos@.last(),
                    dao_id,
                    name,
                    info_url,
                    key_image_url,
                    dao_type,
                    governance_resource,
                    about,
                    general,
                    created,
                    rules,
                    additional_data,
                    current_epoch,
                )
                &&& b.dao_id == dao_id
                &&& b.name@ == name@ + " Admin Badge"@
            },
    {
        match dao::create(
            &mut self.daos,
            dao_id.clone(),
            name,
            info_url,
            key_image_url,
            dao_type,
            governance_resource,
            about,
            general,
            created,
            rules,
            additional_data,
            current_epoch,
        ) {
            Err(e) => {
                return Err(e);
            },
            Ok(()) => {},
        }
        self.dao_mint_admin_badge_by_owner(dao_id)
    }

    /// Overwrites the mutable metadata of the DAO `dao_id`, all fields in
    /// one call, on a DAO admin's authority.
    ///
    /// Fails with `NotAuthorized` unless one of the presented badges is
    /// scoped to `dao_id`, and with `NotFound` if no such DAO exists; the
    /// component is then unchanged.
    pub fn dao_update(
        &mut self,
        admin_badges: &Vec<DaoAdminBadge>,
        dao_id: String,
        name: String,
        info_url: String,
        key_image_url: String,
        dao_type: String,
        governance_resource: String,
        about: String,
        general: String,
        rules: Vec<String>,
        additional_data: Vec<(String, String)>,
    ) -> (r: Result<(), DaoError>)
        requires
            old(self).wf(),
            valid_id(dao_id@),
        ensures
            final(self).wf(),
            final(self).crumbs_token_address == old(self).crumbs_token_address,
            final(self).crumb_fees == old(self).crumb_fees,
            final(self).proposal_creation_price == old(self).proposal_creation_price,
            r == Err::<(), DaoError>(DaoError::NotAuthorized) <==> !is_admin_proof(
                admin_badges@,
                dao_id@,
            ),
            r == Err::<(), DaoError>(DaoError::NotFound) <==> is_admin_proof(
                admin_badges@,
                dao_id@,
            ) && !has_dao_key(old(self).daos@, key_of(dao_id@)),
            r is Err ==> final(self).state_eq(*old(self)),
            r is Ok <==> is_admin_proof(admin_badges@, dao_id@) && has_dao_key(
                old(self).daos@,
                key_of(dao_id@),
            ),
            r is Ok ==> {
                let i = dao_index_of(old(self).daos@, key_of(dao_id@));
                let oldd = old(self).daos@[i];
                let newd = final(self).daos@[i];
                &&& final(self).daos@ == old(self).daos@.update(i, newd)
                &&& newd.dao_id == oldd.dao_id
                &&& newd.name == name
                &&& newd.info_url == info_url
                &&& newd.key_image_url == key_image_url
                &&& newd.dao_type == dao_type
                &&& newd.governance_resource == governance_resource
                &&& newd.about == about
                &&& newd.general == general
                &&& newd.rules == rules
                &&& newd.additional_data == additional_data
                &&& newd.description == oldd.description
                &&& newd.created == oldd.created
                &&& newd.created_epoch == oldd.created_epoch
                &&& newd.proposals == oldd.proposals
            },
    {
        match dao_admin_badge::check_is_dao_admin(admin_badges, &dao_id) {
            Err(e) => {
                return Err(e);
            },
            Ok(()) => {},
        }
        dao::update(
            &mut self.daos,
            dao_id,
            name,
            info_url,
            key_image_url,
            dao_type,
            governance_resource,
            about,
            general,
            rules,
            additional_data,
        )
    }

    /// Creates a proposal under the DAO `dao_id`, on a DAO admin's
    /// authority, taking the proposal-creation fee out of `payment` and
    /// returning the change.
    ///
    /// Fails with `NotAuthorized` without a badge for `dao_id`, with
    /// `NotFound` if the DAO does not exist, with `InvalidWindow` unless
    /// `current_epoch < voting_start_epoch <= voting_end_epoch`, and with
    /// `DuplicateId` if a proposal already stands under the same stored
    /// key. On any failure the component is unchanged and no fee is taken.
    pub fn dao_add_proposal(
        &mut self,
        admin_badges: &Vec<DaoAdminBadge>,
        payment: Decimal,
        dao_id: String,
        proposal_id: String,
        title: String,
        proposal_abstract: String,
        specification: String,
        voting_start: String,
        voting_start_epoch: u64,
        voting_end: String,
        voting_end_epoch: u64,
        created: String,
        info_url: String,
        additional_data: Vec<(String, String)>,
        current_epoch: u64,
    ) -> (r: Result<Decimal, DaoError>)
        requires
            old(self).wf(),
            valid_id(dao_id@),
            valid_id(proposal_id@),
            old(self).proposal_creation_price.atto <= payment.atto,
            old(self).crumb_fees.atto + old(self).proposal_creation_price.atto <= u128::MAX,
        ensures
            final(self).wf(),
            final(self).crumbs_token_address == old(self).crumbs_token_address,
            final(self).proposal_creation_price == old(self).proposal_creation_price,
            r == Err::<Decimal, DaoError>(DaoError::NotAuthorized) <==> !is_admin_proof(
                admin_badges@,
                dao_id@,
            ),
            r == Err::<Decimal, DaoError>(DaoError::NotFound) <==> is_admin_proof(
                admin_badges@,
                dao_id@,
            ) && !has_dao_key(old(self).daos@, key_of(dao_id@)),
            r is Err ==> final(self).state_eq(*old(self)),
            is_admin_proof(admin_badges@, dao_id@) && has_dao_key(
                old(self).daos@,
                key_of(dao_id@),
            ) ==> {
                let di = dao_index_of(old(self).daos@, key_of(dao_id@));
                let oldd = old(self).daos@[di];
                &&& (r == Err::<Decimal, DaoError>(DaoError::InvalidWindow) <==> !(current_epoch
                    < voting_start_epoch <= voting_end_epoch))
                &&& (r == Err::<Decimal, DaoError>(DaoError::DuplicateId) <==> current_epoch
                    < voting_start_epoch <= voting_end_epoch && has_proposal_key(
                    oldd.proposals@,
                    key_of(proposal_id@),
                ))
                &&& (r is Ok <==> current_epoch < voting_start_epoch <= voting_end_epoch
                    && !has_proposal_key(oldd.proposals@, key_of(proposal_id@)))
                &&& (r matches Ok(change) ==> {
                    let newd = final(self).daos@[di];
                    &&& final(self).daos@ == old(self).daos@.update(di, newd)
                    &&& dao::same_dao_meta(newd, oldd)
                    &&& newd.proposals@ == oldd.proposals@.push(newd.proposals@.last())
                    &&& proposal_new_record(
                        newd.proposals@.last(),
                        proposal_id,
                        title,
                        proposal_abstract,
                        specification,
                        oldd.dao_type,
                        oldd.governance_resource,
                        voting_start,
                        voting_start_epoch,
                        voting_end,
                        voting_end_epoch,
                        created,
                        info_url,
                        oldd.key_image_url,
                        additional_data,
                        current_epoch,
                    )
                    &&& final(self).crumb_fees.atto == old(self).crumb_fees.atto + old(
                        self,
                    ).proposal_creation_price.atto
                    &&& change.atto == payment.atto - old(self).proposal_creation_price.atto
                })
            },
    {
        match dao_admin_badge::check_is_dao_admin(admin_badges, &dao_id) {
            Err(e) => {
                return Err(e);
            },
            Ok(()) => {},
        }
        let nft_key = utils::create_non_fungible_id_of_uuid(dao_id.as_str());
        let di = match dao::find_dao_index(&self.daos, &nft_key) {
            None => {
                return Err(DaoError::NotFound);
            },
            Some(i) => i,
        };
        proof {
            let i0 = dao_index_of(old(self).daos@, key_of(dao_id@));
            assert(key_of(old(self).daos@[i0].dao_id@) == key_of(dao_id@));
            assert(i0 == di);
        }
        let dao_type_captured = self.daos[di].dao_type();
        let governance_resource_captured = self.daos[di].governance_resource();
        let key_image_url_captured = self.daos[di].key_image_url();
        let proposal = match proposal::create(
            proposal_id.clone(),
            title,
            proposal_abstract,
            specification,
            dao_type_captured,
            governance_resource_captured,
            voting_start,
            voting_start_epoch,
            voting_end,
            voting_end_epoch,
            created,
            info_url,
            key_image_url_captured,
            additional_data,
            current_epoch,
        ) {
            Err(e) => {
                return Err(e);
            },
            Ok(p) => p,
        };
        let proposal_key = utils::create_non_fungible_id_of_uuid(proposal_id.as_str());
        match proposal::find_proposal_index(&self.daos[di].proposals, &proposal_key) {
            Some(_) => {
                return Err(DaoError::DuplicateId);
            },
            None => {},
        }
        let d = &mut self.daos[di];
        d.proposals.push(proposal);
        proof {
            let di0 = di as int;
            assert(self.daos@ =~= old(self).daos@.update(di0, self.daos@[di0]));
            let oldd = old(self).daos@[di0];
            let newd = self.daos@[di0];
            assert(newd.proposals@ =~= oldd.proposals@.push(newd.proposals@.last()));
            assert(crate::proposal::proposals_wf(newd.proposals@)) by {
                assert forall|a: int| 0 <= a < newd.proposals@.len() implies (#[trigger] newd.proposals@[a]).wf()
                    && valid_id(newd.proposals@[a].proposal_id@) by {
                    if a < oldd.proposals@.len() {
                        assert(newd.proposals@[a] == oldd.proposals@[a]);
                    }
                }
                assert forall|a: int, b: int| 0 <= a < b < newd.proposals@.len() implies key_of(
                    newd.proposals@[a].proposal_id@,
                ) != key_of(newd.proposals@[b].proposal_id@) by {
                    assert(newd.proposals@[a] == oldd.proposals@[a]);
                    if b < oldd.proposals@.len() {
                        assert(newd.proposals@[b] == oldd.proposals@[b]);
                    } else {
                        assert(!has_proposal_key(oldd.proposals@, key_of(proposal_id@)));
                    }
                }
            }
            assert(self.wf()) by {
                assert forall|a: int| 0 <= a < self.daos@.len() implies (#[trigger] self.daos@[a]).wf() by {
                    if a != di0 {
                        assert(self.daos@[a] == old(self).daos@[a]);
                    }
                }
                assert forall|a: int, b: int| 0 <= a < b < self.daos@.len() implies key_of(
                    self.daos@[a].dao_id@,
                ) != key_of(self.daos@[b].dao_id@) by {
                    assert(self.daos@[a].dao_id == old(self).daos@[a].dao_id);
                    assert(self.daos@[b].dao_id == old(self).daos@[b].dao_id);
                }
            }
        }
        self.crumb_fees = self.crumb_fees.add(self.proposal_creation_price);
        let change = payment.sub(self.proposal_creation_price);
        Ok(change)
    }

    /// Appends an option to the proposal `proposal_id` of the DAO
    /// `dao_id`, on a DAO admin's authority.
    ///
    /// Fails with `NotAuthorized` without a badge for `dao_id`, with
    /// `NotFound` if the DAO or the proposal does not exist, and otherwise
    /// as the option-freeze rule decides. On any failure the component is
    /// unchanged.
    pub fn proposal_add_option(
        &mut self,
        admin_badges: &Vec<DaoAdminBadge>,
        dao_id: String,
        proposal_id: String,
        proposal_option_id: String,
        rank: u32,
        option: String,
        additional_data: Vec<(String, String)>,
        current_epoch: u64,
    ) -> (r: Result<(), DaoError>)
        requires
            old(self).wf(),
            valid_id(dao_id@),
            valid_id(proposal_id@),
        ensures
            final(self).wf(),
            final(self).crumbs_token_address == old(self).crumbs_token_address,
            final(self).crumb_fees == old(self).crumb_fees,
            final(self).proposal_creation_price == old(self).proposal_creation_price,
            r == Err::<(), DaoError>(DaoError::NotAuthorized) <==> !is_admin_proof(
                admin_badges@,
                dao_id@,
            ),
            r == Err::<(), DaoError>(DaoError::NotFound) <==> is_admin_proof(
                admin_badges@,
                dao_id@,
            ) && (!has_dao_key(old(self).daos@, key_of(dao_id@)) || !has_proposal_key(
                old(self).daos@[dao_index_of(old(self).daos@, key_of(dao_id@))].proposals@,
                key_of(proposal_id@),
            )),
            r is Err ==> final(self).state_eq(*old(self)),
            is_admin_proof(admin_badges@, dao_id@) && has_dao_key(
                old(self).daos@,
                key_of(dao_id@),
            ) && has_proposal_key(
                old(self).daos@[dao_index_of(old(self).daos@, key_of(dao_id@))].proposals@,
                key_of(proposal_id@),
            ) ==> {
                let di = dao_index_of(old(self).daos@, key_of(dao_id@));
                let oldd = old(self).daos@[di];
                let pi = proposal_index_of(oldd.proposals@, key_of(proposal_id@));
                let oldp = oldd.proposals@[pi];
                &&& (r == Err::<(), DaoError>(DaoError::OptionsFrozen) <==> current_epoch
                    >= oldp.voting_start_epoch)
                &&& (r == Err::<(), DaoError>(DaoError::DuplicateOption) <==> current_epoch
                    < oldp.voting_start_epoch && option_collides(
                    oldp.options@,
                    proposal_option_id@,
                    option@,
                    rank,
                ))
                &&& (r is Ok <==> current_epoch < oldp.voting_start_epoch && !option_collides(
                    oldp.options@,
                    proposal_option_id@,
                    option@,
                    rank,
                ))
                &&& (r is Ok ==> {
                    let newd = final(self).daos@[di];
                    &&& final(self).daos@ == old(self).daos@.update(di, newd)
                    &&& dao::same_dao_meta(newd, oldd)
                    &&& newd.proposals@ == oldd.proposals@.update(pi, newd.proposals@[pi])
                    &&& option_appended(
                        oldp,
                        newd.proposals@[pi],
                        proposal_option_id,
                        rank,
                        option,
                        additional_data,
                    )
                })
            },
    {
        match dao_admin_badge::check_is_dao_admin(admin_badges, &dao_id) {
            Err(e) => {
                return Err(e);
            },
            Ok(()) => {},
        }
        let nft_key = utils::create_non_fungible_id_of_uuid(dao_id.as_str());
        let di = match dao::find_dao_index(&self.daos, &nft_key) {
            None => {
                return Err(DaoError::NotFound);
            },
            Some(i) => i,
        };
        proof {
            let i0 = dao_index_of(old(self).daos@, key_of(dao_id@));
            assert(key_of(old(self).daos@[i0].dao_id@) == key_of(dao_id@));
            assert(i0 == di);
        }
        let d = &mut self.daos[di];
        let r = proposal::add_option(
            &mut d.proposals,
            proposal_id.as_str(),
            proposal_option_id,
            rank,
            option,
            additional_data,
            current_epoch,
        );
        proof {
            let di0 = di as int;
            assert(self.daos@ =~= old(self).daos@.update(di0, self.daos@[di0]));
            if r is Err {
                assert forall|a: int| 0 <= a < self.daos@.len() implies dao::dao_state_eq(
                    #[trigger] self.daos@[a],
                    old(self).daos@[a],
                ) by {
                    if a != di0 {
                        assert(self.daos@[a] == old(self).daos@[a]);
                    }
                }
            }
            assert(self.wf()) by {
                assert forall|a: int| 0 <= a < self.daos@.len() implies (#[trigger] self.daos@[a]).wf() by {
                    if a != di0 {
                        assert(self.daos@[a] == old(self).daos@[a]);
                    }
                }
                assert forall|a: int, b: int| 0 <= a < b < self.daos@.len() implies key_of(
                    self.daos@[a].dao_id@,
                ) != key_of(self.daos@[b].dao_id@) by {
                    assert(self.daos@[a].dao_id == old(self).daos@[a].dao_id);
                    assert(self.daos@[b].dao_id == old(self).daos@[b].dao_id);
                }
            }
        }
        r
    }

    /// Casts a vote on the proposal `proposal_id` of the DAO `dao_id`. No
    /// admin credential is needed: any holder of instances of the
    /// proposal's captured governance token may vote.
    ///
    /// Fails with `NotFound` if the DAO or the proposal does not exist,
    /// and otherwise as the admission checks decide (see
    /// [`proposal::vote_admission`]). On any failure the component is
    /// unchanged.
    pub fn proposal_mint_nft_vote(
        &mut self,
        dao_id: String,
        proposal_id: String,
        proposal_vote_id: String,
        proposal_option_id: String,
        entity: String,
        voting_nfts: &TokenProof,
        created: String,
        additional_data: Vec<(String, String)>,
        current_epoch: u64,
    ) -> (r: Result<(), DaoError>)
        requires
            old(self).wf(),
            valid_id(dao_id@),
            valid_id(proposal_id@),
            forall|i: int, j: int|
                0 <= i < old(self).daos@.len() && 0 <= j < old(self).daos@[i].proposals@.len()
                    ==> (#[trigger] old(self).daos@[i].proposals@[j]).nfts_voted@.len()
                    + voting_nfts.nft_ids@.len() <= usize::MAX && old(
                    self,
                ).daos@[i].proposals@[j].votes@.len() < u32::MAX,
        ensures
            final(self).wf(),
            final(self).crumbs_token_address == old(self).crumbs_token_address,
            final(self).crumb_fees == old(self).crumb_fees,
            final(self).proposal_creation_price == old(self).proposal_creation_price,
            r == Err::<(), DaoError>(DaoError::NotFound) <==> !has_dao_key(
                old(self).daos@,
                key_of(dao_id@),
            ) || !has_proposal_key(
                old(self).daos@[dao_index_of(old(self).daos@, key_of(dao_id@))].proposals@,
                key_of(proposal_id@),
            ),
            r is Err ==> final(self).state_eq(*old(self)),
            has_dao_key(old(self).daos@, key_of(dao_id@)) && has_proposal_key(
                old(self).daos@[dao_index_of(old(self).daos@, key_of(dao_id@))].proposals@,
                key_of(proposal_id@),
            ) ==> {
                let di = dao_index_of(old(self).daos@, key_of(dao_id@));
                let oldd = old(self).daos@[di];
                let pi = proposal_index_of(oldd.proposals@, key_of(proposal_id@));
                let oldp = oldd.proposals@[pi];
                &&& r == vote_admission(
                    oldp,
                    proposal_vote_id@,
                    proposal_option_id@,
                    voting_nfts.resource_address@,
                    id_views(voting_nfts.nft_ids@),
                    current_epoch,
                )
                &&& (r is Ok ==> {
                    let newd = final(self).daos@[di];
                    &&& final(self).daos@ == old(self).daos@.update(di, newd)
                    &&& dao::same_dao_meta(newd, oldd)
                    &&& newd.proposals@ == oldd.proposals@.update(pi, newd.proposals@[pi])
                    &&& vote_cast(
                        oldp,
                        newd.proposals@[pi],
                        proposal_vote_id,
                        proposal_option_id,
                        entity,
                        voting_nfts.nft_ids,
                        created,
                        current_epoch,
                        additional_data,
                    )
                })
            },
    {
        let nft_key = utils::create_non_fungible_id_of_uuid(dao_id.as_str());
        let di = match dao::find_dao_index(&self.daos, &nft_key) {
            None => {
                return Err(DaoError::NotFound);
            },
            Some(i) => i,
        };
        proof {
            let i0 = dao_index_of(old(self).daos@, key_of(dao_id@));
            assert(key_of(old(self).daos@[i0].dao_id@) == key_of(dao_id@));
            assert(i0 == di);
        }
        let d = &mut self.daos[di];
        let r = proposal::mint_nft_vote(
            &mut d.proposals,
            proposal_id.as_str(),
            proposal_vote_id,
            proposal_option_id,
            entity,
            voting_nfts,
            created,
            current_epoch,
            additional_data,
        );
        proof {
            let di0 = di as int;
            assert(self.daos@ =~= old(self).daos@.update(di0, self.daos@[di0]));
            if r is Err {
                assert forall|a: int| 0 <= a < self.daos@.len() implies dao::dao_state_eq(
                    #[trigger] self.daos@[a],
                    old(self).daos@[a],
                ) by {
                    if a != di0 {
                        assert(self.daos@[a] == old(self).daos@[a]);
                    }
                }
            }
            assert(self.wf()) by {
                assert forall|a: int| 0 <= a < self.daos@.len() implies (#[trigger] self.daos@[a]).wf() by {
                    if a != di0 {
                        assert(self.daos@[a] == old(self).daos@[a]);
                    }
                }
                assert forall|a: int, b: int| 0 <= a < b < self.daos@.len() implies key_of(
                    self.daos@[a].dao_id@,
                ) != key_of(self.daos@[b].dao_id@) by {
                    assert(self.daos@[a].dao_id == old(self).daos@[a].dao_id);
                    assert(self.daos@[b].dao_id == old(self).daos@[b].dao_id);
                }
            }
        }
        r
    }
}

} // verus!
