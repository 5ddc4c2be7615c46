//! DAO records and their registry: each DAO carries display metadata, a
//! governance-token reference, free-form extension maps, and its own
//! proposal sub-registry. A DAO is created once and never destroyed; its
//! metadata may be overwritten by an admin, while its identifier, creation
//! epoch and proposal sub-registry are immutable.

use vstd::prelude::*;
use vstd::string::StringExecFns;
use crate::error::DaoError;
use crate::proposal::Proposal;
use crate::proposal::proposals_wf;
use crate::utils::create_non_fungible_id_of_uuid;
use crate::utils::key_of;
use crate::utils::valid_id;

verus! {

/// The version tag written into every DAO record.
pub const DAO_VERSION: u32 = 1;

/// A governed organization: display metadata, a governance-token
/// reference, and its own proposal sub-registry.
pub struct Dao {
    /// The DAO's identifier, globally unique by stored key.
    pub dao_id: String,
    /// The record's component type tag.
    pub component_type: String,
    /// The record's version.
    pub version: u32,
    /// The DAO's display name.
    pub name: String,
    /// The display description; a copy of the about text.
    pub description: String,
    /// An informational URL.
    pub info_url: String,
    /// An image URL.
    pub key_image_url: String,
    /// The DAO's type tag.
    pub dao_type: String,
    /// The address of the token class whose instances confer voting
    /// eligibility.
    pub governance_resource: String,
    /// The about text.
    pub about: String,
    /// The general text.
    pub general: String,
    /// A human-readable creation timestamp.
    pub created: String,
    /// The epoch at which the DAO was created.
    pub created_epoch: u64,
    /// The DAO's rules, in order.
    pub rules: Vec<String>,
    /// Free-form extension values.
    pub additional_data: Vec<(String, String)>,
    /// Free-form extension lists.
    pub additional_data_vec: Vec<(String, Vec<String>)>,
    /// The DAO's proposal sub-registry.
    pub proposals: Vec<Proposal>,
}

impl Dao {
    /// A well-formed DAO: its identifier is valid and its proposal
    /// sub-registry is well-formed.
    pub open spec fn wf(self) -> bool {
        &&& valid_id(self.dao_id@)
        &&& proposals_wf(self.proposals@)
    }

    /// The DAO's display name.
    pub fn name(&self) -> (r: String)
        ensures
            r == self.name,
    {
        self.name.clone()
    }

    /// The DAO's proposal sub-registry.
    pub fn proposals(&self) -> (r: &Vec<Proposal>)
        ensures
            r == &self.proposals,
    {
        &self.proposals
    }

    /// The DAO's type tag.
    pub fn dao_type(&self) -> (r: String)
        ensures
            r == self.dao_type,
    {
        self.dao_type.clone()
    }

    /// The DAO's governance-token reference.
    pub fn governance_resource(&self) -> (r: String)
        ensures
            r == self.governance_resource,
    {
        self.governance_resource.clone()
    }

    /// The DAO's image URL.
    pub fn key_image_url(&self) -> (r: String)
        ensures
            r == self.key_image_url,
    {
        self.key_image_url.clone()
    }
}

/// Whether every field of the DAO record itself — everything but the
/// proposal sub-registry — is the same in `a` and `b`.
pub open spec fn same_dao_meta(a: Dao, b: Dao) -> bool {
    &&& a.dao_id == b.dao_id
    &&& a.component_type == b.component_type
    &&& a.version == b.version
    &&& a.name == b.name
    &&& a.description == b.description
    &&& a.info_url == b.info_url
    &&& a.key_image_url == b.key_image_url
    &&& a.dao_type == b.dao_type
    &&& a.governance_resource == b.governance_resource
    &&& a.about == b.about
    &&& a.general == b.general
    &&& a.created == b.created
    &&& a.created_epoch == b.created_epoch
    &&& a.rules == b.rules
    &&& a.additional_data == b.additional_data
    &&& a.additional_data_vec == b.additional_data_vec
}

/// Whether `a` and `b` are the same DAO state: the record fields agree and
/// the proposal sub-registries hold the same proposals.
pub open spec fn dao_state_eq(a: Dao, b: Dao) -> bool {
    &&& same_dao_meta(a, b)
    &&& a.proposals@ == b.proposals@
}

/// Whether a collection of DAO records is a well-formed registry: every
/// DAO is well-formed and no two share a stored non-fungible key.
pub open spec fn daos_wf(s: Seq<Dao>) -> bool {
    &&& forall|i: int| 0 <= i < s.len() ==> (#[trigger] s[i]).wf()
    &&& forall|i: int, j: int|
        0 <= i < j < s.len() ==> key_of(s[i].dao_id@) != key_of(s[j].dao_id@)
}

/// Whether a DAO stored under the non-fungible key `key` exists.
pub open spec fn has_dao_key(s: Seq<Dao>, key: Seq<char>) -> bool {
    exists|i: int| 0 <= i < s.len() && key_of(s[i].dao_id@) == key
}

/// The index of the DAO stored under `key`.
pub open spec fn dao_index_of(s: Seq<Dao>, key: Seq<char>) -> int {
    choose|i: int| 0 <= i < s.len() && key_of(s[i].dao_id@) == key
}

/// The record a successful `create` writes: every field from its argument,
/// the fixed component type and version, the description copied from the
/// about text, and an empty proposal sub-registry.
pub open spec fn dao_new_record(
    d: Dao,
    dao_id: String,
    name: String,
    info_url: String,
    key_image_url: String,
    dao_type: String,
    governance_resource: String,
    about: String,
    general: String,
    created: String,
    rules: Vec<String>,
    additional_data: Vec<(String, String)>,
    current_epoch: u64,
) -> bool {
    &&& d.dao_id == dao_id
    &&& d.component_type@ == "CrumbsUpDao"@
    &&& d.version == DAO_VERSION
    &&& d.name == name
    &&& d.description == about
    &&& d.info_url == info_url
    &&& d.key_image_url == key_image_url
    &&& d.dao_type == dao_type
    &&& d.governance_resource == governance_resource
    &&& d.about == about
    &&& d.general == general
    &&& d.created == created
    &&& d.created_epoch == current_epoch
    &&& d.rules == rules
    &&& d.additional_data == additional_data
    &&& d.additional_data_vec@.len() == 0
    &&& d.proposals@.len() == 0
}

/// Finds the DAO stored under the non-fungible key `nft_key`.
pub fn find_dao_index(daos: &Vec<Dao>, nft_key: &String) -> (r: Option<usize>)
    requires
        forall|i: int| 0 <= i < daos@.len() ==> valid_id((#[trigger] daos@[i]).dao_id@),
    ensures
        r matches Some(i) ==> 0 <= i < daos@.len() && key_of(daos@[i as int].dao_id@) == nft_key@,
        r is None <==> !has_dao_key(daos@, nft_key@),
{
    let mut i: usize = 0;
    while i < daos.len()
        invariant
            i <= daos@.len(),
            forall|i2: int| 0 <= i2 < daos@.len() ==> valid_id((#[trigger] daos@[i2]).dao_id@),
            forall|k: int| 0 <= k < i ==> key_of((#[trigger] daos@[k]).dao_id@) != nft_key@,
        decreases daos@.len() - i,
    {
        let k = create_non_fungible_id_of_uuid(daos[i].dao_id.as_str());
        if k.eq(nft_key) {
            return Some(i);
        }
        i = i + 1;
    }
    None
}

/// Creates a DAO record in the registry.
///
/// Fails with `DuplicateId` if a DAO already stands under the same stored
/// key; the registry is then unchanged. On success the new record, with an
/// empty proposal sub-registry, is appended.
pub fn create(
    daos: &mut Vec<Dao>,
    dao_id: String,
    name: String,
    info_url: String,
    key_image_url: String,
    dao_type: String,
    governance_resource: String,
    about: String,
    general: String,
    created: String,
    rules: Vec<String>,
    additional_data: Vec<(String, String)>,
    current_epoch: u64,
) -> (r: Result<(), DaoError>)
    requires
        valid_id(dao_id@),
        daos_wf(old(daos)@),
    ensures
        daos_wf(final(daos)@),
        r is Err <==> has_dao_key(old(daos)@, key_of(dao_id@)),
        r is Err ==> r == Err::<(), DaoError>(DaoError::DuplicateId) && final(daos)@ == old(
            daos,
        )@,
        r is Ok ==> {
            &&& final(daos)@ == old(daos)@.push(final(daos)@.last())
            &&& dao_new_record(
                final(daos)@.last(),
                dao_id,
                name,
                info_url,
                key_image_url,
                dao_type,
                governance_resource,
                about,
                general,
                created,
                rules,
                additional_data,
                current_epoch,
            )
        },
{
    let nft_key = create_non_fungible_id_of_uuid(dao_id.as_str());
    match find_dao_index(daos, &nft_key) {
        Some(_) => {
            return Err(DaoError::DuplicateId);
        },
        None => {},
    }
    let dao = Dao {
        dao_id,
        component_type: String::from_str("CrumbsUpDao"),
        version: DAO_VERSION,
        name,
        description: about.clone(),
        info_url,
        key_image_url,
        dao_type,
        governance_resource,
        about,
        general,
        created,
        created_epoch: current_epoch,
        rules,
        additional_data,
        additional_data_vec: Vec::new(),
        proposals: Vec::new(),
    };
    daos.push(dao);
    proof {
        assert(daos@ =~= old(daos)@.push(daos@.last()));
        assert(daos_wf(daos@)) by {
            assert forall|a: int| 0 <= a < daos@.len() implies (#[trigger] daos@[a]).wf() by {
                if a < old(daos)@.len() {
                    assert(daos@[a] == old(daos)@[a]);
                }
            }
            assert forall|a: int, b: int| 0 <= a < b < daos@.len() implies key_of(
                daos@[a].dao_id@,
            ) != key_of(daos@[b].dao_id@) by {
                if b < old(daos)@.len() {
                    assert(daos@[a] == old(daos)@[a] && daos@[b] == old(daos)@[b]);
                } else {
                    assert(daos@[a] == old(daos)@[a]);
                    assert(!has_dao_key(old(daos)@, key_of(daos@[b].dao_id@)));
                }
            }
        }
    }
    Ok(())
}

/// Overwrites the mutable metadata of the DAO stored under `dao_id`, all
/// fields in one call.
///
/// Fails with `NotFound` if no such DAO exists; the registry is then
/// unchanged. The identifier, creation fields and proposal sub-registry
/// are immutable and survive every update.
pub fn update(
    daos: &mut Vec<Dao>,
    dao_id: String,
    name: String,
    info_url: String,
    key_image_url: String,
    dao_type: String,
    governance_resource: String,
    about: String,
    general: String,
    rules: Vec<String>,
    additional_data: Vec<(String, String)>,
) -> (r: Result<(), DaoError>)
    requires
        valid_id(dao_id@),
        daos_wf(old(daos)@),
    ensures
        daos_wf(final(daos)@),
        r is Err <==> !has_dao_key(old(daos)@, key_of(dao_id@)),
        r is Err ==> r == Err::<(), DaoError>(DaoError::NotFound) && final(daos)@ == old(daos)@,
        r is Ok ==> {
            let i = dao_index_of(old(daos)@, key_of(dao_id@));
            let oldd = old(daos)@[i];
            let newd = final(daos)@[i];
            &&& final(daos)@ == old(daos)@.update(i, newd)
            &&& newd.dao_id == oldd.dao_id
            &&& newd.component_type == oldd.component_type
            &&& newd.version == oldd.version
            &&& newd.name == name
            &&& newd.description == oldd.description
            &&& newd.info_url == info_url
            &&& newd.key_image_url == key_image_url
            &&& newd.dao_type == dao_type
            &&& newd.governance_resource == governance_resource
            &&& newd.about == about
            &&& newd.general == general
            &&& newd.created == oldd.created
            &&& newd.created_epoch == oldd.created_epoch
            &&& newd.rules == rules
            &&& newd.additional_data == additional_data
            &&& newd.additional_data_vec == oldd.additional_data_vec
            &&& newd.proposals == oldd.proposals
        },
{
    let nft_key = create_non_fungible_id_of_uuid(dao_id.as_str());
    let idx = match find_dao_index(daos, &nft_key) {
        None => {
            return Err(DaoError::NotFound);
        },
        Some(i) => i,
    };
    proof {
        let i0 = dao_index_of(old(daos)@, key_of(dao_id@));
        assert(key_of(old(daos)@[i0].dao_id@) == key_of(dao_id@));
        assert(i0 == idx);
    }
    let d = &mut daos[idx];
    d.name = name;
    d.info_url = info_url;
    d.key_image_url = key_image_url;
    d.dao_type = dao_type;
    d.governance_resource = governance_resource;
    d.about = about;
    d.general = general;
    d.rules = rules;
    d.additional_data = additional_data;
    proof {
        assert(daos@ =~= old(daos)@.update(idx as int, daos@[idx as int]));
        assert(daos_wf(daos@)) by {
            assert forall|a: int| 0 <= a < daos@.len() implies (#[trigger] daos@[a]).wf() by {
                if a != idx {
                    assert(daos@[a] == old(daos)@[a]);
                }
            }
            assert forall|a: int, b: int| 0 <= a < b < daos@.len() implies key_of(
                daos@[a].dao_id@,
            ) != key_of(daos@[b].dao_id@) by {
                assert(daos@[a].dao_id == old(daos)@[a].dao_id);
                assert(daos@[b].dao_id == old(daos)@[b].dao_id);
            }
        }
    }
    Ok(())
}

/// Reads the DAO stored under `dao_id`. Fails with `NotFound` if no such
/// DAO exists.
pub fn get<'a>(daos: &'a Vec<Dao>, dao_id: &str) -> (r: Result<&'a Dao, DaoError>)
    requires
        valid_id(dao_id@),
        daos_wf(daos@),
    ensures
        r is Ok <==> has_dao_key(daos@, key_of(dao_id@)),
        r is Err ==> r == Err::<&'a Dao, DaoError>(DaoError::NotFound),
        r matches Ok(d) ==> *d == daos@[dao_index_of(daos@, key_of(dao_id@))] && key_of(d.dao_id@)
            == key_of(dao_id@),
{
    let nft_key = create_non_fungible_id_of_uuid(dao_id);
    match find_dao_index(daos, &nft_key) {
        None => Err(DaoError::NotFound),
        Some(i) => {
            proof {
                let i0 = dao_index_of(daos@, key_of(dao_id@));
                assert(key_of(daos@[i0].dao_id@) == key_of(dao_id@));
                assert(i0 == i);
            }
            Ok(&daos[i])
        },
    }
}

} // verus!
