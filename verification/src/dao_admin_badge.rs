//! Admin badges: a credential scoping administrative rights to exactly one
//! DAO. A badge's `dao_id` never changes after mint; a DAO may have many
//! badges. The authorization gate resolves a caller's proof to the badge
//! records it presents; whether one of them is scoped to the target DAO is
//! decided here.

use vstd::prelude::*;
use vstd::string::StringExecFns;
use crate::error::DaoError;

verus! {

/// A credential granting administrative rights over one DAO.
pub struct DaoAdminBadge {
    /// The identifier of the DAO this badge administrates.
    pub dao_id: String,
    /// The badge's display name.
    pub name: String,
    /// The badge's display description.
    pub description: String,
    /// An informational URL.
    pub info_url: String,
    /// An image URL.
    pub key_image_url: String,
    /// Free-form extension values.
    pub additional_data: Vec<(String, String)>,
    /// Free-form extension lists.
    pub additional_data_vec: Vec<(String, Vec<String>)>,
}

impl DaoAdminBadge {
    /// The identifier of the DAO this badge administrates.
    pub fn dao_id(&self) -> (r: String)
        ensures
            r == self.dao_id,
    {
        self.dao_id.clone()
    }
}

/// Mints an admin badge scoped to `dao_id`, named after the DAO's display
/// name.
pub fn mint(dao_id: String, dao_name: String) -> (r: DaoAdminBadge)
    ensures
        r.dao_id == dao_id,
        r.name@ == dao_name@ + " Admin Badge"@,
        r.description@ == "This Admin Badge allows you to administrate the DAO "@ + dao_name@
            + "."@,
        r.info_url@ == "https://crumbsup.io"@,
        r.key_image_url@ == "https://arweave.net/RkZVcWWW0KzhzNggBXsz54T3tMDlerRwMDaobNSIPgk"@,
        r.additional_data@.len() == 0,
        r.additional_data_vec@.len() == 0,
{
    let name = dao_name.clone().concat(" Admin Badge");
    let description = String::from_str("This Admin Badge allows you to administrate the DAO ")
        .concat(dao_name.as_str()).concat(".");
    DaoAdminBadge {
        dao_id,
        name,
        description,
        info_url: String::from_str("https://crumbsup.io"),
        key_image_url: String::from_str(
            "https://arweave.net/RkZVcWWW0KzhzNggBXsz54T3tMDlerRwMDaobNSIPgk",
        ),
        additional_data: Vec::new(),
        additional_data_vec: Vec::new(),
    }
}

/// Whether one of the presented badges is scoped to the DAO `dao_id`.
pub open spec fn is_admin_proof(badges: Seq<DaoAdminBadge>, dao_id: Seq<char>) -> bool {
    exists|i: int| 0 <= i < badges.len() && badges[i].dao_id@ == dao_id
}

/// The authorization check before every admin-restricted operation: passes
/// exactly when one of the presented badges is scoped to the DAO `dao_id`,
/// and otherwise fails with `NotAuthorized`.
pub fn check_is_dao_admin(admin_badges: &Vec<DaoAdminBadge>, dao_id: &String) -> (r: Result<
    (),
    DaoError,
>)
    ensures
        r is Ok <==> is_admin_proof(admin_badges@, dao_id@),
        r is Err ==> r == Err::<(), DaoError>(DaoError::NotAuthorized),
{
    let mut i: usize = 0;
    while i < admin_badges.len()
        invariant
            i <= admin_badges@.len(),
            forall|k: int| 0 <= k < i ==> (#[trigger] admin_badges@[k]).dao_id@ != dao_id@,
        decreases admin_badges@.len() - i,
    {
        if admin_badges[i].dao_id.eq(dao_id) {
            return Ok(());
        }
        i = i + 1;
    }
    Err(DaoError::NotAuthorized)
}

} // verus!
