//! Datasources of the dashboard system, and which tenant they belong to.

use crate::text::{contains_text, occurs_in, same_text};
use vstd::prelude::*;

verus! {

/// A datasource by its identifier and its display name.
#[derive(Debug, Clone)]
pub struct Datasource {
    pub id: usize,
    pub uid: String,
    pub name: String,
}

/// What a [`Datasource`] holds.
pub struct DatasourceView {
    pub id: usize,
    pub uid: Seq<char>,
    pub name: Seq<char>,
}

impl View for Datasource {
    type V = DatasourceView;

    open spec fn view(&self) -> DatasourceView {
        DatasourceView { id: self.id, uid: self.uid@, name: self.name@ }
    }
}

impl DeepView for Datasource {
    type V = DatasourceView;

    open spec fn deep_view(&self) -> DatasourceView {
        self@
    }
}

impl DatasourceView {
    /// The datasource belongs to `tenant`: the tenant's identifier occurs in
    /// its display name.
    pub open spec fn serves(self, tenant: Seq<char>) -> bool {
        occurs_in(tenant, self.name)
    }
}

/// Some datasource of the listing has the identifier `uid` and belongs to
/// `tenant`.
pub open spec fn datasource_serves(
    datasources: Seq<DatasourceView>,
    uid: Seq<char>,
    tenant: Seq<char>,
) -> bool {
    exists|i: int|
        0 <= i < datasources.len() && (#[trigger] datasources[i]).uid == uid
            && datasources[i].serves(tenant)
}

/// A rule query that refers to the datasource `reference` is bound to
/// `tenant`: it names a datasource, and one with that identifier belongs to
/// the tenant.
pub open spec fn bound_to_tenant(
    datasources: Seq<DatasourceView>,
    reference: Option<Seq<char>>,
    tenant: Seq<char>,
) -> bool {
    match reference {
        Some(uid) => datasource_serves(datasources, uid, tenant),
        None => false,
    }
}

impl Datasource {
    /// Whether this datasource belongs to the tenant `tenant_id`.
    pub fn belongs_to(&self, tenant_id: &str) -> (belongs: bool)
        ensures
            belongs == self@.serves(tenant_id@),
    {
        contains_text(self.name.as_str(), tenant_id)
    }
}

/// Whether a rule query with the datasource reference `reference` is bound to
/// the tenant `tenant_id`, given the datasources that exist.
pub fn is_bound_to_tenant(
    datasources: &Vec<Datasource>,
    reference: &Option<String>,
    tenant_id: &str,
) -> (bound: bool)
    ensures
        bound == bound_to_tenant(datasources.deep_view(), reference.deep_view(), tenant_id@),
{
    match reference {
        None => false,
        Some(uid) => {
            let mut i: usize = 0;
            while i < datasources.len()
                invariant
                    i <= datasources.len(),
                    reference.deep_view() == Some(uid@),
                    forall|k: int|
                        0 <= k < i ==> !((#[trigger] datasources.deep_view()[k]).uid == uid@
                            && datasources.deep_view()[k].serves(tenant_id@)),
                decreases datasources.len() - i,
            {
                let candidate = &datasources[i];
                assert(datasources.deep_view()[i as int] == candidate@);
                if same_text(candidate.uid.as_str(), uid.as_str()) && candidate.belongs_to(
                    tenant_id,
                ) {
                    assert(datasource_serves(datasources.deep_view(), uid@, tenant_id@));
                    return true;
                }
                i += 1;
            }
            false
        },
    }
}

} // verus!
