//! Tenants.
//!
//! A tenant partitions the data: products and carts are scoped to one.
//! A tenant is created for a user on first signup or login, of the
//! `api_template` kind, and users are attached to tenants through a join
//! table the repository keeps.

use vstd::prelude::*;
use crate::ids::Id;

verus! {

#[derive(Debug, Clone)]
pub struct Tenant {
    pub id: Id,
    pub user_id: Id,
    pub tenant_type: String,
    pub dt_created: i64,
    pub dt_updated: i64,
    pub dt_deleted: Option<i64>,
}

#[derive(Debug, Clone)]
pub struct CreateTenantRequest {
    pub id: Id,
    pub user_id: Id,
    pub tenant_type: String,
    pub dt_created: i64,
    pub dt_updated: i64,
    pub dt_deleted: Option<i64>,
}

#[derive(Debug, Clone)]
pub struct UpdateTenantRequest {}

#[derive(Debug, Clone)]
pub struct TenantResponse {
    pub id: Id,
    pub user_id: Id,
    pub tenant_type: String,
    pub dt_created: i64,
    pub dt_updated: i64,
}

impl Tenant {
    /// The record a tenant creation inserts: the given owner and kind,
    /// both timestamps at `now`, not deleted.
    pub fn new(id: Id, user_id: Id, tenant_type: &str, now: i64) -> (r: Tenant)
        ensures
            r.id == id,
            r.user_id == user_id,
            r.tenant_type@ == tenant_type@,
            r.dt_created == now,
            r.dt_updated == now,
            r.dt_deleted is None,
    {
        Tenant {
            id,
            user_id,
            tenant_type: tenant_type.to_owned(),
            dt_created: now,
            dt_updated: now,
            dt_deleted: None,
        }
    }

    /// A field-for-field copy.
    pub fn clone_record(&self) -> (r: Tenant)
        ensures
            r == *self,
    {
        Tenant {
            id: self.id,
            user_id: self.user_id,
            tenant_type: self.tenant_type.clone(),
            dt_created: self.dt_created,
            dt_updated: self.dt_updated,
            dt_deleted: self.dt_deleted,
        }
    }

    /// The answer a tenant read returns: the record without its deletion
    /// mark.
    pub fn to_response(&self) -> (r: TenantResponse)
        ensures
            r.id == self.id,
            r.user_id == self.user_id,
            r.tenant_type@ == self.tenant_type@,
            r.dt_created == self.dt_created,
            r.dt_updated == self.dt_updated,
    {
        TenantResponse {
            id: self.id,
            user_id: self.user_id,
            tenant_type: self.tenant_type.clone(),
            dt_created: self.dt_created,
            dt_updated: self.dt_updated,
        }
    }
}

} // verus!
