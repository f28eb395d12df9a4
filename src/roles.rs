//! Attaching a user's role to one authorization scope, and the rows that store
//! it under the two coexisting schema versions.
//!
//! A `NewUserRole<NoLevel>` carries no scope and offers no insertion; `add_entity`
//! specializes it to one scope, and each scope offers only the insertions valid
//! for it. An insertion yields the request for the account store; what the store
//! answers is turned into the caller's result by `inserted_role` or
//! `inserted_v1_role`.
use crate::dates::DateTime;
use crate::errors::{StoreError, UserErrors};
use crate::ids::{MerchantAccountId, OrganizationId, ProfileId};
use vstd::prelude::*;

verus! {

#[derive(Clone, Copy, Debug, PartialEq, Eq, Structural)]
pub enum UserStatus {
    Active,
    InvitationSent,
}

/// The schema version a role row is written under.
#[derive(Clone, Copy, Debug, PartialEq, Eq, Structural)]
pub enum UserRoleVersion {
    V1,
    V2,
}

/// The scope a V2 row names.
#[derive(Clone, Copy, Debug, PartialEq, Eq, Structural)]
pub enum EntityType {
    Organization,
    Merchant,
    Profile,
    Internal,
}

/// A role row to be inserted.
#[derive(Clone, Debug)]
pub struct UserRoleNew {
    pub user_id: String,
    pub role_id: String,
    pub status: UserStatus,
    pub created_by: String,
    pub last_modified_by: String,
    pub created_at: DateTime,
    pub last_modified: DateTime,
    pub org_id: Option<OrganizationId>,
    pub merchant_id: Option<MerchantAccountId>,
    pub profile_id: Option<ProfileId>,
    pub entity_id: Option<String>,
    pub entity_type: Option<EntityType>,
    pub version: UserRoleVersion,
}

/// A role row as the store holds it.
#[derive(Clone, Debug)]
pub struct UserRole {
    pub id: i32,
    pub record: UserRoleNew,
}

/// What the account store is asked to insert: one row of either version, or a
/// V1 row and a V2 row that are written together or not at all.
#[derive(Clone, Debug)]
pub enum InsertUserRolePayload {
    OnlyV1(UserRoleNew),
    OnlyV2(UserRoleNew),
    V1AndV2(UserRoleNew, UserRoleNew),
}

/// The initial state: no scope chosen yet.
#[derive(Clone, Copy, Debug)]
pub struct NoLevel;

/// Organization scope. The merchant is kept so that the role can still be
/// written as a V1 row, which always names one.
#[derive(Clone, Debug)]
pub struct OrganizationLevel {
    pub org_id: OrganizationId,
    pub merchant_id: MerchantAccountId,
}

#[derive(Clone, Debug)]
pub struct MerchantLevel {
    pub org_id: OrganizationId,
    pub merchant_id: MerchantAccountId,
}

#[derive(Clone, Debug)]
pub struct ProfileLevel {
    pub org_id: OrganizationId,
    pub merchant_id: MerchantAccountId,
    pub profile_id: ProfileId,
}

#[derive(Clone, Debug)]
pub struct InternalLevel {
    pub org_id: OrganizationId,
}

/// A user's role, attached to the scope `E`.
#[derive(Clone, Debug)]
pub struct NewUserRole<E> {
    pub user_id: String,
    pub role_id: String,
    pub status: UserStatus,
    pub created_by: String,
    pub last_modified_by: String,
    pub created_at: DateTime,
    pub last_modified: DateTime,
    pub entity: E,
}

/// What a V2 row says of its scope.
pub struct EntityInfo {
    pub org_id: OrganizationId,
    pub merchant_id: Option<MerchantAccountId>,
    pub profile_id: Option<ProfileId>,
    pub entity_id: String,
    pub entity_type: EntityType,
}

/// The row carries the role's own fields.
pub open spec fn carries_role<E>(row: UserRoleNew, role: NewUserRole<E>) -> bool {
    &&& row.user_id@ == role.user_id@
    &&& row.role_id@ == role.role_id@
    &&& row.status == role.status
    &&& row.created_by@ == role.created_by@
    &&& row.last_modified_by@ == role.last_modified_by@
    &&& row.created_at == role.created_at
    &&& row.last_modified == role.last_modified
}

/// The V1 row of a role: organization and merchant, no generic entity.
pub open spec fn is_v1_row<E>(
    row: UserRoleNew,
    role: NewUserRole<E>,
    org_id: Seq<char>,
    merchant_id: Seq<char>,
) -> bool {
    &&& carries_role(row, role)
    &&& row.org_id matches Some(o) && o@ == org_id
    &&& row.merchant_id matches Some(m) && m@ == merchant_id
    &&& row.profile_id is None
    &&& row.entity_id is None
    &&& row.entity_type is None
    &&& row.version == UserRoleVersion::V1
}

/// The V2 row of a role: organization, the optional merchant and profile, and
/// the most specific scope as `(entity_id, entity_type)`.
pub open spec fn is_v2_row<E>(
    row: UserRoleNew,
    role: NewUserRole<E>,
    org_id: Seq<char>,
    merchant_id: Option<Seq<char>>,
    profile_id: Option<Seq<char>>,
    entity_id: Seq<char>,
    entity_type: EntityType,
) -> bool {
    &&& carries_role(row, role)
    &&& row.org_id matches Some(o) && o@ == org_id
    &&& match (row.merchant_id, merchant_id) {
        (Some(m), Some(want)) => m@ == want,
        (None, None) => true,
        _ => false,
    }
    &&& match (row.profile_id, profile_id) {
        (Some(p), Some(want)) => p@ == want,
        (None, None) => true,
        _ => false,
    }
    &&& row.entity_id matches Some(id) && id@ == entity_id
    &&& row.entity_type == Some(entity_type)
    &&& row.version == UserRoleVersion::V2
}

/// The V2 row of an organization-scope role.
pub open spec fn is_organization_v2_row(row: UserRoleNew, role: NewUserRole<OrganizationLevel>) -> bool {
    is_v2_row(
        row,
        role,
        role.entity.org_id@,
        None,
        None,
        role.entity.org_id@,
        EntityType::Organization,
    )
}

/// The V2 row of a merchant-scope role.
pub open spec fn is_merchant_v2_row(row: UserRoleNew, role: NewUserRole<MerchantLevel>) -> bool {
    is_v2_row(
        row,
        role,
        role.entity.org_id@,
        Some(role.entity.merchant_id@),
        None,
        role.entity.merchant_id@,
        EntityType::Merchant,
    )
}

/// The request that writes a merchant-scope role under both versions at once.
pub open spec fn merchant_dual_write(role: NewUserRole<MerchantLevel>, p: InsertUserRolePayload) -> bool {
    p matches InsertUserRolePayload::V1AndV2(v1, v2) && is_v1_row(
        v1,
        role,
        role.entity.org_id@,
        role.entity.merchant_id@,
    ) && is_merchant_v2_row(v2, role)
}

/// The store echoes back exactly the rows it was asked to insert, in some order.
pub open spec fn echoes(p: InsertUserRolePayload, stored: Seq<UserRole>) -> bool {
    match p {
        InsertUserRolePayload::OnlyV1(a) => stored.len() == 1 && stored[0].record == a,
        InsertUserRolePayload::OnlyV2(a) => stored.len() == 1 && stored[0].record == a,
        InsertUserRolePayload::V1AndV2(a, b) => stored.len() == 2 && ((stored[0].record == a
            && stored[1].record == b) || (stored[0].record == b && stored[1].record == a)),
    }
}

/// The first V1 row among the rows.
pub open spec fn first_v1(rows: Seq<UserRole>) -> Option<UserRole>
    decreases rows.len(),
{
    if rows.len() == 0 {
        None
    } else if rows[0].record.version == UserRoleVersion::V1 {
        Some(rows[0])
    } else {
        first_v1(rows.drop_first())
    }
}

/// What an insertion of a single row gives its caller: the row the store
/// returned last, or an internal error.
pub open spec fn single_insert_outcome(outcome: Result<Seq<UserRole>, StoreError>) -> Result<
    UserRole,
    UserErrors,
> {
    match outcome {
        Ok(rows) => if rows.len() > 0 {
            Ok(rows.last())
        } else {
            Err(UserErrors::InternalServerError)
        },
        Err(_) => Err(UserErrors::InternalServerError),
    }
}

/// What a dual write gives its caller: the V1 row the store returned, or an
/// internal error.
pub open spec fn dual_insert_outcome(outcome: Result<Seq<UserRole>, StoreError>) -> Result<
    UserRole,
    UserErrors,
> {
    match outcome {
        Ok(rows) => match first_v1(rows) {
            Some(row) => Ok(row),
            None => Err(UserErrors::InternalServerError),
        },
        Err(_) => Err(UserErrors::InternalServerError),
    }
}

/// Result of the store's answer to an `OnlyV1` or `OnlyV2` request.
pub fn inserted_role(outcome: Result<Vec<UserRole>, StoreError>) -> (r: Result<UserRole, UserErrors>)
    ensures
        r == single_insert_outcome(
            match outcome {
                Ok(v) => Ok(v@),
                Err(e) => Err(e),
            },
        ),
{
    match outcome {
        Ok(mut rows) => match rows.pop() {
            Some(row) => Ok(row),
            None => Err(UserErrors::InternalServerError),
        },
        Err(_) => Err(UserErrors::InternalServerError),
    }
}

/// Result of the store's answer to a `V1AndV2` request: the V1 row, kept as the
/// canonical result for callers that read V1 only.
pub fn inserted_v1_role(outcome: Result<Vec<UserRole>, StoreError>) -> (r: Result<UserRole, UserErrors>)
    ensures
        r == dual_insert_outcome(
            match outcome {
                Ok(v) => Ok(v@),
                Err(e) => Err(e),
            },
        ),
{
    match outcome {
        Ok(rows) => {
            let ghost all = rows@;
            let mut i: usize = 0;
            let mut found: Option<usize> = None;
            assert(all.subrange(0, all.len() as int) =~= all);
            while i < rows.len()
                invariant
                    all == rows@,
                    i <= rows@.len(),
                    found is None ==> first_v1(all) == first_v1(all.subrange(i as int, all.len() as int)),
                    found matches Some(k) ==> k < all.len() && first_v1(all) == Some(all[k as int]),
                decreases rows@.len() - i,
            {
                if found.is_none() {
                    assert(all.subrange(i as int, all.len() as int).drop_first() =~= all.subrange(
                        i + 1,
                        all.len() as int,
                    ));
                    if rows[i].record.version == UserRoleVersion::V1 {
                        found = Some(i);
                    }
                }
                i += 1;
            }
            match found {
                Some(k) => {
                    let mut rows = rows;
                    Ok(rows.swap_remove(k))
                },
                None => {
                    assert(all.subrange(i as int, all.len() as int).len() == 0);
                    Err(UserErrors::InternalServerError)
                },
            }
        },
        Err(_) => Err(UserErrors::InternalServerError),
    }
}

impl<E> NewUserRole<E> {
    fn convert_to_new_v1_role(&self, org_id: &OrganizationId, merchant_id: &MerchantAccountId) -> (r:
        UserRoleNew)
        ensures
            is_v1_row(r, *self, org_id@, merchant_id@),
    {
        UserRoleNew {
            user_id: self.user_id.clone(),
            role_id: self.role_id.clone(),
            status: self.status,
            created_by: self.created_by.clone(),
            last_modified_by: self.last_modified_by.clone(),
            created_at: self.created_at,
            last_modified: self.last_modified,
            org_id: Some(org_id.duplicate()),
            merchant_id: Some(merchant_id.duplicate()),
            profile_id: None,
            entity_id: None,
            entity_type: None,
            version: UserRoleVersion::V1,
        }
    }

    fn convert_to_new_v2_role(&self, entity: EntityInfo) -> (r: UserRoleNew)
        ensures
            is_v2_row(
                r,
                *self,
                entity.org_id@,
                match entity.merchant_id {
                    Some(m) => Some(m@),
                    None => None,
                },
                match entity.profile_id {
                    Some(p) => Some(p@),
                    None => None,
                },
                entity.entity_id@,
                entity.entity_type,
            ),
    {
        UserRoleNew {
            user_id: self.user_id.clone(),
            role_id: self.role_id.clone(),
            status: self.status,
            created_by: self.created_by.clone(),
            last_modified_by: self.last_modified_by.clone(),
            created_at: self.created_at,
            last_modified: self.last_modified,
            org_id: Some(entity.org_id),
            merchant_id: entity.merchant_id,
            profile_id: entity.profile_id,
            entity_id: Some(entity.entity_id),
            entity_type: Some(entity.entity_type),
            version: UserRoleVersion::V2,
        }
    }
}

impl NewUserRole<NoLevel> {
    /// The same role, attached to the scope `entity`.
    pub fn add_entity<T>(self, entity: T) -> (r: NewUserRole<T>)
        ensures
            r.user_id == self.user_id,
            r.role_id == self.role_id,
            r.status == self.status,
            r.created_by == self.created_by,
            r.last_modified_by == self.last_modified_by,
            r.created_at == self.created_at,
            r.last_modified == self.last_modified,
            r.entity == entity,
    {
        NewUserRole {
            entity,
            user_id: self.user_id,
            role_id: self.role_id,
            status: self.status,
            created_by: self.created_by,
            last_modified_by: self.last_modified_by,
            created_at: self.created_at,
            last_modified: self.last_modified,
        }
    }
}

impl NewUserRole<OrganizationLevel> {
    /// The request that writes this role as a V1 row only.
    pub fn insert_in_v1(self) -> (r: InsertUserRolePayload)
        ensures
            r matches InsertUserRolePayload::OnlyV1(row) && is_v1_row(
                row,
                self,
                self.entity.org_id@,
                self.entity.merchant_id@,
            ),
    {
        let row = self.convert_to_new_v1_role(&self.entity.org_id, &self.entity.merchant_id);
        InsertUserRolePayload::OnlyV1(row)
    }

    fn organization_entity(&self) -> (r: EntityInfo)
        ensures
            r.org_id@ == self.entity.org_id@,
            r.merchant_id is None,
            r.profile_id is None,
            r.entity_id@ == self.entity.org_id@,
            r.entity_type == EntityType::Organization,
    {
        EntityInfo {
            org_id: self.entity.org_id.duplicate(),
            merchant_id: None,
            profile_id: None,
            entity_id: self.entity.org_id.get_string_repr(),
            entity_type: EntityType::Organization,
        }
    }

    /// The request that writes this role as a V2 row only.
    pub fn insert_in_v2(self) -> (r: InsertUserRolePayload)
        ensures
            r matches InsertUserRolePayload::OnlyV2(row) && is_organization_v2_row(row, self),
    {
        let entity = self.organization_entity();
        InsertUserRolePayload::OnlyV2(self.convert_to_new_v2_role(entity))
    }

    /// The request that writes this role as a V1 row and a V2 row together.
    pub fn insert_in_v1_and_v2(self) -> (r: InsertUserRolePayload)
        ensures
            r matches InsertUserRolePayload::V1AndV2(v1, v2) && is_v1_row(
                v1,
                self,
                self.entity.org_id@,
                self.entity.merchant_id@,
            ) && is_organization_v2_row(v2, self),
    {
        let v1 = self.convert_to_new_v1_role(&self.entity.org_id, &self.entity.merchant_id);
        let entity = self.organization_entity();
        let v2 = self.convert_to_new_v2_role(entity);
        InsertUserRolePayload::V1AndV2(v1, v2)
    }
}

impl NewUserRole<MerchantLevel> {
    /// The request that writes this role as a V1 row and a V2 row together.
    pub fn insert_in_v1_and_v2(self) -> (r: InsertUserRolePayload)
        ensures
            merchant_dual_write(self, r),
    {
        let v1 = self.convert_to_new_v1_role(&self.entity.org_id, &self.entity.merchant_id);
        let entity = EntityInfo {
            org_id: self.entity.org_id.duplicate(),
            merchant_id: Some(self.entity.merchant_id.duplicate()),
            profile_id: None,
            entity_id: self.entity.merchant_id.get_string_repr(),
            entity_type: EntityType::Merchant,
        };
        let v2 = self.convert_to_new_v2_role(entity);
        InsertUserRolePayload::V1AndV2(v1, v2)
    }
}

impl NewUserRole<InternalLevel> {
    /// The request that writes this role as a V1 row and a V2 row together,
    /// both naming the internal users' merchant account.
    pub fn insert_in_v1_and_v2(self) -> (r: InsertUserRolePayload)
        ensures
            r matches InsertUserRolePayload::V1AndV2(v1, v2) && {
                let internal = crate::ids::INTERNAL_USER_MERCHANT_ID@;
                &&& is_v1_row(v1, self, self.entity.org_id@, internal)
                &&& is_v2_row(
                    v2,
                    self,
                    self.entity.org_id@,
                    Some(internal),
                    None,
                    internal,
                    EntityType::Internal,
                )
            },
    {
        let internal_merchant_id = MerchantAccountId::get_internal_user_merchant_id();
        let v1 = self.convert_to_new_v1_role(&self.entity.org_id, &internal_merchant_id);
        let entity = EntityInfo {
            org_id: self.entity.org_id.duplicate(),
            merchant_id: Some(internal_merchant_id.duplicate()),
            profile_id: None,
            entity_id: internal_merchant_id.get_string_repr(),
            entity_type: EntityType::Internal,
        };
        let v2 = self.convert_to_new_v2_role(entity);
        InsertUserRolePayload::V1AndV2(v1, v2)
    }
}

impl NewUserRole<ProfileLevel> {
    /// The request that writes this role as a V2 row, the only version that
    /// knows profiles.
    pub fn insert_in_v2(self) -> (r: InsertUserRolePayload)
        ensures
            r matches InsertUserRolePayload::OnlyV2(row) && is_v2_row(
                row,
                self,
                self.entity.org_id@,
                Some(self.entity.merchant_id@),
                Some(self.entity.profile_id@),
                self.entity.profile_id@,
                EntityType::Profile,
            ),
    {
        let entity = EntityInfo {
            org_id: self.entity.org_id.duplicate(),
            merchant_id: Some(self.entity.merchant_id.duplicate()),
            profile_id: Some(self.entity.profile_id.duplicate()),
            entity_id: self.entity.profile_id.get_string_repr(),
            entity_type: EntityType::Profile,
        };
        InsertUserRolePayload::OnlyV2(self.convert_to_new_v2_role(entity))
    }
}

/// Dual write at merchant scope: the one atomic request holds a V1 row and a V2
/// row for the same user and role, and once the store has stored and echoed
/// both, the caller gets the V1 row.
pub proof fn merchant_dual_write_returns_v1(
    role: NewUserRole<MerchantLevel>,
    p: InsertUserRolePayload,
    stored: Seq<UserRole>,
)
    requires
        merchant_dual_write(role, p),
        echoes(p, stored),
    ensures
        p matches InsertUserRolePayload::V1AndV2(v1, v2) && {
            &&& v1.version == UserRoleVersion::V1
            &&& v2.version == UserRoleVersion::V2
            &&& v1.user_id@ == role.user_id@ && v2.user_id@ == role.user_id@
            &&& v1.role_id@ == role.role_id@ && v2.role_id@ == role.role_id@
            &&& dual_insert_outcome(Ok(stored)) matches Ok(row) && row.record == v1
        },
{
    reveal_with_fuel(first_v1, 2);
    assert(stored.drop_first()[0] == stored[1]);
}

} // verus!
