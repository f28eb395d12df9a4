use user_domain::dates::{CalendarDate, DateTime};
use user_domain::errors::{StoreError, UserErrors};
use user_domain::ids::{MerchantAccountId, OrganizationId, ProfileId};
use user_domain::roles::{
    inserted_role, inserted_v1_role, EntityType, InsertUserRolePayload, InternalLevel,
    MerchantLevel, NewUserRole, NoLevel, OrganizationLevel, ProfileLevel, UserRole,
    UserRoleVersion, UserStatus,
};

fn at() -> DateTime {
    DateTime {
        date: CalendarDate { julian_day: 2_460_000 },
        hour: 10,
        minute: 30,
        second: 0,
        nanosecond: 0,
    }
}

fn role() -> NewUserRole<NoLevel> {
    NewUserRole {
        user_id: "user_1".to_string(),
        role_id: "merchant_admin".to_string(),
        status: UserStatus::Active,
        created_by: "user_1".to_string(),
        last_modified_by: "user_1".to_string(),
        created_at: at(),
        last_modified: at(),
        entity: NoLevel,
    }
}

fn org() -> OrganizationId {
    OrganizationId::new("org_abc".to_string())
}

fn merchant() -> MerchantAccountId {
    MerchantAccountId::new("merchant_1".to_string())
}

#[test]
fn merchant_dual_write_holds_v1_and_v2_rows() {
    let r = role().add_entity(MerchantLevel { org_id: org(), merchant_id: merchant() });
    match r.insert_in_v1_and_v2() {
        InsertUserRolePayload::V1AndV2(v1, v2) => {
            assert_eq!(v1.version, UserRoleVersion::V1);
            assert_eq!(v2.version, UserRoleVersion::V2);
            assert_eq!(v1.user_id, "user_1");
            assert_eq!(v2.user_id, "user_1");
            assert_eq!(v1.role_id, v2.role_id);
            assert_eq!(v1.org_id, Some(org()));
            assert_eq!(v1.merchant_id, Some(merchant()));
            assert_eq!(v1.entity_id, None);
            assert_eq!(v2.merchant_id, Some(merchant()));
            assert_eq!(v2.profile_id, None);
            assert_eq!(v2.entity_id.as_deref(), Some("merchant_1"));
            assert_eq!(v2.entity_type, Some(EntityType::Merchant));
            let stored = vec![
                UserRole { id: 2, record: v2.clone() },
                UserRole { id: 1, record: v1.clone() },
            ];
            let got = inserted_v1_role(Ok(stored)).unwrap();
            assert_eq!(got.id, 1);
            assert_eq!(got.record.version, UserRoleVersion::V1);
        }
        _ => panic!("expected a dual write"),
    }
}

#[test]
fn organization_role_insertions() {
    let level = || OrganizationLevel { org_id: org(), merchant_id: merchant() };
    match role().add_entity(level()).insert_in_v1() {
        InsertUserRolePayload::OnlyV1(row) => {
            assert_eq!(row.version, UserRoleVersion::V1);
            assert_eq!(row.merchant_id, Some(merchant()));
        }
        _ => panic!("expected a V1 row"),
    }
    match role().add_entity(level()).insert_in_v2() {
        InsertUserRolePayload::OnlyV2(row) => {
            assert_eq!(row.version, UserRoleVersion::V2);
            assert_eq!(row.merchant_id, None);
            assert_eq!(row.entity_id.as_deref(), Some("org_abc"));
            assert_eq!(row.entity_type, Some(EntityType::Organization));
        }
        _ => panic!("expected a V2 row"),
    }
    assert!(matches!(
        role().add_entity(level()).insert_in_v1_and_v2(),
        InsertUserRolePayload::V1AndV2(_, _)
    ));
}

#[test]
fn internal_role_uses_internal_merchant() {
    let r = role().add_entity(InternalLevel { org_id: org() });
    match r.insert_in_v1_and_v2() {
        InsertUserRolePayload::V1AndV2(v1, v2) => {
            assert_eq!(v1.merchant_id.unwrap().get_string_repr(), "juspay000");
            assert_eq!(v2.entity_id.as_deref(), Some("juspay000"));
            assert_eq!(v2.entity_type, Some(EntityType::Internal));
        }
        _ => panic!("expected a dual write"),
    }
}

#[test]
fn profile_role_is_v2_only() {
    let r = role().add_entity(ProfileLevel {
        org_id: org(),
        merchant_id: merchant(),
        profile_id: ProfileId::new("pro_9".to_string()),
    });
    match r.insert_in_v2() {
        InsertUserRolePayload::OnlyV2(row) => {
            assert_eq!(row.profile_id, Some(ProfileId::new("pro_9".to_string())));
            assert_eq!(row.entity_id.as_deref(), Some("pro_9"));
            assert_eq!(row.entity_type, Some(EntityType::Profile));
        }
        _ => panic!("expected a V2 row"),
    }
}

#[test]
fn dual_write_without_v1_row_is_internal_error() {
    let r = role().add_entity(MerchantLevel { org_id: org(), merchant_id: merchant() });
    if let InsertUserRolePayload::V1AndV2(_, v2) = r.insert_in_v1_and_v2() {
        let stored = vec![UserRole { id: 5, record: v2 }];
        assert!(matches!(inserted_v1_role(Ok(stored)), Err(UserErrors::InternalServerError)));
    }
    assert!(matches!(inserted_v1_role(Ok(vec![])), Err(UserErrors::InternalServerError)));
    assert!(matches!(
        inserted_v1_role(Err(StoreError::UniqueViolation)),
        Err(UserErrors::InternalServerError)
    ));
}

#[test]
fn single_insert_returns_last_row() {
    let r = role().add_entity(OrganizationLevel { org_id: org(), merchant_id: merchant() });
    if let InsertUserRolePayload::OnlyV1(row) = r.insert_in_v1() {
        let stored = vec![UserRole { id: 3, record: row.clone() }, UserRole { id: 4, record: row }];
        assert_eq!(inserted_role(Ok(stored)).unwrap().id, 4);
    }
    assert!(matches!(inserted_role(Ok(vec![])), Err(UserErrors::InternalServerError)));
    assert!(matches!(inserted_role(Err(StoreError::Other)), Err(UserErrors::InternalServerError)));
}
