//! The aggregates a signup or invitation builds before anything is stored: the
//! new organization, the new merchant and the new user.
use crate::dates::{current_date_time, current_unix_timestamp, DateTime};
use crate::errors::{StoreError, UserErrors};
use crate::ids::{
    decimal_of, is_generated_org_id, MerchantAccountId, OrganizationId, INTERNAL_USER_MERCHANT_ID,
    valid_merchant_account_id,
};
use crate::roles::{
    EntityType, UserRoleNew, InsertUserRolePayload, NewUserRole, NoLevel, OrganizationLevel, UserRoleVersion, UserStatus,
};
use crate::text::trimmed;
use crate::user::{StoredUser, TotpStatus, UserFromStorage};
use crate::values::{
    before_first_at, email_check, name_check, name_from_email_check, normalized_merchant_id,
    password_check, valid_company_name, valid_merchant_id, BlockedDomains, MerchantId,
    UserCompanyName, UserEmail, UserName, UserPassword,
};
use vstd::prelude::*;
use vstd::string::StringExecFns;

verus! {

/// Relies on `uuid::Uuid::new_v4` formatted by `ToString`: a random version-4
/// UUID in its 36-character hyphenated form.
#[verifier::external_body]
fn new_user_id() -> (r: String)
    ensures
        r@.len() == 36,
{
    uuid::Uuid::new_v4().to_string()
}

/// A self-service signup: email and password only.
pub struct SignUpRequest {
    pub email: String,
    pub password: String,
}

/// A signup that names the company, from which the merchant identifier is derived.
pub struct SignUpWithMerchantIdRequest {
    pub name: String,
    pub email: String,
    pub password: String,
    pub company_name: String,
}

/// A signup by email alone; the password is set later or never (single sign-on).
pub struct ConnectAccountRequest {
    pub email: String,
}

/// The creation of an internal user under an existing organization.
pub struct CreateInternalUserRequest {
    pub name: String,
    pub email: String,
    pub password: String,
}

/// An invitation of a new user to the inviter's merchant.
pub struct InviteUserRequest {
    pub email: String,
    pub name: String,
    pub role_id: String,
}

/// A request by an existing user to add a merchant to their organization.
pub struct UserMerchantCreate {
    pub company_name: String,
}

/// Who made a request, as their session token says.
pub struct UserFromToken {
    pub user_id: String,
    pub merchant_id: MerchantAccountId,
    pub role_id: String,
    pub org_id: OrganizationId,
}

/// An organization row as the store holds it.
#[derive(Clone, Debug)]
pub struct Organization {
    pub org_id: OrganizationId,
    pub org_name: Option<String>,
}

/// An organization to be created.
#[derive(Clone, Debug)]
pub struct NewUserOrganization {
    org_id: OrganizationId,
    org_name: Option<String>,
}

/// What the caller gets from inserting an organization: a refused duplicate is
/// told apart from every other failure.
pub open spec fn organization_insert_outcome(outcome: Result<Organization, StoreError>) -> Result<
    Organization,
    UserErrors,
> {
    match outcome {
        Ok(org) => Ok(org),
        Err(StoreError::UniqueViolation) => Err(UserErrors::DuplicateOrganizationId),
        Err(_) => Err(UserErrors::InternalServerError),
    }
}

impl NewUserOrganization {
    pub closed spec fn org_id(&self) -> Seq<char> {
        self.org_id@
    }

    pub closed spec fn org_name(&self) -> Option<Seq<char>> {
        match self.org_name {
            Some(n) => Some(n@),
            None => None,
        }
    }

    /// A new organization with a fresh identifier and no name.
    pub fn new_unnamed() -> (r: Self)
        ensures
            is_generated_org_id(r.org_id()),
            r.org_name() is None,
    {
        NewUserOrganization { org_id: OrganizationId::generate(), org_name: None }
    }

    /// A new organization with a fresh identifier, named after a valid company name.
    pub fn from_company_name(company_name: String) -> (r: Result<Self, UserErrors>)
        ensures
            r is Ok <==> valid_company_name(company_name@),
            r matches Ok(o) ==> is_generated_org_id(o.org_id()) && o.org_name() == Some(trimmed(company_name@)),
            r matches Err(e) ==> e == UserErrors::CompanyNameParsingError,
    {
        let name = UserCompanyName::new(company_name)?.get_secret();
        Ok(NewUserOrganization { org_id: OrganizationId::generate(), org_name: Some(name) })
    }

    /// The organization an internal user is created under.
    pub fn for_organization(org_id: OrganizationId) -> (r: Self)
        ensures
            r.org_id() == org_id@,
            r.org_name() is None,
    {
        NewUserOrganization { org_id, org_name: None }
    }

    /// The requester's own organization, named after the merchant's company.
    pub fn for_existing_organization(org_id: OrganizationId, company_name: String) -> (r: Self)
        ensures
            r.org_id() == org_id@,
            r.org_name() == Some(company_name@),
    {
        NewUserOrganization { org_id, org_name: Some(company_name) }
    }

    /// The row to insert.
    pub fn to_organization(&self) -> (r: Organization)
        ensures
            r.org_id@ == self.org_id(),
            match (r.org_name, self.org_name()) {
                (Some(a), Some(b)) => a@ == b,
                (None, None) => true,
                _ => false,
            },
    {
        Organization {
            org_id: self.org_id.duplicate(),
            org_name: match &self.org_name {
                Some(n) => Some(n.clone()),
                None => None,
            },
        }
    }

    /// What the store's answer to the insertion gives the caller.
    pub fn insert_org_in_db(outcome: Result<Organization, StoreError>) -> (r: Result<
        Organization,
        UserErrors,
    >)
        ensures
            r == organization_insert_outcome(outcome),
    {
        match outcome {
            Ok(org) => Ok(org),
            Err(StoreError::UniqueViolation) => Err(UserErrors::DuplicateOrganizationId),
            Err(_) => Err(UserErrors::InternalServerError),
        }
    }

    pub fn get_organization_id(&self) -> (r: OrganizationId)
        ensures
            r@ == self.org_id(),
    {
        self.org_id.duplicate()
    }
}

/// The platform schema version, which decides the shape of a merchant account
/// creation request.
#[derive(Clone, Copy, Debug, PartialEq, Eq, Structural)]
pub enum PlatformVersion {
    V1,
    V2,
}

/// A request to the merchant-management capability to create an account.
#[derive(Debug)]
pub enum MerchantAccountCreate {
    /// Names the merchant account explicitly; routing, webhook and the other
    /// settings stay unset.
    V1 {
        merchant_id: MerchantAccountId,
        merchant_name: Option<String>,
        organization_id: OrganizationId,
    },
    /// The platform picks the identifier; only the organization and a name are given.
    V2 { merchant_name: String, organization_id: OrganizationId },
}

/// A merchant to be created for a new user.
#[derive(Clone, Debug)]
pub struct NewUserMerchant {
    merchant_id: MerchantAccountId,
    company_name: Option<UserCompanyName>,
    new_organization: NewUserOrganization,
}

/// The identifier `merchant_<seconds>` for some timestamp.
pub open spec fn is_timestamp_merchant_id(id: Seq<char>) -> bool {
    exists|t: i64| id == seq!['m', 'e', 'r', 'c', 'h', 'a', 'n', 't', '_'] + decimal_of(t as int)
}

/// Chains two checks: the first failure wins.
pub open spec fn then_check(first: Result<(), UserErrors>, second: Result<(), UserErrors>) -> Result<
    (),
    UserErrors,
> {
    match first {
        Err(e) => Err(e),
        Ok(_) => second,
    }
}

/// The check of a company name.
pub open spec fn company_name_check(company_name: Seq<char>) -> Result<(), UserErrors> {
    if valid_company_name(company_name) {
        Ok(())
    } else {
        Err(UserErrors::CompanyNameParsingError)
    }
}

/// The check of a company name as the source of a merchant identifier.
pub open spec fn merchant_id_check(company_name: Seq<char>) -> Result<(), UserErrors> {
    let m = normalized_merchant_id(company_name);
    if valid_merchant_id(m) && valid_merchant_account_id(m) {
        Ok(())
    } else {
        Err(UserErrors::MerchantIdParsingError)
    }
}

/// The name a V2 merchant gets where no company name was given.
pub const DEFAULT_MERCHANT_NAME: &'static str = "merchant";

impl NewUserMerchant {
    pub closed spec fn merchant_id(&self) -> Seq<char> {
        self.merchant_id@
    }

    pub closed spec fn company_name(&self) -> Option<Seq<char>> {
        match self.company_name {
            Some(c) => Some(c@),
            None => None,
        }
    }

    pub closed spec fn organization(&self) -> NewUserOrganization {
        self.new_organization
    }

    fn with_timestamp_id(new_organization: NewUserOrganization) -> (r: Self)
        ensures
            is_timestamp_merchant_id(r.merchant_id()),
            r.company_name() is None,
            r.organization() == new_organization,
    {
        let timestamp = current_unix_timestamp();
        let merchant_id = MerchantAccountId::new_from_unix_timestamp(timestamp);
        NewUserMerchant { merchant_id, company_name: None, new_organization }
    }

    /// The merchant of a self-service signup: a timestamp identifier and a new,
    /// unnamed organization.
    pub fn from_sign_up() -> (r: Self)
        ensures
            is_timestamp_merchant_id(r.merchant_id()),
            r.company_name() is None,
            r.organization().org_name() is None,
    {
        Self::with_timestamp_id(NewUserOrganization::new_unnamed())
    }

    /// The merchant of a signup by email alone.
    pub fn from_connect_account() -> (r: Self)
        ensures
            is_timestamp_merchant_id(r.merchant_id()),
            r.company_name() is None,
            r.organization().org_name() is None,
    {
        Self::with_timestamp_id(NewUserOrganization::new_unnamed())
    }

    /// The merchant of a signup that names its company: the identifier is the
    /// normalized company name, and the organization is named after the company.
    pub fn from_sign_up_with_merchant_id(company_name: &String) -> (r: Result<Self, UserErrors>)
        ensures
            then_check(company_name_check(company_name@), merchant_id_check(company_name@)) matches Err(
                e,
            ) ==> r == Err::<Self, UserErrors>(e),
            then_check(company_name_check(company_name@), merchant_id_check(company_name@)) is Ok
                ==> (r matches Ok(m) && {
                &&& m.merchant_id() == normalized_merchant_id(company_name@)
                &&& m.company_name() == Some(trimmed(company_name@))
                &&& m.organization().org_name() == Some(trimmed(company_name@))
            }),
    {
        let company = UserCompanyName::new(company_name.clone())?;
        let merchant_id = MerchantId::new(company_name.clone())?;
        let new_organization = NewUserOrganization::from_company_name(company_name.clone())?;
        let merchant_id = MerchantAccountId::try_from_merchant_id(merchant_id)?;
        Ok(NewUserMerchant { company_name: Some(company), merchant_id, new_organization })
    }

    /// The merchant an internal user is attached to, under the given organization.
    pub fn from_internal_user(org_id: OrganizationId) -> (r: Self)
        ensures
            r.merchant_id() == INTERNAL_USER_MERCHANT_ID@,
            r.company_name() is None,
            r.organization().org_id() == org_id@,
            r.organization().org_name() is None,
    {
        NewUserMerchant {
            merchant_id: MerchantAccountId::get_internal_user_merchant_id(),
            company_name: None,
            new_organization: NewUserOrganization::for_organization(org_id),
        }
    }

    /// The merchant of an invitee: the inviter's merchant.
    pub fn from_invite(token: &UserFromToken) -> (r: Self)
        ensures
            r.merchant_id() == token.merchant_id@,
            r.company_name() is None,
            r.organization().org_name() is None,
    {
        NewUserMerchant {
            merchant_id: token.merchant_id.duplicate(),
            company_name: None,
            new_organization: NewUserOrganization::new_unnamed(),
        }
    }

    /// A merchant that an existing user adds to their organization. In a
    /// production runtime its identifier is the normalized company name; in any
    /// other it is a timestamp identifier, so that repeated test signups with one
    /// company name do not collide.
    pub fn from_merchant_create(request: &UserMerchantCreate, token: &UserFromToken, is_production: bool) -> (r:
        Result<Self, UserErrors>)
        ensures
            ({
                let checks = if is_production {
                    then_check(
                        merchant_id_check(request.company_name@),
                        company_name_check(request.company_name@),
                    )
                } else {
                    company_name_check(request.company_name@)
                };
                &&& checks matches Err(e) ==> r == Err::<Self, UserErrors>(e)
                &&& checks is Ok ==> (r matches Ok(m) && {
                    &&& is_production ==> m.merchant_id() == normalized_merchant_id(request.company_name@)
                    &&& !is_production ==> is_timestamp_merchant_id(m.merchant_id())
                    &&& m.company_name() == Some(trimmed(request.company_name@))
                    &&& m.organization().org_id() == token.org_id@
                    &&& m.organization().org_name() == Some(request.company_name@)
                })
            }),
    {
        let new_organization = NewUserOrganization::for_existing_organization(
            token.org_id.duplicate(),
            request.company_name.clone(),
        );
        if is_production {
            let merchant_id = MerchantId::new(request.company_name.clone())?;
            let merchant_id = MerchantAccountId::try_from_merchant_id(merchant_id)?;
            let company = UserCompanyName::new(request.company_name.clone())?;
            Ok(NewUserMerchant { merchant_id, company_name: Some(company), new_organization })
        } else {
            let timestamp = current_unix_timestamp();
            let merchant_id = MerchantAccountId::new_from_unix_timestamp(timestamp);
            let company = UserCompanyName::new(request.company_name.clone())?;
            Ok(NewUserMerchant { merchant_id, company_name: Some(company), new_organization })
        }
    }

    pub fn get_company_name(&self) -> (r: Option<String>)
        ensures
            match (r, self.company_name()) {
                (Some(a), Some(b)) => a@ == b,
                (None, None) => true,
                _ => false,
            },
    {
        match &self.company_name {
            Some(c) => Some(c.peek().to_owned()),
            None => None,
        }
    }

    pub fn get_merchant_id(&self) -> (r: MerchantAccountId)
        ensures
            r@ == self.merchant_id(),
    {
        self.merchant_id.duplicate()
    }

    pub fn get_new_organization(&self) -> (r: NewUserOrganization)
        ensures
            r.org_id() == self.organization().org_id(),
            r.org_name() == self.organization().org_name(),
    {
        NewUserOrganization {
            org_id: self.new_organization.org_id.duplicate(),
            org_name: match &self.new_organization.org_name {
                Some(n) => Some(n.clone()),
                None => None,
            },
        }
    }

    /// The request that creates this merchant's account under the given
    /// platform version.
    pub fn create_merchant_account_request(&self, version: PlatformVersion) -> (r: MerchantAccountCreate)
        ensures
            version == PlatformVersion::V1 ==> (r matches MerchantAccountCreate::V1 {
                merchant_id,
                merchant_name,
                organization_id,
            } && merchant_id@ == self.merchant_id() && organization_id@
                == self.organization().org_id() && match (merchant_name, self.company_name()) {
                (Some(a), Some(b)) => a@ == b,
                (None, None) => true,
                _ => false,
            }),
            version == PlatformVersion::V2 ==> (r matches MerchantAccountCreate::V2 {
                merchant_name,
                organization_id,
            } && organization_id@ == self.organization().org_id() && merchant_name@ == match self.company_name() {
                Some(c) => c,
                None => DEFAULT_MERCHANT_NAME@,
            }),
    {
        match version {
            PlatformVersion::V1 => MerchantAccountCreate::V1 {
                merchant_id: self.get_merchant_id(),
                merchant_name: self.get_company_name(),
                organization_id: self.new_organization.get_organization_id(),
            },
            PlatformVersion::V2 => {
                let merchant_name = match self.get_company_name() {
                    Some(name) => name,
                    None => String::from_str(DEFAULT_MERCHANT_NAME),
                };
                MerchantAccountCreate::V2 {
                    merchant_name,
                    organization_id: self.new_organization.get_organization_id(),
                }
            },
        }
    }

    /// The account creation request for this merchant, unless the lookup of
    /// its key store found that it already exists.
    pub fn create_new_merchant_and_insert_in_db(&self, found: bool, version: PlatformVersion) -> (r: Result<
        MerchantAccountCreate,
        UserErrors,
    >)
        ensures
            found ==> (r matches Err(UserErrors::MerchantAccountCreationError(_))),
            !found ==> (r matches Ok(request) && match request {
                MerchantAccountCreate::V1 { merchant_id, organization_id, .. } => version
                    == PlatformVersion::V1 && merchant_id@ == self.merchant_id() && organization_id@
                    == self.organization().org_id(),
                MerchantAccountCreate::V2 { organization_id, .. } => version == PlatformVersion::V2
                    && organization_id@ == self.organization().org_id(),
            }),
    {
        self.check_if_already_exists_in_db(found)?;
        Ok(self.create_merchant_account_request(version))
    }

    /// What the lookup of this merchant's key store decides: a merchant that
    /// already resolves is not created again.
    pub fn check_if_already_exists_in_db(&self, found: bool) -> (r: Result<(), UserErrors>)
        ensures
            !found ==> r is Ok,
            found ==> (r matches Err(UserErrors::MerchantAccountCreationError(message))
                && message@ == seq!['M', 'e', 'r', 'c', 'h', 'a', 'n', 't', ' ', 'w', 'i', 't', 'h', ' ']
                + self.merchant_id() + seq![' ', 'a', 'l', 'r', 'e', 'a', 'd', 'y', ' ', 'e', 'x', 'i', 's', 't', 's']),
    {
        if found {
            let message = String::from_str("Merchant with ").concat(
                self.merchant_id.get_string_repr().as_str(),
            ).concat(" already exists");
            proof {
                reveal_strlit("Merchant with ");
                reveal_strlit(" already exists");
                assert(message@ =~= seq!['M', 'e', 'r', 'c', 'h', 'a', 'n', 't', ' ', 'w', 'i', 't', 'h', ' ']
                    + self.merchant_id() + seq![' ', 'a', 'l', 'r', 'e', 'a', 'd', 'y', ' ', 'e', 'x', 'i', 's', 't', 's']);
            }
            return Err(UserErrors::MerchantAccountCreationError(message));
        }
        Ok(())
    }
}

/// A user row to be inserted.
#[derive(Debug)]
pub struct UserNew {
    pub user_id: String,
    pub name: String,
    pub email: String,
    /// The password hash, where the user has a password.
    pub password: Option<String>,
    pub is_verified: bool,
    pub created_at: DateTime,
    pub last_modified_at: DateTime,
    pub preferred_merchant_id: Option<MerchantAccountId>,
    pub totp_status: TotpStatus,
    pub totp_secret: Option<Vec<u8>>,
    pub totp_recovery_codes: Option<Vec<String>>,
    pub last_password_modified_at: Option<DateTime>,
}

/// A role row that a new user holds by their own act: created and last modified
/// by the user, at one valid moment, with the given role and status.
pub open spec fn carries_own_role(row: UserRoleNew, user_id: Seq<char>, role_id: Seq<char>, status: UserStatus) -> bool {
    &&& row.user_id@ == user_id
    &&& row.role_id@ == role_id
    &&& row.status == status
    &&& row.created_by@ == user_id
    &&& row.last_modified_by@ == user_id
    &&& row.created_at == row.last_modified
    &&& row.created_at.wf()
}

/// The V1 row of a new user's organization-scope role: the organization and the
/// user's merchant, no generic entity.
pub open spec fn is_org_scope_v1_row(
    row: UserRoleNew,
    user_id: Seq<char>,
    role_id: Seq<char>,
    status: UserStatus,
    org: Seq<char>,
    merchant: Seq<char>,
) -> bool {
    &&& carries_own_role(row, user_id, role_id, status)
    &&& (row.org_id matches Some(o) && o@ == org)
    &&& (row.merchant_id matches Some(m) && m@ == merchant)
    &&& row.profile_id is None
    &&& row.entity_id is None
    &&& row.entity_type is None
    &&& row.version == UserRoleVersion::V1
}

/// The V2 row of a new user's organization-scope role: the organization as the
/// scope, no merchant or profile.
pub open spec fn is_org_scope_v2_row(
    row: UserRoleNew,
    user_id: Seq<char>,
    role_id: Seq<char>,
    status: UserStatus,
    org: Seq<char>,
) -> bool {
    &&& carries_own_role(row, user_id, role_id, status)
    &&& (row.org_id matches Some(o) && o@ == org)
    &&& row.merchant_id is None
    &&& row.profile_id is None
    &&& (row.entity_id matches Some(id) && id@ == org)
    &&& row.entity_type == Some(EntityType::Organization)
    &&& row.version == UserRoleVersion::V2
}

/// A user to be created, together with the merchant created for them.
#[derive(Clone, Debug)]
pub struct NewUser {
    user_id: String,
    name: UserName,
    email: UserEmail,
    password: Option<UserPassword>,
    new_merchant: NewUserMerchant,
}

impl NewUser {
    pub closed spec fn user_id(&self) -> Seq<char> {
        self.user_id@
    }

    pub closed spec fn name(&self) -> Seq<char> {
        self.name@
    }

    pub closed spec fn email(&self) -> Seq<char> {
        self.email@
    }

    pub closed spec fn password(&self) -> Option<Seq<char>> {
        match self.password {
            Some(p) => Some(p@),
            None => None,
        }
    }

    pub closed spec fn merchant(&self) -> NewUserMerchant {
        self.new_merchant
    }

    /// A signup that names the company.
    pub fn from_sign_up_with_merchant_id(request: SignUpWithMerchantIdRequest, blocked: &BlockedDomains) -> (r:
        Result<Self, UserErrors>)
        ensures
            ({
                let checks = then_check(
                    email_check(request.email@, blocked@),
                    then_check(
                        name_check(request.name@),
                        then_check(
                            password_check(request.password@),
                            then_check(
                                company_name_check(request.company_name@),
                                merchant_id_check(request.company_name@),
                            ),
                        ),
                    ),
                );
                &&& checks matches Err(e) ==> r == Err::<Self, UserErrors>(e)
                &&& checks is Ok ==> (r matches Ok(u) && {
                    &&& u.user_id().len() == 36
                    &&& u.email() == request.email@
                    &&& u.name() == request.name@
                    &&& u.password() == Some(request.password@)
                    &&& u.merchant().merchant_id() == normalized_merchant_id(request.company_name@)
                    &&& u.merchant().company_name() == Some(trimmed(request.company_name@))
                })
            }),
    {
        let email = UserEmail::from_pii_email(request.email, blocked)?;
        let name = UserName::new(request.name)?;
        let password = UserPassword::new(request.password)?;
        let user_id = new_user_id();
        let new_merchant = NewUserMerchant::from_sign_up_with_merchant_id(&request.company_name)?;
        Ok(NewUser { name, email, password: Some(password), user_id, new_merchant })
    }

    /// A self-service signup; the name is the email's local part.
    pub fn from_sign_up(request: SignUpRequest, blocked: &BlockedDomains) -> (r: Result<Self, UserErrors>)
        ensures
            ({
                let checks = then_check(
                    email_check(request.email@, blocked@),
                    then_check(
                        name_from_email_check(request.email@),
                        password_check(request.password@),
                    ),
                );
                &&& checks matches Err(e) ==> r == Err::<Self, UserErrors>(e)
                &&& checks is Ok ==> (r matches Ok(u) && {
                    &&& u.user_id().len() == 36
                    &&& u.email() == request.email@
                    &&& u.name() == before_first_at(request.email@)
                    &&& u.password() == Some(request.password@)
                    &&& is_timestamp_merchant_id(u.merchant().merchant_id())
                })
            }),
    {
        let user_id = new_user_id();
        let email = UserEmail::from_pii_email(request.email.clone(), blocked)?;
        let name = UserName::from_email(&request.email)?;
        let password = UserPassword::new(request.password)?;
        let new_merchant = NewUserMerchant::from_sign_up();
        Ok(NewUser { user_id, name, email, password: Some(password), new_merchant })
    }

    /// A signup by email alone: the user has no password.
    pub fn from_connect_account(request: ConnectAccountRequest, blocked: &BlockedDomains) -> (r: Result<
        Self,
        UserErrors,
    >)
        ensures
            ({
                let checks = then_check(
                    email_check(request.email@, blocked@),
                    name_from_email_check(request.email@),
                );
                &&& checks matches Err(e) ==> r == Err::<Self, UserErrors>(e)
                &&& checks is Ok ==> (r matches Ok(u) && {
                    &&& u.user_id().len() == 36
                    &&& u.email() == request.email@
                    &&& u.name() == before_first_at(request.email@)
                    &&& u.password() is None
                    &&& is_timestamp_merchant_id(u.merchant().merchant_id())
                })
            }),
    {
        let user_id = new_user_id();
        let email = UserEmail::from_pii_email(request.email.clone(), blocked)?;
        let name = UserName::from_email(&request.email)?;
        let new_merchant = NewUserMerchant::from_connect_account();
        Ok(NewUser { user_id, name, email, password: None, new_merchant })
    }

    /// An internal user under the organization `org_id`.
    pub fn from_internal_user(
        request: CreateInternalUserRequest,
        org_id: OrganizationId,
        blocked: &BlockedDomains,
    ) -> (r: Result<Self, UserErrors>)
        ensures
            ({
                let checks = then_check(
                    email_check(request.email@, blocked@),
                    then_check(name_check(request.name@), password_check(request.password@)),
                );
                &&& checks matches Err(e) ==> r == Err::<Self, UserErrors>(e)
                &&& checks is Ok ==> (r matches Ok(u) && {
                    &&& u.user_id().len() == 36
                    &&& u.email() == request.email@
                    &&& u.name() == request.name@
                    &&& u.password() == Some(request.password@)
                    &&& u.merchant().merchant_id() == INTERNAL_USER_MERCHANT_ID@
                    &&& u.merchant().organization().org_id() == org_id@
                })
            }),
    {
        let user_id = new_user_id();
        let email = UserEmail::from_pii_email(request.email, blocked)?;
        let name = UserName::new(request.name)?;
        let password = UserPassword::new(request.password)?;
        let new_merchant = NewUserMerchant::from_internal_user(org_id);
        Ok(NewUser { user_id, name, email, password: Some(password), new_merchant })
    }

    /// An existing user adding a merchant: the user's own identity, and the new
    /// merchant in their organization.
    pub fn from_merchant_create(
        user: &UserFromStorage,
        request: &UserMerchantCreate,
        token: &UserFromToken,
        is_production: bool,
        blocked: &BlockedDomains,
    ) -> (r: Result<Self, UserErrors>)
        ensures
            ({
                let merchant_checks = if is_production {
                    then_check(
                        merchant_id_check(request.company_name@),
                        company_name_check(request.company_name@),
                    )
                } else {
                    company_name_check(request.company_name@)
                };
                let password_present = match user.0.password {
                    Some(p) => if p@.len() > 0 {
                        Ok(())
                    } else {
                        Err(UserErrors::PasswordParsingError)
                    },
                    None => Ok(()),
                };
                let checks = then_check(
                    merchant_checks,
                    then_check(
                        name_check(user.0.name@),
                        then_check(email_check(user.0.email@, blocked@), password_present),
                    ),
                );
                &&& checks matches Err(e) ==> r == Err::<Self, UserErrors>(e)
                &&& checks is Ok ==> (r matches Ok(u) && {
                    &&& u.user_id() == user.0.user_id@
                    &&& u.email() == user.0.email@
                    &&& u.name() == user.0.name@
                    &&& match (u.password(), user.0.password) {
                        (Some(a), Some(b)) => a == b@,
                        (None, None) => true,
                        _ => false,
                    }
                    &&& u.merchant().organization().org_id() == token.org_id@
                })
            }),
    {
        let new_merchant = NewUserMerchant::from_merchant_create(request, token, is_production)?;
        let name = UserName::new(user.0.name.clone())?;
        let email = UserEmail::from_pii_email(user.0.email.clone(), blocked)?;
        let password = match &user.0.password {
            Some(p) => Some(UserPassword::new_password_without_validation(p.clone())?),
            None => None,
        };
        Ok(NewUser { user_id: user.0.user_id.clone(), name, email, password, new_merchant })
    }

    /// An invitee. The temporary password is checked like a chosen one and kept
    /// only where invitations are not completed by email.
    pub fn from_invite(
        request: InviteUserRequest,
        token: &UserFromToken,
        temp_password: String,
        keep_temp_password: bool,
        blocked: &BlockedDomains,
    ) -> (r: Result<Self, UserErrors>)
        ensures
            ({
                let checks = then_check(
                    email_check(request.email@, blocked@),
                    then_check(name_check(request.name@), password_check(temp_password@)),
                );
                &&& checks matches Err(e) ==> r == Err::<Self, UserErrors>(e)
                &&& checks is Ok ==> (r matches Ok(u) && {
                    &&& u.user_id().len() == 36
                    &&& u.email() == request.email@
                    &&& u.name() == request.name@
                    &&& u.password() == if keep_temp_password {
                        Some(temp_password@)
                    } else {
                        None
                    }
                    &&& u.merchant().merchant_id() == token.merchant_id@
                })
            }),
    {
        let user_id = new_user_id();
        let email = UserEmail::from_pii_email(request.email, blocked)?;
        let name = UserName::new(request.name)?;
        let checked = UserPassword::new(temp_password)?;
        let password = if keep_temp_password {
            Some(checked)
        } else {
            None
        };
        let new_merchant = NewUserMerchant::from_invite(token);
        Ok(NewUser { user_id, name, email, password, new_merchant })
    }

    /// What the lookup of the user's email decides: an address already
    /// registered is refused.
    pub fn check_if_already_exists_in_db(&self, found: bool) -> (r: Result<(), UserErrors>)
        ensures
            found ==> r == Err::<(), UserErrors>(UserErrors::UserExists),
            !found ==> r is Ok,
    {
        if found {
            return Err(UserErrors::UserExists);
        }
        Ok(())
    }

    /// What the store's answer to the user row's insertion gives the caller: a
    /// refused duplicate means the user exists, any other failure is internal.
    pub fn insert_user_in_db(inserted: Result<StoredUser, StoreError>) -> (r: Result<
        UserFromStorage,
        UserErrors,
    >)
        ensures
            match inserted {
                Ok(u) => r matches Ok(v) && v.0 == u,
                Err(StoreError::UniqueViolation) => r == Err::<UserFromStorage, UserErrors>(
                    UserErrors::UserExists,
                ),
                Err(_) => r == Err::<UserFromStorage, UserErrors>(UserErrors::InternalServerError),
            },
    {
        match inserted {
            Ok(user) => Ok(UserFromStorage(user)),
            Err(StoreError::UniqueViolation) => Err(UserErrors::UserExists),
            Err(_) => Err(UserErrors::InternalServerError),
        }
    }

    pub fn get_user_id(&self) -> (r: String)
        ensures
            r@ == self.user_id(),
    {
        self.user_id.clone()
    }

    pub fn get_email(&self) -> (r: String)
        ensures
            r@ == self.email(),
    {
        self.email.peek().to_owned()
    }

    pub fn get_name(&self) -> (r: String)
        ensures
            r@ == self.name(),
    {
        self.name.peek().to_owned()
    }

    pub fn get_new_merchant(&self) -> (r: &NewUserMerchant)
        ensures
            *r == self.merchant(),
    {
        &self.new_merchant
    }

    pub fn get_password(&self) -> (r: Option<String>)
        ensures
            match (r, self.password()) {
                (Some(a), Some(b)) => a@ == b,
                (None, None) => true,
                _ => false,
            },
    {
        match &self.password {
            Some(p) => Some(p.get_secret()),
            None => None,
        }
    }

    /// The user row to insert, given the hash of the password (where there is
    /// one) and the current time. A new user is unverified, has no TOTP and no
    /// preferred merchant; the password change time is set only with a password.
    pub fn to_user_new(&self, hashed_password: Option<String>, now: DateTime) -> (r: UserNew)
        ensures
            r.user_id@ == self.user_id(),
            r.name@ == self.name(),
            r.email@ == self.email(),
            r.password == hashed_password,
            !r.is_verified,
            r.created_at == now,
            r.last_modified_at == now,
            r.preferred_merchant_id is None,
            r.totp_status == TotpStatus::NotSet,
            r.totp_secret is None,
            r.totp_recovery_codes is None,
            r.last_password_modified_at == if self.password() is Some {
                Some(now)
            } else {
                None
            },
    {
        let last_password_modified_at = if self.password.is_some() {
            Some(now)
        } else {
            None
        };
        UserNew {
            user_id: self.get_user_id(),
            name: self.get_name(),
            email: self.get_email(),
            password: hashed_password,
            is_verified: false,
            created_at: now,
            last_modified_at: now,
            preferred_merchant_id: None,
            totp_status: TotpStatus::NotSet,
            totp_secret: None,
            totp_recovery_codes: None,
            last_password_modified_at,
        }
    }

    /// The user's role before any scope is chosen: created and last modified by
    /// the user, now.
    pub fn get_no_level_user_role(self, role_id: String, user_status: UserStatus) -> (r: NewUserRole<
        NoLevel,
    >)
        ensures
            r.user_id@ == self.user_id(),
            r.created_by@ == self.user_id(),
            r.last_modified_by@ == self.user_id(),
            r.role_id == role_id,
            r.status == user_status,
            r.created_at == r.last_modified,
            r.created_at.wf(),
    {
        let now = current_date_time();
        let user_id = self.get_user_id();
        NewUserRole {
            status: user_status,
            created_by: user_id.clone(),
            last_modified_by: user_id.clone(),
            user_id,
            role_id,
            created_at: now,
            last_modified: now,
            entity: NoLevel,
        }
    }

    /// The request that stores the user's organization-scope role: under the
    /// given version, or under both where none is given.
    pub fn insert_org_level_user_role_in_db(
        self,
        role_id: String,
        user_status: UserStatus,
        version: Option<UserRoleVersion>,
    ) -> (r: InsertUserRolePayload)
        ensures
            ({
                let org = self.merchant().organization().org_id();
                let merchant = self.merchant().merchant_id();
                let user = self.user_id();
                match version {
                    Some(UserRoleVersion::V1) => r matches InsertUserRolePayload::OnlyV1(row)
                        && is_org_scope_v1_row(row, user, role_id@, user_status, org, merchant),
                    Some(UserRoleVersion::V2) => r matches InsertUserRolePayload::OnlyV2(row)
                        && is_org_scope_v2_row(row, user, role_id@, user_status, org),
                    None => r matches InsertUserRolePayload::V1AndV2(v1, v2) && is_org_scope_v1_row(
                        v1,
                        user,
                        role_id@,
                        user_status,
                        org,
                        merchant,
                    ) && is_org_scope_v2_row(v2, user, role_id@, user_status, org)
                        && v1.created_at == v2.created_at,
                }
            }),
    {
        let org_id = self.new_merchant.new_organization.get_organization_id();
        let merchant_id = self.new_merchant.get_merchant_id();
        let org_user_role = self.get_no_level_user_role(role_id, user_status).add_entity(
            OrganizationLevel { org_id, merchant_id },
        );
        match version {
            Some(UserRoleVersion::V1) => org_user_role.insert_in_v1(),
            Some(UserRoleVersion::V2) => org_user_role.insert_in_v2(),
            None => org_user_role.insert_in_v1_and_v2(),
        }
    }
}

} // verus!
