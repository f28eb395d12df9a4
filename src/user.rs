//! A user as the store holds it, and the decisions made on its record.
use crate::dates::{checked_add_days, current_date_time, date_after, CalendarDate, DateTime, MAX_DURATION_DAYS};
use crate::errors::{StoreError, UserErrors};
use crate::ids::MerchantAccountId;
use crate::key_store::{KeyStoreAction, KeyStoreFlow, TotpSecretAction, TotpSecretFlow, TotpSecretStep};
use crate::roles::{UserRole, UserStatus};
use vstd::prelude::*;

verus! {

#[derive(Clone, Copy, Debug, PartialEq, Eq, Structural)]
pub enum TotpStatus {
    /// TOTP is set up and in use.
    Configured,
    InProgress,
    NotSet,
}

/// A user row.
#[derive(Clone, Debug)]
pub struct StoredUser {
    pub user_id: String,
    pub email: String,
    pub name: String,
    /// The password hash; absent for an invitee who has not set one yet and for
    /// single-sign-on users.
    pub password: Option<String>,
    pub is_verified: bool,
    pub created_at: DateTime,
    pub last_modified_at: DateTime,
    pub preferred_merchant_id: Option<MerchantAccountId>,
    pub totp_status: TotpStatus,
    /// The TOTP secret, encrypted under the user's key.
    pub totp_secret: Option<Vec<u8>>,
    /// The recovery codes, hashed.
    pub totp_recovery_codes: Option<Vec<String>>,
    pub last_password_modified_at: Option<DateTime>,
}

impl StoredUser {
    pub open spec fn wf(self) -> bool {
        &&& self.created_at.wf()
        &&& self.last_modified_at.wf()
        &&& self.last_password_modified_at matches Some(t) ==> t.wf()
    }

    /// Whether the row's timestamps are all valid.
    pub fn is_valid(&self) -> (r: bool)
        ensures
            r == self.wf(),
    {
        self.created_at.is_valid() && self.last_modified_at.is_valid() && match &self.last_password_modified_at {
            Some(t) => t.is_valid(),
            None => true,
        }
    }
}

/// A user read from the store.
#[derive(Clone, Debug)]
pub struct UserFromStorage(pub StoredUser);

/// What a password check gives, from what the hashing capability said.
pub open spec fn password_verdict(checked: Result<bool, UserErrors>) -> Result<(), UserErrors> {
    match checked {
        Ok(true) => Ok(()),
        Ok(false) => Err(UserErrors::InvalidCredentials),
        Err(e) => Err(e),
    }
}

/// How many days are left to verify the email address: none for a verified
/// user, an error once the grace period is over.
pub open spec fn verification_days_left(user: StoredUser, allowed_unverified_days: int, today: CalendarDate) -> Result<
    Option<i64>,
    UserErrors,
> {
    if user.is_verified {
        Ok(None)
    } else {
        match date_after(user.created_at.date, allowed_unverified_days) {
            None => Err(UserErrors::InternalServerError),
            Some(last) => if today.julian_day >= last.julian_day {
                Err(UserErrors::UnverifiedUser)
            } else {
                Ok(Some((last.julian_day - today.julian_day) as i64))
            },
        }
    }
}

/// Whether the password must be changed: always where none was ever set, else
/// once its validity period has run out.
pub open spec fn password_rotation_due(user: StoredUser, validity_days: int, today: CalendarDate) -> Result<
    bool,
    UserErrors,
> {
    match user.last_password_modified_at {
        None => Ok(true),
        Some(changed) => match date_after(changed.date, validity_days) {
            None => Err(UserErrors::InternalServerError),
            Some(last) => Ok(last.julian_day - today.julian_day < 0),
        },
    }
}

/// Which role lookup finds the role a user acts under.
#[derive(Debug)]
pub enum RoleLookup {
    /// The role at the preferred merchant.
    ByMerchant(MerchantAccountId),
    /// All the user's V1 roles, of which the first active one is taken.
    AllRoles,
}

/// The first active role among the rows.
pub open spec fn first_active(rows: Seq<UserRole>) -> Option<UserRole>
    decreases rows.len(),
{
    if rows.len() == 0 {
        None
    } else if rows[0].record.status == UserStatus::Active {
        Some(rows[0])
    } else {
        first_active(rows.drop_first())
    }
}

/// The first active role of a user's roles, or "not found".
pub fn first_active_role(rows: Vec<UserRole>) -> (r: Result<UserRole, StoreError>)
    ensures
        r == match first_active(rows@) {
            Some(row) => Ok(row),
            None => Err::<UserRole, StoreError>(StoreError::NotFound),
        },
{
    let ghost all = rows@;
    let mut i: usize = 0;
    assert(all.subrange(0, all.len() as int) =~= all);
    while i < rows.len()
        invariant
            all == rows@,
            i <= rows@.len(),
            first_active(all) == first_active(all.subrange(i as int, all.len() as int)),
        decreases rows@.len() - i,
    {
        assert(all.subrange(i as int, all.len() as int).drop_first() =~= all.subrange(
            i + 1,
            all.len() as int,
        ));
        if rows[i].record.status == UserStatus::Active {
            let mut rows = rows;
            return Ok(rows.swap_remove(i));
        }
        i += 1;
    }
    assert(all.subrange(i as int, all.len() as int).len() == 0);
    Err(StoreError::NotFound)
}

impl UserFromStorage {
    pub fn get_user_id(&self) -> (r: &str)
        ensures
            r@ == self.0.user_id@,
    {
        self.0.user_id.as_str()
    }

    /// Checks a candidate password against the stored hash with `verify`, which
    /// tells whether a candidate matches a hash. A user with no password never
    /// matches, and `verify` is then not called.
    pub fn compare_password<F>(&self, candidate: &String, verify: F) -> (r: Result<(), UserErrors>) where
        F: FnOnce(&String, &String) -> Result<bool, UserErrors>,

        requires
            forall|c: &String, h: &String| verify.requires((c, h)),
        ensures
            self.0.password is None ==> r == Err::<(), UserErrors>(UserErrors::InvalidCredentials),
            self.0.password matches Some(hash) ==> exists|checked: Result<bool, UserErrors>|
                verify.ensures((candidate, &hash), checked) && r == password_verdict(checked),
    {
        match &self.0.password {
            Some(password) => {
                let checked = verify(candidate, password);
                let r = match checked {
                    Ok(true) => Ok(()),
                    Ok(false) => Err(UserErrors::InvalidCredentials),
                    Err(e) => Err(e),
                };
                assert(verify.ensures((candidate, password), checked) && r == password_verdict(checked));
                r
            },
            None => Err(UserErrors::InvalidCredentials),
        }
    }

    pub fn get_name(&self) -> (r: String)
        ensures
            r@ == self.0.name@,
    {
        self.0.name.clone()
    }

    pub fn get_email(&self) -> (r: String)
        ensures
            r@ == self.0.email@,
    {
        self.0.email.clone()
    }

    /// Days left to verify the email address as of `today`.
    pub fn verification_days_left_on(&self, allowed_unverified_days: i64, today: CalendarDate) -> (r: Result<
        Option<i64>,
        UserErrors,
    >)
        requires
            self.0.wf(),
            today.wf(),
            -MAX_DURATION_DAYS <= allowed_unverified_days <= MAX_DURATION_DAYS,
        ensures
            r == verification_days_left(self.0, allowed_unverified_days as int, today),
    {
        if self.0.is_verified {
            return Ok(None);
        }
        let last_date_for_verification = match checked_add_days(
            self.0.created_at.date,
            allowed_unverified_days,
        ) {
            Some(d) => d,
            None => return Err(UserErrors::InternalServerError),
        };
        if today.julian_day >= last_date_for_verification.julian_day {
            return Err(UserErrors::UnverifiedUser);
        }
        Ok(Some(last_date_for_verification.julian_day as i64 - today.julian_day as i64))
    }

    /// Days left to verify the email address as of the current date.
    pub fn get_verification_days_left(&self, allowed_unverified_days: i64) -> (r: Result<
        Option<i64>,
        UserErrors,
    >)
        requires
            self.0.wf(),
            -MAX_DURATION_DAYS <= allowed_unverified_days <= MAX_DURATION_DAYS,
        ensures
            exists|today: CalendarDate|
                today.wf() && r == verification_days_left(self.0, allowed_unverified_days as int, today),
    {
        let today = current_date_time().date;
        self.verification_days_left_on(allowed_unverified_days, today)
    }

    pub fn is_verified(&self) -> (r: bool)
        ensures
            r == self.0.is_verified,
    {
        self.0.is_verified
    }

    /// Whether the password must be changed as of `today`.
    pub fn password_rotate_required_on(&self, password_validity_in_days: u16, today: CalendarDate) -> (r:
        Result<bool, UserErrors>)
        requires
            self.0.wf(),
            today.wf(),
        ensures
            r == password_rotation_due(self.0, password_validity_in_days as int, today),
    {
        let last_password_modified_at = match self.0.last_password_modified_at {
            Some(t) => t.date,
            None => return Ok(true),
        };
        let last_date_for_password_rotate = match checked_add_days(
            last_password_modified_at,
            password_validity_in_days as i64,
        ) {
            Some(d) => d,
            None => return Err(UserErrors::InternalServerError),
        };
        let days_left_for_password_rotate = last_date_for_password_rotate.julian_day as i64
            - today.julian_day as i64;
        Ok(days_left_for_password_rotate < 0)
    }

    /// Whether the password must be changed as of the current date.
    pub fn is_password_rotate_required(&self, password_validity_in_days: u16) -> (r: Result<
        bool,
        UserErrors,
    >)
        requires
            self.0.wf(),
        ensures
            exists|today: CalendarDate|
                today.wf() && r == password_rotation_due(self.0, password_validity_in_days as int, today),
    {
        let today = current_date_time().date;
        self.password_rotate_required_on(password_validity_in_days, today)
    }

    pub fn get_preferred_merchant_id(&self) -> (r: Option<MerchantAccountId>)
        ensures
            match (r, self.0.preferred_merchant_id) {
                (Some(a), Some(b)) => a@ == b@,
                (None, None) => true,
                _ => false,
            },
    {
        match &self.0.preferred_merchant_id {
            Some(m) => Some(m.duplicate()),
            None => None,
        }
    }

    /// The lookup that finds the role the user acts under: the one at the
    /// preferred merchant where there is one, else the first active role.
    pub fn get_preferred_or_active_user_role_from_db(&self) -> (r: RoleLookup)
        ensures
            match (r, self.0.preferred_merchant_id) {
                (RoleLookup::ByMerchant(a), Some(b)) => a@ == b@,
                (RoleLookup::AllRoles, None) => true,
                _ => false,
            },
    {
        match self.get_preferred_merchant_id() {
            Some(m) => RoleLookup::ByMerchant(m),
            None => RoleLookup::AllRoles,
        }
    }

    /// Starts fetching the user's key store, creating one where there is none.
    pub fn get_or_create_key_store(&self, transfer_to_key_manager: bool) -> (r: (
        KeyStoreFlow,
        KeyStoreAction,
    ))
        ensures
            r.0.user() == self.0.user_id@,
            r.0.transfers() == transfer_to_key_manager,
            r.0.step() is AwaitFetch,
            r.1 matches KeyStoreAction::FetchKeyStore { user_id: u } && u@ == self.0.user_id@,
    {
        KeyStoreFlow::start(self.0.user_id.clone(), transfer_to_key_manager)
    }

    pub fn get_totp_status(&self) -> (r: TotpStatus)
        ensures
            r == self.0.totp_status,
    {
        self.0.totp_status
    }

    pub fn get_recovery_codes(&self) -> (r: Option<Vec<String>>)
        ensures
            match (r, self.0.totp_recovery_codes) {
                (Some(a), Some(b)) => a.deep_view() == b.deep_view(),
                (None, None) => true,
                _ => false,
            },
    {
        match &self.0.totp_recovery_codes {
            Some(codes) => {
                let mut copy: Vec<String> = Vec::new();
                let mut i: usize = 0;
                while i < codes.len()
                    invariant
                        i <= codes@.len(),
                        copy@.len() == i,
                        forall|j: int| 0 <= j < i ==> #[trigger] copy@[j]@ == codes@[j]@,
                    decreases codes@.len() - i,
                {
                    copy.push(codes[i].clone());
                    i += 1;
                }
                assert(copy.deep_view() =~= codes.deep_view());
                Some(copy)
            },
            None => None,
        }
    }

    /// Starts reading the user's TOTP secret.
    pub fn decrypt_and_get_totp_secret(&self) -> (r: (TotpSecretFlow, TotpSecretAction))
        ensures
            self.0.totp_secret is None ==> (r.1 == TotpSecretAction::Finish(Ok(None)) && (r.0.step() is Finished)),
            self.0.totp_secret is Some ==> (r.1 matches TotpSecretAction::FetchKeyStore { user_id: u }
                && u@ == self.0.user_id@),
            self.0.totp_secret matches Some(c) ==> (r.0.step() matches TotpSecretStep::AwaitFetch {
                ciphertext,
            } && ciphertext@ == c@),
    {
        let secret = match &self.0.totp_secret {
            Some(c) => Some(c.clone()),
            None => None,
        };
        TotpSecretFlow::start(&self.0.user_id, secret)
    }
}

} // verus!
