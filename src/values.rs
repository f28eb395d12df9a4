//! Validated identity values: each is built by a constructor that checks the raw
//! input once and keeps it, so a value of these types always satisfies its rule.
use crate::errors::UserErrors;
use crate::text::{
    after_first,    alphanumeric_char, ascii_whitespace_char, before_first, grapheme_count, grapheme_len, holds_char,
    is_alphanumeric, is_ascii_whitespace_char, is_lower, is_numeric, is_upper, is_whitespace,
    lower_char, lowercase_of, numeric_char, replace_spaces, spaces_replaced, split_once_char, to_lowercase,
    trim, trimmed, upper_char, whitespace_char,
};
use vstd::prelude::*;
use vstd::string::StrSliceExecFns;

verus! {

pub const MAX_NAME_LENGTH: usize = 70;

pub const MIN_PASSWORD_LENGTH: usize = 8;

pub const MAX_PASSWORD_LENGTH: usize = 70;

pub const MAX_COMPANY_NAME_LENGTH: usize = 70;

pub const MAX_ROLE_NAME_LENGTH: usize = 64;

/// Characters that a user's name may not hold.
pub open spec fn forbidden_name_char(c: char) -> bool {
    c == '/' || c == '(' || c == ')' || c == '"' || c == '<' || c == '>' || c == '\\' || c == '{'
        || c == '}'
}

/// A name is non-blank, at most `MAX_NAME_LENGTH` graphemes long and free of forbidden characters.
pub open spec fn valid_user_name(s: Seq<char>) -> bool {
    &&& trimmed(s).len() > 0
    &&& grapheme_count(s) <= MAX_NAME_LENGTH
    &&& forall|i: int| 0 <= i < s.len() ==> !forbidden_name_char(#[trigger] s[i])
}

/// A password holds an uppercase, a lowercase, a numeric and a non-alphanumeric
/// character, no whitespace, and has a grapheme length within the bounds.
pub open spec fn valid_password(s: Seq<char>) -> bool {
    &&& exists|i: int| 0 <= i < s.len() && upper_char(#[trigger] s[i])
    &&& exists|i: int| 0 <= i < s.len() && lower_char(#[trigger] s[i])
    &&& exists|i: int| 0 <= i < s.len() && numeric_char(#[trigger] s[i])
    &&& exists|i: int| 0 <= i < s.len() && !alphanumeric_char(#[trigger] s[i])
    &&& forall|i: int| 0 <= i < s.len() ==> !whitespace_char(#[trigger] s[i])
    &&& MIN_PASSWORD_LENGTH <= grapheme_count(s) <= MAX_PASSWORD_LENGTH
}

/// Characters allowed in a company name.
pub open spec fn company_name_char(c: char) -> bool {
    alphanumeric_char(c) || ascii_whitespace_char(c) || c == '_'
}

/// A company name, once trimmed, is non-empty, at most `MAX_COMPANY_NAME_LENGTH`
/// graphemes long and made of allowed characters.
pub open spec fn valid_company_name(s: Seq<char>) -> bool {
    let t = trimmed(s);
    &&& t.len() > 0
    &&& grapheme_count(t) <= MAX_COMPANY_NAME_LENGTH
    &&& forall|i: int| 0 <= i < t.len() ==> company_name_char(#[trigger] t[i])
}

/// The normal form of a user-supplied merchant identifier: trimmed, lowercased,
/// spaces turned into underscores.
pub open spec fn normalized_merchant_id(s: Seq<char>) -> Seq<char> {
    spaces_replaced(lowercase_of(trimmed(s)))
}

/// A normalized merchant identifier is non-empty and made of alphanumerics and underscores.
pub open spec fn valid_merchant_id(m: Seq<char>) -> bool {
    &&& m.len() > 0
    &&& forall|i: int| 0 <= i < m.len() ==> (alphanumeric_char(#[trigger] m[i]) || m[i] == '_')
}

/// A role name is non-blank, at most `MAX_ROLE_NAME_LENGTH` graphemes long and holds no space.
pub open spec fn valid_role_name(s: Seq<char>) -> bool {
    &&& trimmed(s).len() > 0
    &&& grapheme_count(s) <= MAX_ROLE_NAME_LENGTH
    &&& !holds_char(s, ' ')
}

fn is_forbidden_name_char(c: char) -> (r: bool)
    ensures
        r == forbidden_name_char(c),
{
    c == '/' || c == '(' || c == ')' || c == '"' || c == '<' || c == '>' || c == '\\' || c == '{'
        || c == '}'
}

/// A user's display name.
#[derive(Clone, Debug)]
pub struct UserName(String);

impl View for UserName {
    type V = Seq<char>;

    closed spec fn view(&self) -> Seq<char> {
        self.0@
    }
}

impl UserName {
    pub fn new(name: String) -> (r: Result<Self, UserErrors>)
        ensures
            r is Ok <==> valid_user_name(name@),
            r matches Ok(n) ==> n@ == name@,
            r matches Err(e) ==> e == UserErrors::NameParsingError,
    {
        let is_empty_or_whitespace = trim(name.as_str()).unicode_len() == 0;
        let is_too_long = grapheme_len(name.as_str()) > MAX_NAME_LENGTH;
        let n = name.as_str().unicode_len();
        let mut contains_forbidden = false;
        let mut i: usize = 0;
        while i < n
            invariant
                n == name@.len(),
                i <= n,
                contains_forbidden == exists|j: int| 0 <= j < i && forbidden_name_char(#[trigger] name@[j]),
            decreases n - i,
        {
            let c = name.as_str().get_char(i);
            if is_forbidden_name_char(c) {
                contains_forbidden = true;
            }
            i += 1;
        }
        if is_empty_or_whitespace || is_too_long || contains_forbidden {
            Err(UserErrors::NameParsingError)
        } else {
            Ok(UserName(name))
        }
    }

    pub fn peek(&self) -> (r: &str)
        ensures
            r@ == self@,
    {
        self.0.as_str()
    }

    /// The local part of an email address (before the first `@`) as a name.
    pub fn from_email(email: &String) -> (r: Result<Self, UserErrors>)
        ensures
            !holds_char(email@, '@') ==> r == Err::<Self, UserErrors>(UserErrors::InvalidEmailError),
            holds_char(email@, '@') ==> {
                let local = before_first(email@, '@');
                &&& (r is Ok <==> valid_user_name(local))
                &&& (r matches Ok(n) ==> n@ == local)
                &&& (r matches Err(e) ==> e == UserErrors::NameParsingError)
            },
    {
        match split_once_char(email.as_str(), '@') {
            None => Err(UserErrors::InvalidEmailError),
            Some((local, _)) => UserName::new(local.to_owned()),
        }
    }

    pub fn get_secret(self) -> (r: String)
        ensures
            r@ == self@,
    {
        self.0
    }
}

/// A password as the user chose it, before hashing.
#[derive(Clone, Debug)]
pub struct UserPassword(String);

impl View for UserPassword {
    type V = Seq<char>;

    closed spec fn view(&self) -> Seq<char> {
        self.0@
    }
}

impl UserPassword {
    pub fn new(password: String) -> (r: Result<Self, UserErrors>)
        ensures
            r is Ok <==> valid_password(password@),
            r matches Ok(p) ==> p@ == password@,
            r matches Err(e) ==> e == UserErrors::PasswordParsingError,
    {
        let n = password.as_str().unicode_len();
        let ghost s = password@;
        let mut has_upper_case = false;
        let mut has_lower_case = false;
        let mut has_numeric_value = false;
        let mut has_special_character = false;
        let mut has_whitespace = false;
        let mut i: usize = 0;
        while i < n
            invariant
                n == s.len(),
                s == password@,
                i <= n,
                has_upper_case == exists|j: int| 0 <= j < i && upper_char(#[trigger] s[j]),
                has_lower_case == exists|j: int| 0 <= j < i && lower_char(#[trigger] s[j]),
                has_numeric_value == exists|j: int| 0 <= j < i && numeric_char(#[trigger] s[j]),
                has_special_character == exists|j: int|
                    0 <= j < i && !alphanumeric_char(#[trigger] s[j]),
                has_whitespace == exists|j: int| 0 <= j < i && whitespace_char(#[trigger] s[j]),
            decreases n - i,
        {
            let c = password.as_str().get_char(i);
            has_upper_case = has_upper_case || is_upper(c);
            has_lower_case = has_lower_case || is_lower(c);
            has_numeric_value = has_numeric_value || is_numeric(c);
            has_special_character = has_special_character || !is_alphanumeric(c);
            has_whitespace = has_whitespace || is_whitespace(c);
            i += 1;
        }
        let is_password_format_valid = has_upper_case && has_lower_case && has_numeric_value
            && has_special_character && !has_whitespace;
        let length = grapheme_len(password.as_str());
        let is_too_long = length > MAX_PASSWORD_LENGTH;
        let is_too_short = length < MIN_PASSWORD_LENGTH;
        if is_too_short || is_too_long || !is_password_format_valid {
            return Err(UserErrors::PasswordParsingError);
        }
        Ok(UserPassword(password))
    }

    /// A password that the system generated itself (a temporary password, a
    /// recovery code): only emptiness is refused.
    pub fn new_password_without_validation(password: String) -> (r: Result<Self, UserErrors>)
        ensures
            r is Ok <==> password@.len() > 0,
            r matches Ok(p) ==> p@ == password@,
            r matches Err(e) ==> e == UserErrors::PasswordParsingError,
    {
        if password.as_str().unicode_len() == 0 {
            return Err(UserErrors::PasswordParsingError);
        }
        Ok(UserPassword(password))
    }

    pub fn get_secret(&self) -> (r: String)
        ensures
            r@ == self@,
    {
        self.0.clone()
    }
}

/// A company name, trimmed.
#[derive(Clone, Debug)]
pub struct UserCompanyName(String);

impl View for UserCompanyName {
    type V = Seq<char>;

    closed spec fn view(&self) -> Seq<char> {
        self.0@
    }
}

impl UserCompanyName {
    pub fn new(company_name: String) -> (r: Result<Self, UserErrors>)
        ensures
            r is Ok <==> valid_company_name(company_name@),
            r matches Ok(c) ==> c@ == trimmed(company_name@),
            r matches Err(e) ==> e == UserErrors::CompanyNameParsingError,
    {
        let company_name = trim(company_name.as_str());
        let n = company_name.unicode_len();
        let is_empty_or_whitespace = n == 0;
        let is_too_long = grapheme_len(company_name) > MAX_COMPANY_NAME_LENGTH;
        let mut is_all_valid_characters = true;
        let mut i: usize = 0;
        while i < n
            invariant
                n == company_name@.len(),
                i <= n,
                is_all_valid_characters == forall|j: int|
                    0 <= j < i ==> company_name_char(#[trigger] company_name@[j]),
            decreases n - i,
        {
            let x = company_name.get_char(i);
            if !(is_alphanumeric(x) || is_ascii_whitespace_char(x) || x == '_') {
                is_all_valid_characters = false;
            }
            i += 1;
        }
        if is_empty_or_whitespace || is_too_long || !is_all_valid_characters {
            Err(UserErrors::CompanyNameParsingError)
        } else {
            Ok(UserCompanyName(company_name.to_owned()))
        }
    }

    pub fn get_secret(self) -> (r: String)
        ensures
            r@ == self@,
    {
        self.0
    }

    pub fn peek(&self) -> (r: &str)
        ensures
            r@ == self@,
    {
        self.0.as_str()
    }
}

/// A merchant identifier chosen by the user, in normal form.
#[derive(Clone, Debug)]
pub struct MerchantId(String);

impl View for MerchantId {
    type V = Seq<char>;

    closed spec fn view(&self) -> Seq<char> {
        self.0@
    }
}

impl MerchantId {
    pub fn new(merchant_id: String) -> (r: Result<Self, UserErrors>)
        ensures
            r is Ok <==> valid_merchant_id(normalized_merchant_id(merchant_id@)),
            r matches Ok(m) ==> m@ == normalized_merchant_id(merchant_id@),
            r matches Err(e) ==> e == UserErrors::MerchantIdParsingError,
    {
        let lowered = to_lowercase(trim(merchant_id.as_str()));
        let merchant_id = replace_spaces(lowered.as_str());
        let n = merchant_id.as_str().unicode_len();
        let is_empty_or_whitespace = n == 0;
        let mut is_all_valid_characters = true;
        let mut i: usize = 0;
        while i < n
            invariant
                n == merchant_id@.len(),
                i <= n,
                is_all_valid_characters == forall|j: int|
                    0 <= j < i ==> (alphanumeric_char(#[trigger] merchant_id@[j])
                        || merchant_id@[j] == '_'),
            decreases n - i,
        {
            let x = merchant_id.as_str().get_char(i);
            if !(is_alphanumeric(x) || x == '_') {
                is_all_valid_characters = false;
            }
            i += 1;
        }
        if is_empty_or_whitespace || !is_all_valid_characters {
            Err(UserErrors::MerchantIdParsingError)
        } else {
            Ok(MerchantId(merchant_id))
        }
    }

    pub fn get_secret(&self) -> (r: String)
        ensures
            r@ == self@,
    {
        self.0.clone()
    }
}

/// A custom role's name, stored in lowercase.
#[derive(Clone, Debug)]
pub struct RoleName(String);

impl View for RoleName {
    type V = Seq<char>;

    closed spec fn view(&self) -> Seq<char> {
        self.0@
    }
}

impl RoleName {
    pub fn new(name: String) -> (r: Result<Self, UserErrors>)
        ensures
            r is Ok <==> valid_role_name(name@),
            r matches Ok(n) ==> n@ == lowercase_of(name@),
            r matches Err(e) ==> e == UserErrors::RoleNameParsingError,
            role_name_outcome(name@) == (match r {
                Ok(n) => Ok(n@),
                Err(e) => Err(e),
            }),
    {
        let is_empty_or_whitespace = trim(name.as_str()).unicode_len() == 0;
        let is_too_long = grapheme_len(name.as_str()) > MAX_ROLE_NAME_LENGTH;
        let n = name.as_str().unicode_len();
        let mut contains_space = false;
        let mut i: usize = 0;
        while i < n
            invariant
                n == name@.len(),
                i <= n,
                contains_space == exists|j: int| 0 <= j < i && #[trigger] name@[j] == ' ',
            decreases n - i,
        {
            if name.as_str().get_char(i) == ' ' {
                contains_space = true;
            }
            i += 1;
        }
        if is_empty_or_whitespace || is_too_long || contains_space {
            Err(UserErrors::RoleNameParsingError)
        } else {
            Ok(RoleName(to_lowercase(name.as_str())))
        }
    }

    pub fn get_role_name(self) -> (r: String)
        ensures
            r@ == self@,
    {
        self.0
    }
}

/// What `RoleName::new` makes of a raw name: its lowercase form, or the parsing error.
pub open spec fn role_name_outcome(s: Seq<char>) -> Result<Seq<char>, UserErrors> {
    if valid_role_name(s) {
        Ok(lowercase_of(s))
    } else {
        Err(UserErrors::RoleNameParsingError)
    }
}

/// A role name is insensitive to the casing it was typed in: two accepted names
/// that agree once lowercased are stored alike.
pub proof fn role_name_ignores_case(a: Seq<char>, b: Seq<char>)
    requires
        valid_role_name(a),
        valid_role_name(b),
        lowercase_of(a) == lowercase_of(b),
    ensures
        role_name_outcome(a) == role_name_outcome(b),
        role_name_outcome(a) == Ok::<Seq<char>, UserErrors>(lowercase_of(a)),
{
}

/// A role name holding a space is refused.
pub proof fn role_name_with_space_is_refused(a: Seq<char>)
    requires
        holds_char(a, ' '),
    ensures
        role_name_outcome(a) == Err::<Seq<char>, UserErrors>(UserErrors::RoleNameParsingError),
{
}

/// Whether a string is an email address in the HTML5 sense, as the `validator`
/// crate decides.
pub uninterp spec fn email_syntax_ok(s: Seq<char>) -> bool;

/// Relies on `validator::ValidateEmail::validate_email` for `String`; it returns
/// false for a string without `@`.
#[verifier::external_body]
fn validate_email(s: &String) -> (r: bool)
    ensures
        r == email_syntax_ok(s@),
        r ==> holds_char(s@, '@'),
{
    validator::ValidateEmail::validate_email(s)
}

/// The local part of an email address: what precedes the first `@`.
pub open spec fn before_first_at(s: Seq<char>) -> Seq<char> {
    before_first(s, '@')
}

/// The domain part of an email address: what follows the first `@`.
pub open spec fn email_domain(s: Seq<char>) -> Seq<char> {
    after_first(s, '@')
}

/// The checks an email address passes: well formed, then not from a blocked domain.
pub open spec fn email_check(email: Seq<char>, blocked: Set<Seq<char>>) -> Result<(), UserErrors> {
    if !email_syntax_ok(email) {
        Err(UserErrors::EmailParsingError)
    } else if blocked.contains(email_domain(email)) {
        Err(UserErrors::InvalidEmailError)
    } else {
        Ok(())
    }
}

/// The check of a user's name.
pub open spec fn name_check(name: Seq<char>) -> Result<(), UserErrors> {
    if valid_user_name(name) {
        Ok(())
    } else {
        Err(UserErrors::NameParsingError)
    }
}

/// The check of a name taken from the local part of an email address.
pub open spec fn name_from_email_check(email: Seq<char>) -> Result<(), UserErrors> {
    if !holds_char(email, '@') {
        Err(UserErrors::InvalidEmailError)
    } else {
        name_check(before_first(email, '@'))
    }
}

/// The check of a password chosen by a user.
pub open spec fn password_check(password: Seq<char>) -> Result<(), UserErrors> {
    if valid_password(password) {
        Ok(())
    } else {
        Err(UserErrors::PasswordParsingError)
    }
}

/// The set of email domains that may not sign up; built once and only read after.
pub struct BlockedDomains {
    domains: Vec<String>,
}

impl View for BlockedDomains {
    type V = Set<Seq<char>>;

    closed spec fn view(&self) -> Set<Seq<char>> {
        Set::new(|d: Seq<char>| exists|i: int| 0 <= i < self.domains@.len() && self.domains@[i]@ == d)
    }
}

impl BlockedDomains {
    /// The blocked set made of the given entries, each trimmed.
    pub fn from_entries(entries: &Vec<String>) -> (r: Self)
        ensures
            forall|d: Seq<char>|
                r@.contains(d) <==> exists|i: int|
                    0 <= i < entries@.len() && trimmed(#[trigger] entries@[i]@) == d,
    {
        let mut domains: Vec<String> = Vec::new();
        let mut i: usize = 0;
        while i < entries.len()
            invariant
                i <= entries@.len(),
                domains@.len() == i,
                forall|j: int| 0 <= j < i ==> #[trigger] domains@[j]@ == trimmed(entries@[j]@),
            decreases entries@.len() - i,
        {
            let t = trim(entries[i].as_str());
            domains.push(t.to_owned());
            i += 1;
        }
        let r = BlockedDomains { domains };
        assert forall|d: Seq<char>|
            r@.contains(d) <==> exists|i: int|
                0 <= i < entries@.len() && trimmed(#[trigger] entries@[i]@) == d by {
            if r@.contains(d) {
                let k = choose|k: int| 0 <= k < r.domains@.len() && r.domains@[k]@ == d;
                assert(trimmed(entries@[k]@) == d);
            }
            if exists|i: int| 0 <= i < entries@.len() && trimmed(#[trigger] entries@[i]@) == d {
                let k = choose|k: int| 0 <= k < entries@.len() && trimmed(#[trigger] entries@[k]@) == d;
                assert(r.domains@[k]@ == d);
            }
        }
        r
    }

    pub fn contains(&self, domain: &str) -> (r: bool)
        ensures
            r == self@.contains(domain@),
    {
        let wanted = domain.to_owned();
        let mut i: usize = 0;
        while i < self.domains.len()
            invariant
                i <= self.domains@.len(),
                wanted@ == domain@,
                forall|j: int| 0 <= j < i ==> self.domains@[j]@ != domain@,
            decreases self.domains@.len() - i,
        {
            if self.domains[i] == wanted {
                assert(self.domains@[i as int]@ == domain@);
                assert(self@.contains(domain@));
                return true;
            }
            i += 1;
        }
        false
    }
}

/// An email address that is well formed and whose domain is not blocked.
#[derive(Clone, Debug)]
pub struct UserEmail(String);

impl View for UserEmail {
    type V = Seq<char>;

    closed spec fn view(&self) -> Seq<char> {
        self.0@
    }
}

impl UserEmail {
    pub fn new(email: String, blocked: &BlockedDomains) -> (r: Result<Self, UserErrors>)
        ensures
            !email_syntax_ok(email@) ==> r == Err::<Self, UserErrors>(UserErrors::EmailParsingError),
            email_syntax_ok(email@) && blocked@.contains(email_domain(email@)) ==> r == Err::<
                Self,
                UserErrors,
            >(UserErrors::InvalidEmailError),
            email_syntax_ok(email@) && !blocked@.contains(email_domain(email@)) ==> (r matches Ok(
                u,
            ) && u@ == email@),
            r is Ok ==> holds_char(email@, '@'),
    {
        if !validate_email(&email) {
            return Err(UserErrors::EmailParsingError);
        }
        match split_once_char(email.as_str(), '@') {
            None => Err(UserErrors::EmailParsingError),
            Some((_username, domain)) => {
                if blocked.contains(domain) {
                    Err(UserErrors::InvalidEmailError)
                } else {
                    Ok(UserEmail(email))
                }
            },
        }
    }

    /// The same checks, for an address that an earlier layer already parsed.
    pub fn from_pii_email(email: String, blocked: &BlockedDomains) -> (r: Result<Self, UserErrors>)
        ensures
            !email_syntax_ok(email@) ==> r == Err::<Self, UserErrors>(UserErrors::EmailParsingError),
            email_syntax_ok(email@) && blocked@.contains(email_domain(email@)) ==> r == Err::<
                Self,
                UserErrors,
            >(UserErrors::InvalidEmailError),
            email_syntax_ok(email@) && !blocked@.contains(email_domain(email@)) ==> (r matches Ok(
                u,
            ) && u@ == email@),
            r is Ok ==> holds_char(email@, '@'),
    {
        Self::new(email, blocked)
    }

    pub fn peek(&self) -> (r: &str)
        ensures
            r@ == self@,
    {
        self.0.as_str()
    }

    pub fn into_inner(self) -> (r: String)
        ensures
            r@ == self@,
    {
        self.0
    }

    pub fn get_secret(self) -> (r: String)
        ensures
            r@ == self@,
    {
        self.0
    }
}

} // verus!
