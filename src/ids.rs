//! Platform identifiers of organizations, merchant accounts and profiles.
use crate::errors::UserErrors;
use crate::text::ascii_alphanumeric_char;
use crate::text::is_ascii_alphanumeric_char;
use crate::values::MerchantId;
use rand::distributions::DistString;
use vstd::prelude::*;
use vstd::string::{StrSliceExecFns, StringExecFns};

verus! {

/// The longest merchant account identifier the platform accepts.
pub const MAX_MERCHANT_ACCOUNT_ID_LENGTH: usize = 64;

/// Length of the random part of a generated organization identifier.
pub const ORGANIZATION_ID_RANDOM_LENGTH: usize = 20;

/// The merchant account that internal users are attached to.
pub const INTERNAL_USER_MERCHANT_ID: &'static str = "juspay000";

/// The decimal digit for `d < 10`.
pub open spec fn digit_char(d: nat) -> char {
    if d == 0 {
        '0'
    } else if d == 1 {
        '1'
    } else if d == 2 {
        '2'
    } else if d == 3 {
        '3'
    } else if d == 4 {
        '4'
    } else if d == 5 {
        '5'
    } else if d == 6 {
        '6'
    } else if d == 7 {
        '7'
    } else if d == 8 {
        '8'
    } else {
        '9'
    }
}

/// The decimal digits of a natural number, most significant first.
pub open spec fn digits_of(n: nat) -> Seq<char>
    decreases n,
{
    if n < 10 {
        seq![digit_char(n)]
    } else {
        digits_of(n / 10) + seq![digit_char(n % 10)]
    }
}

/// The decimal form of an integer, with a leading `-` when negative.
pub open spec fn decimal_of(n: int) -> Seq<char> {
    if n < 0 {
        seq!['-'] + digits_of((-n) as nat)
    } else {
        digits_of(n as nat)
    }
}

/// A character that a merchant account identifier may hold.
pub open spec fn merchant_account_id_char(c: char) -> bool {
    ascii_alphanumeric_char(c) || c == '_' || c == '-'
}

/// A merchant account identifier is 1 to 64 characters of ASCII letters, digits, `_` and `-`.
pub open spec fn valid_merchant_account_id(s: Seq<char>) -> bool {
    &&& 0 < s.len() <= MAX_MERCHANT_ACCOUNT_ID_LENGTH
    &&& forall|i: int| 0 <= i < s.len() ==> merchant_account_id_char(#[trigger] s[i])
}

/// The decimal digit for `d < 10`, as a string.
fn digit_str(d: u64) -> (r: &'static str)
    requires
        d < 10,
    ensures
        r@ == seq![digit_char(d as nat)],
{
    proof {
        reveal_strlit("0");
        reveal_strlit("1");
        reveal_strlit("2");
        reveal_strlit("3");
        reveal_strlit("4");
        reveal_strlit("5");
        reveal_strlit("6");
        reveal_strlit("7");
        reveal_strlit("8");
        reveal_strlit("9");
    }
    if d == 0 {
        "0"
    } else if d == 1 {
        "1"
    } else if d == 2 {
        "2"
    } else if d == 3 {
        "3"
    } else if d == 4 {
        "4"
    } else if d == 5 {
        "5"
    } else if d == 6 {
        "6"
    } else if d == 7 {
        "7"
    } else if d == 8 {
        "8"
    } else {
        "9"
    }
}

/// The decimal digits of `m`.
fn u64_to_decimal(m: u64) -> (r: String)
    ensures
        r@ == digits_of(m as nat),
{
    let mut acc = String::from_str(digit_str(m % 10));
    let mut n: u64 = m / 10;
    proof {
        if m >= 10 {
            assert(digits_of(m as nat) == digits_of((m / 10) as nat) + seq![digit_char((m % 10) as nat)]);
        }
    }
    while n > 0
        invariant
            digits_of(m as nat) == (if n == 0 {
                Seq::<char>::empty()
            } else {
                digits_of(n as nat)
            }) + acc@,
        decreases n,
    {
        let ghost old_acc = acc@;
        let ghost old_n = n;
        acc = String::from_str(digit_str(n % 10)).concat(acc.as_str());
        n = n / 10;
        proof {
            if old_n >= 10 {
                assert(digits_of(old_n as nat) == digits_of((old_n / 10) as nat) + seq![
                    digit_char((old_n % 10) as nat),
                ]);
                assert(digits_of(m as nat) =~= digits_of(n as nat) + acc@);
            } else {
                assert(digits_of(m as nat) =~= acc@);
            }
        }
    }
    assert(digits_of(m as nat) =~= acc@);
    acc
}

/// The decimal form of `t`, with a leading `-` when negative.
fn i64_to_decimal(t: i64) -> (r: String)
    ensures
        r@ == decimal_of(t as int),
{
    if t < 0 {
        let magnitude: u64 = (-(t + 1)) as u64 + 1;
        let digits = u64_to_decimal(magnitude);
        proof {
            reveal_strlit("-");
        }
        String::from_str("-").concat(digits.as_str())
    } else {
        u64_to_decimal(t as u64)
    }
}

/// Relies on `rand::distributions::Alphanumeric` sampled through `DistString::sample_string`
/// with the thread-local generator: `len` characters drawn from `A-Z`, `a-z`, `0-9`.
#[verifier::external_body]
pub(crate) fn random_alphanumeric(len: usize) -> (r: String)
    ensures
        r@.len() == len,
        forall|i: int| 0 <= i < r@.len() ==> ascii_alphanumeric_char(#[trigger] r@[i]),
{
    rand::distributions::Alphanumeric.sample_string(&mut rand::thread_rng(), len)
}

/// A generated organization identifier: `org_` and random letters and digits.
pub open spec fn is_generated_org_id(id: Seq<char>) -> bool {
    &&& id.len() == 4 + ORGANIZATION_ID_RANDOM_LENGTH
    &&& id.subrange(0, 4) == seq!['o', 'r', 'g', '_']
    &&& forall|i: int| 4 <= i < id.len() ==> ascii_alphanumeric_char(#[trigger] id[i])
}

/// The identifier of an organization.
#[derive(Clone, Debug, PartialEq, Eq)]
pub struct OrganizationId(String);

impl View for OrganizationId {
    type V = Seq<char>;

    closed spec fn view(&self) -> Seq<char> {
        self.0@
    }
}

impl OrganizationId {
    /// A copy of the identifier.
    pub fn duplicate(&self) -> (r: Self)
        ensures
            r@ == self@,
    {
        OrganizationId(self.0.clone())
    }

    /// An organization identifier as the platform already knows it.
    pub fn new(id: String) -> (r: Self)
        ensures
            r@ == id@,
    {
        OrganizationId(id)
    }

    /// A fresh identifier: `org_` followed by random letters and digits.
    pub fn generate() -> (r: Self)
        ensures
            is_generated_org_id(r@),
    {
        let suffix = random_alphanumeric(ORGANIZATION_ID_RANDOM_LENGTH);
        let r = String::from_str("org_").concat(suffix.as_str());
        proof {
            reveal_strlit("org_");
            assert(r@.subrange(0, 4) =~= seq!['o', 'r', 'g', '_']);
            assert forall|i: int| 4 <= i < r@.len() implies ascii_alphanumeric_char(#[trigger] r@[i]) by {
                assert(r@[i] == suffix@[i - 4]);
            }
        }
        OrganizationId(r)
    }

    pub fn get_string_repr(&self) -> (r: String)
        ensures
            r@ == self@,
    {
        self.0.clone()
    }
}

/// The identifier of a merchant account on the platform.
#[derive(Clone, Debug, PartialEq, Eq)]
pub struct MerchantAccountId(String);

impl View for MerchantAccountId {
    type V = Seq<char>;

    closed spec fn view(&self) -> Seq<char> {
        self.0@
    }
}

impl MerchantAccountId {
    /// A copy of the identifier.
    pub fn duplicate(&self) -> (r: Self)
        ensures
            r@ == self@,
    {
        MerchantAccountId(self.0.clone())
    }

    /// The platform identifier for a user-chosen merchant identifier; refused
    /// where it is too long or holds a character the platform does not take.
    pub fn try_from_merchant_id(value: MerchantId) -> (r: Result<Self, UserErrors>)
        ensures
            r is Ok <==> valid_merchant_account_id(value@),
            r matches Ok(m) ==> m@ == value@,
            r matches Err(e) ==> e == UserErrors::MerchantIdParsingError,
    {
        let s = value.get_secret();
        let n = s.as_str().unicode_len();
        if n == 0 || n > MAX_MERCHANT_ACCOUNT_ID_LENGTH {
            return Err(UserErrors::MerchantIdParsingError);
        }
        let mut i: usize = 0;
        while i < n
            invariant
                n == s@.len(),
                s@ == value@,
                i <= n,
                forall|j: int| 0 <= j < i ==> merchant_account_id_char(#[trigger] s@[j]),
            decreases n - i,
        {
            let c = s.as_str().get_char(i);
            if !(is_ascii_alphanumeric_char(c) || c == '_' || c == '-') {
                assert(!merchant_account_id_char(s@[i as int]));
                return Err(UserErrors::MerchantIdParsingError);
            }
            i += 1;
        }
        Ok(MerchantAccountId(s))
    }

    /// The identifier `merchant_<seconds>` for a Unix timestamp.
    pub fn new_from_unix_timestamp(timestamp: i64) -> (r: Self)
        ensures
            r@ == seq!['m', 'e', 'r', 'c', 'h', 'a', 'n', 't', '_'] + decimal_of(timestamp as int),
    {
        let digits = i64_to_decimal(timestamp);
        let r = String::from_str("merchant_").concat(digits.as_str());
        proof {
            reveal_strlit("merchant_");
            assert(r@ =~= seq!['m', 'e', 'r', 'c', 'h', 'a', 'n', 't', '_'] + decimal_of(
                timestamp as int,
            ));
        }
        MerchantAccountId(r)
    }

    /// The merchant account that internal users belong to.
    pub fn get_internal_user_merchant_id() -> (r: Self)
        ensures
            r@ == INTERNAL_USER_MERCHANT_ID@,
    {
        MerchantAccountId(String::from_str(INTERNAL_USER_MERCHANT_ID))
    }

    /// A merchant account identifier as the platform already knows it.
    pub fn new(id: String) -> (r: Self)
        ensures
            r@ == id@,
    {
        MerchantAccountId(id)
    }

    pub fn get_string_repr(&self) -> (r: String)
        ensures
            r@ == self@,
    {
        self.0.clone()
    }
}

/// The identifier of a business profile under a merchant account.
#[derive(Clone, Debug, PartialEq, Eq)]
pub struct ProfileId(String);

impl View for ProfileId {
    type V = Seq<char>;

    closed spec fn view(&self) -> Seq<char> {
        self.0@
    }
}

impl ProfileId {
    /// A copy of the identifier.
    pub fn duplicate(&self) -> (r: Self)
        ensures
            r@ == self@,
    {
        ProfileId(self.0.clone())
    }

    pub fn new(id: String) -> (r: Self)
        ensures
            r@ == id@,
    {
        ProfileId(id)
    }

    pub fn get_string_repr(&self) -> (r: String)
        ensures
            r@ == self@,
    {
        self.0.clone()
    }
}

} // verus!
