//! Users and roles.
use vstd::prelude::*;

use crate::crypto::hex_digit;
use crate::error::{ApiError, STATUS_UNPROCESSABLE};
use crate::i18n::{code_of, is_known_locale, Lang};
use crate::text::{chars_of, decimal, decimal_string, str_eq, string_of, trim, trimmed};

verus! {

/// `uuid::Uuid`, the identifier of users, sessions and estimates; the
/// library only carries it.
#[verifier::external_type_specification]
#[verifier::external_body]
pub struct ExUuid(uuid::Uuid);

/// A character of the hyphenated text of an identifier at `i`: a hyphen at
/// 8, 13, 18 and 23, a small hexadecimal digit elsewhere.
pub open spec fn uuid_char_ok(c: char, i: int) -> bool {
    if i == 8 || i == 13 || i == 18 || i == 23 {
        c == '-'
    } else {
        ('0' <= c && c <= '9') || ('a' <= c && c <= 'f')
    }
}

/// The shape of the hyphenated text of an identifier: 36 characters, groups
/// of 8-4-4-4-12 small hexadecimal digits.
pub open spec fn uuid_text_shape(s: Seq<char>) -> bool {
    s.len() == 36 && forall|i: int| 0 <= i < 36 ==> uuid_char_ok(#[trigger] s[i], i)
}

/// A small hexadecimal digit: `0`-`9` or `a`-`f`.
pub open spec fn is_small_hex(c: char) -> bool {
    ('0' <= c && c <= '9') || ('a' <= c && c <= 'f')
}

/// The last `n` hexadecimal digits of `v`, small letters, the most
/// significant first.
pub open spec fn hex_digits(v: nat, n: nat) -> Seq<char>
    decreases n,
{
    if n == 0 {
        Seq::<char>::empty()
    } else {
        hex_digits(v / 16, (n - 1) as nat).push(hex_digit((v % 16) as int))
    }
}

/// The hyphenated text of the identifier whose 128 bits, read big-endian,
/// are `v`: its 32 hexadecimal digits in groups of 8-4-4-4-12.
pub open spec fn hyphenated_hex(v: u128) -> Seq<char> {
    let s = hex_digits(v as nat, 32);
    s.subrange(0, 8) + seq!['-'] + s.subrange(8, 12) + seq!['-'] + s.subrange(12, 16) + seq!['-']
        + s.subrange(16, 20) + seq!['-'] + s.subrange(20, 32)
}

/// `Uuid::from_u128(v)` (the bytes of `v` big-endian) through `Display`,
/// which is `LowerHex` of the hyphenated form: `format_hyphenated` writes
/// the 32 digits with small letters, a hyphen after the 8th, 12th, 16th
/// and 20th.
#[verifier::external_body]
pub(crate) fn uuid_hyphenated(v: u128) -> (r: String)
    ensures
        r@ == hyphenated_hex(v),
{
    uuid::Uuid::from_u128(v).to_string()
}

proof fn hex_digit_is_small_hex(k: int)
    requires
        0 <= k < 16,
    ensures
        is_small_hex(hex_digit(k)),
{
}

proof fn hex_digits_are_small_hex(v: nat, n: nat)
    ensures
        hex_digits(v, n).len() == n,
        forall|i: int| 0 <= i < n ==> is_small_hex(#[trigger] hex_digits(v, n)[i]),
    decreases n,
{
    if n > 0 {
        hex_digits_are_small_hex(v / 16, (n - 1) as nat);
        hex_digit_is_small_hex((v % 16) as int);
    }
}

/// The hyphenated text of every identifier has the shape of one.
pub proof fn hyphenated_hex_has_uuid_shape(v: u128)
    ensures
        uuid_text_shape(hyphenated_hex(v)),
{
    let s = hex_digits(v as nat, 32);
    hex_digits_are_small_hex(v as nat, 32);
    let h = hyphenated_hex(v);
    assert(h.len() == 36);
    assert forall|i: int| 0 <= i < 36 implies uuid_char_ok(#[trigger] h[i], i) by {
        if i < 8 {
            assert(h[i] == s[i]);
        } else if i == 8 || i == 13 || i == 18 || i == 23 {
        } else if i < 13 {
            assert(h[i] == s[i - 1]);
        } else if i < 18 {
            assert(h[i] == s[i - 2]);
        } else if i < 23 {
            assert(h[i] == s[i - 3]);
        } else {
            assert(h[i] == s[i - 4]);
        }
    }
}

#[derive(PartialEq, Eq, Structural, Debug)]
pub enum Role {
    User,
    Admin,
}

impl Clone for Role {
    fn clone(&self) -> (r: Self)
        ensures
            r == *self,
    {
        *self
    }
}

impl Copy for Role {
}

/// The name a role is stored under.
pub open spec fn role_name(role: Role) -> Seq<char> {
    match role {
        Role::User => "user"@,
        Role::Admin => "admin"@,
    }
}

/// The role a stored name stands for: "admin" is the administrator, anything
/// else an ordinary user (the database only holds these two).
pub open spec fn role_of(name: Seq<char>) -> Role {
    if name == "admin"@ {
        Role::Admin
    } else {
        Role::User
    }
}

impl Role {
    pub fn as_str(self) -> (r: &'static str)
        ensures
            r@ == role_name(self),
    {
        match self {
            Role::User => "user",
            Role::Admin => "admin",
        }
    }

    pub fn parse(s: &str) -> (r: Role)
        ensures
            r == role_of(s@),
    {
        if str_eq(s, "admin") {
            Role::Admin
        } else {
            Role::User
        }
    }
}

/// A user as the API shows them.
#[derive(Debug)]
pub struct User {
    pub id: uuid::Uuid,
    pub email: String,
    pub role: Role,
    /// whether the second factor is on
    pub totp_enabled: bool,
    /// whether the address was confirmed by the link in the letter
    pub email_verified: bool,
    /// how to address the user; unset, the address is shown
    pub display_name: Option<String>,
    /// language of the interface and the letters
    pub locale: Option<String>,
}

/// A user as stored.
#[derive(Debug)]
pub struct UserRecord {
    pub id: uuid::Uuid,
    pub email: String,
    pub password_hash: Option<String>,
    pub role: String,
    pub totp_secret: Option<String>,
    pub email_verified: bool,
    pub display_name: Option<String>,
    pub locale: Option<String>,
}

fn clone_opt(o: &Option<String>) -> (r: Option<String>)
    ensures
        r == *o,
{
    match o {
        Some(s) => Some(s.clone()),
        None => None,
    }
}

impl UserRecord {
    /// The user as the API shows them.
    pub fn to_user(&self) -> (r: User)
        ensures
            r.id == self.id,
            r.email@ == self.email@,
            r.role == role_of(self.role@),
            r.totp_enabled == self.totp_secret is Some,
            r.email_verified == self.email_verified,
            r.display_name == self.display_name,
            r.locale == self.locale,
    {
        User {
            id: self.id,
            email: self.email.clone(),
            role: Role::parse(self.role.as_str()),
            totp_enabled: self.totp_secret.is_some(),
            email_verified: self.email_verified,
            display_name: clone_opt(&self.display_name),
            locale: clone_opt(&self.locale),
        }
    }
}

/// A longer name is no name but a way to break the layout.
pub const MAX_DISPLAY_NAME_LEN: usize = 100;

/// A change of profile: what is left out is not changed.
pub struct UpdateMe {
    pub display_name: Option<String>,
    pub locale: Option<String>,
}

/// The locale is the code of a supported language.
pub open spec fn known_locale(code: Seq<char>) -> bool {
    code == code_of(Lang::Ru) || code == code_of(Lang::En)
}

/// A change of profile checked: the name trimmed and at most
/// `MAX_DISPLAY_NAME_LEN` characters, the locale a supported one. Gives the
/// name to store.
pub fn check_profile(req: &UpdateMe) -> (r: Result<Option<String>, ApiError>)
    ensures
        req.display_name matches Some(n) && trim(n@).len() > MAX_DISPLAY_NAME_LEN ==> (r matches Err(
            e,
        ) && e.status == STATUS_UNPROCESSABLE && e.key@ == "error-name-long"@ && e.field == Some(
            "display_name",
        ) && e.args@.len() == 1 && e.args@[0].0@ == "max"@ && e.args@[0].1@ == decimal(
            MAX_DISPLAY_NAME_LEN as nat,
        )),
        (req.display_name matches Some(n) ==> trim(n@).len() <= MAX_DISPLAY_NAME_LEN) && (
        req.locale matches Some(l) && !known_locale(l@)) ==> (r matches Err(e) && e.key@
            == "error-unknown-locale"@ && e.field == Some("locale")),
        r is Ok <==> (req.display_name matches Some(n) ==> trim(n@).len() <= MAX_DISPLAY_NAME_LEN)
            && (req.locale matches Some(l) ==> known_locale(l@)),
        r matches Ok(name) ==> match req.display_name {
            Some(n) => name matches Some(t) && t@ == trim(n@),
            None => name is None,
        },
{
    let name: Option<String> = match &req.display_name {
        Some(n) => {
            let c = chars_of(n.as_str());
            let t = trimmed(c.as_slice());
            if t.len() > MAX_DISPLAY_NAME_LEN {
                return Err(
                    ApiError::validation("error-name-long").arg(
                        "max",
                        decimal_string(MAX_DISPLAY_NAME_LEN as u64),
                    ).field("display_name"),
                );
            }
            Some(string_of(t.as_slice()))
        },
        None => None,
    };
    match &req.locale {
        Some(l) => {
            if !is_known_locale(l.as_str()) {
                return Err(ApiError::validation("error-unknown-locale").field("locale"));
            }
        },
        None => {},
    }
    Ok(name)
}

} // verus!
