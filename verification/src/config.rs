//! The configuration of the process: what is read from the environment, and
//! the checks a value must pass before the service starts. Reading the
//! environment is the app's; here are the rules.
use vstd::prelude::*;

use crate::text::{
    ascii_lower_seq, ascii_lowercase, ascii_upper_seq, ascii_uppercase, chars_of, concat, ends_with, ends_with_chars, slice_chars,
    split_chars, split_on, starts_with, starts_with_chars, str_eq, string_of, trim, trimmed,
};

verus! {

/// A string that must not end up in a log by accident: only `expose` gives
/// it out.
pub struct Secret {
    value: String,
}

impl View for Secret {
    type V = Seq<char>;

    closed spec fn view(&self) -> Seq<char> {
        self.value@
    }
}

impl Secret {
    pub fn new(value: String) -> (r: Secret)
        ensures
            r@ == value@,
    {
        Secret { value }
    }

    pub fn expose(&self) -> (r: &str)
        ensures
            r@ == self@,
    {
        self.value.as_str()
    }

    pub fn as_bytes(&self) -> (r: &[u8])
        ensures
            r@ == vstd::utf8::encode_utf8(self@),
    {
        self.value.as_str().as_bytes()
    }
}

/// Why the configuration was refused.
#[derive(Debug)]
pub enum ConfigError {
    /// JWT_SECRET is shorter than `MIN_JWT_SECRET_LEN` characters
    JwtSecretShort,
    /// a required variable is not set
    Missing(String),
    /// a variable does not parse
    Unparsable { name: String, raw: String },
    /// SMTP_FROM, with this text, is not a mailbox mail can be sent from
    BadSender(String),
}

/// The least length of the signing secret: shorter is not a secret but a
/// typo.
pub const MIN_JWT_SECRET_LEN: usize = 16;

/// Refuse a signing secret shorter than `MIN_JWT_SECRET_LEN` characters.
pub fn check_jwt_secret(secret: &str) -> (r: Result<(), ConfigError>)
    ensures
        r is Ok <==> secret@.len() >= MIN_JWT_SECRET_LEN,
        r matches Err(e) ==> e is JwtSecretShort,
{
    let chars = chars_of(secret);
    if chars.len() < MIN_JWT_SECRET_LEN {
        return Err(ConfigError::JwtSecretShort);
    }
    Ok(())
}

/// A variable counts as set when it holds more than white space.
pub open spec fn set_value(raw: Option<Seq<char>>) -> Option<Seq<char>> {
    match raw {
        Some(v) => if trim(v).len() > 0 {
            Some(v)
        } else {
            None
        },
        None => None,
    }
}

pub open spec fn opt_chars(o: Option<String>) -> Option<Seq<char>> {
    match o {
        Some(s) => Some(s@),
        None => None,
    }
}

/// The value of a variable, if it holds more than white space.
pub fn var(raw: Option<String>) -> (r: Option<String>)
    ensures
        opt_chars(r) == set_value(opt_chars(raw)),
{
    match raw {
        Some(v) => {
            let c = chars_of(v.as_str());
            let t = trimmed(c.as_slice());
            if t.len() > 0 {
                Some(v)
            } else {
                None
            }
        },
        None => None,
    }
}

/// The value of a required variable, or the error that names it.
pub fn required(name: &str, value: Option<String>) -> (r: Result<String, ConfigError>)
    ensures
        value matches Some(v) ==> r == Ok::<String, ConfigError>(v),
        value is None ==> (r matches Err(ConfigError::Missing(n)) && n@ == name@),
{
    match value {
        Some(v) => Ok(v),
        None => Err(ConfigError::Missing(name.to_owned())),
    }
}

/// A flag is on when set to "true" or "1".
pub fn flag(value: Option<String>) -> (r: bool)
    ensures
        r == (value matches Some(v) && (v@ == "true"@ || v@ == "1"@)),
{
    match value {
        Some(v) => str_eq(v.as_str(), "true") || str_eq(v.as_str(), "1"),
        None => false,
    }
}

/// The value of a variable that must parse: the default when it is not set,
/// the parsed value when it parses (`value` is what parsing gave), and the
/// error that names the variable and its text otherwise.
pub fn parsed<T>(name: &str, raw: Option<String>, value: Option<T>, default: T) -> (r: Result<T, ConfigError>)
    ensures
        raw is None ==> r == Ok::<T, ConfigError>(default),
        raw is Some ==> (value matches Some(v) ==> r == Ok::<T, ConfigError>(v)),
        raw is Some && value is None ==> (r matches Err(ConfigError::Unparsable { name: n, raw: t }) && n@
            == name@ && Some(t) == raw),
{
    match raw {
        None => Ok(default),
        Some(text) => match value {
            Some(v) => Ok(v),
            None => Err(ConfigError::Unparsable { name: name.to_owned(), raw: text }),
        },
    }
}

/// `s` parses as a mailbox: a bare address, or a name and an address in
/// angle brackets.
pub uninterp spec fn mailbox_parses(s: Seq<char>) -> bool;

/// `lettre::message::Mailbox`'s `FromStr`: whether `s` parses.
#[verifier::external_body]
pub(crate) fn mailbox_valid(s: &str) -> (r: bool)
    ensures
        r == mailbox_parses(s@),
{
    s.parse::<lettre::message::Mailbox>().is_ok()
}

/// The sender of the mail when SMTP_FROM is not set.
pub open spec fn default_sender() -> Seq<char> {
    "no-reply@localhost"@
}

/// The sender of the mail: SMTP_FROM (`value`), or `no-reply@localhost`
/// when it is not set; refused unless it parses as a mailbox, for a bad
/// sender would fail every delivery later.
pub fn smtp_from(value: Option<String>) -> (r: Result<String, ConfigError>)
    ensures
        ({
            let chosen = match value {
                Some(v) => v@,
                None => default_sender(),
            };
            &&& r is Ok <==> mailbox_parses(chosen)
            &&& r matches Ok(s) ==> s@ == chosen
            &&& r matches Err(e) ==> (e matches ConfigError::BadSender(t) && t@ == chosen)
        }),
{
    let sender = match value {
        Some(v) => v,
        None => "no-reply@localhost".to_owned(),
    };
    if mailbox_valid(sender.as_str()) {
        Ok(sender)
    } else {
        Err(ConfigError::BadSender(sender))
    }
}

/// The non-empty trimmed pieces of `pieces`, in order.
pub open spec fn nonempty_trimmed(pieces: Seq<Seq<char>>) -> Seq<Seq<char>>
    decreases pieces.len(),
{
    if pieces.len() == 0 {
        Seq::<Seq<char>>::empty()
    } else if trim(pieces.last()).len() > 0 {
        nonempty_trimmed(pieces.drop_last()).push(trim(pieces.last()))
    } else {
        nonempty_trimmed(pieces.drop_last())
    }
}

/// The origins of a comma separated list: each trimmed, empty ones left out.
pub open spec fn origins_in(raw: Seq<char>) -> Seq<Seq<char>> {
    nonempty_trimmed(split_on(raw, ','))
}

/// The browser origins allowed by CORS_ORIGINS.
pub fn cors_origins(raw: Option<String>) -> (r: Vec<String>)
    ensures
        raw is None ==> r@.len() == 0,
        raw matches Some(text) ==> r@.len() == origins_in(text@).len() && forall|k: int|
            0 <= k < r@.len() ==> #[trigger] r@[k]@ == origins_in(text@)[k],
{
    let mut out: Vec<String> = Vec::new();
    match raw {
        None => out,
        Some(text) => {
            let c = chars_of(text.as_str());
            let pieces = split_chars(c.as_slice(), ',');
            let ghost ps = split_on(text@, ',');
            let mut i: usize = 0;
            while i < pieces.len()
                invariant
                    i <= pieces@.len(),
                    ps == split_on(text@, ','),
                    pieces@.len() == ps.len(),
                    forall|k: int| 0 <= k < pieces@.len() ==> #[trigger] pieces@[k]@ == ps[k],
                    out@.len() == nonempty_trimmed(ps.take(i as int)).len(),
                    forall|k: int|
                        0 <= k < out@.len() ==> #[trigger] out@[k]@ == nonempty_trimmed(
                            ps.take(i as int),
                        )[k],
                decreases pieces@.len() - i,
            {
                let t = trimmed(pieces[i].as_slice());
                assert(ps.take(i + 1).drop_last() =~= ps.take(i as int));
                if t.len() > 0 {
                    out.push(string_of(t.as_slice()));
                }
                i += 1;
            }
            assert(ps.take(ps.len() as int) =~= ps);
            out
        },
    }
}

/// The name of an OAuth provider announced by a variable
/// `OAUTH_<NAME>_CLIENT_ID`: `<NAME>` in small ASCII letters.
pub open spec fn provider_name_in(key: Seq<char>) -> Option<Seq<char>> {
    if starts_with(key, "OAUTH_"@) && ends_with(key.skip(6), "_CLIENT_ID"@) {
        let rest = key.skip(6);
        Some(ascii_lower_seq(rest.take(rest.len() - 10)))
    } else {
        None
    }
}

/// The name of the OAuth provider a variable announces, if it does.
pub fn provider_name_of(key: &str) -> (r: Option<String>)
    ensures
        opt_chars(r) == provider_name_in(key@),
{
    let k = chars_of(key);
    let prefix = chars_of("OAUTH_");
    let suffix = chars_of("_CLIENT_ID");
    proof {
        reveal_strlit("OAUTH_");
        reveal_strlit("_CLIENT_ID");
    }
    if !starts_with_chars(k.as_slice(), prefix.as_slice()) {
        return None;
    }
    let rest = slice_chars(k.as_slice(), 6, k.len());
    assert(rest@ =~= key@.skip(6));
    if !ends_with_chars(rest.as_slice(), suffix.as_slice()) {
        return None;
    }
    let name = slice_chars(rest.as_slice(), 0, rest.len() - 10);
    assert(name@ =~= rest@.take(rest@.len() - 10));
    let lower = ascii_lowercase(name.as_slice());
    Some(string_of(lower.as_slice()))
}

/// The providers announced by the variables named `keys`, in their order.
pub open spec fn provider_names_in(keys: Seq<Seq<char>>) -> Seq<Seq<char>>
    decreases keys.len(),
{
    if keys.len() == 0 {
        Seq::<Seq<char>>::empty()
    } else {
        match provider_name_in(keys.last()) {
            Some(n) => provider_names_in(keys.drop_last()).push(n),
            None => provider_names_in(keys.drop_last()),
        }
    }
}

/// The providers the variables named `keys` announce.
pub fn provider_names(keys: &Vec<String>) -> (r: Vec<String>)
    ensures
        r@.len() == provider_names_in(crate::guards::string_views(keys@)).len(),
        forall|k: int|
            0 <= k < r@.len() ==> #[trigger] r@[k]@ == provider_names_in(
                crate::guards::string_views(keys@),
            )[k],
{
    let ghost views = crate::guards::string_views(keys@);
    let mut out: Vec<String> = Vec::new();
    let mut i: usize = 0;
    while i < keys.len()
        invariant
            i <= keys@.len(),
            views == crate::guards::string_views(keys@),
            out@.len() == provider_names_in(views.take(i as int)).len(),
            forall|k: int|
                0 <= k < out@.len() ==> #[trigger] out@[k]@ == provider_names_in(
                    views.take(i as int),
                )[k],
        decreases keys@.len() - i,
    {
        assert(views.take(i + 1).drop_last() =~= views.take(i as int));
        assert(views.take(i + 1).last() == keys@[i as int]@);
        match provider_name_of(keys[i].as_str()) {
            Some(n) => out.push(n),
            None => {},
        }
        i += 1;
    }
    assert(views.take(keys@.len() as int) =~= views);
    out
}

/// An outside login provider (VK ID, Yandex ID, ...): pure configuration.
pub struct OauthProvider {
    pub name: String,
    pub client_id: String,
    pub client_secret: Secret,
    pub auth_url: String,
    pub token_url: String,
    pub userinfo_url: String,
    pub scope: String,
    /// JSON pointer to the id in the profile answer, e.g. "/user/user_id"
    pub id_pointer: String,
    pub email_pointer: Option<String>,
    /// the provider checks addresses itself; only then a login by address is
    /// tied to an existing account
    pub trust_email: bool,
}

/// Whether `s` parses as an absolute URL, as the `url` crate (re-exported by
/// reqwest) decides it.
pub uninterp spec fn url_valid(s: Seq<char>) -> bool;

/// `reqwest::Url::parse`: only whether it succeeds is used; what the parse
/// gives is the crate's (WHATWG URL parsing) and is left unstated.
#[verifier::external_body]
fn url_parses(s: &str) -> (r: bool)
    ensures
        r == url_valid(s@),
{
    reqwest::Url::parse(s).is_ok()
}

/// The name of variable `suffix` of provider `name`: `OAUTH_<NAME>_<SUFFIX>`.
pub open spec fn provider_var_name(name: Seq<char>, suffix: Seq<char>) -> Seq<char> {
    "OAUTH_"@ + ascii_upper_seq(name) + "_"@ + suffix
}

/// The variable `suffix` of provider `name`.
pub fn provider_var(name: &str, suffix: &str) -> (r: String)
    ensures
        r@ == provider_var_name(name@, suffix@),
{
    let upper = ascii_uppercase(chars_of(name).as_slice());
    let head = concat(chars_of("OAUTH_").as_slice(), upper.as_slice());
    let mid = concat(head.as_slice(), chars_of("_").as_slice());
    let all = concat(mid.as_slice(), chars_of(suffix).as_slice());
    string_of(all.as_slice())
}

/// The raw values of the variables of one provider, as the environment
/// holds them.
pub struct OauthVars {
    pub client_id: Option<String>,
    pub client_secret: Option<String>,
    pub auth_url: Option<String>,
    pub token_url: Option<String>,
    pub userinfo_url: Option<String>,
    pub scope: Option<String>,
    pub id_pointer: Option<String>,
    pub email_pointer: Option<String>,
    pub trust_email: Option<String>,
}

pub open spec fn value_or(o: Option<Seq<char>>, default: Seq<char>) -> Seq<char> {
    match o {
        Some(v) => v,
        None => default,
    }
}

/// A variable of the provider that must be set.
fn required_var(name: &str, suffix: &str, raw: Option<String>) -> (r: Result<String, ConfigError>)
    ensures
        set_value(opt_chars(raw)) matches Some(v) ==> (r matches Ok(s) && s@ == v),
        set_value(opt_chars(raw)) is None ==> (r matches Err(ConfigError::Missing(n)) && n@
            == provider_var_name(name@, suffix@)),
{
    match var(raw) {
        Some(v) => Ok(v),
        None => Err(ConfigError::Missing(provider_var(name, suffix))),
    }
}

/// A provider from its variables: the addresses and the client are
/// required, the consent address must parse as a URL already now (it is
/// extended with parameters at each login), the rest have defaults.
pub fn oauth_provider(name: &str, vars: OauthVars) -> (r: Result<OauthProvider, ConfigError>)
    ensures
        ({
            let auth = set_value(opt_chars(vars.auth_url));
            let id = set_value(opt_chars(vars.client_id));
            let secret = set_value(opt_chars(vars.client_secret));
            let token = set_value(opt_chars(vars.token_url));
            let info = set_value(opt_chars(vars.userinfo_url));
            &&& r is Ok <==> (auth matches Some(a) && url_valid(a) && id is Some && secret is Some
                && token is Some && info is Some)
            &&& auth is None ==> (r matches Err(ConfigError::Missing(n)) && n@ == provider_var_name(
                name@,
                "AUTH_URL"@,
            ))
            &&& (auth matches Some(a) ==> (!url_valid(a) ==> (r matches Err(
                ConfigError::Unparsable { name: n, raw: t },
            ) && n@ == provider_var_name(name@, "AUTH_URL"@) && t@ == a)))
            &&& (auth matches Some(a) && url_valid(a) && id is None) ==> (r matches Err(
                ConfigError::Missing(n),
            ) && n@ == provider_var_name(name@, "CLIENT_ID"@))
            &&& (auth matches Some(a) && url_valid(a) && id is Some && secret is None) ==> (
            r matches Err(ConfigError::Missing(n)) && n@ == provider_var_name(
                name@,
                "CLIENT_SECRET"@,
            ))
            &&& (auth matches Some(a) && url_valid(a) && id is Some && secret is Some && token is None)
                ==> (r matches Err(ConfigError::Missing(n)) && n@ == provider_var_name(
                name@,
                "TOKEN_URL"@,
            ))
            &&& (auth matches Some(a) && url_valid(a) && id is Some && secret is Some && token is Some
                && info is None) ==> (r matches Err(ConfigError::Missing(n)) && n@
                == provider_var_name(name@, "USERINFO_URL"@))
            &&& r matches Ok(p) ==> {
                &&& p.name@ == name@
                &&& Some(p.auth_url@) == auth
                &&& Some(p.client_id@) == id
                &&& Some(p.client_secret@) == secret
                &&& Some(p.token_url@) == token
                &&& Some(p.userinfo_url@) == info
                &&& p.scope@ == value_or(set_value(opt_chars(vars.scope)), Seq::<char>::empty())
                &&& p.id_pointer@ == value_or(set_value(opt_chars(vars.id_pointer)), "/id"@)
                &&& opt_chars(p.email_pointer) == set_value(opt_chars(vars.email_pointer))
                &&& p.trust_email == (set_value(opt_chars(vars.trust_email)) matches Some(v) && (v
                    == "true"@ || v == "1"@))
            }
        }),
{
    let auth_url = required_var(name, "AUTH_URL", vars.auth_url)?;
    if !url_parses(auth_url.as_str()) {
        return Err(
            ConfigError::Unparsable { name: provider_var(name, "AUTH_URL"), raw: auth_url },
        );
    }
    let client_id = required_var(name, "CLIENT_ID", vars.client_id)?;
    let client_secret = required_var(name, "CLIENT_SECRET", vars.client_secret)?;
    let token_url = required_var(name, "TOKEN_URL", vars.token_url)?;
    let userinfo_url = required_var(name, "USERINFO_URL", vars.userinfo_url)?;
    let scope = match var(vars.scope) {
        Some(v) => v,
        None => String::new(),
    };
    let id_pointer = match var(vars.id_pointer) {
        Some(v) => v,
        None => "/id".to_owned(),
    };
    let email_pointer = var(vars.email_pointer);
    let trust_email = flag(var(vars.trust_email));
    Ok(
        OauthProvider {
            name: name.to_owned(),
            client_id,
            client_secret: Secret::new(client_secret),
            auth_url,
            token_url,
            userinfo_url,
            scope,
            id_pointer,
            email_pointer,
            trust_email,
        },
    )
}

pub struct LogSettings {
    /// LOG_FORMAT=json: structured logs for production
    pub json: bool,
    /// LOG_DIR: copy the stream into daily files
    pub dir: Option<String>,
}

/// Logs are JSON when LOG_FORMAT is "json".
pub fn json_logs(value: Option<String>) -> (r: bool)
    ensures
        r == (value matches Some(v) && v@ == "json"@),
{
    match value {
        Some(v) => str_eq(v.as_str(), "json"),
        None => false,
    }
}

} // verus!
