use smeta_check::auth::account::{check_email_change, check_password_change, verify_current_password};
use smeta_check::auth::jwt::{
    accept, access_claims, pending_2fa_claims, sign, sign_access, sign_access_at,
    sign_pending_2fa_at, verify_access, verify_at, verify_pending_2fa, ACCESS_TTL_SECS,
    PENDING_2FA_TTL_SECS,
};
use smeta_check::auth::oauth::{
    access_token_of, authorize_url, callback_uri, oauth_email, profile_identity, provider_key,
};
use smeta_check::auth::sessions::{rotated_client, session_infos, SessionRow};
use smeta_check::auth::{
    check_registration, hash_password, hash_token, link_with_token, login_outcome, lookup_email,
    check_totp_at, new_raw_token, normalize_email, totp_code_valid, totp_code_valid_at, totp_enable,
    totp_enable_at, totp_setup, validate_password, verify_2fa_login_at,
    verify_2fa_login, verify_password, LoginOutcome,
};
use smeta_check::config::{OauthProvider, Secret};
use smeta_check::users::UserRecord;

fn user(password_hash: Option<String>, totp_secret: Option<String>) -> UserRecord {
    UserRecord {
        id: uuid::Uuid::nil(),
        email: "ivan@example.com".to_owned(),
        password_hash,
        role: "user".to_owned(),
        totp_secret,
        email_verified: true,
        display_name: None,
        locale: None,
    }
}

fn provider() -> OauthProvider {
    OauthProvider {
        name: "vk".to_owned(),
        client_id: "app-1".to_owned(),
        client_secret: Secret::new("s".to_owned()),
        auth_url: "https://id.example.com/authorize".to_owned(),
        token_url: "https://id.example.com/token".to_owned(),
        userinfo_url: "https://id.example.com/me".to_owned(),
        scope: "email".to_owned(),
        id_pointer: "/user/id".to_owned(),
        email_pointer: Some("/user/email".to_owned()),
        trust_email: true,
    }
}

fn current_code(secret_b32: &str, email: &str) -> String {
    let bytes = totp_rs::Secret::Encoded(secret_b32.to_owned()).to_bytes().unwrap();
    totp_rs::TOTP::new(
        totp_rs::Algorithm::SHA1,
        6,
        1,
        30,
        bytes,
        Some("business-project".to_owned()),
        email.to_owned(),
    )
    .unwrap()
    .generate_current()
    .unwrap()
}

#[test]
fn short_password_names_the_minimum_and_the_field() {
    let err = validate_password("1234567", "new_password").unwrap_err();
    assert_eq!(err.key, "error-password-short");
    assert_eq!(err.field, Some("new_password"));
    assert_eq!(err.args, vec![("min", "8".to_owned())]);
    assert!(validate_password("12345678", "password").is_ok());
}

#[test]
fn address_is_trimmed_and_made_small() {
    assert_eq!(
        normalize_email("  Ivan@Example.COM ", "email").unwrap(),
        "ivan@example.com"
    );
    let err = normalize_email("ivan.example.com", "email").unwrap_err();
    assert_eq!(err.key, "error-validation-email");
    assert_eq!(err.field, Some("email"));
    assert!(normalize_email("@example.com", "email").is_err());
    assert!(normalize_email("ivan@localhost", "email").is_err());
}

#[test]
fn registered_address_is_found_by_the_login_key() {
    let stored = check_registration(" Ivan@Example.com", "long enough").unwrap();
    assert_eq!(lookup_email("IVAN@example.com  "), stored);
    assert_eq!(lookup_email(&stored), stored);
    assert_eq!(
        check_registration("ivan@example.com", "short").unwrap_err().key,
        "error-password-short"
    );
}

#[test]
fn one_time_token_is_hex_and_stored_hashed() {
    let a = new_raw_token();
    let b = new_raw_token();
    assert_eq!(a.len(), 64);
    assert!(a.chars().all(|c| c.is_ascii_hexdigit() && !c.is_ascii_uppercase()));
    assert_ne!(a, b);
    let hash = hash_token(b"abc");
    assert_eq!(hash.len(), 32);
    assert_eq!(&hash[..4], &[0xba, 0x78, 0x16, 0xbf]);
    assert_ne!(hash_token(a.as_bytes()), a.as_bytes().to_vec());
}

#[test]
fn letter_link_carries_the_token() {
    assert_eq!(
        link_with_token("https://smeta.example", "/reset", "abc"),
        "https://smeta.example/reset?token=abc"
    );
}

#[test]
fn password_hash_verifies_only_its_password() {
    let hash = hash_password("correct horse").unwrap();
    assert!(hash.starts_with("$argon2"));
    assert!(verify_password("correct horse", &hash));
    assert!(!verify_password("wrong horse", &hash));
    assert!(!verify_password("correct horse", "not a hash"));
}

#[test]
fn login_answers_the_same_for_unknown_user_and_wrong_password() {
    let hash = hash_password("correct horse").unwrap();
    let unknown = match login_outcome(None, "correct horse") {
        Err(e) => e,
        Ok(_) => panic!("unknown user logged in"),
    };
    let wrong = match login_outcome(Some(user(Some(hash.clone()), None)), "wrong") {
        Err(e) => e,
        Ok(_) => panic!("wrong password accepted"),
    };
    assert_eq!(unknown.key, "error-invalid-credentials");
    assert_eq!(wrong.key, unknown.key);
    assert_eq!(wrong.status, unknown.status);
    assert!(matches!(
        login_outcome(Some(user(Some(hash.clone()), None)), "correct horse"),
        Ok(LoginOutcome::Done(_))
    ));
    assert!(matches!(
        login_outcome(Some(user(Some(hash), Some("X".to_owned()))), "correct horse"),
        Ok(LoginOutcome::Requires2fa(_))
    ));
}

#[test]
fn changes_need_the_current_password() {
    let hash = hash_password("correct horse").unwrap();
    let u = user(Some(hash), None);
    assert!(verify_current_password(&u, "correct horse").is_ok());
    assert_eq!(
        verify_current_password(&u, "nope").unwrap_err().key,
        "error-wrong-password"
    );
    assert_eq!(
        verify_current_password(&user(None, None), "x").unwrap_err().key,
        "error-no-password"
    );
    assert_eq!(
        check_password_change(&u, "correct horse", "short").unwrap_err().field,
        Some("new_password")
    );
    assert!(check_password_change(&u, "correct horse", "a longer one").is_ok());
    assert_eq!(
        check_email_change(&u, " New@Example.com ", "correct horse").unwrap(),
        "new@example.com"
    );
}

#[test]
fn second_factor_is_confirmed_by_a_code() {
    let fresh = user(None, None);
    let setup = totp_setup(&fresh).unwrap();
    assert!(setup.otpauth_url.starts_with("otpauth://totp/"));
    let code = current_code(&setup.secret, &fresh.email);
    assert_eq!(totp_code_valid(&setup.secret, &fresh.email, &code).unwrap(), true);
    assert!(totp_enable(&fresh, &setup.secret, &format!(" {code} ")).is_ok());
    assert_eq!(
        totp_enable(&fresh, &setup.secret, "000000x").unwrap_err().key,
        "error-invalid-totp"
    );
    let on = user(None, Some(setup.secret.clone()));
    assert_eq!(totp_setup(&on).unwrap_err().key, "error-totp-already-enabled");
    assert!(verify_2fa_login(on, &code).is_ok());
    assert_eq!(
        verify_2fa_login(user(None, None), &code).unwrap_err().key,
        "error-totp-not-enabled"
    );
    assert_eq!(
        totp_code_valid("not base32!", &fresh.email, "123456").unwrap_err().key,
        "error-internal"
    );
}

#[test]
fn second_factor_cannot_be_built_for_an_address_with_a_colon() {
    let mut odd = user(None, None);
    odd.email = "a:b@example.com".to_owned();
    assert_eq!(totp_setup(&odd).unwrap_err().key, "error-internal");
    let setup = totp_setup(&user(None, None)).unwrap();
    assert_eq!(setup.secret.len(), 32);
}

#[test]
fn pending_token_is_not_an_access_token() {
    let id = uuid::Uuid::nil().as_u128();
    let access = access_claims(id, "admin", 1_000);
    assert_eq!(access.exp, 1_000 + ACCESS_TTL_SECS);
    assert_eq!(access.purpose, "access");
    let pending = pending_2fa_claims(id, 1_000);
    assert_eq!(pending.role, "");
    assert!(accept(pending, "access").is_none());
    assert!(accept(access, "access").is_some());
}

#[test]
fn consent_address_carries_the_query() {
    let cfg = provider();
    assert_eq!(
        authorize_url(&cfg, "http://localhost/cb", "st 1"),
        "https://id.example.com/authorize?response_type=code&client_id=app-1\
         &redirect_uri=http%3A%2F%2Flocalhost%2Fcb&scope=email&state=st+1"
    );
    let broken = OauthProvider {
        auth_url: "no url at all".to_owned(),
        ..provider()
    };
    assert_eq!(authorize_url(&broken, "x", "y"), "no url at all");
    assert_eq!(
        callback_uri("https://smeta.example", "vk"),
        "https://smeta.example/api/auth/oauth/vk/callback"
    );
    assert_eq!(provider_key("VK"), "vk");
}

#[test]
fn provider_answers_are_read_by_pointer() {
    assert_eq!(
        access_token_of("vk", "{\"access_token\":\"t-1\",\"expires_in\":60}").unwrap(),
        "t-1"
    );
    let err = access_token_of("vk", "{\"error\":\"denied\"}").unwrap_err();
    assert_eq!(err.key, "error-oauth-failed");
    assert_eq!(err.args, vec![("provider", "vk".to_owned())]);
    assert!(access_token_of("vk", "not json").is_err());
    let cfg = provider();
    let (id, email) =
        profile_identity(&cfg, "{\"user\":{\"id\":42,\"email\":\"A@B.ru\"}}").unwrap();
    assert_eq!(id, "42");
    assert_eq!(email.as_deref(), Some("A@B.ru"));
    let (id, email) = profile_identity(&cfg, "{\"user\":{\"id\":\"x7\"}}").unwrap();
    assert_eq!(id, "x7");
    assert_eq!(email, None);
    assert!(profile_identity(&cfg, "{\"id\":1}").is_err());
}

#[test]
fn unchecked_provider_address_is_not_trusted() {
    assert_eq!(oauth_email("vk", "42", true, Some("A@B.ru")), "a@b.ru");
    assert_eq!(oauth_email("vk", "42", false, Some("A@B.ru")), "vk.42@oauth.local");
    assert_eq!(oauth_email("vk", "42", true, None), "vk.42@oauth.local");
}

#[test]
fn session_list_marks_the_current_one() {
    let rows = vec![
        SessionRow {
            session_id: uuid::Uuid::nil(),
            started_at: 0,
            created_at: 1_000_000_000,
            client: Some("Chrome, macOS".to_owned()),
            token_hash: hash_token(b"mine"),
        },
        SessionRow {
            session_id: uuid::Uuid::from_u128(1),
            started_at: 0,
            created_at: 0,
            client: None,
            token_hash: hash_token(b"other"),
        },
    ];
    let infos = session_infos(rows, Some("mine"));
    assert_eq!(infos.len(), 2);
    assert!(infos[0].current);
    assert!(!infos[1].current);
    assert_eq!(infos[0].created_at, "1970-01-01T00:00:00Z");
    assert_eq!(infos[0].last_seen_at, "1970-01-01T00:00:01Z");
    assert_eq!(infos[0].client.as_deref(), Some("Chrome, macOS"));
    assert!(session_infos(Vec::new(), None).is_empty());
}

#[test]
fn rotated_session_keeps_its_client_when_the_new_one_is_silent() {
    assert_eq!(rotated_client(None, Some("Edge, Windows".to_owned())).as_deref(), Some("Edge, Windows"));
    assert_eq!(
        rotated_client(Some("Firefox, Linux"), Some("Edge, Windows".to_owned())).as_deref(),
        Some("Firefox, Linux")
    );
}

#[test]
fn address_change_names_each_refusal() {
    let hash = hash_password("correct horse").unwrap();
    let u = user(Some(hash), None);
    let none = check_email_change(&user(None, None), "new@example.com", "x").unwrap_err();
    assert_eq!((none.status, none.key, none.field), (422, "error-no-password", Some("current_password")));
    let wrong = check_email_change(&u, "new@example.com", "nope").unwrap_err();
    assert_eq!((wrong.status, wrong.key, wrong.field), (422, "error-wrong-password", Some("current_password")));
    let bad = check_email_change(&u, "no-at-sign", "correct horse").unwrap_err();
    assert_eq!((bad.status, bad.key, bad.field), (422, "error-validation-email", Some("new_email")));
    let same = check_email_change(&u, " IVAN@example.com", "correct horse").unwrap_err();
    assert_eq!((same.status, same.key, same.field), (422, "error-email-same", Some("new_email")));
}

#[test]
fn failed_provider_answer_names_the_provider() {
    let err = profile_identity(&provider(), "{\"user\":{}}").unwrap_err();
    assert_eq!(err.status, 401);
    assert_eq!(err.key, "error-oauth-failed");
    assert_eq!(err.args, vec![("provider", "vk".to_owned())]);
    assert_eq!(err.field, None);
}

#[test]
fn authenticator_address_is_the_one_of_the_generator() {
    let fresh = user(None, None);
    let setup = totp_setup(&fresh).unwrap();
    let bytes = totp_rs::Secret::Encoded(setup.secret.clone()).to_bytes().unwrap();
    let expected = totp_rs::TOTP::new(
        totp_rs::Algorithm::SHA1,
        6,
        1,
        30,
        bytes,
        Some("business-project".to_owned()),
        fresh.email.clone(),
    )
    .unwrap()
    .get_url();
    assert_eq!(setup.otpauth_url, expected);
    assert!(setup.otpauth_url.contains("issuer=business-project"));
}

#[test]
fn any_password_of_ordinary_length_is_hashed() {
    for pw in ["", "x", "correct horse", "пароль с пробелами"] {
        let hash = hash_password(pw).unwrap();
        assert!(verify_password(pw, &hash));
    }
}

#[test]
fn signed_token_reads_back_for_its_purpose_only() {
    let secret = Secret::new("a long enough signing secret".to_owned());
    let id = uuid::Uuid::parse_str("67e55044-10b1-426f-9247-bb680e5fe0c8").unwrap().as_u128();
    let token = sign_access_at(&secret, id, "admin", 1_000);
    let claims = verify_at(&secret, &token, "access", 1_000).unwrap();
    assert_eq!(claims.sub, id);
    assert_eq!(claims.role, "admin");
    assert_eq!(claims.purpose, "access");
    assert_eq!(claims.exp, 1_000 + ACCESS_TTL_SECS);
    assert!(verify_at(&secret, &token, "2fa", 1_000).is_none());
    let other = Secret::new("another signing secret, also long".to_owned());
    assert!(verify_at(&other, &token, "access", 1_000).is_none());
    // the leeway of a minute after the expiry, and not a second more
    assert!(verify_at(&secret, &token, "access", 1_000 + ACCESS_TTL_SECS + 60).is_some());
    assert!(verify_at(&secret, &token, "access", 1_000 + ACCESS_TTL_SECS + 61).is_none());
    let pending = sign_pending_2fa_at(&secret, id, 1_000);
    let p = verify_at(&secret, &pending, "2fa", 1_000).unwrap();
    assert_eq!((p.role.as_str(), p.exp), ("", 1_000 + PENDING_2FA_TTL_SECS));
    assert!(verify_at(&secret, &pending, "access", 1_000).is_none());
    assert!(verify_at(&secret, "not.a.token", "access", 1_000).is_none());
}

#[test]
fn tokens_made_now_verify_now() {
    let secret = Secret::new("a long enough signing secret".to_owned());
    let token = sign_access(&secret, 7, "user");
    let claims = verify_access(&secret, &token).unwrap();
    assert_eq!((claims.sub, claims.role.as_str()), (7, "user"));
    assert!(verify_pending_2fa(&secret, &token).is_none());
}

#[test]
fn token_of_another_signer_with_the_same_claims_is_read() {
    let secret = Secret::new("a long enough signing secret".to_owned());
    let mut claims = std::collections::BTreeMap::new();
    claims.insert("sub", serde_json::Value::from("67e55044-10b1-426f-9247-bb680e5fe0c8"));
    claims.insert("role", serde_json::Value::from("user"));
    claims.insert("purpose", serde_json::Value::from("access"));
    claims.insert("exp", serde_json::Value::from(5_000i64));
    let token = jsonwebtoken::encode(
        &jsonwebtoken::Header::default(),
        &claims,
        &jsonwebtoken::EncodingKey::from_secret(secret.as_bytes()),
    )
    .unwrap();
    let read = verify_at(&secret, &token, "access", 4_000).unwrap();
    assert_eq!(uuid::Uuid::from_u128(read.sub).to_string(), "67e55044-10b1-426f-9247-bb680e5fe0c8");
    let negative = access_claims(1, "user", -ACCESS_TTL_SECS - 10);
    assert!(verify_at(&secret, &sign(&secret, &negative), "access", -10_000).is_none());
}

fn code_at(secret_b32: &str, email: &str, time: u64) -> String {
    let bytes = totp_rs::Secret::Encoded(secret_b32.to_owned()).to_bytes().unwrap();
    totp_rs::TOTP::new(
        totp_rs::Algorithm::SHA1,
        6,
        1,
        30,
        bytes,
        Some("business-project".to_owned()),
        email.to_owned(),
    )
    .unwrap()
    .generate(time)
}

#[test]
fn code_is_checked_trimmed_within_one_step_either_way() {
    let fresh = user(None, None);
    let setup = totp_setup(&fresh).unwrap();
    let t: u64 = 1_700_000_000;
    let code = code_at(&setup.secret, &fresh.email, t);
    assert_eq!(totp_code_valid_at(&setup.secret, &fresh.email, &format!("  {code}\n"), t).unwrap(), true);
    assert_eq!(totp_code_valid_at(&setup.secret, &fresh.email, &code, t + 30).unwrap(), true);
    assert_eq!(totp_code_valid_at(&setup.secret, &fresh.email, &code, t - 30).unwrap(), true);
    let far = code_at(&setup.secret, &fresh.email, t + 3_600);
    if far != code {
        assert_eq!(totp_code_valid_at(&setup.secret, &fresh.email, &far, t).unwrap(), false);
    }
    assert_eq!(totp_code_valid_at(&setup.secret, &fresh.email, &code, 10).unwrap(), false);
    assert!(totp_enable_at(&fresh, &setup.secret, &format!(" {code} "), t).is_ok());
    let on = user(None, Some(setup.secret.clone()));
    assert!(check_totp_at(&on, &code, t).is_ok());
    assert_eq!(check_totp_at(&on, "12345", t).unwrap_err().key, "error-invalid-totp");
    assert!(verify_2fa_login_at(on, &code, t).is_ok());
    assert_eq!(
        check_totp_at(&fresh, &code, t).unwrap_err().key,
        "error-totp-not-enabled"
    );
}
