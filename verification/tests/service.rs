use smeta_check::config::{
    cors_origins, flag, json_logs, oauth_provider, parsed, provider_name_of, provider_names,
    provider_var, required, smtp_from, var, ConfigError, OauthVars,
};
use smeta_check::dates::rfc3339;
use smeta_check::error::ApiError;
use smeta_check::estimates::parse::book::{check_sheet_count, count_cell, sheet_width};
use smeta_check::estimates::parse::{parse, Cell, ParseError, Sheet};
use smeta_check::estimates::photo::mime_of;
use smeta_check::estimates::worker::{after_failure, attempts_given_back, claim_another, AfterFailure};
use smeta_check::estimates::{
    accepted_file, allow_photo, check_content, check_count, is_photo, photo_matches_ext,
    stored_name,
};
use smeta_check::guards::{
    allowed_origins, bearer_token, client_ip, current_user, origin_allowed, require_admin,
};
use smeta_check::i18n::{current_lang, is_known_locale, Lang};
use smeta_check::items::{
    deleted_or_not_found, deletes_any, item_title, page_limit, page_of, start_cursor, Item,
};
use smeta_check::jobs::{cleanup_due, delivery, next_tick, recipient_ok, Delivery};
use smeta_check::llm::{check_cap, completions_url, counted, data_url, provider_status, Image, LlmError};
use smeta_check::ops::{letter_id, parse_command, Command};
use smeta_check::text::decimal_string;
use smeta_check::users::{check_profile, Role, UpdateMe};

fn vars(auth_url: Option<&str>) -> OauthVars {
    OauthVars {
        client_id: Some("app-1".to_owned()),
        client_secret: Some("secret".to_owned()),
        auth_url: auth_url.map(|s| s.to_owned()),
        token_url: Some("https://id.example.com/token".to_owned()),
        userinfo_url: Some("https://id.example.com/me".to_owned()),
        scope: None,
        id_pointer: Some("  ".to_owned()),
        email_pointer: Some("/email".to_owned()),
        trust_email: Some("1".to_owned()),
    }
}

fn cells(texts: &[(&str, Option<f64>)]) -> Vec<Cell<f64>> {
    texts
        .iter()
        .map(|(t, n)| Cell {
            text: (*t).to_owned(),
            number: *n,
        })
        .collect()
}

#[test]
fn languages_read_back_from_their_codes() {
    for lang in [Lang::Ru, Lang::En] {
        assert_eq!(Lang::from_accept_language(lang.code()), lang);
    }
    assert_eq!(Lang::from_accept_language("de-DE, en-US;q=0.8, ru;q=0.5"), Lang::En);
    assert_eq!(Lang::from_accept_language("fr, de"), Lang::Ru);
    assert_eq!(Lang::from_accept_language(""), Lang::Ru);
    assert_eq!(current_lang(None), Lang::Ru);
    assert_eq!(current_lang(Some(Lang::En)), Lang::En);
    assert!(is_known_locale("en") && !is_known_locale("de"));
}

#[test]
fn roles_read_back_from_their_names() {
    for role in [Role::User, Role::Admin] {
        assert_eq!(Role::parse(role.as_str()), role);
    }
    assert_eq!(Role::parse("root"), Role::User);
}

#[test]
fn forwarded_address_is_believed_only_behind_the_proxy() {
    assert_eq!(client_ip(false, Some("6.6.6.6"), Some("10.0.0.1".to_owned())), "10.0.0.1");
    assert_eq!(
        client_ip(true, Some("6.6.6.6, 1.2.3.4 "), Some("10.0.0.1".to_owned())),
        "1.2.3.4"
    );
    assert_eq!(client_ip(true, None, Some("10.0.0.1".to_owned())), "10.0.0.1");
    assert_eq!(client_ip(false, None, None), "unknown");
    assert!(smeta_check::guards::cleanup_due(0) && smeta_check::guards::cleanup_due(2048));
    assert!(!smeta_check::guards::cleanup_due(1023));
}

#[test]
fn own_origin_passes_and_foreign_one_does_not() {
    let allowed = allowed_origins("https://smeta.example//", &vec!["https://admin.example".to_owned()]);
    assert_eq!(allowed, vec!["https://smeta.example", "https://admin.example"]);
    assert!(origin_allowed(&allowed, Some("https://smeta.example")));
    assert!(origin_allowed(&allowed, Some("https://admin.example")));
    assert!(origin_allowed(&allowed, None));
    assert!(!origin_allowed(&allowed, Some("https://evil.example")));
}

#[test]
fn bearer_header_gives_the_token() {
    assert_eq!(bearer_token(Some("Bearer abc.def")).unwrap(), "abc.def");
    assert_eq!(bearer_token(Some("Basic abc")).unwrap_err().key, "error-unauthorized");
    assert_eq!(bearer_token(None).unwrap_err().status, 401);
    assert_eq!(current_user(None).unwrap_err().key, "error-unauthorized");
    let admin = current_user(Some(smeta_check::auth::jwt::access_claims(0, "admin", 0)))
        .unwrap();
    assert_eq!(admin.role, Role::Admin);
    assert!(require_admin(&admin).is_ok());
    let plain = current_user(Some(smeta_check::auth::jwt::access_claims(0, "user", 0)))
        .unwrap();
    assert_eq!(require_admin(&plain).unwrap_err().status, 403);
}

#[test]
fn pages_are_bounded_and_carry_a_cursor() {
    assert_eq!(page_limit(None), 20);
    assert_eq!(page_limit(Some(0)), 1);
    assert_eq!(page_limit(Some(500)), 100);
    assert_eq!(start_cursor(None), i64::MAX);
    let fetched: Vec<Item> = (0..4).map(|i| Item { id: 10 - i, title: format!("t{i}") }).collect();
    let page = page_of(fetched, 3);
    assert_eq!(page.items.len(), 3);
    assert_eq!(page.next_cursor, Some(8));
    let last = page_of(vec![Item { id: 1, title: "x".to_owned() }], 3);
    assert_eq!(last.next_cursor, None);
    assert_eq!(item_title("  Ремонт  ").unwrap(), "Ремонт");
    assert_eq!(item_title("   ").unwrap_err().key, "error-title-empty");
    assert!(deletes_any(Role::Admin) && !deletes_any(Role::User));
    assert!(deleted_or_not_found(true).is_ok());
    assert_eq!(deleted_or_not_found(false).unwrap_err().status, 404);
}

#[test]
fn uploads_are_checked_before_they_are_written() {
    let (name, ext) = accepted_file("  Смета кухни.XLSX ").unwrap();
    assert_eq!(name, "Смета кухни.XLSX");
    assert_eq!(ext, "xlsx");
    assert_eq!(accepted_file("смета.pdf").unwrap_err().key, "error-estimate-format");
    assert!(is_photo("jpeg") && !is_photo("xls"));
    assert!(photo_matches_ext("png", b"\x89PNG\r\n\x1a\n...."));
    assert!(!photo_matches_ext("png", b"\xff\xd8\xff\xe0"));
    assert!(photo_matches_ext("xlsx", b"anything"));
    assert_eq!(check_content("xlsx", b"").unwrap_err().key, "error-estimate-empty");
    assert_eq!(check_content("jpg", b"GIF89a").unwrap_err().key, "error-estimate-not-a-photo");
    let big = vec![0u8; 10 * 1024 * 1024 + 1];
    let err = check_content("xlsx", &big).unwrap_err();
    assert_eq!(err.status, 413);
    assert_eq!(err.args, vec![("max", "10".to_owned())]);
    assert!(check_content("jpg", b"\xff\xd8\xff\xe0").is_ok());
    assert!(check_count(19).is_ok());
    assert_eq!(check_count(20).unwrap_err().args, vec![("max", "20".to_owned())]);
    assert_eq!(check_count(20).unwrap_err().status, 422);
    assert_eq!(check_count(25).unwrap_err().field, None);
    assert_eq!(check_content("xlsx", b"").unwrap_err().status, 422);
    assert_eq!(check_content("png", b"GIF89a").unwrap_err().status, 422);
    assert_eq!(allow_photo(false, true).unwrap_err().key, "error-estimate-photo-off");
    assert_eq!(allow_photo(true, false).unwrap_err().key, "error-estimate-photo-needs-email");
    assert!(allow_photo(true, true).is_ok());
}

#[test]
fn stored_name_is_the_id_and_the_extension() {
    let id = uuid::Uuid::new_v4();
    let name = stored_name(id.as_u128(), "xlsx");
    assert_eq!(name, format!("{id}.xlsx"));
    assert_eq!(name.len(), 41);
    assert!(!name.contains('/'));
}

#[test]
fn stored_name_writes_the_id_in_hyphenated_hex() {
    let v = 0xa1a2a3a4_b1b2_c1c2_d1d2_d3d4d5d6d7d8u128;
    assert_eq!(stored_name(v, "png"), "a1a2a3a4-b1b2-c1c2-d1d2-d3d4d5d6d7d8.png");
    assert_eq!(stored_name(0, "xls"), "00000000-0000-0000-0000-000000000000.xls");
    assert_eq!(stored_name(u128::MAX, "jpg"), "ffffffff-ffff-ffff-ffff-ffffffffffff.jpg");
}

#[test]
fn sender_of_mail_defaults_and_must_be_a_mailbox() {
    assert_eq!(smtp_from(None).unwrap(), "no-reply@localhost");
    assert_eq!(
        smtp_from(Some("Смета <robot@example.com>".to_owned())).unwrap(),
        "Смета <robot@example.com>"
    );
    assert!(matches!(
        smtp_from(Some("not an address".to_owned())),
        Err(ConfigError::BadSender(raw)) if raw == "not an address"
    ));
}

#[test]
fn book_limits_refuse_bombs() {
    assert_eq!(count_cell(0, 0, 0), Ok(1));
    assert_eq!(count_cell(5, 20_000, 0), Err(ParseError::TooBig));
    assert_eq!(count_cell(5, 0, 1_000), Err(ParseError::TooBig));
    assert_eq!(count_cell(500_000, 1, 1), Err(ParseError::TooBig));
    assert_eq!(count_cell(499_999, 19_999, 999), Ok(500_000));
    assert!(check_sheet_count(20).is_ok());
    assert_eq!(check_sheet_count(21), Err(ParseError::TooBig));
    assert_eq!(sheet_width(10, 7), Ok(7));
    assert_eq!(sheet_width(10, 300), Ok(100));
    assert_eq!(sheet_width(20_001, 3), Err(ParseError::TooBig));
    assert_eq!(ParseError::TooBig.key(), "error-estimate-too-big");
    assert_eq!(ParseError::Unreadable.reason(), "unreadable");
}

#[test]
fn book_is_parsed_into_lines_and_raw_rows() {
    let sheet = Sheet {
        name: "Смета".to_owned(),
        rows: vec![
            cells(&[("Ремонт квартиры", None)]),
            cells(&[("Наименование", None), ("Ед.изм.", None), ("Кол-во", None), ("Цена", None), ("Сумма", None)]),
            cells(&[("СТЕНЫ", None)]),
            cells(&[("Штукатурка стен", None), ("м2", None), ("12", Some(12.0)), ("740", Some(740.0)), ("8880", Some(8880.0))]),
            cells(&[("", None)]),
        ],
    };
    let lines = parse(vec![sheet]).unwrap();
    assert_eq!(lines.len(), 3);
    assert_eq!(lines[0].raw_text, "Ремонт квартиры");
    assert_eq!(lines[0].title, None);
    assert_eq!(lines[1].title, None);
    assert_eq!(lines[2].title.as_deref(), Some("Штукатурка стен"));
    assert_eq!(lines[2].total, Some(8880.0));
    assert_eq!(lines[2].sheet, "Смета");
    assert_eq!(lines[2].raw_text, "Штукатурка стен | м2 | 12 | 740 | 8880");
    let empty = Sheet { name: "Лист1".to_owned(), rows: vec![cells(&[(" ", None)])] };
    assert_eq!(parse::<f64>(vec![empty]).unwrap_err(), ParseError::NoData);
}

#[test]
fn worker_gives_up_after_its_attempts() {
    assert_eq!(after_failure(2), AfterFailure::Requeue);
    assert_eq!(after_failure(3), AfterFailure::MarkFailed);
    assert!(claim_another(0, None));
    assert!(!claim_another(1, Some("jpg")));
    assert!(claim_another(1, Some("xlsx")));
    assert!(!claim_another(5, Some("xlsx")));
    assert_eq!(attempts_given_back(2), 1);
    assert_eq!(attempts_given_back(0), 0);
}

#[test]
fn outbox_drops_bad_addresses_and_retries_failures() {
    assert_eq!(delivery(false, true), Delivery::Drop);
    assert_eq!(delivery(true, true), Delivery::Sent);
    assert_eq!(delivery(true, false), Delivery::Retry);
    assert!(cleanup_due(0) && cleanup_due(720) && !cleanup_due(719));
    assert_eq!(next_tick(u32::MAX), 0);
    assert_eq!(next_tick(5), 6);
}

#[test]
fn network_calls_are_guarded() {
    assert!(matches!(check_cap(&None, 0), Err(LlmError::Disabled)));
    let key = Some(Secret::new("k".to_owned()));
    assert!(matches!(check_cap(&key, 2_000_000), Err(LlmError::Capped)));
    assert!(check_cap(&key, 1_999_999).is_ok());
    assert_eq!(completions_url("https://api.example/v1//"), "https://api.example/v1/chat/completions");
    assert!(provider_status(200).is_ok());
    assert!(matches!(provider_status(429), Err(LlmError::Http(429))));
    assert_eq!(counted(-5), 0);
    assert_eq!(counted(12), 12);
    let image = Image { bytes: b"\xff\xd8\xff", mime: mime_of("jpg") };
    assert_eq!(data_url(&image), "data:image/jpeg;base64,/9j/");
    assert_eq!(mime_of("png"), "image/png");
    assert_eq!(mime_of("webp"), "image/webp");
}

use smeta_check::config::Secret;

#[test]
fn configuration_values_are_read_strictly() {
    assert_eq!(var(Some("  ".to_owned())), None);
    assert_eq!(var(Some(" x ".to_owned())).as_deref(), Some(" x "));
    assert!(matches!(required("DATABASE_URL", None), Err(ConfigError::Missing(n)) if n == "DATABASE_URL"));
    assert!(flag(Some("true".to_owned())) && flag(Some("1".to_owned())));
    assert!(!flag(Some("yes".to_owned())) && !flag(None));
    assert_eq!(parsed("PORT", None, None, 8080).unwrap(), 8080);
    assert_eq!(parsed("PORT", Some("9000".to_owned()), Some(9000), 8080).unwrap(), 9000);
    assert!(matches!(
        parsed("PORT", Some("x".to_owned()), None::<u16>, 8080),
        Err(ConfigError::Unparsable { name, raw }) if name == "PORT" && raw == "x"
    ));
    assert_eq!(cors_origins(Some(" https://a , ,https://b".to_owned())), vec!["https://a", "https://b"]);
    assert!(cors_origins(None).is_empty());
    assert!(json_logs(Some("json".to_owned())) && !json_logs(Some("text".to_owned())));
}

#[test]
fn oauth_providers_come_from_their_variables() {
    assert_eq!(provider_var("vk", "CLIENT_ID"), "OAUTH_VK_CLIENT_ID");
    assert_eq!(provider_name_of("OAUTH_YANDEX_CLIENT_ID").as_deref(), Some("yandex"));
    assert_eq!(provider_name_of("OAUTH_YANDEX_SECRET"), None);
    let keys = vec!["PATH".to_owned(), "OAUTH_VK_CLIENT_ID".to_owned(), "OAUTH_VK_TOKEN_URL".to_owned()];
    assert_eq!(provider_names(&keys), vec!["vk"]);
    let p = oauth_provider("vk", vars(Some("https://id.example.com/authorize"))).unwrap();
    assert_eq!(p.name, "vk");
    assert_eq!(p.scope, "");
    assert_eq!(p.id_pointer, "/id");
    assert_eq!(p.email_pointer.as_deref(), Some("/email"));
    assert!(p.trust_email);
    assert!(matches!(
        oauth_provider("vk", vars(None)),
        Err(ConfigError::Missing(n)) if n == "OAUTH_VK_AUTH_URL"
    ));
    assert!(matches!(
        oauth_provider("vk", vars(Some("not a url"))),
        Err(ConfigError::Unparsable { name, raw }) if name == "OAUTH_VK_AUTH_URL" && raw == "not a url"
    ));
    let no_secret = OauthVars { client_secret: None, ..vars(Some("https://id.example.com/a")) };
    assert!(matches!(
        oauth_provider("vk", no_secret),
        Err(ConfigError::Missing(n)) if n == "OAUTH_VK_CLIENT_SECRET"
    ));
}

#[test]
fn operator_commands_are_recognised() {
    let args = |a: &[&str]| a.iter().map(|s| s.to_string()).collect::<Vec<_>>();
    assert!(matches!(parse_command(&args(&["config", "check"])), Command::ConfigCheck));
    assert!(matches!(parse_command(&args(&["promote-admin", "a@b.ru"])), Command::PromoteAdmin(e) if e == "a@b.ru"));
    assert!(matches!(parse_command(&args(&["outbox", "list-failed"])), Command::OutboxListFailed));
    assert!(matches!(parse_command(&args(&["outbox", "retry", "7"])), Command::OutboxRetry(id) if id == "7"));
    assert!(matches!(parse_command(&args(&["outbox"])), Command::Usage));
}

#[test]
fn profile_changes_are_checked() {
    let long = UpdateMe { display_name: Some("я".repeat(101)), locale: None };
    let err = check_profile(&long).unwrap_err();
    assert_eq!(err.key, "error-name-long");
    assert_eq!(err.args, vec![("max", "100".to_owned())]);
    let bad_locale = UpdateMe { display_name: None, locale: Some("de".to_owned()) };
    assert_eq!(check_profile(&bad_locale).unwrap_err().key, "error-unknown-locale");
    let ok = UpdateMe { display_name: Some("  Иван ".to_owned()), locale: Some("en".to_owned()) };
    assert_eq!(check_profile(&ok).unwrap().as_deref(), Some("Иван"));
}

#[test]
fn times_are_rfc3339_in_utc() {
    assert_eq!(rfc3339(0), "1970-01-01T00:00:00Z");
    assert_eq!(rfc3339(1_700_000_000_000_000_000), "2023-11-14T22:13:20Z");
    assert_eq!(rfc3339(i128::MAX), "");
    assert_eq!(decimal_string(0), "0");
    assert_eq!(decimal_string(1234), "1234");
}

#[test]
fn errors_carry_arguments_and_fields() {
    let e = ApiError::validation("error-x").arg("min", "8".to_owned()).field("password");
    assert_eq!(e.status, 422);
    assert_eq!(e.field, Some("password"));
    assert_eq!(e.args, vec![("min", "8".to_owned())]);
    assert_eq!(ApiError::not_found().key, "error-not-found");
    assert_eq!(ApiError::too_many_requests().status, 429);
}

#[test]
fn letters_to_unparsable_recipients_are_dropped() {
    assert!(recipient_ok("ivan@example.com"));
    assert!(recipient_ok("Иван <ivan@example.com>"));
    assert!(!recipient_ok("not an address"));
    assert!(!recipient_ok(""));
}

#[test]
fn letter_id_reads_as_an_i64_does() {
    assert_eq!(letter_id("42"), Some(42));
    assert_eq!(letter_id("+7"), Some(7));
    assert_eq!(letter_id("-3"), Some(-3));
    assert_eq!(letter_id("007"), Some(7));
    assert_eq!(letter_id("9223372036854775807"), Some(i64::MAX));
    assert_eq!(letter_id("-9223372036854775808"), Some(i64::MIN));
    assert_eq!(letter_id("9223372036854775808"), None);
    assert_eq!(letter_id("99999999999999999999999999"), None);
    for bad in ["", "-", "+", " 1", "1 ", "1a", "--1", "один"] {
        assert_eq!(letter_id(bad), bad.parse::<i64>().ok(), "{bad:?}");
    }
}
