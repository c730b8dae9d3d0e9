use smeta_check::config::{check_jwt_secret, MIN_JWT_SECRET_LEN};

#[test]
fn short_jwt_secret_is_rejected() {
    assert!(check_jwt_secret("короткий").is_err());
    assert!(check_jwt_secret(&"a".repeat(MIN_JWT_SECRET_LEN)).is_ok());
}
