use smeta_check::auth::sessions::describe_client;

#[test]
fn client_description_is_short_and_readable() {
    let chrome_mac = "Mozilla/5.0 (Macintosh; Intel Mac OS X 10_15_7) AppleWebKit/537.36 \
                      (KHTML, like Gecko) Chrome/120.0 Safari/537.36";
    assert_eq!(describe_client(chrome_mac).as_deref(), Some("Chrome, macOS"));
    let edge = "Mozilla/5.0 (Windows NT 10.0) Chrome/120.0 Safari/537.36 Edg/120.0";
    assert_eq!(describe_client(edge).as_deref(), Some("Edge, Windows"));
    assert_eq!(describe_client("curl/8.4.0"), None);
}
