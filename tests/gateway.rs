use lemmy_autodelete::{
    deserialize_date, profile_page_path, Api, Comment, ConfigError, Configuration, DeletedState, Post,
    PostIdBody, Timestamp,
};

fn config(username: &str) -> Configuration {
    Configuration {
        username: username.to_string(),
        lemmy_token: "tok".to_string(),
        days_to_keep: 14,
        keep_favourites: false,
        keep_upvotes: false,
        keep_downvotes: false,
        edit_then_delete: true,
        edit_text: "[removed]".to_string(),
        sleep_time: 100,
    }
}

#[test]
fn base_url_from_account_identifier() {
    let api = Api::try_from(&config("alice@example.social")).unwrap();
    assert_eq!(api.format_api_call("post/delete"), "https://example.social/api/v3/post/delete");
}

#[test]
fn base_url_ignores_leading_at_sign() {
    let api = Api::try_from(&config("@alice@example.social")).unwrap();
    assert_eq!(api.format_api_call("comment"), "https://example.social/api/v3/comment");
}

#[test]
fn base_url_takes_text_after_first_at_sign() {
    let api = Api::try_from(&config("bob@host@other")).unwrap();
    assert_eq!(api.format_api_call(""), "https://host@other/api/v3/");
}

#[test]
fn identifier_without_host_is_config_error() {
    assert_eq!(Api::try_from(&config("alice")).err(), Some(ConfigError::InvalidUsername));
    assert_eq!(Api::try_from(&config("@alice")).err(), Some(ConfigError::InvalidUsername));
    assert_eq!(Api::try_from(&config("")).err(), Some(ConfigError::InvalidUsername));
}

#[test]
fn canonical_username_strips_one_at_sign() {
    assert_eq!(config("@alice@example.social").canonical_username(), "alice@example.social");
    assert_eq!(config("alice@example.social").canonical_username(), "alice@example.social");
    assert_eq!(config("@@x").canonical_username(), "@x");
    assert_eq!(config("").canonical_username(), "");
}

#[test]
fn edit_text_and_auth_header() {
    let c = config("alice@example.social");
    assert_eq!(c.encoded_edit_text(), "[removed]");
    assert_eq!(c.auth_header(), "Bearer tok");
}

#[test]
fn feed_page_path() {
    let c = config("@alice@example.social");
    assert_eq!(
        profile_page_path(&c, 12),
        "user?username=alice@example.social&sort=Old&page=12&limit=50&auth=tok"
    );
    assert_eq!(
        profile_page_path(&c, u64::MAX),
        "user?username=alice@example.social&sort=Old&page=18446744073709551615&limit=50&auth=tok"
    );
    assert_eq!(
        profile_page_path(&c, 0),
        "user?username=alice@example.social&sort=Old&page=0&limit=50&auth=tok"
    );
}

#[test]
fn post_id_body_asks_for_deletion() {
    let b = PostIdBody::new(7, "tok".to_string());
    assert_eq!(b, PostIdBody { auth: "tok".to_string(), post_id: 7, deleted: true });
}

#[test]
fn parses_feed_timestamp() {
    let t = deserialize_date("2023-07-01T12:34:56.123456").unwrap();
    assert_eq!(t, Timestamp { secs: 1688214896, nanos: 123456000 });
}

#[test]
fn timestamp_ignores_trailing_text() {
    let t = deserialize_date("1970-01-02T00:00:01.000000Z and more").unwrap();
    assert_eq!(t, Timestamp { secs: 86401, nanos: 0 });
}

#[test]
fn rejects_malformed_timestamp() {
    assert_eq!(deserialize_date("yesterday"), None);
    assert_eq!(deserialize_date("2023-13-01T00:00:00.000000"), None);
    assert_eq!(deserialize_date(""), None);
}

#[test]
fn item_ids_are_decimal() {
    let t = Timestamp { secs: 0, nanos: 0 };
    let c = Comment { id: -42, content: String::new(), removed: false, deleted: DeletedState::NotDeleted, published: t };
    let p = Post { id: 9007, name: String::new(), removed: false, deleted: false, published: t };
    assert_eq!(c.item_id(), "-42");
    let m = Comment { id: i64::MIN, content: String::new(), removed: false, deleted: DeletedState::NotDeleted, published: t };
    assert_eq!(m.item_id(), "-9223372036854775808");
    let z = Post { id: 0, name: String::new(), removed: false, deleted: false, published: t };
    assert_eq!(z.item_id(), "0");
    assert_eq!(p.item_id(), "9007");
}

#[test]
fn short_content_keeps_first_hundred_bytes() {
    let t = Timestamp { secs: 0, nanos: 0 };
    let long: String = "é".repeat(150);
    let c = Comment { id: 1, content: long, removed: false, deleted: DeletedState::NotDeleted, published: t };
    assert_eq!(c.short_content(), "é".repeat(50));
    let odd = format!("a{}", "é".repeat(60));
    let c3 = Comment { id: 1, content: odd, removed: false, deleted: DeletedState::NotDeleted, published: t };
    assert_eq!(c3.short_content(), format!("a{}", "é".repeat(49)));
    let ascii = "x".repeat(250);
    let c4 = Comment { id: 1, content: ascii, removed: false, deleted: DeletedState::NotDeleted, published: t };
    assert_eq!(c4.short_content(), "x".repeat(100));
    let c2 = Comment { id: 1, content: "short".to_string(), removed: false, deleted: DeletedState::NotDeleted, published: t };
    assert_eq!(c2.short_content(), "short");
}
