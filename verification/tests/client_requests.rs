use fizzy::client::{
    access_token_request, check_status, make_client, request_failed_message, next_page_url, parse_link_next, pending_auth_cookie,
    session_cookie, FizzyClient,
};
use fizzy::config::{Config, ConfigError};
use fizzy::requests::{
    card_create_body, card_update_body, cards_path, color_name_to_var, color_var_of, column_create_body, column_update_body,
    paragraph, split_trimmed, webhook_create_body, webhook_update_body,
};

fn config(token: Option<&str>, account: Option<&str>) -> Config {
    Config { base_url: None, account: account.map(|s| s.to_string()), token: token.map(|s| s.to_string()), board: None }
}

#[test]
fn client_from_configuration() {
    let c = FizzyClient::new(&config(Some("tk"), Some("123")), None, None, None, None, None).unwrap();
    assert_eq!(c.base_url(), "https://app.fizzy.do");
    assert_eq!(c.account_slug(), "123");
    assert_eq!(c.account_url("/boards"), "https://app.fizzy.do/123/boards");
    assert_eq!(c.global_url("/my/identity"), "https://app.fizzy.do/my/identity");
    let o = FizzyClient::new(&config(Some("tk"), Some("123")), Some("9"), Some("http://h"), None, None, None).unwrap();
    assert_eq!(o.account_url("/x"), "http://h/9/x");
    assert_eq!(
        FizzyClient::new(&config(None, Some("1")), None, None, None, None, None).err(),
        Some(ConfigError::NotLoggedIn)
    );
    let u = FizzyClient::new_unscoped(&config(Some("t"), None), None, Some("http://env".into()), None).unwrap();
    assert_eq!(u.account_slug(), "");
    assert_eq!(u.base_url(), "http://env");
}

#[test]
fn make_client_needs_an_account_then_a_token() {
    assert_eq!(make_client(&config(Some("t"), None), None, None, None, None, None).err(), Some(ConfigError::NoAccount));
    assert_eq!(make_client(&config(None, Some("1")), None, None, None, None, None).err(), Some(ConfigError::NotLoggedIn));
    assert!(make_client(&config(Some("t"), None), Some("5"), None, None, None, None).is_ok());
    assert!(make_client(&config(None, None), None, None, None, Some("t".into()), Some("1".into())).is_ok());
}

#[test]
fn authorization_header() {
    assert_eq!(FizzyClient::with_token("http://h", "abc").authorization(), Some("Bearer abc".to_string()));
    assert_eq!(FizzyClient::unauthenticated("http://h").authorization(), None);
    assert_eq!(FizzyClient::with_token("http://h", "a\nb").authorization(), None);
    let h = FizzyClient::with_token("http://h", "abc").default_headers();
    assert_eq!(h.len(), 3);
    assert_eq!(h[0], ("accept".to_string(), "application/json".to_string()));
    assert_eq!(h[1], ("user-agent".to_string(), "fz/0.1.0".to_string()));
    assert_eq!(h[2], ("authorization".to_string(), "Bearer abc".to_string()));
    assert_eq!(FizzyClient::unauthenticated("http://h").default_headers().len(), 2);
}

#[test]
fn statuses_are_read() {
    assert_eq!(check_status(200), Ok(()));
    assert_eq!(check_status(204), Ok(()));
    assert_eq!(check_status(401), Err("Authentication failed. Run `fz login` to authenticate.".to_string()));
    assert_eq!(check_status(403), Err("Permission denied.".to_string()));
    assert_eq!(check_status(404), Err("Not found.".to_string()));
    assert_eq!(check_status(422), Err("Validation error.".to_string()));
    assert_eq!(check_status(429), Err("Rate limited. Try again later.".to_string()));
    assert_eq!(check_status(500), Err("Request failed with status 500 Internal Server Error".to_string()));
    assert_eq!(check_status(302), Err("Request failed with status 302 Found".to_string()));
    assert_eq!(check_status(599), Err("Request failed with status 599 <unknown status code>".to_string()));
}

#[test]
fn link_header_next_page() {
    let link = "<https://x/cards?page=1>; rel=\"prev\", <https://x/cards?page=3>; rel=\"next\"";
    assert_eq!(parse_link_next(Some(link)), Some("https://x/cards?page=3".to_string()));
    assert_eq!(parse_link_next(Some("<https://x/a>; rel=\"prev\"")), None);
    assert_eq!(parse_link_next(None), None);
    assert_eq!(next_page_url(true, Some("u".into())), Some("u".to_string()));
    assert_eq!(next_page_url(false, Some("u".into())), None);
}

#[test]
fn login_request_pieces() {
    assert_eq!(pending_auth_cookie("p1"), "pending_authentication_token=p1");
    assert_eq!(session_cookie("s1"), "session_token=s1");
    let r = access_token_request();
    assert_eq!(r.access_token.description, "fz CLI");
    assert_eq!(r.access_token.permission, "write");
    assert_eq!(FizzyClient::unauthenticated("http://h").access_tokens_url("77"), "http://h/77/my/access_tokens");
}

#[test]
fn card_list_paths() {
    assert_eq!(cards_path(None, None, None, None, None, None), "/cards");
    assert_eq!(
        cards_path(Some("b1"), Some("u1"), Some("t1"), Some("closed"), Some("newest"), Some("fix  login bug")),
        "/cards?board_ids[]=b1&assignee_ids[]=u1&tag_ids[]=t1&indexed_by=closed&sorted_by=newest&terms[]=fix&terms[]=login&terms[]=bug"
    );
    assert_eq!(cards_path(None, None, None, None, None, Some("  ")), "/cards");
}

#[test]
fn card_bodies() {
    let c = card_create_body("T", Some("hello"), Some("a, b ,c"), true);
    assert_eq!(c.card.title, "T");
    assert_eq!(c.card.description.as_deref(), Some("<p>hello</p>"));
    assert_eq!(c.card.status.as_deref(), Some("drafted"));
    assert_eq!(c.card.tag_ids, Some(vec!["a".to_string(), "b".to_string(), "c".to_string()]));
    let c = card_create_body("T", None, None, false);
    assert!(c.card.description.is_none() && c.card.status.is_none() && c.card.tag_ids.is_none());
    let u = card_update_body(Some("N".into()), Some("d".into()));
    assert_eq!(u.card.title.as_deref(), Some("N"));
    assert_eq!(u.card.description.as_deref(), Some("<p>d</p>"));
    assert_eq!(paragraph(""), "<p></p>");
}

#[test]
fn webhook_bodies() {
    assert_eq!(split_trimmed(" card_published , comment_created"), vec!["card_published", "comment_created"]);
    let w = webhook_create_body("CI", "https://ci", "a,b");
    assert_eq!(w.webhook.subscribed_actions, vec!["a".to_string(), "b".to_string()]);
    let u = webhook_update_body(None, Some("x".into()));
    assert_eq!(u.webhook.subscribed_actions, Some(vec!["x".to_string()]));
    assert!(webhook_update_body(Some("n".into()), None).webhook.subscribed_actions.is_none());
}

#[test]
fn column_colors_become_variables() {
    assert_eq!(color_name_to_var("Blue"), "var(--color-card-default)");
    assert_eq!(color_name_to_var("GREY"), "var(--color-card-1)");
    assert_eq!(color_name_to_var("pink"), "var(--color-card-8)");
    assert_eq!(color_name_to_var("VAR(--X)"), "var(--x)");
    assert_eq!(column_create_body("Todo", Some("Lime".into())).column.color.as_deref(), Some("var(--color-card-4)"));
    assert!(column_update_body(None, None).column.color.is_none());
}

#[test]
fn messages_and_colors_from_given_texts() {
    assert_eq!(request_failed_message("418 I'm a teapot"), "Request failed with status 418 I'm a teapot");
    assert_eq!(color_var_of("pink".to_string()), "var(--color-card-8)");
    assert_eq!(color_var_of("Pink".to_string()), "Pink");
    assert_eq!(color_name_to_var("PINK"), "var(--color-card-8)");
}
