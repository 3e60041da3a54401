use fizzy::project::ProjectConfig;
use fizzy::models::{AccountWithUser, Board, Timestamp, User};
use fizzy::settings::{merge_session_hook, Json, PRIME_HOOK_COMMAND};
use fizzy::setup::{
    board_not_found_message, default_account, find_board, find_board_by_name, initial_columns, notes_file_content, parent_dir, project_board_name,
    project_file_in, token_account_slug, WORKFLOW_SECTION,
};

fn at() -> Timestamp {
    Timestamp { secs: 0, nanos: 0 }
}

fn user(name: &str) -> User {
    User {
        id: "u".into(),
        name: name.into(),
        role: "owner".into(),
        active: true,
        email_address: None,
        created_at: at(),
        url: String::new(),
        avatar_url: None,
    }
}

fn account(name: &str, slug: &str) -> AccountWithUser {
    AccountWithUser { id: "a".into(), name: name.into(), slug: slug.into(), created_at: at(), user: user("Ann") }
}

fn board(name: &str) -> Board {
    Board {
        id: format!("id-{name}"),
        name: name.into(),
        all_access: true,
        created_at: at(),
        auto_postpone_period_in_days: None,
        url: String::new(),
        creator: user("Ann"),
        public_url: None,
    }
}

#[test]
fn workflow_section_is_written_or_replaced() {
    assert_eq!(notes_file_content(None), format!("{WORKFLOW_SECTION}\n"));
    assert_eq!(notes_file_content(Some("# Notes")), format!("# Notes\n{WORKFLOW_SECTION}\n"));
    let old = "# Notes\n<!-- fz -->old section<!-- fz -->\ntail";
    assert_eq!(notes_file_content(Some(old)), format!("# Notes\n{WORKFLOW_SECTION}\ntail"));
    let open = "head<!-- fz -->unterminated";
    assert_eq!(notes_file_content(Some(open)), format!("head{WORKFLOW_SECTION}"));
    let once = notes_file_content(None);
    assert_eq!(notes_file_content(Some(&once)), format!("\n{WORKFLOW_SECTION}\n"));
}

fn count_prime_hooks(j: &Json) -> usize {
    let Json::Object(root) = j else { return 0 };
    let Some((_, Json::Object(hooks))) = root.iter().find(|(k, _)| k == "hooks") else { return 0 };
    let Some((_, Json::Array(list))) = hooks.iter().find(|(k, _)| k == "SessionStart") else { return 0 };
    list.iter()
        .filter(|h| matches!(h, Json::Object(e) if e.iter().any(|(k, v)| k == "command" && matches!(v, Json::Str(s) if s == PRIME_HOOK_COMMAND))))
        .count()
}

#[test]
fn session_hook_is_added_once() {
    let first = merge_session_hook(None).unwrap();
    assert_eq!(count_prime_hooks(&first), 1);
    let second = merge_session_hook(Some(first)).unwrap();
    assert_eq!(count_prime_hooks(&second), 1);
    let existing = Json::Object(vec![
        ("theme".into(), Json::Str("dark".into())),
        ("hooks".into(), Json::Object(vec![(
            "SessionStart".into(),
            Json::Array(vec![Json::Object(vec![("command".into(), Json::Str("echo; fz prime".into()))])]),
        )])),
    ]);
    let merged = merge_session_hook(Some(existing)).unwrap();
    assert_eq!(count_prime_hooks(&merged), 0);
    let Json::Object(root) = &merged else { panic!() };
    assert_eq!(root.len(), 2);
}

#[test]
fn settings_of_the_wrong_shape_are_refused() {
    assert_eq!(merge_session_hook(Some(Json::Array(vec![]))).err(), Some("settings.json is not a JSON object".to_string()));
    let bad_hooks = Json::Object(vec![("hooks".into(), Json::Null)]);
    assert_eq!(merge_session_hook(Some(bad_hooks)).err(), Some("hooks is not a JSON object".to_string()));
    let bad_list = Json::Object(vec![("hooks".into(), Json::Object(vec![("SessionStart".into(), Json::Bool(true))]))]);
    assert_eq!(merge_session_hook(Some(bad_list)).err(), Some("SessionStart is not an array".to_string()));
}

#[test]
fn init_choices() {
    assert_eq!(project_board_name(Some("Flag"), Some("dir".into())), Ok("Flag".to_string()));
    assert_eq!(project_board_name(None, Some("dir".into())), Ok("dir".to_string()));
    assert_eq!(project_board_name(None, None), Err("Could not determine project name. Use --name.".to_string()));
    let boards = vec![board("a"), board("b"), board("b")];
    assert_eq!(find_board_by_name(&boards, "b"), Some(1));
    assert_eq!(find_board_by_name(&boards, "c"), None);
    let cols = initial_columns();
    assert_eq!(cols[0], ("To Do".to_string(), "var(--color-card-default)".to_string()));
    assert_eq!(cols[1], ("In Progress".to_string(), "var(--color-card-4)".to_string()));
    assert_eq!(cols[2], ("Review".to_string(), "var(--color-card-3)".to_string()));
}

#[test]
fn login_selects_an_account() {
    let one = vec![account("Acme", "/100")];
    assert_eq!(default_account(&one, Some("x")), Some(("100".to_string(), "\nDefault account set to: Acme (100)".to_string())));
    let two = vec![account("Acme", "/100"), account("Beta", "/200")];
    assert_eq!(
        default_account(&two, None),
        Some(("100".to_string(), "\nDefault account set to: Acme (100)\nTo change: fz set account <slug>".to_string()))
    );
    assert_eq!(default_account(&two, Some("200")), None);
    assert_eq!(default_account(&[], None), None);
    assert_eq!(token_account_slug(&two), Ok("100".to_string()));
    assert_eq!(token_account_slug(&[]), Err("No accounts found for this identity.".to_string()));
}

#[test]
fn project_file_search_paths() {
    assert_eq!(project_file_in("/home/me/app"), "/home/me/app/.fz.toml");
    assert_eq!(project_file_in("/"), "/.fz.toml");
    assert_eq!(parent_dir("/home/me/app"), Some("/home/me".to_string()));
    assert_eq!(parent_dir("/home"), Some("/".to_string()));
    assert_eq!(parent_dir("/"), None);
}

#[test]
fn init_adopts_a_board_by_id_or_name() {
    let boards = vec![board("a"), board("b"), board("id-a")];
    assert_eq!(find_board(&boards, "id-b"), Some(1));
    assert_eq!(find_board(&boards, "b"), Some(1));
    // The ID of the first board matches before the name of the third.
    assert_eq!(find_board(&boards, "id-a"), Some(0));
    assert_eq!(find_board(&boards, "zzz"), None);
    assert_eq!(board_not_found_message("zzz"), "Board not found: zzz");
}

#[test]
fn project_root_of_the_file_in_a_directory() {
    for dir in ["/", "/home/me/app"] {
        assert_eq!(ProjectConfig::project_root(Some(&project_file_in(dir))), Some(dir.to_string()));
    }
    for found in ["/.fz.toml", "/home/me/app/.fz.toml"] {
        let root = ProjectConfig::project_root(Some(found)).unwrap();
        assert_eq!(project_file_in(&root), found);
    }
}
