use fizzy::agent::{
    blocked_summary, card_summary, check_claimable, col_name, dep_tag_title, deps_satisfied,
    find_account, find_column, format_deps, format_tags_without_deps, has_plan_reaction, is_assigned,
    is_blocked, is_dep_tag, is_open, is_ready, my_user_id, parse_deps, plan_comment, plan_comment_request,
    plan_text, posted_plan_comment,
    ready_indices, resolve_board_id, unsatisfied_deps, Notice,
};
use fizzy::config::{Config, ConfigError};
use fizzy::models::{
    AccountWithUser, Board, Card, Column, ColumnColor, Comment, CommentBody, CommentCard, Reaction, Timestamp, User,
};
use fizzy::project::ProjectConfig;

fn ts() -> Timestamp {
    Timestamp { secs: 1_700_000_000, nanos: 0 }
}

fn user(id: &str, name: &str) -> User {
    User {
        id: id.to_string(),
        name: name.to_string(),
        role: "member".to_string(),
        active: true,
        email_address: None,
        created_at: ts(),
        url: String::new(),
        avatar_url: None,
    }
}

fn column(id: &str, name: &str) -> Column {
    Column { id: id.to_string(), name: name.to_string(), color: ColumnColor::Plain("Blue".to_string()), created_at: ts() }
}

fn board() -> Board {
    Board {
        id: "b1".to_string(),
        name: "Main".to_string(),
        all_access: true,
        created_at: ts(),
        auto_postpone_period_in_days: None,
        url: String::new(),
        creator: user("u0", "Owner"),
        public_url: None,
    }
}

fn card(number: u64, title: &str, tags: &[&str], col: Option<Column>) -> Card {
    Card {
        id: format!("c{number}"),
        number,
        title: title.to_string(),
        status: "published".to_string(),
        description: String::new(),
        description_html: String::new(),
        image_url: None,
        has_attachments: false,
        tags: tags.iter().map(|t| t.to_string()).collect(),
        closed: None,
        postponed: None,
        golden: false,
        last_active_at: ts(),
        created_at: ts(),
        url: String::new(),
        board: board(),
        column: col,
        creator: user("u0", "Owner"),
        assignees: None,
        has_more_assignees: None,
        comments_url: None,
        reactions_url: None,
        steps: None,
    }
}

fn tags(v: &[&str]) -> Vec<String> {
    v.iter().map(|s| s.to_string()).collect()
}

#[test]
fn parse_deps_reads_after_tags_only() {
    assert_eq!(parse_deps(&tags(&["after-3", "bug", "after-12", "after-x", "after-", "later-4"])), vec![3, 12]);
    assert_eq!(parse_deps(&tags(&["after-+7"])), vec![7]);
    assert!(parse_deps(&[]).is_empty());
}

#[test]
fn deps_satisfied_when_dependency_not_open() {
    let c = card(5, "Five", &["after-3"], None);
    let open = vec![card(4, "Four", &[], None)];
    assert!(deps_satisfied(&c, &open));
    let open = vec![card(3, "Three", &[], None)];
    assert!(!deps_satisfied(&c, &open));
    assert_eq!(unsatisfied_deps(&c, &open), vec![3]);
}

#[test]
fn satisfied_iff_no_unsatisfied_on_examples() {
    let c = card(9, "Nine", &["after-1", "after-2"], None);
    for open in [vec![], vec![card(1, "a", &[], None)], vec![card(2, "b", &[], None), card(1, "a", &[], None)]] {
        assert_eq!(deps_satisfied(&c, &open), unsatisfied_deps(&c, &open).is_empty());
    }
}

#[test]
fn readiness_depends_on_column_assignees_and_deps() {
    let todo = column("k1", "To Do");
    let doing = column("k2", "In Progress");
    let a = card(1, "A", &[], Some(todo.clone()));
    let b = card(2, "B", &["after-1"], Some(column("k1", "to do")));
    let c = card(3, "C", &[], Some(doing));
    let mut d = card(4, "D", &[], None);
    d.assignees = Some(vec![user("u1", "Ann")]);
    let mut e = card(5, "E", &[], None);
    e.closed = Some(true);
    let all = vec![a, b, c, d, e];
    assert!(is_ready(&all[0], &all));
    assert!(!is_ready(&all[1], &all));
    assert!(is_blocked(&all[1], &all));
    assert!(!is_ready(&all[2], &all));
    assert!(!is_ready(&all[3], &all));
    assert!(!is_open(&all[4]));
    for c in &all {
        assert!(!(is_ready(c, &all) && is_blocked(c, &all)));
    }
}

#[test]
fn column_name_falls_back_to_triage() {
    assert_eq!(col_name(&card(1, "A", &[], None)), "triage");
    assert_eq!(col_name(&card(1, "A", &[], Some(column("k", "Review")))), "Review");
}

#[test]
fn tags_and_deps_formatting() {
    assert_eq!(format_tags_without_deps(&tags(&["bug", "after-2", "ui"])), " #bug #ui");
    assert_eq!(format_tags_without_deps(&tags(&["after-2"])), "");
    assert_eq!(format_tags_without_deps(&tags(&["after-party", "bug"])), " #after-party #bug");
    assert!(is_dep_tag("after-12"));
    assert!(!is_dep_tag("after-party"));
    assert_eq!(format_deps(&tags(&["after-2", "bug", "after-10"])), " (after #2, #10)");
    assert_eq!(format_deps(&tags(&["bug"])), "");
}

fn comment(id: &str, text: &str) -> Comment {
    Comment {
        id: id.into(),
        created_at: ts(),
        updated_at: ts(),
        body: CommentBody { plain_text: text.into(), html: String::new() },
        creator: user("u1", "Ann"),
        card: CommentCard { id: "c".into(), url: String::new() },
        reactions_url: String::new(),
        url: String::new(),
    }
}

fn reaction(content: &str) -> Reaction {
    Reaction { id: "r".into(), content: content.into(), reacter: user("u1", "Ann"), url: String::new() }
}

#[test]
fn plan_is_the_latest_marked_comment() {
    let comments = vec![comment("m1", "old plan"), comment("m2", "chat"), comment("m3", "new plan")];
    let reactions = vec![vec![reaction("💡")], vec![reaction("👍")], vec![reaction("👍"), reaction("💡")]];
    assert!(has_plan_reaction(&reactions[2]));
    assert!(!has_plan_reaction(&reactions[1]));
    assert_eq!(plan_comment(&reactions), Some(2));
    assert_eq!(plan_text(&comments, &reactions), Some("new plan".to_string()));
    let none: Vec<Vec<Reaction>> = vec![vec![], vec![reaction("👍")], vec![]];
    assert_eq!(plan_text(&comments, &none), None);
}

#[test]
fn setting_a_plan_then_reading_it_back() {
    let request = plan_comment_request("1. do it");
    assert_eq!(request.comment.body, "1. do it");
    let mut comments = vec![comment("m1", "1. do it"), comment("m2", "chat")];
    comments.push(comment("m3", "1. do it"));
    let posted = posted_plan_comment(&comments, "1. do it").unwrap();
    assert_eq!(comments[posted].id, "m3");
    let mut reactions: Vec<Vec<Reaction>> = comments.iter().map(|_| Vec::new()).collect();
    reactions[posted].push(reaction("💡"));
    assert_eq!(plan_text(&comments, &reactions), Some("1. do it".to_string()));
    assert_eq!(posted_plan_comment(&comments, "other"), None);
}

#[test]
fn user_of_the_active_account() {
    let accounts = vec![
        AccountWithUser { id: "a1".into(), name: "One".into(), slug: "/111".into(), created_at: ts(), user: user("u1", "Ann") },
        AccountWithUser { id: "a2".into(), name: "Two".into(), slug: "//222".into(), created_at: ts(), user: user("u2", "Bob") },
    ];
    assert_eq!(find_account(&accounts, "222"), Some(1));
    assert_eq!(my_user_id(&accounts, "111"), Ok(("u1".to_string(), "Ann".to_string())));
    assert_eq!(my_user_id(&accounts, "333"), Err("No user found for account /333".to_string()));
}

#[test]
fn columns_are_found_ignoring_ascii_case() {
    let cols = vec![column("k1", "To Do"), column("k2", "In Progress")];
    assert_eq!(find_column(&cols, "in progress"), Some(1));
    assert_eq!(find_column(&cols, "Review"), None);
}

#[test]
fn claiming_a_closed_card_is_refused() {
    let mut c = card(8, "Eight", &[], None);
    assert_eq!(check_claimable(&c, 8), Ok(()));
    c.closed = Some(true);
    assert_eq!(check_claimable(&c, 8), Err("Card #8 is closed.".to_string()));
}

#[test]
fn assignment_is_detected() {
    let mut c = card(1, "A", &[], None);
    assert!(!is_assigned(&c, "u1"));
    c.assignees = Some(vec![user("u2", "Bob"), user("u1", "Ann")]);
    assert!(is_assigned(&c, "u1"));
}

#[test]
fn dependency_tag_round_trips() {
    let t = dep_tag_title(42);
    assert_eq!(t, "after-42");
    let mut ts = tags(&["bug"]);
    ts.push(t);
    assert_eq!(parse_deps(&ts), vec![42]);
}

#[test]
fn summaries_carry_the_card_facts() {
    let mut c = card(7, "Seven", &["after-3", "x"], Some(column("k", "To Do")));
    c.assignees = Some(vec![user("u1", "Ann")]);
    let s = card_summary(&c);
    assert_eq!(s.number, 7);
    assert_eq!(s.column, "To Do");
    assert_eq!(s.deps, vec![3]);
    assert_eq!(s.assignees, vec!["Ann".to_string()]);
    assert!(s.blocked_by.is_none());
    let all = vec![card(3, "Three", &[], None)];
    assert_eq!(blocked_summary(&c, &all).blocked_by, Some(vec![3]));
}

#[test]
fn notices_read_as_the_commands_print_them() {
    assert_eq!(Notice::DependsOn { number: 5, depends_on: 3 }.text(), "#5 now depends on #3 (tag: #after-3)");
    assert_eq!(Notice::PlanSet(5).text(), "Plan set on #5 💡");
    assert_eq!(Notice::NoPlan(5).text(), "No plan on #5. Set one with: fz plan 5 \"plan text\"");
    assert_eq!(Notice::Claimed { number: 5, name: "Ann".into() }.text(), "Claimed #5 — assigned to Ann, moved to In Progress.");
    assert_eq!(Notice::ProgressLogged(5).text(), "Progress logged on #5.");
    assert_eq!(Notice::Done(5).text(), "Card #5 done.");
    assert_eq!(Notice::MovedToReview(5).text(), "Card #5 moved to Review.");
    assert_eq!(Notice::ReviewCommentOnly(5).text(), "Card #5 comment added (no Review column found).");
}

#[test]
fn board_is_resolved_flag_then_project_then_global() {
    let project = ProjectConfig { board_id: Some("p".into()), account: None };
    let global = Config { base_url: None, account: None, token: None, board: Some("g".into()) };
    assert_eq!(resolve_board_id(Some("f"), &project, &global), Ok("f".to_string()));
    assert_eq!(resolve_board_id(None, &project, &global), Ok("p".to_string()));
    let empty = ProjectConfig { board_id: None, account: None };
    assert_eq!(resolve_board_id(None, &empty, &global), Ok("g".to_string()));
    let none = Config { base_url: None, account: None, token: None, board: None };
    assert_eq!(resolve_board_id(None, &empty, &none), Err(ConfigError::NoBoard));
}

#[test]
fn dependent_card_waits_until_its_dependency_closes() {
    let dependent = card(15, "Needs 12", &["after-12"], None);
    let dependency = card(12, "First", &[], None);
    let board_cards = vec![dependent, dependency];
    assert_eq!(ready_indices(&board_cards), vec![1]);
    assert!(is_blocked(&board_cards[0], &board_cards));
    // Card 12 closed: the open-card list no longer holds it.
    let after_close = vec![card(15, "Needs 12", &["after-12"], None)];
    assert_eq!(ready_indices(&after_close), vec![0]);
    assert!(!is_blocked(&after_close[0], &after_close));
}
