use fizzy::briefing::{blocked_lines, prime_lines, ready_lines, task_brief_lines, whoami_lines};
use fizzy::models::{
    AccountWithUser, Board, Card, Column, ColumnColor, Comment, CommentBody, CommentCard, Reaction, Step, Tag,
    Timestamp, User, Webhook,
};
use fizzy::output::{
    account_rows, board_detail_lines, board_detail_lines_at, board_rows, card_detail_lines, card_detail_lines_at,
    card_rows, column_rows, comment_lines, comment_lines_at, reaction_lines, relative_time, relative_time_at, tag_rows, user_detail_lines, user_detail_lines_at, user_rows,
    webhook_detail_lines, webhook_detail_lines_at,
    webhook_rows,
};
use fizzy::requests::{column_filter, in_column};
use fizzy::styled::{Segment, Tone};

fn at(secs: i64) -> Timestamp {
    Timestamp { secs, nanos: 0 }
}

fn user(id: &str, name: &str) -> User {
    User {
        id: id.to_string(),
        name: name.to_string(),
        role: "admin".to_string(),
        active: true,
        email_address: Some(format!("{id}@x.io")),
        created_at: at(0),
        url: format!("https://x/{id}"),
        avatar_url: None,
    }
}

fn board() -> Board {
    Board {
        id: "b1".into(),
        name: "Main".into(),
        all_access: false,
        created_at: at(0),
        auto_postpone_period_in_days: Some(30),
        url: "https://x/b1".into(),
        creator: user("u0", "Owner"),
        public_url: None,
    }
}

fn column(id: &str, name: &str) -> Column {
    Column { id: id.into(), name: name.into(), color: ColumnColor::Plain("Lime".into()), created_at: at(0) }
}

fn card(number: u64, title: &str, tags: &[&str], col: Option<Column>) -> Card {
    Card {
        id: format!("c{number}"),
        number,
        title: title.into(),
        status: "published".into(),
        description: String::new(),
        description_html: String::new(),
        image_url: None,
        has_attachments: false,
        tags: tags.iter().map(|t| t.to_string()).collect(),
        closed: None,
        postponed: None,
        golden: false,
        last_active_at: at(60),
        created_at: at(0),
        url: format!("https://x/cards/{number}"),
        board: board(),
        column: col,
        creator: user("u0", "Owner"),
        assignees: None,
        has_more_assignees: None,
        comments_url: None,
        reactions_url: None,
        steps: None,
    }
}

fn comment(author: &str, text: &str, secs: i64) -> Comment {
    Comment {
        id: "m".into(),
        created_at: at(secs),
        updated_at: at(secs),
        body: CommentBody { plain_text: text.into(), html: String::new() },
        creator: user("u9", author),
        card: CommentCard { id: "c".into(), url: String::new() },
        reactions_url: String::new(),
        url: String::new(),
    }
}

fn texts(lines: &[Vec<Segment>]) -> Vec<String> {
    lines.iter().map(|l| l.iter().map(|s| s.text.as_str()).collect::<String>()).collect()
}

#[test]
fn relative_times() {
    let dt = at(1_000_000);
    assert_eq!(relative_time_at(&dt, &at(1_000_000 - 5)), "just now");
    assert_eq!(relative_time_at(&dt, &Timestamp { secs: 999_999, nanos: 500_000_000 }), "0s ago");
    assert_eq!(relative_time_at(&dt, &at(1_000_042)), "42s ago");
    assert_eq!(relative_time_at(&dt, &at(1_000_000 + 59 * 60)), "59m ago");
    assert_eq!(relative_time_at(&dt, &at(1_000_000 + 5 * 3600)), "5h ago");
    assert_eq!(relative_time_at(&dt, &at(1_000_000 + 3 * 86400)), "3d ago");
    assert_eq!(relative_time_at(&dt, &at(1_000_000 + 65 * 86400)), "2mo ago");
    assert_eq!(relative_time_at(&dt, &at(1_000_000 + 800 * 86400)), "2y ago");
    assert_eq!(relative_time(&at(i64::MIN / 2)).unwrap().ends_with("y ago"), true);
    assert_eq!(fizzy::output::instant_of(5, 7), Some(Timestamp { secs: 5, nanos: 7 }));
    assert_eq!(fizzy::output::instant_of(8_210_266_876_800, 0), None);
    let now = fizzy::output::current_instant().unwrap();
    assert!(now.is_displayable() && now.secs > 1_600_000_000);
}

#[test]
fn listing_tables() {
    let now = at(120);
    let accounts = vec![AccountWithUser { id: "a".into(), name: "Acme".into(), slug: "/1".into(), created_at: at(0), user: user("u1", "Ann") }];
    assert_eq!(account_rows(&accounts), vec![vec!["NAME", "SLUG", "ROLE", "USER"], vec!["Acme", "/1", "admin", "Ann"]]);
    assert_eq!(board_rows(&[board()], &now)[1], vec!["Main", "selective", "30d", "2m ago"]);
    let c = card(3, "A title that is definitely longer than forty bytes", &["x", "y"], None);
    assert_eq!(card_rows(&[c], &now)[1], vec!["3", "A title that is definitely longer tha...", "Main", "--", "#x #y", "2m ago"]);
    assert_eq!(card_rows(&[card(4, "t", &[], Some(column("k", "To Do")))], &now)[1][3..5], ["To Do", "--"]);
    assert_eq!(column_rows(&[column("k1", "Todo")])[1], vec!["k1", "Todo", "Lime"]);
    let mut u = user("u2", "Bob");
    u.email_address = None;
    u.active = false;
    assert_eq!(user_rows(&[u])[1], vec!["Bob", "admin", "--", "no"]);
    let t = Tag { id: "t1".into(), title: "bug".into(), created_at: at(0), url: String::new() };
    assert_eq!(tag_rows(&[t], &now)[1], vec!["#bug", "t1", "2m ago"]);
}

fn webhook() -> Webhook {
    Webhook {
        id: "w1".into(),
        name: "CI".into(),
        payload_url: "https://ci.example.com/hooks/fizzy/very/long/path".into(),
        active: true,
        signing_secret: "s".into(),
        subscribed_actions: vec!["card_published".into(), "card_closed".into()],
        created_at: at(0),
        url: String::new(),
        board: board(),
    }
}

#[test]
fn webhooks_are_listed_and_shown() {
    assert_eq!(
        webhook_rows(&[webhook()])[1],
        vec!["w1", "CI", "https://ci.example.com/hooks/fizzy/ve...", "yes", "card_published, card_closed"]
    );
    let lines = texts(&webhook_detail_lines(&webhook()));
    assert_eq!(lines[0], "CI");
    assert_eq!(lines[5], "Secret:  s");
    assert_eq!(lines[6], "Actions: card_published, card_closed");
    assert_eq!(lines[8], "Created: 1970-01-01 00:00:00 UTC");
}

#[test]
fn card_detail_view() {
    let mut c = card(12, "Fix it", &["bug"], Some(column("k", "Review")));
    c.closed = Some(true);
    c.golden = true;
    c.assignees = Some(vec![user("u1", "Ann"), user("u2", "Bob")]);
    c.description = "Details".into();
    c.steps = Some(vec![Step { id: "s1".into(), content: "Write test".into(), completed: true }]);
    let lines = card_detail_lines(&c);
    let t = texts(&lines);
    assert_eq!(t[0], "#12 Fix it");
    assert_eq!(lines[0][0].tone, Tone::Bold);
    assert_eq!(t[1], "━".repeat(50));
    assert_eq!(t[3], "Column:   Review (Lime)");
    assert_eq!(t[5], "Tags:     #bug");
    assert_eq!(t[6], "Assigned: Ann, Bob");
    assert_eq!(t[8], "Closed:   yes");
    assert_eq!(lines[8][1].tone, Tone::Red);
    assert_eq!(t[9], "Golden:   yes");
    assert_eq!(t[10], "Created:  1970-01-01 00:00:00 UTC");
    assert_eq!(t[11], "Active:   1970-01-01 00:01:00 UTC");
    assert_eq!(t[14], "Details");
    assert_eq!(t[16], "Steps:");
    assert_eq!(t[17], "  [x] Write test (s1)");
    assert_eq!(lines[17][1].tone, Tone::Dimmed);
}

#[test]
fn other_details() {
    let b = texts(&board_detail_lines(&board()));
    assert_eq!(b, vec![
        "Main", "─".repeat(40).as_str(), "ID:       b1", "Access:   selective", "Entropy:  30 days", "Creator:  Owner",
        "Created:  1970-01-01 00:00:00 UTC", "URL:      https://x/b1",
    ]);
    let u = texts(&user_detail_lines(&user("u1", "Ann")));
    assert_eq!(u[4], "Active:  true");
    assert_eq!(u[5], "Email:   u1@x.io");
}

#[test]
fn comments_and_reactions() {
    assert_eq!(texts(&comment_lines(&[])), vec!["No comments."]);
    let t = texts(&comment_lines(&[comment("Ann", "hi", 0)]));
    assert_eq!(t, vec!["Ann  ·  1970-01-01 00:00:00 UTC", "  hi", ""]);
    assert_eq!(texts(&reaction_lines(&[])), vec!["No reactions."]);
    let r = Reaction { id: "r1".into(), content: "👍".into(), reacter: user("u1", "Ann"), url: String::new() };
    assert_eq!(texts(&reaction_lines(&[r])), vec!["👍 Ann (r1)"]);
}

fn accounts() -> Vec<AccountWithUser> {
    vec![
        AccountWithUser { id: "a1".into(), name: "Acme".into(), slug: "/100".into(), created_at: at(0), user: user("u1", "Ann") },
        AccountWithUser { id: "a2".into(), name: "Beta".into(), slug: "/200".into(), created_at: at(0), user: user("u2", "Ann B") },
    ]
}

#[test]
fn whoami_marks_the_active_account() {
    assert_eq!(
        whoami_lines(&accounts(), "200"),
        vec!["Acme: Ann (admin) — user_id: u1", "Beta (active): Ann B (admin) — user_id: u2"]
    );
}

fn board_cards() -> Vec<Card> {
    let todo = column("k1", "To Do");
    let mut mine = card(1, "Mine", &["after-3"], Some(column("k2", "In Progress")));
    mine.assignees = Some(vec![user("u1", "Ann")]);
    vec![
        mine,
        card(2, "Free", &["ui"], Some(todo.clone())),
        card(3, "Dep", &[], Some(todo.clone())),
        card(4, "Waits", &["after-3", "after-9"], Some(todo)),
    ]
}

#[test]
fn ready_and_blocked_reports() {
    let all = board_cards();
    assert_eq!(ready_lines(&all), vec!["Cards ready for pickup:", "  #2 Free [To Do] #ui", "  #3 Dep [To Do]"]);
    assert_eq!(blocked_lines(&all), vec!["Blocked cards:", "  #1 Mine — blocked by #3", "  #4 Waits — blocked by #3"]);
    assert_eq!(ready_lines(&[]), vec!["No cards ready for pickup."]);
    assert_eq!(blocked_lines(&[]), vec!["No blocked cards."]);
}

#[test]
fn prime_context() {
    let all = board_cards();
    let mine = vec![all[0].clone_for_test()];
    let lines = prime_lines(&board(), "u1", "Ann", &[column("k1", "To Do"), column("k2", "Done")], &mine, &all);
    assert_eq!(lines[0], "# Fizzy Context");
    assert_eq!(lines[1], "Board: Main (b1)");
    assert_eq!(lines[2], "You: Ann (u1)");
    assert_eq!(lines[3], "Columns: To Do → Done");
    assert_eq!(lines[5], "## Your active cards:");
    assert_eq!(lines[6], "  #1 Mine [In Progress] (after #3)");
    assert_eq!(lines[8], "## Ready for pickup:");
    assert_eq!(lines[12], "## Blocked:");
    assert_eq!(lines[13], "  #1 Mine — waiting on #3");
    assert_eq!(lines.last().unwrap(), "  fz dep <n> <dep>   — add dependency (#after-N tag)");
}

trait CloneForTest {
    fn clone_for_test(&self) -> Card;
}

impl CloneForTest for Card {
    fn clone_for_test(&self) -> Card {
        let mut c = card(self.number, &self.title, &[], None);
        c.tags = self.tags.clone();
        c.column = self.column.clone();
        c.assignees = self.assignees.clone();
        c
    }
}

fn reaction(content: &str) -> Reaction {
    Reaction { id: "r".into(), content: content.into(), reacter: user("u1", "Ann"), url: String::new() }
}

#[test]
fn task_brief() {
    let mut c = card(7, "Ship", &["after-2", "api"], None);
    c.description = "Intro".into();
    c.steps = Some(vec![Step { id: "s".into(), content: "one".into(), completed: false }]);
    let comments: Vec<Comment> = (1..=7).map(|i| comment(if i == 3 { "System" } else { "Ann" }, &format!("c{i}"), 0)).collect();
    let mut reactions: Vec<Vec<Reaction>> = comments.iter().map(|_| Vec::new()).collect();
    let lines = task_brief_lines(&c, &comments, &reactions, 7);
    assert_eq!(lines, vec![
        "---", "# Task #7: Ship", "", "Intro", "", "Tags: #api", "Depends on: #2 (completed)", "",
        "Steps:", "  [ ] one", "", "Recent comments:", "  Ann — c2", "  Ann — c4", "  Ann — c5", "  Ann — c6", "  Ann — c7",
        "",
        "No plan yet. Enter plan mode (`/plan`) to design your approach, then:",
        "  `fz progress 7 \"message\"` → `fz done 7`",
    ].into_iter().map(|s| s.to_string()).collect::<Vec<_>>());
    reactions[1].push(reaction("💡"));
    let lines = task_brief_lines(&c, &comments, &reactions, 7);
    assert_eq!(lines[18], "Plan exists (💡 comment). Implement it, then:");
}

#[test]
fn cards_are_filtered_by_column_name_or_id() {
    let doing = column("col-2", "In Progress");
    let todo = column("col-1", "To Do");
    let cards = vec![
        card(1, "a", &[], Some(todo)),
        card(2, "b", &[], Some(doing.clone())),
        card(3, "c", &[], None),
        card(4, "d", &[], Some(doing)),
    ];
    assert_eq!(column_filter(&cards, "in progress"), vec![1, 3]);
    assert_eq!(column_filter(&cards, "col-1"), vec![0]);
    assert_eq!(column_filter(&cards, "Done"), Vec::<usize>::new());
    assert!(!in_column(&cards[2], "triage"));
}

#[test]
fn views_take_the_date_text_they_are_given() {
    let c = card(3, "T", &[], None);
    let t = texts(&card_detail_lines_at(&c, "yesterday", "today"));
    assert!(t.contains(&"Created:  yesterday".to_string()));
    assert!(t.contains(&"Active:   today".to_string()));
    assert_eq!(texts(&board_detail_lines_at(&board(), "then"))[6], "Created:  then");
    assert_eq!(texts(&user_detail_lines_at(&user("u1", "Ann"), "then"))[6], "Created: then");
    assert_eq!(texts(&webhook_detail_lines_at(&webhook(), "then"))[8], "Created: then");
    let t = texts(&comment_lines_at(&[comment("Ann", "hi", 0)], &["noon".to_string()]));
    assert_eq!(t, vec!["Ann  ·  noon", "  hi", ""]);
}
