use fizzy::board_ui::{
    board_placeholder, board_title_line, card_tile, centered_rect, centering_percents, color_of_name, column_color, column_layout, detail_panel,
    dialog_view, help_line, status_bar_line, Area,
};
use fizzy::browser::{Action, ApiResult, App, AppEvent, CardDetail, Key, Modal, Screen, StatusKind};
use fizzy::models::{Board, Card, Column, ColumnColor, Comment, CommentBody, CommentCard, Step, Timestamp, User};
use fizzy::styled::{Segment, Tone};

fn at(secs: i64) -> Timestamp {
    Timestamp { secs, nanos: 0 }
}

fn user(id: &str, name: &str) -> User {
    User {
        id: id.into(),
        name: name.into(),
        role: "member".into(),
        active: true,
        email_address: None,
        created_at: at(0),
        url: String::new(),
        avatar_url: None,
    }
}

fn board() -> Board {
    Board {
        id: "b1".into(),
        name: "Main".into(),
        all_access: true,
        created_at: at(0),
        auto_postpone_period_in_days: None,
        url: String::new(),
        creator: user("u0", "Owner"),
        public_url: None,
    }
}

fn column(id: &str, name: &str, color: &str) -> Column {
    Column { id: id.into(), name: name.into(), color: ColumnColor::Plain(color.into()), created_at: at(0) }
}

fn card(number: u64, title: &str, col: &Column) -> Card {
    Card {
        id: format!("c{number}"),
        number,
        title: title.into(),
        status: "published".into(),
        description: String::new(),
        description_html: String::new(),
        image_url: None,
        has_attachments: false,
        tags: Vec::new(),
        closed: None,
        postponed: None,
        golden: false,
        last_active_at: at(0),
        created_at: at(0),
        url: String::new(),
        board: board(),
        column: Some(col.clone()),
        creator: user("u0", "Owner"),
        assignees: None,
        has_more_assignees: None,
        comments_url: None,
        reactions_url: None,
        steps: None,
    }
}

fn loaded() -> App {
    let todo = column("k1", "To Do", "Blue");
    let doing = column("k2", "Doing", "lime");
    let mut app = App::new_loading();
    app.handle_event(AppEvent::ApiResult(ApiResult::BoardLoaded {
        board: board(),
        columns: vec![todo.clone(), doing.clone()],
        cards: vec![card(1, "One", &todo), card(2, "Two", &todo), card(3, "Three", &doing)],
        users: vec![user("u1", "Ann Lee"), user("u2", "Bob")],
        my_id: "u1".into(),
        my_name: "Ann Lee".into(),
    }));
    app
}

fn key(app: &mut App, k: Key) -> Option<Action> {
    app.handle_event(AppEvent::Key(k))
}

fn texts(lines: &[Vec<Segment>]) -> Vec<String> {
    lines.iter().map(|l| l.iter().map(|s| s.text.as_str()).collect::<String>()).collect()
}

#[test]
fn loading_then_loaded() {
    let app = App::new_loading();
    assert!(app.loading);
    assert_eq!(app.status_message.as_ref().map(|m| m.0.as_str()), Some("Loading board..."));
    assert_eq!(board_placeholder(&app), Some("Loading...".to_string()));
    let app = loaded();
    assert!(!app.loading);
    assert_eq!(app.scroll_offsets, vec![0, 0]);
    assert_eq!(app.status_message.as_ref().map(|m| m.0.as_str()), Some("Board loaded"));
    assert_eq!(board_placeholder(&app), None);
    assert_eq!(app.cards_in_column(0), vec![0, 1]);
    assert_eq!(app.cards_in_column(1), vec![2]);
    assert_eq!(app.cards_in_column(5), Vec::<usize>::new());
}

#[test]
fn status_message_expires_after_twelve_ticks() {
    let mut app = loaded();
    for _ in 0..12 {
        app.handle_event(AppEvent::Tick);
        assert!(app.status_message.is_some());
    }
    app.handle_event(AppEvent::Tick);
    assert!(app.status_message.is_none());
    assert_eq!(app.status_ticks, 0);
}

#[test]
fn navigation_stays_in_range() {
    let mut app = loaded();
    key(&mut app, Key::Down);
    assert_eq!(app.selected_card, 1);
    key(&mut app, Key::Char('j'));
    assert_eq!(app.selected_card, 1);
    key(&mut app, Key::Char('l'));
    assert_eq!(app.selected_column, 1);
    assert_eq!(app.selected_card, 0);
    key(&mut app, Key::Right);
    assert_eq!(app.selected_column, 1);
    key(&mut app, Key::Left);
    key(&mut app, Key::Left);
    assert_eq!(app.selected_column, 0);
    assert_eq!(app.selected_card_ref(), Some(0));
}

#[test]
fn enter_asks_for_the_card_and_esc_goes_back() {
    let mut app = loaded();
    assert_eq!(key(&mut app, Key::Enter), Some(Action::LoadCardDetail { number: 1 }));
    app.handle_event(AppEvent::ApiResult(ApiResult::CardDetailLoaded { card: card(1, "One", &column("k1", "To Do", "Blue")), comments: vec![] }));
    assert_eq!(app.view, Screen::CardDetail);
    key(&mut app, Key::Down);
    key(&mut app, Key::Down);
    key(&mut app, Key::Up);
    assert_eq!(app.card_detail.as_ref().map(|d| d.scroll), Some(1));
    key(&mut app, Key::Esc);
    assert_eq!(app.view, Screen::Board);
    assert!(app.card_detail.is_none());
}

#[test]
fn moving_a_card_through_the_picker() {
    let mut app = loaded();
    key(&mut app, Key::Char('m'));
    assert!(matches!(app.modal, Some(Modal::ColumnPicker { selected: 0, .. })));
    key(&mut app, Key::Down);
    key(&mut app, Key::Down);
    assert!(matches!(app.modal, Some(Modal::ColumnPicker { selected: 1, .. })));
    let a = key(&mut app, Key::Enter);
    assert_eq!(a, Some(Action::MoveCard { number: 1, column_id: "k2".into(), column_name: "Doing".into() }));
    assert!(app.modal.is_none());
    assert_eq!(app.cards[0].column.as_ref().map(|c| c.id.as_str()), Some("k2"));
}

#[test]
fn assigning_and_commenting() {
    let mut app = loaded();
    key(&mut app, Key::Char('a'));
    key(&mut app, Key::Char('j'));
    assert_eq!(
        key(&mut app, Key::Enter),
        Some(Action::ToggleAssignment { number: 1, user_id: "u2".into(), user_name: "Bob".into() })
    );
    key(&mut app, Key::Char('c'));
    key(&mut app, Key::Char('h'));
    key(&mut app, Key::Char('x'));
    key(&mut app, Key::Backspace);
    key(&mut app, Key::Char('i'));
    assert!(matches!(&app.modal, Some(Modal::CommentInput { buffer }) if buffer == "hi"));
    assert_eq!(key(&mut app, Key::Enter), Some(Action::AddComment { number: 1, body: "hi".into() }));
    key(&mut app, Key::Char('c'));
    assert_eq!(key(&mut app, Key::Enter), None);
    assert!(app.modal.is_none());
}

#[test]
fn no_users_loaded_is_reported() {
    let mut app = loaded();
    app.users.clear();
    key(&mut app, Key::Char('a'));
    assert!(app.modal.is_none());
    assert_eq!(app.status_message.as_ref().map(|m| (m.0.as_str(), m.1)), Some(("No users loaded", StatusKind::Error)));
}

#[test]
fn golden_toggle_twice_restores() {
    let mut app = loaded();
    assert_eq!(key(&mut app, Key::Char('g')), Some(Action::SetGolden { number: 1, was_golden: false }));
    assert!(app.cards[0].golden);
    assert_eq!(key(&mut app, Key::Char('g')), Some(Action::SetGolden { number: 1, was_golden: true }));
    assert!(!app.cards[0].golden);
}

#[test]
fn refresh_runs_once_at_a_time() {
    let mut app = loaded();
    assert_eq!(key(&mut app, Key::Char('r')), Some(Action::Refresh { board_id: "b1".into() }));
    assert!(app.loading);
    assert_eq!(key(&mut app, Key::Char('r')), None);
    app.handle_event(AppEvent::ApiResult(ApiResult::Refreshed { columns: vec![column("k1", "To Do", "blue")], cards: vec![] }));
    assert!(!app.loading);
    assert_eq!(app.scroll_offsets, vec![0]);
    app.handle_event(AppEvent::ApiResult(ApiResult::Error("Refresh failed: x".into())));
    assert_eq!(app.status_message.as_ref().map(|m| m.1), Some(StatusKind::Error));
}

#[test]
fn help_and_quit() {
    let mut app = loaded();
    key(&mut app, Key::Char('?'));
    assert!(matches!(app.modal, Some(Modal::Help)));
    key(&mut app, Key::Char('x'));
    assert!(matches!(app.modal, Some(Modal::Help)));
    key(&mut app, Key::Esc);
    assert!(app.modal.is_none());
    key(&mut app, Key::Char('q'));
    assert!(app.should_quit);
}

#[test]
fn column_colors_ignore_case() {
    assert_eq!(column_color(&ColumnColor::Plain("BLUE".into())), (100, 149, 237));
    assert_eq!(column_color(&ColumnColor::Structured { name: "Grey".into(), value: "#999".into() }), (140, 140, 155));
    assert_eq!(column_color(&ColumnColor::Plain("magenta".into())), (180, 180, 190));
    assert_eq!(color_of_name("lime"), (130, 200, 80));
    assert_eq!(color_of_name("Lime"), (180, 180, 190));
}

#[test]
fn card_tiles() {
    let todo = column("k1", "To Do", "Blue");
    let mut c = card(12, "A rather long card title", &todo);
    c.golden = true;
    c.tags = vec!["ui".into(), "after-3".into(), "api".into(), "db".into()];
    c.assignees = Some(vec![user("u1", "ann lee"), user("u2", "bob"), user("u3", "cy")]);
    let all = vec![card(3, "Three", &todo)];
    let t = card_tile(&c, 20, false, &all);
    assert_eq!(t.style, Tone::Plain);
    let l = texts(&t.lines);
    assert_eq!(l[0], "★ #12 A rather lo…");
    assert_eq!(t.lines[0][0].tone, Tone::GoldenAccent);
    assert_eq!(l[1], " @AL,B #ui #api ✗#3");
    assert_eq!(t.lines[1][3].tone, Tone::BlockedIndicator);
    assert_eq!(l[2], "─".repeat(20));
    let t = card_tile(&c, 100, true, &[]);
    assert_eq!(t.style, Tone::SelectedCard);
    assert_eq!(t.lines[0][0].tone, Tone::Plain);
    assert!(texts(&t.lines)[1].ends_with(" ✓"));
    assert_eq!(texts(&t.lines)[2], "─".repeat(60));
}

#[test]
fn column_window_follows_the_selection() {
    let todo = column("k1", "To Do", "Blue");
    let mut app = App::new_loading();
    app.handle_event(AppEvent::ApiResult(ApiResult::BoardLoaded {
        board: board(),
        columns: vec![todo.clone()],
        cards: (1..=10).map(|n| card(n, "c", &todo)).collect(),
        users: vec![],
        my_id: String::new(),
        my_name: String::new(),
    }));
    for _ in 0..7 {
        key(&mut app, Key::Down);
    }
    let l = column_layout(&app, 0, 9);
    assert_eq!(l.title, " To Do (10) ");
    assert_eq!(l.header, Tone::ColumnHeader(100, 149, 237));
    assert_eq!(l.border, Tone::BorderSelected);
    assert_eq!(l.scroll, 5);
    assert_eq!(l.shown, vec![5, 6, 7]);
    assert!(l.more_above && l.more_below);
}

#[test]
fn column_too_short_for_a_tile_shows_none() {
    let todo = column("k1", "To Do", "Blue");
    let mut app = App::new_loading();
    app.handle_event(AppEvent::ApiResult(ApiResult::BoardLoaded {
        board: board(),
        columns: vec![todo.clone()],
        cards: (1..=4).map(|n| card(n, "c", &todo)).collect(),
        users: vec![],
        my_id: String::new(),
        my_name: String::new(),
    }));
    key(&mut app, Key::Down);
    let l = column_layout(&app, 0, 2);
    assert_eq!(l.scroll, 0);
    assert!(l.shown.is_empty());
    assert!(!l.more_above && l.more_below);
}

#[test]
fn status_bar_and_title() {
    let mut app = loaded();
    assert_eq!(texts(&[status_bar_line(&app)]), vec![" Board loaded"]);
    assert_eq!(status_bar_line(&app)[0].tone, Tone::StatusSuccess);
    app.status_message = None;
    let hints = status_bar_line(&app);
    assert_eq!(hints.len(), 20);
    assert_eq!(hints[0].text, " h/l");
    assert_eq!(texts(&[board_title_line(&app)]), vec![" Main   3 cards"]);
}

#[test]
fn detail_panel_scrolls() {
    let todo = column("k1", "To Do", "Blue");
    let mut c = card(4, "Four", &todo);
    c.description = "line one\nline two".into();
    c.steps = Some(vec![Step { id: "s".into(), content: "do".into(), completed: true }]);
    let comment = Comment {
        id: "m".into(),
        created_at: at(0),
        updated_at: at(0),
        body: CommentBody { plain_text: "hello".into(), html: String::new() },
        creator: user("u1", "Ann"),
        card: CommentCard { id: "c".into(), url: String::new() },
        reactions_url: String::new(),
        url: String::new(),
    };
    let d = CardDetail { card: c, comments: vec![comment], scroll: 0 };
    let p = detail_panel(&d, &at(7200));
    assert_eq!(p.title, " #4 Four ");
    assert_eq!(texts(&p.lines), vec![
        "", " Column:   To Do", " Created:  2h ago", "", " ─── Description ───", " line one", " line two", "",
        " ─── Steps ───", " [✓] do", "", " ─── Comments (1) ───", " Ann · 2h ago", "   hello", "",
    ]);
    assert_eq!(p.footer.len(), 12);
    let d2 = CardDetail { scroll: 13, ..d };
    assert_eq!(texts(&detail_panel(&d2, &at(7200)).lines), vec!["   hello", ""]);
}

#[test]
fn dialogs() {
    let d = dialog_view(&Modal::ColumnPicker { options: vec![column("a", "One", "blue"), column("b", "Two", "blue")], selected: 1 });
    assert_eq!((d.width_pct, d.height_pct), (40, 50));
    assert_eq!(d.title, " Move to column ");
    assert_eq!(texts(&d.lines), vec!["", "   One", " ▶ Two"]);
    assert_eq!(d.lines[2][0].tone, Tone::SelectedCard);
    let d = dialog_view(&Modal::CommentInput { buffer: "hey".into() });
    assert_eq!(texts(&d.lines), vec!["", " > hey█"]);
    let d = dialog_view(&Modal::Help);
    assert_eq!(d.lines.len(), 17);
    assert_eq!(texts(&[help_line("Esc", "Go back")]), vec!["       Esc  Go back"]);
}

#[test]
fn dialogs_are_centered() {
    let r = centered_rect(50, 50, Area { x: 0, y: 0, width: 100, height: 40 });
    assert_eq!(r, Area { x: 25, y: 10, width: 50, height: 20 });
}

#[test]
fn status_lasts_twelve_ticks_then_ticks_change_nothing() {
    let mut app = loaded();
    for j in 1..=12u32 {
        app.handle_event(AppEvent::Tick);
        assert_eq!(app.status_message.as_ref().map(|(m, _)| m.as_str()), Some("Board loaded"));
        assert_eq!(app.status_ticks, j);
    }
    app.handle_event(AppEvent::Tick);
    assert!(app.status_message.is_none());
    assert_eq!(app.status_ticks, 0);
    app.handle_event(AppEvent::Tick);
    assert!(app.status_message.is_none());
    assert_eq!(app.status_ticks, 0);
}

#[test]
fn dialogs_are_centered_by_percent() {
    assert_eq!(centering_percents(80), (10, 80, 10));
    assert_eq!(centering_percents(85), (7, 85, 7));
    assert_eq!(centering_percents(100), (0, 100, 0));
}
