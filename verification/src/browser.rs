//! The state machine of the interactive board browser: what each key press and each
//! reply from the API does to the state, and which request, if any, it starts.
//!
//! The caller draws the state, reads keys, performs the [`Action`]s (they are requests to
//! the API) and hands back each outcome as an [`ApiResult`].
use vstd::prelude::*;

use crate::agent::{indices_where, lemma_indices_where};
use crate::models::{Board, Card, Column, Comment, User};
use crate::text::{concat, dec_seq, push_char, push_str, push_u64, str_eq};

verus! {

/// The screen the browser shows.
#[derive(Clone, Copy, Debug, PartialEq, Eq, Structural)]
pub enum Screen {
    Board,
    CardDetail,
}

/// The card opened in the detail view, with its comments and how far it is scrolled.
#[derive(Debug)]
pub struct CardDetail {
    pub card: Card,
    pub comments: Vec<Comment>,
    pub scroll: usize,
}

/// A dialog over the board.
#[derive(Debug)]
pub enum Modal {
    ColumnPicker { options: Vec<Column>, selected: usize },
    AssignPicker { options: Vec<User>, selected: usize },
    CommentInput { buffer: String },
    Help,
}

/// The kind of a status message.
#[derive(Clone, Copy, Debug, PartialEq, Eq, Structural)]
pub enum StatusKind {
    Info,
    Success,
    Error,
}

/// A key press.
#[derive(Clone, Copy, Debug, PartialEq, Eq, Structural)]
pub enum Key {
    Left,
    Right,
    Up,
    Down,
    Enter,
    Esc,
    Backspace,
    Char(char),
    Other,
}

/// The outcome of a request to the API.
#[derive(Debug)]
pub enum ApiResult {
    BoardLoaded {
        board: Board,
        columns: Vec<Column>,
        cards: Vec<Card>,
        users: Vec<User>,
        my_id: String,
        my_name: String,
    },
    CardDetailLoaded { card: Card, comments: Vec<Comment> },
    MutationDone { message: String },
    Refreshed { columns: Vec<Column>, cards: Vec<Card> },
    Error(String),
}

/// What reaches the browser: a key, a resize, a reply, or the clock.
#[derive(Debug)]
pub enum AppEvent {
    Key(Key),
    Resize,
    ApiResult(ApiResult),
    Tick,
    Other,
}

/// A request that the browser asks the caller to make.
#[derive(Debug, PartialEq, Eq)]
pub enum Action {
    /// Load a card and its comments.
    LoadCardDetail { number: u64 },
    /// Mark (`was_golden == false`) or unmark a card as golden.
    SetGolden { number: u64, was_golden: bool },
    /// Move a card to a column.
    MoveCard { number: u64, column_id: String, column_name: String },
    /// Toggle a user's assignment to a card.
    ToggleAssignment { number: u64, user_id: String, user_name: String },
    /// Comment on a card.
    AddComment { number: u64, body: String },
    /// Reload the columns and cards of a board.
    Refresh { board_id: String },
}

/// The state of the browser.
#[derive(Debug)]
pub struct App {
    pub board: Option<Board>,
    pub columns: Vec<Column>,
    pub cards: Vec<Card>,
    pub users: Vec<User>,
    pub my_user_id: String,
    pub my_user_name: String,
    pub selected_column: usize,
    pub selected_card: usize,
    pub scroll_offsets: Vec<usize>,
    pub view: Screen,
    pub card_detail: Option<CardDetail>,
    pub modal: Option<Modal>,
    pub status_message: Option<(String, StatusKind)>,
    pub status_ticks: u32,
    pub loading: bool,
    pub should_quit: bool,
}

/// The number of ticks a status message stays: it goes at the thirteenth.
pub const STATUS_TICKS: u32 = 12;

/// The card is in the column with id `col_id`.
pub open spec fn in_column(card: Card, col_id: Seq<char>) -> bool {
    match card.column {
        Some(c) => c.id@ == col_id,
        None => false,
    }
}

/// `n - 1`, or zero (`usize::saturating_sub(1)`).
pub open spec fn pred(n: int) -> int {
    if n > 0 {
        n - 1
    } else {
        0
    }
}

impl App {
    /// The positions in `cards` of the cards in column `col`, in order; none for a column
    /// that does not exist.
    pub open spec fn col_cards(self, col: int) -> Seq<usize> {
        if 0 <= col < self.columns@.len() {
            indices_where(
                self.cards@.len() as int,
                |i: int| in_column(self.cards@[i], self.columns@[col].id@),
            )
        } else {
            Seq::empty()
        }
    }

    /// The position in `cards` of the selected card, if there is one.
    pub open spec fn selected_index(self) -> Option<usize> {
        let cs = self.col_cards(self.selected_column as int);
        if self.selected_card < cs.len() {
            Some(cs[self.selected_card as int])
        } else {
            None
        }
    }

    /// What the browser keeps true: a status message goes after at most twelve ticks and
    /// the counter rests at zero without one; a picker's selection is one of its options;
    /// the detail view shows exactly when a card is open; the selection and the scroll
    /// offsets fit in an `i32`.
    pub open spec fn wf(self) -> bool {
        &&& self.status_ticks <= STATUS_TICKS
        &&& self.status_message is None ==> self.status_ticks == 0
        &&& match self.modal {
            Some(Modal::ColumnPicker { options, selected }) => selected < options@.len(),
            Some(Modal::AssignPicker { options, selected }) => selected < options@.len(),
            _ => true,
        }
        &&& (self.view == Screen::CardDetail) == (self.card_detail is Some)
        &&& self.selected_column < i32::MAX
        &&& self.selected_card < i32::MAX
        &&& forall|i: int| 0 <= i < self.scroll_offsets@.len() ==> #[trigger] self.scroll_offsets@[i] < i32::MAX
    }

    /// What an event needs of the state: counts that fit in an `i32`, and room to scroll
    /// the detail view one more line.
    pub open spec fn event_ok(self) -> bool {
        &&& self.cards@.len() <= i32::MAX
        &&& self.columns@.len() <= i32::MAX
        &&& self.card_detail matches Some(d) ==> d.scroll < usize::MAX
    }

    /// The status shows `msg` as `kind`, with the counter restarted.
    pub open spec fn shows(self, msg: Seq<char>, kind: StatusKind) -> bool {
        &&& self.status_message matches Some((m, k)) && m@ == msg && k == kind
        &&& self.status_ticks == 0
    }

    /// The browser while the board loads.
    pub fn new_loading() -> (a: Self)
        ensures
            a.wf(),
            a.board is None,
            a.columns@.len() == 0,
            a.cards@.len() == 0,
            a.users@.len() == 0,
            a.selected_column == 0,
            a.selected_card == 0,
            a.scroll_offsets@.len() == 0,
            a.view == Screen::Board,
            a.card_detail is None,
            a.modal is None,
            a.shows("Loading board..."@, StatusKind::Info),
            a.loading,
            !a.should_quit,
    {
        App {
            board: None,
            columns: Vec::new(),
            cards: Vec::new(),
            users: Vec::new(),
            my_user_id: String::new(),
            my_user_name: String::new(),
            selected_column: 0,
            selected_card: 0,
            scroll_offsets: Vec::new(),
            view: Screen::Board,
            card_detail: None,
            modal: None,
            status_message: Some(("Loading board...".to_owned(), StatusKind::Info)),
            status_ticks: 0,
            loading: true,
            should_quit: false,
        }
    }

    /// The positions in `cards` of the cards in column `col_index`, in order.
    pub fn cards_in_column(&self, col_index: usize) -> (r: Vec<usize>)
        ensures
            r@ == self.col_cards(col_index as int),
            forall|k: int| 0 <= k < r@.len() ==> #[trigger] r@[k] < self.cards@.len(),
    {
        if col_index >= self.columns.len() {
            return Vec::new();
        }
        let col_id = &self.columns[col_index].id;
        let ghost p = |i: int| in_column(self.cards@[i], self.columns@[col_index as int].id@);
        let mut r: Vec<usize> = Vec::new();
        let n = self.cards.len();
        for i in 0..n
            invariant
                n == self.cards@.len(),
                col_index < self.columns@.len(),
                col_id@ == self.columns@[col_index as int].id@,
                p == (|i: int| in_column(self.cards@[i], self.columns@[col_index as int].id@)),
                r@ == indices_where(i as int, p),
        {
            let hit = match &self.cards[i].column {
                Some(c) => str_eq(c.id.as_str(), col_id.as_str()),
                None => false,
            };
            if hit {
                r.push(i);
            }
        }
        proof {
            lemma_indices_where(n as int, p);
        }
        r
    }

    /// The position in `cards` of the selected card.
    pub fn selected_card_ref(&self) -> (r: Option<usize>)
        ensures
            r == self.selected_index(),
            r matches Some(i) ==> i < self.cards@.len(),
    {
        let cs = self.cards_in_column(self.selected_column);
        if self.selected_card < cs.len() {
            Some(cs[self.selected_card])
        } else {
            None
        }
    }
}


// ---------------------------------------------------------------------------
// Transitions, stated as relations between the state before (`o`) and after (`n`)
// ---------------------------------------------------------------------------

/// The first position in `cards` of a card numbered `number`.
pub open spec fn first_with_number(cards: Seq<Card>, number: u64, i: int) -> Option<int>
    decreases cards.len() - i,
{
    if i < 0 || i >= cards.len() {
        None
    } else if cards[i].number == number {
        Some(i)
    } else {
        first_with_number(cards, number, i + 1)
    }
}

/// The first column with id `id`.
pub open spec fn first_with_id(columns: Seq<Column>, id: Seq<char>, i: int) -> Option<int>
    decreases columns.len() - i,
{
    if i < 0 || i >= columns.len() {
        None
    } else if columns[i].id@ == id {
        Some(i)
    } else {
        first_with_id(columns, id, i + 1)
    }
}

/// The status now shows `msg` as `kind`; nothing else changed.
pub open spec fn status_set(o: App, n: App, msg: Seq<char>, kind: StatusKind) -> bool {
    n.shows(msg, kind) && n == App { status_message: n.status_message, status_ticks: 0, ..o }
}

/// One tick of the clock: a status message ages, and goes after twelve ticks.
pub open spec fn ticked(o: App, n: App) -> bool {
    match o.status_message {
        None => n == o,
        Some(_) => if o.status_ticks + 1 > STATUS_TICKS {
            n == App { status_message: None, status_ticks: 0, ..o }
        } else {
            n == App { status_ticks: (o.status_ticks + 1) as u32, ..o }
        },
    }
}

/// Moving the selection `delta` columns: refused past either end; in the new column the
/// selected card moves up to the last card when it was below it.
pub open spec fn moved_column(o: App, n: App, delta: int) -> bool {
    let new = o.selected_column + delta;
    if o.columns@.len() == 0 || !(0 <= new < o.columns@.len()) {
        n == o
    } else {
        let count = o.col_cards(new).len();
        n == App {
            selected_column: new as usize,
            selected_card: if o.selected_card >= count {
                pred(count as int) as usize
            } else {
                o.selected_card
            },
            ..o
        }
    }
}

/// Moving the selection `delta` cards within the column: refused past either end; the
/// column scrolls up when the selection goes above its first visible card.
pub open spec fn moved_card(o: App, n: App, delta: int) -> bool {
    let count = o.col_cards(o.selected_column as int).len();
    let new = o.selected_card + delta;
    let col = o.selected_column as int;
    if count == 0 || !(0 <= new < count) {
        n == o
    } else {
        &&& n == App { selected_card: new as usize, scroll_offsets: n.scroll_offsets, ..o }
        &&& n.scroll_offsets@ == if col < o.scroll_offsets@.len() && new < o.scroll_offsets@[col] {
            o.scroll_offsets@.update(col, new as usize)
        } else {
            o.scroll_offsets@
        }
    }
}

/// Opening the selected card asks for its details.
pub open spec fn opened_detail(o: App, n: App, a: Option<Action>) -> bool {
    n == o && match o.selected_index() {
        None => a is None,
        Some(i) => a == Some(Action::LoadCardDetail { number: o.cards@[i as int].number }),
    }
}

/// With a card selected, the column picker opens on the first of all the columns.
pub open spec fn opened_column_picker(o: App, n: App) -> bool {
    match o.selected_index() {
        None => n == o,
        Some(_) => {
            &&& n.modal matches Some(Modal::ColumnPicker { options, selected }) && options@ == o.columns@
                && selected == 0
            &&& n == App { modal: n.modal, ..o }
        },
    }
}

/// With a card selected, the assignment picker opens on the first of the users, or the
/// status says that no users are loaded.
pub open spec fn opened_assign_picker(o: App, n: App) -> bool {
    match o.selected_index() {
        None => n == o,
        Some(_) => if o.users@.len() == 0 {
            status_set(o, n, "No users loaded"@, StatusKind::Error)
        } else {
            &&& n.modal matches Some(Modal::AssignPicker { options, selected }) && options@ == o.users@
                && selected == 0
            &&& n == App { modal: n.modal, ..o }
        },
    }
}

/// With a card selected, an empty comment box opens.
pub open spec fn opened_comment_input(o: App, n: App) -> bool {
    match o.selected_index() {
        None => n == o,
        Some(_) => {
            &&& n.modal matches Some(Modal::CommentInput { buffer }) && buffer@.len() == 0
            &&& n == App { modal: n.modal, ..o }
        },
    }
}

/// Toggling golden flips the flag of the first card with the selected card's number at
/// once, and asks to mark or unmark it.
pub open spec fn toggled_golden(o: App, n: App, a: Option<Action>) -> bool {
    match o.selected_index() {
        None => n == o && a is None,
        Some(i) => {
            let number = o.cards@[i as int].number;
            let was = o.cards@[i as int].golden;
            let k = first_with_number(o.cards@, number, 0).unwrap();
            &&& n == App { cards: n.cards, ..o }
            &&& n.cards@ == o.cards@.update(k, Card { golden: !was, ..o.cards@[k] })
            &&& a == Some(Action::SetGolden { number, was_golden: was })
        },
    }
}

/// A refresh, unless one is running: the status says "Refreshing...", and with a board
/// its columns and cards are asked for.
pub open spec fn refreshed(o: App, n: App, a: Option<Action>) -> bool {
    if o.loading {
        n == o && a is None
    } else {
        &&& n.shows("Refreshing..."@, StatusKind::Info)
        &&& n == App { loading: true, status_message: n.status_message, status_ticks: 0, ..o }
        &&& match o.board {
            None => a is None,
            Some(b) => a matches Some(Action::Refresh { board_id }) && board_id@ == b.id@,
        }
    }
}

/// Moving the selected card to a column: at once the first card with its number shows the
/// first column with that id (or none), and the move is asked for.
pub open spec fn moved_to_column(
    o: App,
    n: App,
    col_id: Seq<char>,
    col_name: Seq<char>,
    a: Option<Action>,
) -> bool {
    match o.selected_index() {
        None => n == o && a is None,
        Some(i) => {
            let number = o.cards@[i as int].number;
            let k = first_with_number(o.cards@, number, 0).unwrap();
            let target = match first_with_id(o.columns@, col_id, 0) {
                Some(j) => Some(o.columns@[j]),
                None => None,
            };
            &&& n == App { cards: n.cards, ..o }
            &&& n.cards@ == o.cards@.update(k, Card { column: target, ..o.cards@[k] })
            &&& a matches Some(Action::MoveCard { number: m, column_id, column_name }) && m == number
                && column_id@ == col_id && column_name@ == col_name
        },
    }
}

/// Assigning the selected card: the toggle is asked for; nothing changes at once.
pub open spec fn asked_assign(o: App, n: App, user_id: Seq<char>, user_name: Seq<char>, a: Option<Action>) -> bool {
    n == o && match o.selected_index() {
        None => a is None,
        Some(i) => a matches Some(Action::ToggleAssignment { number, user_id: u, user_name: un })
            && number == o.cards@[i as int].number && u@ == user_id && un@ == user_name,
    }
}

/// Commenting on the selected card: the comment is asked for; nothing changes at once.
pub open spec fn asked_comment(o: App, n: App, body: Seq<char>, a: Option<Action>) -> bool {
    n == o && match o.selected_index() {
        None => a is None,
        Some(i) => a matches Some(Action::AddComment { number, body: b }) && number
            == o.cards@[i as int].number && b@ == body,
    }
}

/// A key that means `c` or the arrow `k`.
pub open spec fn is_key(key: Key, k: Key, c: char) -> bool {
    key == k || key == Key::Char(c)
}

/// A key on the board.
pub open spec fn board_key_step(o: App, n: App, key: Key, a: Option<Action>) -> bool {
    if is_key(key, Key::Left, 'h') {
        moved_column(o, n, -1) && a is None
    } else if is_key(key, Key::Right, 'l') {
        moved_column(o, n, 1) && a is None
    } else if is_key(key, Key::Up, 'k') {
        moved_card(o, n, -1) && a is None
    } else if is_key(key, Key::Down, 'j') {
        moved_card(o, n, 1) && a is None
    } else if key == Key::Enter {
        opened_detail(o, n, a)
    } else if key == Key::Char('m') {
        opened_column_picker(o, n) && a is None
    } else if key == Key::Char('a') {
        opened_assign_picker(o, n) && a is None
    } else if key == Key::Char('c') {
        opened_comment_input(o, n) && a is None
    } else if key == Key::Char('g') {
        toggled_golden(o, n, a)
    } else if key == Key::Char('r') {
        refreshed(o, n, a)
    } else if key == Key::Char('?') {
        n == App { modal: Some(Modal::Help), ..o } && a is None
    } else if key == Key::Char('q') || key == Key::Esc {
        n == App { should_quit: true, ..o } && a is None
    } else {
        n == o && a is None
    }
}

/// A key in the card view.
pub open spec fn detail_key_step(o: App, n: App, key: Key, a: Option<Action>) -> bool {
    if key == Key::Esc || key == Key::Char('q') {
        n == App { view: Screen::Board, card_detail: None, ..o } && a is None
    } else if is_key(key, Key::Up, 'k') {
        a is None && match o.card_detail {
            Some(d) => n == App { card_detail: Some(CardDetail { scroll: pred(d.scroll as int) as usize, ..d }), ..o },
            None => n == o,
        }
    } else if is_key(key, Key::Down, 'j') {
        a is None && match o.card_detail {
            Some(d) => n == App { card_detail: Some(CardDetail { scroll: (d.scroll + 1) as usize, ..d }), ..o },
            None => n == o,
        }
    } else if key == Key::Char('m') {
        opened_column_picker(o, n) && a is None
    } else if key == Key::Char('a') {
        opened_assign_picker(o, n) && a is None
    } else if key == Key::Char('c') {
        opened_comment_input(o, n) && a is None
    } else if key == Key::Char('g') {
        toggled_golden(o, n, a)
    } else if key == Key::Char('?') {
        n == App { modal: Some(Modal::Help), ..o } && a is None
    } else {
        n == o && a is None
    }
}

/// A key while a dialog is open. The dialog closes on Esc and on a choice; in a picker
/// the arrows (or j and k) move the selection within the options; in the comment box
/// characters are typed and Backspace erases the last one.
pub open spec fn modal_key_step(o: App, n: App, key: Key, a: Option<Action>) -> bool {
    let closed = App { modal: None, ..o };
    match o.modal {
        Some(Modal::ColumnPicker { options, selected }) => if is_key(key, Key::Up, 'k') {
            n == App { modal: Some(Modal::ColumnPicker { options, selected: pred(selected as int) as usize }), ..o }
                && a is None
        } else if is_key(key, Key::Down, 'j') {
            n == App {
                modal: Some(
                    Modal::ColumnPicker {
                        options,
                        selected: if selected + 1 < options@.len() {
                            (selected + 1) as usize
                        } else {
                            selected
                        },
                    },
                ),
                ..o
            } && a is None
        } else if key == Key::Enter {
            moved_to_column(
                closed,
                n,
                options@[selected as int].id@,
                options@[selected as int].name@,
                a,
            )
        } else if key == Key::Esc {
            n == closed && a is None
        } else {
            n == o && a is None
        },
        Some(Modal::AssignPicker { options, selected }) => if is_key(key, Key::Up, 'k') {
            n == App { modal: Some(Modal::AssignPicker { options, selected: pred(selected as int) as usize }), ..o }
                && a is None
        } else if is_key(key, Key::Down, 'j') {
            n == App {
                modal: Some(
                    Modal::AssignPicker {
                        options,
                        selected: if selected + 1 < options@.len() {
                            (selected + 1) as usize
                        } else {
                            selected
                        },
                    },
                ),
                ..o
            } && a is None
        } else if key == Key::Enter {
            asked_assign(closed, n, options@[selected as int].id@, options@[selected as int].name@, a)
        } else if key == Key::Esc {
            n == closed && a is None
        } else {
            n == o && a is None
        },
        Some(Modal::CommentInput { buffer }) => if key == Key::Enter {
            if buffer@.len() > 0 {
                asked_comment(closed, n, buffer@, a)
            } else {
                n == closed && a is None
            }
        } else if key == Key::Esc {
            n == closed && a is None
        } else if key is Char {
            &&& n.modal matches Some(Modal::CommentInput { buffer: b }) && b@ == buffer@.push(key->Char_0)
            &&& n == App { modal: n.modal, ..o }
            &&& a is None
        } else if key == Key::Backspace {
            &&& n.modal matches Some(Modal::CommentInput { buffer: b }) && b@ == if buffer@.len() > 0 {
                buffer@.drop_last()
            } else {
                buffer@
            }
            &&& n == App { modal: n.modal, ..o }
            &&& a is None
        } else {
            n == o && a is None
        },
        Some(Modal::Help) => a is None && if key == Key::Esc || key == Key::Char('q') || key == Key::Char('?') {
            n == closed
        } else {
            n == o
        },
        None => n == o && a is None,
    }
}

/// A key press: to the open dialog, else to the current screen.
pub open spec fn key_step(o: App, n: App, key: Key, a: Option<Action>) -> bool {
    if o.modal is Some {
        modal_key_step(o, n, key, a)
    } else if o.view == Screen::Board {
        board_key_step(o, n, key, a)
    } else {
        detail_key_step(o, n, key, a)
    }
}

/// A reply from the API.
pub open spec fn api_step(o: App, n: App, r: ApiResult) -> bool {
    match r {
        ApiResult::BoardLoaded { board, columns, cards, users, my_id, my_name } => {
            &&& n.shows("Board loaded"@, StatusKind::Success)
            &&& n.scroll_offsets@ == Seq::new(columns@.len(), |i: int| 0usize)
            &&& n == App {
                board: Some(board),
                columns,
                cards,
                users,
                my_user_id: my_id,
                my_user_name: my_name,
                scroll_offsets: n.scroll_offsets,
                loading: false,
                status_message: n.status_message,
                status_ticks: 0,
                ..o
            }
        },
        ApiResult::CardDetailLoaded { card, comments } => n == App {
            card_detail: Some(CardDetail { card, comments, scroll: 0 }),
            view: Screen::CardDetail,
            ..o
        },
        ApiResult::MutationDone { message } => status_set(o, n, message@, StatusKind::Success),
        ApiResult::Refreshed { columns, cards } => {
            &&& n.shows("Refreshed"@, StatusKind::Success)
            &&& n.scroll_offsets@ == if columns@.len() <= o.scroll_offsets@.len() {
                o.scroll_offsets@.take(columns@.len() as int)
            } else {
                o.scroll_offsets@ + Seq::new((columns@.len() - o.scroll_offsets@.len()) as nat, |i: int| 0usize)
            }
            &&& n == App {
                columns,
                cards,
                scroll_offsets: n.scroll_offsets,
                loading: false,
                status_message: n.status_message,
                status_ticks: 0,
                ..o
            }
        },
        ApiResult::Error(msg) => {
            &&& n.shows(msg@, StatusKind::Error)
            &&& n == App { loading: false, status_message: n.status_message, status_ticks: 0, ..o }
        },
    }
}

/// An event.
pub open spec fn event_step(o: App, n: App, e: AppEvent, a: Option<Action>) -> bool {
    match e {
        AppEvent::Key(k) => key_step(o, n, k, a),
        AppEvent::ApiResult(r) => api_step(o, n, r) && a is None,
        AppEvent::Tick => ticked(o, n) && a is None,
        _ => n == o && a is None,
    }
}


// ---------------------------------------------------------------------------
// Helpers
// ---------------------------------------------------------------------------

proof fn lemma_first_with_number(cards: Seq<Card>, number: u64, i: int, j: int)
    requires
        0 <= j <= i < cards.len(),
        cards[i].number == number,
    ensures
        first_with_number(cards, number, j) matches Some(k) && j <= k <= i && cards[k].number == number,
    decreases i - j,
{
    if cards[j].number != number {
        lemma_first_with_number(cards, number, i, j + 1);
    }
}

fn zeros(n: usize) -> (v: Vec<usize>)
    ensures
        v@ == Seq::new(n as nat, |i: int| 0usize),
{
    let mut v: Vec<usize> = Vec::new();
    for i in 0..n
        invariant
            v@ == Seq::new(i as nat, |i: int| 0usize),
    {
        v.push(0);
        assert(v@ =~= Seq::new((i + 1) as nat, |i: int| 0usize));
    }
    v
}

fn resized(v: &Vec<usize>, len: usize) -> (r: Vec<usize>)
    ensures
        r@ == if len <= v@.len() {
            v@.take(len as int)
        } else {
            v@ + Seq::new((len - v@.len()) as nat, |i: int| 0usize)
        },
{
    let mut r: Vec<usize> = Vec::new();
    let keep = if len <= v.len() {
        len
    } else {
        v.len()
    };
    for i in 0..keep
        invariant
            keep <= v@.len(),
            r@ == v@.take(i as int),
    {
        r.push(v[i]);
        assert(r@ =~= v@.take(i + 1));
    }
    let ghost kept = r@;
    for i in keep..len
        invariant
            keep <= len ==> r@ == kept + Seq::new((i - keep) as nat, |i: int| 0usize),
            keep <= i,
    {
        r.push(0);
        assert(r@ =~= kept + Seq::new((i + 1 - keep) as nat, |i: int| 0usize));
    }
    if len <= v.len() {
        assert(r@ =~= v@.take(len as int));
    } else {
        assert(r@ =~= v@ + Seq::new((len - v@.len()) as nat, |i: int| 0usize));
    }
    r
}

fn clone_columns(v: &Vec<Column>) -> (r: Vec<Column>)
    ensures
        r@ == v@,
{
    let mut r: Vec<Column> = Vec::new();
    let n = v.len();
    for i in 0..n
        invariant
            n == v@.len(),
            r@ == v@.take(i as int),
    {
        r.push(v[i].clone());
        assert(r@ =~= v@.take(i + 1));
    }
    assert(v@.take(n as int) =~= v@);
    r
}

fn clone_users(v: &Vec<User>) -> (r: Vec<User>)
    ensures
        r@ == v@,
{
    let mut r: Vec<User> = Vec::new();
    let n = v.len();
    for i in 0..n
        invariant
            n == v@.len(),
            r@ == v@.take(i as int),
    {
        r.push(v[i].clone());
        assert(r@ =~= v@.take(i + 1));
    }
    assert(v@.take(n as int) =~= v@);
    r
}

fn pop_char(s: &String) -> (r: String)
    ensures
        r@ == if s@.len() > 0 {
            s@.drop_last()
        } else {
            s@
        },
{
    let v = crate::text::chars_of(s.as_str());
    if v.len() == 0 {
        return s.clone();
    }
    let r = crate::text::string_of_range(&v, 0, v.len() - 1);
    assert(v@.subrange(0, v@.len() - 1) =~= v@.drop_last());
    r
}

// ---------------------------------------------------------------------------
// The transitions
// ---------------------------------------------------------------------------

/// The scroll offsets after the selection moved: the selected column scrolls up to the
/// selected card when that card is above its first visible one.
pub open spec fn adjusted_offsets(o: App) -> Seq<usize> {
    let col = o.selected_column as int;
    if col < o.scroll_offsets@.len() && o.selected_card < o.scroll_offsets@[col] {
        o.scroll_offsets@.update(col, o.selected_card)
    } else {
        o.scroll_offsets@
    }
}

impl App {
    fn set_status(&mut self, msg: String, kind: StatusKind)
        ensures
            status_set(*old(self), *final(self), msg@, kind),
    {
        self.status_message = Some((msg, kind));
        self.status_ticks = 0;
    }

    /// One tick of the clock (a quarter of a second).
    pub fn tick_status(&mut self)
        requires
            old(self).wf(),
        ensures
            ticked(*old(self), *final(self)),
    {
        if self.status_message.is_some() {
            self.status_ticks = self.status_ticks + 1;
            if self.status_ticks > STATUS_TICKS {
                self.status_message = None;
                self.status_ticks = 0;
            }
        }
    }

    fn move_column(&mut self, delta: i32)
        requires
            old(self).wf(),
            old(self).event_ok(),
        ensures
            moved_column(*old(self), *final(self), delta as int),
    {
        if self.columns.len() == 0 {
            return;
        }
        let new: i64 = self.selected_column as i64 + delta as i64;
        if new >= 0 && (new as usize) < self.columns.len() {
            let col = new as usize;
            let count = self.cards_in_column(col).len();
            self.selected_column = col;
            if self.selected_card >= count {
                self.selected_card = if count > 0 {
                    count - 1
                } else {
                    0
                };
            }
        }
    }

    fn adjust_scroll(&mut self)
        ensures
            *final(self) == (App { scroll_offsets: final(self).scroll_offsets, ..*old(self) }),
            final(self).scroll_offsets@ == adjusted_offsets(*old(self)),
    {
        if self.selected_column >= self.scroll_offsets.len() {
            return;
        }
        let scroll = self.scroll_offsets[self.selected_column];
        if self.selected_card < scroll {
            let c = self.selected_column;
            let v = self.selected_card;
            self.scroll_offsets.set(c, v);
        }
    }

    fn move_card(&mut self, delta: i32)
        requires
            old(self).wf(),
            old(self).event_ok(),
        ensures
            moved_card(*old(self), *final(self), delta as int),
    {
        let count = self.cards_in_column(self.selected_column).len();
        if count == 0 {
            return;
        }
        let new: i64 = self.selected_card as i64 + delta as i64;
        if new >= 0 && (new as usize) < count {
            self.selected_card = new as usize;
            self.adjust_scroll();
        }
    }

    fn find_card_by_number(&self, number: u64) -> (r: Option<usize>)
        ensures
            r matches Some(j) ==> j < self.cards@.len() && first_with_number(self.cards@, number, 0) == Some(j as int),
            match first_with_number(self.cards@, number, 0) {
                Some(k) => r == Some(k as usize),
                None => r is None,
            },
    {
        let n = self.cards.len();
        let mut i: usize = 0;
        while i < n
            invariant
                n == self.cards@.len(),
                i <= n,
                first_with_number(self.cards@, number, 0) == first_with_number(self.cards@, number, i as int),
            decreases n - i,
        {
            if self.cards[i].number == number {
                return Some(i);
            }
            i = i + 1;
        }
        None
    }

    fn find_column_by_id(&self, id: &str) -> (r: Option<usize>)
        ensures
            r matches Some(j) ==> j < self.columns@.len() && first_with_id(self.columns@, id@, 0) == Some(j as int),
            match first_with_id(self.columns@, id@, 0) {
                Some(k) => r == Some(k as usize),
                None => r is None,
            },
    {
        let n = self.columns.len();
        let mut i: usize = 0;
        while i < n
            invariant
                n == self.columns@.len(),
                i <= n,
                first_with_id(self.columns@, id@, 0) == first_with_id(self.columns@, id@, i as int),
            decreases n - i,
        {
            if str_eq(self.columns[i].id.as_str(), id) {
                return Some(i);
            }
            i = i + 1;
        }
        None
    }

    fn open_card_detail(&mut self) -> (a: Option<Action>)
        ensures
            opened_detail(*old(self), *final(self), a),
    {
        match self.selected_card_ref() {
            None => None,
            Some(i) => Some(Action::LoadCardDetail { number: self.cards[i].number }),
        }
    }

    fn open_column_picker(&mut self)
        ensures
            opened_column_picker(*old(self), *final(self)),
    {
        if self.selected_card_ref().is_none() {
            return;
        }
        let options = clone_columns(&self.columns);
        self.modal = Some(Modal::ColumnPicker { options, selected: 0 });
    }

    fn open_assign_picker(&mut self)
        ensures
            opened_assign_picker(*old(self), *final(self)),
    {
        if self.selected_card_ref().is_none() {
            return;
        }
        if self.users.len() == 0 {
            self.set_status("No users loaded".to_owned(), StatusKind::Error);
            return;
        }
        let options = clone_users(&self.users);
        self.modal = Some(Modal::AssignPicker { options, selected: 0 });
    }

    fn open_comment_input(&mut self)
        ensures
            opened_comment_input(*old(self), *final(self)),
    {
        if self.selected_card_ref().is_none() {
            return;
        }
        self.modal = Some(Modal::CommentInput { buffer: String::new() });
    }

    fn toggle_golden(&mut self) -> (a: Option<Action>)
        ensures
            toggled_golden(*old(self), *final(self), a),
    {
        match self.selected_card_ref() {
            None => None,
            Some(i) => {
                let number = self.cards[i].number;
                let was = self.cards[i].golden;
                proof {
                    lemma_first_with_number(self.cards@, number, i as int, 0);
                }
                let k = self.find_card_by_number(number).unwrap();
                let ghost before = self.cards@;
                let mut c = self.cards.remove(k);
                c.golden = !was;
                self.cards.insert(k, c);
                assert(self.cards@ =~= before.update(k as int, Card { golden: !was, ..before[k as int] }));
                Some(Action::SetGolden { number, was_golden: was })
            },
        }
    }

    /// Reloads the board's columns and cards, unless a load is running.
    pub fn refresh(&mut self) -> (a: Option<Action>)
        ensures
            refreshed(*old(self), *final(self), a),
    {
        if self.loading {
            return None;
        }
        self.loading = true;
        self.set_status("Refreshing...".to_owned(), StatusKind::Info);
        match &self.board {
            Some(b) => Some(Action::Refresh { board_id: b.id.clone() }),
            None => None,
        }
    }

    fn execute_move_card(&mut self, column_id: String, column_name: String) -> (a: Option<Action>)
        ensures
            moved_to_column(*old(self), *final(self), column_id@, column_name@, a),
    {
        match self.selected_card_ref() {
            None => None,
            Some(i) => {
                let number = self.cards[i].number;
                proof {
                    lemma_first_with_number(self.cards@, number, i as int, 0);
                }
                let k = self.find_card_by_number(number).unwrap();
                let target = match self.find_column_by_id(column_id.as_str()) {
                    Some(j) => Some(self.columns[j].clone()),
                    None => None,
                };
                let ghost before = self.cards@;
                let ghost t = target;
                let mut c = self.cards.remove(k);
                c.column = target;
                self.cards.insert(k, c);
                assert(self.cards@ =~= before.update(k as int, Card { column: t, ..before[k as int] }));
                assert(t == match first_with_id(self.columns@, column_id@, 0) {
                    Some(j) => Some(self.columns@[j]),
                    None => None,
                });
                assert(k as int == first_with_number(before, number, 0).unwrap());
                Some(Action::MoveCard { number, column_id, column_name })
            },
        }
    }

    fn execute_assign(&mut self, user_id: String, user_name: String) -> (a: Option<Action>)
        ensures
            asked_assign(*old(self), *final(self), user_id@, user_name@, a),
    {
        match self.selected_card_ref() {
            None => None,
            Some(i) => Some(Action::ToggleAssignment { number: self.cards[i].number, user_id, user_name }),
        }
    }

    fn execute_add_comment(&mut self, body: String) -> (a: Option<Action>)
        ensures
            asked_comment(*old(self), *final(self), body@, a),
    {
        match self.selected_card_ref() {
            None => None,
            Some(i) => Some(Action::AddComment { number: self.cards[i].number, body }),
        }
    }
}


impl App {
    fn handle_board_key(&mut self, key: Key) -> (a: Option<Action>)
        requires
            old(self).wf(),
            old(self).event_ok(),
        ensures
            board_key_step(*old(self), *final(self), key, a),
    {
        match key {
            Key::Left | Key::Char('h') => {
                self.move_column(-1);
                None
            },
            Key::Right | Key::Char('l') => {
                self.move_column(1);
                None
            },
            Key::Up | Key::Char('k') => {
                self.move_card(-1);
                None
            },
            Key::Down | Key::Char('j') => {
                self.move_card(1);
                None
            },
            Key::Enter => self.open_card_detail(),
            Key::Char('m') => {
                self.open_column_picker();
                None
            },
            Key::Char('a') => {
                self.open_assign_picker();
                None
            },
            Key::Char('c') => {
                self.open_comment_input();
                None
            },
            Key::Char('g') => self.toggle_golden(),
            Key::Char('r') => self.refresh(),
            Key::Char('?') => {
                self.modal = Some(Modal::Help);
                None
            },
            Key::Char('q') | Key::Esc => {
                self.should_quit = true;
                None
            },
            _ => None,
        }
    }

    fn handle_detail_key(&mut self, key: Key) -> (a: Option<Action>)
        requires
            old(self).wf(),
            old(self).event_ok(),
        ensures
            detail_key_step(*old(self), *final(self), key, a),
    {
        match key {
            Key::Esc | Key::Char('q') => {
                self.view = Screen::Board;
                self.card_detail = None;
                None
            },
            Key::Up | Key::Char('k') => {
                match self.card_detail.take() {
                    Some(mut d) => {
                        d.scroll = if d.scroll > 0 {
                            d.scroll - 1
                        } else {
                            0
                        };
                        self.card_detail = Some(d);
                    },
                    None => {},
                }
                None
            },
            Key::Down | Key::Char('j') => {
                match self.card_detail.take() {
                    Some(mut d) => {
                        d.scroll = d.scroll + 1;
                        self.card_detail = Some(d);
                    },
                    None => {},
                }
                None
            },
            Key::Char('m') => {
                self.open_column_picker();
                None
            },
            Key::Char('a') => {
                self.open_assign_picker();
                None
            },
            Key::Char('c') => {
                self.open_comment_input();
                None
            },
            Key::Char('g') => self.toggle_golden(),
            Key::Char('?') => {
                self.modal = Some(Modal::Help);
                None
            },
            _ => None,
        }
    }

    fn handle_modal_key(&mut self, key: Key) -> (a: Option<Action>)
        requires
            old(self).wf(),
            old(self).modal is Some,
        ensures
            modal_key_step(*old(self), *final(self), key, a),
    {
        let modal = self.modal.take();
        assert(modal == old(self).modal);
        match modal {
            Some(Modal::ColumnPicker { options, selected }) => match key {
                Key::Up | Key::Char('k') => {
                    let s = if selected > 0 {
                        selected - 1
                    } else {
                        0
                    };
                    self.modal = Some(Modal::ColumnPicker { options, selected: s });
                    None
                },
                Key::Down | Key::Char('j') => {
                    let len = options.len();
                    assert(selected < len);
                    let s = if selected + 1 < len {
                        selected + 1
                    } else {
                        selected
                    };
                    self.modal = Some(Modal::ColumnPicker { options, selected: s });
                    None
                },
                Key::Enter => {
                    let id = options[selected].id.clone();
                    let name = options[selected].name.clone();
                    self.execute_move_card(id, name)
                },
                Key::Esc => None,
                _ => {
                    self.modal = Some(Modal::ColumnPicker { options, selected });
                    None
                },
            },
            Some(Modal::AssignPicker { options, selected }) => match key {
                Key::Up | Key::Char('k') => {
                    let s = if selected > 0 {
                        selected - 1
                    } else {
                        0
                    };
                    self.modal = Some(Modal::AssignPicker { options, selected: s });
                    None
                },
                Key::Down | Key::Char('j') => {
                    let len = options.len();
                    assert(selected < len);
                    let s = if selected + 1 < len {
                        selected + 1
                    } else {
                        selected
                    };
                    self.modal = Some(Modal::AssignPicker { options, selected: s });
                    None
                },
                Key::Enter => {
                    let id = options[selected].id.clone();
                    let name = options[selected].name.clone();
                    self.execute_assign(id, name)
                },
                Key::Esc => None,
                _ => {
                    self.modal = Some(Modal::AssignPicker { options, selected });
                    None
                },
            },
            Some(Modal::CommentInput { buffer }) => match key {
                Key::Enter => {
                    if !buffer.as_str().is_empty() {
                        self.execute_add_comment(buffer)
                    } else {
                        None
                    }
                },
                Key::Esc => None,
                Key::Char(c) => {
                    let mut b = buffer;
                    push_char(&mut b, c);
                    self.modal = Some(Modal::CommentInput { buffer: b });
                    None
                },
                Key::Backspace => {
                    let b = pop_char(&buffer);
                    self.modal = Some(Modal::CommentInput { buffer: b });
                    None
                },
                _ => {
                    self.modal = Some(Modal::CommentInput { buffer });
                    None
                },
            },
            Some(Modal::Help) => match key {
                Key::Esc | Key::Char('q') | Key::Char('?') => None,
                _ => {
                    self.modal = Some(Modal::Help);
                    None
                },
            },
            None => None,
        }
    }

    /// A key press: to the open dialog, else to the current screen.
    pub fn handle_key(&mut self, key: Key) -> (a: Option<Action>)
        requires
            old(self).wf(),
            old(self).event_ok(),
        ensures
            key_step(*old(self), *final(self), key, a),
    {
        if self.modal.is_some() {
            return self.handle_modal_key(key);
        }
        match self.view {
            Screen::Board => self.handle_board_key(key),
            Screen::CardDetail => self.handle_detail_key(key),
        }
    }

    /// A reply from the API.
    pub fn handle_api_result(&mut self, result: ApiResult)
        ensures
            api_step(*old(self), *final(self), result),
    {
        match result {
            ApiResult::BoardLoaded { board, columns, cards, users, my_id, my_name } => {
                let n = columns.len();
                self.board = Some(board);
                self.columns = columns;
                self.cards = cards;
                self.users = users;
                self.my_user_id = my_id;
                self.my_user_name = my_name;
                self.scroll_offsets = zeros(n);
                self.loading = false;
                self.set_status("Board loaded".to_owned(), StatusKind::Success);
            },
            ApiResult::CardDetailLoaded { card, comments } => {
                self.card_detail = Some(CardDetail { card, comments, scroll: 0 });
                self.view = Screen::CardDetail;
            },
            ApiResult::MutationDone { message } => {
                self.set_status(message, StatusKind::Success);
            },
            ApiResult::Refreshed { columns, cards } => {
                let n = columns.len();
                self.columns = columns;
                self.cards = cards;
                self.scroll_offsets = resized(&self.scroll_offsets, n);
                self.loading = false;
                self.set_status("Refreshed".to_owned(), StatusKind::Success);
            },
            ApiResult::Error(msg) => {
                self.loading = false;
                self.set_status(msg, StatusKind::Error);
            },
        }
    }

    /// An event: a key, a reply or a tick; returns the request to make, if any.
    pub fn handle_event(&mut self, event: AppEvent) -> (a: Option<Action>)
        requires
            old(self).wf(),
            old(self).event_ok(),
        ensures
            event_step(*old(self), *final(self), event, a),
    {
        match event {
            AppEvent::Key(key) => self.handle_key(key),
            AppEvent::ApiResult(result) => {
                self.handle_api_result(result);
                None
            },
            AppEvent::Tick => {
                self.tick_status();
                None
            },
            _ => None,
        }
    }
}


// ---------------------------------------------------------------------------
// Laws
// ---------------------------------------------------------------------------

proof fn lemma_indices_len(n: int, p: spec_fn(int) -> bool)
    ensures
        indices_where(n, p).len() <= if n > 0 {
            n
        } else {
            0
        },
    decreases n,
{
    if n > 0 {
        lemma_indices_len(n - 1, p);
    }
}

proof fn lemma_col_cards_len(o: App, col: int)
    ensures
        o.col_cards(col).len() <= o.cards@.len(),
        o.col_cards(col).len() > 0 ==> 0 <= col < o.columns@.len(),
{
    if 0 <= col < o.columns@.len() {
        lemma_indices_len(
            o.cards@.len() as int,
            |i: int| in_column(o.cards@[i], o.columns@[col].id@),
        );
    }
}

proof fn lemma_key_keeps_wf(o: App, n: App, key: Key, a: Option<Action>)
    requires
        o.wf(),
        o.event_ok(),
        key_step(o, n, key, a),
    ensures
        n.wf(),
{
    lemma_col_cards_len(o, o.selected_column as int);
    lemma_col_cards_len(o, o.selected_column + 1);
    lemma_col_cards_len(o, o.selected_column - 1);
}

/// Every event keeps the browser's invariant: the status clears within twelve ticks, a
/// picker's selection is always one of its options (so choosing it cannot fail), the
/// detail view shows exactly when a card is open, and the selection stays in range.
pub proof fn law_event_keeps_wf(o: App, n: App, e: AppEvent, a: Option<Action>)
    requires
        o.wf(),
        o.event_ok(),
        event_step(o, n, e, a),
    ensures
        n.wf(),
{
    match e {
        AppEvent::Key(k) => lemma_key_keeps_wf(o, n, k, a),
        _ => {},
    }
}

/// A status message shows for twelve ticks and is gone at the thirteenth: a tick clears
/// it exactly when it has already aged twelve ticks.
pub proof fn law_status_expires(o: App, n: App)
    requires
        o.wf(),
        o.status_message is Some,
        ticked(o, n),
    ensures
        n.status_message is None <==> o.status_ticks == STATUS_TICKS,
        n.status_message is Some ==> n.status_ticks == o.status_ticks + 1,
{
}

/// A status message stays for twelve ticks and goes at the thirteenth, after which ticks
/// change nothing: in a run of states each one tick after the one before, starting with a
/// fresh status, state `j` shows the same status with `j` ticks for `j` up to twelve, and
/// every later state is the one without a status that the thirteenth tick left.
pub proof fn law_status_lasts_twelve_ticks(s: Seq<App>, m: Seq<char>, kind: StatusKind)
    requires
        s.len() > 0,
        s[0].shows(m, kind),
        forall|k: int| 0 <= k < s.len() - 1 ==> ticked(#[trigger] s[k], s[k + 1]),
    ensures
        forall|j: int|
            0 <= j < s.len() && j <= STATUS_TICKS ==> (#[trigger] s[j]).status_message == s[0].status_message
                && s[j].status_ticks == j,
        forall|j: int|
            STATUS_TICKS < j < s.len() ==> (#[trigger] s[j]).status_message is None && s[j].status_ticks == 0
                && s[j] == s[STATUS_TICKS + 1],
    decreases s.len(),
{
    if s.len() > 1 {
        let p = s.drop_last();
        assert forall|k: int| 0 <= k < p.len() - 1 implies ticked(#[trigger] p[k], p[k + 1]) by {
            assert(ticked(s[k], s[k + 1]));
        }
        law_status_lasts_twelve_ticks(p, m, kind);
        let n = s.len() - 1;
        assert(ticked(s[n - 1], s[n]));
        assert(p[n - 1] == s[n - 1]);
        assert forall|j: int| 0 <= j < s.len() && j <= STATUS_TICKS implies (#[trigger] s[j]).status_message
            == s[0].status_message && s[j].status_ticks == j by {
            if j < n {
                assert(p[j] == s[j]);
            }
        }
        assert forall|j: int| STATUS_TICKS < j < s.len() implies (#[trigger] s[j]).status_message is None
            && s[j].status_ticks == 0 && s[j] == s[STATUS_TICKS + 1] by {
            if j < n {
                assert(p[j] == s[j]);
                assert(p[STATUS_TICKS + 1] == s[STATUS_TICKS + 1]);
            } else if n - 1 > STATUS_TICKS {
                assert(p[n - 1] == s[n - 1]);
                assert(p[STATUS_TICKS + 1] == s[STATUS_TICKS + 1]);
            }
        }
    }
}

/// Whether a picker dialog (column picker or assignee picker) is open.
pub open spec fn in_picker(app: App) -> bool {
    app.modal matches Some(Modal::ColumnPicker { .. }) || app.modal matches Some(Modal::AssignPicker { .. })
}

/// The selected option of the open picker.
pub open spec fn picker_selected(app: App) -> int {
    match app.modal {
        Some(Modal::ColumnPicker { selected, .. }) => selected as int,
        Some(Modal::AssignPicker { selected, .. }) => selected as int,
        _ => 0,
    }
}

/// The number of options of the open picker.
pub open spec fn picker_len(app: App) -> int {
    match app.modal {
        Some(Modal::ColumnPicker { options, .. }) => options@.len() as int,
        Some(Modal::AssignPicker { options, .. }) => options@.len() as int,
        _ => 0,
    }
}

/// The state with no dialog.
pub open spec fn without_modal(app: App) -> App {
    App { modal: None, ..app }
}

/// In a picker, Up (or `k`) moves the selection one option up and Down (or `j`) one option
/// down, staying on the first and the last option; neither asks for a request, and each
/// leaves the rest of the state, the dialog's kind and its options as they were.
pub proof fn law_picker_moves_one_option(o: App, n: App, key: Key, a: Option<Action>)
    requires
        in_picker(o),
        event_step(o, n, AppEvent::Key(key), a),
        is_key(key, Key::Up, 'k') || is_key(key, Key::Down, 'j'),
    ensures
        a == None::<Action>,
        in_picker(n),
        picker_len(n) == picker_len(o),
        is_key(key, Key::Up, 'k') && picker_selected(o) > 0 ==> picker_selected(n) == picker_selected(o) - 1,
        is_key(key, Key::Up, 'k') && picker_selected(o) == 0 ==> picker_selected(n) == 0,
        is_key(key, Key::Down, 'j') && picker_selected(o) + 1 < picker_len(o) ==> picker_selected(n)
            == picker_selected(o) + 1,
        is_key(key, Key::Down, 'j') && picker_selected(o) + 1 >= picker_len(o) ==> picker_selected(n)
            == picker_selected(o),
        o.modal matches Some(Modal::ColumnPicker { options, .. }) ==> (n.modal matches Some(
            Modal::ColumnPicker { options: no, .. },
        ) && no == options),
        o.modal matches Some(Modal::AssignPicker { options, .. }) ==> (n.modal matches Some(
            Modal::AssignPicker { options: no, .. },
        ) && no == options),
        without_modal(n) == without_modal(o),
{
    // The options are held in a `Vec`, so their number fits in a `usize`.
    match o.modal {
        Some(Modal::ColumnPicker { options, .. }) => assert(options@.len() == options.len()),
        Some(Modal::AssignPicker { options, .. }) => assert(options@.len() == options.len()),
        _ => {},
    }
}

/// In a picker, Up undoes Down and Down undoes Up: from an option that has one below it,
/// Down then Up comes back to the same state; from an option that has one above it, Up then
/// Down does.
pub proof fn law_picker_up_down_round_trip(
    o: App,
    m: App,
    n: App,
    first: Key,
    second: Key,
    a: Option<Action>,
    b: Option<Action>,
)
    requires
        o.wf(),
        in_picker(o),
        event_step(o, m, AppEvent::Key(first), a),
        event_step(m, n, AppEvent::Key(second), b),
        (is_key(first, Key::Down, 'j') && is_key(second, Key::Up, 'k') && picker_selected(o) + 1
            < picker_len(o)) || (is_key(first, Key::Up, 'k') && is_key(second, Key::Down, 'j')
            && picker_selected(o) > 0),
    ensures
        n == o,
        a == None::<Action>,
        b == None::<Action>,
{
    law_picker_moves_one_option(o, m, first, a);
    law_picker_moves_one_option(m, n, second, b);
    match o.modal {
        Some(Modal::ColumnPicker { options, selected }) => {
            assert(n.modal == Some(Modal::ColumnPicker { options, selected }));
        },
        Some(Modal::AssignPicker { options, selected }) => {
            assert(n.modal == Some(Modal::AssignPicker { options, selected }));
        },
        _ => {},
    }
    assert(n == App { modal: o.modal, ..without_modal(o) });
}

/// In the comment box, Backspace takes back the character just typed.
pub proof fn law_backspace_undoes_typing(o: App, m: App, n: App, c: char, a: Option<Action>, b: Option<Action>)
    requires
        o.modal matches Some(Modal::CommentInput { .. }),
        modal_key_step(o, m, Key::Char(c), a),
        modal_key_step(m, n, Key::Backspace, b),
    ensures
        n.modal matches Some(Modal::CommentInput { buffer }) && (o.modal matches Some(
            Modal::CommentInput { buffer: ob },
        ) && buffer@ == ob@),
        a is None && b is None,
{
    match o.modal {
        Some(Modal::CommentInput { buffer: ob }) => {
            match m.modal {
                Some(Modal::CommentInput { buffer: mb }) => {
                    assert(mb@.drop_last() =~= ob@);
                },
                _ => {},
            }
        },
        _ => {},
    }
}

/// Esc closes any dialog without asking for anything.
pub proof fn law_escape_closes_dialog(o: App, n: App, a: Option<Action>)
    requires
        o.modal is Some,
        modal_key_step(o, n, Key::Esc, a),
    ensures
        n.modal is None,
        a is None,
{
}

proof fn lemma_golden_keeps_columns(o: App, n: App, k: int, g: bool, col: int)
    requires
        0 <= k < o.cards@.len(),
        n == (App { cards: n.cards, ..o }),
        n.cards@ == o.cards@.update(k, Card { golden: g, ..o.cards@[k] }),
    ensures
        n.col_cards(col) == o.col_cards(col),
{
    if 0 <= col < o.columns@.len() {
        let po = |i: int| in_column(o.cards@[i], o.columns@[col].id@);
        let pn = |i: int| in_column(n.cards@[i], n.columns@[col].id@);
        assert forall|i: int| 0 <= i < o.cards@.len() implies #[trigger] po(i) == pn(i) by {
            if i == k {
            }
        }
        lemma_same_indices(o.cards@.len() as int, po, pn);
    }
}

proof fn lemma_same_indices(n: int, p: spec_fn(int) -> bool, q: spec_fn(int) -> bool)
    requires
        forall|i: int| 0 <= i < n ==> #[trigger] p(i) == q(i),
    ensures
        indices_where(n, p) == indices_where(n, q),
    decreases n,
{
    if n > 0 {
        lemma_same_indices(n - 1, p, q);
    }
}

/// Card numbers are distinct.
pub open spec fn numbers_distinct(cards: Seq<Card>) -> bool {
    forall|i: int, j: int| 0 <= i < j < cards.len() ==> #[trigger] cards[i].number != #[trigger] cards[j].number
}

/// Toggling golden twice on the same selection gives every card its flag back, and asks
/// first to mark and then to unmark (or the other way round), when card numbers are
/// distinct, as they are on a board.
pub proof fn law_golden_twice_restores(o: App, m: App, n: App, a: Option<Action>, b: Option<Action>)
    requires
        o.event_ok(),
        numbers_distinct(o.cards@),
        toggled_golden(o, m, a),
        toggled_golden(m, n, b),
    ensures
        n.cards@ == o.cards@,
        a matches Some(Action::SetGolden { was_golden: x, .. }) ==> b matches Some(
            Action::SetGolden { was_golden: y, .. },
        ) && y == !x,
{
    match o.selected_index() {
        None => {},
        Some(i) => {
            let number = o.cards@[i as int].number;
            let was = o.cards@[i as int].golden;
            lemma_col_cards_len(o, o.selected_column as int);
            lemma_indices_where(
                o.cards@.len() as int,
                |j: int| in_column(o.cards@[j], o.columns@[o.selected_column as int].id@),
            );
            lemma_first_with_number(o.cards@, number, i as int, 0);
            let k = first_with_number(o.cards@, number, 0).unwrap();
            lemma_golden_keeps_columns(o, m, k, !was, o.selected_column as int);
            assert(m.selected_index() == Some(i));
            assert(m.cards@[i as int].number == number);
            lemma_first_with_number_same(o.cards@, m.cards@, number, 0);
            assert(first_with_number(m.cards@, number, 0) == Some(k));
            assert(k == i as int);
            if k == i {
                assert(m.cards@[i as int].golden == !was);
            } else {
                assert(m.cards@[k].golden == !o.cards@[k].golden);
            }
            assert(n.cards@ =~= o.cards@);
        },
    }
}

proof fn lemma_first_with_number_same(c1: Seq<Card>, c2: Seq<Card>, number: u64, i: int)
    requires
        c1.len() == c2.len(),
        forall|j: int| 0 <= j < c1.len() ==> c1[j].number == c2[j].number,
    ensures
        first_with_number(c1, number, i) == first_with_number(c2, number, i),
    decreases c1.len() - i,
{
    if 0 <= i < c1.len() {
        lemma_first_with_number_same(c1, c2, number, i + 1);
    }
}


// ---------------------------------------------------------------------------
// What the outcome of an action says
// ---------------------------------------------------------------------------

impl Action {
    /// The status message when the request succeeded; `None` for a load, whose reply is
    /// the data itself.
    pub open spec fn success_spec(self) -> Option<Seq<char>> {
        match self {
            Action::LoadCardDetail { .. } => None,
            Action::SetGolden { number, was_golden } => Some(
                "#"@ + dec_seq(number as nat) + (if was_golden {
                    " unmarked golden"@
                } else {
                    " marked golden"@
                }),
            ),
            Action::MoveCard { number, column_name, .. } => Some(
                "#"@ + dec_seq(number as nat) + " moved to "@ + column_name@,
            ),
            Action::ToggleAssignment { number, user_name, .. } => Some(
                "#"@ + dec_seq(number as nat) + " assignment toggled for "@ + user_name@,
            ),
            Action::AddComment { number, .. } => Some("Comment added to #"@ + dec_seq(number as nat)),
            Action::Refresh { .. } => None,
        }
    }

    /// The status message when the request succeeded.
    pub fn success_message(&self) -> (m: Option<String>)
        ensures
            match self.success_spec() {
                Some(t) => m matches Some(x) && x@ == t,
                None => m is None,
            },
    {
        match self {
            Action::LoadCardDetail { .. } => None,
            Action::SetGolden { number, was_golden } => {
                let mut t = "#".to_owned();
                push_u64(&mut t, *number);
                if *was_golden {
                    push_str(&mut t, " unmarked golden");
                } else {
                    push_str(&mut t, " marked golden");
                }
                Some(t)
            },
            Action::MoveCard { number, column_name, .. } => {
                let mut t = "#".to_owned();
                push_u64(&mut t, *number);
                push_str(&mut t, " moved to ");
                push_str(&mut t, column_name.as_str());
                Some(t)
            },
            Action::ToggleAssignment { number, user_name, .. } => {
                let mut t = "#".to_owned();
                push_u64(&mut t, *number);
                push_str(&mut t, " assignment toggled for ");
                push_str(&mut t, user_name.as_str());
                Some(t)
            },
            Action::AddComment { number, .. } => {
                let mut t = "Comment added to #".to_owned();
                push_u64(&mut t, *number);
                Some(t)
            },
            Action::Refresh { .. } => None,
        }
    }

    /// What a failed request is reported as, before the error's text.
    pub open spec fn failure_prefix_spec(self) -> Seq<char> {
        match self {
            Action::LoadCardDetail { .. } => "Load failed: "@,
            Action::SetGolden { .. } => "Golden toggle failed: "@,
            Action::MoveCard { .. } => "Move failed: "@,
            Action::ToggleAssignment { .. } => "Assign failed: "@,
            Action::AddComment { .. } => "Comment failed: "@,
            Action::Refresh { .. } => "Refresh failed: "@,
        }
    }

    /// The status message when the request failed with `error`.
    pub fn failure_message(&self, error: &str) -> (m: String)
        ensures
            m@ == self.failure_prefix_spec() + error@,
    {
        let prefix = match self {
            Action::LoadCardDetail { .. } => "Load failed: ",
            Action::SetGolden { .. } => "Golden toggle failed: ",
            Action::MoveCard { .. } => "Move failed: ",
            Action::ToggleAssignment { .. } => "Assign failed: ",
            Action::AddComment { .. } => "Comment failed: ",
            Action::Refresh { .. } => "Refresh failed: ",
        };
        concat(prefix, error)
    }
}

/// The status message when the board could not be loaded.
pub fn load_failed_message(error: &str) -> (m: String)
    ensures
        m@ == "Failed to load board: "@ + error@,
{
    concat("Failed to load board: ", error)
}

/// The user of the browser: the one of the account whose slug, without leading slashes,
/// is `slug`, as (id, name).
pub fn board_user(accounts: &[crate::models::AccountWithUser], slug: &str) -> (r: Result<(String, String), String>)
    ensures
        match crate::agent::find_account_spec(accounts@, slug@, 0) {
            Some(i) => r matches Ok((id, name)) && id@ == accounts@[i].user.id@ && name@ == accounts@[i].user.name@,
            None => r matches Err(m) && m@ == "No user for account /"@ + slug@,
        },
{
    match crate::agent::find_account(accounts, slug) {
        Some(i) => Ok((accounts[i].user.id.clone(), accounts[i].user.name.clone())),
        None => Err(concat("No user for account /", slug)),
    }
}

} // verus!
