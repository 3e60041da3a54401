//! The text reports of the agent workflow: the `prime` context, the `ready` and
//! `blocked` lists, the task brief that `claim` prints, and `whoami`.
//!
//! Each report is a list of lines; printing them, one per line, is left to the caller.
use vstd::prelude::*;

use crate::agent::{
    col_name, col_name_spec, deps_seq, format_deps, format_deps_spec, format_tags_spec,
    format_tags_without_deps, indices_where, last_marked, plan_comment, is_blocked_spec,
    is_open_spec, is_ready_spec, lemma_indices_where, numbered, numbers_text, open_indices,
    parse_deps, ready_indices, blocked_indices, tag_views, unsatisfied_deps, unsatisfied_seq,
};
use crate::models::{AccountWithUser, Board, Card, Column, Comment, Reaction, Step};
use crate::text::{
    dec_seq, join, join_seq, push_str, push_u64, str_eq, trim_start_char, trim_start_char_seq,
    views,
};

verus! {

// ---------------------------------------------------------------------------
// Building lists of lines
// ---------------------------------------------------------------------------

/// `body` under `header`, followed by an empty line; nothing when `body` is empty.
pub open spec fn section(header: Seq<char>, body: Seq<Seq<char>>) -> Seq<Seq<char>> {
    if body.len() == 0 {
        Seq::<Seq<char>>::empty()
    } else {
        seq![header] + body + seq![Seq::<char>::empty()]
    }
}

fn push_line(out: &mut Vec<String>, line: String)
    ensures
        views(final(out)@) == views(old(out)@).push(line@),
{
    let ghost before = out@;
    out.push(line);
    assert(views(out@) =~= views(before).push(line@));
}

fn extend_lines(out: &mut Vec<String>, more: Vec<String>)
    ensures
        views(final(out)@) == views(old(out)@) + views(more@),
{
    let ghost start = views(out@);
    let n = more.len();
    for i in 0..n
        invariant
            n == more@.len(),
            views(out@) == start + views(more@.take(i as int)),
    {
        let line = more[i].clone();
        push_line(out, line);
        assert(views(more@.take(i + 1)) =~= views(more@.take(i as int)).push(more@[i as int]@));
    }
    assert(more@.take(n as int) == more@);
}

fn push_section(out: &mut Vec<String>, header: &str, body: Vec<String>)
    ensures
        views(final(out)@) == views(old(out)@) + section(header@, views(body@)),
{
    if body.len() > 0 {
        let ghost start = views(out@);
        push_line(out, header.to_owned());
        extend_lines(out, body);
        push_line(out, String::new());
        assert(views(out@) =~= start + section(header@, views(body@)));
    } else {
        assert(views(out@) =~= views(out@) + section(header@, views(body@)));
    }
}

// ---------------------------------------------------------------------------
// Card lines
// ---------------------------------------------------------------------------

/// `"  #<n> <title> [<column>] #tag…"`, and with `with_deps` the `" (after #a, …)"` part.
pub open spec fn card_line_spec(c: Card, with_deps: bool) -> Seq<char> {
    "  #"@ + dec_seq(c.number as nat) + " "@ + c.title@ + " ["@ + col_name_spec(&c) + "]"@
        + format_tags_spec(tag_views(&c)) + if with_deps {
        format_deps_spec(tag_views(&c))
    } else {
        Seq::<char>::empty()
    }
}

/// `"  #<n> <title> — <word> #a, #b"` for the open cards that `c` still waits for.
pub open spec fn waiting_line_spec(c: Card, all_cards: Seq<Card>, word: Seq<char>) -> Seq<char> {
    "  #"@ + dec_seq(c.number as nat) + " "@ + c.title@ + " — "@ + word + " "@ + join_seq(
        numbered(unsatisfied_seq(deps_seq(tag_views(&c)), all_cards)),
        ", "@,
    )
}

/// The line of a card in the lists.
pub fn card_line(c: &Card, with_deps: bool) -> (r: String)
    ensures
        r@ == card_line_spec(*c, with_deps),
{
    let mut s = "  #".to_owned();
    push_u64(&mut s, c.number);
    push_str(&mut s, " ");
    push_str(&mut s, c.title.as_str());
    push_str(&mut s, " [");
    push_str(&mut s, col_name(c));
    push_str(&mut s, "]");
    let tags = format_tags_without_deps(c.tags.as_slice());
    push_str(&mut s, tags.as_str());
    if with_deps {
        let deps = format_deps(c.tags.as_slice());
        push_str(&mut s, deps.as_str());
    } else {
        assert(s@ =~= s@ + Seq::<char>::empty());
    }
    s
}

/// The line of a blocked card, naming what it waits for after `word`.
pub fn waiting_line(c: &Card, all_cards: &[Card], word: &str) -> (r: String)
    ensures
        r@ == waiting_line_spec(*c, all_cards@, word@),
{
    let mut s = "  #".to_owned();
    push_u64(&mut s, c.number);
    push_str(&mut s, " ");
    push_str(&mut s, c.title.as_str());
    push_str(&mut s, " — ");
    push_str(&mut s, word);
    push_str(&mut s, " ");
    let waiting = unsatisfied_deps(c, all_cards);
    let w = numbers_text(&waiting, ", ");
    push_str(&mut s, w.as_str());
    s
}

/// The card lines of the cards at `idx`.
pub open spec fn card_lines_spec(cards: Seq<Card>, idx: Seq<usize>, with_deps: bool) -> Seq<Seq<char>> {
    idx.map_values(|i: usize| card_line_spec(cards[i as int], with_deps))
}

/// The waiting lines of the cards at `idx`.
pub open spec fn waiting_lines_spec(cards: Seq<Card>, idx: Seq<usize>, word: Seq<char>) -> Seq<
    Seq<char>,
> {
    idx.map_values(|i: usize| waiting_line_spec(cards[i as int], cards, word))
}

fn card_lines(cards: &[Card], idx: &Vec<usize>, with_deps: bool) -> (r: Vec<String>)
    requires
        forall|k: int| 0 <= k < idx@.len() ==> #[trigger] idx@[k] < cards@.len(),
    ensures
        views(r@) == card_lines_spec(cards@, idx@, with_deps),
{
    let mut r: Vec<String> = Vec::new();
    let n = idx.len();
    for k in 0..n
        invariant
            n == idx@.len(),
            forall|k: int| 0 <= k < idx@.len() ==> #[trigger] idx@[k] < cards@.len(),
            views(r@) == card_lines_spec(cards@, idx@.take(k as int), with_deps),
    {
        let line = card_line(&cards[idx[k]], with_deps);
        push_line(&mut r, line);
        assert(card_lines_spec(cards@, idx@.take(k + 1), with_deps) =~= card_lines_spec(
            cards@,
            idx@.take(k as int),
            with_deps,
        ).push(line@));
    }
    assert(idx@.take(n as int) == idx@);
    r
}

fn waiting_lines(cards: &[Card], idx: &Vec<usize>, word: &str) -> (r: Vec<String>)
    requires
        forall|k: int| 0 <= k < idx@.len() ==> #[trigger] idx@[k] < cards@.len(),
    ensures
        views(r@) == waiting_lines_spec(cards@, idx@, word@),
{
    let mut r: Vec<String> = Vec::new();
    let n = idx.len();
    for k in 0..n
        invariant
            n == idx@.len(),
            forall|k: int| 0 <= k < idx@.len() ==> #[trigger] idx@[k] < cards@.len(),
            views(r@) == waiting_lines_spec(cards@, idx@.take(k as int), word@),
    {
        let line = waiting_line(&cards[idx[k]], cards, word);
        push_line(&mut r, line);
        assert(waiting_lines_spec(cards@, idx@.take(k + 1), word@) =~= waiting_lines_spec(
            cards@,
            idx@.take(k as int),
            word@,
        ).push(line@));
    }
    assert(idx@.take(n as int) == idx@);
    r
}

/// The positions of the ready cards.
pub open spec fn ready_idx(all_cards: Seq<Card>) -> Seq<usize> {
    indices_where(all_cards.len() as int, |i: int| is_ready_spec(&all_cards[i], all_cards))
}

/// The positions of the blocked cards.
pub open spec fn blocked_idx(all_cards: Seq<Card>) -> Seq<usize> {
    indices_where(all_cards.len() as int, |i: int| is_blocked_spec(&all_cards[i], all_cards))
}

/// The positions of the open cards.
pub open spec fn open_idx(cards: Seq<Card>) -> Seq<usize> {
    indices_where(cards.len() as int, |i: int| is_open_spec(&cards[i]))
}

// ---------------------------------------------------------------------------
// prime
// ---------------------------------------------------------------------------

/// The names of the columns.
pub open spec fn column_names(columns: Seq<Column>) -> Seq<Seq<char>> {
    columns.map_values(|c: Column| c.name@)
}

/// The closing lines of `prime`: the workflow commands.
pub open spec fn workflow_lines() -> Seq<Seq<char>> {
    seq![
        "## Workflow:"@,
        "  fz claim <n>       — assign to self, move to In Progress"@,
        "  fz progress <n> .. — log progress comment"@,
        "  fz review <n>      — move to Review"@,
        "  fz done <n>        — close the card"@,
        "  fz dep <n> <dep>   — add dependency (#after-N tag)"@,
    ]
}

/// The heading lines of `prime`: board, user and the columns in order.
pub open spec fn prime_head(board: Board, my_id: Seq<char>, my_name: Seq<char>, columns: Seq<Column>) -> Seq<
    Seq<char>,
> {
    seq![
        "# Fizzy Context"@,
        "Board: "@ + board.name@ + " ("@ + board.id@ + ")"@,
        "You: "@ + my_name + " ("@ + my_id + ")"@,
        "Columns: "@ + join_seq(column_names(columns), " → "@),
        Seq::<char>::empty(),
    ]
}

/// The whole `prime` context: your open cards with their dependencies, the cards ready for
/// pickup, the blocked cards with what they wait on, and the workflow.
pub open spec fn prime_lines_spec(
    board: Board,
    my_id: Seq<char>,
    my_name: Seq<char>,
    columns: Seq<Column>,
    my_cards: Seq<Card>,
    all_cards: Seq<Card>,
) -> Seq<Seq<char>> {
    prime_head(board, my_id, my_name, columns) + section(
        "## Your active cards:"@,
        card_lines_spec(my_cards, open_idx(my_cards), true),
    ) + section("## Ready for pickup:"@, card_lines_spec(all_cards, ready_idx(all_cards), false))
        + section("## Blocked:"@, waiting_lines_spec(all_cards, blocked_idx(all_cards), "waiting on"@))
        + workflow_lines()
}

fn column_name_list(columns: &[Column]) -> (r: Vec<String>)
    ensures
        views(r@) == column_names(columns@),
{
    let mut r: Vec<String> = Vec::new();
    let n = columns.len();
    for i in 0..n
        invariant
            n == columns@.len(),
            views(r@) == column_names(columns@.take(i as int)),
    {
        let nm = columns[i].name.clone();
        push_line(&mut r, nm);
        assert(column_names(columns@.take(i + 1)) =~= column_names(columns@.take(i as int)).push(
            columns@[i as int].name@,
        ));
    }
    assert(columns@.take(n as int) == columns@);
    r
}

/// The compact text context that `prime` prints for an agent.
pub fn prime_lines(
    board: &Board,
    my_id: &str,
    my_name: &str,
    columns: &[Column],
    my_cards: &[Card],
    all_cards: &[Card],
) -> (r: Vec<String>)
    ensures
        views(r@) == prime_lines_spec(*board, my_id@, my_name@, columns@, my_cards@, all_cards@),
{
    let mut out: Vec<String> = Vec::new();
    push_line(&mut out, "# Fizzy Context".to_owned());
    let mut l1 = "Board: ".to_owned();
    push_str(&mut l1, board.name.as_str());
    push_str(&mut l1, " (");
    push_str(&mut l1, board.id.as_str());
    push_str(&mut l1, ")");
    push_line(&mut out, l1);
    let mut l2 = "You: ".to_owned();
    push_str(&mut l2, my_name);
    push_str(&mut l2, " (");
    push_str(&mut l2, my_id);
    push_str(&mut l2, ")");
    push_line(&mut out, l2);
    let names = column_name_list(columns);
    let mut l3 = "Columns: ".to_owned();
    let joined = join(&names, " → ");
    push_str(&mut l3, joined.as_str());
    push_line(&mut out, l3);
    push_line(&mut out, String::new());
    assert(views(out@) =~= prime_head(*board, my_id@, my_name@, columns@));

    let active = open_indices(my_cards);
    let n_mine: usize = my_cards.len();
    let n_all: usize = all_cards.len();
    proof {
        lemma_indices_where(my_cards@.len() as int, |i: int| is_open_spec(&my_cards@[i]));
    }
    let active_lines = card_lines(my_cards, &active, true);
    push_section(&mut out, "## Your active cards:", active_lines);

    let ready = ready_indices(all_cards);
    proof {
        lemma_indices_where(
            all_cards@.len() as int,
            |i: int| is_ready_spec(&all_cards@[i], all_cards@),
        );
    }
    let ready_lines = card_lines(all_cards, &ready, false);
    push_section(&mut out, "## Ready for pickup:", ready_lines);

    let blocked = blocked_indices(all_cards);
    proof {
        lemma_indices_where(
            all_cards@.len() as int,
            |i: int| is_blocked_spec(&all_cards@[i], all_cards@),
        );
    }
    let blocked_lines = waiting_lines(all_cards, &blocked, "waiting on");
    push_section(&mut out, "## Blocked:", blocked_lines);

    let ghost before = views(out@);
    push_line(&mut out, "## Workflow:".to_owned());
    push_line(&mut out, "  fz claim <n>       — assign to self, move to In Progress".to_owned());
    push_line(&mut out, "  fz progress <n> .. — log progress comment".to_owned());
    push_line(&mut out, "  fz review <n>      — move to Review".to_owned());
    push_line(&mut out, "  fz done <n>        — close the card".to_owned());
    push_line(&mut out, "  fz dep <n> <dep>   — add dependency (#after-N tag)".to_owned());
    assert(views(out@) =~= before + workflow_lines());
    out
}

// ---------------------------------------------------------------------------
// ready and blocked
// ---------------------------------------------------------------------------

/// What `ready` prints: the cards ready for pickup, or a line saying there are none.
pub open spec fn ready_lines_spec(all_cards: Seq<Card>) -> Seq<Seq<char>> {
    let idx = ready_idx(all_cards);
    if idx.len() == 0 {
        seq!["No cards ready for pickup."@]
    } else {
        seq!["Cards ready for pickup:"@] + card_lines_spec(all_cards, idx, false)
    }
}

/// What `blocked` prints: the blocked cards and what blocks them, or a line saying there
/// are none.
pub open spec fn blocked_lines_spec(all_cards: Seq<Card>) -> Seq<Seq<char>> {
    let idx = blocked_idx(all_cards);
    if idx.len() == 0 {
        seq!["No blocked cards."@]
    } else {
        seq!["Blocked cards:"@] + waiting_lines_spec(all_cards, idx, "blocked by"@)
    }
}

/// The text of the `ready` command.
pub fn ready_lines(all_cards: &[Card]) -> (r: Vec<String>)
    ensures
        views(r@) == ready_lines_spec(all_cards@),
{
    let idx = ready_indices(all_cards);
    let n_all: usize = all_cards.len();
    proof {
        lemma_indices_where(
            all_cards@.len() as int,
            |i: int| is_ready_spec(&all_cards@[i], all_cards@),
        );
    }
    let mut out: Vec<String> = Vec::new();
    if idx.len() == 0 {
        push_line(&mut out, "No cards ready for pickup.".to_owned());
    } else {
        push_line(&mut out, "Cards ready for pickup:".to_owned());
        let lines = card_lines(all_cards, &idx, false);
        extend_lines(&mut out, lines);
    }
    out
}

/// The text of the `blocked` command.
pub fn blocked_lines(all_cards: &[Card]) -> (r: Vec<String>)
    ensures
        views(r@) == blocked_lines_spec(all_cards@),
{
    let idx = blocked_indices(all_cards);
    let n_all: usize = all_cards.len();
    proof {
        lemma_indices_where(
            all_cards@.len() as int,
            |i: int| is_blocked_spec(&all_cards@[i], all_cards@),
        );
    }
    let mut out: Vec<String> = Vec::new();
    if idx.len() == 0 {
        push_line(&mut out, "No blocked cards.".to_owned());
    } else {
        push_line(&mut out, "Blocked cards:".to_owned());
        let lines = waiting_lines(all_cards, &idx, "blocked by");
        extend_lines(&mut out, lines);
    }
    out
}


// ---------------------------------------------------------------------------
// The task brief
// ---------------------------------------------------------------------------

/// `"  [x] <content>"` for a completed step, `"  [ ] <content>"` for an open one.
pub open spec fn step_line_spec(s: Step) -> Seq<char> {
    "  "@ + (if s.completed {
        "[x]"@
    } else {
        "[ ]"@
    }) + " "@ + s.content@
}

/// A step's line in the brief shows whether it is done: the box holds `x` exactly for a
/// completed step and a space exactly for an open one, and the step's text follows the box.
pub proof fn law_step_line_shows_completion(s: Step)
    ensures
        step_line_spec(s).len() == 6 + s.content@.len(),
        (step_line_spec(s)[3] == 'x') <==> s.completed,
        (step_line_spec(s)[3] == ' ') <==> !s.completed,
        step_line_spec(s).skip(6) == s.content@,
{
    reveal_strlit("  ");
    reveal_strlit("[x]");
    reveal_strlit("[ ]");
    reveal_strlit(" ");
    assert(step_line_spec(s).skip(6) =~= s.content@);
}

/// The lines of the tags block: the visible tags, then the dependencies (all completed,
/// since the card was claimed), then an empty line; nothing for a card without tags.
pub open spec fn tags_block_spec(card: Card) -> Seq<Seq<char>> {
    let tv = tag_views(&card);
    if card.tags@.len() == 0 {
        Seq::<Seq<char>>::empty()
    } else {
        (if format_tags_spec(tv).len() > 0 {
            seq!["Tags:"@ + format_tags_spec(tv)]
        } else {
            Seq::<Seq<char>>::empty()
        }) + (if deps_seq(tv).len() > 0 {
            seq!["Depends on: "@ + join_seq(numbered(deps_seq(tv)), ", "@) + " (completed)"@]
        } else {
            Seq::<Seq<char>>::empty()
        }) + seq![Seq::<char>::empty()]
    }
}

/// The steps block: the steps under "Steps:", or nothing when the card has none.
pub open spec fn steps_block_spec(steps: Option<Vec<Step>>) -> Seq<Seq<char>> {
    match steps {
        Some(v) => section("Steps:"@, v@.map_values(|s: Step| step_line_spec(s))),
        None => Seq::<Seq<char>>::empty(),
    }
}

/// The positions of the comments not written by "System".
pub open spec fn user_comment_idx(comments: Seq<Comment>) -> Seq<usize> {
    indices_where(comments.len() as int, |i: int| comments[i].creator.name@ != "System"@)
}

/// The last five of the user comments (all of them when there are fewer).
pub open spec fn recent_comment_idx(comments: Seq<Comment>) -> Seq<usize> {
    let u = user_comment_idx(comments);
    if u.len() > 5 {
        u.skip(u.len() - 5)
    } else {
        u
    }
}

/// `"  <author> — <text>"` for a comment.
pub open spec fn comment_line_spec(c: Comment) -> Seq<char> {
    "  "@ + c.creator.name@ + " — "@ + c.body.plain_text@
}

/// The closing lines of the brief: whether a plan exists, and the commands to report with.
pub open spec fn brief_tail_spec(has_plan: bool, number: u64) -> Seq<Seq<char>> {
    seq![
        if has_plan {
            "Plan exists (💡 comment). Implement it, then:"@
        } else {
            "No plan yet. Enter plan mode (`/plan`) to design your approach, then:"@
        },
        "  `fz progress "@ + dec_seq(number as nat) + " \"message\"` → `fz done "@
            + dec_seq(number as nat) + "`"@,
    ]
}

/// The task brief that `claim` prints for card `number`, given the card, its comments and
/// the reactions of each comment (which tell whether a plan exists).
pub open spec fn task_brief_spec(
    card: Card,
    comments: Seq<Comment>,
    reactions: Seq<Vec<Reaction>>,
    number: u64,
) -> Seq<Seq<char>> {
    seq!["---"@, "# Task #"@ + dec_seq(card.number as nat) + ": "@ + card.title@, Seq::<char>::empty()]
        + (if card.description@.len() > 0 {
        seq![card.description@, Seq::<char>::empty()]
    } else {
        Seq::<Seq<char>>::empty()
    }) + tags_block_spec(card) + steps_block_spec(card.steps) + section(
        "Recent comments:"@,
        recent_comment_idx(comments).map_values(|i: usize| comment_line_spec(comments[i as int])),
    ) + brief_tail_spec(last_marked(reactions, reactions.len() as int) is Some, number)
}

fn tags_block(card: &Card) -> (r: Vec<String>)
    ensures
        views(r@) == tags_block_spec(*card),
{
    let mut out: Vec<String> = Vec::new();
    if card.tags.len() == 0 {
        return out;
    }
    let tags = format_tags_without_deps(card.tags.as_slice());
    let deps = parse_deps(card.tags.as_slice());
    if !tags.as_str().is_empty() {
        let mut l = "Tags:".to_owned();
        push_str(&mut l, tags.as_str());
        push_line(&mut out, l);
    }
    let ghost mid = views(out@);
    if deps.len() > 0 {
        let mut l = "Depends on: ".to_owned();
        let d = numbers_text(&deps, ", ");
        push_str(&mut l, d.as_str());
        push_str(&mut l, " (completed)");
        push_line(&mut out, l);
    }
    let ghost mid2 = views(out@);
    push_line(&mut out, String::new());
    assert(views(out@) =~= tags_block_spec(*card));
    out
}

fn step_line(s: &Step) -> (r: String)
    ensures
        r@ == step_line_spec(*s),
{
    let mut l = "  ".to_owned();
    if s.completed {
        push_str(&mut l, "[x]");
    } else {
        push_str(&mut l, "[ ]");
    }
    push_str(&mut l, " ");
    push_str(&mut l, s.content.as_str());
    l
}

fn steps_block(steps: &Option<Vec<Step>>) -> (r: Vec<String>)
    ensures
        views(r@) == steps_block_spec(*steps),
{
    let mut out: Vec<String> = Vec::new();
    match steps {
        Some(v) => {
            let mut body: Vec<String> = Vec::new();
            let n = v.len();
            for i in 0..n
                invariant
                    n == v@.len(),
                    views(body@) == v@.take(i as int).map_values(|s: Step| step_line_spec(s)),
            {
                let l = step_line(&v[i]);
                push_line(&mut body, l);
                assert(v@.take(i + 1).map_values(|s: Step| step_line_spec(s)) =~= v@.take(
                    i as int,
                ).map_values(|s: Step| step_line_spec(s)).push(l@));
            }
            assert(v@.take(n as int) == v@);
            push_section(&mut out, "Steps:", body);
            assert(views(out@) =~= steps_block_spec(*steps));
        },
        None => {},
    }
    out
}

/// The positions of the comments that are not from "System", in order.
pub fn user_comment_indices(comments: &[Comment]) -> (r: Vec<usize>)
    ensures
        r@ == user_comment_idx(comments@),
{
    let ghost p = |i: int| comments@[i].creator.name@ != "System"@;
    let mut r: Vec<usize> = Vec::new();
    let n = comments.len();
    for i in 0..n
        invariant
            n == comments@.len(),
            p == (|i: int| comments@[i].creator.name@ != "System"@),
            r@ == indices_where(i as int, p),
    {
        if !str_eq(comments[i].creator.name.as_str(), "System") {
            r.push(i);
        }
    }
    r
}

fn comment_line(c: &Comment) -> (r: String)
    ensures
        r@ == comment_line_spec(*c),
{
    let mut l = "  ".to_owned();
    push_str(&mut l, c.creator.name.as_str());
    push_str(&mut l, " — ");
    push_str(&mut l, c.body.plain_text.as_str());
    l
}

fn recent_comment_lines(comments: &[Comment]) -> (r: Vec<String>)
    ensures
        views(r@) == recent_comment_idx(comments@).map_values(
            |i: usize| comment_line_spec(comments@[i as int]),
        ),
{
    let user = user_comment_indices(comments);
    let n_all: usize = comments.len();
    proof {
        lemma_indices_where(
            comments@.len() as int,
            |i: int| comments@[i].creator.name@ != "System"@,
        );
    }
    let start: usize = if user.len() > 5 {
        user.len() - 5
    } else {
        0
    };
    let ghost shown = recent_comment_idx(comments@);
    assert(shown =~= user@.skip(start as int));
    let mut out: Vec<String> = Vec::new();
    let n = user.len();
    for k in start..n
        invariant
            n == user@.len(),
            start <= n,
            shown == user@.skip(start as int),
            forall|j: int| 0 <= j < user@.len() ==> #[trigger] user@[j] < comments@.len(),
            views(out@) == shown.take(k - start).map_values(
                |i: usize| comment_line_spec(comments@[i as int]),
            ),
    {
        let l = comment_line(&comments[user[k]]);
        push_line(&mut out, l);
        assert(shown.take(k + 1 - start) =~= shown.take(k - start).push(user@[k as int]));
        assert(shown.take(k + 1 - start).map_values(|i: usize| comment_line_spec(comments@[i as int]))
            =~= shown.take(k - start).map_values(|i: usize| comment_line_spec(comments@[i as int])).push(l@));
    }
    assert(shown.take(n - start) =~= shown);
    out
}

/// The rich task brief that `claim` prints: title, description, tags and dependencies,
/// steps, the last five comments not from "System", and what to do next.
pub fn task_brief_lines(card: &Card, comments: &[Comment], reactions: &[Vec<Reaction>], number: u64) -> (r: Vec<String>)
    ensures
        views(r@) == task_brief_spec(*card, comments@, reactions@, number),
{
    let mut out: Vec<String> = Vec::new();
    push_line(&mut out, "---".to_owned());
    let mut title = "# Task #".to_owned();
    push_u64(&mut title, card.number);
    push_str(&mut title, ": ");
    push_str(&mut title, card.title.as_str());
    push_line(&mut out, title);
    push_line(&mut out, String::new());
    let ghost head = views(out@);
    if !card.description.as_str().is_empty() {
        push_line(&mut out, card.description.clone());
        push_line(&mut out, String::new());
    }
    let ghost with_desc = views(out@);
    assert(with_desc =~= head + (if card.description@.len() > 0 {
        seq![card.description@, Seq::<char>::empty()]
    } else {
        Seq::<Seq<char>>::empty()
    }));
    let tb = tags_block(card);
    extend_lines(&mut out, tb);
    let sb = steps_block(&card.steps);
    extend_lines(&mut out, sb);
    let cl = recent_comment_lines(comments);
    push_section(&mut out, "Recent comments:", cl);
    let ghost before_tail = views(out@);
    let planned = plan_comment(reactions).is_some();
    if planned {
        push_line(&mut out, "Plan exists (💡 comment). Implement it, then:".to_owned());
    } else {
        push_line(
            &mut out,
            "No plan yet. Enter plan mode (`/plan`) to design your approach, then:".to_owned(),
        );
    }
    let mut last = "  `fz progress ".to_owned();
    push_u64(&mut last, number);
    push_str(&mut last, " \"message\"` → `fz done ");
    push_u64(&mut last, number);
    push_str(&mut last, "`");
    push_line(&mut out, last);
    assert(views(out@) =~= before_tail + brief_tail_spec(planned, number));
    out
}

// ---------------------------------------------------------------------------
// whoami
// ---------------------------------------------------------------------------

/// `"<account>[ (active)]: <user> (<role>) — user_id: <id>"`; the active account is the
/// one whose slug, without leading slashes, is `slug`.
pub open spec fn whoami_line_spec(a: AccountWithUser, slug: Seq<char>) -> Seq<char> {
    a.name@ + (if trim_start_char_seq(a.slug@, '/') == slug {
        " (active)"@
    } else {
        Seq::<char>::empty()
    }) + ": "@ + a.user.name@ + " ("@ + a.user.role@ + ") — user_id: "@ + a.user.id@
}

/// The text of `whoami`: one line per account.
pub fn whoami_lines(accounts: &[AccountWithUser], slug: &str) -> (r: Vec<String>)
    ensures
        views(r@) == accounts@.map_values(|a: AccountWithUser| whoami_line_spec(a, slug@)),
{
    let mut out: Vec<String> = Vec::new();
    let n = accounts.len();
    for i in 0..n
        invariant
            n == accounts@.len(),
            views(out@) == accounts@.take(i as int).map_values(
                |a: AccountWithUser| whoami_line_spec(a, slug@),
            ),
    {
        let a = &accounts[i];
        let mut l = a.name.clone();
        let bare = trim_start_char(a.slug.as_str(), '/');
        if str_eq(bare.as_str(), slug) {
            push_str(&mut l, " (active)");
        } else {
            assert(l@ =~= l@ + Seq::<char>::empty());
        }
        push_str(&mut l, ": ");
        push_str(&mut l, a.user.name.as_str());
        push_str(&mut l, " (");
        push_str(&mut l, a.user.role.as_str());
        push_str(&mut l, ") — user_id: ");
        push_str(&mut l, a.user.id.as_str());
        push_line(&mut out, l);
        assert(accounts@.take(i + 1).map_values(|a: AccountWithUser| whoami_line_spec(a, slug@))
            =~= accounts@.take(i as int).map_values(
            |a: AccountWithUser| whoami_line_spec(a, slug@),
        ).push(l@));
    }
    assert(accounts@.take(n as int) == accounts@);
    out
}

} // verus!
