//! What the command line prints: relative times, truncated cells, the rows of the
//! listing tables and the lines of the detail views.
use vstd::prelude::*;

use crate::agent::{prefixed, user_names};
use crate::models::{MAX_DISPLAY_SECS, AccountWithUser, Board, Card, Column, Comment, Notification, Reaction, Step, Tag, Timestamp, User, Webhook};
use crate::styled::{extend_styled, lines_view, pl, plain_line, push_plain, push_seg, push_styled, segs, Segment, Tone};
use crate::text::{
    byte_boundary, byte_len, byte_prefix, concat, dec_seq, join, join_seq, prefix_of_bytes, push_str,
    push_u64, repeat_char, repeat_seq, utf8_len, views,
};

verus! {

/// Nanoseconds in a second.
pub const NANOS_PER_SEC: i128 = 1_000_000_000;

/// `std::time::UNIX_EPOCH.elapsed()`: the time since the epoch by the system clock, as
/// whole seconds and the nanoseconds after them (`Duration::as_secs`,
/// `Duration::subsec_nanos`), or `None` when the clock is set before the epoch (the
/// `SystemTimeError` case).
///
/// It depends on the clock, so nothing is stated of the reading beyond what `Duration`
/// documents: the sub-second nanoseconds are below one second.
#[verifier::external_body]
fn epoch_elapsed() -> (r: Option<(u64, u32)>)
    ensures
        r matches Some(p) ==> p.1 < 1_000_000_000,
{
    match std::time::UNIX_EPOCH.elapsed() {
        Ok(d) => Some((d.as_secs(), d.subsec_nanos())),
        Err(_) => None,
    }
}

/// The instant of a clock reading `secs` seconds and `nanos` nanoseconds after the epoch,
/// as `chrono::Utc::now()` makes it, or `None` for a reading past the last date `chrono`
/// can show (where `Utc::now()` panics).
pub fn instant_of(secs: u64, nanos: u32) -> (t: Option<Timestamp>)
    requires
        nanos < 1_000_000_000,
    ensures
        t == if secs <= MAX_DISPLAY_SECS {
            Some(Timestamp { secs: secs as i64, nanos })
        } else {
            None::<Timestamp>
        },
{
    if secs <= MAX_DISPLAY_SECS as u64 {
        Some(Timestamp { secs: secs as i64, nanos })
    } else {
        None
    }
}

/// The current instant: what `chrono::Utc::now()` gives (the seconds and sub-second
/// nanoseconds since the epoch by the system clock, through [`instant_of`]), or `None`
/// where `Utc::now()` would panic instead: a clock set before the epoch, or one past the
/// last date `chrono` can show. Which reading the clock gives is not stated.
pub fn current_instant() -> (t: Option<Timestamp>)
    ensures
        t matches Some(x) ==> x.wf() && x.displayable() && x.secs >= 0,
{
    match epoch_elapsed() {
        Some((secs, nanos)) => instant_of(secs, nanos),
        None => None,
    }
}

/// How `chrono` shows an instant in UTC (`DateTime<Utc>`'s `Display`, such as
/// `2024-01-15 10:30:00 UTC`).
pub uninterp spec fn utc_text(secs: i64, nanos: u32) -> Seq<char>;

/// The text of an instant: `chrono::DateTime::from_timestamp(secs, nanos)` shown with
/// `to_string()`. For a displayable instant `from_timestamp` gives `Some`.
#[verifier::external_body]
pub(crate) fn timestamp_text(t: &Timestamp) -> (s: String)
    requires
        t.displayable(),
    ensures
        s@ == utc_text(t.secs, t.nanos),
{
    match chrono::DateTime::from_timestamp(t.secs, t.nanos) {
        Some(d) => d.to_string(),
        None => String::new(),
    }
}

/// Whole seconds in `diff_ns` nanoseconds, rounded toward zero (`TimeDelta::num_seconds`).
pub open spec fn whole_seconds(diff_ns: int) -> int {
    if diff_ns >= 0 {
        diff_ns / 1_000_000_000
    } else {
        -((-diff_ns) / 1_000_000_000)
    }
}

/// How long ago, for an age of `secs` whole seconds: "just now" for the future, then
/// seconds, minutes, hours, days (below 30), months of 30 days (below 12) and years of 365
/// days.
pub open spec fn relative_text(secs: int) -> Seq<char> {
    if secs < 0 {
        "just now"@
    } else if secs < 60 {
        dec_seq(secs as nat) + "s ago"@
    } else if secs / 60 < 60 {
        dec_seq((secs / 60) as nat) + "m ago"@
    } else if secs / 3600 < 24 {
        dec_seq((secs / 3600) as nat) + "h ago"@
    } else if secs / 86400 < 30 {
        dec_seq((secs / 86400) as nat) + "d ago"@
    } else if secs / 86400 / 30 < 12 {
        dec_seq((secs / 86400 / 30) as nat) + "mo ago"@
    } else {
        dec_seq((secs / 86400 / 365) as nat) + "y ago"@
    }
}

/// The text of how long before `now` the instant `dt` was.
pub open spec fn relative_time_spec(dt: Timestamp, now: Timestamp) -> Seq<char> {
    relative_text(whole_seconds(now.total_nanos() - dt.total_nanos()))
}

fn number_text(n: u64, suffix: &str) -> (r: String)
    ensures
        r@ == dec_seq(n as nat) + suffix@,
{
    let mut r = String::new();
    push_u64(&mut r, n);
    push_str(&mut r, suffix);
    r
}

/// How long before `now` the instant `dt` was, as `relative_time` shows it.
pub fn relative_time_at(dt: &Timestamp, now: &Timestamp) -> (r: String)
    ensures
        r@ == relative_time_spec(*dt, *now),
{
    let ds: i128 = now.secs as i128 - dt.secs as i128;
    let dn: i128 = now.nanos as i128 - dt.nanos as i128;
    assert(-0x1_0000_0000_0000_0000 <= ds <= 0x1_0000_0000_0000_0000);
    assert(ds * 1_000_000_000 <= 0x1_0000_0000_0000_0000 * 1_000_000_000) by (nonlinear_arith)
        requires
            ds <= 0x1_0000_0000_0000_0000,
    ;
    assert(ds * 1_000_000_000 >= -0x1_0000_0000_0000_0000 * 1_000_000_000) by (nonlinear_arith)
        requires
            ds >= -0x1_0000_0000_0000_0000,
    ;
    let diff: i128 = ds * NANOS_PER_SEC + dn;
    assert(diff == now.total_nanos() - dt.total_nanos());
    if diff <= -NANOS_PER_SEC {
        return "just now".to_owned();
    }
    let secs: u128 = if diff < 0 {
        0
    } else {
        (diff as u128) / 1_000_000_000
    };
    assert(secs == whole_seconds(diff as int));
    assert(diff <= 0x1_0000_0000_0000_0000 * 1_000_000_000 + 0x1_0000_0000);
    assert(secs <= 0x2_0000_0000_0000_0000);
    if secs < 60 {
        return number_text(secs as u64, "s ago");
    }
    let mins = secs / 60;
    if mins < 60 {
        return number_text(mins as u64, "m ago");
    }
    let hours = secs / 3600;
    if hours < 24 {
        return number_text(hours as u64, "h ago");
    }
    let days = secs / 86400;
    if days < 30 {
        return number_text(days as u64, "d ago");
    }
    let months = days / 30;
    if months < 12 {
        return number_text(months as u64, "mo ago");
    }
    let years = days / 365;
    number_text(years as u64, "y ago")
}

/// How long ago the instant `dt` was, measured from the current time; `None` when the
/// clock gives no current time ([`current_instant`]).
pub fn relative_time(dt: &Timestamp) -> (r: Option<String>)
    ensures
        r matches Some(x) ==> exists|now: Timestamp| now.wf() && x@ == relative_time_spec(*dt, now),
{
    match current_instant() {
        Some(now) => Some(relative_time_at(dt, &now)),
        None => None,
    }
}

// ---------------------------------------------------------------------------
// Truncated cells
// ---------------------------------------------------------------------------

/// `max` less three, or zero (`usize::saturating_sub`).
pub open spec fn keep_bytes(max: usize) -> int {
    if max >= 3 {
        max - 3
    } else {
        0
    }
}

/// `s` when it fits in `max` bytes, else its first `max - 3` bytes and `...`.
pub open spec fn truncate_spec(s: Seq<char>, max: usize) -> Seq<char> {
    if utf8_len(s) <= max {
        s
    } else {
        byte_prefix(s, keep_bytes(max)) + "..."@
    }
}

/// A cell cut to `max` bytes with `...`. Slicing `s` needs the cut to fall on a character
/// boundary.
pub fn truncate(s: &str, max: usize) -> (r: String)
    requires
        utf8_len(s@) > max ==> byte_boundary(s@, keep_bytes(max)),
    ensures
        r@ == truncate_spec(s@, max),
{
    let len = byte_len(s);
    if len <= max as u128 {
        s.to_owned()
    } else {
        let keep: usize = if max >= 3 {
            max - 3
        } else {
            0
        };
        let head = prefix_of_bytes(s, keep);
        concat(head.as_str(), "...")
    }
}


/// Cutting `s` to `max` bytes falls on a character boundary, or is not needed.
pub open spec fn cuttable(s: Seq<char>, max: usize) -> bool {
    utf8_len(s) > max ==> byte_boundary(s, keep_bytes(max))
}

/// `true` or `false`, as `bool` shows.
pub open spec fn bool_text(b: bool) -> Seq<char> {
    if b {
        "true"@
    } else {
        "false"@
    }
}

fn bool_string(b: bool) -> (s: String)
    ensures
        s@ == bool_text(b),
{
    if b {
        "true".to_owned()
    } else {
        "false".to_owned()
    }
}

/// `#a #b` for the given tags.
pub open spec fn hashed_tags(tags: Seq<Seq<char>>) -> Seq<char> {
    join_seq(prefixed("#"@, tags), " "@)
}

fn hashed_tags_text(tags: &Vec<String>) -> (r: String)
    ensures
        r@ == hashed_tags(views(tags@)),
{
    let mut parts: Vec<String> = Vec::new();
    let n = tags.len();
    for i in 0..n
        invariant
            n == tags@.len(),
            views(parts@) == prefixed("#"@, views(tags@.take(i as int))),
    {
        let t = concat("#", tags[i].as_str());
        let ghost before = parts@;
        parts.push(t);
        assert(views(parts@) =~= views(before).push(t@));
        assert(prefixed("#"@, views(tags@.take(i + 1))) =~= prefixed("#"@, views(tags@.take(i as int))).push(t@));
    }
    assert(tags@.take(n as int) == tags@);
    join(&parts, " ")
}

fn names_text(users: &Vec<User>, sep: &str) -> (r: String)
    ensures
        r@ == join_seq(user_names(users@), sep@),
{
    let mut parts: Vec<String> = Vec::new();
    let n = users.len();
    for i in 0..n
        invariant
            n == users@.len(),
            views(parts@) == user_names(users@.take(i as int)),
    {
        let t = users[i].name.clone();
        let ghost before = parts@;
        parts.push(t);
        assert(views(parts@) =~= views(before).push(t@));
        assert(user_names(users@.take(i + 1)) =~= user_names(users@.take(i as int)).push(t@));
    }
    assert(users@.take(n as int) == users@);
    join(&parts, sep)
}

// ---------------------------------------------------------------------------
// Detail views
// ---------------------------------------------------------------------------

/// A labelled line `<label><value>`.
pub open spec fn field(label: Seq<char>, value: Seq<char>) -> Seq<(Seq<char>, Tone)> {
    pl(label + value)
}

/// The lines of a list that hold only when `b`.
pub open spec fn when(b: bool, lines: Seq<Seq<(Seq<char>, Tone)>>) -> Seq<Seq<(Seq<char>, Tone)>> {
    if b {
        lines
    } else {
        Seq::empty()
    }
}

/// The line of a step in the card view: check box, content, and its id dimmed.
pub open spec fn step_detail_spec(s: Step) -> Seq<(Seq<char>, Tone)> {
    seq![
        ("  "@ + (if s.completed {
            "[x]"@
        } else {
            "[ ]"@
        }) + " "@ + s.content@ + " ("@, Tone::Plain),
        (s.id@, Tone::Dimmed),
        (")"@, Tone::Plain),
    ]
}

/// A step's line in the card view shows whether it is done: in its first segment the box
/// holds `x` exactly for a completed step and a space exactly for an open one, and the
/// step's text follows the box.
pub proof fn law_step_detail_shows_completion(s: Step)
    ensures
        ({
            let t = step_detail_spec(s)[0].0;
            &&& t.len() == 8 + s.content@.len()
            &&& (t[3] == 'x') <==> s.completed
            &&& (t[3] == ' ') <==> !s.completed
            &&& t.subrange(6, 6 + s.content@.len() as int) == s.content@
        }),
{
    reveal_strlit("  ");
    reveal_strlit("[x]");
    reveal_strlit("[ ]");
    reveal_strlit(" ");
    reveal_strlit(" (");
    let t = step_detail_spec(s)[0].0;
    assert(t.subrange(6, 6 + s.content@.len() as int) =~= s.content@);
}

/// The head of the card view: number and title, a rule, board, column, status, tags,
/// assignees and creator.
pub open spec fn card_head_spec(c: Card) -> Seq<Seq<(Seq<char>, Tone)>> {
    seq![
        seq![("#"@ + dec_seq(c.number as nat), Tone::Bold), (" "@, Tone::Plain), (c.title@, Tone::Bold)],
        pl(repeat_seq('━', 50)),
        field("Board:    "@, c.board.name@),
    ] + match c.column {
        Some(col) => seq![field("Column:   "@, col.name@ + " ("@ + col.color.name_view() + ")"@)],
        None => Seq::empty(),
    } + seq![field("Status:   "@, c.status@)] + when(
        c.tags@.len() > 0,
        seq![field("Tags:     "@, hashed_tags(views(c.tags@)))],
    ) + match c.assignees {
        Some(a) => when(a@.len() > 0, seq![field("Assigned: "@, join_seq(user_names(a@), ", "@))]),
        None => Seq::empty(),
    } + seq![field("Creator:  "@, c.creator.name@)]
}

/// The flags of the card view: closed in red, postponed and golden in yellow.
pub open spec fn card_flags_spec(c: Card) -> Seq<Seq<(Seq<char>, Tone)>> {
    when(c.closed == Some(true), seq![seq![("Closed:   "@, Tone::Plain), ("yes"@, Tone::Red)]])
        + when(
        c.postponed == Some(true),
        seq![seq![("Postponed: "@, Tone::Plain), ("yes"@, Tone::Yellow)]],
    ) + when(c.golden, seq![seq![("Golden:   "@, Tone::Plain), ("yes"@, Tone::Yellow)]])
}

/// The times and URL of the card view, with `created` and `active` as the texts of its
/// two instants.
pub open spec fn card_times_with(c: Card, created: Seq<char>, active: Seq<char>) -> Seq<Seq<(Seq<char>, Tone)>> {
    seq![field("Created:  "@, created), field("Active:   "@, active), field("URL:      "@, c.url@)]
}

/// The body of the card view: the description and the steps, each after an empty line.
pub open spec fn card_body_spec(c: Card) -> Seq<Seq<(Seq<char>, Tone)>> {
    when(c.description@.len() > 0, seq![pl(Seq::empty()), pl(c.description@)]) + match c.steps {
        Some(v) => when(
            v@.len() > 0,
            seq![pl(Seq::empty()), seq![("Steps:"@, Tone::Bold)]] + v@.map_values(
                |s: Step| step_detail_spec(s),
            ),
        ),
        None => Seq::empty(),
    }
}

/// The card view with `created` and `active` as the texts of the card's two instants.
pub open spec fn card_detail_with(c: Card, created: Seq<char>, active: Seq<char>) -> Seq<Seq<(Seq<char>, Tone)>> {
    card_head_spec(c) + card_flags_spec(c) + card_times_with(c, created, active) + card_body_spec(c)
}

/// What `show` prints of a card: its instants as `chrono` shows them.
pub open spec fn card_detail_spec(c: Card) -> Seq<Seq<(Seq<char>, Tone)>> {
    card_detail_with(
        c,
        utc_text(c.created_at.secs, c.created_at.nanos),
        utc_text(c.last_active_at.secs, c.last_active_at.nanos),
    )
}

fn labelled(label: &str, value: &str) -> (l: Vec<Segment>)
    ensures
        segs(l@) == field(label@, value@),
{
    plain_line(concat(label, value))
}

fn step_detail(s: &Step) -> (l: Vec<Segment>)
    ensures
        segs(l@) == step_detail_spec(*s),
{
    let mut head = "  ".to_owned();
    if s.completed {
        push_str(&mut head, "[x]");
    } else {
        push_str(&mut head, "[ ]");
    }
    push_str(&mut head, " ");
    push_str(&mut head, s.content.as_str());
    push_str(&mut head, " (");
    let mut l: Vec<Segment> = Vec::new();
    push_seg(&mut l, head, Tone::Plain);
    push_seg(&mut l, s.id.clone(), Tone::Dimmed);
    push_seg(&mut l, ")".to_owned(), Tone::Plain);
    assert(segs(l@) =~= step_detail_spec(*s));
    l
}

fn two_part(a: &str, b: &str, tone: Tone) -> (l: Vec<Segment>)
    ensures
        segs(l@) == seq![(a@, Tone::Plain), (b@, tone)],
{
    let mut l: Vec<Segment> = Vec::new();
    push_seg(&mut l, a.to_owned(), Tone::Plain);
    push_seg(&mut l, b.to_owned(), tone);
    assert(segs(l@) =~= seq![(a@, Tone::Plain), (b@, tone)]);
    l
}

fn card_head_lines(c: &Card) -> (r: Vec<Vec<Segment>>)
    ensures
        lines_view(r@) == card_head_spec(*c),
{
    let mut out: Vec<Vec<Segment>> = Vec::new();
    let mut first: Vec<Segment> = Vec::new();
    let mut num = "#".to_owned();
    push_u64(&mut num, c.number);
    push_seg(&mut first, num, Tone::Bold);
    push_seg(&mut first, " ".to_owned(), Tone::Plain);
    push_seg(&mut first, c.title.clone(), Tone::Bold);
    push_styled(&mut out, first);
    push_plain(&mut out, repeat_char('━', 50));
    push_styled(&mut out, labelled("Board:    ", c.board.name.as_str()));
    match &c.column {
        Some(col) => {
            let mut v = col.name.clone();
            push_str(&mut v, " (");
            let color = col.color.to_string();
            push_str(&mut v, color.as_str());
            push_str(&mut v, ")");
            push_styled(&mut out, labelled("Column:   ", v.as_str()));
        },
        None => {},
    }
    push_styled(&mut out, labelled("Status:   ", c.status.as_str()));
    if c.tags.len() > 0 {
        let t = hashed_tags_text(&c.tags);
        push_styled(&mut out, labelled("Tags:     ", t.as_str()));
    }
    match &c.assignees {
        Some(a) => {
            if a.len() > 0 {
                let names = names_text(a, ", ");
                push_styled(&mut out, labelled("Assigned: ", names.as_str()));
            }
        },
        None => {},
    }
    push_styled(&mut out, labelled("Creator:  ", c.creator.name.as_str()));
    assert(lines_view(out@) =~~= card_head_spec(*c));
    out
}

fn card_flag_lines(c: &Card) -> (r: Vec<Vec<Segment>>)
    ensures
        lines_view(r@) == card_flags_spec(*c),
{
    let mut out: Vec<Vec<Segment>> = Vec::new();
    if c.closed == Some(true) {
        push_styled(&mut out, two_part("Closed:   ", "yes", Tone::Red));
    }
    if c.postponed == Some(true) {
        push_styled(&mut out, two_part("Postponed: ", "yes", Tone::Yellow));
    }
    if c.golden {
        push_styled(&mut out, two_part("Golden:   ", "yes", Tone::Yellow));
    }
    assert(lines_view(out@) =~~= card_flags_spec(*c));
    out
}

fn card_time_lines(c: &Card, created: &str, active: &str) -> (r: Vec<Vec<Segment>>)
    ensures
        lines_view(r@) == card_times_with(*c, created@, active@),
{
    let mut out: Vec<Vec<Segment>> = Vec::new();
    push_styled(&mut out, labelled("Created:  ", created));
    push_styled(&mut out, labelled("Active:   ", active));
    push_styled(&mut out, labelled("URL:      ", c.url.as_str()));
    assert(lines_view(out@) =~~= card_times_with(*c, created@, active@));
    out
}

fn card_body_lines(c: &Card) -> (r: Vec<Vec<Segment>>)
    ensures
        lines_view(r@) == card_body_spec(*c),
{
    let mut out: Vec<Vec<Segment>> = Vec::new();
    if !c.description.as_str().is_empty() {
        push_plain(&mut out, String::new());
        push_plain(&mut out, c.description.clone());
    }
    let ghost s1 = lines_view(out@);
    assert(s1 =~~= when(c.description@.len() > 0, seq![pl(Seq::empty()), pl(c.description@)]));
    match &c.steps {
        Some(v) => {
            if v.len() > 0 {
                push_plain(&mut out, String::new());
                let mut h: Vec<Segment> = Vec::new();
                push_seg(&mut h, "Steps:".to_owned(), Tone::Bold);
                assert(segs(h@) =~= seq![("Steps:"@, Tone::Bold)]);
                push_styled(&mut out, h);
                let ghost base = lines_view(out@);
                let n = v.len();
                for i in 0..n
                    invariant
                        n == v@.len(),
                        lines_view(out@) == base + v@.take(i as int).map_values(
                            |s: Step| step_detail_spec(s),
                        ),
                {
                    let l = step_detail(&v[i]);
                    push_styled(&mut out, l);
                    assert(v@.take(i + 1).map_values(|s: Step| step_detail_spec(s)) =~= v@.take(
                        i as int,
                    ).map_values(|s: Step| step_detail_spec(s)).push(step_detail_spec(v@[i as int])));
                }
                assert(v@.take(n as int) == v@);
            }
        },
        None => {},
    }
    assert(lines_view(out@) =~~= card_body_spec(*c));
    out
}

/// The lines of the card view, given the texts of the card's creation and last activity.
pub fn card_detail_lines_at(c: &Card, created: &str, active: &str) -> (r: Vec<Vec<Segment>>)
    ensures
        lines_view(r@) == card_detail_with(*c, created@, active@),
{
    let mut out = card_head_lines(c);
    extend_styled(&mut out, card_flag_lines(c));
    extend_styled(&mut out, card_time_lines(c, created, active));
    extend_styled(&mut out, card_body_lines(c));
    out
}

/// The lines that `show` prints for a card.
pub fn card_detail_lines(c: &Card) -> (r: Vec<Vec<Segment>>)
    requires
        c.created_at.displayable(),
        c.last_active_at.displayable(),
    ensures
        lines_view(r@) == card_detail_spec(*c),
{
    let created = timestamp_text(&c.created_at);
    let active = timestamp_text(&c.last_active_at);
    card_detail_lines_at(c, created.as_str(), active.as_str())
}

/// The board view with `created` as the text of the board's creation.
pub open spec fn board_detail_with(b: Board, created: Seq<char>) -> Seq<Seq<(Seq<char>, Tone)>> {
    seq![
        seq![(b.name@, Tone::Bold)],
        pl(repeat_seq('─', 40)),
        field("ID:       "@, b.id@),
        field("Access:   "@, if b.all_access {
            "all users"@
        } else {
            "selective"@
        }),
    ] + match b.auto_postpone_period_in_days {
        Some(d) => seq![field("Entropy:  "@, dec_seq(d as nat) + " days"@)],
        None => Seq::empty(),
    } + seq![
        field("Creator:  "@, b.creator.name@),
        field("Created:  "@, created),
    ] + match b.public_url {
        Some(u) => seq![field("Public:   "@, u@)],
        None => Seq::empty(),
    } + seq![field("URL:      "@, b.url@)]
}

/// What `boards show` prints: the creation as `chrono` shows it.
pub open spec fn board_detail_spec(b: Board) -> Seq<Seq<(Seq<char>, Tone)>> {
    board_detail_with(b, utc_text(b.created_at.secs, b.created_at.nanos))
}

/// The lines that `boards show` prints.
pub fn board_detail_lines(b: &Board) -> (r: Vec<Vec<Segment>>)
    requires
        b.created_at.displayable(),
    ensures
        lines_view(r@) == board_detail_spec(*b),
{
    let created = timestamp_text(&b.created_at);
    board_detail_lines_at(b, created.as_str())
}

/// The lines of the board view, given the text of the board's creation.
pub fn board_detail_lines_at(b: &Board, created: &str) -> (r: Vec<Vec<Segment>>)
    ensures
        lines_view(r@) == board_detail_with(*b, created@),
{
    let mut out: Vec<Vec<Segment>> = Vec::new();
    let mut first: Vec<Segment> = Vec::new();
    push_seg(&mut first, b.name.clone(), Tone::Bold);
    push_styled(&mut out, first);
    push_plain(&mut out, repeat_char('─', 40));
    push_styled(&mut out, labelled("ID:       ", b.id.as_str()));
    if b.all_access {
        push_styled(&mut out, labelled("Access:   ", "all users"));
    } else {
        push_styled(&mut out, labelled("Access:   ", "selective"));
    }
    let ghost s1 = lines_view(out@);
    match b.auto_postpone_period_in_days {
        Some(d) => {
            let mut v = String::new();
            push_u64(&mut v, d as u64);
            push_str(&mut v, " days");
            push_styled(&mut out, labelled("Entropy:  ", v.as_str()));
        },
        None => {},
    }
    let ghost s2 = lines_view(out@);
    push_styled(&mut out, labelled("Creator:  ", b.creator.name.as_str()));
    push_styled(&mut out, labelled("Created:  ", created));
    let ghost s3 = lines_view(out@);
    match &b.public_url {
        Some(u) => {
            push_styled(&mut out, labelled("Public:   ", u.as_str()));
        },
        None => {},
    }
    push_styled(&mut out, labelled("URL:      ", b.url.as_str()));
    assert(lines_view(out@) =~~= board_detail_with(*b, created@));
    out
}

/// The user view with `created` as the text of the user's creation.
pub open spec fn user_detail_with(u: User, created: Seq<char>) -> Seq<Seq<(Seq<char>, Tone)>> {
    seq![
        seq![(u.name@, Tone::Bold)],
        pl(repeat_seq('─', 40)),
        field("ID:      "@, u.id@),
        field("Role:    "@, u.role@),
        field("Active:  "@, bool_text(u.active)),
    ] + match u.email_address {
        Some(e) => seq![field("Email:   "@, e@)],
        None => Seq::empty(),
    } + seq![
        field("Created: "@, created),
        field("URL:     "@, u.url@),
    ]
}

/// What `users show` prints: the creation as `chrono` shows it.
pub open spec fn user_detail_spec(u: User) -> Seq<Seq<(Seq<char>, Tone)>> {
    user_detail_with(u, utc_text(u.created_at.secs, u.created_at.nanos))
}

/// The lines that `users show` prints.
pub fn user_detail_lines(u: &User) -> (r: Vec<Vec<Segment>>)
    requires
        u.created_at.displayable(),
    ensures
        lines_view(r@) == user_detail_spec(*u),
{
    let created = timestamp_text(&u.created_at);
    user_detail_lines_at(u, created.as_str())
}

/// The lines of the user view, given the text of the user's creation.
pub fn user_detail_lines_at(u: &User, created: &str) -> (r: Vec<Vec<Segment>>)
    ensures
        lines_view(r@) == user_detail_with(*u, created@),
{
    let mut out: Vec<Vec<Segment>> = Vec::new();
    let mut first: Vec<Segment> = Vec::new();
    push_seg(&mut first, u.name.clone(), Tone::Bold);
    push_styled(&mut out, first);
    push_plain(&mut out, repeat_char('─', 40));
    push_styled(&mut out, labelled("ID:      ", u.id.as_str()));
    push_styled(&mut out, labelled("Role:    ", u.role.as_str()));
    let active = bool_string(u.active);
    push_styled(&mut out, labelled("Active:  ", active.as_str()));
    let ghost s1 = lines_view(out@);
    match &u.email_address {
        Some(e) => {
            push_styled(&mut out, labelled("Email:   ", e.as_str()));
        },
        None => {},
    }
    push_styled(&mut out, labelled("Created: ", created));
    push_styled(&mut out, labelled("URL:     ", u.url.as_str()));
    assert(lines_view(out@) =~~= user_detail_with(*u, created@));
    out
}

/// The webhook view with `created` as the text of the webhook's creation.
pub open spec fn webhook_detail_with(w: Webhook, created: Seq<char>) -> Seq<Seq<(Seq<char>, Tone)>> {
    seq![
        seq![(w.name@, Tone::Bold)],
        pl(repeat_seq('─', 40)),
        field("ID:      "@, w.id@),
        field("URL:     "@, w.payload_url@),
        field("Active:  "@, bool_text(w.active)),
        field("Secret:  "@, w.signing_secret@),
        field("Actions: "@, join_seq(views(w.subscribed_actions@), ", "@)),
        field("Board:   "@, w.board.name@),
        field("Created: "@, created),
    ]
}

/// What `webhooks show` prints: the creation as `chrono` shows it.
pub open spec fn webhook_detail_spec(w: Webhook) -> Seq<Seq<(Seq<char>, Tone)>> {
    webhook_detail_with(w, utc_text(w.created_at.secs, w.created_at.nanos))
}

/// The lines that `webhooks show` prints.
pub fn webhook_detail_lines(w: &Webhook) -> (r: Vec<Vec<Segment>>)
    requires
        w.created_at.displayable(),
    ensures
        lines_view(r@) == webhook_detail_spec(*w),
{
    let created = timestamp_text(&w.created_at);
    webhook_detail_lines_at(w, created.as_str())
}

/// The lines of the webhook view, given the text of the webhook's creation.
pub fn webhook_detail_lines_at(w: &Webhook, created: &str) -> (r: Vec<Vec<Segment>>)
    ensures
        lines_view(r@) == webhook_detail_with(*w, created@),
{
    let mut out: Vec<Vec<Segment>> = Vec::new();
    let mut first: Vec<Segment> = Vec::new();
    push_seg(&mut first, w.name.clone(), Tone::Bold);
    push_styled(&mut out, first);
    push_plain(&mut out, repeat_char('─', 40));
    push_styled(&mut out, labelled("ID:      ", w.id.as_str()));
    push_styled(&mut out, labelled("URL:     ", w.payload_url.as_str()));
    let active = bool_string(w.active);
    push_styled(&mut out, labelled("Active:  ", active.as_str()));
    push_styled(&mut out, labelled("Secret:  ", w.signing_secret.as_str()));
    let actions = join(&w.subscribed_actions, ", ");
    push_styled(&mut out, labelled("Actions: ", actions.as_str()));
    push_styled(&mut out, labelled("Board:   ", w.board.name.as_str()));
    push_styled(&mut out, labelled("Created: ", created));
    assert(lines_view(out@) =~~= webhook_detail_with(*w, created@));
    out
}

/// The lines of one comment in `comments list`, with `date` as the text of its creation:
/// author, a dimmed dot and the date, the text indented, and an empty line.
pub open spec fn comment_block_with(c: Comment, date: Seq<char>) -> Seq<Seq<(Seq<char>, Tone)>> {
    seq![
        seq![
            (c.creator.name@, Tone::Bold),
            ("  "@, Tone::Plain),
            ("·"@, Tone::Dimmed),
            ("  "@, Tone::Plain),
            (date, Tone::Dimmed),
        ],
        pl("  "@ + c.body.plain_text@),
        pl(Seq::empty()),
    ]
}

/// All the comment blocks, in order, each with its date text.
pub open spec fn comment_blocks_with(cs: Seq<Comment>, dates: Seq<Seq<char>>) -> Seq<Seq<(Seq<char>, Tone)>>
    decreases cs.len(),
{
    if cs.len() == 0 {
        Seq::empty()
    } else {
        comment_blocks_with(cs.drop_last(), dates.drop_last()) + comment_block_with(cs.last(), dates.last())
    }
}

/// The comment list with `dates[i]` as the date text of comment `i`: each comment, or
/// "No comments.".
pub open spec fn comment_lines_with(cs: Seq<Comment>, dates: Seq<Seq<char>>) -> Seq<Seq<(Seq<char>, Tone)>> {
    comment_blocks_with(cs, dates) + when(cs.len() == 0, seq![pl("No comments."@)])
}

/// The creation of each comment as `chrono` shows it.
pub open spec fn comment_dates(cs: Seq<Comment>) -> Seq<Seq<char>> {
    cs.map_values(|c: Comment| utc_text(c.created_at.secs, c.created_at.nanos))
}

/// What `comments list` prints.
pub open spec fn comment_lines_spec(cs: Seq<Comment>) -> Seq<Seq<(Seq<char>, Tone)>> {
    comment_lines_with(cs, comment_dates(cs))
}

/// The lines of the comment list, given the text of each comment's creation.
pub fn comment_lines_at(comments: &[Comment], dates: &[String]) -> (r: Vec<Vec<Segment>>)
    requires
        dates@.len() == comments@.len(),
    ensures
        lines_view(r@) == comment_lines_with(comments@, views(dates@)),
{
    let mut out: Vec<Vec<Segment>> = Vec::new();
    let n = comments.len();
    for i in 0..n
        invariant
            n == comments@.len(),
            dates@.len() == n,
            lines_view(out@) == comment_blocks_with(comments@.take(i as int), views(dates@).take(i as int)),
    {
        let c = &comments[i];
        let ghost before = lines_view(out@);
        let mut head: Vec<Segment> = Vec::new();
        push_seg(&mut head, c.creator.name.clone(), Tone::Bold);
        push_seg(&mut head, "  ".to_owned(), Tone::Plain);
        push_seg(&mut head, "·".to_owned(), Tone::Dimmed);
        push_seg(&mut head, "  ".to_owned(), Tone::Plain);
        push_seg(&mut head, dates[i].clone(), Tone::Dimmed);
        push_styled(&mut out, head);
        push_plain(&mut out, concat("  ", c.body.plain_text.as_str()));
        push_plain(&mut out, String::new());
        assert(comments@.take(i + 1).drop_last() =~= comments@.take(i as int));
        assert(views(dates@).take(i + 1).drop_last() =~= views(dates@).take(i as int));
        assert(views(dates@).take(i + 1).last() == dates@[i as int]@);
        assert(lines_view(out@) =~~= before + comment_block_with(comments@[i as int], dates@[i as int]@));
    }
    assert(comments@.take(n as int) == comments@);
    assert(views(dates@).take(n as int) =~= views(dates@));
    if n == 0 {
        push_plain(&mut out, "No comments.".to_owned());
    }
    assert(lines_view(out@) =~= comment_lines_with(comments@, views(dates@)));
    out
}

/// The lines that `comments list` prints.
pub fn comment_lines(comments: &[Comment]) -> (r: Vec<Vec<Segment>>)
    requires
        forall|i: int| 0 <= i < comments@.len() ==> (#[trigger] comments@[i]).created_at.displayable(),
    ensures
        lines_view(r@) == comment_lines_spec(comments@),
{
    let mut dates: Vec<String> = Vec::new();
    let n = comments.len();
    for i in 0..n
        invariant
            n == comments@.len(),
            forall|i: int| 0 <= i < comments@.len() ==> (#[trigger] comments@[i]).created_at.displayable(),
            views(dates@) == comment_dates(comments@.take(i as int)),
    {
        let d = timestamp_text(&comments[i].created_at);
        let ghost before = dates@;
        dates.push(d);
        assert(views(dates@) =~= views(before).push(d@));
        assert(comment_dates(comments@.take(i + 1)) =~= comment_dates(comments@.take(i as int)).push(d@));
    }
    assert(comments@.take(n as int) =~= comments@);
    comment_lines_at(comments, &dates)
}

/// The line of a reaction: content, reacter, and its id dimmed.
pub open spec fn reaction_line_spec(r: Reaction) -> Seq<(Seq<char>, Tone)> {
    seq![
        (r.content@ + " "@ + r.reacter.name@ + " ("@, Tone::Plain),
        (r.id@, Tone::Dimmed),
        (")"@, Tone::Plain),
    ]
}

/// What `reactions list` prints: each reaction, or "No reactions.".
pub open spec fn reaction_lines_spec(rs: Seq<Reaction>) -> Seq<Seq<(Seq<char>, Tone)>> {
    if rs.len() == 0 {
        seq![pl("No reactions."@)]
    } else {
        rs.map_values(|r: Reaction| reaction_line_spec(r))
    }
}

/// The lines that `reactions list` prints.
pub fn reaction_lines(reactions: &[Reaction]) -> (r: Vec<Vec<Segment>>)
    ensures
        lines_view(r@) == reaction_lines_spec(reactions@),
{
    let mut out: Vec<Vec<Segment>> = Vec::new();
    let n = reactions.len();
    if n == 0 {
        push_plain(&mut out, "No reactions.".to_owned());
        return out;
    }
    for i in 0..n
        invariant
            n == reactions@.len(),
            lines_view(out@) == reactions@.take(i as int).map_values(|r: Reaction| reaction_line_spec(r)),
    {
        let rc = &reactions[i];
        let mut head = rc.content.clone();
        push_str(&mut head, " ");
        push_str(&mut head, rc.reacter.name.as_str());
        push_str(&mut head, " (");
        let mut l: Vec<Segment> = Vec::new();
        push_seg(&mut l, head, Tone::Plain);
        push_seg(&mut l, rc.id.clone(), Tone::Dimmed);
        push_seg(&mut l, ")".to_owned(), Tone::Plain);
        assert(segs(l@) =~= reaction_line_spec(reactions@[i as int]));
        push_styled(&mut out, l);
        assert(reactions@.take(i + 1).map_values(|r: Reaction| reaction_line_spec(r)) =~= reactions@.take(
            i as int,
        ).map_values(|r: Reaction| reaction_line_spec(r)).push(reaction_line_spec(reactions@[i as int])));
    }
    assert(reactions@.take(n as int) == reactions@);
    out
}


// ---------------------------------------------------------------------------
// Listing tables: a header row, then one row per item
// ---------------------------------------------------------------------------

/// The cell texts of each row.
pub open spec fn rows_view(rows: Seq<Vec<String>>) -> Seq<Seq<Seq<char>>> {
    rows.map_values(|r: Vec<String>| views(r@))
}

fn push_row(out: &mut Vec<Vec<String>>, row: Vec<String>)
    ensures
        rows_view(final(out)@) == rows_view(old(out)@).push(views(row@)),
{
    let ghost before = out@;
    let ghost v = views(row@);
    out.push(row);
    assert(rows_view(out@) =~= rows_view(before).push(v));
}

fn header(cells: &[&str]) -> (r: Vec<Vec<String>>)
    ensures
        rows_view(r@) == seq![cells@.map_values(|c: &str| c@)],
{
    let mut row: Vec<String> = Vec::new();
    let n = cells.len();
    for i in 0..n
        invariant
            n == cells@.len(),
            views(row@) == cells@.take(i as int).map_values(|c: &str| c@),
    {
        let t = cells[i].to_owned();
        let ghost before = row@;
        row.push(t);
        assert(views(row@) =~= views(before).push(t@));
        assert(cells@.take(i + 1).map_values(|c: &str| c@) =~= cells@.take(i as int).map_values(
            |c: &str| c@,
        ).push(cells@[i as int]@));
    }
    assert(cells@.take(n as int) == cells@);
    let mut out: Vec<Vec<String>> = Vec::new();
    push_row(&mut out, row);
    assert(rows_view(out@) =~= seq![cells@.map_values(|c: &str| c@)]);
    out
}

fn row4(a: String, b: String, c: String, d: String) -> (r: Vec<String>)
    ensures
        views(r@) == seq![a@, b@, c@, d@],
{
    let ghost v = seq![a@, b@, c@, d@];
    let mut r: Vec<String> = Vec::new();
    r.push(a);
    r.push(b);
    r.push(c);
    r.push(d);
    assert(views(r@) =~= v);
    r
}

/// The row of an account: name, slug, role and user.
pub open spec fn account_row_spec(a: AccountWithUser) -> Seq<Seq<char>> {
    seq![a.name@, a.slug@, a.user.role@, a.user.name@]
}

/// The table of `accounts`.
pub fn account_rows(accounts: &[AccountWithUser]) -> (r: Vec<Vec<String>>)
    ensures
        rows_view(r@) == seq![seq!["NAME"@, "SLUG"@, "ROLE"@, "USER"@]] + accounts@.map_values(
            |a: AccountWithUser| account_row_spec(a),
        ),
{
    let mut out = header(&["NAME", "SLUG", "ROLE", "USER"]);
    let ghost h = rows_view(out@);
    assert(h =~~= seq![seq!["NAME"@, "SLUG"@, "ROLE"@, "USER"@]]);
    let n = accounts.len();
    for i in 0..n
        invariant
            n == accounts@.len(),
            rows_view(out@) == h + accounts@.take(i as int).map_values(|a: AccountWithUser| account_row_spec(a)),
    {
        let a = &accounts[i];
        let row = row4(a.name.clone(), a.slug.clone(), a.user.role.clone(), a.user.name.clone());
        push_row(&mut out, row);
        assert(accounts@.take(i + 1).map_values(|a: AccountWithUser| account_row_spec(a)) =~= accounts@.take(
            i as int,
        ).map_values(|a: AccountWithUser| account_row_spec(a)).push(account_row_spec(accounts@[i as int])));
    }
    assert(accounts@.take(n as int) == accounts@);
    out
}

/// The row of a board: name, access, entropy period and age.
pub open spec fn board_row_spec(b: Board, now: Timestamp) -> Seq<Seq<char>> {
    seq![
        b.name@,
        if b.all_access {
            "all"@
        } else {
            "selective"@
        },
        match b.auto_postpone_period_in_days {
            Some(d) => dec_seq(d as nat) + "d"@,
            None => "--"@,
        },
        relative_time_spec(b.created_at, now),
    ]
}

/// The table of `boards`, with ages measured from `now`.
pub fn board_rows(boards: &[Board], now: &Timestamp) -> (r: Vec<Vec<String>>)
    ensures
        rows_view(r@) == seq![seq!["NAME"@, "ACCESS"@, "ENTROPY"@, "CREATED"@]] + boards@.map_values(
            |b: Board| board_row_spec(b, *now),
        ),
{
    let mut out = header(&["NAME", "ACCESS", "ENTROPY", "CREATED"]);
    let ghost h = rows_view(out@);
    assert(h =~~= seq![seq!["NAME"@, "ACCESS"@, "ENTROPY"@, "CREATED"@]]);
    let n = boards.len();
    for i in 0..n
        invariant
            n == boards@.len(),
            rows_view(out@) == h + boards@.take(i as int).map_values(|b: Board| board_row_spec(b, *now)),
    {
        let b = &boards[i];
        let access = if b.all_access {
            "all".to_owned()
        } else {
            "selective".to_owned()
        };
        let entropy = match b.auto_postpone_period_in_days {
            Some(d) => number_text(d as u64, "d"),
            None => "--".to_owned(),
        };
        let row = row4(b.name.clone(), access, entropy, relative_time_at(&b.created_at, now));
        assert(views(row@) =~= board_row_spec(boards@[i as int], *now));
        push_row(&mut out, row);
        assert(boards@.take(i + 1).map_values(|b: Board| board_row_spec(b, *now)) =~= boards@.take(
            i as int,
        ).map_values(|b: Board| board_row_spec(b, *now)).push(board_row_spec(boards@[i as int], *now)));
    }
    assert(boards@.take(n as int) == boards@);
    out
}

/// The row of a card: number, title cut to 40 bytes, board, column (or `--`), tags (or
/// `--`) and age.
pub open spec fn card_row_spec(c: Card, now: Timestamp) -> Seq<Seq<char>> {
    seq![
        dec_seq(c.number as nat),
        truncate_spec(c.title@, 40),
        c.board.name@,
        match c.column {
            Some(col) => col.name@,
            None => "--"@,
        },
        if c.tags@.len() == 0 {
            "--"@
        } else {
            hashed_tags(views(c.tags@))
        },
        relative_time_spec(c.created_at, now),
    ]
}

/// The table of `cards` (and of pinned cards), with ages measured from `now`.
pub fn card_rows(cards: &[Card], now: &Timestamp) -> (r: Vec<Vec<String>>)
    requires
        forall|i: int| 0 <= i < cards@.len() ==> cuttable((#[trigger] cards@[i]).title@, 40),
    ensures
        rows_view(r@) == seq![seq!["#"@, "TITLE"@, "BOARD"@, "COLUMN"@, "TAGS"@, "CREATED"@]]
            + cards@.map_values(|c: Card| card_row_spec(c, *now)),
{
    let mut out = header(&["#", "TITLE", "BOARD", "COLUMN", "TAGS", "CREATED"]);
    let ghost h = rows_view(out@);
    assert(h =~~= seq![seq!["#"@, "TITLE"@, "BOARD"@, "COLUMN"@, "TAGS"@, "CREATED"@]]);
    let n = cards.len();
    for i in 0..n
        invariant
            n == cards@.len(),
            forall|i: int| 0 <= i < cards@.len() ==> cuttable((#[trigger] cards@[i]).title@, 40),
            rows_view(out@) == h + cards@.take(i as int).map_values(|c: Card| card_row_spec(c, *now)),
    {
        let c = &cards[i];
        assert(cuttable(cards@[i as int].title@, 40));
        let col = match &c.column {
            Some(col) => col.name.clone(),
            None => "--".to_owned(),
        };
        let tags = if c.tags.len() == 0 {
            "--".to_owned()
        } else {
            hashed_tags_text(&c.tags)
        };
        let mut row: Vec<String> = Vec::new();
        row.push(number_text(c.number, ""));
        row.push(truncate(c.title.as_str(), 40));
        row.push(c.board.name.clone());
        row.push(col);
        row.push(tags);
        row.push(relative_time_at(&c.created_at, now));
        assert(dec_seq(c.number as nat) + ""@ =~= dec_seq(c.number as nat)) by {
            reveal_strlit("");
        }
        assert(views(row@) =~= card_row_spec(cards@[i as int], *now));
        push_row(&mut out, row);
        assert(cards@.take(i + 1).map_values(|c: Card| card_row_spec(c, *now)) =~= cards@.take(
            i as int,
        ).map_values(|c: Card| card_row_spec(c, *now)).push(card_row_spec(cards@[i as int], *now)));
    }
    assert(cards@.take(n as int) == cards@);
    out
}

/// The row of a column: id, name and color.
pub open spec fn column_row_spec(c: Column) -> Seq<Seq<char>> {
    seq![c.id@, c.name@, c.color.name_view()]
}

/// The table of `columns`.
pub fn column_rows(columns: &[Column]) -> (r: Vec<Vec<String>>)
    ensures
        rows_view(r@) == seq![seq!["ID"@, "NAME"@, "COLOR"@]] + columns@.map_values(
            |c: Column| column_row_spec(c),
        ),
{
    let mut out = header(&["ID", "NAME", "COLOR"]);
    let ghost h = rows_view(out@);
    assert(h =~~= seq![seq!["ID"@, "NAME"@, "COLOR"@]]);
    let n = columns.len();
    for i in 0..n
        invariant
            n == columns@.len(),
            rows_view(out@) == h + columns@.take(i as int).map_values(|c: Column| column_row_spec(c)),
    {
        let c = &columns[i];
        let mut row: Vec<String> = Vec::new();
        row.push(c.id.clone());
        row.push(c.name.clone());
        row.push(c.color.to_string());
        assert(views(row@) =~= column_row_spec(columns@[i as int]));
        push_row(&mut out, row);
        assert(columns@.take(i + 1).map_values(|c: Column| column_row_spec(c)) =~= columns@.take(
            i as int,
        ).map_values(|c: Column| column_row_spec(c)).push(column_row_spec(columns@[i as int])));
    }
    assert(columns@.take(n as int) == columns@);
    out
}

/// The row of a user: name, role, email (or `--`) and whether active.
pub open spec fn user_row_spec(u: User) -> Seq<Seq<char>> {
    seq![
        u.name@,
        u.role@,
        match u.email_address {
            Some(e) => e@,
            None => "--"@,
        },
        if u.active {
            "yes"@
        } else {
            "no"@
        },
    ]
}

/// The table of `users`.
pub fn user_rows(users: &[User]) -> (r: Vec<Vec<String>>)
    ensures
        rows_view(r@) == seq![seq!["NAME"@, "ROLE"@, "EMAIL"@, "ACTIVE"@]] + users@.map_values(
            |u: User| user_row_spec(u),
        ),
{
    let mut out = header(&["NAME", "ROLE", "EMAIL", "ACTIVE"]);
    let ghost h = rows_view(out@);
    assert(h =~~= seq![seq!["NAME"@, "ROLE"@, "EMAIL"@, "ACTIVE"@]]);
    let n = users.len();
    for i in 0..n
        invariant
            n == users@.len(),
            rows_view(out@) == h + users@.take(i as int).map_values(|u: User| user_row_spec(u)),
    {
        let u = &users[i];
        let email = match &u.email_address {
            Some(e) => e.clone(),
            None => "--".to_owned(),
        };
        let active = if u.active {
            "yes".to_owned()
        } else {
            "no".to_owned()
        };
        let row = row4(u.name.clone(), u.role.clone(), email, active);
        assert(views(row@) =~= user_row_spec(users@[i as int]));
        push_row(&mut out, row);
        assert(users@.take(i + 1).map_values(|u: User| user_row_spec(u)) =~= users@.take(
            i as int,
        ).map_values(|u: User| user_row_spec(u)).push(user_row_spec(users@[i as int])));
    }
    assert(users@.take(n as int) == users@);
    out
}

/// The row of a tag: `#title`, id and age.
pub open spec fn tag_row_spec(t: Tag, now: Timestamp) -> Seq<Seq<char>> {
    seq!["#"@ + t.title@, t.id@, relative_time_spec(t.created_at, now)]
}

/// The table of `tags`, with ages measured from `now`.
pub fn tag_rows(tags: &[Tag], now: &Timestamp) -> (r: Vec<Vec<String>>)
    ensures
        rows_view(r@) == seq![seq!["TITLE"@, "ID"@, "CREATED"@]] + tags@.map_values(
            |t: Tag| tag_row_spec(t, *now),
        ),
{
    let mut out = header(&["TITLE", "ID", "CREATED"]);
    let ghost h = rows_view(out@);
    assert(h =~~= seq![seq!["TITLE"@, "ID"@, "CREATED"@]]);
    let n = tags.len();
    for i in 0..n
        invariant
            n == tags@.len(),
            rows_view(out@) == h + tags@.take(i as int).map_values(|t: Tag| tag_row_spec(t, *now)),
    {
        let t = &tags[i];
        let mut row: Vec<String> = Vec::new();
        row.push(concat("#", t.title.as_str()));
        row.push(t.id.clone());
        row.push(relative_time_at(&t.created_at, now));
        assert(views(row@) =~= tag_row_spec(tags@[i as int], *now));
        push_row(&mut out, row);
        assert(tags@.take(i + 1).map_values(|t: Tag| tag_row_spec(t, *now)) =~= tags@.take(
            i as int,
        ).map_values(|t: Tag| tag_row_spec(t, *now)).push(tag_row_spec(tags@[i as int], *now)));
    }
    assert(tags@.take(n as int) == tags@);
    out
}

/// The row of a notification: `*` when unread, title and body cut to 30 bytes, sender,
/// card and age.
pub open spec fn notification_row_spec(x: Notification, now: Timestamp) -> Seq<Seq<char>> {
    seq![
        if x.read {
            " "@
        } else {
            "*"@
        },
        truncate_spec(x.title@, 30),
        truncate_spec(x.body@, 30),
        x.creator.name@,
        x.card.title@,
        relative_time_spec(x.created_at, now),
    ]
}

/// The table of `notifications`, with ages measured from `now`.
pub fn notification_rows(notifications: &[Notification], now: &Timestamp) -> (r: Vec<Vec<String>>)
    requires
        forall|i: int|
            0 <= i < notifications@.len() ==> cuttable((#[trigger] notifications@[i]).title@, 30)
                && cuttable(notifications@[i].body@, 30),
    ensures
        rows_view(r@) == seq![seq!["READ"@, "TITLE"@, "BODY"@, "FROM"@, "CARD"@, "CREATED"@]]
            + notifications@.map_values(|x: Notification| notification_row_spec(x, *now)),
{
    let mut out = header(&["READ", "TITLE", "BODY", "FROM", "CARD", "CREATED"]);
    let ghost h = rows_view(out@);
    assert(h =~~= seq![seq!["READ"@, "TITLE"@, "BODY"@, "FROM"@, "CARD"@, "CREATED"@]]);
    let n = notifications.len();
    for i in 0..n
        invariant
            n == notifications@.len(),
            forall|i: int|
                0 <= i < notifications@.len() ==> cuttable((#[trigger] notifications@[i]).title@, 30)
                    && cuttable(notifications@[i].body@, 30),
            rows_view(out@) == h + notifications@.take(i as int).map_values(
                |x: Notification| notification_row_spec(x, *now),
            ),
    {
        let x = &notifications[i];
        assert(cuttable(notifications@[i as int].title@, 30));
        let mark = if x.read {
            " ".to_owned()
        } else {
            "*".to_owned()
        };
        let mut row: Vec<String> = Vec::new();
        row.push(mark);
        row.push(truncate(x.title.as_str(), 30));
        row.push(truncate(x.body.as_str(), 30));
        row.push(x.creator.name.clone());
        row.push(x.card.title.clone());
        row.push(relative_time_at(&x.created_at, now));
        assert(views(row@) =~= notification_row_spec(notifications@[i as int], *now));
        push_row(&mut out, row);
        assert(notifications@.take(i + 1).map_values(|x: Notification| notification_row_spec(x, *now))
            =~= notifications@.take(i as int).map_values(
            |x: Notification| notification_row_spec(x, *now),
        ).push(notification_row_spec(notifications@[i as int], *now)));
    }
    assert(notifications@.take(n as int) == notifications@);
    out
}

/// The row of a webhook: id, name, payload URL cut to 40 bytes, whether active, and the
/// actions joined and cut to 30 bytes.
pub open spec fn webhook_row_spec(w: Webhook) -> Seq<Seq<char>> {
    seq![
        w.id@,
        w.name@,
        truncate_spec(w.payload_url@, 40),
        if w.active {
            "yes"@
        } else {
            "no"@
        },
        truncate_spec(join_seq(views(w.subscribed_actions@), ", "@), 30),
    ]
}

/// The table of `webhooks`.
pub fn webhook_rows(webhooks: &[Webhook]) -> (r: Vec<Vec<String>>)
    requires
        forall|i: int|
            0 <= i < webhooks@.len() ==> cuttable((#[trigger] webhooks@[i]).payload_url@, 40)
                && cuttable(join_seq(views(webhooks@[i].subscribed_actions@), ", "@), 30),
    ensures
        rows_view(r@) == seq![seq!["ID"@, "NAME"@, "URL"@, "ACTIVE"@, "ACTIONS"@]] + webhooks@.map_values(
            |w: Webhook| webhook_row_spec(w),
        ),
{
    let mut out = header(&["ID", "NAME", "URL", "ACTIVE", "ACTIONS"]);
    let ghost h = rows_view(out@);
    assert(h =~~= seq![seq!["ID"@, "NAME"@, "URL"@, "ACTIVE"@, "ACTIONS"@]]);
    let n = webhooks.len();
    for i in 0..n
        invariant
            n == webhooks@.len(),
            forall|i: int|
                0 <= i < webhooks@.len() ==> cuttable((#[trigger] webhooks@[i]).payload_url@, 40)
                    && cuttable(join_seq(views(webhooks@[i].subscribed_actions@), ", "@), 30),
            rows_view(out@) == h + webhooks@.take(i as int).map_values(|w: Webhook| webhook_row_spec(w)),
    {
        let w = &webhooks[i];
        assert(cuttable(webhooks@[i as int].payload_url@, 40));
        let actions = join(&w.subscribed_actions, ", ");
        let active = if w.active {
            "yes".to_owned()
        } else {
            "no".to_owned()
        };
        let mut row: Vec<String> = Vec::new();
        row.push(w.id.clone());
        row.push(w.name.clone());
        row.push(truncate(w.payload_url.as_str(), 40));
        row.push(active);
        row.push(truncate(actions.as_str(), 30));
        assert(views(row@) =~= webhook_row_spec(webhooks@[i as int]));
        push_row(&mut out, row);
        assert(webhooks@.take(i + 1).map_values(|w: Webhook| webhook_row_spec(w)) =~= webhooks@.take(
            i as int,
        ).map_values(|w: Webhook| webhook_row_spec(w)).push(webhook_row_spec(webhooks@[i as int])));
    }
    assert(webhooks@.take(n as int) == webhooks@);
    out
}


/// A cut cell is never longer than `max` bytes (for `max` of at least 3, the room for
/// the dots): cutting a long text keeps `max - 3` bytes and adds three dots.
pub proof fn law_truncate_fits(s: Seq<char>, max: usize)
    requires
        max >= 3,
        cuttable(s, max),
    ensures
        utf8_len(truncate_spec(s, max)) <= max,
{
    if utf8_len(s) > max {
        let head = byte_prefix(s, keep_bytes(max));
        crate::text::lemma_fit(s, keep_bytes(max));
        crate::text::lemma_utf8_concat(head, "..."@);
        reveal_strlit("...");
        let d = "..."@;
        assert(d.len() == 3 && d[0] == '.' && d[1] == '.' && d[2] == '.');
        assert(d.drop_first().drop_first().drop_first() =~= Seq::<char>::empty());
        assert(utf8_len(d.drop_first().drop_first().drop_first()) == 0);
        assert(d.drop_first().drop_first()[0] == '.');
        assert(utf8_len(d.drop_first().drop_first()) == 1);
        assert(d.drop_first()[0] == '.');
        assert(utf8_len(d.drop_first()) == 2);
        assert(utf8_len(d) == 3);
    }
}

} // verus!
