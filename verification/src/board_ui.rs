//! What the board browser draws: the column colors, the compact card tiles, a column's
//! scrolling window, the status bar, the card detail panel and the dialogs, as styled
//! lines; the caller puts them on the screen.
use vstd::prelude::*;

use ratatui::layout::{Constraint, Direction, Layout, Rect};

use crate::agent::{
    deps_satisfied, deps_satisfied_spec, deps_seq, numbered, numbers_text, parse_deps, tag_views,
    unsatisfied_deps, unsatisfied_seq, visible_tags, DEP_PREFIX,
};
use crate::browser::{App, CardDetail, Modal, StatusKind};
use crate::models::{Card, ColumnColor, Comment, Step, Timestamp, User};
use crate::output::{relative_time_at, relative_time_spec};
use crate::styled::{lines_view, pl, push_plain, push_seg, push_styled, segs, Segment, Tone};
use crate::text::{
    byte_boundary, byte_len, byte_prefix, concat, dec_seq, has_prefix, join, join_seq, push_char,
    push_str, push_u64, repeat_char, repeat_seq, split_char, split_seq, split_words, starts_with,
    str_eq, utf8_len, views, words_seq, is_ws, lemma_words_nonempty,
};

verus! {

// ---------------------------------------------------------------------------
// Case mapping
// ---------------------------------------------------------------------------

/// What `str::to_lowercase` returns for `s` (full Unicode case mapping).
pub uninterp spec fn lowercase(s: Seq<char>) -> Seq<char>;

/// What `str::to_uppercase` returns for `s` (full Unicode case mapping).
pub uninterp spec fn uppercase(s: Seq<char>) -> Seq<char>;

/// `str::to_lowercase`: a function of the text alone.
#[verifier::external_body]
pub(crate) fn to_lower(s: &str) -> (r: String)
    ensures
        r@ == lowercase(s@),
{
    s.to_lowercase()
}

/// `str::to_uppercase`: a function of the text alone.
#[verifier::external_body]
fn to_upper(s: &str) -> (r: String)
    ensures
        r@ == uppercase(s@),
{
    s.to_uppercase()
}

// ---------------------------------------------------------------------------
// Colors
// ---------------------------------------------------------------------------

/// The terminal color (red, green, blue) of a lower-case column color name; gray for
/// names it does not know.
pub open spec fn color_rgb(name: Seq<char>) -> (u8, u8, u8) {
    if name == "blue"@ {
        (100, 149, 237)
    } else if name == "gray"@ || name == "grey"@ {
        (140, 140, 155)
    } else if name == "tan"@ {
        (210, 180, 140)
    } else if name == "yellow"@ {
        (230, 190, 50)
    } else if name == "lime"@ {
        (130, 200, 80)
    } else if name == "aqua"@ {
        (80, 200, 190)
    } else if name == "violet"@ {
        (160, 120, 210)
    } else if name == "purple"@ {
        (140, 100, 190)
    } else if name == "pink"@ {
        (210, 130, 160)
    } else {
        (180, 180, 190)
    }
}

/// The terminal color of a column, chosen by its color name in any case.
pub fn column_color(color: &ColumnColor) -> (rgb: (u8, u8, u8))
    ensures
        rgb == color_rgb(lowercase(color.name_view())),
{
    let name = color.to_string();
    let lower = to_lower(name.as_str());
    color_of_name(lower.as_str())
}

/// The terminal color of a lower-case color name (`lower` is what lower-casing gave).
pub fn color_of_name(lower: &str) -> (rgb: (u8, u8, u8))
    ensures
        rgb == color_rgb(lower@),
{
    if str_eq(lower, "blue") {
        (100, 149, 237)
    } else if str_eq(lower, "gray") || str_eq(lower, "grey") {
        (140, 140, 155)
    } else if str_eq(lower, "tan") {
        (210, 180, 140)
    } else if str_eq(lower, "yellow") {
        (230, 190, 50)
    } else if str_eq(lower, "lime") {
        (130, 200, 80)
    } else if str_eq(lower, "aqua") {
        (80, 200, 190)
    } else if str_eq(lower, "violet") {
        (160, 120, 210)
    } else if str_eq(lower, "purple") {
        (140, 100, 190)
    } else if str_eq(lower, "pink") {
        (210, 130, 160)
    } else {
        (180, 180, 190)
    }
}

// ---------------------------------------------------------------------------
// Small text helpers
// ---------------------------------------------------------------------------

/// The ellipsis that ends a cut title.
pub const ELLIPSIS: char = '…';

/// `s` when it fits in `max` bytes; else its first `max - 1` bytes and an ellipsis (just
/// the ellipsis when `max` is at most 1).
pub open spec fn truncate_spec(s: Seq<char>, max: usize) -> Seq<char> {
    if utf8_len(s) <= max {
        s
    } else if max > 1 {
        byte_prefix(s, max - 1).push(ELLIPSIS)
    } else {
        seq![ELLIPSIS]
    }
}

/// Cutting `s` to `max` bytes falls on a character boundary, or is not needed.
pub open spec fn cuttable(s: Seq<char>, max: usize) -> bool {
    utf8_len(s) > max && max > 1 ==> byte_boundary(s, max - 1)
}

/// A title cut to `max` bytes with an ellipsis.
pub fn truncate(s: &str, max: usize) -> (r: String)
    requires
        cuttable(s@, max),
    ensures
        r@ == truncate_spec(s@, max),
{
    let len = byte_len(s);
    if len <= max as u128 {
        s.to_owned()
    } else if max > 1 {
        let mut head = crate::text::prefix_of_bytes(s, max - 1);
        push_char(&mut head, ELLIPSIS);
        head
    } else {
        let mut r = String::new();
        push_char(&mut r, ELLIPSIS);
        r
    }
}

/// The first character of each word.
pub open spec fn initials_of(words: Seq<Seq<char>>) -> Seq<char>
    decreases words.len(),
{
    if words.len() == 0 {
        Seq::empty()
    } else {
        initials_of(words.drop_last()).push(words.last()[0])
    }
}

/// The initials of a name: the first character of each word, upper-cased.
pub open spec fn initials_spec(name: Seq<char>) -> Seq<char> {
    uppercase(initials_of(words_seq(name)))
}

proof fn lemma_words_have_chars(s: Seq<char>)
    ensures
        forall|k: int| 0 <= k < words_seq(s).len() ==> (#[trigger] words_seq(s)[k]).len() > 0,
    decreases s.len(),
{
    if s.len() > 0 {
        lemma_words_have_chars(s.drop_last());
        let r = words_seq(s.drop_last());
        let c = s.last();
        if !is_ws(c) && s.len() >= 2 && !is_ws(s[s.len() - 2]) {
            lemma_words_nonempty(s.drop_last());
            assert forall|k: int| 0 <= k < words_seq(s).len() implies (#[trigger] words_seq(s)[k]).len() > 0 by {
                if k < r.len() - 1 {
                    assert(words_seq(s)[k] == r[k]);
                }
            }
        } else if !is_ws(c) {
            assert forall|k: int| 0 <= k < words_seq(s).len() implies (#[trigger] words_seq(s)[k]).len() > 0 by {
                if k < r.len() {
                    assert(words_seq(s)[k] == r[k]);
                }
            }
        }
    }
}

/// The initials of a name (`"Ada Lovelace"` gives `"AL"`).
pub fn user_initials(name: &str) -> (r: String)
    ensures
        r@ == initials_spec(name@),
{
    let words = split_words(name);
    proof {
        lemma_words_have_chars(name@);
    }
    let mut firsts = String::new();
    let n = words.len();
    for i in 0..n
        invariant
            n == words@.len(),
            views(words@) == words_seq(name@),
            forall|k: int| 0 <= k < words_seq(name@).len() ==> (#[trigger] words_seq(name@)[k]).len() > 0,
            firsts@ == initials_of(views(words@).take(i as int)),
    {
        let cs = crate::text::chars_of(words[i].as_str());
        assert(views(words@)[i as int] == words@[i as int]@);
        assert(cs@.len() > 0);
        push_char(&mut firsts, cs[0]);
        assert(views(words@).take(i + 1).drop_last() =~= views(words@).take(i as int));
    }
    assert(views(words@).take(n as int) =~= views(words@));
    to_upper(firsts.as_str())
}

/// `s` right-aligned in `width` characters (`format!("{s:>width$}")`).
pub open spec fn pad_left(s: Seq<char>, width: nat) -> Seq<char> {
    if s.len() >= width {
        s
    } else {
        repeat_seq(' ', (width - s.len()) as nat) + s
    }
}

/// A line of the help dialog: the key right-aligned in eight columns, then what it does.
pub open spec fn help_line_spec(key: Seq<char>, desc: Seq<char>) -> Seq<(Seq<char>, Tone)> {
    seq![("  "@, Tone::Plain), (pad_left(key, 8), Tone::HelpKey), ("  "@, Tone::Plain), (desc, Tone::HelpDesc)]
}

/// A line of the help dialog.
pub fn help_line(key: &str, desc: &str) -> (l: Vec<Segment>)
    ensures
        segs(l@) == help_line_spec(key@, desc@),
{
    let k = crate::text::chars_of(key);
    let padded = if k.len() >= 8 {
        key.to_owned()
    } else {
        let mut p = repeat_char(' ', 8 - k.len());
        push_str(&mut p, key);
        p
    };
    let mut l: Vec<Segment> = Vec::new();
    push_seg(&mut l, "  ".to_owned(), Tone::Plain);
    push_seg(&mut l, padded, Tone::HelpKey);
    push_seg(&mut l, "  ".to_owned(), Tone::Plain);
    push_seg(&mut l, desc.to_owned(), Tone::HelpDesc);
    assert(segs(l@) =~= help_line_spec(key@, desc@));
    l
}

/// The lines of a text (`str::lines`): split at `\n`, a `\r` before it dropped, and no
/// empty last line after a final `\n`.
pub open spec fn text_lines(s: Seq<char>) -> Seq<Seq<char>> {
    let parts = split_seq(s, '\n');
    let body = parts.drop_last().map_values(
        |p: Seq<char>|
            if p.len() > 0 && p.last() == '\r' {
                p.drop_last()
            } else {
                p
            },
    );
    if parts.last().len() == 0 {
        body
    } else {
        body.push(parts.last())
    }
}

/// `str::lines`.
pub fn lines_of(s: &str) -> (r: Vec<String>)
    ensures
        views(r@) == text_lines(s@),
{
    let parts = split_char(s, '\n');
    proof {
        crate::text::lemma_split_nonempty(s@, '\n');
    }
    let ghost pv = views(parts@);
    let n = parts.len();
    let mut r: Vec<String> = Vec::new();
    for i in 0..n - 1
        invariant
            n == parts@.len(),
            n >= 1,
            pv == views(parts@),
            views(r@) == pv.take(i as int).map_values(
                |p: Seq<char>|
                    if p.len() > 0 && p.last() == '\r' {
                        p.drop_last()
                    } else {
                        p
                    },
            ),
    {
        let cs = crate::text::chars_of(parts[i].as_str());
        let line = if cs.len() > 0 && cs[cs.len() - 1] == '\r' {
            crate::text::string_of_range(&cs, 0, cs.len() - 1)
        } else {
            parts[i].clone()
        };
        assert(pv[i as int] == parts@[i as int]@);
        assert(cs@.subrange(0, cs@.len() - 1) =~= cs@.drop_last());
        let ghost before = r@;
        r.push(line);
        assert(views(r@) =~= views(before).push(line@));
        assert(pv.take(i + 1).map_values(
            |p: Seq<char>|
                if p.len() > 0 && p.last() == '\r' {
                    p.drop_last()
                } else {
                    p
                },
        ) =~= pv.take(i as int).map_values(
            |p: Seq<char>|
                if p.len() > 0 && p.last() == '\r' {
                    p.drop_last()
                } else {
                    p
                },
        ).push(line@));
    }
    assert(pv.take(n - 1) =~= pv.drop_last());
    let last = parts[n - 1].clone();
    assert(pv.last() == last@);
    if !last.as_str().is_empty() {
        let ghost before = r@;
        r.push(last);
        assert(views(r@) =~= views(before).push(pv.last()));
    }
    r
}


// ---------------------------------------------------------------------------
// Card tiles
// ---------------------------------------------------------------------------

/// A card as the board shows it: three lines and the style of the whole tile.
#[derive(Debug)]
pub struct CardTile {
    pub lines: Vec<Vec<Segment>>,
    pub style: Tone,
}

/// The star before a golden card's number.
pub open spec fn golden_marker(c: Card) -> Seq<char> {
    if c.golden {
        "★ "@
    } else {
        Seq::empty()
    }
}

/// The room left for the title on a tile `width` bytes wide.
pub open spec fn title_room(c: Card, width: u16) -> int {
    let used = utf8_len("#"@ + dec_seq(c.number as nat)) + 1 + utf8_len(golden_marker(c));
    if width >= used {
        width - used
    } else {
        0
    }
}

/// The first line of a tile: the star, the number (dimmed) and the title cut to fit.
pub open spec fn tile_line1(c: Card, width: u16, selected: bool) -> Seq<(Seq<char>, Tone)> {
    seq![
        (golden_marker(c), if c.golden && !selected {
            Tone::GoldenAccent
        } else {
            Tone::Plain
        }),
        ("#"@ + dec_seq(c.number as nat) + " "@, Tone::DimMeta),
        (truncate_spec(c.title@, title_room(c, width) as usize), Tone::Plain),
    ]
}

/// The first `n` items, or all of them when there are fewer.
pub open spec fn take_up_to<A>(s: Seq<A>, n: int) -> Seq<A> {
    if s.len() <= n {
        s
    } else {
        s.take(n)
    }
}

/// The names of the users.
pub open spec fn names(users: Seq<User>) -> Seq<Seq<char>> {
    users.map_values(|u: User| u.name@)
}

/// The second line of a tile: the initials of the first two assignees, the first two
/// visible tags, and the dependency state (a check when satisfied, else a cross and the
/// open cards it waits for).
pub open spec fn tile_line2(c: Card, all_cards: Seq<Card>) -> Seq<(Seq<char>, Tone)> {
    let v = visible_tags(tag_views(&c));
    let d = deps_seq(tag_views(&c));
    seq![(" "@, Tone::Plain)] + match c.assignees {
        Some(a) => if a@.len() > 0 {
            seq![
                ("@"@ + join_seq(names(take_up_to(a@, 2)).map_values(|n: Seq<char>| initials_spec(n)), ","@), Tone::DimMeta),
            ]
        } else {
            Seq::empty()
        },
        None => Seq::empty(),
    } + if v.len() > 0 {
        seq![(" "@ + join_seq(crate::agent::prefixed("#"@, take_up_to(v, 2)), " "@), Tone::DimMeta)]
    } else {
        Seq::empty()
    } + if d.len() > 0 {
        if deps_satisfied_spec(&c, all_cards) {
            seq![(" ✓"@, Tone::ReadyIndicator)]
        } else {
            seq![(" ✗"@ + join_seq(numbered(unsatisfied_seq(d, all_cards)), ","@), Tone::BlockedIndicator)]
        }
    } else {
        Seq::empty()
    }
}

/// The width of the rule under a tile: at most 60.
pub open spec fn rule_width(width: u16) -> nat {
    if width < 60 {
        width as nat
    } else {
        60
    }
}

/// The tile of a card.
pub open spec fn tile_spec(c: Card, width: u16, selected: bool, all_cards: Seq<Card>) -> Seq<Seq<(Seq<char>, Tone)>> {
    seq![
        tile_line1(c, width, selected),
        tile_line2(c, all_cards),
        seq![(repeat_seq('─', rule_width(width)), Tone::BorderNormal)],
    ]
}

fn first_initials(users: &Vec<User>) -> (r: String)
    ensures
        r@ == join_seq(names(take_up_to(users@, 2)).map_values(|n: Seq<char>| initials_spec(n)), ","@),
{
    let k: usize = if users.len() < 2 {
        users.len()
    } else {
        2
    };
    let mut parts: Vec<String> = Vec::new();
    for i in 0..k
        invariant
            k <= users@.len(),
            k <= 2,
            views(parts@) == names(take_up_to(users@, 2)).take(i as int).map_values(|n: Seq<char>| initials_spec(n)),
    {
        let ini = user_initials(users[i].name.as_str());
        let ghost before = parts@;
        parts.push(ini);
        assert(views(parts@) =~= views(before).push(ini@));
        assert(names(take_up_to(users@, 2)).take(i + 1).map_values(|n: Seq<char>| initials_spec(n)) =~= names(
            take_up_to(users@, 2),
        ).take(i as int).map_values(|n: Seq<char>| initials_spec(n)).push(ini@));
    }
    assert(names(take_up_to(users@, 2)).take(k as int) =~= names(take_up_to(users@, 2)));
    join(&parts, ",")
}

fn first_tags(tags: &Vec<String>) -> (r: Option<String>)
    ensures
        visible_tags(views(tags@)).len() > 0 <==> r is Some,
        r matches Some(t) ==> t@ == " "@ + join_seq(
            crate::agent::prefixed("#"@, take_up_to(visible_tags(views(tags@)), 2)),
            " "@,
        ),
{
    let mut vis: Vec<String> = Vec::new();
    let n = tags.len();
    for i in 0..n
        invariant
            n == tags@.len(),
            views(vis@) == visible_tags(views(tags@.take(i as int))),
    {
        assert(views(tags@.take(i + 1)).drop_last() =~= views(tags@.take(i as int)));
        assert(views(tags@.take(i + 1)).last() == tags@[i as int]@);
        if !starts_with(tags[i].as_str(), DEP_PREFIX) {
            let ghost before = vis@;
            vis.push(tags[i].clone());
            assert(views(vis@) =~= views(before).push(tags@[i as int]@));
        }
    }
    assert(tags@.take(n as int) =~= tags@);
    if vis.len() == 0 {
        return None;
    }
    let k: usize = if vis.len() < 2 {
        vis.len()
    } else {
        2
    };
    let mut hashed: Vec<String> = Vec::new();
    for i in 0..k
        invariant
            k <= vis@.len(),
            k <= 2,
            views(hashed@) == crate::agent::prefixed("#"@, take_up_to(views(vis@), 2).take(i as int)),
    {
        let t = concat("#", vis[i].as_str());
        let ghost before = hashed@;
        hashed.push(t);
        assert(views(hashed@) =~= views(before).push(t@));
        assert(crate::agent::prefixed("#"@, take_up_to(views(vis@), 2).take(i + 1)) =~= crate::agent::prefixed(
            "#"@,
            take_up_to(views(vis@), 2).take(i as int),
        ).push(t@));
    }
    assert(take_up_to(views(vis@), 2).take(k as int) =~= take_up_to(views(vis@), 2));
    let j = join(&hashed, " ");
    Some(concat(" ", j.as_str()))
}

/// The tile that the board shows for a card, `width` bytes wide.
pub fn card_tile(card: &Card, width: u16, selected: bool, all_cards: &[Card]) -> (t: CardTile)
    requires
        cuttable(card.title@, title_room(*card, width) as usize),
    ensures
        lines_view(t.lines@) == tile_spec(*card, width, selected, all_cards@),
        t.style == if selected {
            Tone::SelectedCard
        } else {
            Tone::Plain
        },
{
    let mut number = "#".to_owned();
    push_u64(&mut number, card.number);
    let marker = if card.golden {
        "★ ".to_owned()
    } else {
        String::new()
    };
    let used = byte_len(number.as_str()) + 1 + byte_len(marker.as_str());
    let room: usize = if (width as u128) >= used {
        (width as u128 - used) as usize
    } else {
        0
    };
    assert(room == title_room(*card, width));
    let title = truncate(card.title.as_str(), room);
    let mut line1: Vec<Segment> = Vec::new();
    if card.golden && !selected {
        push_seg(&mut line1, marker, Tone::GoldenAccent);
    } else {
        push_seg(&mut line1, marker, Tone::Plain);
    }
    push_seg(&mut line1, concat(number.as_str(), " "), Tone::DimMeta);
    push_seg(&mut line1, title, Tone::Plain);
    assert(segs(line1@) =~= tile_line1(*card, width, selected));

    let mut line2: Vec<Segment> = Vec::new();
    push_seg(&mut line2, " ".to_owned(), Tone::Plain);
    let ghost l2a = segs(line2@);
    match &card.assignees {
        Some(a) => {
            if a.len() > 0 {
                let ini = first_initials(a);
                push_seg(&mut line2, concat("@", ini.as_str()), Tone::DimMeta);
            }
        },
        None => {},
    }
    let ghost l2b = segs(line2@);
    match first_tags(&card.tags) {
        Some(t) => push_seg(&mut line2, t, Tone::DimMeta),
        None => {},
    }
    let ghost l2c = segs(line2@);
    let deps = parse_deps(card.tags.as_slice());
    if deps.len() > 0 {
        if deps_satisfied(card, all_cards) {
            push_seg(&mut line2, " ✓".to_owned(), Tone::ReadyIndicator);
        } else {
            let blocked = unsatisfied_deps(card, all_cards);
            let list = numbers_text(&blocked, ",");
            push_seg(&mut line2, concat(" ✗", list.as_str()), Tone::BlockedIndicator);
        }
    }
    assert(segs(line2@) =~~= tile_line2(*card, all_cards@));

    let rule_w: usize = if width < 60 {
        width as usize
    } else {
        60
    };
    let mut line3: Vec<Segment> = Vec::new();
    push_seg(&mut line3, repeat_char('─', rule_w), Tone::BorderNormal);
    let mut lines: Vec<Vec<Segment>> = Vec::new();
    push_styled(&mut lines, line1);
    push_styled(&mut lines, line2);
    push_styled(&mut lines, line3);
    assert(lines_view(lines@) =~~= tile_spec(*card, width, selected, all_cards@));
    CardTile {
        lines,
        style: if selected {
            Tone::SelectedCard
        } else {
            Tone::Plain
        },
    }
}


// ---------------------------------------------------------------------------
// Columns
// ---------------------------------------------------------------------------

/// What a column shows: its title and tones, where its window of tiles starts, which
/// cards it shows, and whether there are cards above or below the window.
#[derive(Debug)]
pub struct ColumnLayout {
    pub title: String,
    pub header: Tone,
    pub border: Tone,
    pub scroll: usize,
    pub shown: Vec<usize>,
    pub more_above: bool,
    pub more_below: bool,
}

/// The height of a tile.
pub const CARD_HEIGHT: u16 = 3;

/// The stored scroll offset of a column.
pub open spec fn stored_scroll(app: App, col: int) -> int {
    if col < app.scroll_offsets@.len() {
        app.scroll_offsets@[col] as int
    } else {
        0
    }
}

/// Where the window of column `col` starts, `visible` tiles high: the selected column
/// scrolls so that the selected card is in the window. A selected column with no room for a
/// tile starts at 0 when the selection is at or past the stored offset: the window would
/// start `visible - 1` before the selection, and that count wraps around to `usize::MAX`,
/// which saturating subtraction takes down to 0.
pub open spec fn window_start(app: App, col: int, visible: int) -> int {
    let stored = stored_scroll(app, col);
    if col == app.selected_column {
        if app.selected_card >= stored + visible {
            if visible == 0 {
                0
            } else if app.selected_card >= visible - 1 {
                app.selected_card - (visible - 1)
            } else {
                0
            }
        } else if app.selected_card < stored {
            app.selected_card as int
        } else {
            stored
        }
    } else {
        stored
    }
}

/// The cards a column shows, `inner_height` rows high: from the window's start, as many
/// whole tiles as fit.
pub open spec fn shown_spec(app: App, col: int, inner_height: u16) -> Seq<usize> {
    let cs = app.col_cards(col);
    let visible = inner_height / CARD_HEIGHT;
    let start = window_start(app, col, visible as int);
    if cs.len() == 0 || start >= cs.len() {
        Seq::empty()
    } else {
        take_up_to(cs.skip(start), visible as int)
    }
}

fn window(app: &App, col_idx: usize, visible: usize) -> (scroll: usize)
    requires
        app.wf(),
        visible <= u16::MAX,
    ensures
        scroll == window_start(*app, col_idx as int, visible as int),
{
    let stored: usize = if col_idx < app.scroll_offsets.len() {
        app.scroll_offsets[col_idx]
    } else {
        0
    };
    if col_idx == app.selected_column {
        if app.selected_card >= stored + visible {
            if visible == 0 {
                0
            } else if app.selected_card >= visible - 1 {
                app.selected_card - (visible - 1)
            } else {
                0
            }
        } else if app.selected_card < stored {
            app.selected_card
        } else {
            stored
        }
    } else {
        stored
    }
}

fn window_cards(cards: &Vec<usize>, scroll: usize, visible: usize) -> (shown: Vec<usize>)
    ensures
        shown@ == if cards@.len() == 0 || scroll >= cards@.len() {
            Seq::<usize>::empty()
        } else {
            take_up_to(cards@.skip(scroll as int), visible as int)
        },
{
    let count = cards.len();
    let mut shown: Vec<usize> = Vec::new();
    if scroll < count {
        let end: usize = if count - scroll <= visible {
            count
        } else {
            scroll + visible
        };
        for k in scroll..end
            invariant
                scroll <= end <= count,
                count == cards@.len(),
                shown@ == cards@.subrange(scroll as int, k as int),
        {
            shown.push(cards[k]);
            assert(shown@ =~= cards@.subrange(scroll as int, k + 1));
        }
        assert(shown@ =~= take_up_to(cards@.skip(scroll as int), visible as int));
    }
    shown
}

/// The layout of column `col_idx` with `inner_height` rows inside its border.
pub fn column_layout(app: &App, col_idx: usize, inner_height: u16) -> (l: ColumnLayout)
    requires
        app.wf(),
        col_idx < app.columns@.len(),
    ensures
        l.title@ == " "@ + app.columns@[col_idx as int].name@ + " ("@ + dec_seq(
            app.col_cards(col_idx as int).len(),
        ) + ") "@,
        l.header == ({
            let rgb = color_rgb(lowercase(app.columns@[col_idx as int].color.name_view()));
            Tone::ColumnHeader(rgb.0, rgb.1, rgb.2)
        }),
        l.border == if col_idx == app.selected_column {
            Tone::BorderSelected
        } else {
            Tone::BorderNormal
        },
        app.col_cards(col_idx as int).len() > 0 ==> l.scroll == window_start(
            *app,
            col_idx as int,
            (inner_height / CARD_HEIGHT) as int,
        ),
        l.shown@ == shown_spec(*app, col_idx as int, inner_height),
        l.more_above == (app.col_cards(col_idx as int).len() > 0 && l.scroll > 0),
        l.more_below == (app.col_cards(col_idx as int).len() > 0 && l.scroll + inner_height / CARD_HEIGHT
            < app.col_cards(col_idx as int).len()),
{
    let col = &app.columns[col_idx];
    let is_selected = col_idx == app.selected_column;
    let cards = app.cards_in_column(col_idx);
    let count = cards.len();
    let mut title = " ".to_owned();
    push_str(&mut title, col.name.as_str());
    push_str(&mut title, " (");
    push_u64(&mut title, count as u64);
    push_str(&mut title, ") ");
    let rgb = column_color(&col.color);
    let header = Tone::ColumnHeader(rgb.0, rgb.1, rgb.2);
    let border = if is_selected {
        Tone::BorderSelected
    } else {
        Tone::BorderNormal
    };
    if count == 0 {
        return ColumnLayout {
            title,
            header,
            border,
            scroll: 0,
            shown: Vec::new(),
            more_above: false,
            more_below: false,
        };
    }
    let visible: usize = (inner_height / CARD_HEIGHT) as usize;
    let scroll = window(app, col_idx, visible);
    let shown = window_cards(&cards, scroll, visible);
    ColumnLayout {
        title,
        header,
        border,
        scroll,
        shown,
        more_above: scroll > 0,
        more_below: scroll + visible < count,
    }
}

// ---------------------------------------------------------------------------
// Board heading and status bar
// ---------------------------------------------------------------------------

/// What the board area shows before there are columns: "Loading..." while loading, else
/// "No columns"; nothing once there are columns.
pub open spec fn placeholder_spec(app: App) -> Option<Seq<char>> {
    if app.columns@.len() > 0 {
        None
    } else if app.loading {
        Some("Loading..."@)
    } else {
        Some("No columns"@)
    }
}

/// The text in place of the board when it has no columns.
pub fn board_placeholder(app: &App) -> (r: Option<String>)
    ensures
        match r {
            Some(t) => placeholder_spec(*app) == Some(t@),
            None => placeholder_spec(*app) is None,
        },
{
    if app.columns.len() > 0 {
        None
    } else if app.loading {
        Some("Loading...".to_owned())
    } else {
        Some("No columns".to_owned())
    }
}

/// The heading of the board: its name (or "Board") and the number of cards.
pub open spec fn board_title_spec(app: App) -> Seq<(Seq<char>, Tone)> {
    seq![
        (" "@ + match app.board {
            Some(b) => b.name@,
            None => "Board"@,
        } + " "@, Tone::BoardTitle),
        ("  "@ + dec_seq(app.cards@.len()) + " cards"@, Tone::DimMeta),
    ]
}

/// The heading line of the board.
pub fn board_title_line(app: &App) -> (l: Vec<Segment>)
    ensures
        segs(l@) == board_title_spec(*app),
{
    let mut name = " ".to_owned();
    match &app.board {
        Some(b) => push_str(&mut name, b.name.as_str()),
        None => push_str(&mut name, "Board"),
    }
    push_str(&mut name, " ");
    let mut count = "  ".to_owned();
    push_u64(&mut count, app.cards.len() as u64);
    push_str(&mut count, " cards");
    let mut l: Vec<Segment> = Vec::new();
    push_seg(&mut l, name, Tone::BoardTitle);
    push_seg(&mut l, count, Tone::DimMeta);
    assert(segs(l@) =~= board_title_spec(*app));
    l
}

/// The tone of a status message.
pub open spec fn status_tone(kind: StatusKind) -> Tone {
    match kind {
        StatusKind::Info => Tone::StatusInfo,
        StatusKind::Success => Tone::StatusSuccess,
        StatusKind::Error => Tone::StatusError,
    }
}

/// The key hints of the status bar.
pub open spec fn board_hints() -> Seq<(Seq<char>, Tone)> {
    seq![
        (" h/l"@, Tone::HelpKey), (":col "@, Tone::HelpDesc),
        ("j/k"@, Tone::HelpKey), (":card "@, Tone::HelpDesc),
        ("Enter"@, Tone::HelpKey), (":open "@, Tone::HelpDesc),
        ("m"@, Tone::HelpKey), (":move "@, Tone::HelpDesc),
        ("a"@, Tone::HelpKey), (":assign "@, Tone::HelpDesc),
        ("c"@, Tone::HelpKey), (":comment "@, Tone::HelpDesc),
        ("g"@, Tone::HelpKey), (":gold "@, Tone::HelpDesc),
        ("r"@, Tone::HelpKey), (":refresh "@, Tone::HelpDesc),
        ("?"@, Tone::HelpKey), (":help "@, Tone::HelpDesc),
        ("q"@, Tone::HelpKey), (":quit"@, Tone::HelpDesc),
    ]
}

/// The status bar: the status message in its tone, else the key hints.
pub open spec fn status_bar_spec(app: App) -> Seq<(Seq<char>, Tone)> {
    match app.status_message {
        Some((m, k)) => seq![(" "@ + m@, status_tone(k))],
        None => board_hints(),
    }
}

fn key_hint(l: &mut Vec<Segment>, key: &str, desc: &str)
    ensures
        segs(final(l)@) == segs(old(l)@) + seq![(key@, Tone::HelpKey), (desc@, Tone::HelpDesc)],
{
    let ghost before = segs(l@);
    push_seg(l, key.to_owned(), Tone::HelpKey);
    push_seg(l, desc.to_owned(), Tone::HelpDesc);
    assert(segs(l@) =~= before + seq![(key@, Tone::HelpKey), (desc@, Tone::HelpDesc)]);
}

/// The status bar line.
pub fn status_bar_line(app: &App) -> (l: Vec<Segment>)
    ensures
        segs(l@) == status_bar_spec(*app),
{
    let mut l: Vec<Segment> = Vec::new();
    match &app.status_message {
        Some((m, k)) => {
            let tone = match k {
                StatusKind::Info => Tone::StatusInfo,
                StatusKind::Success => Tone::StatusSuccess,
                StatusKind::Error => Tone::StatusError,
            };
            push_seg(&mut l, concat(" ", m.as_str()), tone);
            assert(segs(l@) =~= status_bar_spec(*app));
        },
        None => {
            key_hint(&mut l, " h/l", ":col ");
            key_hint(&mut l, "j/k", ":card ");
            key_hint(&mut l, "Enter", ":open ");
            key_hint(&mut l, "m", ":move ");
            key_hint(&mut l, "a", ":assign ");
            key_hint(&mut l, "c", ":comment ");
            key_hint(&mut l, "g", ":gold ");
            key_hint(&mut l, "r", ":refresh ");
            key_hint(&mut l, "?", ":help ");
            key_hint(&mut l, "q", ":quit");
            assert(segs(l@) =~= board_hints());
        },
    }
    l
}


// ---------------------------------------------------------------------------
// The card panel
// ---------------------------------------------------------------------------

/// The detail panel of a card: its title, its lines from the scroll position on, and the
/// key hints at its foot.
#[derive(Debug)]
pub struct DetailPanel {
    pub title: String,
    pub lines: Vec<Vec<Segment>>,
    pub footer: Vec<Segment>,
}

/// A dimmed label and a plain value.
pub open spec fn meta(label: Seq<char>, value: Seq<char>) -> Seq<(Seq<char>, Tone)> {
    seq![(label, Tone::DimMeta), (value, Tone::Plain)]
}

/// A heading between two rules.
pub open spec fn heading(title: Seq<char>) -> Seq<(Seq<char>, Tone)> {
    seq![(" ─── "@ + title + " ───"@, Tone::DimMeta)]
}

/// Each text line with `indent` before it, as plain lines.
pub open spec fn indented(indent: Seq<char>, text: Seq<char>) -> Seq<Seq<(Seq<char>, Tone)>> {
    text_lines(text).map_values(|l: Seq<char>| pl(indent + l))
}

/// The lines on a card's metadata: column (or "Triage"), assignees, tags, golden, age.
pub open spec fn panel_meta_spec(c: Card, now: Timestamp) -> Seq<Seq<(Seq<char>, Tone)>> {
    seq![
        pl(Seq::empty()),
        meta(" Column:   "@, match c.column {
            Some(col) => col.name@,
            None => "Triage"@,
        }),
    ] + match c.assignees {
        Some(a) => if a@.len() > 0 {
            seq![meta(" Assigned: "@, join_seq(names(a@), ", "@))]
        } else {
            Seq::empty()
        },
        None => Seq::empty(),
    } + if c.tags@.len() > 0 {
        seq![meta(" Tags:     "@, join_seq(crate::agent::prefixed("#"@, views(c.tags@)), " "@))]
    } else {
        Seq::empty()
    } + if c.golden {
        seq![seq![(" Golden:   "@, Tone::DimMeta), ("★ Yes"@, Tone::GoldenAccent)]]
    } else {
        Seq::empty()
    } + seq![meta(" Created:  "@, relative_time_spec(c.created_at, now)), pl(Seq::empty())]
}

/// The description block: a heading, the lines indented by one space, an empty line.
pub open spec fn panel_description_spec(c: Card) -> Seq<Seq<(Seq<char>, Tone)>> {
    if c.description@.len() > 0 {
        seq![heading("Description"@)] + indented(" "@, c.description@) + seq![pl(Seq::empty())]
    } else {
        Seq::empty()
    }
}

/// The line of a step in the panel.
pub open spec fn panel_step_spec(s: Step) -> Seq<(Seq<char>, Tone)> {
    pl(" "@ + (if s.completed {
        "[✓]"@
    } else {
        "[ ]"@
    }) + " "@ + s.content@)
}

/// A step's line in the card panel shows whether it is done: the box holds a check mark
/// exactly for a completed step and a space exactly for an open one, and the step's text
/// follows the box.
pub proof fn law_panel_step_shows_completion(s: Step)
    ensures
        ({
            let t = panel_step_spec(s)[0].0;
            &&& t.len() == 5 + s.content@.len()
            &&& (t[2] == '✓') <==> s.completed
            &&& (t[2] == ' ') <==> !s.completed
            &&& t.skip(5) == s.content@
        }),
{
    reveal_strlit(" ");
    reveal_strlit("[✓]");
    reveal_strlit("[ ]");
    let t = panel_step_spec(s)[0].0;
    assert(t.skip(5) =~= s.content@);
}

/// The steps block.
pub open spec fn panel_steps_spec(c: Card) -> Seq<Seq<(Seq<char>, Tone)>> {
    match c.steps {
        Some(v) => if v@.len() > 0 {
            seq![heading("Steps"@)] + v@.map_values(|s: Step| panel_step_spec(s)) + seq![pl(Seq::empty())]
        } else {
            Seq::empty()
        },
        None => Seq::empty(),
    }
}

/// The lines of one comment in the panel: author in bold with its age, the text indented
/// by three spaces, and an empty line.
pub open spec fn panel_comment_spec(c: Comment, now: Timestamp) -> Seq<Seq<(Seq<char>, Tone)>> {
    seq![seq![(" "@ + c.creator.name@ + " "@, Tone::Bold), ("· "@ + relative_time_spec(c.created_at, now), Tone::DimMeta)]]
        + indented("   "@, c.body.plain_text@) + seq![pl(Seq::empty())]
}

/// The blocks of all the comments.
pub open spec fn panel_comment_blocks(cs: Seq<Comment>, now: Timestamp) -> Seq<Seq<(Seq<char>, Tone)>>
    decreases cs.len(),
{
    if cs.len() == 0 {
        Seq::empty()
    } else {
        panel_comment_blocks(cs.drop_last(), now) + panel_comment_spec(cs.last(), now)
    }
}

/// The comments block, with their number in the heading.
pub open spec fn panel_comments_spec(cs: Seq<Comment>, now: Timestamp) -> Seq<Seq<(Seq<char>, Tone)>> {
    if cs.len() > 0 {
        seq![heading("Comments ("@ + dec_seq(cs.len()) + ")"@)] + panel_comment_blocks(cs, now)
    } else {
        Seq::empty()
    }
}

/// All the lines of the panel, before scrolling.
pub open spec fn panel_lines_spec(d: CardDetail, now: Timestamp) -> Seq<Seq<(Seq<char>, Tone)>> {
    panel_meta_spec(d.card, now) + panel_description_spec(d.card) + panel_steps_spec(d.card)
        + panel_comments_spec(d.comments@, now)
}

/// The title of the panel: the star of a golden card, the number and the title.
pub open spec fn panel_title_spec(c: Card) -> Seq<char> {
    " "@ + golden_marker(c) + "#"@ + dec_seq(c.number as nat) + " "@ + c.title@ + " "@
}

/// The key hints at the foot of the panel.
pub open spec fn panel_footer() -> Seq<(Seq<char>, Tone)> {
    seq![
        (" Esc"@, Tone::HelpKey), (":back "@, Tone::HelpDesc),
        ("m"@, Tone::HelpKey), (":move "@, Tone::HelpDesc),
        ("a"@, Tone::HelpKey), (":assign "@, Tone::HelpDesc),
        ("c"@, Tone::HelpKey), (":comment "@, Tone::HelpDesc),
        ("g"@, Tone::HelpKey), (":gold "@, Tone::HelpDesc),
        ("j/k"@, Tone::HelpKey), (":scroll"@, Tone::HelpDesc),
    ]
}

fn meta_line(label: &str, value: String) -> (l: Vec<Segment>)
    ensures
        segs(l@) == meta(label@, value@),
{
    let mut l: Vec<Segment> = Vec::new();
    push_seg(&mut l, label.to_owned(), Tone::DimMeta);
    push_seg(&mut l, value, Tone::Plain);
    assert(segs(l@) =~= meta(label@, value@));
    l
}

fn heading_line(title: &str) -> (l: Vec<Segment>)
    ensures
        segs(l@) == heading(title@),
{
    let mut t = " ─── ".to_owned();
    push_str(&mut t, title);
    push_str(&mut t, " ───");
    let mut l: Vec<Segment> = Vec::new();
    push_seg(&mut l, t, Tone::DimMeta);
    assert(segs(l@) =~= heading(title@));
    l
}

fn push_indented(out: &mut Vec<Vec<Segment>>, indent: &str, text: &str)
    ensures
        lines_view(final(out)@) == lines_view(old(out)@) + indented(indent@, text@),
{
    let ls = lines_of(text);
    let ghost start = lines_view(out@);
    let n = ls.len();
    for i in 0..n
        invariant
            n == ls@.len(),
            views(ls@) == text_lines(text@),
            lines_view(out@) == start + views(ls@).take(i as int).map_values(|l: Seq<char>| pl(indent@ + l)),
    {
        let line = concat(indent, ls[i].as_str());
        push_plain(out, line);
        assert(views(ls@)[i as int] == ls@[i as int]@);
        assert(views(ls@).take(i + 1).map_values(|l: Seq<char>| pl(indent@ + l)) =~= views(ls@).take(
            i as int,
        ).map_values(|l: Seq<char>| pl(indent@ + l)).push(pl(line@)));
    }
    assert(views(ls@).take(n as int) =~= views(ls@));
}

fn names_joined(users: &Vec<User>) -> (r: String)
    ensures
        r@ == join_seq(names(users@), ", "@),
{
    let mut parts: Vec<String> = Vec::new();
    let n = users.len();
    for i in 0..n
        invariant
            n == users@.len(),
            views(parts@) == names(users@.take(i as int)),
    {
        let t = users[i].name.clone();
        let ghost before = parts@;
        parts.push(t);
        assert(views(parts@) =~= views(before).push(t@));
        assert(names(users@.take(i + 1)) =~= names(users@.take(i as int)).push(t@));
    }
    assert(users@.take(n as int) =~= users@);
    join(&parts, ", ")
}

fn hashed_all(tags: &Vec<String>) -> (r: String)
    ensures
        r@ == join_seq(crate::agent::prefixed("#"@, views(tags@)), " "@),
{
    let mut parts: Vec<String> = Vec::new();
    let n = tags.len();
    for i in 0..n
        invariant
            n == tags@.len(),
            views(parts@) == crate::agent::prefixed("#"@, views(tags@.take(i as int))),
    {
        let t = concat("#", tags[i].as_str());
        let ghost before = parts@;
        parts.push(t);
        assert(views(parts@) =~= views(before).push(t@));
        assert(crate::agent::prefixed("#"@, views(tags@.take(i + 1))) =~= crate::agent::prefixed(
            "#"@,
            views(tags@.take(i as int)),
        ).push(t@));
    }
    assert(tags@.take(n as int) =~= tags@);
    join(&parts, " ")
}

fn panel_meta(c: &Card, now: &Timestamp) -> (r: Vec<Vec<Segment>>)
    ensures
        lines_view(r@) == panel_meta_spec(*c, *now),
{
    let mut out: Vec<Vec<Segment>> = Vec::new();
    push_plain(&mut out, String::new());
    let col = match &c.column {
        Some(col) => col.name.clone(),
        None => "Triage".to_owned(),
    };
    push_styled(&mut out, meta_line(" Column:   ", col));
    match &c.assignees {
        Some(a) => {
            if a.len() > 0 {
                push_styled(&mut out, meta_line(" Assigned: ", names_joined(a)));
            }
        },
        None => {},
    }
    if c.tags.len() > 0 {
        push_styled(&mut out, meta_line(" Tags:     ", hashed_all(&c.tags)));
    }
    if c.golden {
        let mut l: Vec<Segment> = Vec::new();
        push_seg(&mut l, " Golden:   ".to_owned(), Tone::DimMeta);
        push_seg(&mut l, "★ Yes".to_owned(), Tone::GoldenAccent);
        push_styled(&mut out, l);
    }
    push_styled(&mut out, meta_line(" Created:  ", relative_time_at(&c.created_at, now)));
    push_plain(&mut out, String::new());
    assert(lines_view(out@) =~~= panel_meta_spec(*c, *now));
    out
}

fn panel_rest(c: &Card) -> (r: Vec<Vec<Segment>>)
    ensures
        lines_view(r@) == panel_description_spec(*c) + panel_steps_spec(*c),
{
    let mut out: Vec<Vec<Segment>> = Vec::new();
    if !c.description.as_str().is_empty() {
        push_styled(&mut out, heading_line("Description"));
        push_indented(&mut out, " ", c.description.as_str());
        push_plain(&mut out, String::new());
    }
    let ghost d = lines_view(out@);
    assert(d =~~= panel_description_spec(*c));
    match &c.steps {
        Some(v) => {
            if v.len() > 0 {
                push_styled(&mut out, heading_line("Steps"));
                let ghost base = lines_view(out@);
                let n = v.len();
                for i in 0..n
                    invariant
                        n == v@.len(),
                        lines_view(out@) == base + v@.take(i as int).map_values(|s: Step| panel_step_spec(s)),
                {
                    let s = &v[i];
                    let mut t = " ".to_owned();
                    if s.completed {
                        push_str(&mut t, "[✓]");
                    } else {
                        push_str(&mut t, "[ ]");
                    }
                    push_str(&mut t, " ");
                    push_str(&mut t, s.content.as_str());
                    push_plain(&mut out, t);
                    assert(v@.take(i + 1).map_values(|s: Step| panel_step_spec(s)) =~= v@.take(i as int).map_values(
                        |s: Step| panel_step_spec(s),
                    ).push(panel_step_spec(v@[i as int])));
                }
                assert(v@.take(n as int) =~= v@);
                push_plain(&mut out, String::new());
            }
        },
        None => {},
    }
    assert(lines_view(out@) =~~= panel_description_spec(*c) + panel_steps_spec(*c));
    out
}

fn panel_comments(cs: &Vec<Comment>, now: &Timestamp) -> (r: Vec<Vec<Segment>>)
    ensures
        lines_view(r@) == panel_comments_spec(cs@, *now),
{
    let mut out: Vec<Vec<Segment>> = Vec::new();
    if cs.len() == 0 {
        return out;
    }
    let mut h = "Comments (".to_owned();
    push_u64(&mut h, cs.len() as u64);
    push_str(&mut h, ")");
    push_styled(&mut out, heading_line(h.as_str()));
    let ghost base = lines_view(out@);
    let n = cs.len();
    for i in 0..n
        invariant
            n == cs@.len(),
            lines_view(out@) == base + panel_comment_blocks(cs@.take(i as int), *now),
    {
        let c = &cs[i];
        let ghost before = lines_view(out@);
        let mut l: Vec<Segment> = Vec::new();
        let mut who = " ".to_owned();
        push_str(&mut who, c.creator.name.as_str());
        push_str(&mut who, " ");
        push_seg(&mut l, who, Tone::Bold);
        let age = relative_time_at(&c.created_at, now);
        push_seg(&mut l, concat("· ", age.as_str()), Tone::DimMeta);
        push_styled(&mut out, l);
        push_indented(&mut out, "   ", c.body.plain_text.as_str());
        push_plain(&mut out, String::new());
        assert(cs@.take(i + 1).drop_last() =~= cs@.take(i as int));
        assert(lines_view(out@) =~~= before + panel_comment_spec(cs@[i as int], *now));
    }
    assert(cs@.take(n as int) =~= cs@);
    assert(lines_view(out@) =~~= panel_comments_spec(cs@, *now));
    out
}

/// The detail panel of the open card, scrolled by its scroll position; ages are measured
/// from `now`.
pub fn detail_panel(d: &CardDetail, now: &Timestamp) -> (p: DetailPanel)
    ensures
        p.title@ == panel_title_spec(d.card),
        lines_view(p.lines@) == if d.scroll < panel_lines_spec(*d, *now).len() {
            panel_lines_spec(*d, *now).skip(d.scroll as int)
        } else {
            Seq::empty()
        },
        segs(p.footer@) == panel_footer(),
{
    let c = &d.card;
    let mut all = panel_meta(c, now);
    crate::styled::extend_styled(&mut all, panel_rest(c));
    crate::styled::extend_styled(&mut all, panel_comments(&d.comments, now));
    let ghost full = lines_view(all@);
    assert(full =~= panel_lines_spec(*d, *now));
    let mut lines: Vec<Vec<Segment>> = Vec::new();
    if d.scroll < all.len() {
        let mut rest = all.split_off(d.scroll);
        assert(rest@ =~= all@.subrange(0, 0) + rest@);
        lines = rest;
        assert(lines_view(lines@) =~= full.skip(d.scroll as int));
    }
    let mut title = " ".to_owned();
    if c.golden {
        push_str(&mut title, "★ ");
    }
    push_str(&mut title, "#");
    push_u64(&mut title, c.number);
    push_str(&mut title, " ");
    push_str(&mut title, c.title.as_str());
    push_str(&mut title, " ");
    let mut footer: Vec<Segment> = Vec::new();
    key_hint(&mut footer, " Esc", ":back ");
    key_hint(&mut footer, "m", ":move ");
    key_hint(&mut footer, "a", ":assign ");
    key_hint(&mut footer, "c", ":comment ");
    key_hint(&mut footer, "g", ":gold ");
    key_hint(&mut footer, "j/k", ":scroll");
    assert(segs(footer@) =~= panel_footer());
    DetailPanel { title, lines, footer }
}


// ---------------------------------------------------------------------------
// Dialogs
// ---------------------------------------------------------------------------

/// A dialog: its size in percent of the screen, its title and its lines.
#[derive(Debug)]
pub struct DialogView {
    pub width_pct: u16,
    pub height_pct: u16,
    pub title: String,
    pub lines: Vec<Vec<Segment>>,
}

/// The lines of a picker: an empty line, then each option, the selected one marked and
/// highlighted.
pub open spec fn picker_lines_spec(options: Seq<Seq<char>>, selected: usize) -> Seq<Seq<(Seq<char>, Tone)>> {
    seq![pl(Seq::empty())] + Seq::new(
        options.len(),
        |i: int|
            seq![
                ((if i == selected {
                    " ▶ "@
                } else {
                    "   "@
                }) + options[i], if i == selected {
                    Tone::SelectedCard
                } else {
                    Tone::Plain
                }),
            ],
    )
}

/// The lines of the help dialog.
pub open spec fn help_lines_spec() -> Seq<Seq<(Seq<char>, Tone)>> {
    seq![
        pl(Seq::empty()),
        seq![("  Navigation"@, Tone::Bold)],
        help_line_spec("h/←"@, "Previous column"@),
        help_line_spec("l/→"@, "Next column"@),
        help_line_spec("k/↑"@, "Previous card"@),
        help_line_spec("j/↓"@, "Next card"@),
        pl(Seq::empty()),
        seq![("  Actions"@, Tone::Bold)],
        help_line_spec("Enter"@, "Open card detail"@),
        help_line_spec("Esc"@, "Go back / close"@),
        help_line_spec("m"@, "Move card to column"@),
        help_line_spec("a"@, "Assign / unassign user"@),
        help_line_spec("c"@, "Add comment"@),
        help_line_spec("g"@, "Toggle golden"@),
        help_line_spec("r"@, "Refresh data"@),
        help_line_spec("?"@, "This help"@),
        help_line_spec("q"@, "Quit"@),
    ]
}

/// The column names of the options.
pub open spec fn column_names(cs: Seq<crate::models::Column>) -> Seq<Seq<char>> {
    cs.map_values(|c: crate::models::Column| c.name@)
}

/// Size, title and lines of each dialog.
pub open spec fn dialog_spec(modal: Modal) -> (u16, u16, Seq<char>, Seq<Seq<(Seq<char>, Tone)>>) {
    match modal {
        Modal::ColumnPicker { options, selected } => (
            40,
            50,
            " Move to column "@,
            picker_lines_spec(column_names(options@), selected),
        ),
        Modal::AssignPicker { options, selected } => (
            40,
            50,
            " Assign to user "@,
            picker_lines_spec(names(options@), selected),
        ),
        Modal::CommentInput { buffer } => (
            60,
            20,
            " Add comment (Enter to submit, Esc to cancel) "@,
            seq![pl(Seq::empty()), pl(" > "@ + buffer@ + "█"@)],
        ),
        Modal::Help => (50, 70, " Help "@, help_lines_spec()),
    }
}

fn picker_lines(options: &Vec<String>, selected: usize) -> (r: Vec<Vec<Segment>>)
    ensures
        lines_view(r@) == picker_lines_spec(views(options@), selected),
{
    let mut out: Vec<Vec<Segment>> = Vec::new();
    push_plain(&mut out, String::new());
    let ghost base = lines_view(out@);
    let ghost spec_lines = picker_lines_spec(views(options@), selected);
    let n = options.len();
    for i in 0..n
        invariant
            n == options@.len(),
            base == seq![pl(Seq::<char>::empty())],
            spec_lines == picker_lines_spec(views(options@), selected),
            lines_view(out@) == spec_lines.take(i + 1),
    {
        let mut l: Vec<Segment> = Vec::new();
        if i == selected {
            push_seg(&mut l, concat(" ▶ ", options[i].as_str()), Tone::SelectedCard);
        } else {
            push_seg(&mut l, concat("   ", options[i].as_str()), Tone::Plain);
        }
        assert(views(options@)[i as int] == options@[i as int]@);
        push_styled(&mut out, l);
        assert(lines_view(out@) =~~= spec_lines.take(i + 2));
    }
    assert(spec_lines.take(n + 1) =~= spec_lines);
    out
}

fn column_option_names(cs: &Vec<crate::models::Column>) -> (r: Vec<String>)
    ensures
        views(r@) == column_names(cs@),
{
    let mut r: Vec<String> = Vec::new();
    let n = cs.len();
    for i in 0..n
        invariant
            n == cs@.len(),
            views(r@) == column_names(cs@.take(i as int)),
    {
        let t = cs[i].name.clone();
        let ghost before = r@;
        r.push(t);
        assert(views(r@) =~= views(before).push(t@));
        assert(column_names(cs@.take(i + 1)) =~= column_names(cs@.take(i as int)).push(t@));
    }
    assert(cs@.take(n as int) =~= cs@);
    r
}

fn user_option_names(us: &Vec<User>) -> (r: Vec<String>)
    ensures
        views(r@) == names(us@),
{
    let mut r: Vec<String> = Vec::new();
    let n = us.len();
    for i in 0..n
        invariant
            n == us@.len(),
            views(r@) == names(us@.take(i as int)),
    {
        let t = us[i].name.clone();
        let ghost before = r@;
        r.push(t);
        assert(views(r@) =~= views(before).push(t@));
        assert(names(us@.take(i + 1)) =~= names(us@.take(i as int)).push(t@));
    }
    assert(us@.take(n as int) =~= us@);
    r
}

fn help_lines() -> (r: Vec<Vec<Segment>>)
    ensures
        lines_view(r@) == help_lines_spec(),
{
    let mut out: Vec<Vec<Segment>> = Vec::new();
    push_plain(&mut out, String::new());
    let mut nav: Vec<Segment> = Vec::new();
    push_seg(&mut nav, "  Navigation".to_owned(), Tone::Bold);
    push_styled(&mut out, nav);
    push_styled(&mut out, help_line("h/←", "Previous column"));
    push_styled(&mut out, help_line("l/→", "Next column"));
    push_styled(&mut out, help_line("k/↑", "Previous card"));
    push_styled(&mut out, help_line("j/↓", "Next card"));
    push_plain(&mut out, String::new());
    let mut act: Vec<Segment> = Vec::new();
    push_seg(&mut act, "  Actions".to_owned(), Tone::Bold);
    push_styled(&mut out, act);
    push_styled(&mut out, help_line("Enter", "Open card detail"));
    push_styled(&mut out, help_line("Esc", "Go back / close"));
    push_styled(&mut out, help_line("m", "Move card to column"));
    push_styled(&mut out, help_line("a", "Assign / unassign user"));
    push_styled(&mut out, help_line("c", "Add comment"));
    push_styled(&mut out, help_line("g", "Toggle golden"));
    push_styled(&mut out, help_line("r", "Refresh data"));
    push_styled(&mut out, help_line("?", "This help"));
    push_styled(&mut out, help_line("q", "Quit"));
    assert(lines_view(out@) =~~= help_lines_spec());
    out
}

/// What a dialog shows.
pub fn dialog_view(modal: &Modal) -> (d: DialogView)
    ensures
        (d.width_pct, d.height_pct, d.title@, lines_view(d.lines@)) == dialog_spec(*modal),
{
    match modal {
        Modal::ColumnPicker { options, selected } => {
            let opts = column_option_names(options);
            DialogView {
                width_pct: 40,
                height_pct: 50,
                title: " Move to column ".to_owned(),
                lines: picker_lines(&opts, *selected),
            }
        },
        Modal::AssignPicker { options, selected } => {
            let opts = user_option_names(options);
            DialogView {
                width_pct: 40,
                height_pct: 50,
                title: " Assign to user ".to_owned(),
                lines: picker_lines(&opts, *selected),
            }
        },
        Modal::CommentInput { buffer } => {
            let mut out: Vec<Vec<Segment>> = Vec::new();
            push_plain(&mut out, String::new());
            let mut t = " > ".to_owned();
            push_str(&mut t, buffer.as_str());
            push_str(&mut t, "█");
            push_plain(&mut out, t);
            assert(lines_view(out@) =~~= seq![pl(Seq::<char>::empty()), pl(" > "@ + buffer@ + "█"@)]);
            DialogView {
                width_pct: 60,
                height_pct: 20,
                title: " Add comment (Enter to submit, Esc to cancel) ".to_owned(),
                lines: out,
            }
        },
        Modal::Help => DialogView {
            width_pct: 50,
            height_pct: 70,
            title: " Help ".to_owned(),
            lines: help_lines(),
        },
    }
}

// ---------------------------------------------------------------------------
// Layout
// ---------------------------------------------------------------------------

/// A rectangle of the terminal.
#[derive(Clone, Copy, Debug, PartialEq, Eq, Structural)]
pub struct Area {
    pub x: u16,
    pub y: u16,
    pub width: u16,
    pub height: u16,
}

/// The direction in which an area is split.
#[derive(Clone, Copy, Debug, PartialEq, Eq, Structural)]
pub enum Axis {
    Vertical,
    Horizontal,
}

/// `ratatui::layout::Layout` with the direction `axis` and three percentage constraints,
/// split over `area`: one area per constraint, as `Layout::split` returns them.
///
/// Only the number of areas is stated. Where the areas fall is left unsaid: `ratatui`
/// solves the constraints with `cassowary`, whose solver walks hash maps seeded per process,
/// and its documentation calls some layouts indeterminate, so the same arguments need not
/// give the same areas in every process.
#[verifier::external_body]
fn split_percent(axis: Axis, p0: u16, p1: u16, p2: u16, area: Area) -> (r: Vec<Area>)
    ensures
        r@.len() == 3,
{
    let direction = match axis {
        Axis::Vertical => Direction::Vertical,
        Axis::Horizontal => Direction::Horizontal,
    };
    let pct = Constraint::Percentage;
    let rect = Rect { x: area.x, y: area.y, width: area.width, height: area.height };
    let rects = Layout::default().direction(direction).constraints([pct(p0), pct(p1), pct(p2)]).split(rect);
    rects.iter().map(|r| Area { x: r.x, y: r.y, width: r.width, height: r.height }).collect()
}

/// The three percentages that center a band `percent` wide: the margin, the band, the
/// margin, with the margins half of what is left (rounded down).
pub fn centering_percents(percent: u16) -> (r: (u16, u16, u16))
    requires
        percent <= 100,
    ensures
        r == (((100 - percent) / 2) as u16, percent, ((100 - percent) / 2) as u16),
{
    let side = (100 - percent) / 2;
    (side, percent, side)
}

/// The area of a dialog: `percent_x` wide and `percent_y` high, in the middle of `area`.
/// The screen is split into rows by [`centering_percents`] of `percent_y`, and the middle
/// row into columns by those of `percent_x`; the middle column is the dialog. Where
/// `ratatui` puts the areas is not stated ([`split_percent`]).
pub fn centered_rect(percent_x: u16, percent_y: u16, area: Area) -> Area
    requires
        percent_x <= 100,
        percent_y <= 100,
{
    let (top, middle_y, bottom) = centering_percents(percent_y);
    let rows = split_percent(Axis::Vertical, top, middle_y, bottom, area);
    let (left, middle_x, right) = centering_percents(percent_x);
    let cols = split_percent(Axis::Horizontal, left, middle_x, right, rows[1]);
    cols[1]
}


/// The column keeps the selected card in view: whenever the selected column has a card at
/// the selected position and room for one tile, that card is among the ones it shows.
pub proof fn law_selected_card_visible(app: App, inner_height: u16)
    requires
        app.selected_card < app.col_cards(app.selected_column as int).len(),
        inner_height >= CARD_HEIGHT,
    ensures
        shown_spec(app, app.selected_column as int, inner_height).contains(
            app.col_cards(app.selected_column as int)[app.selected_card as int],
        ),
{
    let col = app.selected_column as int;
    let cs = app.col_cards(col);
    let visible = (inner_height / CARD_HEIGHT) as int;
    let start = window_start(app, col, visible);
    assert(visible >= 1);
    assert(start <= app.selected_card < start + visible);
    let w = take_up_to(cs.skip(start), visible);
    let k = app.selected_card - start;
    assert(w[k] == cs[app.selected_card as int]);
}

} // verus!
