//! The requests that the commands send: the query of the card list and the bodies of the
//! create and update requests, built from the command-line arguments.
use vstd::prelude::*;

use crate::board_ui::{lowercase, to_lower};
use crate::config::opt_view;
use crate::agent::indices_where;
use crate::models::{
    Card, CreateCardBody, CreateCardRequest, CreateColumnBody, CreateColumnRequest, CreateWebhookBody,
    CreateWebhookRequest, UpdateCardBody, UpdateCardRequest, UpdateColumnBody, UpdateColumnRequest,
    UpdateWebhookBody, UpdateWebhookRequest,
};
use crate::text::{concat, eq_ignore_ascii_case, eq_ignore_ascii_case_seq, join, join_seq, push_str, split_char, split_seq, split_words, str_eq, trim, trim_seq, views, words_seq};

verus! {

/// The pieces of `s` between commas, each trimmed.
pub open spec fn comma_list(s: Seq<char>) -> Seq<Seq<char>> {
    split_seq(s, ',').map_values(|p: Seq<char>| trim_seq(p))
}

/// The pieces of a comma-separated list, each trimmed (`"a, b"` gives `a` and `b`).
pub fn split_trimmed(s: &str) -> (r: Vec<String>)
    ensures
        views(r@) == comma_list(s@),
{
    let parts = split_char(s, ',');
    let mut r: Vec<String> = Vec::new();
    let n = parts.len();
    for i in 0..n
        invariant
            n == parts@.len(),
            views(parts@) == split_seq(s@, ','),
            views(r@) == views(parts@).take(i as int).map_values(|p: Seq<char>| trim_seq(p)),
    {
        let t = trim(parts[i].as_str());
        let ghost before = r@;
        r.push(t);
        assert(views(r@) =~= views(before).push(t@));
        assert(views(parts@)[i as int] == parts@[i as int]@);
        assert(views(parts@).take(i + 1).map_values(|p: Seq<char>| trim_seq(p)) =~= views(parts@).take(
            i as int,
        ).map_values(|p: Seq<char>| trim_seq(p)).push(t@));
    }
    assert(views(parts@).take(n as int) =~= views(parts@));
    r
}

/// A description as the API takes it: one HTML paragraph.
pub open spec fn paragraph_spec(d: Seq<char>) -> Seq<char> {
    "<p>"@ + d + "</p>"@
}

/// `<p>d</p>`.
pub fn paragraph(d: &str) -> (r: String)
    ensures
        r@ == paragraph_spec(d@),
{
    let mut r = concat("<p>", d);
    push_str(&mut r, "</p>");
    r
}

/// The body of `cards create`: the title; the description as a paragraph; "drafted" for
/// a draft; the tags split at commas and trimmed.
pub fn card_create_body(title: &str, description: Option<&str>, tags: Option<&str>, draft: bool) -> (r: CreateCardRequest)
    ensures
        r.card.title@ == title@,
        match description {
            Some(d) => r.card.description matches Some(x) && x@ == paragraph_spec(d@),
            None => r.card.description is None,
        },
        draft ==> (r.card.status matches Some(s) && s@ == "drafted"@),
        !draft ==> r.card.status is None,
        match tags {
            Some(t) => r.card.tag_ids matches Some(v) && views(v@) == comma_list(t@),
            None => r.card.tag_ids is None,
        },
{
    let description = match description {
        Some(d) => Some(paragraph(d)),
        None => None,
    };
    let tag_ids = match tags {
        Some(t) => Some(split_trimmed(t)),
        None => None,
    };
    let status = if draft {
        Some("drafted".to_owned())
    } else {
        None
    };
    CreateCardRequest { card: CreateCardBody { title: title.to_owned(), description, status, tag_ids } }
}

/// The body of `cards update`: the new title and the new description as a paragraph.
pub fn card_update_body(title: Option<String>, description: Option<String>) -> (r: UpdateCardRequest)
    ensures
        r.card.title == title,
        match description {
            Some(d) => r.card.description matches Some(x) && x@ == paragraph_spec(d@),
            None => r.card.description is None,
        },
        r.card.status is None,
        r.card.tag_ids is None,
{
    let description = match description {
        Some(d) => Some(paragraph(d.as_str())),
        None => None,
    };
    UpdateCardRequest { card: UpdateCardBody { title, description, status: None, tag_ids: None } }
}

/// `key=value` for an optional value.
pub open spec fn param(key: Seq<char>, value: Option<Seq<char>>) -> Seq<Seq<char>> {
    match value {
        Some(v) => seq![key + "="@ + v],
        None => Seq::empty(),
    }
}

/// The parameters of the card list: board, assignee, tag, index, sort, then one `terms[]`
/// per word of the search.
pub open spec fn card_params(
    board: Option<Seq<char>>,
    assignee: Option<Seq<char>>,
    tag: Option<Seq<char>>,
    index: Option<Seq<char>>,
    sort: Option<Seq<char>>,
    search: Option<Seq<char>>,
) -> Seq<Seq<char>> {
    param("board_ids[]"@, board) + param("assignee_ids[]"@, assignee) + param("tag_ids[]"@, tag) + param(
        "indexed_by"@,
        index,
    ) + param("sorted_by"@, sort) + match search {
        Some(s) => words_seq(s).map_values(|w: Seq<char>| "terms[]="@ + w),
        None => Seq::empty(),
    }
}

/// The path of the card list: `/cards`, and `?` with the parameters joined by `&` when
/// there are any.
pub open spec fn cards_path_spec(params: Seq<Seq<char>>) -> Seq<char> {
    if params.len() == 0 {
        "/cards"@
    } else {
        "/cards?"@ + join_seq(params, "&"@)
    }
}

fn push_param(params: &mut Vec<String>, key: &str, value: Option<&str>)
    ensures
        views(final(params)@) == views(old(params)@) + param(
            key@,
            match value {
                Some(v) => Some(v@),
                None => None,
            },
        ),
{
    match value {
        Some(v) => {
            let mut p = concat(key, "=");
            push_str(&mut p, v);
            let ghost before = params@;
            params.push(p);
            assert(views(params@) =~= views(before) + seq![p@]);
        },
        None => {
            assert(views(params@) =~= views(params@) + Seq::<Seq<char>>::empty());
        },
    }
}

/// The view of an optional string slice.
pub open spec fn opt_str(o: Option<&str>) -> Option<Seq<char>> {
    match o {
        Some(x) => Some(x@),
        None => None,
    }
}

/// The card is in the column `key`: the column's ID is `key`, or its name is `key` in any
/// ASCII case. A card in triage (no column) is in none.
pub open spec fn in_column_spec(card: &Card, key: Seq<char>) -> bool {
    match card.column {
        Some(col) => col.id@ == key || eq_ignore_ascii_case_seq(col.name@, key),
        None => false,
    }
}

/// Whether `cards --column <key>` keeps the card.
pub fn in_column(card: &Card, key: &str) -> (b: bool)
    ensures
        b == in_column_spec(card, key@),
{
    match &card.column {
        Some(col) => str_eq(col.id.as_str(), key) || eq_ignore_ascii_case(col.name.as_str(), key),
        None => false,
    }
}

/// The positions of the cards that `cards --column <key>` lists, in order (the API has no
/// column filter, so the list is filtered after it is fetched).
pub fn column_filter(cards: &[Card], key: &str) -> (r: Vec<usize>)
    ensures
        r@ == indices_where(cards@.len() as int, |i: int| in_column_spec(&cards@[i], key@)),
{
    let ghost p = |i: int| in_column_spec(&cards@[i], key@);
    let mut r: Vec<usize> = Vec::new();
    let n = cards.len();
    for i in 0..n
        invariant
            n == cards@.len(),
            p == (|i: int| in_column_spec(&cards@[i], key@)),
            r@ == indices_where(i as int, p),
    {
        if in_column(&cards[i], key) {
            r.push(i);
        }
    }
    r
}

/// The path that `cards` fetches for its filters (the column filter is applied to what comes
/// back: [`column_filter`]).
pub fn cards_path(
    board: Option<&str>,
    assignee: Option<&str>,
    tag: Option<&str>,
    index: Option<&str>,
    sort: Option<&str>,
    search: Option<&str>,
) -> (r: String)
    ensures
        r@ == cards_path_spec(
            card_params(opt_str(board), opt_str(assignee), opt_str(tag), opt_str(index), opt_str(sort), opt_str(search)),
        ),
{
    let mut params: Vec<String> = Vec::new();
    push_param(&mut params, "board_ids[]", board);
    push_param(&mut params, "assignee_ids[]", assignee);
    push_param(&mut params, "tag_ids[]", tag);
    push_param(&mut params, "indexed_by", index);
    push_param(&mut params, "sorted_by", sort);
    let ghost fixed = views(params@);
    match search {
        Some(s) => {
            let words = split_words(s);
            let n = words.len();
            for i in 0..n
                invariant
                    n == words@.len(),
                    views(words@) == words_seq(s@),
                    views(params@) == fixed + views(words@).take(i as int).map_values(|w: Seq<char>| "terms[]="@ + w),
            {
                let t = concat("terms[]=", words[i].as_str());
                let ghost before = params@;
                params.push(t);
                assert(views(params@) =~= views(before).push(t@));
                assert(views(words@)[i as int] == words@[i as int]@);
                assert(views(words@).take(i + 1).map_values(|w: Seq<char>| "terms[]="@ + w) =~= views(words@).take(
                    i as int,
                ).map_values(|w: Seq<char>| "terms[]="@ + w).push(t@));
            }
            assert(views(words@).take(n as int) =~= views(words@));
        },
        None => {
            assert(views(params@) =~= fixed + Seq::<Seq<char>>::empty());
        },
    }
    if params.len() == 0 {
        "/cards".to_owned()
    } else {
        let j = join(&params, "&");
        concat("/cards?", j.as_str())
    }
}

/// The body of `webhooks create`: the actions split at commas and trimmed.
pub fn webhook_create_body(name: &str, url: &str, actions: &str) -> (r: CreateWebhookRequest)
    ensures
        r.webhook.name@ == name@,
        r.webhook.url@ == url@,
        views(r.webhook.subscribed_actions@) == comma_list(actions@),
{
    CreateWebhookRequest {
        webhook: CreateWebhookBody { name: name.to_owned(), url: url.to_owned(), subscribed_actions: split_trimmed(actions) },
    }
}

/// The body of `webhooks update`.
pub fn webhook_update_body(name: Option<String>, actions: Option<String>) -> (r: UpdateWebhookRequest)
    ensures
        r.webhook.name == name,
        match actions {
            Some(a) => r.webhook.subscribed_actions matches Some(v) && views(v@) == comma_list(a@),
            None => r.webhook.subscribed_actions is None,
        },
{
    let subscribed_actions = match actions {
        Some(a) => Some(split_trimmed(a.as_str())),
        None => None,
    };
    UpdateWebhookRequest { webhook: UpdateWebhookBody { name, subscribed_actions } }
}

/// The CSS variable of a lower-case color name; other text is kept as it is (it may
/// already be a variable).
pub open spec fn color_var_spec(name: Seq<char>) -> Seq<char> {
    if name == "blue"@ {
        "var(--color-card-default)"@
    } else if name == "gray"@ || name == "grey"@ {
        "var(--color-card-1)"@
    } else if name == "tan"@ {
        "var(--color-card-2)"@
    } else if name == "yellow"@ {
        "var(--color-card-3)"@
    } else if name == "lime"@ {
        "var(--color-card-4)"@
    } else if name == "aqua"@ {
        "var(--color-card-5)"@
    } else if name == "violet"@ {
        "var(--color-card-6)"@
    } else if name == "purple"@ {
        "var(--color-card-7)"@
    } else if name == "pink"@ {
        "var(--color-card-8)"@
    } else {
        name
    }
}

/// The CSS variable that the API takes for a color name given in any case.
pub fn color_name_to_var(name: &str) -> (r: String)
    ensures
        r@ == color_var_spec(lowercase(name@)),
{
    let lower = to_lower(name);
    color_var_of(lower)
}

/// The CSS variable of a lower-case color name (`lower` is what lower-casing gave).
pub fn color_var_of(lower: String) -> (r: String)
    ensures
        r@ == color_var_spec(lower@),
{
    let l = lower.as_str();
    if str_eq(l, "blue") {
        "var(--color-card-default)".to_owned()
    } else if str_eq(l, "gray") || str_eq(l, "grey") {
        "var(--color-card-1)".to_owned()
    } else if str_eq(l, "tan") {
        "var(--color-card-2)".to_owned()
    } else if str_eq(l, "yellow") {
        "var(--color-card-3)".to_owned()
    } else if str_eq(l, "lime") {
        "var(--color-card-4)".to_owned()
    } else if str_eq(l, "aqua") {
        "var(--color-card-5)".to_owned()
    } else if str_eq(l, "violet") {
        "var(--color-card-6)".to_owned()
    } else if str_eq(l, "purple") {
        "var(--color-card-7)".to_owned()
    } else if str_eq(l, "pink") {
        "var(--color-card-8)".to_owned()
    } else {
        lower
    }
}

fn color_opt(color: Option<String>) -> (r: Option<String>)
    ensures
        match color {
            Some(c) => r matches Some(v) && v@ == color_var_spec(lowercase(c@)),
            None => r is None,
        },
{
    match color {
        Some(c) => Some(color_name_to_var(c.as_str())),
        None => None,
    }
}

/// The body of `columns create`, with the color as a CSS variable.
pub fn column_create_body(name: &str, color: Option<String>) -> (r: CreateColumnRequest)
    ensures
        r.column.name@ == name@,
        match color {
            Some(c) => r.column.color matches Some(v) && v@ == color_var_spec(lowercase(c@)),
            None => r.column.color is None,
        },
{
    CreateColumnRequest { column: CreateColumnBody { name: name.to_owned(), color: color_opt(color) } }
}

/// The body of `columns update`, with the color as a CSS variable.
pub fn column_update_body(name: Option<String>, color: Option<String>) -> (r: UpdateColumnRequest)
    ensures
        r.column.name == name,
        match color {
            Some(c) => r.column.color matches Some(v) && v@ == color_var_spec(lowercase(c@)),
            None => r.column.color is None,
        },
{
    UpdateColumnRequest { column: UpdateColumnBody { name, color: color_opt(color) } }
}

} // verus!
