//! The agent workflow: `#after-N` dependencies, readiness, plans and the summaries
//! that `prime`, `ready` and `blocked` show.
use vstd::prelude::*;

use crate::config::{Config, ConfigError};
use crate::models::{
    AccountWithUser, Card, Column, Comment, CreateCommentBody, CreateCommentRequest, Reaction, User,
};
use crate::project::ProjectConfig;
use crate::text::{
    clone_strings, concat, dec_seq, eq_ignore_ascii_case, eq_ignore_ascii_case_seq, find, find_seq, has_prefix,
    join, join_seq, parse_u64, parse_u64_seq, push_str, push_u64, starts_with, str_eq,
    strip_prefix, trim, trim_end, trim_end_seq, trim_seq, trim_start_char, trim_start_char_seq,
    views,
};

verus! {

/// The tag prefix that marks a dependency: `after-N` means "after card N".
pub const DEP_PREFIX: &'static str = "after-";

// ---------------------------------------------------------------------------
// Dependencies
// ---------------------------------------------------------------------------

/// The card number that a dependency tag names, if `tag` is one.
pub open spec fn dep_of(tag: Seq<char>) -> Option<u64> {
    if has_prefix(tag, DEP_PREFIX@) {
        parse_u64_seq(tag.skip(DEP_PREFIX@.len() as int))
    } else {
        None
    }
}

/// The dependency numbers named by `tags`, in order.
pub open spec fn deps_seq(tags: Seq<Seq<char>>) -> Seq<u64>
    decreases tags.len(),
{
    if tags.len() == 0 {
        Seq::<u64>::empty()
    } else {
        let r = deps_seq(tags.drop_last());
        match dep_of(tags.last()) {
            Some(n) => r.push(n),
            None => r,
        }
    }
}

/// The tag names of a card.
pub open spec fn tag_views(card: &Card) -> Seq<Seq<char>> {
    views(card.tags@)
}

/// Parse `#after-N` tags and return the dependency card numbers.
pub fn parse_deps(tags: &[String]) -> (r: Vec<u64>)
    ensures
        r@ == deps_seq(views(tags@)),
{
    let mut r: Vec<u64> = Vec::new();
    let n = tags.len();
    for i in 0..n
        invariant
            n == tags@.len(),
            r@ == deps_seq(views(tags@.take(i as int))),
    {
        assert(views(tags@.take(i + 1)).drop_last() =~= views(tags@.take(i as int)));
        assert(views(tags@.take(i + 1)).last() == tags@[i as int]@);
        let t = &tags[i];
        match strip_prefix(t.as_str(), DEP_PREFIX) {
            Some(rest) => {
                match parse_u64(rest.as_str()) {
                    Some(num) => r.push(num),
                    None => {},
                }
            },
            None => {},
        }
    }
    assert(tags@.take(n as int) == tags@);
    r
}

/// Some card of `cards` has the number `n`.
pub open spec fn has_number(cards: Seq<Card>, n: u64) -> bool {
    exists|i: int| 0 <= i < cards.len() && #[trigger] cards[i].number == n
}

/// No dependency of `card` is among `open_cards`.
pub open spec fn deps_satisfied_spec(card: &Card, open_cards: Seq<Card>) -> bool {
    let deps = deps_seq(tag_views(card));
    forall|k: int| 0 <= k < deps.len() ==> !has_number(open_cards, #[trigger] deps[k])
}

/// The dependencies of `card` that are among `open_cards`, in order.
pub open spec fn unsatisfied_seq(deps: Seq<u64>, open_cards: Seq<Card>) -> Seq<u64>
    decreases deps.len(),
{
    if deps.len() == 0 {
        Seq::<u64>::empty()
    } else {
        let r = unsatisfied_seq(deps.drop_last(), open_cards);
        if has_number(open_cards, deps.last()) {
            r.push(deps.last())
        } else {
            r
        }
    }
}

/// Whether some card of `cards` has the number `n`.
fn any_has_number(cards: &[Card], n: u64) -> (b: bool)
    ensures
        b == has_number(cards@, n),
{
    let len = cards.len();
    for i in 0..len
        invariant
            len == cards@.len(),
            forall|j: int| 0 <= j < i ==> cards@[j].number != n,
    {
        if cards[i].number == n {
            return true;
        }
    }
    false
}

/// Check if all dependencies are satisfied.
/// Cards not in the open list are assumed closed (the default list only returns open cards).
pub fn deps_satisfied(card: &Card, open_cards: &[Card]) -> (b: bool)
    ensures
        b == deps_satisfied_spec(card, open_cards@),
{
    let deps = parse_deps(card.tags.as_slice());
    if deps.len() == 0 {
        return true;
    }
    let n = deps.len();
    for k in 0..n
        invariant
            n == deps@.len(),
            deps@ == deps_seq(tag_views(card)),
            forall|j: int| 0 <= j < k ==> !has_number(open_cards@, #[trigger] deps@[j]),
    {
        if any_has_number(open_cards, deps[k]) {
            assert(has_number(open_cards@, deps@[k as int]));
            return false;
        }
    }
    true
}

/// Get unsatisfied dependencies for a card.
pub fn unsatisfied_deps(card: &Card, open_cards: &[Card]) -> (r: Vec<u64>)
    ensures
        r@ == unsatisfied_seq(deps_seq(tag_views(card)), open_cards@),
{
    let deps = parse_deps(card.tags.as_slice());
    let mut r: Vec<u64> = Vec::new();
    let n = deps.len();
    for k in 0..n
        invariant
            n == deps@.len(),
            r@ == unsatisfied_seq(deps@.take(k as int), open_cards@),
    {
        assert(deps@.take(k + 1).drop_last() == deps@.take(k as int));
        if any_has_number(open_cards, deps[k]) {
            r.push(deps[k]);
        }
    }
    assert(deps@.take(n as int) == deps@);
    r
}

/// Membership in [`unsatisfied_seq`]: exactly the dependencies that are open.
pub proof fn lemma_unsatisfied_members(deps: Seq<u64>, open_cards: Seq<Card>)
    ensures
        unsatisfied_seq(deps, open_cards).len() == 0 <==> forall|k: int|
            0 <= k < deps.len() ==> !has_number(open_cards, #[trigger] deps[k]),
    decreases deps.len(),
{
    if deps.len() > 0 {
        lemma_unsatisfied_members(deps.drop_last(), open_cards);
        let d = deps.drop_last();
        if forall|k: int| 0 <= k < deps.len() ==> !has_number(open_cards, #[trigger] deps[k]) {
            assert forall|k: int| 0 <= k < d.len() implies !has_number(
                open_cards,
                #[trigger] d[k],
            ) by {
                assert(d[k] == deps[k]);
            }
        } else {
            let k = choose|k: int| 0 <= k < deps.len() && has_number(open_cards, #[trigger] deps[k]);
            if k < deps.len() - 1 {
                assert(d[k] == deps[k]);
            }
        }
    }
}

/// The unsatisfied dependencies are exactly the card's dependencies that are among the
/// open cards, in the order the tags name them: every open dependency is reported, and
/// nothing else is.
pub proof fn law_unsatisfied_are_the_open_deps(deps: Seq<u64>, open_cards: Seq<Card>)
    ensures
        unsatisfied_seq(deps, open_cards) == deps.filter(|d: u64| has_number(open_cards, d)),
        forall|k: int|
            0 <= k < deps.len() && has_number(open_cards, deps[k]) ==> #[trigger] unsatisfied_seq(
                deps,
                open_cards,
            ).contains(deps[k]),
        forall|x: u64|
            #[trigger] unsatisfied_seq(deps, open_cards).contains(x) ==> deps.contains(x) && has_number(
                open_cards,
                x,
            ),
    decreases deps.len(),
{
    reveal(Seq::filter);
    let p = |d: u64| has_number(open_cards, d);
    if deps.len() > 0 {
        law_unsatisfied_are_the_open_deps(deps.drop_last(), open_cards);
    }
    let f = deps.filter(p);
    assert(unsatisfied_seq(deps, open_cards) == f);
    deps.filter_lemma(p);
    assert forall|k: int| 0 <= k < deps.len() && has_number(open_cards, deps[k]) implies #[trigger] unsatisfied_seq(
        deps,
        open_cards,
    ).contains(deps[k]) by {
        assert(p(deps[k]));
        assert(deps.contains(deps[k]));
    }
    assert forall|x: u64| #[trigger] unsatisfied_seq(deps, open_cards).contains(x) implies deps.contains(x)
        && has_number(open_cards, x) by {
        let i = choose|i: int| 0 <= i < f.len() && f[i] == x;
        assert(p(f[i]));
        deps.lemma_filter_contains_rev(p, x);
    }
}

/// A card's dependencies are satisfied exactly when it has no unsatisfied dependency:
/// `deps_satisfied` and `unsatisfied_deps` agree.
pub proof fn law_satisfied_iff_no_unsatisfied(card: &Card, open_cards: Seq<Card>)
    ensures
        deps_satisfied_spec(card, open_cards) <==> unsatisfied_seq(
            deps_seq(tag_views(card)),
            open_cards,
        ).len() == 0,
{
    lemma_unsatisfied_members(deps_seq(tag_views(card)), open_cards);
}


// ---------------------------------------------------------------------------
// Readiness
// ---------------------------------------------------------------------------

/// The card is neither closed nor postponed.
pub open spec fn is_open_spec(card: &Card) -> bool {
    card.closed != Some(true) && card.postponed != Some(true)
}

/// The card has at least one assignee.
pub open spec fn has_assignees(card: &Card) -> bool {
    card.assignees matches Some(a) && a@.len() > 0
}

/// The card is in the "To Do" column (any ASCII case) or in triage (no column).
pub open spec fn in_pickup_column(card: &Card) -> bool {
    match card.column {
        Some(col) => eq_ignore_ascii_case_seq(col.name@, "to do"@),
        None => true,
    }
}

/// A card is ready if it is open, unassigned, in To Do or triage, and all its
/// dependencies are satisfied.
pub open spec fn is_ready_spec(card: &Card, all_cards: Seq<Card>) -> bool {
    &&& is_open_spec(card)
    &&& !has_assignees(card)
    &&& in_pickup_column(card)
    &&& deps_satisfied_spec(card, all_cards)
}

/// The card is open, has dependencies, and one of them is still open.
pub open spec fn is_blocked_spec(card: &Card, all_cards: Seq<Card>) -> bool {
    &&& is_open_spec(card)
    &&& deps_seq(tag_views(card)).len() > 0
    &&& !deps_satisfied_spec(card, all_cards)
}

/// A closed card and a postponed card are not open and never ready for pickup; a card
/// that is neither is open.
pub proof fn law_closed_or_postponed_is_not_open(card: &Card, all_cards: Seq<Card>)
    ensures
        card.closed == Some(true) ==> !is_open_spec(card) && !is_ready_spec(card, all_cards),
        card.postponed == Some(true) ==> !is_open_spec(card) && !is_ready_spec(card, all_cards),
        card.closed != Some(true) && card.postponed != Some(true) ==> is_open_spec(card),
{
}

/// Neither closed nor postponed.
pub fn is_open(card: &Card) -> (b: bool)
    ensures
        b == is_open_spec(card),
{
    card.closed != Some(true) && card.postponed != Some(true)
}

/// A card is "ready" if it's open, unassigned, in To Do or triage, AND all deps are satisfied.
pub fn is_ready(card: &Card, all_cards: &[Card]) -> (b: bool)
    ensures
        b == is_ready_spec(card, all_cards@),
{
    if !is_open(card) {
        return false;
    }
    let has = match &card.assignees {
        Some(a) => a.len() > 0,
        None => false,
    };
    if has {
        return false;
    }
    let in_right_column = match &card.column {
        Some(col) => eq_ignore_ascii_case(col.name.as_str(), "to do"),
        None => true,
    };
    if !in_right_column {
        return false;
    }
    deps_satisfied(card, all_cards)
}

/// Open, with dependencies, and not all of them satisfied (what `blocked` lists).
pub fn is_blocked(card: &Card, all_cards: &[Card]) -> (b: bool)
    ensures
        b == is_blocked_spec(card, all_cards@),
{
    is_open(card) && parse_deps(card.tags.as_slice()).len() > 0 && !deps_satisfied(card, all_cards)
}

/// The indices `i < n` for which `p(i)` holds, in increasing order.
pub open spec fn indices_where(n: int, p: spec_fn(int) -> bool) -> Seq<usize>
    decreases n,
{
    if n <= 0 {
        Seq::<usize>::empty()
    } else {
        let r = indices_where(n - 1, p);
        if p(n - 1) {
            r.push((n - 1) as usize)
        } else {
            r
        }
    }
}

/// The positions in `all_cards` of the cards ready for pickup.
pub fn ready_indices(all_cards: &[Card]) -> (r: Vec<usize>)
    ensures
        r@ == indices_where(all_cards@.len() as int, |i: int| is_ready_spec(&all_cards@[i], all_cards@)),
{
    let ghost p = |i: int| is_ready_spec(&all_cards@[i], all_cards@);
    let mut r: Vec<usize> = Vec::new();
    let n = all_cards.len();
    for i in 0..n
        invariant
            n == all_cards@.len(),
            p == (|i: int| is_ready_spec(&all_cards@[i], all_cards@)),
            r@ == indices_where(i as int, p),
    {
        if is_ready(&all_cards[i], all_cards) {
            r.push(i);
        }
    }
    r
}

/// The positions in `all_cards` of the blocked cards.
pub fn blocked_indices(all_cards: &[Card]) -> (r: Vec<usize>)
    ensures
        r@ == indices_where(all_cards@.len() as int, |i: int| is_blocked_spec(&all_cards@[i], all_cards@)),
{
    let ghost p = |i: int| is_blocked_spec(&all_cards@[i], all_cards@);
    let mut r: Vec<usize> = Vec::new();
    let n = all_cards.len();
    for i in 0..n
        invariant
            n == all_cards@.len(),
            p == (|i: int| is_blocked_spec(&all_cards@[i], all_cards@)),
            r@ == indices_where(i as int, p),
    {
        if is_blocked(&all_cards[i], all_cards) {
            r.push(i);
        }
    }
    r
}

/// The positions in `cards` of the open cards.
pub fn open_indices(cards: &[Card]) -> (r: Vec<usize>)
    ensures
        r@ == indices_where(cards@.len() as int, |i: int| is_open_spec(&cards@[i])),
{
    let ghost p = |i: int| is_open_spec(&cards@[i]);
    let mut r: Vec<usize> = Vec::new();
    let n = cards.len();
    for i in 0..n
        invariant
            n == cards@.len(),
            p == (|i: int| is_open_spec(&cards@[i])),
            r@ == indices_where(i as int, p),
    {
        if is_open(&cards[i]) {
            r.push(i);
        }
    }
    r
}

/// Every index that [`indices_where`] yields satisfies the predicate and is in range.
pub proof fn lemma_indices_where(n: int, p: spec_fn(int) -> bool)
    requires
        n <= usize::MAX,
    ensures
        forall|k: int|
            0 <= k < indices_where(n, p).len() ==> 0 <= #[trigger] indices_where(n, p)[k] < n && p(
                indices_where(n, p)[k] as int,
            ),
    decreases n,
{
    if n > 0 {
        lemma_indices_where(n - 1, p);
        let r = indices_where(n - 1, p);
        assert forall|k: int| 0 <= k < indices_where(n, p).len() implies 0
            <= #[trigger] indices_where(n, p)[k] < n && p(indices_where(n, p)[k] as int) by {
            if k < r.len() {
                assert(indices_where(n, p)[k] == r[k]);
            }
        }
    }
}

/// No card is both ready and blocked, and every ready card is open and unassigned with its
/// dependencies satisfied: the `ready` and `blocked` lists of a board never share a card.
pub proof fn law_ready_and_blocked_disjoint(card: &Card, all_cards: Seq<Card>)
    ensures
        !(is_ready_spec(card, all_cards) && is_blocked_spec(card, all_cards)),
        is_ready_spec(card, all_cards) ==> is_open_spec(card) && !has_assignees(card)
            && deps_satisfied_spec(card, all_cards),
        is_blocked_spec(card, all_cards) ==> unsatisfied_seq(
            deps_seq(tag_views(card)),
            all_cards,
        ).len() > 0,
{
    law_satisfied_iff_no_unsatisfied(card, all_cards);
}

/// Every dependency that a tag names is among the dependencies of the tags.
pub proof fn lemma_dep_of_tag_in_deps(tags: Seq<Seq<char>>, k: int)
    requires
        0 <= k < tags.len(),
        dep_of(tags[k]) is Some,
    ensures
        deps_seq(tags).contains(dep_of(tags[k])->0),
    decreases tags.len(),
{
    let r = deps_seq(tags.drop_last());
    if k == tags.len() - 1 {
        assert(deps_seq(tags) == r.push(dep_of(tags.last())->0));
        assert(deps_seq(tags)[r.len() as int] == dep_of(tags[k])->0);
    } else {
        lemma_dep_of_tag_in_deps(tags.drop_last(), k);
        assert(tags.drop_last()[k] == tags[k]);
        let j = choose|j: int| 0 <= j < r.len() && r[j] == dep_of(tags[k])->0;
        match dep_of(tags.last()) {
            Some(n) => assert(deps_seq(tags)[j] == r[j]),
            None => {},
        }
    }
}

/// A card tagged `after-N` is not ready while card N is on the board's list of open
/// cards, and an open card so tagged is blocked: it waits until card N is closed.
pub proof fn law_open_dependency_blocks(card: &Card, all_cards: Seq<Card>, k: int)
    requires
        0 <= k < card.tags@.len(),
        dep_of(card.tags@[k]@) matches Some(n) && has_number(all_cards, n),
    ensures
        !is_ready_spec(card, all_cards),
        is_open_spec(card) ==> is_blocked_spec(card, all_cards),
{
    let tags = tag_views(card);
    assert(tags[k] == card.tags@[k]@);
    lemma_dep_of_tag_in_deps(tags, k);
    let n = dep_of(tags[k])->0;
    let deps = deps_seq(tags);
    let j = choose|j: int| 0 <= j < deps.len() && deps[j] == n;
    assert(has_number(all_cards, deps[j]));
}

// ---------------------------------------------------------------------------
// Text pieces
// ---------------------------------------------------------------------------

/// The column a card is shown in: its column's name, or "triage".
pub open spec fn col_name_spec(card: &Card) -> Seq<char> {
    match card.column {
        Some(c) => c.name@,
        None => "triage"@,
    }
}

/// The column a card is shown in: its column's name, or "triage".
pub fn col_name(card: &Card) -> (r: &str)
    ensures
        r@ == col_name_spec(card),
{
    match &card.column {
        Some(c) => c.name.as_str(),
        None => "triage",
    }
}

/// The tags that do not start with `after-`, in order: the tags a board tile shows.
pub open spec fn visible_tags(tags: Seq<Seq<char>>) -> Seq<Seq<char>>
    decreases tags.len(),
{
    if tags.len() == 0 {
        Seq::<Seq<char>>::empty()
    } else {
        let r = visible_tags(tags.drop_last());
        if has_prefix(tags.last(), DEP_PREFIX@) {
            r
        } else {
            r.push(tags.last())
        }
    }
}

/// The tags that name no dependency (those `parse_deps` does not read), in order.
pub open spec fn user_tags(tags: Seq<Seq<char>>) -> Seq<Seq<char>>
    decreases tags.len(),
{
    if tags.len() == 0 {
        Seq::<Seq<char>>::empty()
    } else {
        let r = user_tags(tags.drop_last());
        if dep_of(tags.last()) is Some {
            r
        } else {
            r.push(tags.last())
        }
    }
}

/// Whether `tag` names a dependency (`after-N` with `N` a number).
pub fn is_dep_tag(tag: &str) -> (b: bool)
    ensures
        b == (dep_of(tag@) is Some),
{
    match strip_prefix(tag, DEP_PREFIX) {
        Some(rest) => parse_u64(rest.as_str()).is_some(),
        None => false,
    }
}

/// Each text with `prefix` in front of it.
pub open spec fn prefixed(prefix: Seq<char>, ts: Seq<Seq<char>>) -> Seq<Seq<char>> {
    ts.map_values(|t: Seq<char>| prefix + t)
}

/// `" #a #b"` for the tags `a`, `b` that name no dependency, or nothing when there are none.
pub open spec fn format_tags_spec(tags: Seq<Seq<char>>) -> Seq<char> {
    let v = user_tags(tags);
    if v.len() == 0 {
        Seq::<char>::empty()
    } else {
        " "@ + join_seq(prefixed("#"@, v), " "@)
    }
}

/// Format tags, excluding #after-N dependency tags.
pub fn format_tags_without_deps(tags: &[String]) -> (r: String)
    ensures
        r@ == format_tags_spec(views(tags@)),
{
    let mut hashed: Vec<String> = Vec::new();
    let n = tags.len();
    for i in 0..n
        invariant
            n == tags@.len(),
            views(hashed@) == prefixed("#"@, user_tags(views(tags@.take(i as int)))),
    {
        assert(views(tags@.take(i + 1)).drop_last() =~= views(tags@.take(i as int)));
        assert(views(tags@.take(i + 1)).last() == tags@[i as int]@);
        if !is_dep_tag(tags[i].as_str()) {
            let h = concat("#", tags[i].as_str());
            let ghost before = hashed@;
            hashed.push(h);
            assert(views(hashed@) =~= views(before).push(h@));
        }
        assert(views(hashed@) =~= prefixed("#"@, user_tags(views(tags@.take(i + 1)))));
    }
    assert(tags@.take(n as int) == tags@);
    if hashed.len() == 0 {
        String::new()
    } else {
        let mut r = " ".to_owned();
        let j = join(&hashed, " ");
        push_str(&mut r, j.as_str());
        r
    }
}

/// `"#n"` for each number.
pub open spec fn numbered(ns: Seq<u64>) -> Seq<Seq<char>> {
    ns.map_values(|n: u64| "#"@ + dec_seq(n as nat))
}

/// `"#a, #b"` for the numbers `a`, `b`.
pub fn numbers_text(ns: &Vec<u64>, sep: &str) -> (r: String)
    ensures
        r@ == join_seq(numbered(ns@), sep@),
{
    let mut parts: Vec<String> = Vec::new();
    let n = ns.len();
    for i in 0..n
        invariant
            n == ns@.len(),
            views(parts@) == numbered(ns@.take(i as int)),
    {
        let mut s = "#".to_owned();
        push_u64(&mut s, ns[i]);
        let ghost before = parts@;
        parts.push(s);
        assert(views(parts@) =~= views(before).push(s@));
        assert(numbered(ns@.take(i + 1)) =~= numbered(ns@.take(i as int)).push(s@));
    }
    assert(ns@.take(n as int) == ns@);
    join(&parts, sep)
}

/// `" (after #a, #b)"` for the dependencies `a`, `b`, or nothing when there are none.
pub open spec fn format_deps_spec(tags: Seq<Seq<char>>) -> Seq<char> {
    let d = deps_seq(tags);
    if d.len() == 0 {
        Seq::<char>::empty()
    } else {
        " (after "@ + join_seq(numbered(d), ", "@) + ")"@
    }
}

/// Format dependency tags as readable text.
pub fn format_deps(tags: &[String]) -> (r: String)
    ensures
        r@ == format_deps_spec(views(tags@)),
{
    let deps = parse_deps(tags);
    if deps.len() == 0 {
        String::new()
    } else {
        let mut r = " (after ".to_owned();
        let j = numbers_text(&deps, ", ");
        push_str(&mut r, j.as_str());
        push_str(&mut r, ")");
        r
    }
}

/// Text shows dependencies exactly when the tags name some: `format_deps` is empty iff
/// `parse_deps` is.
pub proof fn law_format_deps_empty_iff_no_deps(tags: Seq<Seq<char>>)
    ensures
        (format_deps_spec(tags).len() == 0) <==> (deps_seq(tags).len() == 0),
{
    if deps_seq(tags).len() > 0 {
        reveal_strlit(")");
        assert(format_deps_spec(tags).len() >= 1);
    }
}

// ---------------------------------------------------------------------------
// Plans
// ---------------------------------------------------------------------------

// A card's plan is a comment marked with the reaction [`PLAN_REACTION`]; the latest marked
// comment is the plan.

/// Some reaction of the list is the plan marker.
pub open spec fn marks_plan(reactions: Seq<Reaction>) -> bool {
    exists|k: int| 0 <= k < reactions.len() && #[trigger] reactions[k].content@ == PLAN_REACTION@
}

/// Whether the reactions of a comment mark it as the plan.
pub fn has_plan_reaction(reactions: &[Reaction]) -> (b: bool)
    ensures
        b == marks_plan(reactions@),
{
    let n = reactions.len();
    for k in 0..n
        invariant
            n == reactions@.len(),
            forall|j: int| 0 <= j < k ==> reactions@[j].content@ != PLAN_REACTION@,
    {
        if str_eq(reactions[k].content.as_str(), PLAN_REACTION) {
            return true;
        }
    }
    false
}

/// The last position below `i` whose reactions mark the plan.
pub open spec fn last_marked(reactions: Seq<Vec<Reaction>>, i: int) -> Option<int>
    decreases i,
{
    if i <= 0 {
        None
    } else if marks_plan(reactions[i - 1]@) {
        Some(i - 1)
    } else {
        last_marked(reactions, i - 1)
    }
}

/// The plan of a card whose comments are `comments` and whose comment `i` has the
/// reactions `reactions[i]`: the text of the latest comment marked with the plan reaction.
pub open spec fn plan_text_spec(comments: Seq<Comment>, reactions: Seq<Vec<Reaction>>) -> Option<Seq<char>> {
    match last_marked(reactions, reactions.len() as int) {
        Some(i) => Some(comments[i].body.plain_text@),
        None => None,
    }
}

/// The position of the plan comment: the latest comment marked with the plan reaction.
pub fn plan_comment(reactions: &[Vec<Reaction>]) -> (r: Option<usize>)
    ensures
        match r {
            Some(k) => last_marked(reactions@, reactions@.len() as int) == Some(k as int),
            None => last_marked(reactions@, reactions@.len() as int) is None,
        },
        r matches Some(i) ==> i < reactions@.len(),
{
    let mut i = reactions.len();
    while i > 0
        invariant
            i <= reactions@.len(),
            last_marked(reactions@, reactions@.len() as int) == last_marked(reactions@, i as int),
        decreases i,
    {
        if has_plan_reaction(reactions[i - 1].as_slice()) {
            return Some(i - 1);
        }
        i = i - 1;
    }
    None
}

/// `plan <n>`: the card's plan, read from its comments and their reactions.
pub fn plan_text(comments: &[Comment], reactions: &[Vec<Reaction>]) -> (r: Option<String>)
    requires
        reactions@.len() == comments@.len(),
    ensures
        match plan_text_spec(comments@, reactions@) {
            Some(t) => r matches Some(s) && s@ == t,
            None => r is None,
        },
{
    match plan_comment(reactions) {
        Some(i) => {
            Some(crate::text::owned(comments[i].body.plain_text.as_str()))
        },
        None => None,
    }
}

/// The comment that `plan <n> <text>` posts: its body is the plan text.
pub fn plan_comment_request(plan_text: &str) -> (r: CreateCommentRequest)
    ensures
        r.comment.body@ == plan_text@,
{
    CreateCommentRequest { comment: CreateCommentBody { body: plan_text.to_owned() } }
}

/// The last position below `i` of a comment whose text is `text`.
pub open spec fn last_with_text(comments: Seq<Comment>, text: Seq<char>, i: int) -> Option<int>
    decreases i,
{
    if i <= 0 {
        None
    } else if comments[i - 1].body.plain_text@ == text {
        Some(i - 1)
    } else {
        last_with_text(comments, text, i - 1)
    }
}

/// The comment to mark as the plan after posting it: the latest comment whose text is the
/// plan text.
pub fn posted_plan_comment(comments: &[Comment], plan_text: &str) -> (r: Option<usize>)
    ensures
        match r {
            Some(k) => last_with_text(comments@, plan_text@, comments@.len() as int) == Some(k as int),
            None => last_with_text(comments@, plan_text@, comments@.len() as int) is None,
        },
        r matches Some(i) ==> i < comments@.len(),
{
    let mut i = comments.len();
    while i > 0
        invariant
            i <= comments@.len(),
            last_with_text(comments@, plan_text@, comments@.len() as int) == last_with_text(
                comments@,
                plan_text@,
                i as int,
            ),
        decreases i,
    {
        if str_eq(comments[i - 1].body.plain_text.as_str(), plan_text) {
            return Some(i - 1);
        }
        i = i - 1;
    }
    None
}

/// Setting a plan and then reading it gives back the plan: once the posted comment (the
/// latest one, holding the plan text) is found again and marked with the plan reaction,
/// the plan that `plan <n>` reads is that text.
pub proof fn law_plan_set_then_read(
    comments: Seq<Comment>,
    reactions: Seq<Vec<Reaction>>,
    posted: Comment,
    marks: Vec<Reaction>,
)
    requires
        reactions.len() == comments.len(),
        marks_plan(marks@),
    ensures
        last_with_text(comments.push(posted), posted.body.plain_text@, comments.len() + 1int) == Some(
            comments.len() as int,
        ),
        plan_text_spec(comments.push(posted), reactions.push(marks)) == Some(posted.body.plain_text@),
{
    let rs = reactions.push(marks);
    assert(rs[rs.len() - 1] == marks);
    assert(comments.push(posted)[comments.len() as int] == posted);
}

// ---------------------------------------------------------------------------
// Lookups
// ---------------------------------------------------------------------------

/// An account's slug without its leading slashes.
pub open spec fn bare_slug(a: &AccountWithUser) -> Seq<char> {
    trim_start_char_seq(a.slug@, '/')
}

/// The first account whose slug (without leading slashes) is `slug`.
pub open spec fn find_account_spec(accounts: Seq<AccountWithUser>, slug: Seq<char>, i: int) -> Option<int>
    decreases accounts.len() - i,
{
    if i < 0 || i >= accounts.len() {
        None
    } else if bare_slug(&accounts[i]) == slug {
        Some(i)
    } else {
        find_account_spec(accounts, slug, i + 1)
    }
}

/// The position of the account with the given slug (the active account).
pub fn find_account(accounts: &[AccountWithUser], slug: &str) -> (r: Option<usize>)
    ensures
        match r {
            Some(i) => find_account_spec(accounts@, slug@, 0) == Some(i as int) && i < accounts@.len(),
            None => find_account_spec(accounts@, slug@, 0) is None,
        },
{
    let n = accounts.len();
    let mut i: usize = 0;
    while i < n
        invariant
            n == accounts@.len(),
            i <= n,
            find_account_spec(accounts@, slug@, 0) == find_account_spec(accounts@, slug@, i as int),
        decreases n - i,
    {
        let bare = trim_start_char(accounts[i].slug.as_str(), '/');
        if str_eq(bare.as_str(), slug) {
            return Some(i);
        }
        i = i + 1;
    }
    None
}

/// The current user's ID and name in the active account: the user of the account whose
/// slug is `slug`, or the message "No user found for account /<slug>".
pub fn my_user_id(accounts: &[AccountWithUser], slug: &str) -> (r: Result<(String, String), String>)
    ensures
        match find_account_spec(accounts@, slug@, 0) {
            Some(i) => r matches Ok((id, name)) && id@ == accounts@[i].user.id@ && name@
                == accounts@[i].user.name@,
            None => r matches Err(m) && m@ == "No user found for account /"@ + slug@,
        },
{
    match find_account(accounts, slug) {
        Some(i) => Ok((accounts[i].user.id.clone(), accounts[i].user.name.clone())),
        None => Err(concat("No user found for account /", slug)),
    }
}

/// The first column whose name equals `name` ignoring ASCII case.
pub open spec fn find_column_spec(columns: Seq<Column>, name: Seq<char>, i: int) -> Option<int>
    decreases columns.len() - i,
{
    if i < 0 || i >= columns.len() {
        None
    } else if eq_ignore_ascii_case_seq(columns[i].name@, name) {
        Some(i)
    } else {
        find_column_spec(columns, name, i + 1)
    }
}

/// Find a column by name (case-insensitive) on a board.
pub fn find_column(columns: &[Column], name: &str) -> (r: Option<usize>)
    ensures
        match r {
            Some(i) => find_column_spec(columns@, name@, 0) == Some(i as int) && i < columns@.len(),
            None => find_column_spec(columns@, name@, 0) is None,
        },
{
    let n = columns.len();
    let mut i: usize = 0;
    while i < n
        invariant
            n == columns@.len(),
            i <= n,
            find_column_spec(columns@, name@, 0) == find_column_spec(columns@, name@, i as int),
        decreases n - i,
    {
        if eq_ignore_ascii_case(columns[i].name.as_str(), name) {
            return Some(i);
        }
        i = i + 1;
    }
    None
}

/// The message for a column that is not on the board.
pub fn column_not_found_message(name: &str) -> (m: String)
    ensures
        m@ == "Column \""@ + name@ + "\" not found. Use `fz columns <board_id>`"@,
{
    let mut m = concat("Column \"", name);
    push_str(&mut m, "\" not found. Use `fz columns <board_id>`");
    m
}

/// Some assignee of the card has the ID `user_id`.
pub open spec fn is_assigned_spec(card: &Card, user_id: Seq<char>) -> bool {
    card.assignees matches Some(a) && exists|i: int|
        0 <= i < a@.len() && #[trigger] a@[i].id@ == user_id
}

/// Whether the user is already among the card's assignees (so `claim` does not toggle
/// the assignment off).
pub fn is_assigned(card: &Card, user_id: &str) -> (b: bool)
    ensures
        b == is_assigned_spec(card, user_id@),
{
    match &card.assignees {
        Some(a) => {
            let n = a.len();
            for i in 0..n
                invariant
                    n == a@.len(),
                    card.assignees == Some(*a),
                    forall|j: int| 0 <= j < i ==> a@[j].id@ != user_id@,
            {
                if str_eq(a[i].id.as_str(), user_id) {
                    return true;
                }
            }
            false
        },
        None => false,
    }
}

/// What `claim` refuses: a closed card, with the message "Card #<n> is closed.".
pub fn check_claimable(card: &Card, number: u64) -> (r: Result<(), String>)
    ensures
        card.closed == Some(true) <==> r is Err,
        r matches Err(m) ==> m@ == "Card #"@ + dec_seq(number as nat) + " is closed."@,
{
    if card.closed == Some(true) {
        let mut m = "Card #".to_owned();
        push_u64(&mut m, number);
        push_str(&mut m, " is closed.");
        Err(m)
    } else {
        Ok(())
    }
}

/// The tag that records a dependency on card `depends_on`: `after-<n>`.
pub fn dep_tag_title(depends_on: u64) -> (t: String)
    ensures
        t@ == DEP_PREFIX@ + dec_seq(depends_on as nat),
        dep_of(t@) == Some(depends_on),
{
    let mut t = DEP_PREFIX.to_owned();
    push_u64(&mut t, depends_on);
    proof {
        crate::text::lemma_dec_parses(depends_on);
        assert(t@.skip(DEP_PREFIX@.len() as int) =~= dec_seq(depends_on as nat));
        assert(t@.take(DEP_PREFIX@.len() as int) =~= DEP_PREFIX@);
    }
    t
}

// ---------------------------------------------------------------------------
// Summaries
// ---------------------------------------------------------------------------

/// What `prime`, `ready` and `blocked` report of a card in JSON.
#[derive(Debug)]
pub struct CardSummary {
    pub number: u64,
    pub title: String,
    pub column: String,
    pub tags: Vec<String>,
    pub deps: Vec<u64>,
    pub assignees: Vec<String>,
    /// The unsatisfied dependencies, for blocked cards only.
    pub blocked_by: Option<Vec<u64>>,
}

/// The names of a list of users.
pub open spec fn user_names(users: Seq<User>) -> Seq<Seq<char>> {
    users.map_values(|u: User| u.name@)
}

/// The names of the card's assignees, or none.
pub open spec fn assignee_names(card: &Card) -> Seq<Seq<char>> {
    match card.assignees {
        Some(a) => user_names(a@),
        None => Seq::<Seq<char>>::empty(),
    }
}

fn names_of(users: &Vec<User>) -> (r: Vec<String>)
    ensures
        views(r@) == user_names(users@),
{
    let mut r: Vec<String> = Vec::new();
    let n = users.len();
    for i in 0..n
        invariant
            n == users@.len(),
            views(r@) == user_names(users@.take(i as int)),
    {
        let nm = users[i].name.clone();
        let ghost before = r@;
        r.push(nm);
        assert(views(r@) =~= views(before).push(nm@));
        assert(user_names(users@.take(i + 1)) =~= user_names(users@.take(i as int)).push(nm@));
    }
    assert(users@.take(n as int) == users@);
    r
}

/// The summary of a card.
pub fn card_summary(card: &Card) -> (s: CardSummary)
    ensures
        s.number == card.number,
        s.title@ == card.title@,
        s.column@ == col_name_spec(card),
        s.tags@ == card.tags@,
        s.deps@ == deps_seq(tag_views(card)),
        views(s.assignees@) == assignee_names(card),
        s.blocked_by is None,
{
    let assignees = match &card.assignees {
        Some(a) => names_of(a),
        None => Vec::new(),
    };
    CardSummary {
        number: card.number,
        title: card.title.clone(),
        column: col_name(card).to_owned(),
        tags: clone_strings(card.tags.as_slice()),
        deps: parse_deps(card.tags.as_slice()),
        assignees,
        blocked_by: None,
    }
}

/// The summary of a blocked card, with the open cards it waits for.
pub fn blocked_summary(card: &Card, all_cards: &[Card]) -> (s: CardSummary)
    ensures
        s.number == card.number,
        s.title@ == card.title@,
        s.column@ == col_name_spec(card),
        s.tags@ == card.tags@,
        s.deps@ == deps_seq(tag_views(card)),
        views(s.assignees@) == assignee_names(card),
        s.blocked_by matches Some(b) && b@ == unsatisfied_seq(deps_seq(tag_views(card)), all_cards@),
{
    let mut s = card_summary(card);
    s.blocked_by = Some(unsatisfied_deps(card, all_cards));
    s
}


// ---------------------------------------------------------------------------
// Board choice and messages
// ---------------------------------------------------------------------------

/// Resolve board ID: flag > project config > global config.
pub fn resolve_board_id(board_flag: Option<&str>, project: &ProjectConfig, config: &Config) -> (r: Result<
    String,
    ConfigError,
>)
    ensures
        match ProjectConfig::resolve_board_spec(
            match board_flag {
                Some(f) => Some(f@),
                None => None,
            },
            project,
            config,
        ) {
            Some(b) => r matches Ok(s) && s@ == b,
            None => r == Err::<String, ConfigError>(ConfigError::NoBoard),
        },
{
    ProjectConfig::resolve_board(board_flag, project, config)
}

/// The reaction that marks a card as having a plan.
pub const PLAN_REACTION: &'static str = "💡";

/// What an agent command reports when it is done.
#[derive(Debug)]
pub enum Notice {
    /// `dep`: the card now waits for another.
    DependsOn { number: u64, depends_on: u64 },
    /// `plan` with a text.
    PlanSet(u64),
    /// `plan` without a text, on a card without a plan.
    NoPlan(u64),
    /// `claim`.
    Claimed { number: u64, name: String },
    /// `progress`.
    ProgressLogged(u64),
    /// `done`.
    Done(u64),
    /// `review` on a board with a Review column.
    MovedToReview(u64),
    /// `review` on a board without one.
    ReviewCommentOnly(u64),
}

impl Notice {
    /// The text of the notice.
    pub open spec fn text_spec(self) -> Seq<char> {
        match self {
            Notice::DependsOn { number, depends_on } => "#"@ + dec_seq(number as nat) + " now depends on #"@
                + dec_seq(depends_on as nat) + " (tag: #"@ + DEP_PREFIX@ + dec_seq(depends_on as nat) + ")"@,
            Notice::PlanSet(n) => "Plan set on #"@ + dec_seq(n as nat) + " "@ + PLAN_REACTION@,
            Notice::NoPlan(n) => "No plan on #"@ + dec_seq(n as nat) + ". Set one with: fz plan "@ + dec_seq(
                n as nat,
            ) + " \"plan text\""@,
            Notice::Claimed { number, name } => "Claimed #"@ + dec_seq(number as nat) + " — assigned to "@ + name@
                + ", moved to In Progress."@,
            Notice::ProgressLogged(n) => "Progress logged on #"@ + dec_seq(n as nat) + "."@,
            Notice::Done(n) => "Card #"@ + dec_seq(n as nat) + " done."@,
            Notice::MovedToReview(n) => "Card #"@ + dec_seq(n as nat) + " moved to Review."@,
            Notice::ReviewCommentOnly(n) => "Card #"@ + dec_seq(n as nat) + " comment added (no Review column found)."@,
        }
    }

    /// The text of the notice.
    pub fn text(&self) -> (t: String)
        ensures
            t@ == self.text_spec(),
    {
        match self {
            Notice::DependsOn { number, depends_on } => {
                let mut t = "#".to_owned();
                push_u64(&mut t, *number);
                push_str(&mut t, " now depends on #");
                push_u64(&mut t, *depends_on);
                push_str(&mut t, " (tag: #");
                push_str(&mut t, DEP_PREFIX);
                push_u64(&mut t, *depends_on);
                push_str(&mut t, ")");
                t
            },
            Notice::PlanSet(n) => {
                let mut t = "Plan set on #".to_owned();
                push_u64(&mut t, *n);
                push_str(&mut t, " ");
                push_str(&mut t, PLAN_REACTION);
                t
            },
            Notice::NoPlan(n) => {
                let mut t = "No plan on #".to_owned();
                push_u64(&mut t, *n);
                push_str(&mut t, ". Set one with: fz plan ");
                push_u64(&mut t, *n);
                push_str(&mut t, " \"plan text\"");
                t
            },
            Notice::Claimed { number, name } => {
                let mut t = "Claimed #".to_owned();
                push_u64(&mut t, *number);
                push_str(&mut t, " — assigned to ");
                push_str(&mut t, name.as_str());
                push_str(&mut t, ", moved to In Progress.");
                t
            },
            Notice::ProgressLogged(n) => {
                let mut t = "Progress logged on #".to_owned();
                push_u64(&mut t, *n);
                push_str(&mut t, ".");
                t
            },
            Notice::Done(n) => {
                let mut t = "Card #".to_owned();
                push_u64(&mut t, *n);
                push_str(&mut t, " done.");
                t
            },
            Notice::MovedToReview(n) => {
                let mut t = "Card #".to_owned();
                push_u64(&mut t, *n);
                push_str(&mut t, " moved to Review.");
                t
            },
            Notice::ReviewCommentOnly(n) => {
                let mut t = "Card #".to_owned();
                push_u64(&mut t, *n);
                push_str(&mut t, " comment added (no Review column found).");
                t
            },
        }
    }
}


/// Tagging a card with the tag that `dep` adds gives it exactly that dependency more:
/// its dependencies become the old ones followed by `depends_on`.
pub proof fn law_dep_tag_adds_dependency(tags: Seq<Seq<char>>, depends_on: u64)
    ensures
        deps_seq(tags.push(DEP_PREFIX@ + dec_seq(depends_on as nat))) == deps_seq(tags).push(depends_on),
{
    let t = DEP_PREFIX@ + dec_seq(depends_on as nat);
    crate::text::lemma_dec_parses(depends_on);
    assert(t.skip(DEP_PREFIX@.len() as int) =~= dec_seq(depends_on as nat));
    assert(t.take(DEP_PREFIX@.len() as int) =~= DEP_PREFIX@);
    assert(dep_of(t) == Some(depends_on));
    assert(tags.push(t).drop_last() =~= tags);
}

} // verus!
