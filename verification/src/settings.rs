//! The session hook that `init` registers in the coding agent's settings file, so that
//! each agent session starts with `fz prime`.
use vstd::prelude::*;

use crate::text::{concat, find, find_from, find_seq, occurs_at, push_str};

verus! {

/// A JSON value. An object keeps its members in order.
#[derive(Debug)]
pub enum Json {
    Null,
    Bool(bool),
    Number(String),
    Str(String),
    Array(Vec<Json>),
    Object(Vec<(String, Json)>),
}

/// The command of the session hook that `init` registers.
pub const PRIME_HOOK_COMMAND: &'static str = "fz prime 2>/dev/null || true";

/// What a registered hook command contains.
pub const PRIME_COMMAND: &'static str = "fz prime";

/// The first position of member `key`.
pub open spec fn key_index(e: Seq<(String, Json)>, key: Seq<char>) -> Option<int>
    decreases e.len(),
{
    if e.len() == 0 {
        None
    } else {
        match key_index(e.drop_last(), key) {
            Some(i) => Some(i),
            None => if e.last().0@ == key {
                Some(e.len() - 1)
            } else {
                None
            },
        }
    }
}

/// The text of a value's `command` member, when it is a string.
pub open spec fn command_of(j: Json) -> Option<Seq<char>> {
    match j {
        Json::Object(e) => match key_index(e@, "command"@) {
            Some(i) => match e@[i].1 {
                Json::Str(s) => Some(s@),
                _ => None,
            },
            None => None,
        },
        _ => None,
    }
}

/// The hook runs `fz prime`: its command contains it.
pub open spec fn runs_prime(j: Json) -> bool {
    match command_of(j) {
        Some(t) => find_seq(t, PRIME_COMMAND@) is Some,
        None => false,
    }
}

/// Some hook of the list already runs `fz prime`.
pub open spec fn hook_registered(hooks: Seq<Json>) -> bool {
    exists|i: int| 0 <= i < hooks.len() && #[trigger] runs_prime(hooks[i])
}

/// A string value with text `s`.
pub open spec fn is_str(j: Json, s: Seq<char>) -> bool {
    match j {
        Json::Str(t) => t@ == s,
        _ => false,
    }
}

/// The hook that `init` adds: `{"type": "command", "command": "fz prime ..."}`.
pub open spec fn is_prime_hook(j: Json) -> bool {
    match j {
        Json::Object(e) => {
            &&& e@.len() == 2
            &&& e@[0].0@ == "type"@ && is_str(e@[0].1, "command"@)
            &&& e@[1].0@ == "command"@ && is_str(e@[1].1, PRIME_HOOK_COMMAND@)
        },
        _ => false,
    }
}

/// The hook list after the merge: unchanged when the hook is there, else with it added
/// at the end.
pub open spec fn array_merged(old: Seq<Json>, new: Json) -> bool {
    new matches Json::Array(v) && if hook_registered(old) {
        v@ == old
    } else {
        v@.len() == old.len() + 1 && v@.take(old.len() as int) == old && is_prime_hook(v@.last())
    }
}

/// The `hooks` object after the merge: its `SessionStart` list merged, or a new list
/// holding the hook added as its last member.
pub open spec fn hooks_merged(old: Seq<(String, Json)>, new: Json) -> bool {
    new matches Json::Object(ne) && match key_index(old, "SessionStart"@) {
        Some(k) => {
            &&& ne@.len() == old.len()
            &&& forall|i: int| 0 <= i < old.len() && i != k ==> #[trigger] ne@[i] == old[i]
            &&& ne@[k].0 == old[k].0
            &&& (old[k].1 matches Json::Array(v) && array_merged(v@, ne@[k].1))
        },
        None => {
            &&& ne@.len() == old.len() + 1
            &&& ne@.take(old.len() as int) == old
            &&& ne@.last().0@ == "SessionStart"@
            &&& array_merged(Seq::empty(), ne@.last().1)
        },
    }
}

/// The settings after the merge: the `hooks` member merged, or a new one holding only
/// `SessionStart` added as the last member.
pub open spec fn settings_merged(old: Seq<(String, Json)>, new: Json) -> bool {
    new matches Json::Object(ne) && match key_index(old, "hooks"@) {
        Some(k) => {
            &&& ne@.len() == old.len()
            &&& forall|i: int| 0 <= i < old.len() && i != k ==> #[trigger] ne@[i] == old[i]
            &&& ne@[k].0 == old[k].0
            &&& (old[k].1 matches Json::Object(he) && hooks_merged(he@, ne@[k].1))
        },
        None => {
            &&& ne@.len() == old.len() + 1
            &&& ne@.take(old.len() as int) == old
            &&& ne@.last().0@ == "hooks"@
            &&& hooks_merged(Seq::empty(), ne@.last().1)
        },
    }
}

/// Why settings cannot take the hook: the file, its `hooks` or its `SessionStart` has the
/// wrong shape.
pub open spec fn merge_error(settings: Json) -> Option<Seq<char>> {
    match settings {
        Json::Object(e) => match key_index(e@, "hooks"@) {
            None => None,
            Some(k) => match e@[k].1 {
                Json::Object(he) => match key_index(he@, "SessionStart"@) {
                    None => None,
                    Some(j) => if he@[j].1 is Array {
                        None
                    } else {
                        Some("SessionStart is not an array"@)
                    },
                },
                _ => Some("hooks is not a JSON object"@),
            },
        },
        _ => Some("settings.json is not a JSON object"@),
    }
}

fn key_position(e: &Vec<(String, Json)>, key: &str) -> (r: Option<usize>)
    ensures
        key_index(e@, key@) is None <==> r is None,
        r matches Some(j) ==> key_index(e@, key@) == Some(j as int) && j < e@.len(),
{
    let n = e.len();
    let mut i: usize = 0;
    while i < n
        invariant
            n == e@.len(),
            i <= n,
            key_index(e@.take(i as int), key@) is None,
        decreases n - i,
    {
        assert(e@.take(i + 1).drop_last() =~= e@.take(i as int));
        if crate::text::str_eq(e[i].0.as_str(), key) {
            proof {
                lemma_key_index_prefix(e@, key@, (i + 1) as int);
            }
            return Some(i);
        }
        i = i + 1;
    }
    assert(e@.take(n as int) =~= e@);
    None
}

proof fn lemma_key_index_prefix(e: Seq<(String, Json)>, key: Seq<char>, m: int)
    requires
        0 < m <= e.len(),
        key_index(e.take(m), key) is Some,
    ensures
        key_index(e, key) == key_index(e.take(m), key),
    decreases e.len() - m,
{
    if m < e.len() {
        assert(e.take(m + 1).drop_last() =~= e.take(m));
        lemma_key_index_prefix(e, key, m + 1);
    } else {
        assert(e.take(m) =~= e);
    }
}

fn command_contains_prime(j: &Json) -> (b: bool)
    ensures
        b == runs_prime(*j),
{
    match j {
        Json::Object(e) => match key_position(e, "command") {
            Some(i) => match &e[i].1 {
                Json::Str(s) => {
                    let r = find(s.as_str(), PRIME_COMMAND);
                    assert(key_index(e@, "command"@) == Some(i as int));
                    assert(e@[i as int].1 == Json::Str(*s));
                    assert(command_of(*j) == Some(s@));
                    r.is_some()
                },
                _ => false,
            },
            None => false,
        },
        _ => false,
    }
}

fn has_prime_hook(hooks: &Vec<Json>) -> (b: bool)
    ensures
        b == hook_registered(hooks@),
{
    let n = hooks.len();
    for i in 0..n
        invariant
            n == hooks@.len(),
            forall|k: int| 0 <= k < i ==> !(#[trigger] runs_prime(hooks@[k])),
    {
        if command_contains_prime(&hooks[i]) {
            assert(runs_prime(hooks@[i as int]));
            return true;
        }
    }
    false
}

fn prime_hook() -> (j: Json)
    ensures
        is_prime_hook(j),
{
    let mut e: Vec<(String, Json)> = Vec::new();
    e.push(("type".to_owned(), Json::Str("command".to_owned())));
    e.push(("command".to_owned(), Json::Str(PRIME_HOOK_COMMAND.to_owned())));
    Json::Object(e)
}

fn merge_array(v: Vec<Json>) -> (r: Json)
    ensures
        array_merged(v@, r),
{
    let mut v = v;
    if has_prime_hook(&v) {
        Json::Array(v)
    } else {
        let ghost before = v@;
        v.push(prime_hook());
        assert(v@.take(before.len() as int) =~= before);
        Json::Array(v)
    }
}

fn merge_hooks(e: Vec<(String, Json)>) -> (r: Result<Json, String>)
    ensures
        match r {
            Ok(j) => hooks_merged(e@, j) && match key_index(e@, "SessionStart"@) {
                Some(k) => e@[k].1 is Array,
                None => true,
            },
            Err(m) => m@ == "SessionStart is not an array"@ && (key_index(e@, "SessionStart"@) matches Some(k)
                && !(e@[k].1 is Array)),
        },
{
    let mut e = e;
    let ghost old_e = e@;
    match key_position(&e, "SessionStart") {
        Some(k) => {
            let (key, val) = e.remove(k);
            match val {
                Json::Array(v) => {
                    let merged = merge_array(v);
                    e.insert(k, (key, merged));
                    assert forall|i: int| 0 <= i < old_e.len() && i != k implies #[trigger] e@[i] == old_e[i] by {
                        if i < k {
                        } else {
                        }
                    }
                    Ok(Json::Object(e))
                },
                _ => Err("SessionStart is not an array".to_owned()),
            }
        },
        None => {
            let merged = merge_array(Vec::new());
            e.push(("SessionStart".to_owned(), merged));
            assert(e@.take(old_e.len() as int) =~= old_e);
            Ok(Json::Object(e))
        },
    }
}

/// Registers the session hook that runs `fz prime` in the coding agent's settings,
/// unless a hook already runs it. Missing or unreadable settings count as an empty object.
pub fn merge_session_hook(settings: Option<Json>) -> (r: Result<Json, String>)
    ensures
        match settings {
            None => r matches Ok(j) && settings_merged(Seq::empty(), j),
            Some(s) => match merge_error(s) {
                Some(m) => r matches Err(e) && e@ == m,
                None => r matches Ok(j) && (s matches Json::Object(e) && settings_merged(e@, j)),
            },
        },
{
    let ghost orig = settings;
    let entries = match settings {
        None => Vec::new(),
        Some(Json::Object(e)) => e,
        Some(_) => {
            return Err("settings.json is not a JSON object".to_owned());
        },
    };
    let mut e = entries;
    let ghost old_e = e@;
    assert(orig is None ==> old_e =~= Seq::<(String, Json)>::empty());
    match key_position(&e, "hooks") {
        Some(k) => {
            let (key, val) = e.remove(k);
            match val {
                Json::Object(he) => match merge_hooks(he) {
                    Ok(merged) => {
                        e.insert(k, (key, merged));
                        assert forall|i: int| 0 <= i < old_e.len() && i != k implies #[trigger] e@[i] == old_e[i] by {
                            if i < k {
                            } else {
                            }
                        }
                        Ok(Json::Object(e))
                    },
                    Err(m) => Err(m),
                },
                _ => Err("hooks is not a JSON object".to_owned()),
            }
        },
        None => {
            let merged = match merge_hooks(Vec::new()) {
                Ok(m) => m,
                Err(m) => {
                    return Err(m);
                },
            };
            e.push(("hooks".to_owned(), merged));
            assert(e@.take(old_e.len() as int) =~= old_e);
            assert(settings_merged(old_e, Json::Object(e)));
            Ok(Json::Object(e))
        },
    }
}


// ---------------------------------------------------------------------------
// Laws of the hook merge
// ---------------------------------------------------------------------------

/// Two values are arrays or objects of the same length whose members agree by `inner`
/// (with the same keys), or are equal.
pub open spec fn same_shape(a: Json, b: Json, inner: spec_fn(Json, Json) -> bool) -> bool {
    if a is Array && b is Array {
        let x = a->Array_0@;
        let y = b->Array_0@;
        x.len() == y.len() && forall|i: int| 0 <= i < x.len() ==> #[trigger] inner(x[i], y[i])
    } else if a is Object && b is Object {
        let x = a->Object_0@;
        let y = b->Object_0@;
        x.len() == y.len() && forall|i: int| 0 <= i < x.len() ==> x[i].0 == y[i].0 && #[trigger] inner(x[i].1, y[i].1)
    } else {
        a == b
    }
}

/// Equal.
pub open spec fn same0(a: Json, b: Json) -> bool {
    a == b
}

/// The same down to the members.
pub open spec fn same1(a: Json, b: Json) -> bool {
    same_shape(a, b, |s: Json, t: Json| same0(s, t))
}

/// The same down to the members of the members.
pub open spec fn same2(a: Json, b: Json) -> bool {
    same_shape(a, b, |s: Json, t: Json| same1(s, t))
}

/// The same down to the members of the members of the members.
pub open spec fn same_json(a: Json, b: Json) -> bool {
    same_shape(a, b, |s: Json, t: Json| same2(s, t))
}

proof fn lemma_same_refl1(a: Json)
    ensures
        same1(a, a),
{
}

proof fn lemma_same_refl2(a: Json)
    ensures
        same2(a, a),
{
    if a is Array {
        assert forall|i: int| 0 <= i < a->Array_0@.len() implies #[trigger] same1(a->Array_0@[i], a->Array_0@[i]) by {
            lemma_same_refl1(a->Array_0@[i]);
        }
    } else if a is Object {
        assert forall|i: int| 0 <= i < a->Object_0@.len() implies #[trigger] same1(a->Object_0@[i].1, a->Object_0@[i].1) by {
            lemma_same_refl1(a->Object_0@[i].1);
        }
    }
}

proof fn lemma_prime_hook_runs_prime(j: Json)
    requires
        is_prime_hook(j),
    ensures
        runs_prime(j),
{
    reveal_strlit("fz prime 2>/dev/null || true");
    reveal_strlit("fz prime");
    reveal_strlit("command");
    reveal_strlit("type");
    match j {
        Json::Object(e) => {
            assert(e@[0].0@ != "command"@) by {
                assert(e@[0].0@.len() != "command"@.len());
            }
            let d1 = e@.drop_last();
            assert(d1.drop_last() =~= Seq::<(String, Json)>::empty());
            assert(key_index(d1.drop_last(), "command"@) is None);
            assert(d1.last() == e@[0]);
            assert(key_index(d1, "command"@) is None);
            assert(e@.last() == e@[1]);
            assert(key_index(e@, "command"@) == Some(1int));
            let t = PRIME_HOOK_COMMAND@;
            assert(t.subrange(0, PRIME_COMMAND@.len() as int) =~= PRIME_COMMAND@);
            assert(occurs_at(t, PRIME_COMMAND@, 0));
        },
        _ => {},
    }
}

proof fn lemma_array_merged_registers(old: Seq<Json>, new: Json)
    requires
        array_merged(old, new),
    ensures
        new matches Json::Array(v) && hook_registered(v@),
{
    match new {
        Json::Array(v) => {
            if hook_registered(old) {
                let i = choose|i: int| 0 <= i < old.len() && #[trigger] runs_prime(old[i]);
                assert(runs_prime(v@[i]));
            } else {
                lemma_prime_hook_runs_prime(v@.last());
                assert(runs_prime(v@[v@.len() - 1]));
            }
        },
        _ => {},
    }
}

proof fn lemma_key_index_range(e: Seq<(String, Json)>, key: Seq<char>)
    ensures
        key_index(e, key) matches Some(i) ==> 0 <= i < e.len() && e[i].0@ == key,
    decreases e.len(),
{
    if e.len() > 0 {
        lemma_key_index_range(e.drop_last(), key);
    }
}

proof fn lemma_key_index_same_keys(a: Seq<(String, Json)>, b: Seq<(String, Json)>, key: Seq<char>)
    requires
        a.len() == b.len(),
        forall|i: int| 0 <= i < a.len() ==> (#[trigger] a[i]).0@ == b[i].0@,
    ensures
        key_index(a, key) == key_index(b, key),
    decreases a.len(),
{
    if a.len() > 0 {
        lemma_key_index_same_keys(a.drop_last(), b.drop_last(), key);
        assert(a.last().0@ == b.last().0@);
    }
}

proof fn lemma_key_index_push(a: Seq<(String, Json)>, b: Seq<(String, Json)>, key: Seq<char>)
    requires
        b.len() == a.len() + 1,
        b.take(a.len() as int) == a,
        key_index(a, key) is None,
        b.last().0@ == key,
    ensures
        key_index(b, key) == Some(a.len() as int),
{
    assert(b.drop_last() =~= a);
}

proof fn lemma_hooks_idempotent(h: Seq<(String, Json)>, j1: Json, j2: Json)
    requires
        hooks_merged(h, j1),
        j1 matches Json::Object(e1) && hooks_merged(e1@, j2),
    ensures
        j1 matches Json::Object(e1) && (key_index(e1@, "SessionStart"@) matches Some(k) && (e1@[k].1 matches Json::Array(
            v,
        ) && hook_registered(v@))),
        same2(j1, j2),
{
    lemma_key_index_range(h, "SessionStart"@);
    let e1 = j1->Object_0;
    let e2 = j2->Object_0;
    let k1 = match key_index(h, "SessionStart"@) {
        Some(k) => {
            assert forall|i: int| 0 <= i < h.len() implies (#[trigger] h[i]).0@ == e1@[i].0@ by {
                if i != k {
                    assert(e1@[i] == h[i]);
                }
            }
            lemma_key_index_same_keys(h, e1@, "SessionStart"@);
            lemma_array_merged_registers(h[k].1->Array_0@, e1@[k].1);
            k
        },
        None => {
            lemma_key_index_push(h, e1@, "SessionStart"@);
            lemma_array_merged_registers(Seq::empty(), e1@.last().1);
            h.len() as int
        },
    };
    assert(key_index(e1@, "SessionStart"@) == Some(k1));
    let v1 = e1@[k1].1->Array_0;
    assert(hook_registered(v1@));
    assert(e2@[k1].1->Array_0@ == v1@);
    assert forall|i: int| 0 <= i < e1@.len() implies e1@[i].0 == e2@[i].0 && #[trigger] same1(e1@[i].1, e2@[i].1) by {
        if i != k1 {
            assert(e2@[i] == e1@[i]);
            lemma_same_refl1(e1@[i].1);
        }
    }
}

/// The hook list of a merge gains the `fz prime` hook exactly when none of its hooks has a
/// command containing `fz prime`: a list without one gets the hook appended after its own
/// hooks, a list with one is left as it is.
pub proof fn law_prime_hook_added_unless_present(old: Seq<Json>, new: Json)
    requires
        array_merged(old, new),
    ensures
        (forall|i: int|
            0 <= i < old.len() ==> !(command_of(#[trigger] old[i]) matches Some(t) && find_seq(
                t,
                PRIME_COMMAND@,
            ) is Some)) ==> (new matches Json::Array(v) && v@.len() == old.len() + 1 && v@.take(
            old.len() as int,
        ) == old && is_prime_hook(v@.last())),
        (exists|i: int|
            0 <= i < old.len() && (command_of(#[trigger] old[i]) matches Some(t) && find_seq(
                t,
                PRIME_COMMAND@,
            ) is Some)) ==> (new matches Json::Array(v) && v@ == old),
{
    if forall|i: int|
        0 <= i < old.len() ==> !(command_of(#[trigger] old[i]) matches Some(t) && find_seq(
            t,
            PRIME_COMMAND@,
        ) is Some) {
        assert(!hook_registered(old)) by {
            if hook_registered(old) {
                let i = choose|i: int| 0 <= i < old.len() && #[trigger] runs_prime(old[i]);
                assert(runs_prime(old[i]));
            }
        }
    }
    if exists|i: int|
        0 <= i < old.len() && (command_of(#[trigger] old[i]) matches Some(t) && find_seq(
            t,
            PRIME_COMMAND@,
        ) is Some) {
        let i = choose|i: int|
            0 <= i < old.len() && (command_of(#[trigger] old[i]) matches Some(t) && find_seq(
                t,
                PRIME_COMMAND@,
            ) is Some);
        assert(runs_prime(old[i]));
        assert(hook_registered(old));
    }
}

/// `init` on settings whose `hooks.SessionStart` list has no hook running `fz prime`
/// appends the `fz prime` hook to that list and keeps the hooks it had, in place.
pub proof fn law_session_hook_appended(e: Seq<(String, Json)>, j: Json, k: int, s: int)
    requires
        settings_merged(e, j),
        key_index(e, "hooks"@) == Some(k),
        e[k].1 matches Json::Object(he) && key_index(he@, "SessionStart"@) == Some(s) && (he@[s].1 matches Json::Array(
            v,
        ) && forall|i: int|
            0 <= i < v@.len() ==> !(command_of(#[trigger] v@[i]) matches Some(t) && find_seq(
                t,
                PRIME_COMMAND@,
            ) is Some)),
    ensures
        j matches Json::Object(je) && (je@[k].1 matches Json::Object(jh) && (jh@[s].1 matches Json::Array(w) && ({
            let v = e[k].1->Object_0@[s].1->Array_0@;
            &&& key_index(je@, "hooks"@) == Some(k)
            &&& key_index(jh@, "SessionStart"@) == Some(s)
            &&& w@.len() == v.len() + 1
            &&& w@.take(v.len() as int) == v
            &&& is_prime_hook(w@.last())
        }))),
{
    lemma_key_index_range(e, "hooks"@);
    let je = j->Object_0;
    assert forall|i: int| 0 <= i < e.len() implies (#[trigger] e[i]).0@ == je@[i].0@ by {
        if i != k {
            assert(je@[i] == e[i]);
        }
    }
    lemma_key_index_same_keys(e, je@, "hooks"@);
    let he = e[k].1->Object_0@;
    let jh = je@[k].1->Object_0;
    lemma_key_index_range(he, "SessionStart"@);
    assert forall|i: int| 0 <= i < he.len() implies (#[trigger] he[i]).0@ == jh@[i].0@ by {
        if i != s {
            assert(jh@[i] == he[i]);
        }
    }
    lemma_key_index_same_keys(he, jh@, "SessionStart"@);
    law_prime_hook_added_unless_present(he[s].1->Array_0@, jh@[s].1);
}

/// Merged hooks are an object whose `SessionStart` is a list.
proof fn lemma_hooks_merged_shape(h: Seq<(String, Json)>, j: Json)
    requires
        hooks_merged(h, j),
    ensures
        j matches Json::Object(e) && (key_index(e@, "SessionStart"@) matches Some(k) && e@[k].1 is Array),
{
    lemma_key_index_range(h, "SessionStart"@);
    let e = j->Object_0;
    match key_index(h, "SessionStart"@) {
        Some(k) => {
            assert forall|i: int| 0 <= i < h.len() implies (#[trigger] h[i]).0@ == e@[i].0@ by {
                if i != k {
                    assert(e@[i] == h[i]);
                }
            }
            lemma_key_index_same_keys(h, e@, "SessionStart"@);
        },
        None => {
            lemma_key_index_push(h, e@, "SessionStart"@);
        },
    }
}

/// What a merge gives can be merged again: the merged settings always have the shape the
/// merge takes, so a second `init` merge never fails.
pub proof fn law_merged_settings_merge_again(e: Seq<(String, Json)>, j1: Json)
    requires
        settings_merged(e, j1),
    ensures
        merge_error(j1) is None,
{
    lemma_key_index_range(e, "hooks"@);
    let e1 = j1->Object_0;
    match key_index(e, "hooks"@) {
        Some(k) => {
            assert forall|i: int| 0 <= i < e.len() implies (#[trigger] e[i]).0@ == e1@[i].0@ by {
                if i != k {
                    assert(e1@[i] == e[i]);
                }
            }
            lemma_key_index_same_keys(e, e1@, "hooks"@);
            lemma_hooks_merged_shape(e[k].1->Object_0@, e1@[k].1);
        },
        None => {
            lemma_key_index_push(e, e1@, "hooks"@);
            lemma_hooks_merged_shape(Seq::empty(), e1@.last().1);
        },
    }
}

/// After `init` merges its hook into the settings, a hook runs `fz prime`, and
/// merging again changes nothing: the second merge succeeds and gives the same settings.
pub proof fn law_hook_merge_idempotent(e: Seq<(String, Json)>, j1: Json, j2: Json)
    requires
        settings_merged(e, j1),
        j1 matches Json::Object(e1) && settings_merged(e1@, j2),
    ensures
        merge_error(j1) is None,
        same_json(j1, j2),
        j1 matches Json::Object(e1) && (key_index(e1@, "hooks"@) matches Some(k) && (e1@[k].1 matches Json::Object(
            h,
        ) && (key_index(h@, "SessionStart"@) matches Some(s) && (h@[s].1 matches Json::Array(v) && hook_registered(v@))))),
{
    lemma_key_index_range(e, "hooks"@);
    let e1 = j1->Object_0;
    let e2 = j2->Object_0;
    let k1 = match key_index(e, "hooks"@) {
        Some(k) => {
            assert forall|i: int| 0 <= i < e.len() implies (#[trigger] e[i]).0@ == e1@[i].0@ by {
                if i != k {
                    assert(e1@[i] == e[i]);
                }
            }
            lemma_key_index_same_keys(e, e1@, "hooks"@);
            lemma_hooks_idempotent(e[k].1->Object_0@, e1@[k].1, e2@[k].1);
            k
        },
        None => {
            lemma_key_index_push(e, e1@, "hooks"@);
            lemma_hooks_idempotent(Seq::empty(), e1@.last().1, e2@[e.len() as int].1);
            e.len() as int
        },
    };
    assert(key_index(e1@, "hooks"@) == Some(k1));
    assert forall|i: int| 0 <= i < e1@.len() implies e1@[i].0 == e2@[i].0 && #[trigger] same2(e1@[i].1, e2@[i].1) by {
        if i != k1 {
            assert(e2@[i] == e1@[i]);
            lemma_same_refl2(e1@[i].1);
        }
    }
}

} // verus!
