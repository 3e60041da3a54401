//! Project setup: the workflow section of the agent's notes file, the choices that `init` makes,
//! which account `login` selects, and the search for the project file.
use vstd::prelude::*;

use crate::models::{AccountWithUser, Board};
use crate::project::PROJECT_FILE;
use crate::text::{
    concat, find, find_seq, has_prefix, lemma_find_from, occurs_at, push_str, string_of_range, str_eq, trim_start_char, trim_start_char_seq,
};

verus! {

/// The marker around the workflow section of the agent's notes file.
pub const WORKFLOW_MARKER: &'static str = "<!-- fz -->";

/// The workflow section that `init` writes into the agent's notes file, between two markers and
/// after a line break.
pub const WORKFLOW_SECTION: &'static str = "\n<!-- fz -->\n## Task Workflow (fz)\n\nUse `fz` to manage tasks from the Fizzy board.\n\n### Finding work\n- `fz prime` — see board context, your cards, and what's ready\n- `fz ready` — list cards available for pickup\n- `fz blocked` — list cards waiting on dependencies\n\n### Working on a card\n1. `fz claim <number>` — assign to self, move to In Progress\n2. Do the work, commit atomically\n3. `fz progress <number> \"message\"` — log progress\n4. `fz review <number>` — move to Review for human check, or\n   `fz done <number>` — close the card\n\n### Dependencies\n- `fz dep <card> <depends-on>` — card depends on another (uses `#after-N` tags)\n- `fz blocked` — show cards with unsatisfied dependencies\n- Cards with `#after-N` tags won't show in `fz ready` until card N is closed\n<!-- fz -->";

/// The agent's notes file after `init`: a new file holds the section; in a file with the marker the
/// text from the first marker to the end of the next one (or to the end of the file) is
/// replaced by the section; any other file gets the section appended after a line break.
pub open spec fn notes_file_spec(existing: Option<Seq<char>>) -> Seq<char> {
    let m = WORKFLOW_MARKER@;
    let section = WORKFLOW_SECTION@;
    match existing {
        None => section + "\n"@,
        Some(c) => match find_seq(c, m) {
            Some(start) => {
                let after = start + m.len();
                let end = match find_seq(c.skip(after), m) {
                    Some(i) => after + i + m.len(),
                    None => c.len() as int,
                };
                c.take(start) + section + c.skip(end)
            },
            None => c + "\n"@ + section + "\n"@,
        },
    }
}

/// The new text of the agent's notes file, from its current text (`None` when there is no file).
pub fn notes_file_content(existing: Option<&str>) -> (r: String)
    ensures
        r@ == notes_file_spec(
            match existing {
                Some(c) => Some(c@),
                None => None,
            },
        ),
{
    match existing {
        None => concat(WORKFLOW_SECTION, "\n"),
        Some(c) => match find(c, WORKFLOW_MARKER) {
            Some(start) => {
                let v = crate::text::chars_of(c);
                let mv = crate::text::chars_of(WORKFLOW_MARKER);
                let mlen = mv.len();
                assert(mv@ == WORKFLOW_MARKER@);
                let vlen = v.len();
                assert(start + mlen <= vlen);
                let after = start + mlen;
                let rest = string_of_range(&v, after, v.len());
                assert(rest@ =~= c@.skip(after as int));
                let end = match find(rest.as_str(), WORKFLOW_MARKER) {
                    Some(i) => {
                        assert(i + mlen <= v@.len() - after);
                        after + i + mlen
                    },
                    None => v.len(),
                };
                let mut r = string_of_range(&v, 0, start);
                push_str(&mut r, WORKFLOW_SECTION);
                let tail = string_of_range(&v, end, v.len());
                push_str(&mut r, tail.as_str());
                assert(c@.subrange(0, start as int) =~= c@.take(start as int));
                assert(c@.subrange(end as int, c@.len() as int) =~= c@.skip(end as int));
                r
            },
            None => {
                let mut r = concat(c, "\n");
                push_str(&mut r, WORKFLOW_SECTION);
                push_str(&mut r, "\n");
                r
            },
        },
    }
}

/// `init` leaves the workflow section in the agent's notes file and keeps what the file
/// says before it: a file without the marker keeps its whole text in front, a file with
/// the marker keeps the text before the first marker.
pub proof fn law_notes_keep_text_and_hold_section(existing: Option<Seq<char>>)
    ensures
        ({
            let r = notes_file_spec(existing);
            &&& exists|i: int| occurs_at(r, WORKFLOW_SECTION@, i)
            &&& existing matches Some(c) ==> match find_seq(c, WORKFLOW_MARKER@) {
                Some(start) => has_prefix(r, c.take(start)),
                None => has_prefix(r, c),
            }
        }),
{
    let m = WORKFLOW_MARKER@;
    let section = WORKFLOW_SECTION@;
    let r = notes_file_spec(existing);
    match existing {
        None => {
            assert(r.subrange(0, section.len() as int) =~= section);
            assert(occurs_at(r, section, 0));
        },
        Some(c) => {
            lemma_find_from(c, m, 0);
            match find_seq(c, m) {
                Some(start) => {
                    let after = start + m.len();
                    lemma_find_from(c.skip(after), m, 0);
                    let end = match find_seq(c.skip(after), m) {
                        Some(i) => after + i + m.len(),
                        None => c.len() as int,
                    };
                    assert(end <= c.len());
                    assert(r == c.take(start) + section + c.skip(end));
                    assert(r.subrange(start, start + section.len()) =~= section);
                    assert(occurs_at(r, section, start));
                    assert(r.take(c.take(start).len() as int) =~= c.take(start));
                },
                None => {
                    reveal_strlit("\n");
                    assert(r == c + "\n"@ + section + "\n"@);
                    let at = (c.len() + 1) as int;
                    assert(r.subrange(at, at + section.len()) =~= section);
                    assert(occurs_at(r, section, at));
                    assert(r.take(c.len() as int) =~= c);
                },
            }
        },
    }
}

// ---------------------------------------------------------------------------
// init
// ---------------------------------------------------------------------------

/// The board name of a new project: the `--name` flag, else the directory's name.
pub fn project_board_name(name: Option<&str>, dir_name: Option<String>) -> (r: Result<String, String>)
    ensures
        match name {
            Some(n) => r matches Ok(b) && b@ == n@,
            None => match dir_name {
                Some(d) => r matches Ok(b) && b@ == d@,
                None => r matches Err(m) && m@ == "Could not determine project name. Use --name."@,
            },
        },
{
    match name {
        Some(n) => Ok(n.to_owned()),
        None => match dir_name {
            Some(d) => Ok(d),
            None => Err("Could not determine project name. Use --name.".to_owned()),
        },
    }
}

/// The first board named `name`.
pub open spec fn board_named(boards: Seq<Board>, name: Seq<char>, i: int) -> Option<int>
    decreases boards.len() - i,
{
    if i < 0 || i >= boards.len() {
        None
    } else if boards[i].name@ == name {
        Some(i)
    } else {
        board_named(boards, name, i + 1)
    }
}

/// The position of the first board named `name` (the board `init` just created).
pub fn find_board_by_name(boards: &[Board], name: &str) -> (r: Option<usize>)
    ensures
        board_named(boards@, name@, 0) is None <==> r is None,
        r matches Some(k) ==> board_named(boards@, name@, 0) == Some(k as int) && k < boards@.len(),
{
    let n = boards.len();
    let mut i: usize = 0;
    while i < n
        invariant
            n == boards@.len(),
            i <= n,
            board_named(boards@, name@, 0) == board_named(boards@, name@, i as int),
        decreases n - i,
    {
        if str_eq(boards[i].name.as_str(), name) {
            return Some(i);
        }
        i = i + 1;
    }
    None
}

/// The first board whose ID or name is `key`.
pub open spec fn board_with_key(boards: Seq<Board>, key: Seq<char>, i: int) -> Option<int>
    decreases boards.len() - i,
{
    if i < 0 || i >= boards.len() {
        None
    } else if boards[i].id@ == key || boards[i].name@ == key {
        Some(i)
    } else {
        board_with_key(boards, key, i + 1)
    }
}

/// The board that `init --board <key>` adopts in place of creating one: the position of
/// the first board whose ID or name is `key`.
pub fn find_board(boards: &[Board], key: &str) -> (r: Option<usize>)
    ensures
        board_with_key(boards@, key@, 0) is None <==> r is None,
        r matches Some(k) ==> board_with_key(boards@, key@, 0) == Some(k as int) && k < boards@.len(),
{
    let n = boards.len();
    let mut i: usize = 0;
    while i < n
        invariant
            n == boards@.len(),
            i <= n,
            board_with_key(boards@, key@, 0) == board_with_key(boards@, key@, i as int),
        decreases n - i,
    {
        if str_eq(boards[i].id.as_str(), key) || str_eq(boards[i].name.as_str(), key) {
            return Some(i);
        }
        i = i + 1;
    }
    None
}

/// The message when no board has the ID or name that `init --board` was given.
pub fn board_not_found_message(key: &str) -> (m: String)
    ensures
        m@ == "Board not found: "@ + key@,
{
    concat("Board not found: ", key)
}

/// The columns of a new project, in order, with their colors.
pub open spec fn initial_columns_spec() -> Seq<(Seq<char>, Seq<char>)> {
    seq![
        ("To Do"@, "var(--color-card-default)"@),
        ("In Progress"@, "var(--color-card-4)"@),
        ("Review"@, "var(--color-card-3)"@),
    ]
}

/// The columns that `init` creates: To Do, In Progress and Review.
pub fn initial_columns() -> (r: Vec<(String, String)>)
    ensures
        r@.map_values(|p: (String, String)| (p.0@, p.1@)) == initial_columns_spec(),
{
    let mut r: Vec<(String, String)> = Vec::new();
    r.push(("To Do".to_owned(), "var(--color-card-default)".to_owned()));
    r.push(("In Progress".to_owned(), "var(--color-card-4)".to_owned()));
    r.push(("Review".to_owned(), "var(--color-card-3)".to_owned()));
    assert(r@.map_values(|p: (String, String)| (p.0@, p.1@)) =~= initial_columns_spec());
    r
}

// ---------------------------------------------------------------------------
// login
// ---------------------------------------------------------------------------

/// The account that `login` makes the default: the only one, or the first when there are
/// several and none is set yet.
pub open spec fn default_account_spec(accounts: Seq<AccountWithUser>, current: Option<Seq<char>>) -> Option<int> {
    if accounts.len() == 1 {
        Some(0)
    } else if accounts.len() > 1 && current is None {
        Some(0)
    } else {
        None
    }
}

/// The account that `login` selects: its slug without leading slashes, and the line that
/// announces it (with a hint on how to change it when there was a choice).
pub fn default_account(accounts: &[AccountWithUser], current: Option<&str>) -> (r: Option<(String, String)>)
    ensures
        default_account_spec(
            accounts@,
            match current {
                Some(c) => Some(c@),
                None => None,
            },
        ) is None <==> r is None,
        r matches Some((slug, line)) ==> {
            let a = accounts@[0];
            let s = trim_start_char_seq(a.slug@, '/');
            &&& slug@ == s
            &&& line@ == "\nDefault account set to: "@ + a.name@ + " ("@ + s + ")"@ + if accounts@.len() == 1 {
                Seq::<char>::empty()
            } else {
                "\nTo change: fz set account <slug>"@
            }
        },
{
    let n = accounts.len();
    if n == 1 || (n > 1 && current.is_none()) {
        let a = &accounts[0];
        let slug = trim_start_char(a.slug.as_str(), '/');
        let mut line = concat("\nDefault account set to: ", a.name.as_str());
        push_str(&mut line, " (");
        push_str(&mut line, slug.as_str());
        push_str(&mut line, ")");
        if n > 1 {
            push_str(&mut line, "\nTo change: fz set account <slug>");
        } else {
            assert(line@ =~= line@ + Seq::<char>::empty());
        }
        Some((slug, line))
    } else {
        None
    }
}

/// The account whose slug (without leading slashes) scopes the access token that the
/// magic link flow creates: the first one; there must be one.
pub fn token_account_slug(accounts: &[AccountWithUser]) -> (r: Result<String, String>)
    ensures
        accounts@.len() == 0 <==> r is Err,
        r matches Err(m) ==> m@ == "No accounts found for this identity."@,
        r matches Ok(s) ==> s@ == trim_start_char_seq(accounts@[0].slug@, '/'),
{
    if accounts.len() == 0 {
        Err("No accounts found for this identity.".to_owned())
    } else {
        Ok(trim_start_char(accounts[0].slug.as_str(), '/'))
    }
}

// ---------------------------------------------------------------------------
// Finding the project file
// ---------------------------------------------------------------------------

/// The path of the project file in directory `dir` (`Path::join`).
pub open spec fn project_file_in_spec(dir: Seq<char>) -> Seq<char> {
    if dir.len() == 0 || dir.last() == '/' {
        dir + PROJECT_FILE@
    } else {
        dir + "/"@ + PROJECT_FILE@
    }
}

/// The path of the project file in directory `dir`.
pub fn project_file_in(dir: &str) -> (p: String)
    ensures
        p@ == project_file_in_spec(dir@),
{
    let v = crate::text::chars_of(dir);
    let mut p = dir.to_owned();
    if v.len() == 0 || v[v.len() - 1] == '/' {
        push_str(&mut p, PROJECT_FILE);
    } else {
        push_str(&mut p, "/");
        push_str(&mut p, PROJECT_FILE);
    }
    p
}

/// The last `/` of `s`.
pub open spec fn last_slash(s: Seq<char>, i: int) -> Option<int>
    decreases i,
{
    if i <= 0 {
        None
    } else if s[i - 1] == '/' {
        Some(i - 1)
    } else {
        last_slash(s, i - 1)
    }
}

/// The parent of an absolute directory without a trailing `/` (`PathBuf::pop`): the text
/// before its last `/`, or `/` for a directory at the root; the root has none.
pub open spec fn parent_dir_spec(dir: Seq<char>) -> Option<Seq<char>> {
    if dir.len() <= 1 {
        None
    } else {
        match last_slash(dir, dir.len() as int) {
            Some(k) => if k == 0 {
                Some("/"@)
            } else {
                Some(dir.take(k))
            },
            None => None,
        }
    }
}

/// The directory to search next for the project file.
pub fn parent_dir(dir: &str) -> (r: Option<String>)
    requires
        dir@.len() > 0,
        dir@[0] == '/',
        dir@.len() == 1 || dir@.last() != '/',
    ensures
        match parent_dir_spec(dir@) {
            Some(p) => r matches Some(q) && q@ == p,
            None => r is None,
        },
{
    let v = crate::text::chars_of(dir);
    if v.len() <= 1 {
        return None;
    }
    let mut i = v.len();
    while i > 0 && v[i - 1] != '/'
        invariant
            i <= v@.len(),
            v@ == dir@,
            last_slash(v@, v@.len() as int) == last_slash(v@, i as int),
        decreases i,
    {
        i = i - 1;
    }
    if i == 0 {
        None
    } else if i == 1 {
        Some("/".to_owned())
    } else {
        let r = string_of_range(&v, 0, i - 1);
        assert(v@.subrange(0, i - 1) =~= v@.take(i - 1));
        Some(r)
    }
}

} // verus!
