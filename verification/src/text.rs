//! Character-level text utilities with exact specifications over `Seq<char>`.
use vstd::prelude::*;

verus! {

/// The characters of `s`, in order.
pub fn chars_of(s: &str) -> (v: Vec<char>)
    ensures
        v@ == s@,
{
    let mut v: Vec<char> = Vec::new();
    for c in it: s.chars()
        invariant
            v@ == it.seq().take(it.index() as int),
            it.seq() == s@,
    {
        v.push(c);
    }
    v
}

/// Appends one character to a string (`String::push`).
#[verifier::external_body]
pub(crate) fn push_char(s: &mut String, c: char)
    ensures
        final(s)@ == old(s)@.push(c),
{
    s.push(c);
}

/// Appends a string slice to a string.
pub fn push_str(s: &mut String, t: &str)
    ensures
        final(s)@ == old(s)@ + t@,
{
    s.append(t);
}

/// A string made of the given characters.
pub fn string_of(v: &Vec<char>) -> (s: String)
    ensures
        s@ == v@,
{
    let mut s = String::new();
    let n = v.len();
    for i in 0..n
        invariant
            n == v@.len(),
            s@ == v@.take(i as int),
    {
        push_char(&mut s, v[i]);
        assert(v@.take(i + 1) == v@.take(i as int).push(v@[i as int]));
    }
    assert(v@.take(n as int) == v@);
    s
}

/// An owned copy of a string slice.
pub fn owned(s: &str) -> (r: String)
    ensures
        r@ == s@,
{
    s.to_owned()
}

/// Concatenation of two string slices.
pub fn concat(a: &str, b: &str) -> (r: String)
    ensures
        r@ == a@ + b@,
{
    let mut r = a.to_owned();
    push_str(&mut r, b);
    r
}


// ---------------------------------------------------------------------------
// Whitespace and trimming
// ---------------------------------------------------------------------------

/// Unicode `White_Space`, as `char::is_whitespace` defines it.
pub open spec fn is_ws(c: char) -> bool {
    let u = c as u32;
    ||| 9 <= u <= 13
    ||| u == 32
    ||| u == 0x85
    ||| u == 0xA0
    ||| u == 0x1680
    ||| 0x2000 <= u <= 0x200A
    ||| u == 0x2028
    ||| u == 0x2029
    ||| u == 0x202F
    ||| u == 0x205F
    ||| u == 0x3000
}

/// Executable form of [`is_ws`].
pub fn is_whitespace(c: char) -> (b: bool)
    ensures
        b == is_ws(c),
{
    let u = c as u32;
    (9 <= u && u <= 13) || u == 32 || u == 0x85 || u == 0xA0 || u == 0x1680 || (0x2000 <= u && u
        <= 0x200A) || u == 0x2028 || u == 0x2029 || u == 0x202F || u == 0x205F || u == 0x3000
}

/// `s` without its leading whitespace.
pub open spec fn trim_start_seq(s: Seq<char>) -> Seq<char>
    decreases s.len(),
{
    if s.len() > 0 && is_ws(s[0]) {
        trim_start_seq(s.drop_first())
    } else {
        s
    }
}

/// `s` without its trailing whitespace.
pub open spec fn trim_end_seq(s: Seq<char>) -> Seq<char>
    decreases s.len(),
{
    if s.len() > 0 && is_ws(s.last()) {
        trim_end_seq(s.drop_last())
    } else {
        s
    }
}

/// `s` without leading and trailing whitespace (`str::trim`).
pub open spec fn trim_seq(s: Seq<char>) -> Seq<char> {
    trim_end_seq(trim_start_seq(s))
}

/// Index of the first character of `s` that is not whitespace, searching from `i`.
fn skip_ws_from(v: &Vec<char>, i: usize) -> (j: usize)
    requires
        i <= v@.len(),
    ensures
        i <= j <= v@.len(),
        trim_start_seq(v@.skip(i as int)) == v@.skip(j as int),
{
    let mut j = i;
    while j < v.len() && is_whitespace(v[j])
        invariant
            i <= j <= v@.len(),
            trim_start_seq(v@.skip(i as int)) == trim_start_seq(v@.skip(j as int)),
        decreases v@.len() - j,
    {
        assert(v@.skip(j as int).drop_first() == v@.skip(j + 1));
        j = j + 1;
    }
    j
}

/// Length of the prefix of `v` that is left when trailing whitespace is cut.
fn trimmed_end_len(v: &Vec<char>) -> (k: usize)
    ensures
        k <= v@.len(),
        trim_end_seq(v@) == v@.take(k as int),
{
    let mut k = v.len();
    assert(v@.take(k as int) == v@);
    while k > 0 && is_whitespace(v[k - 1])
        invariant
            k <= v@.len(),
            trim_end_seq(v@) == trim_end_seq(v@.take(k as int)),
        decreases k,
    {
        assert(v@.take(k as int).drop_last() == v@.take(k - 1));
        k = k - 1;
    }
    k
}

/// The characters of `v` from `a` up to (not including) `b`, as a string.
pub fn string_of_range(v: &Vec<char>, a: usize, b: usize) -> (s: String)
    requires
        a <= b <= v@.len(),
    ensures
        s@ == v@.subrange(a as int, b as int),
{
    let mut s = String::new();
    for i in a..b
        invariant
            a <= b <= v@.len(),
            s@ == v@.subrange(a as int, i as int),
    {
        push_char(&mut s, v[i]);
        assert(v@.subrange(a as int, i + 1) == v@.subrange(a as int, i as int).push(v@[i as int]));
    }
    s
}

/// `str::trim`: `s` without leading and trailing whitespace.
pub fn trim(s: &str) -> (r: String)
    ensures
        r@ == trim_seq(s@),
{
    let v = chars_of(s);
    assert(v@.skip(0) == v@);
    let a = skip_ws_from(&v, 0);
    let rest: Vec<char> = slice_to_vec_range(&v, a, v.len());
    let k = trimmed_end_len(&rest);
    string_of_range(&rest, 0, k)
}

/// `str::trim_end`: `s` without trailing whitespace.
pub fn trim_end(s: &str) -> (r: String)
    ensures
        r@ == trim_end_seq(s@),
{
    let v = chars_of(s);
    let k = trimmed_end_len(&v);
    string_of_range(&v, 0, k)
}

/// The characters of `v` from `a` up to `b`, as a vector.
pub fn slice_to_vec_range(v: &Vec<char>, a: usize, b: usize) -> (r: Vec<char>)
    requires
        a <= b <= v@.len(),
    ensures
        r@ == v@.subrange(a as int, b as int),
{
    let mut r: Vec<char> = Vec::new();
    for i in a..b
        invariant
            a <= b <= v@.len(),
            r@ == v@.subrange(a as int, i as int),
    {
        r.push(v[i]);
        assert(v@.subrange(a as int, i + 1) == v@.subrange(a as int, i as int).push(v@[i as int]));
    }
    r
}

// ---------------------------------------------------------------------------
// Prefixes and substring search
// ---------------------------------------------------------------------------

/// `p` is a prefix of `s`.
pub open spec fn has_prefix(s: Seq<char>, p: Seq<char>) -> bool {
    p.len() <= s.len() && s.take(p.len() as int) == p
}

/// `p` occurs in `s` starting at index `i`.
pub open spec fn occurs_at(s: Seq<char>, p: Seq<char>, i: int) -> bool {
    0 <= i && i + p.len() <= s.len() && s.subrange(i, i + p.len()) == p
}

/// The first index at or after `i` where `p` occurs in `s`.
pub open spec fn find_from(s: Seq<char>, p: Seq<char>, i: int) -> Option<int>
    decreases s.len() + 1 - i,
{
    if i < 0 || i + p.len() > s.len() {
        None
    } else if occurs_at(s, p, i) {
        Some(i)
    } else {
        find_from(s, p, i + 1)
    }
}

/// The first index where `p` occurs in `s` (`str::find`).
pub open spec fn find_seq(s: Seq<char>, p: Seq<char>) -> Option<int> {
    find_from(s, p, 0)
}

/// What [`find_from`] returns is the first occurrence at or after `i`.
pub proof fn lemma_find_from(s: Seq<char>, p: Seq<char>, i: int)
    requires
        0 <= i,
    ensures
        find_from(s, p, i) matches Some(k) ==> i <= k && occurs_at(s, p, k) && forall|j: int|
            i <= j < k ==> !occurs_at(s, p, j),
        find_from(s, p, i) is None ==> forall|j: int| i <= j ==> !occurs_at(s, p, j),
    decreases s.len() + 1 - i,
{
    if i + p.len() > s.len() {
    } else if occurs_at(s, p, i) {
    } else {
        lemma_find_from(s, p, i + 1);
    }
}

/// An occurrence at `k` with none before it is what [`find_seq`] returns.
pub proof fn lemma_find_first(s: Seq<char>, p: Seq<char>, k: int)
    requires
        occurs_at(s, p, k),
        forall|j: int| 0 <= j < k ==> !occurs_at(s, p, j),
    ensures
        find_seq(s, p) == Some(k),
{
    lemma_find_from(s, p, 0);
    match find_from(s, p, 0) {
        Some(m) => {
            if m < k {
            } else if m > k {
            }
        },
        None => {},
    }
}

/// What trimming the end leaves is a prefix of the string.
pub proof fn lemma_trim_end_prefix(s: Seq<char>)
    ensures
        trim_end_seq(s).len() <= s.len(),
        trim_end_seq(s) == s.take(trim_end_seq(s).len() as int),
    decreases s.len(),
{
    if s.len() > 0 && is_ws(s.last()) {
        lemma_trim_end_prefix(s.drop_last());
        let t = trim_end_seq(s.drop_last());
        assert(s.drop_last().take(t.len() as int) == s.take(t.len() as int));
    } else {
        assert(s.take(s.len() as int) == s);
    }
}

/// A pattern without line breaks, absent from `a`, is first found right after a run of
/// line breaks that follows `a`, when it starts what comes after the run.
pub proof fn lemma_first_after_newlines(a: Seq<char>, gap: Seq<char>, rest: Seq<char>, p: Seq<char>)
    requires
        p.len() > 0,
        forall|i: int| 0 <= i < p.len() ==> p[i] != '\n',
        gap.len() >= 1,
        forall|i: int| 0 <= i < gap.len() ==> gap[i] == '\n',
        forall|j: int| 0 <= j && j + p.len() <= a.len() ==> !occurs_at(a, p, j),
        has_prefix(rest, p),
    ensures
        find_seq(a + gap + rest, p) == Some((a.len() + gap.len()) as int),
{
    let s = a + gap + rest;
    let k: int = (a.len() + gap.len()) as int;
    assert(s.subrange(k, k + p.len()) =~= rest.take(p.len() as int));
    assert forall|j: int| 0 <= j < k implies !occurs_at(s, p, j) by {
        if j + p.len() <= a.len() {
            if occurs_at(s, p, j) {
                assert(a.subrange(j, j + p.len()) =~= s.subrange(j, j + p.len()));
                assert(occurs_at(a, p, j));
            }
        } else if j + p.len() <= s.len() {
            let m = if j >= a.len() {
                j
            } else {
                a.len() as int
            };
            assert(s[m] == gap[m - a.len()]);
            assert(s.subrange(j, j + p.len())[m - j] == s[m]);
            assert(p[m - j] != '\n');
        }
    }
    lemma_find_first(s, p, k);
}

/// `p` occurs in `v` at index `i`.
fn occurs_at_exec(v: &Vec<char>, p: &Vec<char>, i: usize) -> (b: bool)
    requires
        i + p@.len() <= v@.len(),
    ensures
        b == occurs_at(v@, p@, i as int),
{
    let n = p.len();
    let vl = v.len();
    let mut k: usize = 0;
    while k < n
        invariant
            n == p@.len(),
            vl == v@.len(),
            i + n <= v@.len(),
            k <= n,
            forall|j: int| 0 <= j < k ==> v@[i + j] == p@[j],
        decreases n - k,
    {
        assert(i + k < v@.len());
        if v[i + k] != p[k] {
            assert(v@.subrange(i as int, i + n)[k as int] != p@[k as int]);
            return false;
        }
        k = k + 1;
    }
    assert(v@.subrange(i as int, i + n) =~= p@);
    true
}

/// First index where `p` occurs in `v`.
pub fn find_chars(v: &Vec<char>, p: &Vec<char>) -> (r: Option<usize>)
    ensures
        match r {
            Some(k) => find_seq(v@, p@) == Some(k as int) && k + p@.len() <= v@.len(),
            None => find_seq(v@, p@) is None,
        },
{
    if p.len() > v.len() {
        return None;
    }
    let last = v.len() - p.len();
    let mut i: usize = 0;
    loop
        invariant
            i <= last,
            last + p@.len() == v@.len(),
            find_seq(v@, p@) == find_from(v@, p@, i as int),
        decreases last - i,
    {
        if occurs_at_exec(v, p, i) {
            return Some(i);
        }
        if i == last {
            return None;
        }
        i = i + 1;
    }
}

/// First index where `p` occurs in `s` (`str::find`, counted in characters).
pub fn find(s: &str, p: &str) -> (r: Option<usize>)
    ensures
        match r {
            Some(k) => find_seq(s@, p@) == Some(k as int) && k + p@.len() <= s@.len(),
            None => find_seq(s@, p@) is None,
        },
{
    let v = chars_of(s);
    let pv = chars_of(p);
    find_chars(&v, &pv)
}

/// `p` occurs somewhere in `s` (`str::contains`).
pub fn contains(s: &str, p: &str) -> (b: bool)
    ensures
        b == find_seq(s@, p@) is Some,
{
    find(s, p).is_some()
}

/// `p` is a prefix of `s` (`str::starts_with`).
pub fn starts_with(s: &str, p: &str) -> (b: bool)
    ensures
        b == has_prefix(s@, p@),
{
    let v = chars_of(s);
    let pv = chars_of(p);
    if pv.len() > v.len() {
        return false;
    }
    let b = occurs_at_exec(&v, &pv, 0);
    assert(v@.subrange(0, pv@.len() as int) == v@.take(pv@.len() as int));
    b
}

/// `s` without the prefix `p`, if it has it (`str::strip_prefix`).
pub fn strip_prefix(s: &str, p: &str) -> (r: Option<String>)
    ensures
        r matches Some(t) ==> has_prefix(s@, p@) && t@ == s@.skip(p@.len() as int),
        r is None ==> !has_prefix(s@, p@),
{
    let v = chars_of(s);
    let pv = chars_of(p);
    if pv.len() > v.len() {
        return None;
    }
    let b = occurs_at_exec(&v, &pv, 0);
    assert(v@.subrange(0, pv@.len() as int) == v@.take(pv@.len() as int));
    if b {
        Some(string_of_range(&v, pv.len(), v.len()))
    } else {
        None
    }
}

/// Two strings with equal characters.
pub fn str_eq(a: &str, b: &str) -> (r: bool)
    ensures
        r == (a@ == b@),
{
    let va = chars_of(a);
    let vb = chars_of(b);
    if va.len() != vb.len() {
        return false;
    }
    let r = occurs_at_exec(&va, &vb, 0);
    assert(va@.subrange(0, vb@.len() as int) == va@);
    r
}


// ---------------------------------------------------------------------------
// Splitting and joining
// ---------------------------------------------------------------------------

/// The pieces of `s` between occurrences of `sep` (`str::split` with a `char`).
pub open spec fn split_seq(s: Seq<char>, sep: char) -> Seq<Seq<char>>
    decreases s.len(),
{
    if s.len() == 0 {
        seq![Seq::<char>::empty()]
    } else {
        let r = split_seq(s.drop_last(), sep);
        if s.last() == sep {
            r.push(Seq::<char>::empty())
        } else {
            r.update(r.len() - 1, r.last().push(s.last()))
        }
    }
}

/// [`split_seq`] never yields an empty list of pieces.
pub proof fn lemma_split_nonempty(s: Seq<char>, sep: char)
    ensures
        split_seq(s, sep).len() >= 1,
    decreases s.len(),
{
    if s.len() > 0 {
        lemma_split_nonempty(s.drop_last(), sep);
    }
}

/// The views of a list of strings.
pub open spec fn views(v: Seq<String>) -> Seq<Seq<char>> {
    v.map_values(|x: String| x@)
}

/// `str::split` on a character.
pub fn split_char(s: &str, sep: char) -> (r: Vec<String>)
    ensures
        views(r@) == split_seq(s@, sep),
{
    let v = chars_of(s);
    let mut done: Vec<String> = Vec::new();
    let mut cur: Vec<char> = Vec::new();
    let n = v.len();
    assert(v@.take(0) == Seq::<char>::empty());
    for i in 0..n
        invariant
            n == v@.len(),
            split_seq(v@.take(i as int), sep) == views(done@).push(cur@),
    {
        let c = v[i];
        assert(v@.take(i + 1).drop_last() == v@.take(i as int));
        if c == sep {
            let piece = string_of(&cur);
            let ghost before = done@;
            done.push(piece);
            cur = Vec::new();
            assert(views(done@) =~= views(before).push(piece@));
        } else {
            cur.push(c);
        }
        assert(split_seq(v@.take(i + 1), sep) =~= views(done@).push(cur@));
    }
    assert(v@.take(n as int) == v@);
    let last = string_of(&cur);
    done.push(last);
    assert(views(done@) =~= split_seq(v@, sep));
    done
}

/// The whitespace-separated words of `s` (`str::split_whitespace`).
pub open spec fn words_seq(s: Seq<char>) -> Seq<Seq<char>>
    decreases s.len(),
{
    if s.len() == 0 {
        Seq::<Seq<char>>::empty()
    } else {
        let r = words_seq(s.drop_last());
        let c = s.last();
        if is_ws(c) {
            r
        } else if s.len() >= 2 && !is_ws(s[s.len() - 2]) {
            r.update(r.len() - 1, r.last().push(c))
        } else {
            r.push(seq![c])
        }
    }
}

/// A string that ends in a non-whitespace character has at least one word.
pub proof fn lemma_words_nonempty(s: Seq<char>)
    requires
        s.len() > 0,
        !is_ws(s.last()),
    ensures
        words_seq(s).len() >= 1,
    decreases s.len(),
{
    if s.len() >= 2 && !is_ws(s[s.len() - 2]) {
        lemma_words_nonempty(s.drop_last());
    }
}

/// `str::split_whitespace`.
pub fn split_words(s: &str) -> (r: Vec<String>)
    ensures
        views(r@) == words_seq(s@),
{
    let v = chars_of(s);
    let mut done: Vec<String> = Vec::new();
    let mut cur: Vec<char> = Vec::new();
    let n = v.len();
    assert(v@.take(0) == Seq::<char>::empty());
    for i in 0..n
        invariant
            n == v@.len(),
            cur@.len() > 0 ==> i > 0 && !is_ws(v@[i - 1]),
            cur@.len() == 0 ==> (i == 0 || is_ws(v@[i - 1])),
            words_seq(v@.take(i as int)) == if cur@.len() > 0 {
                views(done@).push(cur@)
            } else {
                views(done@)
            },
    {
        let c = v[i];
        let ghost t = v@.take(i + 1);
        let ghost w0 = words_seq(v@.take(i as int));
        assert(t.drop_last() == v@.take(i as int));
        assert(t.last() == c);
        if i > 0 {
            assert(t[i - 1] == v@[i - 1]);
        }
        assert(words_seq(t) == if is_ws(c) {
            w0
        } else if i >= 1 && !is_ws(v@[i - 1]) {
            w0.update(w0.len() - 1, w0.last().push(c))
        } else {
            w0.push(seq![c])
        });
        if is_whitespace(c) {
            if cur.len() > 0 {
                let piece = string_of(&cur);
                let ghost before = done@;
                done.push(piece);
                cur = Vec::new();
                assert(views(done@) =~= views(before).push(piece@));
            }
        } else {
            let ghost cur0 = cur@;
            cur.push(c);
            proof {
                if cur0.len() > 0 {
                    assert(w0 == views(done@).push(cur0));
                    assert(w0.update(w0.len() - 1, w0.last().push(c)) =~= views(done@).push(cur@));
                } else {
                    assert(cur@ =~= seq![c]);
                    assert(w0 == views(done@));
                }
            }
        }
        assert(words_seq(t) =~= if cur@.len() > 0 {
            views(done@).push(cur@)
        } else {
            views(done@)
        });
    }
    assert(v@.take(n as int) == v@);
    if cur.len() > 0 {
        let last = string_of(&cur);
        done.push(last);
        assert(views(done@) =~= views(done@.drop_last()).push(last@));
    }
    done
}

/// The pieces of `parts` with `sep` between each two (`[String]::join`).
pub open spec fn join_seq(parts: Seq<Seq<char>>, sep: Seq<char>) -> Seq<char>
    decreases parts.len(),
{
    if parts.len() == 0 {
        Seq::<char>::empty()
    } else if parts.len() == 1 {
        parts[0]
    } else {
        join_seq(parts.drop_last(), sep) + sep + parts.last()
    }
}

/// `[String]::join`.
pub fn join(parts: &Vec<String>, sep: &str) -> (r: String)
    ensures
        r@ == join_seq(views(parts@), sep@),
{
    let mut r = String::new();
    let n = parts.len();
    for i in 0..n
        invariant
            n == parts@.len(),
            r@ == join_seq(views(parts@.take(i as int)), sep@),
    {
        assert(views(parts@.take(i + 1)).drop_last() =~= views(parts@.take(i as int)));
        if i > 0 {
            push_str(&mut r, sep);
        }
        push_str(&mut r, parts[i].as_str());
        assert(views(parts@.take(i + 1)).last() == parts@[i as int]@);
    }
    assert(parts@.take(n as int) == parts@);
    r
}

// ---------------------------------------------------------------------------
// ASCII case and prefixes of one character
// ---------------------------------------------------------------------------

/// The code of `c` with ASCII upper case letters mapped to lower case.
pub open spec fn ascii_lower_code(c: char) -> u32 {
    if 65 <= c as u32 <= 90 {
        (c as u32 + 32) as u32
    } else {
        c as u32
    }
}

/// `a` and `b` are equal when ASCII letters are compared without case.
pub open spec fn eq_ignore_ascii_case_seq(a: Seq<char>, b: Seq<char>) -> bool {
    a.len() == b.len() && forall|i: int|
        0 <= i < a.len() ==> ascii_lower_code(#[trigger] a[i]) == ascii_lower_code(b[i])
}

fn lower_code(c: char) -> (u: u32)
    ensures
        u == ascii_lower_code(c),
{
    let u = c as u32;
    if 65 <= u && u <= 90 {
        u + 32
    } else {
        u
    }
}

/// `str::eq_ignore_ascii_case`.
pub fn eq_ignore_ascii_case(a: &str, b: &str) -> (r: bool)
    ensures
        r == eq_ignore_ascii_case_seq(a@, b@),
{
    let va = chars_of(a);
    let vb = chars_of(b);
    if va.len() != vb.len() {
        return false;
    }
    let n = va.len();
    for i in 0..n
        invariant
            n == va@.len(),
            n == vb@.len(),
            va@ == a@,
            vb@ == b@,
            forall|j: int| 0 <= j < i ==> ascii_lower_code(#[trigger] va@[j]) == ascii_lower_code(
                vb@[j],
            ),
    {
        if lower_code(va[i]) != lower_code(vb[i]) {
            assert(ascii_lower_code(va@[i as int]) != ascii_lower_code(vb@[i as int]));
            return false;
        }
    }
    true
}

/// `s` without all its leading copies of `c` (`str::trim_start_matches` with a `char`).
pub open spec fn trim_start_char_seq(s: Seq<char>, c: char) -> Seq<char>
    decreases s.len(),
{
    if s.len() > 0 && s[0] == c {
        trim_start_char_seq(s.drop_first(), c)
    } else {
        s
    }
}

/// `str::trim_start_matches` with a `char`.
pub fn trim_start_char(s: &str, c: char) -> (r: String)
    ensures
        r@ == trim_start_char_seq(s@, c),
{
    let v = chars_of(s);
    let mut j: usize = 0;
    assert(v@.skip(0) == v@);
    while j < v.len() && v[j] == c
        invariant
            j <= v@.len(),
            trim_start_char_seq(v@, c) == trim_start_char_seq(v@.skip(j as int), c),
        decreases v@.len() - j,
    {
        assert(v@.skip(j as int).drop_first() == v@.skip(j + 1));
        j = j + 1;
    }
    let r = string_of_range(&v, j, v.len());
    assert(v@.subrange(j as int, v@.len() as int) == v@.skip(j as int));
    r
}

/// `s` without the copies of `c` at its end (`str::trim_end_matches` with a `char`).
pub open spec fn trim_end_char_seq(s: Seq<char>, c: char) -> Seq<char>
    decreases s.len(),
{
    if s.len() > 0 && s.last() == c {
        trim_end_char_seq(s.drop_last(), c)
    } else {
        s
    }
}

/// `str::trim_end_matches` with a `char`.
pub fn trim_end_char(s: &str, c: char) -> (r: String)
    ensures
        r@ == trim_end_char_seq(s@, c),
{
    let v = chars_of(s);
    let mut k: usize = v.len();
    assert(v@.take(k as int) == v@);
    while k > 0 && v[k - 1] == c
        invariant
            k <= v@.len(),
            trim_end_char_seq(v@, c) == trim_end_char_seq(v@.take(k as int), c),
        decreases k,
    {
        assert(v@.take(k as int).drop_last() == v@.take(k - 1));
        k = k - 1;
    }
    let r = string_of_range(&v, 0, k);
    assert(v@.subrange(0, k as int) == v@.take(k as int));
    r
}

// ---------------------------------------------------------------------------
// Decimal numbers
// ---------------------------------------------------------------------------

/// The ASCII digit for `d` (below ten).
pub open spec fn digit_char(d: nat) -> char {
    (48 + d) as char
}

/// The decimal representation of `n`, without leading zeros.
pub open spec fn dec_seq(n: nat) -> Seq<char>
    decreases n,
{
    if n < 10 {
        seq![digit_char(n)]
    } else {
        dec_seq(n / 10).push(digit_char(n % 10))
    }
}

fn digit(d: u64) -> (c: char)
    requires
        d < 10,
    ensures
        c == digit_char(d as nat),
{
    let b: u8 = (48 + d) as u8;
    b as char
}

fn push_decimal(out: &mut String, n: u64)
    ensures
        final(out)@ == old(out)@ + dec_seq(n as nat),
    decreases n,
{
    if n >= 10 {
        push_decimal(out, n / 10);
    }
    push_char(out, digit(n % 10));
}

/// The decimal representation of `n` (`u64::to_string`).
pub fn u64_to_string(n: u64) -> (s: String)
    ensures
        s@ == dec_seq(n as nat),
{
    let mut s = String::new();
    push_decimal(&mut s, n);
    s
}

/// Appends the decimal representation of `n`.
pub fn push_u64(out: &mut String, n: u64)
    ensures
        final(out)@ == old(out)@ + dec_seq(n as nat),
{
    push_decimal(out, n);
}

/// `c` is one of `0`..`9`.
pub open spec fn is_digit(c: char) -> bool {
    48 <= c as u32 <= 57
}

/// The value of a string of decimal digits.
pub open spec fn digits_value(s: Seq<char>) -> nat
    decreases s.len(),
{
    if s.len() == 0 {
        0
    } else {
        digits_value(s.drop_last()) * 10 + ((s.last() as u32 - 48) as nat)
    }
}

/// The digits that `u64::from_str` reads: `s` without one leading `+`.
pub open spec fn unsigned_digits(s: Seq<char>) -> Seq<char> {
    if s.len() > 0 && s[0] == '+' {
        s.drop_first()
    } else {
        s
    }
}

/// What `str::parse::<u64>` returns, `None` for an error.
pub open spec fn parse_u64_seq(s: Seq<char>) -> Option<u64> {
    let d = unsigned_digits(s);
    if d.len() > 0 && (forall|i: int| 0 <= i < d.len() ==> is_digit(#[trigger] d[i]))
        && digits_value(d) <= u64::MAX {
        Some(digits_value(d) as u64)
    } else {
        None
    }
}

proof fn lemma_digits_value_mono(s: Seq<char>, i: int)
    requires
        0 <= i <= s.len(),
        forall|k: int| 0 <= k < s.len() ==> is_digit(#[trigger] s[k]),
    ensures
        digits_value(s.take(i)) <= digits_value(s),
    decreases s.len() - i,
{
    if i < s.len() {
        lemma_digits_value_mono(s, i + 1);
        assert(s.take(i + 1).drop_last() == s.take(i));
    } else {
        assert(s.take(i) == s);
    }
}

/// The decimal text of `n` is digits whose value is `n`.
pub proof fn lemma_dec_value(n: nat)
    ensures
        dec_seq(n).len() > 0,
        forall|i: int| 0 <= i < dec_seq(n).len() ==> is_digit(#[trigger] dec_seq(n)[i]),
        digits_value(dec_seq(n)) == n,
    decreases n,
{
    if n >= 10 {
        lemma_dec_value(n / 10);
        let s = dec_seq(n / 10);
        assert(dec_seq(n).drop_last() =~= s);
        assert(digit_char(n % 10) as u32 == 48 + n % 10);
        assert(dec_seq(n).last() == digit_char(n % 10));
        assert((n / 10) * 10 + n % 10 == n);
        assert(digits_value(dec_seq(n)) == digits_value(s) * 10 + ((dec_seq(n).last() as u32 - 48) as nat));
        assert(digits_value(dec_seq(n)) == n);
        assert forall|i: int| 0 <= i < dec_seq(n).len() implies is_digit(#[trigger] dec_seq(n)[i]) by {
            if i < s.len() {
                assert(dec_seq(n)[i] == s[i]);
            }
        }
    } else {
        assert(dec_seq(n).drop_last() =~= Seq::<char>::empty());
        assert(digit_char(n) as u32 == 48 + n);
        assert(digits_value(dec_seq(n)) == digits_value(dec_seq(n).drop_last()) * 10 + ((dec_seq(n).last() as u32 - 48) as nat));
        assert(digits_value(Seq::<char>::empty()) == 0);
    }
}

/// Reading back the decimal text of `n` gives `n`.
pub proof fn lemma_dec_parses(n: u64)
    ensures
        parse_u64_seq(dec_seq(n as nat)) == Some(n),
{
    lemma_dec_value(n as nat);
    assert(is_digit(dec_seq(n as nat)[0]));
    assert(unsigned_digits(dec_seq(n as nat)) == dec_seq(n as nat));
}

/// `str::parse::<u64>`, with `None` for an error.
pub fn parse_u64(s: &str) -> (r: Option<u64>)
    ensures
        r == parse_u64_seq(s@),
{
    let v = chars_of(s);
    let start: usize = if v.len() > 0 && v[0] == '+' {
        1
    } else {
        0
    };
    let ghost d = unsigned_digits(v@);
    assert(d == v@.skip(start as int));
    if start >= v.len() {
        return None;
    }
    let n = v.len();
    let mut acc: u64 = 0;
    let mut i = start;
    assert(d.take(0) == Seq::<char>::empty());
    while i < n
        invariant
            start <= i <= n,
            n == v@.len(),
            v@ == s@,
            d == v@.skip(start as int),
            d == unsigned_digits(s@),
            forall|k: int| 0 <= k < i - start ==> is_digit(#[trigger] d[k]),
            acc as nat == digits_value(d.take(i - start)),
        decreases n - i,
    {
        let c = v[i];
        let u = c as u32;
        assert(d[i - start] == c);
        if u < 48 || u > 57 {
            assert(!is_digit(d[i - start]));
            return None;
        }
        let dv = (u - 48) as u64;
        assert(d.take(i - start + 1).drop_last() == d.take(i - start));
        let ghost k1 = i - start + 1;
        assert(d.take(k1).last() == c);
        assert(digits_value(d.take(k1)) == acc * 10 + dv);
        match acc.checked_mul(10) {
            Some(m) => match m.checked_add(dv) {
                Some(a) => {
                    acc = a;
                },
                None => {
                    proof {
                        if forall|k: int| 0 <= k < d.len() ==> is_digit(#[trigger] d[k]) {
                            lemma_digits_value_mono(d, k1);
                        }
                    }
                    return None;
                },
            },
            None => {
                proof {
                    if forall|k: int| 0 <= k < d.len() ==> is_digit(#[trigger] d[k]) {
                        lemma_digits_value_mono(d, k1);
                    }
                }
                return None;
            },
        }
        i = i + 1;
    }
    assert(d.take(n - start) == d);
    Some(acc)
}


/// A copy of a list of strings.
pub fn clone_strings(v: &[String]) -> (r: Vec<String>)
    ensures
        r@ == v@,
{
    let mut r: Vec<String> = Vec::new();
    let n = v.len();
    for i in 0..n
        invariant
            n == v@.len(),
            r@ == v@.take(i as int),
    {
        r.push(v[i].clone());
        assert(v@.take(i + 1) == v@.take(i as int).push(v@[i as int]));
    }
    assert(v@.take(n as int) == v@);
    r
}


// ---------------------------------------------------------------------------
// UTF-8 lengths
// ---------------------------------------------------------------------------

/// The number of bytes of `c` in UTF-8.
pub open spec fn utf8_width(c: char) -> nat {
    if (c as u32) < 0x80 {
        1
    } else if (c as u32) < 0x800 {
        2
    } else if (c as u32) < 0x10000 {
        3
    } else {
        4
    }
}

/// The number of bytes of `s` in UTF-8 (`str::len`).
pub open spec fn utf8_len(s: Seq<char>) -> nat
    decreases s.len(),
{
    if s.len() == 0 {
        0
    } else {
        utf8_width(s[0]) + utf8_len(s.drop_first())
    }
}

/// How many leading characters of `s` fit in `k` bytes.
pub open spec fn fit_chars(s: Seq<char>, k: int) -> nat
    decreases s.len(),
{
    if s.len() == 0 || utf8_width(s[0]) > k {
        0
    } else {
        1 + fit_chars(s.drop_first(), k - utf8_width(s[0]))
    }
}

/// How many bytes those characters take.
pub open spec fn fit_bytes(s: Seq<char>, k: int) -> nat
    decreases s.len(),
{
    if s.len() == 0 || utf8_width(s[0]) > k {
        0
    } else {
        utf8_width(s[0]) + fit_bytes(s.drop_first(), k - utf8_width(s[0]))
    }
}

/// Byte `k` of `s` starts a character or ends the text (`str::is_char_boundary`).
pub open spec fn byte_boundary(s: Seq<char>, k: int) -> bool {
    fit_bytes(s, k) == k
}

/// The first `k` bytes of `s` (`&s[..k]` at a boundary).
pub open spec fn byte_prefix(s: Seq<char>, k: int) -> Seq<char> {
    s.take(fit_chars(s, k) as int)
}

fn width(c: char) -> (w: u8)
    ensures
        w == utf8_width(c),
{
    let u = c as u32;
    if u < 0x80 {
        1
    } else if u < 0x800 {
        2
    } else if u < 0x10000 {
        3
    } else {
        4
    }
}

/// The length of `s` in UTF-8 bytes, which `str::len` reports.
pub fn byte_len(s: &str) -> (n: u128)
    ensures
        n == utf8_len(s@),
        n <= 4 * usize::MAX,
{
    let v = chars_of(s);
    let len = v.len();
    let mut total: u128 = 0;
    let mut i = len;
    assert(v@.skip(len as int) =~= Seq::<char>::empty());
    while i > 0
        invariant
            i <= len == v@.len(),
            total == utf8_len(v@.skip(i as int)),
            total <= 4 * (len - i),
        decreases i,
    {
        assert(v@.skip(i - 1).drop_first() =~= v@.skip(i as int));
        total = total + width(v[i - 1]) as u128;
        i = i - 1;
    }
    assert(v@.skip(0) =~= v@);
    total
}

/// The first `k` bytes of `s` (`&s[..k]`), where byte `k` is a boundary.
pub fn prefix_of_bytes(s: &str, k: usize) -> (r: String)
    requires
        byte_boundary(s@, k as int),
    ensures
        r@ == byte_prefix(s@, k as int),
{
    let v = chars_of(s);
    let n = v.len();
    let mut i: usize = 0;
    let mut used: usize = 0;
    assert(v@.skip(0) =~= v@);
    while i < n && (width(v[i]) as usize) <= k - used
        invariant
            i <= n == v@.len(),
            used <= k,
            fit_chars(v@, k as int) == i + fit_chars(v@.skip(i as int), k - used),
        decreases n - i,
    {
        assert(v@.skip(i as int).drop_first() =~= v@.skip(i + 1));
        used = used + width(v[i]) as usize;
        i = i + 1;
    }
    assert(fit_chars(v@.skip(i as int), k - used) == 0);
    string_of_range(&v, 0, i)
}


/// `n` copies of `c`.
pub open spec fn repeat_seq(c: char, n: nat) -> Seq<char> {
    Seq::new(n, |i: int| c)
}

/// `n` copies of `c` (`str::repeat` on a one-character string).
pub fn repeat_char(c: char, n: usize) -> (r: String)
    ensures
        r@ == repeat_seq(c, n as nat),
{
    let mut r = String::new();
    for i in 0..n
        invariant
            r@ == repeat_seq(c, i as nat),
    {
        push_char(&mut r, c);
        assert(repeat_seq(c, (i + 1) as nat) =~= repeat_seq(c, i as nat).push(c));
    }
    r
}


/// The UTF-8 length of a concatenation is the sum of the lengths.
pub proof fn lemma_utf8_concat(a: Seq<char>, b: Seq<char>)
    ensures
        utf8_len(a + b) == utf8_len(a) + utf8_len(b),
    decreases a.len(),
{
    if a.len() > 0 {
        lemma_utf8_concat(a.drop_first(), b);
        assert((a + b).drop_first() =~= a.drop_first() + b);
        assert((a + b)[0] == a[0]);
    } else {
        assert(a + b =~= b);
    }
}

/// The characters that fit in `k` bytes take [`fit_bytes`] bytes, at most `k`.
pub proof fn lemma_fit(s: Seq<char>, k: int)
    ensures
        utf8_len(byte_prefix(s, k)) == fit_bytes(s, k),
        fit_bytes(s, k) <= if k > 0 {
            k
        } else {
            0
        },
        fit_chars(s, k) <= s.len(),
    decreases s.len(),
{
    if s.len() == 0 || utf8_width(s[0]) > k {
        assert(byte_prefix(s, k) =~= Seq::<char>::empty());
    } else {
        let w = utf8_width(s[0]);
        lemma_fit(s.drop_first(), k - w);
        assert(byte_prefix(s, k).drop_first() =~= byte_prefix(s.drop_first(), k - w));
        assert(byte_prefix(s, k)[0] == s[0]);
    }
}

} // verus!
