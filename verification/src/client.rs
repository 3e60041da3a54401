//! The API client's own logic: which account and base URL it talks to, the URLs and
//! headers of its requests, how it reads a response status and the `Link` header of a
//! paginated list, and the bodies of the login requests.
//!
//! Sending requests is the caller's part; this module decides what is sent and what a
//! reply means.
use vstd::prelude::*;

use crate::config::{first_of, opt_view, Config, ConfigError};
use crate::models::{CreateAccessTokenBody, CreateAccessTokenRequest};
use crate::text::{
    concat, contains, dec_seq, find_seq, lemma_split_nonempty, push_str, split_char, split_seq,
    trim, trim_end_char, trim_end_char_seq, trim_seq, trim_start_char, trim_start_char_seq, views,
};

verus! {

/// The user agent that every request carries.
pub const USER_AGENT: &'static str = "fz/0.1.0";

/// The media type that requests accept and send.
pub const JSON_MEDIA_TYPE: &'static str = "application/json";

/// Where a client sends its requests, and as whom.
#[derive(Debug, Clone)]
pub struct FizzyClient {
    base_url: String,
    account_slug: String,
    token: String,
}

/// A byte that an HTTP header value may hold (the `http` crate's rule): at least 32 and
/// not 127, or a tab. A character of 128 or more is encoded in such bytes only.
pub open spec fn header_char_ok(c: char) -> bool {
    (c as u32 >= 32 && c as u32 != 127) || c == '\t'
}

/// Every character of `s` may stand in a header value.
pub open spec fn header_text_ok(s: Seq<char>) -> bool {
    forall|i: int| 0 <= i < s.len() ==> header_char_ok(#[trigger] s[i])
}

/// Whether `reqwest::header::HeaderValue::from_str(value)` accepts `value`.
///
/// The `http` crate (reached through `reqwest::header`) checks each byte of the UTF-8
/// text with `is_valid`: at least 32 and not 127, or a tab. The contract states that
/// check over the characters of `value`.
#[verifier::external_body]
fn header_value_accepts(value: &str) -> (ok: bool)
    ensures
        ok == header_text_ok(value@),
{
    reqwest::header::HeaderValue::from_str(value).is_ok()
}

/// The reason phrase that `http::StatusCode` shows after the code: its canonical reason,
/// or `<unknown status code>`.
pub uninterp spec fn reason_phrase(code: u16) -> Seq<char>;

/// The text of a status (`reqwest::StatusCode`'s `Display`): the code, a space, and
/// the reason phrase, as the `http` crate's `fmt` writes them.
#[verifier::external_body]
fn status_display(code: u16) -> (s: String)
    requires
        100 <= code <= 999,
    ensures
        s@ == dec_seq(code as nat) + " "@ + reason_phrase(code),
{
    match reqwest::StatusCode::from_u16(code) {
        Ok(status) => status.to_string(),
        Err(_) => String::new(),
    }
}

/// The message of a failed request with status `code`, or `None` for a success (2xx).
pub open spec fn status_error_spec(code: u16) -> Option<Seq<char>> {
    if 200 <= code < 300 {
        None
    } else if code == 401 {
        Some("Authentication failed. Run `fz login` to authenticate."@)
    } else if code == 403 {
        Some("Permission denied."@)
    } else if code == 404 {
        Some("Not found."@)
    } else if code == 422 {
        Some("Validation error."@)
    } else if code == 429 {
        Some("Rate limited. Try again later."@)
    } else {
        Some("Request failed with status "@ + dec_seq(code as nat) + " "@ + reason_phrase(code))
    }
}

/// What a response status means: `Ok` for a success, else the error to report.
pub fn check_status(code: u16) -> (r: Result<(), String>)
    requires
        100 <= code <= 999,
    ensures
        r is Ok <==> status_error_spec(code) is None,
        r matches Err(m) ==> status_error_spec(code) == Some(m@),
{
    if 200 <= code && code < 300 {
        Ok(())
    } else if code == 401 {
        Err("Authentication failed. Run `fz login` to authenticate.".to_owned())
    } else if code == 403 {
        Err("Permission denied.".to_owned())
    } else if code == 404 {
        Err("Not found.".to_owned())
    } else if code == 422 {
        Err("Validation error.".to_owned())
    } else if code == 429 {
        Err("Rate limited. Try again later.".to_owned())
    } else {
        let text = status_display(code);
        Err(request_failed_message(text.as_str()))
    }
}

/// The error of a request that failed with a status that has no message of its own;
/// `status_text` is how the status shows (its code and reason phrase).
pub fn request_failed_message(status_text: &str) -> (m: String)
    ensures
        m@ == "Request failed with status "@ + status_text@,
{
    concat("Request failed with status ", status_text)
}

// ---------------------------------------------------------------------------
// The Link header
// ---------------------------------------------------------------------------

/// The index of the first piece that contains `rel="next"`.
pub open spec fn first_next_part(parts: Seq<Seq<char>>, i: int) -> Option<int>
    decreases parts.len() - i,
{
    if i < 0 || i >= parts.len() {
        None
    } else if find_seq(parts[i], "rel=\"next\""@) is Some {
        Some(i)
    } else {
        first_next_part(parts, i + 1)
    }
}

/// The URL of a `Link` header part `<url>; rel="next"`: the part trimmed, up to its
/// first `;`, trimmed, without the leading `<` and trailing `>`.
pub open spec fn link_url(part: Seq<char>) -> Seq<char> {
    trim_end_char_seq(
        trim_start_char_seq(trim_seq(split_seq(trim_seq(part), ';')[0]), '<'),
        '>',
    )
}

/// The next page of a paginated list, from the value of its `Link` header.
pub open spec fn link_next_spec(link: Option<Seq<char>>) -> Option<Seq<char>> {
    match link {
        None => None,
        Some(l) => {
            let parts = split_seq(l, ',');
            match first_next_part(parts, 0) {
                Some(k) => Some(link_url(parts[k])),
                None => None,
            }
        },
    }
}

/// The view of an optional string slice.
pub open spec fn opt_str_view(o: Option<&str>) -> Option<Seq<char>> {
    match o {
        Some(x) => Some(x@),
        None => None,
    }
}

/// The URL of the next page named by a `Link` header (`None` when the header is absent
/// or names no `rel="next"`).
pub fn parse_link_next(link: Option<&str>) -> (r: Option<String>)
    ensures
        opt_view(r) == link_next_spec(opt_str_view(link)),
{
    match link {
        None => None,
        Some(l) => {
            let parts = split_char(l, ',');
            let n = parts.len();
            let mut i: usize = 0;
            while i < n
                invariant
                    n == parts@.len(),
                    i <= n,
                    opt_str_view(link) == Some(l@),
                    views(parts@) == split_seq(l@, ','),
                    first_next_part(views(parts@), 0) == first_next_part(views(parts@), i as int),
                decreases n - i,
            {
                if contains(parts[i].as_str(), "rel=\"next\"") {
                    let part = trim(parts[i].as_str());
                    let pieces = split_char(part.as_str(), ';');
                    proof {
                        lemma_split_nonempty(part@, ';');
                    }
                    let first = trim(pieces[0].as_str());
                    let no_open = trim_start_char(first.as_str(), '<');
                    let url = trim_end_char(no_open.as_str(), '>');
                    assert(views(parts@)[i as int] == parts@[i as int]@);
                    assert(views(pieces@)[0] == pieces@[0]@);
                    assert(first_next_part(views(parts@), i as int) == Some(i as int));
                    assert(url@ == link_url(views(parts@)[i as int]));
                    assert(opt_str_view(link) == Some(l@));
                    assert(link_next_spec(Some(l@)) == Some(url@));
                    return Some(url);
                }
                assert(views(parts@)[i as int] == parts@[i as int]@);
                i = i + 1;
            }
            None
        },
    }
}

/// The URL to fetch after a page: the next page when fetching all pages, else none.
pub fn next_page_url(fetch_all: bool, next: Option<String>) -> (r: Option<String>)
    ensures
        r == (if fetch_all {
            next
        } else {
            None
        }),
{
    if fetch_all {
        next
    } else {
        None
    }
}

// ---------------------------------------------------------------------------
// Construction
// ---------------------------------------------------------------------------

impl FizzyClient {
    /// The base URL of the client: the override, else the configuration's.
    pub open spec fn chosen_base(config: Config, url_override: Option<Seq<char>>, env_url: Option<String>) -> Seq<
        char,
    > {
        match url_override {
            Some(u) => u,
            None => match first_of(env_url, config.base_url) {
                Some(x) => x,
                None => crate::config::DEFAULT_BASE_URL@,
            },
        }
    }

    /// A client for the account of the configuration (or `account_override`), with its
    /// token; `env_*` are the values of `FIZZY_URL`, `FIZZY_TOKEN` and `FIZZY_ACCOUNT`.
    /// Without a token it fails with [`ConfigError::NotLoggedIn`]; without an account the
    /// slug is empty.
    pub fn new(
        config: &Config,
        account_override: Option<&str>,
        url_override: Option<&str>,
        env_url: Option<String>,
        env_token: Option<String>,
        env_account: Option<String>,
    ) -> (r: Result<Self, ConfigError>)
        ensures
            first_of(env_token, config.token) is None <==> r is Err,
            r matches Err(e) ==> e == ConfigError::NotLoggedIn,
            r matches Ok(c) ==> {
                &&& Some(c.token_view()) == first_of(env_token, config.token)
                &&& c.base_url_view() == Self::chosen_base(
                    *config,
                    match url_override {
                        Some(u) => Some(u@),
                        None => None,
                    },
                    env_url,
                )
                &&& c.slug_view() == match account_override {
                    Some(a) => a@,
                    None => match first_of(env_account, config.account) {
                        Some(a) => a,
                        None => Seq::<char>::empty(),
                    },
                }
            },
    {
        let token = match config.require_token(env_token) {
            Ok(t) => t,
            Err(e) => {
                return Err(e);
            },
        };
        let base_url = match url_override {
            Some(u) => u.to_owned(),
            None => config.base_url(env_url),
        };
        let account_slug = match account_override {
            Some(a) => a.to_owned(),
            None => match config.account(env_account) {
                Some(a) => a,
                None => String::new(),
            },
        };
        Ok(FizzyClient { base_url, account_slug, token })
    }

    /// A client without an account (for the login and identity endpoints).
    pub fn new_unscoped(
        config: &Config,
        url_override: Option<&str>,
        env_url: Option<String>,
        env_token: Option<String>,
    ) -> (r: Result<Self, ConfigError>)
        ensures
            first_of(env_token, config.token) is None <==> r is Err,
            r matches Err(e) ==> e == ConfigError::NotLoggedIn,
            r matches Ok(c) ==> {
                &&& Some(c.token_view()) == first_of(env_token, config.token)
                &&& c.base_url_view() == Self::chosen_base(
                    *config,
                    match url_override {
                        Some(u) => Some(u@),
                        None => None,
                    },
                    env_url,
                )
                &&& c.slug_view() == Seq::<char>::empty()
            },
    {
        let token = match config.require_token(env_token) {
            Ok(t) => t,
            Err(e) => {
                return Err(e);
            },
        };
        let base_url = match url_override {
            Some(u) => u.to_owned(),
            None => config.base_url(env_url),
        };
        Ok(FizzyClient { base_url, account_slug: String::new(), token })
    }

    /// A client with just a token (to verify a login).
    pub fn with_token(base_url: &str, token: &str) -> (c: Self)
        ensures
            c.base_url_view() == base_url@,
            c.token_view() == token@,
            c.slug_view() == Seq::<char>::empty(),
    {
        FizzyClient { base_url: base_url.to_owned(), account_slug: String::new(), token: token.to_owned() }
    }

    /// A client with no credentials (for the magic link flow).
    pub fn unauthenticated(base_url: &str) -> (c: Self)
        ensures
            c.base_url_view() == base_url@,
            c.token_view() == Seq::<char>::empty(),
            c.slug_view() == Seq::<char>::empty(),
    {
        FizzyClient { base_url: base_url.to_owned(), account_slug: String::new(), token: String::new() }
    }

    /// The base URL.
    pub closed spec fn base_url_view(&self) -> Seq<char> {
        self.base_url@
    }

    /// The account slug.
    pub closed spec fn slug_view(&self) -> Seq<char> {
        self.account_slug@
    }

    /// The token.
    pub closed spec fn token_view(&self) -> Seq<char> {
        self.token@
    }

    /// The account slug.
    pub fn account_slug(&self) -> (s: &str)
        ensures
            s@ == self.slug_view(),
    {
        self.account_slug.as_str()
    }

    /// The base URL.
    pub fn base_url(&self) -> (s: &str)
        ensures
            s@ == self.base_url_view(),
    {
        self.base_url.as_str()
    }

    /// The URL of `path` in the account: `<base>/<slug><path>`.
    pub fn account_url(&self, path: &str) -> (u: String)
        ensures
            u@ == self.base_url_view() + "/"@ + self.slug_view() + path@,
    {
        let mut u = self.base_url.clone();
        push_str(&mut u, "/");
        push_str(&mut u, self.account_slug.as_str());
        push_str(&mut u, path);
        u
    }

    /// The URL of `path` outside any account: `<base><path>`.
    pub fn global_url(&self, path: &str) -> (u: String)
        ensures
            u@ == self.base_url_view() + path@,
    {
        concat(self.base_url.as_str(), path)
    }

    /// The `Authorization` header: `Bearer <token>`, left out when there is no token or
    /// when the header value would not be valid.
    pub fn authorization(&self) -> (h: Option<String>)
        ensures
            h is Some <==> self.token_view().len() > 0 && header_text_ok("Bearer "@ + self.token_view()),
            h matches Some(v) ==> v@ == "Bearer "@ + self.token_view(),
    {
        if self.token.as_str().is_empty() {
            return None;
        }
        let v = concat("Bearer ", self.token.as_str());
        if header_value_accepts(v.as_str()) {
            Some(v)
        } else {
            None
        }
    }

    /// The headers of an authenticated request, as (name, value) pairs: `accept`,
    /// `user-agent`, and `authorization` when there is one.
    pub fn default_headers(&self) -> (h: Vec<(String, String)>)
        ensures
            h@.len() >= 2,
            h@[0].0@ == "accept"@ && h@[0].1@ == JSON_MEDIA_TYPE@,
            h@[1].0@ == "user-agent"@ && h@[1].1@ == USER_AGENT@,
            h@.len() == 2 <==> !(self.token_view().len() > 0 && header_text_ok("Bearer "@ + self.token_view())),
            h@.len() == 3 ==> h@[2].0@ == "authorization"@ && h@[2].1@ == "Bearer "@ + self.token_view(),
            h@.len() <= 3,
    {
        let mut h: Vec<(String, String)> = Vec::new();
        h.push(("accept".to_owned(), JSON_MEDIA_TYPE.to_owned()));
        h.push(("user-agent".to_owned(), USER_AGENT.to_owned()));
        match self.authorization() {
            Some(v) => h.push(("authorization".to_owned(), v)),
            None => {},
        }
        h
    }

    /// The URL that creates an access token in `account_slug`.
    pub fn access_tokens_url(&self, account_slug: &str) -> (u: String)
        ensures
            u@ == self.base_url_view() + "/"@ + account_slug@ + "/my/access_tokens"@,
    {
        let mut u = self.base_url.clone();
        push_str(&mut u, "/");
        push_str(&mut u, account_slug);
        push_str(&mut u, "/my/access_tokens");
        u
    }
}

/// The cookie that carries a pending magic link authentication.
pub fn pending_auth_cookie(pending_token: &str) -> (c: String)
    ensures
        c@ == "pending_authentication_token="@ + pending_token@,
{
    concat("pending_authentication_token=", pending_token)
}

/// The cookie that carries a session.
pub fn session_cookie(session_token: &str) -> (c: String)
    ensures
        c@ == "session_token="@ + session_token@,
{
    concat("session_token=", session_token)
}

/// The body that asks for the CLI's access token: described as "fz CLI", with write
/// permission.
pub fn access_token_request() -> (r: CreateAccessTokenRequest)
    ensures
        r.access_token.description@ == "fz CLI"@,
        r.access_token.permission@ == "write"@,
{
    CreateAccessTokenRequest {
        access_token: CreateAccessTokenBody {
            description: "fz CLI".to_owned(),
            permission: "write".to_owned(),
        },
    }
}


/// The client of a command: without an account override the configuration must name an
/// account ([`ConfigError::NoAccount`]), and there must be a token.
pub fn make_client(
    config: &Config,
    account: Option<&str>,
    url: Option<&str>,
    env_url: Option<String>,
    env_token: Option<String>,
    env_account: Option<String>,
) -> (r: Result<FizzyClient, ConfigError>)
    ensures
        account is None && first_of(env_account, config.account) is None ==> r == Err::<FizzyClient, ConfigError>(
            ConfigError::NoAccount,
        ),
        !(account is None && first_of(env_account, config.account) is None) && first_of(env_token, config.token) is None
            ==> r == Err::<FizzyClient, ConfigError>(ConfigError::NotLoggedIn),
        r matches Ok(c) ==> {
            &&& Some(c.token_view()) == first_of(env_token, config.token)
            &&& c.base_url_view() == FizzyClient::chosen_base(*config, opt_str_view(url), env_url)
            &&& c.slug_view() == match account {
                Some(a) => a@,
                None => match first_of(env_account, config.account) {
                    Some(a) => a,
                    None => Seq::<char>::empty(),
                },
            }
        },
        r is Ok <==> (!(account is None && first_of(env_account, config.account) is None) && first_of(
            env_token,
            config.token,
        ) is Some),
{
    if account.is_none() {
        let ea = crate::models::clone_opt_string(&env_account);
        match config.require_account(ea) {
            Ok(_) => {},
            Err(e) => {
                return Err(e);
            },
        }
    }
    FizzyClient::new(config, account, url, env_url, env_token, env_account)
}

} // verus!
