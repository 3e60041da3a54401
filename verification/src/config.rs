//! The global configuration (`config.toml`) and how its values combine with the
//! environment: `FIZZY_URL`, `FIZZY_TOKEN` and `FIZZY_ACCOUNT` take precedence over the file.
use vstd::prelude::*;

use crate::text::{concat, push_str, str_eq};

verus! {

/// The API base URL used when neither the environment nor the file names one.
pub const DEFAULT_BASE_URL: &'static str = "https://app.fizzy.do";

/// The file name of the global configuration inside its directory.
pub const CONFIG_FILE: &'static str = "config.toml";

/// Why a command cannot go on with the configuration it has.
#[derive(Debug, PartialEq, Eq, Structural)]
pub enum ConfigError {
    /// No token in the environment or the file.
    NotLoggedIn,
    /// No account in the environment or the file.
    NoAccount,
    /// No board from the flag, the project file or the global file.
    NoBoard,
    /// `set` was given a key other than `account`, `url` or `board`.
    UnknownKey,
}

impl ConfigError {
    /// The message that the command line prints for this error.
    pub open spec fn message_spec(self, key: Seq<char>) -> Seq<char> {
        match self {
            ConfigError::NotLoggedIn => "Not logged in. Run `fz login` first."@,
            ConfigError::NoAccount =>
                "No account set. Run `fz accounts` then `fz set account <slug>`."@,
            ConfigError::NoBoard => "No board specified. Run `fz init` or use --board <id>."@,
            ConfigError::UnknownKey => "Unknown config key: "@ + key
                + ". Valid keys: account, url, board"@,
        }
    }

    /// The message for this error; `key` is the key that `set` was given.
    pub fn message(&self, key: &str) -> (m: String)
        ensures
            m@ == self.message_spec(key@),
    {
        match self {
            ConfigError::NotLoggedIn => "Not logged in. Run `fz login` first.".to_owned(),
            ConfigError::NoAccount =>
                "No account set. Run `fz accounts` then `fz set account <slug>`.".to_owned(),
            ConfigError::NoBoard => "No board specified. Run `fz init` or use --board <id>.".to_owned(),
            ConfigError::UnknownKey => {
                let mut m = concat("Unknown config key: ", key);
                push_str(&mut m, ". Valid keys: account, url, board");
                m
            },
        }
    }
}

/// The first of two optional strings that is present.
pub open spec fn first_of(a: Option<String>, b: Option<String>) -> Option<Seq<char>> {
    match a {
        Some(x) => Some(x@),
        None => match b {
            Some(y) => Some(y@),
            None => None,
        },
    }
}

/// The view of an optional string.
pub open spec fn opt_view(a: Option<String>) -> Option<Seq<char>> {
    match a {
        Some(x) => Some(x@),
        None => None,
    }
}

fn first_present(a: &Option<String>, b: &Option<String>) -> (r: Option<String>)
    ensures
        opt_view(r) == first_of(*a, *b),
{
    match a {
        Some(x) => Some(x.clone()),
        None => match b {
            Some(y) => Some(y.clone()),
            None => None,
        },
    }
}

/// The global configuration file.
#[derive(Debug)]
pub struct Config {
    pub base_url: Option<String>,
    pub account: Option<String>,
    pub token: Option<String>,
    pub board: Option<String>,
}

impl Default for Config {
    fn default() -> (c: Self)
        ensures
            c.base_url is None,
            c.account is None,
            c.token is None,
            c.board is None,
    {
        Config { base_url: None, account: None, token: None, board: None }
    }
}

impl Config {
    /// The path of the configuration file inside `config_dir` (`Path::join`).
    pub open spec fn config_path_spec(config_dir: Seq<char>) -> Seq<char> {
        if config_dir.len() == 0 || config_dir.last() == '/' {
            config_dir + CONFIG_FILE@
        } else {
            config_dir + "/"@ + CONFIG_FILE@
        }
    }

    /// The path of the configuration file inside `config_dir`.
    pub fn config_path(config_dir: &str) -> (p: String)
        ensures
            p@ == Self::config_path_spec(config_dir@),
    {
        let mut p = config_dir.to_owned();
        let v = crate::text::chars_of(config_dir);
        if v.len() == 0 || v[v.len() - 1] == '/' {
            push_str(&mut p, CONFIG_FILE);
        } else {
            push_str(&mut p, "/");
            push_str(&mut p, CONFIG_FILE);
        }
        p
    }

    /// The base URL: `FIZZY_URL` (given as `env_url`), else the file, else the default.
    pub fn base_url(&self, env_url: Option<String>) -> (u: String)
        ensures
            u@ == match first_of(env_url, self.base_url) {
                Some(x) => x,
                None => DEFAULT_BASE_URL@,
            },
    {
        match first_present(&env_url, &self.base_url) {
            Some(x) => x,
            None => DEFAULT_BASE_URL.to_owned(),
        }
    }

    /// The token: `FIZZY_TOKEN` (given as `env_token`), else the file.
    pub fn token(&self, env_token: Option<String>) -> (t: Option<String>)
        ensures
            opt_view(t) == first_of(env_token, self.token),
    {
        first_present(&env_token, &self.token)
    }

    /// The token, or [`ConfigError::NotLoggedIn`] when there is none.
    pub fn require_token(&self, env_token: Option<String>) -> (r: Result<String, ConfigError>)
        ensures
            first_of(env_token, self.token) is None <==> r is Err,
            r matches Err(e) ==> e == ConfigError::NotLoggedIn,
            r matches Ok(t) ==> Some(t@) == first_of(env_token, self.token),
    {
        match self.token(env_token) {
            Some(t) => Ok(t),
            None => Err(ConfigError::NotLoggedIn),
        }
    }

    /// The account: `FIZZY_ACCOUNT` (given as `env_account`), else the file.
    pub fn account(&self, env_account: Option<String>) -> (a: Option<String>)
        ensures
            opt_view(a) == first_of(env_account, self.account),
    {
        first_present(&env_account, &self.account)
    }

    /// The account, or [`ConfigError::NoAccount`] when there is none.
    pub fn require_account(&self, env_account: Option<String>) -> (r: Result<String, ConfigError>)
        ensures
            first_of(env_account, self.account) is None <==> r is Err,
            r matches Err(e) ==> e == ConfigError::NoAccount,
            r matches Ok(a) ==> Some(a@) == first_of(env_account, self.account),
    {
        match self.account(env_account) {
            Some(a) => Ok(a),
            None => Err(ConfigError::NoAccount),
        }
    }

    /// The configuration after `set key value` on `self`, for a key that `set` knows.
    pub open spec fn set_spec(self, key: Seq<char>, value: Seq<char>, n: Config) -> bool {
        &&& key == "account"@ ==> opt_view(n.account) == Some(value) && n.base_url == self.base_url
            && n.board == self.board
        &&& key == "url"@ ==> opt_view(n.base_url) == Some(value) && n.account == self.account
            && n.board == self.board
        &&& key == "board"@ ==> opt_view(n.board) == Some(value) && n.account == self.account
            && n.base_url == self.base_url
        &&& n.token == self.token
    }

    /// `set <key> <value>`: sets `account`, `url` (the base URL) or `board`, and returns
    /// the confirmation to print; any other key is refused and nothing changes.
    pub fn set_value(&mut self, key: &str, value: &str) -> (r: Result<String, ConfigError>)
        ensures
            key@ == "account"@ ==> opt_view(final(self).account) == Some(value@) && (
            r matches Ok(m) && m@ == "Account set to: "@ + value@),
            key@ == "url"@ ==> opt_view(final(self).base_url) == Some(value@) && (
            r matches Ok(m) && m@ == "Base URL set to: "@ + value@),
            key@ == "board"@ ==> opt_view(final(self).board) == Some(value@) && (
            r matches Ok(m) && m@ == "Default board set to: "@ + value@),
            key@ == "account"@ || key@ == "url"@ || key@ == "board"@ ==> {
                &&& key@ != "account"@ ==> final(self).account == old(self).account
                &&& key@ != "url"@ ==> final(self).base_url == old(self).base_url
                &&& key@ != "board"@ ==> final(self).board == old(self).board
                &&& final(self).token == old(self).token
            },
            !(key@ == "account"@ || key@ == "url"@ || key@ == "board"@) ==> r == Err::<
                String,
                ConfigError,
            >(ConfigError::UnknownKey) && *final(self) == *old(self),
            old(self).set_spec(key@, value@, *final(self)),
    {
        proof {
            reveal_strlit("account");
            reveal_strlit("url");
            reveal_strlit("board");
            assert("account"@.len() == 7);
            assert("url"@.len() == 3);
            assert("board"@.len() == 5);
        }
        if str_eq(key, "account") {
            self.account = Some(value.to_owned());
            Ok(concat("Account set to: ", value))
        } else if str_eq(key, "url") {
            self.base_url = Some(value.to_owned());
            Ok(concat("Base URL set to: ", value))
        } else if str_eq(key, "board") {
            self.board = Some(value.to_owned());
            Ok(concat("Default board set to: ", value))
        } else {
            Err(ConfigError::UnknownKey)
        }
    }
}


impl Config {
    /// What `config` shows: the file, the base URL, the account, the default board, and
    /// whether a token is set.
    pub open spec fn summary_spec(
        self,
        path: Seq<char>,
        env_url: Option<String>,
        env_token: Option<String>,
        env_account: Option<String>,
    ) -> Seq<Seq<char>> {
        seq![
            "Config file: "@ + path,
            "Base URL:    "@ + match first_of(env_url, self.base_url) {
                Some(u) => u,
                None => DEFAULT_BASE_URL@,
            },
            "Account:     "@ + match first_of(env_account, self.account) {
                Some(a) => a,
                None => "(not set)"@,
            },
            "Board:       "@ + match self.board {
                Some(b) => b@,
                None => "(not set)"@,
            },
            "Token:       "@ + if first_of(env_token, self.token) is Some {
                "(set)"@
            } else {
                "(not set)"@
            },
        ]
    }

    /// The lines of `config`; `path` is the configuration file and `env_*` the values of
    /// `FIZZY_URL`, `FIZZY_TOKEN` and `FIZZY_ACCOUNT`.
    pub fn summary_lines(
        &self,
        path: &str,
        env_url: Option<String>,
        env_token: Option<String>,
        env_account: Option<String>,
    ) -> (r: Vec<String>)
        ensures
            crate::text::views(r@) == self.summary_spec(path@, env_url, env_token, env_account),
    {
        let ghost eu = env_url;
        let ghost et = env_token;
        let ghost ea = env_account;
        let mut r: Vec<String> = Vec::new();
        r.push(concat("Config file: ", path));
        let url = self.base_url(env_url);
        r.push(concat("Base URL:    ", url.as_str()));
        let account = match self.account(env_account) {
            Some(a) => a,
            None => "(not set)".to_owned(),
        };
        r.push(concat("Account:     ", account.as_str()));
        let board = match &self.board {
            Some(b) => b.clone(),
            None => "(not set)".to_owned(),
        };
        r.push(concat("Board:       ", board.as_str()));
        let token = if self.token(env_token).is_some() {
            "(set)".to_owned()
        } else {
            "(not set)".to_owned()
        };
        r.push(concat("Token:       ", token.as_str()));
        assert(crate::text::views(r@) =~= self.summary_spec(path@, eu, et, ea));
        r
    }
}

/// What `set` writes is what `config` then shows, unless the environment overrides it:
/// after `set account|url|board <value>` the matching line shows `value`, and every other
/// line shows what it showed before.
pub proof fn law_set_then_show(
    o: Config,
    n: Config,
    key: Seq<char>,
    value: Seq<char>,
    path: Seq<char>,
    env_token: Option<String>,
)
    requires
        key == "account"@ || key == "url"@ || key == "board"@,
        o.set_spec(key, value, n),
    ensures
        ({
            let before = o.summary_spec(path, None, env_token, None);
            let after = n.summary_spec(path, None, env_token, None);
            let line: int = if key == "url"@ {
                1
            } else if key == "account"@ {
                2
            } else {
                3
            };
            &&& after.len() == before.len()
            &&& after[line] == if key == "url"@ {
                "Base URL:    "@ + value
            } else if key == "account"@ {
                "Account:     "@ + value
            } else {
                "Board:       "@ + value
            }
            &&& forall|i: int| 0 <= i < before.len() && i != line ==> after[i] == before[i]
        }),
{
    reveal_strlit("account");
    reveal_strlit("url");
    reveal_strlit("board");
    assert("account"@.len() == 7);
    assert("url"@.len() == 3);
    assert("board"@.len() == 5);
}

} // verus!
