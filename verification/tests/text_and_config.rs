use fizzy::models::{Timestamp, MAX_DISPLAY_SECS, MIN_DISPLAY_SECS};
use fizzy::board_ui::{lines_of, truncate as cut_title, user_initials};
use fizzy::config::{Config, ConfigError, DEFAULT_BASE_URL};
use fizzy::output::truncate as cut_cell;
use fizzy::project::ProjectConfig;
use fizzy::text::{byte_len, join, parse_u64, split_char, split_words, trim, u64_to_string};

fn config() -> Config {
    Config { base_url: None, account: None, token: None, board: None }
}

#[test]
fn numbers_print_and_parse() {
    assert_eq!(u64_to_string(0), "0");
    assert_eq!(u64_to_string(18446744073709551615), "18446744073709551615");
    assert_eq!(parse_u64("18446744073709551615"), Some(u64::MAX));
    assert_eq!(parse_u64("18446744073709551616"), None);
    assert_eq!(parse_u64("+12"), Some(12));
    assert_eq!(parse_u64(""), None);
    assert_eq!(parse_u64("1a"), None);
    for n in [0u64, 7, 10, 12345] {
        assert_eq!(parse_u64(&u64_to_string(n)), Some(n));
    }
}

#[test]
fn splitting_trimming_joining() {
    assert_eq!(trim("  a b \n"), "a b");
    assert_eq!(split_char("a,,b,", ','), vec!["a", "", "b", ""]);
    assert_eq!(split_words("  Ada \t Lovelace  "), vec!["Ada", "Lovelace"]);
    assert_eq!(join(&vec!["x".to_string(), "y".to_string()], ", "), "x, y");
}

#[test]
fn byte_lengths_follow_utf8() {
    assert_eq!(byte_len("abc"), 3);
    assert_eq!(byte_len("é"), 2);
    assert_eq!(byte_len("★"), 3);
    assert_eq!(byte_len("😀"), 4);
}

#[test]
fn table_cells_are_cut_with_dots() {
    assert_eq!(cut_cell("short", 10), "short");
    assert_eq!(cut_cell("abcdefghij", 8), "abcde...");
    assert_eq!(cut_cell("abcdef", 2), "...");
    for s in ["a very long title for a card", "tiny"] {
        assert!(cut_cell(s, 12).len() <= 12);
    }
}

#[test]
fn titles_are_cut_with_an_ellipsis() {
    assert_eq!(cut_title("short", 10), "short");
    assert_eq!(cut_title("abcdefghij", 5), "abcd…");
    assert_eq!(cut_title("abcdefghij", 1), "…");
    assert_eq!(cut_title("abcdefghij", 0), "…");
}

#[test]
fn initials_are_upper_case_first_letters() {
    assert_eq!(user_initials("ada lovelace"), "AL");
    assert_eq!(user_initials("  grace   brewster hopper "), "GBH");
    assert_eq!(user_initials(""), "");
    assert_eq!(user_initials("élodie"), "É");
}

#[test]
fn text_lines_drop_line_endings() {
    assert_eq!(lines_of("a\r\nb\nc"), vec!["a", "b", "c"]);
    assert_eq!(lines_of("a\n"), vec!["a"]);
    assert_eq!(lines_of(""), Vec::<String>::new());
    assert_eq!(lines_of("a\n\nb\r"), vec!["a", "", "b\r"]);
}

#[test]
fn config_path_joins_the_directory() {
    assert_eq!(Config::config_path("/home/u/.config/fizzy"), "/home/u/.config/fizzy/config.toml");
    assert_eq!(Config::config_path("/tmp/"), "/tmp/config.toml");
}

#[test]
fn environment_wins_over_the_file() {
    let mut c = config();
    assert_eq!(c.base_url(None), DEFAULT_BASE_URL);
    c.base_url = Some("https://file".into());
    assert_eq!(c.base_url(None), "https://file");
    assert_eq!(c.base_url(Some("https://env".into())), "https://env");
    assert_eq!(c.require_token(None), Err(ConfigError::NotLoggedIn));
    c.token = Some("t1".into());
    assert_eq!(c.require_token(None), Ok("t1".to_string()));
    assert_eq!(c.require_token(Some("t2".into())), Ok("t2".to_string()));
    assert_eq!(c.require_account(None), Err(ConfigError::NoAccount));
    assert_eq!(c.require_account(Some("acct".into())), Ok("acct".to_string()));
}

#[test]
fn error_messages() {
    assert_eq!(ConfigError::NotLoggedIn.message(""), "Not logged in. Run `fz login` first.");
    assert_eq!(
        ConfigError::NoAccount.message(""),
        "No account set. Run `fz accounts` then `fz set account <slug>`."
    );
    assert_eq!(ConfigError::NoBoard.message(""), "No board specified. Run `fz init` or use --board <id>.");
    assert_eq!(ConfigError::UnknownKey.message("color"), "Unknown config key: color. Valid keys: account, url, board");
}

#[test]
fn set_then_read_each_key() {
    let mut c = config();
    assert_eq!(c.set_value("account", "123"), Ok("Account set to: 123".to_string()));
    assert_eq!(c.account(None), Some("123".to_string()));
    assert_eq!(c.set_value("url", "https://x"), Ok("Base URL set to: https://x".to_string()));
    assert_eq!(c.base_url(None), "https://x");
    assert_eq!(c.set_value("board", "b9"), Ok("Default board set to: b9".to_string()));
    assert_eq!(c.board.as_deref(), Some("b9"));
    assert_eq!(c.set_value("nope", "v"), Err(ConfigError::UnknownKey));
    assert_eq!(c.account(None), Some("123".to_string()));
}

#[test]
fn config_summary_lines() {
    let c = Config { base_url: None, account: Some("77".into()), token: None, board: None };
    assert_eq!(
        c.summary_lines("/p/config.toml", None, Some("tok".into()), None),
        vec![
            "Config file: /p/config.toml",
            "Base URL:    https://app.fizzy.do",
            "Account:     77",
            "Board:       (not set)",
            "Token:       (set)",
        ]
    );
}

#[test]
fn project_file_and_root() {
    let p = ProjectConfig::load_or_default(None);
    assert_eq!(p.board_id(&config()), None);
    let global = Config { base_url: None, account: None, token: None, board: Some("g".into()) };
    assert_eq!(p.board_id(&global), Some("g".to_string()));
    let loaded = ProjectConfig { board_id: Some("b".into()), account: None };
    assert_eq!(ProjectConfig::load_or_default(Some(loaded)).board_id(&global), Some("b".to_string()));
    assert_eq!(ProjectConfig::project_root(Some("/work/app/.fz.toml")), Some("/work/app".to_string()));
    assert_eq!(ProjectConfig::project_root(Some("/.fz.toml")), Some("/".to_string()));
    assert_eq!(ProjectConfig::project_root(None), None);
}

#[test]
fn set_board_then_config_shows_it() {
    let mut c = Config { base_url: None, account: Some("77".into()), token: None, board: None };
    let before = c.summary_lines("/p/config.toml", None, None, None);
    assert!(c.set_value("board", "b9").is_ok());
    let after = c.summary_lines("/p/config.toml", None, None, None);
    assert_eq!(after[3], "Board:       b9");
    for i in [0usize, 1, 2, 4] {
        assert_eq!(after[i], before[i]);
    }
}

#[test]
fn displayable_instants_are_the_ones_chrono_accepts() {
    assert!(Timestamp { secs: MIN_DISPLAY_SECS, nanos: 0 }.is_displayable());
    assert!(!Timestamp { secs: MIN_DISPLAY_SECS - 1, nanos: 0 }.is_displayable());
    assert!(Timestamp { secs: MAX_DISPLAY_SECS, nanos: 999_999_999 }.is_displayable());
    assert!(!Timestamp { secs: MAX_DISPLAY_SECS + 1, nanos: 0 }.is_displayable());
    // A leap second: only in the last second of a minute.
    assert!(Timestamp { secs: 59, nanos: 1_500_000_000 }.is_displayable());
    assert!(Timestamp { secs: -1, nanos: 1_500_000_000 }.is_displayable());
    assert!(!Timestamp { secs: 58, nanos: 1_500_000_000 }.is_displayable());
    assert!(!Timestamp { secs: 59, nanos: 2_000_000_000 }.is_displayable());
}
