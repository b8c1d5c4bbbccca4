use crud::config::{Config, ConfigError};
use crud::guessing::{compare_guess, read_guess, GuessGame, GuessOutcome, GuessReply, SECRET_HIGH, SECRET_LOW};
use crud::ownership::{get_len_with_brow, get_length, get_with_ref, update_str};
use crud::request_id::request_id_or_new;

#[test]
fn length_counts_bytes() {
    assert_eq!(get_length(String::from("hello")), 5);
    assert_eq!(get_length(String::from("héllo")), 6);
    assert_eq!(get_length(String::new()), 0);
}

#[test]
fn length_with_borrow_gives_the_string_back() {
    let (s, len) = get_len_with_brow(String::from("hello"));
    assert_eq!(s, "hello");
    assert_eq!(len, 5);
}

#[test]
fn length_through_reference_keeps_the_string() {
    let s = String::from("hello");
    assert_eq!(get_with_ref(&s), 5);
    assert_eq!(s, "hello");
}

#[test]
fn update_appends_world() {
    let mut s = String::from("hello");
    update_str(&mut s);
    assert_eq!(s, "hello world");
    update_str(&mut s);
    assert_eq!(s, "hello world world");
}

#[test]
fn guesses_are_read_after_trimming() {
    assert_eq!(read_guess("42\n"), Some(42));
    assert_eq!(read_guess("  7 \r\n"), Some(7));
    assert_eq!(read_guess("+15"), Some(15));
    assert_eq!(read_guess("007"), Some(7));
    assert_eq!(read_guess("\u{3000}12\u{a0}"), Some(12));
    assert_eq!(read_guess("4294967295"), Some(u32::MAX));
}

#[test]
fn non_numbers_are_refused() {
    assert_eq!(read_guess(""), None);
    assert_eq!(read_guess("\n"), None);
    assert_eq!(read_guess("+"), None);
    assert_eq!(read_guess("-1"), None);
    assert_eq!(read_guess("abc"), None);
    assert_eq!(read_guess("1 2"), None);
    assert_eq!(read_guess("4294967296"), None);
    assert_eq!(read_guess("٣"), None);
}

#[test]
fn comparison_names_the_side() {
    assert_eq!(compare_guess(60, 50), GuessOutcome::TooBig);
    assert_eq!(compare_guess(40, 50), GuessOutcome::TooSmall);
    assert_eq!(compare_guess(50, 50), GuessOutcome::Win);
}

#[test]
fn a_game_ends_on_the_secret() {
    let mut g = GuessGame::with_secret(50);
    assert!(!g.is_over());
    assert_eq!(g.guess("60\n"), GuessReply::TooBig);
    assert_eq!(g.guess("forty\n"), GuessReply::NotANumber);
    assert!(!g.is_over());
    assert_eq!(g.guess("40\n"), GuessReply::TooSmall);
    assert!(!g.is_over());
    assert_eq!(g.guess(" 50 \n"), GuessReply::Win);
    assert!(g.is_over());
    assert_eq!(g.secret(), 50);
}

#[test]
fn replies_have_their_lines() {
    assert_eq!(GuessReply::NotANumber.message(), "Please type a number!");
    assert_eq!(GuessReply::TooBig.message(), "Too big!");
    assert_eq!(GuessReply::TooSmall.message(), "Too small!");
    assert_eq!(GuessReply::Win.message(), "You win!");
}

#[test]
fn secrets_lie_between_1_and_100() {
    for _ in 0..200 {
        let g = GuessGame::new();
        assert!(g.secret() >= SECRET_LOW && g.secret() <= SECRET_HIGH);
        assert!(!g.is_over());
    }
    assert_eq!(SECRET_LOW, 1);
    assert_eq!(SECRET_HIGH, 100);
}

fn some(s: &str) -> Option<String> {
    Some(s.to_string())
}

#[test]
fn config_takes_defaults() {
    let c = Config::from_vars(None, None, some("postgres://db"), None, None).ok().unwrap();
    assert_eq!(c.host, "0.0.0.0");
    assert_eq!(c.port, 8080);
    assert_eq!(c.database_url, "postgres://db");
    assert_eq!(c.log_level, "info");
    assert_eq!(c.app_env, "development");
}

#[test]
fn config_takes_given_values() {
    let c = Config::from_vars(some("127.0.0.1"), some("3000"), some("pg"), some("debug"), some("production"))
        .ok()
        .unwrap();
    assert_eq!(c.host, "127.0.0.1");
    assert_eq!(c.port, 3000);
    assert_eq!(c.database_url, "pg");
    assert_eq!(c.log_level, "debug");
    assert_eq!(c.app_env, "production");
}

#[test]
fn config_refuses_bad_ports_first() {
    let bad = |p: &str| Config::from_vars(None, some(p), some("pg"), None, None).err();
    assert_eq!(bad("70000"), Some(ConfigError::InvalidPort));
    assert_eq!(bad(" 80"), Some(ConfigError::InvalidPort));
    assert_eq!(bad("-1"), Some(ConfigError::InvalidPort));
    assert_eq!(bad(""), Some(ConfigError::InvalidPort));
    assert_eq!(
        Config::from_vars(None, Some("65535".to_string()), some("pg"), None, None).ok().unwrap().port,
        65535
    );
    assert_eq!(
        Config::from_vars(None, some("x"), None, None, None).err(),
        Some(ConfigError::InvalidPort)
    );
    assert_eq!(
        Config::from_vars(None, None, None, None, None).err(),
        Some(ConfigError::MissingDatabaseUrl)
    );
}

#[test]
fn config_errors_have_messages() {
    assert_eq!(ConfigError::InvalidPort.message(), "APP_PORT must be a valid port number");
    assert_eq!(ConfigError::MissingDatabaseUrl.message(), "DATABASE_URL must be set");
}

#[test]
fn request_ids_are_kept_or_made() {
    assert_eq!(request_id_or_new(Some("abc-123".to_string())), "abc-123");
    let id = request_id_or_new(None);
    let c: Vec<char> = id.chars().collect();
    assert_eq!(c.len(), 36);
    for (i, ch) in c.iter().enumerate() {
        if i == 8 || i == 13 || i == 18 || i == 23 {
            assert_eq!(*ch, '-');
        } else {
            assert!(ch.is_ascii_hexdigit() && !ch.is_ascii_uppercase());
        }
    }
    assert_eq!(c[14], '4');
    assert!("89ab".contains(c[19]));
    assert_ne!(request_id_or_new(None), id);
}
