//! Texts, numbers, names and the configuration.

use starship::config::{mask, parse_user_id_list, Config, ConfigError, Vars};
use starship::mention::{channel_i64, list_roles, opt_channel, role_u64, user_u64};
use starship::name_map::NameMap;
use starship::text::{
    contains, dec_i64, dec_u64, eq_ignore_case, find, join, parse_i32, parse_i64, parse_u64,
    parse_usize, split_char, starts_with, take_chars, to_ascii_lower, trim,
};
use starship::unicode::is_white_space;

#[test]
fn white_space_is_that_of_the_standard_library() {
    for n in 0..=0x10FFFFu32 {
        if let Some(c) = char::from_u32(n) {
            assert_eq!(is_white_space(c), c.is_whitespace(), "{n:x}");
        }
    }
}

#[test]
fn trimming_agrees_with_the_standard_library() {
    for s in ["", "  ", " a b ", "\u{3000}x\n", "x", "\u{200b}x "] {
        assert_eq!(trim(s), s.trim());
    }
}

#[test]
fn numbers_are_written_and_read_back() {
    for n in [0i64, 7, -7, 10, 1234567890, i64::MAX, i64::MIN] {
        assert_eq!(dec_i64(n), n.to_string());
        assert_eq!(parse_i64(&dec_i64(n)), Some(n));
    }
    assert_eq!(dec_u64(u64::MAX), u64::MAX.to_string());
}

#[test]
fn numbers_are_read_as_the_standard_library_does() {
    for s in [
        "", "-", "+", "+5", "-5", "--5", "005", " 5", "5 ", "5a", "4294967296", "-2147483648",
        "2147483647", "2147483648", "18446744073709551615", "18446744073709551616",
        "9223372036854775808", "-9223372036854775808", "-9223372036854775809", "-0",
    ] {
        assert_eq!(parse_i32(s), s.parse::<i32>().ok(), "{s}");
        assert_eq!(parse_i64(s), s.parse::<i64>().ok(), "{s}");
    }
    for s in ["", "+", "+5", "0", "18446744073709551615", "18446744073709551616", "x", "-5"] {
        assert_eq!(parse_u64(s), s.parse::<u64>().ok(), "{s}");
        assert_eq!(parse_usize(s), s.parse::<usize>().ok(), "{s}");
    }
}

#[test]
fn pieces_and_parts() {
    assert_eq!(split_char("a:b::c", ':'), vec!["a", "b", "", "c"]);
    assert_eq!(split_char("", ':'), vec![""]);
    assert_eq!(join(&vec!["a".to_string(), "b".to_string()], ", "), "a, b");
    assert!(contains("snake_pit_key", "key"));
    assert!(!contains("snake", "key"));
    assert!(starts_with("hc:1", "hc:"));
    assert_eq!(take_chars("äöü", 2), "äö");
    assert_eq!(to_ascii_lower("AbÄ"), "abÄ");
    assert!(eq_ignore_case("Elite", "eLITE"));
    let hay: Vec<char> = "abcabc".chars().collect();
    let part: Vec<char> = "ca".chars().collect();
    assert_eq!(find(&hay, 0, &part), Some(2));
    assert_eq!(find(&hay, 3, &part), None);
}

#[test]
fn mentions() {
    assert_eq!(channel_i64(5), "<#5>");
    assert_eq!(role_u64(6), "<@&6>");
    assert_eq!(user_u64(7), "<@7>");
    assert_eq!(opt_channel(None, "_none_"), "_none_");
    assert_eq!(opt_channel(Some(9), "_none_"), "<#9>");
    assert_eq!(list_roles(&vec![1, 2], "_none_"), "<@&1> <@&2>");
    assert_eq!(list_roles(&vec![], "_none_"), "_none_");
}

#[test]
fn name_maps_keep_the_last_value_and_the_first_place() {
    let mut m: NameMap<u32> = NameMap::new();
    m.insert("b", 1);
    m.insert("a", 2);
    m.insert("b", 3);
    assert_eq!(m.len(), 2);
    assert_eq!(m.get("b"), Some(&3));
    assert_eq!(m.get("c"), None);
    assert!(m.contains("a"));
    assert!(!m.contains("c"));
    assert_eq!(m.name_at(0), "b");
    assert_eq!(*m.value_at(1), 2);
}

fn vars() -> Vars {
    Vars {
        discord_token: Some("token".to_string()),
        discord_application_id: Some("42".to_string()),
        discord_test_guild_id: None,
        database_url: Some("postgres://x".to_string()),
        realmeye_user_agent: None,
        error_dm_user_ids: None,
    }
}

#[test]
fn configuration_is_read() {
    let c = Config::from_vars(vars()).expect("complete");
    assert_eq!(c.discord_token, "token");
    assert_eq!(c.discord_application_id, 42);
    assert_eq!(c.discord_test_guild_id, None);
    assert_eq!(c.database_url, "postgres://x");
    assert!(!c.realmeye_user_agent.is_empty());
    assert!(c.error_dm_user_ids.is_empty());
    let mut v = vars();
    v.discord_test_guild_id = Some("9".to_string());
    v.realmeye_user_agent = Some("me".to_string());
    v.error_dm_user_ids = Some(" 1, ,2 ".to_string());
    let c = Config::from_vars(v).expect("complete");
    assert_eq!(c.discord_test_guild_id, Some(9));
    assert_eq!(c.realmeye_user_agent, "me");
    assert_eq!(c.error_dm_user_ids, vec![1, 2]);
}

#[test]
fn configuration_errors_are_told_apart() {
    let cases: Vec<(fn(&mut Vars), ConfigError, &str)> = vec![
        (|v| v.discord_token = None, ConfigError::TokenMissing, "DISCORD_TOKEN must be set"),
        (
            |v| v.discord_application_id = None,
            ConfigError::ApplicationIdMissing,
            "DISCORD_APPLICATION_ID must be set",
        ),
        (
            |v| v.discord_application_id = Some("x".to_string()),
            ConfigError::ApplicationIdInvalid,
            "DISCORD_APPLICATION_ID must be a valid u64",
        ),
        (
            |v| v.discord_test_guild_id = Some("x".to_string()),
            ConfigError::TestGuildInvalid,
            "DISCORD_TEST_GUILD_ID must be a valid u64 if set",
        ),
        (|v| v.database_url = None, ConfigError::DatabaseUrlMissing, "DATABASE_URL must be set"),
        (
            |v| v.error_dm_user_ids = Some("1,x".to_string()),
            ConfigError::ErrorDmIdsInvalid,
            "ERROR_DM_USER_IDS must be a comma-separated list of u64 Discord IDs",
        ),
    ];
    for (change, error, text) in cases {
        let mut v = vars();
        change(&mut v);
        match Config::from_vars(v) {
            Ok(_) => panic!("accepted: {text}"),
            Err(e) => {
                assert_eq!(e, error);
                assert_eq!(e.message(), text);
            }
        }
    }
}

#[test]
fn user_id_lists() {
    assert_eq!(parse_user_id_list("".to_string()).unwrap(), Vec::<u64>::new());
    assert_eq!(parse_user_id_list("5".to_string()).unwrap(), vec![5]);
    assert_eq!(parse_user_id_list(",5,,6,".to_string()).unwrap(), vec![5, 6]);
    assert!(parse_user_id_list("5;6".to_string()).is_err());
}

#[test]
fn configurations_are_shown_masked() {
    let mut c = Config {
        discord_token: format!("MTE0{}", "x".repeat(68)),
        discord_application_id: 5,
        discord_test_guild_id: Some(6),
        database_url: "postgres://me:pw@host/db".to_string(),
        realmeye_user_agent: "a \"bot\"".to_string(),
        error_dm_user_ids: vec![7, 8],
    };
    assert_eq!(
        c.shown(),
        "Config { discord_token: \"MTE0…(72)\", discord_application_id: 5, \
         discord_test_guild_id: Some(6), database_url: \"post…(24)\", \
         realmeye_user_agent: \"a \\\"bot\\\"\", error_dm_user_ids: [7, 8] }"
    );
    c.discord_test_guild_id = None;
    c.error_dm_user_ids.clear();
    assert!(c.shown().contains("discord_test_guild_id: None, "));
    assert!(c.shown().ends_with("error_dm_user_ids: [] }"));
}

#[test]
fn tokens_are_masked() {
    let token = format!("MTE0{}", "x".repeat(68));
    assert_eq!(mask(&token), "MTE0…(72)");
}
