use mirror_bot::command::{parse_managram_command, ManagramCommands, MarketIdentifier, MirrorTarget};
use mirror_bot::text::{
    fixed_to_decimal,
    i64_to_decimal, parse_u64, replace_str, split_whitespace, str_eq, truncate_end_string, truncate_middle_string,
    u64_to_decimal,
};

#[test]
fn words_split_on_any_whitespace() {
    assert_eq!(split_whitespace("  mirror\thttps://x.y/z \n --force "), vec!["mirror", "https://x.y/z", "--force"]);
    assert_eq!(split_whitespace("a\u{3000}b\u{a0}c"), vec!["a", "b", "c"]);
    assert!(split_whitespace("").is_empty());
    assert!(split_whitespace(" \t\n ").is_empty());
    assert_eq!(split_whitespace("banana"), vec!["banana"]);
}

#[test]
fn decimal_rendering() {
    assert_eq!(u64_to_decimal(0), "0");
    assert_eq!(u64_to_decimal(35), "35");
    assert_eq!(u64_to_decimal(u64::MAX), "18446744073709551615");
    assert_eq!(i64_to_decimal(-1), "-1");
    assert_eq!(i64_to_decimal(i64::MIN), "-9223372036854775808");
    assert_eq!(i64_to_decimal(12345), "12345");
}

#[test]
fn unsigned_parsing_matches_std() {
    for s in ["0", "007", "+12", "18446744073709551615", "18446744073709551616", "", "+", "-1", "1a", " 1"] {
        assert_eq!(parse_u64(s), s.parse::<u64>().ok(), "input {:?}", s);
    }
}

#[test]
fn replacing_is_left_to_right_and_non_overlapping() {
    for (s, p, t) in [("aaa", "aa", "b"), ("||x|| and || x ||", "||x||", "5"), ("abc", "d", "e"), ("", "a", "b")] {
        assert_eq!(replace_str(s, p, t), s.replace(p, t));
    }
}

#[test]
fn string_equality() {
    assert!(str_eq("abc", "abc"));
    assert!(!str_eq("abc", "abd"));
    assert!(!str_eq("abc", "ab"));
}

#[test]
fn truncation_keeps_the_title_end() {
    let t = "[Metaculus] abcdefghijklmnopqrstuvwxyz".to_string();
    let r = truncate_middle_string(t.clone(), 20, 5);
    assert_eq!(r, "[Metaculus] ...vwxyz");
    assert_eq!(r.chars().count(), 20);
    assert_eq!(truncate_middle_string("short".to_string(), 20, 5), "short");
    assert_eq!(truncate_end_string("abcdefghij".to_string(), 6), "abc...");
    assert_eq!(truncate_end_string("abc".to_string(), 6), "abc");
}

#[test]
fn mirror_target_normalizes_the_id() {
    let t = MirrorTarget::parse_arg("https://www.metaculus.com/questions/0012345/some-title/").ok().unwrap();
    assert_eq!(t.source_id, "12345");
    let t = MirrorTarget::parse_arg("https://www.metaculus.com/questions/+7").ok().unwrap();
    assert_eq!(t.source_id, "7");
}

#[test]
fn mirror_target_errors() {
    let err = |s: &str| MirrorTarget::parse_arg(s).err().unwrap();
    assert_eq!(err("not a url"), "Invalid URL");
    assert_eq!(err("https://kalshi.com/markets/abc"), "Managram mirroring for Kalshi has not been implemented yet.");
    assert_eq!(err("https://example.com/questions/1"), "Unrecognized host `example.com`");
    assert_eq!(err("https://www.metaculus.com/notebooks/1"), "Failed to parse Metaculus question url");
    assert_eq!(err("https://www.metaculus.com/questions"), "Missing Metaculus question id");
    assert_eq!(err("https://www.metaculus.com/questions/abc/"), "Metaculus question id must be a positive integer");
}

#[test]
fn market_identifier_errors() {
    let err = |s: &str| MarketIdentifier::parse_arg(s).err().unwrap();
    assert_eq!(err("nope"), "Invalid url");
    assert_eq!(err("https://example.com/a/b"), "invalid Manifold host");
    assert_eq!(err("https://manifold.markets/user"), "Missing market slug");
    assert_eq!(err("https://manifold.markets/user/Bad_Slug"), "Invalid market slug");
    let long = format!("https://manifold.markets/user/{}", "a".repeat(101));
    assert_eq!(err(&long), "Invalid market slug");
    assert!(MarketIdentifier::parse_arg("https://dev.manifold.markets/user/ok-slug-2").is_ok());
}

#[test]
fn command_grammar() {
    match parse_managram_command("mirror https://www.metaculus.com/questions/42/ --force") {
        Ok(ManagramCommands::Mirror(a)) => {
            assert_eq!(a.target.source_id, "42");
            assert!(a.force);
        }
        other => panic!("unexpected {:?}", other),
    }
    match parse_managram_command("mirror --force https://www.metaculus.com/questions/42/") {
        Ok(ManagramCommands::Mirror(a)) => assert!(a.force),
        other => panic!("unexpected {:?}", other),
    }
    match parse_managram_command("mirror https://www.metaculus.com/questions/42/") {
        Ok(ManagramCommands::Mirror(a)) => assert!(!a.force),
        other => panic!("unexpected {:?}", other),
    }
    assert!(matches!(parse_managram_command("ping"), Ok(ManagramCommands::Ping)));
    match parse_managram_command("hello there") {
        Ok(ManagramCommands::Unknown(w)) => assert_eq!(w, vec!["hello", "there"]),
        other => panic!("unexpected {:?}", other),
    }
    assert!(matches!(parse_managram_command(""), Ok(ManagramCommands::Unknown(w)) if w.is_empty()));
    assert!(matches!(parse_managram_command("Ping"), Ok(ManagramCommands::Unknown(_))));
}

#[test]
fn command_grammar_errors() {
    let err = |s: &str| parse_managram_command(s).err().unwrap();
    assert_eq!(err("mirror"), "The following required argument was not provided: <TARGET>");
    assert_eq!(err("resolve"), "The following required argument was not provided: <TARGET>");
    assert_eq!(err("ping now"), "unexpected argument 'now' found");
    assert_eq!(err("resolve https://manifold.markets/a/b extra"), "unexpected argument 'extra' found");
    assert_eq!(err("mirror https://a.b/ https://c.d/"), "unexpected argument 'https://c.d/' found");
    assert_eq!(err("mirror nope"), "invalid value 'nope' for '<TARGET>': Invalid URL");
    assert_eq!(
        err("resolve https://example.com/a/b"),
        "invalid value 'https://example.com/a/b' for '<TARGET>': invalid Manifold host"
    );
}

#[test]
fn fixed_point_rendering() {
    assert_eq!(fixed_to_decimal(35_000_000), "35");
    assert_eq!(fixed_to_decimal(35_500_000), "35.5");
    assert_eq!(fixed_to_decimal(1), "0.000001");
    assert_eq!(fixed_to_decimal(10_250_000), "10.25");
    assert_eq!(fixed_to_decimal(0), "0");
}
