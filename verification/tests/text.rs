use matrix_rocketchat::i18n::VarName;
use matrix_rocketchat::text::{char_is_whitespace, contains_text, join, split_whitespace, starts_with};

#[test]
fn whitespace_agrees_with_the_standard_library() {
    let mut code: u32 = 0;
    while code <= 0x10ffff {
        if let Some(c) = char::from_u32(code) {
            assert_eq!(char_is_whitespace(c), c.is_whitespace(), "U+{:04X}", code);
        }
        code += 1;
    }
}

#[test]
fn tokens_are_the_runs_between_whitespace() {
    assert_eq!(split_whitespace("  connect \t https://rc.example\ntok1  srv1 "), vec!["connect", "https://rc.example", "tok1", "srv1"]);
    assert_eq!(split_whitespace(""), Vec::<String>::new());
    assert_eq!(split_whitespace(" \u{3000} "), Vec::<String>::new());
    assert_eq!(split_whitespace("help"), vec!["help"]);
}

#[test]
fn prefixes_and_occurrences() {
    assert!(starts_with("@rocketchat_user:hs", "@rocketchat"));
    assert!(!starts_with("@rocket", "@rocketchat"));
    assert!(starts_with("abc", ""));
    assert!(contains_text("other_userDMRocketChat_id", "DMRocketChat"));
    assert!(!contains_text("other_userDMRocketCha", "DMRocketChat"));
    assert!(contains_text("abc", ""));
}

#[test]
fn join_puts_the_separator_between_neighbours() {
    assert_eq!(join(&vec!["@a:hs".to_string(), "@b:hs".to_string()], ", "), "@a:hs, @b:hs");
    assert_eq!(join(&vec!["@a:hs".to_string()], ", "), "@a:hs");
    assert_eq!(join(&Vec::new(), ", "), "");
}

#[test]
fn the_variables_have_the_names_that_the_catalogue_uses() {
    let names = [
        (VarName::AsUrl, "as_url"),
        (VarName::ServerList, "server_list"),
        (VarName::RocketchatUrl, "rocketchat_url"),
        (VarName::MatrixUserId, "matrix_user_id"),
        (VarName::ChannelList, "channel_list"),
        (VarName::ChannelName, "channel_name"),
        (VarName::RocketchatServerId, "rocketchat_server_id"),
        (VarName::MaxRocketchatServerIdLength, "max_rocketchat_server_id_length"),
        (VarName::Token, "token"),
        (VarName::Users, "users"),
    ];
    for (var, name) in names {
        assert_eq!(var.name(), name);
    }
}

/// Texts over a small alphabet that holds whitespace of several kinds, in a fixed order.
fn samples() -> Vec<String> {
    let alphabet = ['a', 'b', ' ', '\t', '\n', '\u{a0}', '\u{2003}', '\u{3000}', 'é', '_'];
    let mut samples = vec![String::new()];
    let mut state: u64 = 0x2545_f491_4f6c_dd1d;
    for _ in 0..2000 {
        state ^= state << 13;
        state ^= state >> 7;
        state ^= state << 17;
        let length = (state % 12) as usize;
        let mut text = String::new();
        let mut digits = state >> 8;
        for _ in 0..length {
            text.push(alphabet[(digits % 10) as usize]);
            digits /= 10;
        }
        samples.push(text);
    }
    samples
}

#[test]
fn tokens_agree_with_the_standard_library() {
    for text in samples() {
        let expected = text.split_whitespace().map(|token| token.to_string()).collect::<Vec<String>>();
        assert_eq!(split_whitespace(&text), expected, "{:?}", text);
    }
}

#[test]
fn prefixes_and_occurrences_agree_with_the_standard_library() {
    let samples = samples();
    for (text, other) in samples.iter().zip(samples.iter().skip(1)) {
        let short = other.chars().take(2).collect::<String>();
        assert_eq!(starts_with(text, &short), text.starts_with(short.as_str()), "{:?} {:?}", text, short);
        assert_eq!(contains_text(text, &short), text.contains(short.as_str()), "{:?} {:?}", text, short);
        assert_eq!(starts_with(text, other), text.starts_with(other.as_str()));
        assert_eq!(contains_text(text, other), text.contains(other.as_str()));
    }
}

#[test]
fn the_words_from_an_index_on_are_put_together() {
    let words = split_whitespace("login alice hun ter 2");
    assert_eq!(matrix_rocketchat::text::concat_tokens(&words, 2), "hunter2");
    assert_eq!(matrix_rocketchat::text::concat_tokens(&words, 0), "loginalicehunter2");
    assert_eq!(matrix_rocketchat::text::concat_tokens(&words, 4), "2");
    assert_eq!(matrix_rocketchat::text::concat_tokens(&words, 5), "");
    assert_eq!(matrix_rocketchat::text::concat_tokens(&words, 9), "");
}
