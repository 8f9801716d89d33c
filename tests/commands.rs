use live_bot::command::{dispatch, tokenize, Action, CommandError};

#[test]
fn empty_text_has_one_empty_token() {
    assert_eq!(tokenize(""), vec![String::new()]);
}

#[test]
fn double_space_keeps_empty_token() {
    assert_eq!(tokenize("a  b"), vec!["a".to_string(), String::new(), "b".to_string()]);
}

#[test]
fn trailing_space_gives_trailing_empty_token() {
    assert_eq!(tokenize("!islive "), vec!["!islive".to_string(), String::new()]);
}

#[test]
fn unrecognized_command_is_ignored() {
    assert_eq!(dispatch("hello world", true), Action::Ignore);
    assert_eq!(dispatch("!pingpong", true), Action::Ignore);
    assert_eq!(dispatch("ping", false), Action::Ignore);
}

#[test]
fn empty_message_is_ignored() {
    assert_eq!(dispatch("", true), Action::Ignore);
}

#[test]
fn ping_in_guild_pings() {
    assert_eq!(dispatch("!ping", true), Action::Ping);
}

#[test]
fn ping_with_extra_tokens_still_pings() {
    assert_eq!(dispatch("!ping now", true), Action::Ping);
}

#[test]
fn ping_outside_guild_reports_not_in_guild() {
    assert_eq!(dispatch("!ping", false), Action::Report(CommandError::NotInGuild));
}

#[test]
fn islive_without_username_is_usage_error() {
    assert_eq!(dispatch("!islive", true), Action::Report(CommandError::UsageError));
}

#[test]
fn islive_with_two_usernames_is_usage_error() {
    assert_eq!(dispatch("!islive a b", true), Action::Report(CommandError::UsageError));
}

#[test]
fn islive_with_username_checks() {
    assert_eq!(dispatch("!islive foo", false), Action::CheckLive { username: "foo".to_string() });
}
