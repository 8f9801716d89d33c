use live_bot::command::CommandError;
use live_bot::reply::{command_error_reply, display_name, load_report, ping_reply, status_reply, Reply};
use live_bot::reporter::ReporterGuard;
use live_bot::status::{classify, search_request, token_request, Credentials, LiveStatus, StatusError};
use live_bot::text::{push_decimal, push_hundredths, push_seconds};

fn creds() -> Credentials {
    Credentials { client_id: "cid".to_string(), client_secret: "SECRET-REDACTED".to_string() }
}

#[test]
fn decimal_of_zero_and_large() {
    let mut s = String::new();
    push_decimal(&mut s, 0);
    assert_eq!(s, "0");
    let mut s = "n=".to_string();
    push_decimal(&mut s, 18446744073709551615);
    assert_eq!(s, "n=18446744073709551615");
}

#[test]
fn seconds_are_zero_padded() {
    let mut s = String::new();
    push_seconds(&mut s, 0);
    assert_eq!(s, "0.000000000");
    let mut s = String::new();
    push_seconds(&mut s, 12_000_000_345);
    assert_eq!(s, "12.000000345");
}

#[test]
fn hundredths_have_two_digits() {
    let mut s = String::new();
    push_hundredths(&mut s, 5);
    assert_eq!(s, "0.05");
    let mut s = String::new();
    push_hundredths(&mut s, 12345);
    assert_eq!(s, "123.45");
}

#[test]
fn ping_reply_holds_name_and_elapsed_seconds() {
    let r = ping_reply("alice", 1_500_000_000);
    assert_eq!(
        r,
        "I received a ping! \n Their name in this guild is alice \n This message took 1.500000000 seconds to generate."
    );
    assert!(!r.contains('-'));
}

#[test]
fn nickname_is_preferred() {
    assert_eq!(display_name(Some("Nick".to_string()), "account".to_string()), "Nick");
    assert_eq!(display_name(None, "account".to_string()), "account");
}

#[test]
fn command_error_texts() {
    assert_eq!(command_error_reply(CommandError::NotInGuild), "This command only works in a server.");
    assert_eq!(command_error_reply(CommandError::UsageError), "Usage: !islive <username>");
}

#[test]
fn token_request_carries_credentials() {
    let r = token_request(&creds());
    assert_eq!(
        r.url,
        "https://id.twitch.tv/oauth2/token?client_id=cid&client_secret=SECRET-REDACTED&grant_type=client_credentials"
    );
}

#[test]
fn search_request_after_token() {
    let r = search_request(&creds(), "foo", Some("tok".to_string())).unwrap();
    assert_eq!(r.url, "https://api.twitch.tv/helix/search/channels?query=foo");
    assert_eq!(r.client_id, "cid");
    assert_eq!(r.authorization, "Bearer tok");
}

#[test]
fn failed_token_exchange_is_auth_failure() {
    assert!(matches!(search_request(&creds(), "foo", None), Err(StatusError::AuthFailure)));
    match status_reply("foo", &Err(StatusError::AuthFailure), 0) {
        Reply::Text(t) => assert_eq!(t, "The status check for foo failed."),
        Reply::Embed(_) => panic!("expected a text reply"),
    }
}

#[test]
fn live_channel_gives_live_embed() {
    let r = classify("foo", Some(vec![true]));
    assert_eq!(r, Ok(LiveStatus { username: "foo".to_string(), is_live: true }));
    match status_reply("foo", &r, 250_000_000) {
        Reply::Embed(e) => {
            assert_eq!(e.title, "Is foo live on Twitch?");
            assert_eq!(e.fields.len(), 1);
            assert_eq!(e.fields[0].name, "foo's status");
            assert_eq!(e.fields[0].value, "foo is currently live.");
            assert!(e.fields[0].value.contains("foo is currently live."));
            assert_eq!(e.footer, Some("Message Generated in 0.250000000 seconds.".to_string()));
        }
        Reply::Text(_) => panic!("expected an embed"),
    }
}

#[test]
fn first_channel_decides() {
    let r = classify("baz", Some(vec![false, true]));
    assert_eq!(r, Ok(LiveStatus { username: "baz".to_string(), is_live: false }));
    match status_reply("baz", &r, 0) {
        Reply::Embed(e) => assert_eq!(e.fields[0].value, "baz is currently not live."),
        Reply::Text(_) => panic!("expected an embed"),
    }
}

#[test]
fn empty_search_is_not_found() {
    let r = classify("bar", Some(vec![]));
    assert_eq!(r, Err(StatusError::NotFound));
    match status_reply("bar", &r, 0) {
        Reply::Text(t) => {
            assert_eq!(t, "Channel bar not found.");
            assert!(t.contains("not found"));
        }
        Reply::Embed(_) => panic!("expected a text reply"),
    }
}

#[test]
fn failed_search_is_fetch_error() {
    let r = classify("qux", None);
    assert_eq!(r, Err(StatusError::FetchError));
    match status_reply("qux", &r, 0) {
        Reply::Text(t) => assert_eq!(t, "The status check for qux failed."),
        Reply::Embed(_) => panic!("expected a text reply"),
    }
}

#[test]
fn load_report_fields() {
    let e = load_report(123, 2_048_000);
    assert_eq!(e.title, "System Resource Load");
    assert_eq!(e.fields.len(), 2);
    assert_eq!(e.fields[0].name, "CPU Load Average");
    assert_eq!(e.fields[0].value, "1.23%");
    assert_eq!(e.fields[1].name, "Used Memory");
    assert_eq!(e.fields[1].value, "2048 MB");
    assert!(e.footer.is_none());
}

#[test]
fn load_report_small_values() {
    let e = load_report(5, 999);
    assert_eq!(e.fields[0].value, "0.05%");
    assert_eq!(e.fields[1].value, "0 MB");
}

#[test]
fn reporter_starts_once() {
    let mut g = ReporterGuard::new();
    assert!(!g.is_running());
    let first = g.try_start();
    let second = g.try_start();
    assert!(first);
    assert!(!second);
    assert!(g.is_running());
}
