use deeplink_shell::deep_link_channel_name;
use deeplink_shell::dispatch::Emitter;
use deeplink_shell::dispatch::extract_payload;
use deeplink_shell::dispatch::handle_invocation;
use deeplink_shell::dispatch::handle_open_url;
use deeplink_shell::dispatch::handle_startup;
use deeplink_shell::url_value::UrlValue;

fn url(s: &str) -> UrlValue {
    UrlValue::parse(s).expect("valid URL")
}

#[test]
fn channel_name_is_fixed() {
    assert_eq!(deep_link_channel_name(), "deep-link");
}

#[test]
fn query_is_forwarded_once() {
    let mut emitter = Emitter::new();
    let urls = vec![url("myapp://callback?token=abc123")];
    let forwarded = handle_invocation(&mut emitter, &urls);
    assert!(forwarded);
    assert_eq!(emitter.sent.len(), 1);
    assert_eq!(emitter.sent[0].channel, "deep-link");
    assert_eq!(emitter.sent[0].body, "token=abc123");
}

#[test]
fn missing_query_forwards_nothing() {
    let mut emitter = Emitter::new();
    let urls = vec![url("myapp://callback")];
    let forwarded = handle_invocation(&mut emitter, &urls);
    assert!(!forwarded);
    assert_eq!(emitter.sent.len(), 0);
}

#[test]
fn empty_query_is_still_forwarded() {
    let mut emitter = Emitter::new();
    let urls = vec![url("myapp://callback?")];
    let forwarded = handle_invocation(&mut emitter, &urls);
    assert!(forwarded);
    assert_eq!(emitter.sent.len(), 1);
    assert_eq!(emitter.sent[0].body, "");
}

#[test]
fn trailing_urls_are_ignored() {
    let mut emitter = Emitter::new();
    let urls = vec![url("myapp://callback?x=1"), url("myapp://other?y=2")];
    let forwarded = handle_invocation(&mut emitter, &urls);
    assert!(forwarded);
    assert_eq!(emitter.sent.len(), 1);
    assert_eq!(emitter.sent[0].body, "x=1");

    let mut single = Emitter::new();
    let one = vec![url("myapp://callback?x=1")];
    handle_invocation(&mut single, &one);
    assert_eq!(single.sent.len(), emitter.sent.len());
    assert_eq!(single.sent[0].channel, emitter.sent[0].channel);
    assert_eq!(single.sent[0].body, emitter.sent[0].body);
}

#[test]
fn replay_forwards_twice() {
    let mut emitter = Emitter::new();
    let urls = vec![url("myapp://callback?token=abc123")];
    assert!(handle_invocation(&mut emitter, &urls));
    assert!(handle_invocation(&mut emitter, &urls));
    assert_eq!(emitter.sent.len(), 2);
    assert_eq!(emitter.sent[0].body, "token=abc123");
    assert_eq!(emitter.sent[1].body, "token=abc123");
}

#[test]
fn startup_and_subscription_paths_agree() {
    let urls = vec![url("myapp://callback?token=abc123")];

    let mut via_startup = Emitter::new();
    let startup_forwarded = handle_startup(&mut via_startup, Some(vec![url(
        "myapp://callback?token=abc123",
    )]));

    let mut via_subscription = Emitter::new();
    let subscription_forwarded = handle_open_url(&mut via_subscription, &urls);

    assert_eq!(startup_forwarded, subscription_forwarded);
    assert_eq!(via_startup.sent.len(), via_subscription.sent.len());
    assert_eq!(via_startup.sent[0].channel, via_subscription.sent[0].channel);
    assert_eq!(via_startup.sent[0].body, via_subscription.sent[0].body);
}

#[test]
fn startup_without_invocation_is_a_noop() {
    let mut emitter = Emitter::new();
    let forwarded = handle_startup(&mut emitter, None);
    assert!(!forwarded);
    assert_eq!(emitter.sent.len(), 0);
}

#[test]
fn extract_payload_reads_first_url_only() {
    let urls = vec![url("myapp://callback?x=1"), url("myapp://other?y=2")];
    assert_eq!(extract_payload(&urls), Some("x=1".to_string()));

    let bare = vec![url("myapp://callback")];
    assert_eq!(extract_payload(&bare), None);
}

#[test]
fn parse_reads_the_query_component() {
    let u = url("https://example.com/products?page=2");
    assert_eq!(u.query, Some("page=2".to_string()));

    let bare = url("https://example.com/products");
    assert_eq!(bare.query, None);
}

#[test]
fn parse_rejects_invalid_urls() {
    assert!(UrlValue::parse("not a url").is_none());
    assert!(UrlValue::parse("").is_none());
}
