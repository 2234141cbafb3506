use gatewayz_desktop::effects::{Reaction, WindowPlan};
use gatewayz_desktop::intent::{IntentEvent, NavigationIntent};
use gatewayz_desktop::link::ParsedUrl;
use gatewayz_desktop::payload::{first_url, resolve_payload, LogLevel, RouteError};
use gatewayz_desktop::router::{
    chat_intent, dispatch, first_value, handle_deep_link, intent_for, route,
};

fn intent(event: IntentEvent, arg: &str) -> NavigationIntent {
    NavigationIntent { event, arg: arg.to_string() }
}

fn pair(k: &str, v: &str) -> (String, String) {
    (k.to_string(), v.to_string())
}

fn raise() -> WindowPlan {
    WindowPlan { unminimize: false, show: true, focus: true, hide: false }
}

#[test]
fn text_that_is_no_url_is_not_routed() {
    assert_eq!(route("not a url"), None);
    assert_eq!(resolve_payload("not a url"), Err(RouteError::ParseFailure));
    let dropped = dispatch("not a url", true).unwrap_err();
    assert_eq!(dropped, RouteError::ParseFailure);
    assert_eq!(dropped.level(), LogLevel::Warn);
}

#[test]
fn json_array_routes_its_first_url() {
    assert_eq!(
        route("[\"gatewayz://app/chat?id=42\"]"),
        Some(intent(IntentEvent::Navigate, "/chat?id=42"))
    );
}

#[test]
fn chat_without_id_starts_a_new_chat() {
    assert_eq!(route("gatewayz://app/chat"), Some(intent(IntentEvent::NewChat, "")));
}

#[test]
fn auth_callback_forwards_the_raw_query() {
    assert_eq!(
        route("gatewayz://app/auth/callback?code=abc&state=xyz"),
        Some(intent(IntentEvent::AuthCallback, "code=abc&state=xyz"))
    );
}

#[test]
fn auth_callback_without_query_forwards_the_empty_string() {
    assert_eq!(
        route("gatewayz://app/auth/callback"),
        Some(intent(IntentEvent::AuthCallback, ""))
    );
}

#[test]
fn auth_callback_query_is_not_decoded() {
    assert_eq!(
        route("gatewayz://app/auth/callback?code=a%20b+c"),
        Some(intent(IntentEvent::AuthCallback, "code=a%20b+c"))
    );
}

#[test]
fn other_paths_navigate_to_the_path() {
    assert_eq!(
        route("gatewayz://app/settings"),
        Some(intent(IntentEvent::Navigate, "/settings"))
    );
}

#[test]
fn other_paths_drop_the_query() {
    assert_eq!(
        route("gatewayz://app/settings?tab=keys"),
        Some(intent(IntentEvent::Navigate, "/settings"))
    );
}

#[test]
fn root_path_navigates_to_slash() {
    assert_eq!(route("https://example.com"), Some(intent(IntentEvent::Navigate, "/")));
    assert_eq!(route("gatewayz://app/"), Some(intent(IntentEvent::Navigate, "/")));
}

#[test]
fn empty_path_navigates_to_the_empty_string() {
    assert_eq!(route("gatewayz://app"), Some(intent(IntentEvent::Navigate, "")));
}

#[test]
fn path_match_is_exact() {
    assert_eq!(route("gatewayz://app/chat/"), Some(intent(IntentEvent::Navigate, "/chat/")));
    assert_eq!(route("gatewayz://app/Chat"), Some(intent(IntentEvent::Navigate, "/Chat")));
    assert_eq!(
        route("gatewayz://app/auth/callback/x?code=1"),
        Some(intent(IntentEvent::Navigate, "/auth/callback/x"))
    );
}

#[test]
fn empty_json_array_is_not_routed() {
    assert_eq!(route("[]"), None);
    assert_eq!(dispatch("[]", true), Err(RouteError::ParseFailure));
    assert_eq!(dispatch("[]", true).unwrap_err().level(), LogLevel::Warn);
    assert_eq!(
        dispatch("[]", true).unwrap_err().message("[]"),
        "Failed to parse deep link payload: []"
    );
}

#[test]
fn json_that_is_no_string_array_is_not_routed() {
    assert_eq!(route("{\"url\":\"gatewayz://app/chat\"}"), None);
    assert_eq!(route("[1, 2]"), None);
    assert_eq!(route("\"gatewayz://app/chat\""), None);
    assert_eq!(route("[\"gatewayz://app/chat\""), None);
    assert_eq!(route(""), None);
}

#[test]
fn json_array_whose_first_element_is_no_url_is_not_routed() {
    assert_eq!(route("[\"nope\", \"gatewayz://app/chat\"]"), None);
}

#[test]
fn only_the_first_url_of_an_array_counts() {
    assert_eq!(
        route("[\"gatewayz://app/settings\", \"gatewayz://app/chat?id=7\"]"),
        Some(intent(IntentEvent::Navigate, "/settings"))
    );
    assert_eq!(
        route("[\"gatewayz://app/settings\", \"not a url\"]"),
        Some(intent(IntentEvent::Navigate, "/settings"))
    );
}

#[test]
fn json_escapes_are_undone_before_parsing() {
    assert_eq!(
        route("[\"gatewayz:\\/\\/app\\/chat?id=\\u0034\\u0032\"]"),
        Some(intent(IntentEvent::Navigate, "/chat?id=42"))
    );
}

#[test]
fn chat_id_is_form_decoded() {
    assert_eq!(
        route("gatewayz://app/chat?id=a%20b+c"),
        Some(intent(IntentEvent::Navigate, "/chat?id=a b c"))
    );
}

#[test]
fn first_id_wins() {
    assert_eq!(
        route("gatewayz://app/chat?x=1&id=first&id=second"),
        Some(intent(IntentEvent::Navigate, "/chat?id=first"))
    );
}

#[test]
fn empty_id_still_navigates() {
    assert_eq!(
        route("gatewayz://app/chat?id="),
        Some(intent(IntentEvent::Navigate, "/chat?id="))
    );
    assert_eq!(route("gatewayz://app/chat?id"), Some(intent(IntentEvent::Navigate, "/chat?id=")));
}

#[test]
fn chat_with_other_parameters_starts_a_new_chat() {
    assert_eq!(route("gatewayz://app/chat?ID=1&idx=2"), Some(intent(IntentEvent::NewChat, "")));
    assert_eq!(route("gatewayz://app/chat?"), Some(intent(IntentEvent::NewChat, "")));
}

#[test]
fn fragment_is_not_part_of_the_query() {
    assert_eq!(
        route("gatewayz://app/chat?id=9#top"),
        Some(intent(IntentEvent::Navigate, "/chat?id=9"))
    );
    assert_eq!(
        route("gatewayz://app/auth/callback?code=1#frag"),
        Some(intent(IntentEvent::AuthCallback, "code=1"))
    );
}

#[test]
fn parse_splits_a_url_into_its_parts() {
    assert_eq!(
        ParsedUrl::parse("gatewayz://app/chat?id=42"),
        Some(ParsedUrl {
            scheme: "gatewayz".to_string(),
            path: "/chat".to_string(),
            query: Some("id=42".to_string()),
        })
    );
    assert_eq!(
        ParsedUrl::parse("HTTPS://Example.com/a%20b"),
        Some(ParsedUrl {
            scheme: "https".to_string(),
            path: "/a%20b".to_string(),
            query: None,
        })
    );
    assert_eq!(ParsedUrl::parse("/relative/path"), None);
    assert_eq!(ParsedUrl::parse("gatewayz://app/chat"), resolve_payload("gatewayz://app/chat").ok());
}

#[test]
fn query_pairs_are_decoded_in_order() {
    let url = ParsedUrl {
        scheme: "gatewayz".to_string(),
        path: "/chat".to_string(),
        query: Some("b=2&a=1&&c&d=x%3Dy".to_string()),
    };
    assert_eq!(
        url.query_pairs(),
        vec![pair("b", "2"), pair("a", "1"), pair("c", ""), pair("d", "x=y")]
    );
    assert_eq!(url.query_or_empty(), "b=2&a=1&&c&d=x%3Dy");
    let bare = ParsedUrl { scheme: "s".to_string(), path: "/".to_string(), query: None };
    assert_eq!(bare.query_pairs(), Vec::<(String, String)>::new());
    assert_eq!(bare.query_or_empty(), "");
}

#[test]
fn first_url_reads_only_the_head() {
    assert_eq!(first_url(&Vec::new()), None);
    assert_eq!(first_url(&vec!["zzz".to_string(), "a://b/c".to_string()]), None);
    assert_eq!(
        first_url(&vec!["a://b/c".to_string(), "zzz".to_string()]),
        Some(ParsedUrl { scheme: "a".to_string(), path: "/c".to_string(), query: None })
    );
}

#[test]
fn first_value_finds_the_earliest_pair() {
    let pairs = vec![pair("a", "1"), pair("id", "x"), pair("id", "y")];
    assert_eq!(first_value(&pairs, "id"), Some("x".to_string()));
    assert_eq!(first_value(&pairs, "a"), Some("1".to_string()));
    assert_eq!(first_value(&pairs, "b"), None);
    assert_eq!(first_value(&Vec::new(), "id"), None);
}

#[test]
fn chat_intent_from_pairs() {
    assert_eq!(chat_intent(&vec![pair("id", "42")]), intent(IntentEvent::Navigate, "/chat?id=42"));
    assert_eq!(chat_intent(&vec![pair("q", "42")]), intent(IntentEvent::NewChat, ""));
    assert_eq!(chat_intent(&Vec::new()), intent(IntentEvent::NewChat, ""));
    assert_eq!(
        chat_intent(&vec![pair("id", "a&b=c")]),
        intent(IntentEvent::Navigate, "/chat?id=a&b=c")
    );
}

#[test]
fn intent_for_hand_built_urls() {
    let chat = ParsedUrl {
        scheme: "gatewayz".to_string(),
        path: "/chat".to_string(),
        query: Some("id=5".to_string()),
    };
    assert_eq!(intent_for(&chat), intent(IntentEvent::Navigate, "/chat?id=5"));
    let auth = ParsedUrl {
        scheme: "gatewayz".to_string(),
        path: "/auth/callback".to_string(),
        query: None,
    };
    assert_eq!(intent_for(&auth), intent(IntentEvent::AuthCallback, ""));
    let other = ParsedUrl {
        scheme: "gatewayz".to_string(),
        path: "/models".to_string(),
        query: Some("id=5".to_string()),
    };
    assert_eq!(intent_for(&other), intent(IntentEvent::Navigate, "/models"));
}

#[test]
fn delivery_raises_the_window_then_emits() {
    assert_eq!(
        dispatch("gatewayz://app/settings", true),
        Ok(Reaction {
            window: raise(),
            emit: Some(intent(IntentEvent::Navigate, "/settings")),
            exit: None,
        })
    );
    assert_eq!(
        dispatch("gatewayz://app/chat", true),
        Ok(Reaction { window: raise(), emit: Some(intent(IntentEvent::NewChat, "")), exit: None })
    );
}

#[test]
fn link_without_a_window_is_dropped() {
    assert_eq!(dispatch("gatewayz://app/settings", false), Err(RouteError::NoActiveWindow));
    let url = ParsedUrl::parse("gatewayz://app/chat?id=1").unwrap();
    assert_eq!(handle_deep_link(&url, false), Err(RouteError::NoActiveWindow));
}

#[test]
fn parse_failure_comes_before_the_window_check() {
    assert_eq!(dispatch("not a url", false), Err(RouteError::ParseFailure));
    assert_eq!(dispatch("not a url", true), Err(RouteError::ParseFailure));
}

#[test]
fn routing_twice_gives_the_same_outcome() {
    for payload in [
        "gatewayz://app/chat?id=42",
        "[\"gatewayz://app/auth/callback?code=abc\"]",
        "not a url",
        "[]",
    ] {
        assert_eq!(route(payload), route(payload));
        assert_eq!(dispatch(payload, true), dispatch(payload, true));
        assert_eq!(dispatch(payload, false), dispatch(payload, false));
    }
}

#[test]
fn every_absolute_url_is_routed() {
    for url in [
        "gatewayz://app/chat",
        "gatewayz://app/auth/callback",
        "gatewayz://app/anything/else",
        "https://example.com/x?y=z",
        "mailto:someone@example.com",
        "file:///tmp/x",
    ] {
        assert!(ParsedUrl::parse(url).is_some());
        assert!(route(url).is_some());
        assert!(dispatch(url, true).is_ok());
    }
}
