use h2_priority::frame::StreamId;
use h2_priority::profile::PseudoType::{Authority, Method, Path, Scheme};
use h2_priority::profile::{AgentProfile, PseudoType, CLIENT_PROFILE_HEADER};

fn header(name: &str, value: &str) -> (String, String) {
    (name.to_string(), value.to_string())
}

#[test]
fn okhttp_pseudo_order_and_unknown_token() {
    assert_eq!(
        AgentProfile::from("okhttp").to_pseudo(),
        [PseudoType::Method, PseudoType::Path, PseudoType::Authority, PseudoType::Scheme]
    );
    assert_eq!(AgentProfile::from("bogus"), AgentProfile::from("chrome"));
}

#[test]
fn pseudo_orders() {
    assert_eq!(AgentProfile::Chrome.to_pseudo(), [Method, Authority, Scheme, Path]);
    assert_eq!(AgentProfile::Edge.to_pseudo(), [Method, Authority, Scheme, Path]);
    assert_eq!(AgentProfile::Firefox.to_pseudo(), [Method, Path, Authority, Scheme]);
    assert_eq!(AgentProfile::Safari.to_pseudo(), [Method, Scheme, Path, Authority]);
}

#[test]
fn tokens_read_back() {
    for p in [
        AgentProfile::Chrome,
        AgentProfile::Firefox,
        AgentProfile::Safari,
        AgentProfile::Edge,
        AgentProfile::OkHttp,
    ] {
        let (name, token) = p.to_header();
        assert_eq!(name, CLIENT_PROFILE_HEADER);
        assert_eq!(AgentProfile::from(token.as_str()), p);
    }
    assert_eq!(AgentProfile::Safari.to_header().1, "safari");
}

#[test]
fn unknown_tokens_give_chrome() {
    for t in ["", "Chrome", "SAFARI", "edge ", "firefoxx", "ok", "\u{e9}dge"] {
        assert_eq!(AgentProfile::from(t), AgentProfile::Chrome);
    }
    assert_eq!(AgentProfile::default(), AgentProfile::Chrome);
}

#[test]
fn default_stream_dependencies() {
    let d = AgentProfile::Chrome.to_stream_dependency();
    assert_eq!(d.dependency_id(), StreamId::zero());
    assert_eq!(d.weight(), 255);
    assert!(d.is_exclusive());
    let d = AgentProfile::OkHttp.to_stream_dependency();
    assert_eq!(d.weight(), 255);
    assert!(d.is_exclusive());
    let d = AgentProfile::Safari.to_stream_dependency();
    assert_eq!(d.dependency_id(), StreamId::zero());
    assert_eq!(d.weight(), 254);
    assert!(!d.is_exclusive());
}

#[test]
fn from_headers_strips_profile_header_and_keeps_order() {
    let mut hs = vec![
        header("accept", "*/*"),
        header("x-client-profile", "safari"),
        header("user-agent", "test"),
        header("cookie", "a=1"),
    ];
    let p = AgentProfile::from_headers(&mut hs);
    assert_eq!(p, AgentProfile::Safari);
    assert_eq!(
        hs,
        vec![header("accept", "*/*"), header("user-agent", "test"), header("cookie", "a=1")]
    );
    // a second pass finds nothing and changes nothing
    let again = AgentProfile::from_headers(&mut hs);
    assert_eq!(again, AgentProfile::Chrome);
    assert_eq!(hs.len(), 3);
}

#[test]
fn from_headers_without_profile_header() {
    let original = vec![header("accept", "*/*"), header("x-client", "okhttp")];
    let mut hs = original.clone();
    assert_eq!(AgentProfile::from_headers(&mut hs), AgentProfile::Chrome);
    assert_eq!(hs, original);
    let mut empty: Vec<(String, String)> = Vec::new();
    assert_eq!(AgentProfile::from_headers(&mut empty), AgentProfile::Chrome);
    assert!(empty.is_empty());
}

#[test]
fn from_headers_name_ignores_case_and_first_wins() {
    let mut hs = vec![
        header("X-Client-Profile", "okhttp"),
        header("host", "example.com"),
        header("x-client-profile", "firefox"),
    ];
    assert_eq!(AgentProfile::from_headers(&mut hs), AgentProfile::OkHttp);
    assert_eq!(hs, vec![header("host", "example.com")]);
}

#[test]
fn from_headers_unknown_value_gives_chrome() {
    let mut hs = vec![header("x-client-profile", "netscape"), header("a", "b")];
    assert_eq!(AgentProfile::from_headers(&mut hs), AgentProfile::Chrome);
    assert_eq!(hs, vec![header("a", "b")]);
}
