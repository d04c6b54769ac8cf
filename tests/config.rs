use chat_relay::config::{is_ws_scheme, UrlError, WsUrl};

#[test]
fn websocket_urls_are_accepted() {
    let u = WsUrl::from_str("ws://127.0.0.1:8000/ws/room/lobby").unwrap();
    assert_eq!(u.as_str(), "ws://127.0.0.1:8000/ws/room/lobby");
    assert!(WsUrl::from_str("wss://chat.example.org/ws/room/a").is_ok());
    assert!(WsUrl::from_str("WS://host/").is_ok());
}

#[test]
fn other_schemes_are_refused() {
    assert_eq!(WsUrl::from_str("http://127.0.0.1:8000/"), Err(UrlError::NotWebSocket));
    assert_eq!(WsUrl::from_str("wsx://host/"), Err(UrlError::NotWebSocket));
}

#[test]
fn non_urls_are_refused() {
    assert_eq!(WsUrl::from_str("not a url"), Err(UrlError::Unparsable));
    assert_eq!(WsUrl::from_str(""), Err(UrlError::Unparsable));
}

#[test]
fn websocket_schemes() {
    assert!(is_ws_scheme("ws"));
    assert!(is_ws_scheme("wss"));
    assert!(!is_ws_scheme("w"));
    assert!(!is_ws_scheme("wsss"));
    assert!(!is_ws_scheme("http"));
}
