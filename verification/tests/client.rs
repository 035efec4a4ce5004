use ptd_cli::client::{accept_reply, new_request, ReplyError};
use ptd_cli::protocol::{HostMessage, RequestMessage, ResponseMessage};
use ptd_cli::text::{push_decimal, starts_with};

#[test]
fn new_request_has_a_uuid_id() {
    let msg = new_request("getDownloaderList", serde_json::Value::Null);
    match msg {
        HostMessage::Request(r) => {
            assert_eq!(r.method, "getDownloaderList");
            assert!(r.params.is_null());
            assert_eq!(r.id.len(), 36);
            let chars: Vec<char> = r.id.chars().collect();
            for (i, c) in chars.iter().enumerate() {
                if i == 8 || i == 13 || i == 18 || i == 23 {
                    assert_eq!(*c, '-');
                } else {
                    assert!(c.is_ascii_hexdigit() && !c.is_ascii_uppercase());
                }
            }
            assert_eq!(chars[14], '4');
        }
        other => panic!("expected Request, got {:?}", other),
    }
    let a = new_request("m", serde_json::Value::Null);
    let b = new_request("m", serde_json::Value::Null);
    match (a, b) {
        (HostMessage::Request(x), HostMessage::Request(y)) => assert_ne!(x.id, y.id),
        _ => panic!("expected requests"),
    }
}

#[test]
fn only_responses_are_accepted() {
    let ok = accept_reply(HostMessage::Response(ResponseMessage::success("r1".into(), serde_json::Value::Null)));
    assert_eq!(ok.unwrap().id, "r1");
    let bad = accept_reply(HostMessage::Request(RequestMessage {
        id: "r1".into(),
        method: "m".into(),
        params: serde_json::Value::Null,
    }));
    assert!(matches!(bad, Err(ReplyError::UnexpectedMessage)));
}

#[test]
fn text_helpers() {
    let mut s = String::from("n=");
    push_decimal(&mut s, 0);
    assert_eq!(s, "n=0");
    let mut s = String::new();
    push_decimal(&mut s, 1234567890);
    assert_eq!(s, "1234567890");
    assert!(starts_with("abc", "ab"));
    assert!(starts_with("abc", ""));
    assert!(!starts_with("ab", "abc"));
    assert!(starts_with("日本語", "日本"));
    assert!(!starts_with("abc", "b"));
}
